//! The billing service: the two queries of one period, and what their
//! replies say of the month's total and of each service's cost.

use vstd::prelude::*;
use crate::text::same_text;

verus! {

/// What one service cost in the period.
#[derive(Clone, Debug, PartialEq, Eq)]
pub struct BillPerService {
    pub name: String,
    pub bill: String,
}

/// A `BillPerService` as mathematics sees it.
pub ghost struct BillPerServiceView {
    pub name: Seq<char>,
    pub bill: Seq<char>,
}

impl View for BillPerService {
    type V = BillPerServiceView;

    open spec fn view(&self) -> BillPerServiceView {
        BillPerServiceView { name: self.name@, bill: self.bill@ }
    }
}

impl DeepView for BillPerService {
    type V = BillPerServiceView;

    open spec fn deep_view(&self) -> BillPerServiceView {
        self@
    }
}

/// The value of one metric: an amount in decimal, where the service gave one.
#[derive(Clone, Debug, PartialEq, Eq)]
pub struct MetricValue {
    pub amount: Option<String>,
}

/// A `MetricValue` as mathematics sees it.
pub ghost struct MetricValueView {
    pub amount: Option<Seq<char>>,
}

impl View for MetricValue {
    type V = MetricValueView;

    open spec fn view(&self) -> MetricValueView {
        MetricValueView { amount: self.amount.deep_view() }
    }
}

impl DeepView for MetricValue {
    type V = MetricValueView;

    open spec fn deep_view(&self) -> MetricValueView {
        self@
    }
}

/// A metric's name with its value.
#[derive(Clone, Debug, PartialEq, Eq)]
pub struct MetricEntry {
    pub name: String,
    pub value: MetricValue,
}

/// A `MetricEntry` as mathematics sees it.
pub ghost struct MetricEntryView {
    pub name: Seq<char>,
    pub value: MetricValueView,
}

impl View for MetricEntry {
    type V = MetricEntryView;

    open spec fn view(&self) -> MetricEntryView {
        MetricEntryView { name: self.name@, value: self.value@ }
    }
}

impl DeepView for MetricEntry {
    type V = MetricEntryView;

    open spec fn deep_view(&self) -> MetricEntryView {
        self@
    }
}

/// One group of a grouped reply: its keys and its metrics.
#[derive(Clone, Debug, PartialEq, Eq)]
pub struct CostGroup {
    pub keys: Vec<String>,
    pub metrics: Option<Vec<MetricEntry>>,
}

/// A `CostGroup` as mathematics sees it.
pub ghost struct CostGroupView {
    pub keys: Seq<Seq<char>>,
    pub metrics: Option<Seq<MetricEntryView>>,
}

impl View for CostGroup {
    type V = CostGroupView;

    open spec fn view(&self) -> CostGroupView {
        CostGroupView { keys: self.keys.deep_view(), metrics: self.metrics.deep_view() }
    }
}

impl DeepView for CostGroup {
    type V = CostGroupView;

    open spec fn deep_view(&self) -> CostGroupView {
        self@
    }
}

/// What the reply holds for one stretch of time: the total per metric, where
/// the query was not grouped, and the groups.
#[derive(Clone, Debug, PartialEq, Eq)]
pub struct ResultByTime {
    pub total: Option<Vec<MetricEntry>>,
    pub groups: Vec<CostGroup>,
}

/// A `ResultByTime` as mathematics sees it.
pub ghost struct ResultByTimeView {
    pub total: Option<Seq<MetricEntryView>>,
    pub groups: Seq<CostGroupView>,
}

impl View for ResultByTime {
    type V = ResultByTimeView;

    open spec fn view(&self) -> ResultByTimeView {
        ResultByTimeView { total: self.total.deep_view(), groups: self.groups.deep_view() }
    }
}

impl DeepView for ResultByTime {
    type V = ResultByTimeView;

    open spec fn deep_view(&self) -> ResultByTimeView {
        self@
    }
}

/// The reply to a cost query.
#[derive(Clone, Debug, PartialEq, Eq)]
pub struct CostAndUsage {
    pub results_by_time: Vec<ResultByTime>,
}

/// A `CostAndUsage` as mathematics sees it.
pub ghost struct CostAndUsageView {
    pub results_by_time: Seq<ResultByTimeView>,
}

impl View for CostAndUsage {
    type V = CostAndUsageView;

    open spec fn view(&self) -> CostAndUsageView {
        CostAndUsageView { results_by_time: self.results_by_time.deep_view() }
    }
}

impl DeepView for CostAndUsage {
    type V = CostAndUsageView;

    open spec fn deep_view(&self) -> CostAndUsageView {
        self@
    }
}

/// The stretch of time by which a reply divides its period.
#[derive(Clone, Copy, Debug, PartialEq, Eq, Structural)]
pub enum Granularity {
    Daily,
    Monthly,
    Hourly,
}

/// The kind of thing by which a query groups its costs.
#[derive(Clone, Copy, Debug, PartialEq, Eq, Structural)]
pub enum GroupKind {
    Dimension,
    Tag,
    CostCategory,
}

/// The grouping of a query: a kind, and the key of that kind.
#[derive(Clone, Debug, PartialEq, Eq)]
pub struct GroupBy {
    pub kind: GroupKind,
    pub key: String,
}

/// A `GroupBy` as mathematics sees it.
pub ghost struct GroupByView {
    pub kind: GroupKind,
    pub key: Seq<char>,
}

impl View for GroupBy {
    type V = GroupByView;

    open spec fn view(&self) -> GroupByView {
        GroupByView { kind: self.kind, key: self.key@ }
    }
}

impl DeepView for GroupBy {
    type V = GroupByView;

    open spec fn deep_view(&self) -> GroupByView {
        self@
    }
}

/// One query of the billing service: the period from `start` up to `end`,
/// how the period is divided, the metric asked for, and the grouping, if any.
#[derive(Clone, Debug, PartialEq, Eq)]
pub struct CostQuery {
    pub start: String,
    pub end: String,
    pub granularity: Granularity,
    pub metric: String,
    pub group_by: Option<GroupBy>,
}

/// A `CostQuery` as mathematics sees it.
pub ghost struct CostQueryView {
    pub start: Seq<char>,
    pub end: Seq<char>,
    pub granularity: Granularity,
    pub metric: Seq<char>,
    pub group_by: Option<GroupByView>,
}

impl View for CostQuery {
    type V = CostQueryView;

    open spec fn view(&self) -> CostQueryView {
        CostQueryView {
            start: self.start@,
            end: self.end@,
            granularity: self.granularity,
            metric: self.metric@,
            group_by: self.group_by.deep_view(),
        }
    }
}

impl DeepView for CostQuery {
    type V = CostQueryView;

    open spec fn deep_view(&self) -> CostQueryView {
        self@
    }
}

/// What a group of a reply lacks.
#[derive(Clone, Copy, Debug, PartialEq, Eq, Structural)]
pub enum GroupError {
    /// The group has no key, so no service is named.
    NoKey,
    /// The group has no metrics.
    NoMetrics,
    /// The group's metrics do not hold the amortized cost.
    NoMetric,
    /// The amortized cost of the group has no amount.
    NoAmount,
}

/// Why a query of the billing service gave no result.
#[derive(Clone, Copy, Debug, PartialEq, Eq, Structural)]
pub enum RemoteQueryError {
    /// The call failed before a reply was read.
    RequestFailed,
    /// The reply holds no result for any stretch of time.
    NoResultByTime,
    /// The first result holds no total.
    NoTotal,
    /// The total does not hold the amortized cost.
    NoMetric,
    /// The amortized cost of the total has no amount.
    NoAmount,
    /// The group at `index` of the first result lacks something.
    Group { index: usize, cause: GroupError },
}

/// The name of the metric that both queries ask for and both replies are
/// read by.
pub open spec fn cost_metric() -> Seq<char> {
    "AmortizedCost"@
}

/// The key of the dimension that tells the services apart.
pub open spec fn service_dimension() -> Seq<char> {
    "SERVICE"@
}

/// The query for the total of the period: monthly, amortized, not grouped.
pub open spec fn month_total_query_of(start: Seq<char>, end: Seq<char>) -> CostQueryView {
    CostQueryView {
        start,
        end,
        granularity: Granularity::Monthly,
        metric: cost_metric(),
        group_by: None,
    }
}

/// The query for the costs per service of the period: monthly, amortized,
/// grouped by the service dimension.
pub open spec fn bill_per_service_query_of(start: Seq<char>, end: Seq<char>) -> CostQueryView {
    CostQueryView {
        start,
        end,
        granularity: Granularity::Monthly,
        metric: cost_metric(),
        group_by: Some(GroupByView { kind: GroupKind::Dimension, key: service_dimension() }),
    }
}

/// The value that `entries` holds under `name`: that of the first entry so
/// named.
pub open spec fn find_metric(entries: Seq<MetricEntryView>, name: Seq<char>) -> Option<
    MetricValueView,
>
    decreases entries.len(),
{
    if entries.len() == 0 {
        None
    } else if entries[0].name == name {
        Some(entries[0].value)
    } else {
        find_metric(entries.drop_first(), name)
    }
}

/// The month's total that a reply states under `metric`.
pub open spec fn month_total_of(response: CostAndUsageView, metric: Seq<char>) -> Result<
    Seq<char>,
    RemoteQueryError,
> {
    if response.results_by_time.len() == 0 {
        Err(RemoteQueryError::NoResultByTime)
    } else {
        match response.results_by_time[0].total {
            None => Err(RemoteQueryError::NoTotal),
            Some(total) => match find_metric(total, metric) {
                None => Err(RemoteQueryError::NoMetric),
                Some(value) => match value.amount {
                    None => Err(RemoteQueryError::NoAmount),
                    Some(amount) => Ok(amount),
                },
            },
        }
    }
}

/// The service and cost that one group states under `metric`: the service is
/// the group's first key.
pub open spec fn bill_of_group(group: CostGroupView, metric: Seq<char>) -> Result<
    BillPerServiceView,
    GroupError,
> {
    if group.keys.len() == 0 {
        Err(GroupError::NoKey)
    } else {
        match group.metrics {
            None => Err(GroupError::NoMetrics),
            Some(metrics) => match find_metric(metrics, metric) {
                None => Err(GroupError::NoMetric),
                Some(value) => match value.amount {
                    None => Err(GroupError::NoAmount),
                    Some(amount) => Ok(BillPerServiceView { name: group.keys[0], bill: amount }),
                },
            },
        }
    }
}

/// Whether each of the first `n` groups states a service and its cost.
pub open spec fn groups_complete(groups: Seq<CostGroupView>, metric: Seq<char>, n: int) -> bool {
    forall|i: int| 0 <= i < n ==> (#[trigger] bill_of_group(groups[i], metric)) is Ok
}

/// The costs per service that a reply states under `metric`, one for each
/// group of its first result and in the groups' order; or what the first
/// group that lacks something lacks.
pub open spec fn bills_of(response: CostAndUsageView, metric: Seq<char>) -> Result<
    Seq<BillPerServiceView>,
    RemoteQueryError,
> {
    if response.results_by_time.len() == 0 {
        Err(RemoteQueryError::NoResultByTime)
    } else {
        let groups = response.results_by_time[0].groups;
        if groups_complete(groups, metric, groups.len() as int) {
            Ok(Seq::new(groups.len(), |i: int| bill_of_group(groups[i], metric)->Ok_0))
        } else {
            let index = choose|i: int|
                0 <= i < groups.len() && groups_complete(groups, metric, i) && (
                #[trigger] bill_of_group(groups[i], metric)) is Err;
            Err(
                RemoteQueryError::Group {
                    index: index as usize,
                    cause: bill_of_group(groups[index], metric)->Err_0,
                },
            )
        }
    }
}

/// Looks `name` up among `entries`.
pub fn lookup_metric<'a>(entries: &'a Vec<MetricEntry>, name: &str) -> (r: Option<&'a MetricValue>)
    ensures
        r.deep_view() == find_metric(entries.deep_view(), name@),
{
    let mut i: usize = 0;
    assert(entries.deep_view().skip(0) =~= entries.deep_view());
    while i < entries.len()
        invariant
            i <= entries.len(),
            find_metric(entries.deep_view(), name@) == find_metric(
                entries.deep_view().skip(i as int),
                name@,
            ),
        decreases entries.len() - i,
    {
        let ghost rest = entries.deep_view().skip(i as int);
        assert(rest[0] == entries@[i as int]@);
        assert(rest.drop_first() =~= entries.deep_view().skip(i + 1));
        if same_text(entries[i].name.as_str(), name) {
            return Some(&entries[i].value);
        }
        i += 1;
    }
    None
}

/// The month's total, read from the reply to the total query: the amount
/// of the amortized cost in the total of the first result.
pub fn get_month_total(response: &CostAndUsage) -> (r: Result<String, RemoteQueryError>)
    ensures
        match r {
            Ok(amount) => month_total_of(response@, cost_metric()) == Ok::<
                Seq<char>,
                RemoteQueryError,
            >(amount@),
            Err(e) => month_total_of(response@, cost_metric()) == Err::<
                Seq<char>,
                RemoteQueryError,
            >(e),
        },
{
    if response.results_by_time.len() == 0 {
        return Err(RemoteQueryError::NoResultByTime);
    }
    let first = &response.results_by_time[0];
    assert(response@.results_by_time[0] == first@);
    match &first.total {
        None => Err(RemoteQueryError::NoTotal),
        Some(total) => match lookup_metric(total, "AmortizedCost") {
            None => Err(RemoteQueryError::NoMetric),
            Some(value) => match &value.amount {
                None => Err(RemoteQueryError::NoAmount),
                Some(amount) => Ok(amount.clone()),
            },
        },
    }
}

/// The service and its cost that one group of the grouped reply states: the
/// group's first key, and the amount of its amortized cost.
pub fn extract_bill_per_service(bill_group: &CostGroup) -> (r: Result<BillPerService, GroupError>)
    ensures
        match r {
            Ok(bill) => bill_of_group(bill_group@, cost_metric()) == Ok::<
                BillPerServiceView,
                GroupError,
            >(bill@),
            Err(e) => bill_of_group(bill_group@, cost_metric()) == Err::<
                BillPerServiceView,
                GroupError,
            >(e),
        },
{
    if bill_group.keys.len() == 0 {
        return Err(GroupError::NoKey);
    }
    assert(bill_group@.keys[0] == bill_group.keys@[0]@);
    match &bill_group.metrics {
        None => Err(GroupError::NoMetrics),
        Some(metrics) => match lookup_metric(metrics, "AmortizedCost") {
            None => Err(GroupError::NoMetric),
            Some(value) => match &value.amount {
                None => Err(GroupError::NoAmount),
                Some(amount) => Ok(
                    BillPerService { name: bill_group.keys[0].clone(), bill: amount.clone() },
                ),
            },
        },
    }
}

/// The costs per service, read from the reply to the grouped query: one for
/// each group of the first result, in the order of the reply.
pub fn get_bill_per_service(response: &CostAndUsage) -> (r: Result<
    Vec<BillPerService>,
    RemoteQueryError,
>)
    ensures
        match r {
            Ok(bills) => bills_of(response@, cost_metric()) == Ok::<
                Seq<BillPerServiceView>,
                RemoteQueryError,
            >(bills.deep_view()),
            Err(e) => bills_of(response@, cost_metric()) == Err::<
                Seq<BillPerServiceView>,
                RemoteQueryError,
            >(e),
        },
{
    if response.results_by_time.len() == 0 {
        return Err(RemoteQueryError::NoResultByTime);
    }
    let groups = &response.results_by_time[0].groups;
    let ghost models = response@.results_by_time[0].groups;
    assert(models == groups.deep_view());
    let mut bills: Vec<BillPerService> = Vec::new();
    let mut i: usize = 0;
    while i < groups.len()
        invariant
            i <= groups.len(),
            response@.results_by_time.len() > 0,
            models == response@.results_by_time[0].groups,
            models == groups.deep_view(),
            groups_complete(models, cost_metric(), i as int),
            bills.len() == i,
            forall|j: int|
                0 <= j < i ==> bill_of_group(models[j], cost_metric()) == Ok::<
                    BillPerServiceView,
                    GroupError,
                >(#[trigger] bills@[j]@),
        decreases groups.len() - i,
    {
        assert(models[i as int] == groups@[i as int]@);
        match extract_bill_per_service(&groups[i]) {
            Err(cause) => {
                proof {
                    let first = choose|k: int|
                        0 <= k < models.len() && groups_complete(models, cost_metric(), k) && (
                        #[trigger] bill_of_group(models[k], cost_metric())) is Err;
                    assert(bill_of_group(models[i as int], cost_metric()) is Err);
                    assert(first == i);
                }
                return Err(RemoteQueryError::Group { index: i, cause });
            },
            Ok(bill) => {
                bills.push(bill);
            },
        }
        i += 1;
    }
    assert(bills.deep_view() =~= Seq::new(
        models.len(),
        |k: int| bill_of_group(models[k], cost_metric())->Ok_0,
    ));
    Ok(bills)
}

/// The query whose reply `get_month_total` reads.
pub fn month_total_query(start: String, end: String) -> (query: CostQuery)
    ensures
        query@ == month_total_query_of(start@, end@),
{
    CostQuery {
        start,
        end,
        granularity: Granularity::Monthly,
        metric: "AmortizedCost".to_owned(),
        group_by: None,
    }
}

/// The query whose reply `get_bill_per_service` reads.
pub fn bill_per_service_query(start: String, end: String) -> (query: CostQuery)
    ensures
        query@ == bill_per_service_query_of(start@, end@),
{
    CostQuery {
        start,
        end,
        granularity: Granularity::Monthly,
        metric: "AmortizedCost".to_owned(),
        group_by: Some(GroupBy { kind: GroupKind::Dimension, key: "SERVICE".to_owned() }),
    }
}

/// The total and the costs per service are asked for over the same period,
/// divided the same way, and in the same metric; and that metric is the one
/// under which `get_month_total` and `get_bill_per_service` read their
/// replies.
pub proof fn lemma_queries_share_period_and_metric(start: Seq<char>, end: Seq<char>)
    ensures
        month_total_query_of(start, end).start == bill_per_service_query_of(start, end).start,
        month_total_query_of(start, end).end == bill_per_service_query_of(start, end).end,
        month_total_query_of(start, end).start == start,
        month_total_query_of(start, end).end == end,
        month_total_query_of(start, end).granularity == bill_per_service_query_of(
            start,
            end,
        ).granularity,
        month_total_query_of(start, end).metric == cost_metric(),
        bill_per_service_query_of(start, end).metric == cost_metric(),
{
}

} // verus!
