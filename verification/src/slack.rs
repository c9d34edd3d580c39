//! The chat message: its blocks, how they are built from the month's costs,
//! and how the reply to its delivery is judged.

use vstd::prelude::*;
use vstd::string::StringExecFns;
use crate::aws::{BillPerService, BillPerServiceView};
use crate::calendar::{display_format, display_time, display_zone, zone_time_text};
use crate::decimal::{DecimalError, DecimalValue};
use crate::exchange_rate::{convert_usd_to_jpy, yen_of, ExchangeRate};
use crate::text::{chars_of, int_text, prefix, push_int, take_chars};

verus! {

/// How a text of the message is to be rendered.
#[derive(Clone, Copy, Debug, PartialEq, Eq, Structural)]
pub enum TextKind {
    PlainText,
    Mrkdwn,
}

/// What a block of the message is.
#[derive(Clone, Copy, Debug, PartialEq, Eq, Structural)]
pub enum BlockKind {
    Header,
    Section,
    Divider,
}

/// One text of the message.
#[derive(Clone, Debug, PartialEq, Eq)]
pub struct SlackText {
    pub kind: TextKind,
    pub emoji: Option<bool>,
    pub text: String,
}

/// A `SlackText` as mathematics sees it.
pub ghost struct SlackTextView {
    pub kind: TextKind,
    pub emoji: Option<bool>,
    pub text: Seq<char>,
}

impl View for SlackText {
    type V = SlackTextView;

    open spec fn view(&self) -> SlackTextView {
        SlackTextView { kind: self.kind, emoji: self.emoji, text: self.text@ }
    }
}

impl DeepView for SlackText {
    type V = SlackTextView;

    open spec fn deep_view(&self) -> SlackTextView {
        self@
    }
}

/// One block of the message: a header with its text, a section with its
/// columns, or a divider.
#[derive(Clone, Debug, PartialEq, Eq)]
pub struct SlackBlock {
    pub kind: BlockKind,
    pub text: Option<SlackText>,
    pub fields: Option<Vec<SlackText>>,
}

/// A `SlackBlock` as mathematics sees it.
pub ghost struct SlackBlockView {
    pub kind: BlockKind,
    pub text: Option<SlackTextView>,
    pub fields: Option<Seq<SlackTextView>>,
}

impl View for SlackBlock {
    type V = SlackBlockView;

    open spec fn view(&self) -> SlackBlockView {
        SlackBlockView {
            kind: self.kind,
            text: self.text.deep_view(),
            fields: self.fields.deep_view(),
        }
    }
}

impl DeepView for SlackBlock {
    type V = SlackBlockView;

    open spec fn deep_view(&self) -> SlackBlockView {
        self@
    }
}

/// The message: its blocks, in the order in which they are shown.
#[derive(Clone, Debug, PartialEq, Eq)]
pub struct SlackWebhookPayload {
    pub blocks: Vec<SlackBlock>,
}

impl View for SlackWebhookPayload {
    type V = Seq<SlackBlockView>;

    open spec fn view(&self) -> Seq<SlackBlockView> {
        self.blocks.deep_view()
    }
}

impl DeepView for SlackWebhookPayload {
    type V = Seq<SlackBlockView>;

    open spec fn deep_view(&self) -> Seq<SlackBlockView> {
        self@
    }
}

impl TextKind {
    /// The name by which the chat service knows this kind of text.
    pub fn name(&self) -> (r: &'static str)
        ensures
            r@ == match *self {
                TextKind::PlainText => "plain_text"@,
                TextKind::Mrkdwn => "mrkdwn"@,
            },
    {
        match self {
            TextKind::PlainText => "plain_text",
            TextKind::Mrkdwn => "mrkdwn",
        }
    }
}

impl BlockKind {
    /// The name by which the chat service knows this kind of block.
    pub fn name(&self) -> (r: &'static str)
        ensures
            r@ == match *self {
                BlockKind::Header => "header"@,
                BlockKind::Section => "section"@,
                BlockKind::Divider => "divider"@,
            },
    {
        match self {
            BlockKind::Header => "header",
            BlockKind::Section => "section",
            BlockKind::Divider => "divider",
        }
    }
}

/// Whether a cost is written as nothing: the text `0`, or a text that
/// starts with `0.0000`. The text is not read as a number.
pub open spec fn zero_cost(bill: Seq<char>) -> bool {
    bill == "0"@ || prefix(bill, 6) == "0.0000"@
}

/// Tells whether the message leaves out a service with the cost `bill`.
pub fn is_zero_cost(bill: &str) -> (r: bool)
    ensures
        r == zero_cost(bill@),
{
    let chars = chars_of(bill);
    proof {
        reveal_strlit("0");
        reveal_strlit("0.0000");
    }
    if chars.len() == 1 {
        assert(bill@ =~= "0"@ <==> bill@[0] == '0');
        chars[0] == '0'
    } else if chars.len() >= 6 {
        let hidden = chars[0] == '0' && chars[1] == '.' && chars[2] == '0' && chars[3] == '0'
            && chars[4] == '0' && chars[5] == '0';
        assert(hidden <==> bill@.take(6) =~= "0.0000"@) by {
            if hidden {
                assert(bill@.take(6) =~= "0.0000"@);
            } else {
                assert(bill@.take(6)[0] == bill@[0]);
                assert(bill@.take(6)[1] == bill@[1]);
                assert(bill@.take(6)[2] == bill@[2]);
                assert(bill@.take(6)[3] == bill@[3]);
                assert(bill@.take(6)[4] == bill@[4]);
                assert(bill@.take(6)[5] == bill@[5]);
            }
        }
        hidden
    } else {
        false
    }
}

/// What the header says between the time and the total.
pub open spec fn header_label() -> Seq<char> {
    "時点の金額は下記の通りです\n💰Total Cost: $"@
}

/// What stands between an amount in dollars and the same in yen.
pub open spec fn yen_label() -> Seq<char> {
    " / ¥"@
}

/// The yen that `usd` dollars are worth at `rate`; zero where `usd` is no
/// amount.
pub open spec fn yen_value(usd: Seq<char>, rate: DecimalValue) -> int {
    match yen_of(usd, rate) {
        Ok(yen) => yen,
        Err(_) => 0,
    }
}

/// The header's text: the time, the label, the first five characters of the
/// total, and the total in yen.
pub open spec fn header_text(stamp: Seq<char>, total: Seq<char>, rate: DecimalValue) -> Seq<
    char,
> {
    stamp + header_label() + prefix(total, 5) + yen_label() + int_text(yen_value(total, rate))
}

/// The text of a service's name: the name between asterisks.
pub open spec fn name_text(name: Seq<char>) -> Seq<char> {
    "*"@ + name + "*"@
}

/// The text of a service's cost: a dollar sign, the first six characters of
/// the cost, and the cost in yen.
pub open spec fn price_text(bill: Seq<char>, rate: DecimalValue) -> Seq<char> {
    "$"@ + prefix(bill, 6) + yen_label() + int_text(yen_value(bill, rate))
}

/// A text in the chat service's markup, without a word on emoji.
pub open spec fn mrkdwn(text: Seq<char>) -> SlackTextView {
    SlackTextView { kind: TextKind::Mrkdwn, emoji: None, text }
}

/// The block that opens the message.
pub open spec fn header_block(stamp: Seq<char>, total: Seq<char>, rate: DecimalValue) -> SlackBlockView {
    SlackBlockView {
        kind: BlockKind::Header,
        text: Some(
            SlackTextView {
                kind: TextKind::PlainText,
                emoji: Some(true),
                text: header_text(stamp, total, rate),
            },
        ),
        fields: None,
    }
}

/// The block that heads the two columns.
pub open spec fn columns_block() -> SlackBlockView {
    SlackBlockView {
        kind: BlockKind::Section,
        text: None,
        fields: Some(seq![mrkdwn("Service"@), mrkdwn("Price"@)]),
    }
}

/// The block that parts one service from the next.
pub open spec fn divider_block() -> SlackBlockView {
    SlackBlockView { kind: BlockKind::Divider, text: None, fields: None }
}

/// The block of one service: its name, and its cost in both currencies.
pub open spec fn service_block(service: BillPerServiceView, rate: DecimalValue) -> SlackBlockView {
    SlackBlockView {
        kind: BlockKind::Section,
        text: None,
        fields: Some(
            seq![mrkdwn(name_text(service.name)), mrkdwn(price_text(service.bill, rate))],
        ),
    }
}

/// The services that the message shows: those whose cost is not written as
/// nothing, in the order given.
pub open spec fn shown_services(services: Seq<BillPerServiceView>) -> Seq<BillPerServiceView> {
    services.filter(|service: BillPerServiceView| !zero_cost(service.bill))
}

/// The blocks of the services `shown`: for each, in order, a divider and
/// then the service's own block.
pub open spec fn service_blocks(shown: Seq<BillPerServiceView>, rate: DecimalValue) -> Seq<
    SlackBlockView,
> {
    Seq::new(
        2 * shown.len(),
        |i: int|
            if i % 2 == 0 {
                divider_block()
            } else {
                service_block(shown[i / 2], rate)
            },
    )
}

/// The blocks of the whole message: the header, the column heads, and the
/// blocks of the services shown.
pub open spec fn payload_blocks(
    stamp: Seq<char>,
    total: Seq<char>,
    services: Seq<BillPerServiceView>,
    rate: DecimalValue,
) -> Seq<SlackBlockView> {
    seq![header_block(stamp, total, rate), columns_block()] + service_blocks(
        shown_services(services),
        rate,
    )
}

/// Whether the costs of the first `n` of `shown` can all be converted.
pub open spec fn costs_readable(shown: Seq<BillPerServiceView>, rate: DecimalValue, n: int) -> bool {
    forall|i: int| 0 <= i < n ==> (#[trigger] yen_of(shown[i].bill, rate)) is Ok
}

/// The message for the time `stamp`, or why an amount could not be
/// converted: the total's reason where the total fails, else that of the
/// first service shown whose cost fails.
pub open spec fn payload_of(
    stamp: Seq<char>,
    total: Seq<char>,
    services: Seq<BillPerServiceView>,
    rate: DecimalValue,
) -> Result<Seq<SlackBlockView>, DecimalError> {
    let shown = shown_services(services);
    match yen_of(total, rate) {
        Err(e) => Err(e),
        Ok(_) => if costs_readable(shown, rate, shown.len() as int) {
            Ok(payload_blocks(stamp, total, services, rate))
        } else {
            let first = choose|i: int|
                0 <= i < shown.len() && costs_readable(shown, rate, i) && (#[trigger] yen_of(
                    shown[i].bill,
                    rate,
                )) is Err;
            Err(yen_of(shown[first].bill, rate)->Err_0)
        },
    }
}

/// Taking one more service into view adds it to those shown, unless its
/// cost is written as nothing.
pub proof fn lemma_shown_services_step(services: Seq<BillPerServiceView>, n: int)
    requires
        0 <= n < services.len(),
    ensures
        shown_services(services.take(n + 1)) == if zero_cost(services[n].bill) {
            shown_services(services.take(n))
        } else {
            shown_services(services.take(n)).push(services[n])
        },
{
    reveal(Seq::filter);
    assert(services.take(n + 1).drop_last() =~= services.take(n));
    assert(services.take(n + 1).last() == services[n]);
}

/// Showing a list of services is showing its first part and then the rest:
/// the message keeps the order in which the services came.
pub proof fn lemma_shown_services_keep_order(
    first: Seq<BillPerServiceView>,
    rest: Seq<BillPerServiceView>,
)
    ensures
        shown_services(first + rest) == shown_services(first) + shown_services(rest),
{
    Seq::filter_distributes_over_add(
        first,
        rest,
        |service: BillPerServiceView| !zero_cost(service.bill),
    );
}

/// Where the `n`-th service is shown, it stands among all the services
/// shown right behind those shown of the first `n`.
proof fn lemma_shown_index(services: Seq<BillPerServiceView>, n: int)
    requires
        0 <= n < services.len(),
        !zero_cost(services[n].bill),
    ensures
        shown_services(services.take(n)).len() < shown_services(services).len(),
        shown_services(services)[shown_services(services.take(n)).len() as int] == services[n],
        forall|i: int|
            0 <= i < shown_services(services.take(n)).len() ==> shown_services(services)[i]
                == shown_services(services.take(n))[i],
{
    let before = shown_services(services.take(n));
    lemma_shown_services_step(services, n);
    lemma_shown_services_keep_order(services.take(n + 1), services.skip(n + 1));
    assert(services.take(n + 1) + services.skip(n + 1) =~= services);
    assert(shown_services(services) =~= before.push(services[n]) + shown_services(
        services.skip(n + 1),
    ));
}

/// Among `shown`, the cost at `k` is the first that cannot be converted,
/// and no other index is.
proof fn lemma_first_unreadable_is(shown: Seq<BillPerServiceView>, rate: DecimalValue, k: int)
    requires
        0 <= k < shown.len(),
        costs_readable(shown, rate, k),
        yen_of(shown[k].bill, rate) is Err,
    ensures
        !costs_readable(shown, rate, shown.len() as int),
        (choose|i: int|
            0 <= i < shown.len() && costs_readable(shown, rate, i) && (#[trigger] yen_of(
                shown[i].bill,
                rate,
            )) is Err) == k,
{
    let first = choose|i: int|
        0 <= i < shown.len() && costs_readable(shown, rate, i) && (#[trigger] yen_of(
            shown[i].bill,
            rate,
        )) is Err;
    if first < k {
        assert(yen_of(shown[first].bill, rate) is Ok);
    } else if first > k {
        assert(yen_of(shown[k].bill, rate) is Ok);
    }
}

/// A text in the chat service's markup.
fn mrkdwn_text(text: String) -> (r: SlackText)
    ensures
        r@ == mrkdwn(text@),
{
    SlackText { kind: TextKind::Mrkdwn, emoji: None, text }
}

/// The header for a total that is worth `yen`.
fn make_header(stamp: &str, month_total: &str, yen: i64, Ghost(rate): Ghost<DecimalValue>) -> (r:
    SlackBlock)
    requires
        yen_of(month_total@, rate) == Ok::<int, DecimalError>(yen as int),
    ensures
        r@ == header_block(stamp@, month_total@, rate),
{
    let mut text = String::new();
    text.append(stamp);
    text.append("時点の金額は下記の通りです\n💰Total Cost: $");
    let shown_total = take_chars(month_total, 5);
    text.append(shown_total.as_str());
    text.append(" / ¥");
    push_int(&mut text, yen);
    assert(text@ =~= header_text(stamp@, month_total@, rate));
    SlackBlock {
        kind: BlockKind::Header,
        text: Some(SlackText { kind: TextKind::PlainText, emoji: Some(true), text }),
        fields: None,
    }
}

/// The block that heads the two columns.
fn make_columns() -> (r: SlackBlock)
    ensures
        r@ == columns_block(),
{
    let mut fields: Vec<SlackText> = Vec::new();
    fields.push(mrkdwn_text("Service".to_owned()));
    fields.push(mrkdwn_text("Price".to_owned()));
    assert(fields.deep_view() =~= seq![mrkdwn("Service"@), mrkdwn("Price"@)]);
    SlackBlock { kind: BlockKind::Section, text: None, fields: Some(fields) }
}

/// The block of a service whose cost is worth `yen`.
fn make_service(service: &BillPerService, yen: i64, Ghost(rate): Ghost<DecimalValue>) -> (r:
    SlackBlock)
    requires
        yen_of(service@.bill, rate) == Ok::<int, DecimalError>(yen as int),
    ensures
        r@ == service_block(service@, rate),
{
    let mut name = String::new();
    name.append("*");
    name.append(service.name.as_str());
    name.append("*");
    assert(name@ =~= name_text(service@.name));
    let mut price = String::new();
    price.append("$");
    let shown_bill = take_chars(service.bill.as_str(), 6);
    price.append(shown_bill.as_str());
    price.append(" / ¥");
    push_int(&mut price, yen);
    assert(price@ =~= price_text(service@.bill, rate));
    let mut fields: Vec<SlackText> = Vec::new();
    fields.push(mrkdwn_text(name));
    fields.push(mrkdwn_text(price));
    assert(fields.deep_view() =~= seq![
        mrkdwn(name_text(service@.name)),
        mrkdwn(price_text(service@.bill, rate)),
    ]);
    SlackBlock { kind: BlockKind::Section, text: None, fields: Some(fields) }
}

/// One more service shown adds a divider and the service's block at the end.
proof fn lemma_service_blocks_push(
    lead: Seq<SlackBlockView>,
    shown: Seq<BillPerServiceView>,
    service: BillPerServiceView,
    rate: DecimalValue,
)
    ensures
        lead + service_blocks(shown.push(service), rate) == (lead + service_blocks(
            shown,
            rate,
        )).push(divider_block()).push(service_block(service, rate)),
{
    let longer = service_blocks(shown.push(service), rate);
    let grown = service_blocks(shown, rate).push(divider_block()).push(
        service_block(service, rate),
    );
    assert(longer.len() == grown.len());
    assert forall|i: int| 0 <= i < longer.len() implies longer[i] == grown[i] by {
        if i < 2 * shown.len() {
            assert(shown.push(service)[i / 2] == shown[i / 2]);
        } else if i == 2 * shown.len() {
            assert(i % 2 == 0);
        } else {
            assert(i % 2 == 1);
            assert(i / 2 == shown.len());
        }
    }
    assert(longer =~= grown);
    assert(lead + longer =~= (lead + service_blocks(shown, rate)).push(divider_block()).push(
        service_block(service, rate),
    ));
}

/// Costs that can all be converted, and one more that can.
proof fn lemma_costs_readable_push(
    shown: Seq<BillPerServiceView>,
    service: BillPerServiceView,
    rate: DecimalValue,
)
    requires
        costs_readable(shown, rate, shown.len() as int),
        yen_of(service.bill, rate) is Ok,
    ensures
        costs_readable(shown.push(service), rate, shown.push(service).len() as int),
{
    let after = shown.push(service);
    assert forall|k: int| 0 <= k < after.len() implies (#[trigger] yen_of(after[k].bill, rate))
        is Ok by {
        if k < shown.len() {
            assert(after[k] == shown[k]);
        }
    }
}

/// The message fails with the reason of the `n`-th service where that
/// service is shown, its cost cannot be converted, and the total and the costs
/// of the services shown before it can.
proof fn lemma_payload_fails_at(
    stamp: Seq<char>,
    total: Seq<char>,
    services: Seq<BillPerServiceView>,
    rate: DecimalValue,
    n: int,
)
    requires
        0 <= n < services.len(),
        yen_of(total, rate) is Ok,
        !zero_cost(services[n].bill),
        yen_of(services[n].bill, rate) is Err,
        costs_readable(
            shown_services(services.take(n)),
            rate,
            shown_services(services.take(n)).len() as int,
        ),
    ensures
        payload_of(stamp, total, services, rate) == Err::<Seq<SlackBlockView>, DecimalError>(
            yen_of(services[n].bill, rate)->Err_0,
        ),
{
    let before = shown_services(services.take(n));
    let shown = shown_services(services);
    let k = before.len() as int;
    lemma_shown_index(services, n);
    assert(costs_readable(shown, rate, k)) by {
        assert forall|i: int| 0 <= i < k implies (#[trigger] yen_of(shown[i].bill, rate))
            is Ok by {
            assert(shown[i] == before[i]);
            assert(yen_of(before[i].bill, rate) is Ok);
        }
    }
    lemma_first_unreadable_is(shown, rate, k);
}

/// Adds to `blocks` a divider and the block of a service whose cost is
/// worth `yen`.
fn push_service(
    blocks: &mut Vec<SlackBlock>,
    service: &BillPerService,
    yen: i64,
    Ghost(rate): Ghost<DecimalValue>,
)
    requires
        yen_of(service@.bill, rate) == Ok::<int, DecimalError>(yen as int),
    ensures
        final(blocks).deep_view() == old(blocks).deep_view().push(divider_block()).push(
            service_block(service@, rate),
        ),
{
    let ghost built = blocks.deep_view();
    blocks.push(SlackBlock { kind: BlockKind::Divider, text: None, fields: None });
    let ghost with_divider = blocks.deep_view();
    assert(with_divider =~= built.push(divider_block()));
    blocks.push(make_service(service, yen, Ghost(rate)));
    assert(blocks.deep_view() =~= with_divider.push(service_block(service@, rate)));
}

/// Builds the message for the time written as `stamp`: the header with the
/// total in both currencies, the column heads, and for each service whose
/// cost is not written as nothing a divider and its block, in the order of
/// `bill_per_services`. Fails where the total, or the cost of a service
/// shown, cannot be converted.
pub fn build_payload(
    stamp: &str,
    month_total: &str,
    bill_per_services: &Vec<BillPerService>,
    jpy_rate: &ExchangeRate,
) -> (r: Result<SlackWebhookPayload, DecimalError>)
    ensures
        match r {
            Ok(payload) => payload_of(
                stamp@,
                month_total@,
                bill_per_services.deep_view(),
                jpy_rate@,
            ) == Ok::<Seq<SlackBlockView>, DecimalError>(payload@),
            Err(e) => payload_of(stamp@, month_total@, bill_per_services.deep_view(), jpy_rate@)
                == Err::<Seq<SlackBlockView>, DecimalError>(e),
        },
{
    let ghost rate = jpy_rate@;
    let ghost services = bill_per_services.deep_view();
    let total_yen = match convert_usd_to_jpy(month_total, jpy_rate) {
        Ok(yen) => yen,
        Err(e) => {
            return Err(e);
        },
    };
    let mut blocks: Vec<SlackBlock> = Vec::new();
    blocks.push(make_header(stamp, month_total, total_yen, Ghost(rate)));
    blocks.push(make_columns());
    let ghost lead = seq![header_block(stamp@, month_total@, rate), columns_block()];
    let ghost mut shown = Seq::<BillPerServiceView>::empty();
    proof {
        reveal(Seq::filter);
        assert(services.take(0) =~= Seq::<BillPerServiceView>::empty());
        assert(blocks.deep_view() =~= lead + service_blocks(shown, rate));
    }
    let mut failure: Option<DecimalError> = None;
    let mut i: usize = 0;
    while i < bill_per_services.len() && failure.is_none()
        invariant
            i <= bill_per_services.len(),
            rate == jpy_rate@,
            services == bill_per_services.deep_view(),
            failure is None ==> shown == shown_services(services.take(i as int)),
            failure is None ==> costs_readable(shown, rate, shown.len() as int),
            failure is None ==> blocks.deep_view() == lead + service_blocks(shown, rate),
            failure matches Some(e) ==> {
                &&& 0 < i
                &&& !zero_cost(services[i - 1].bill)
                &&& yen_of(services[i - 1].bill, rate) == Err::<int, DecimalError>(e)
                &&& costs_readable(
                    shown_services(services.take(i - 1)),
                    rate,
                    shown_services(services.take(i - 1)).len() as int,
                )
            },
        decreases bill_per_services.len() - i,
    {
        let service = &bill_per_services[i];
        proof {
            assert(services[i as int] == service@);
            lemma_shown_services_step(services, i as int);
        }
        if !is_zero_cost(service.bill.as_str()) {
            match convert_usd_to_jpy(service.bill.as_str(), jpy_rate) {
                Err(e) => {
                    failure = Some(e);
                },
                Ok(yen) => {
                    push_service(&mut blocks, service, yen, Ghost(rate));
                    proof {
                        lemma_service_blocks_push(lead, shown, service@, rate);
                        lemma_costs_readable_push(shown, service@, rate);
                        shown = shown.push(service@);
                    }
                },
            }
        }
        i += 1;
    }
    match failure {
        Some(e) => {
            proof {
                lemma_payload_fails_at(stamp@, month_total@, services, rate, i - 1);
            }
            Err(e)
        },
        None => {
            proof {
                assert(services.take(services.len() as int) =~= services);
            }
            Ok(SlackWebhookPayload { blocks })
        },
    }
}

/// Why no message could be built.
#[derive(Clone, Copy, Debug, PartialEq, Eq, Structural)]
pub enum PayloadError {
    /// The moment given lies outside the calendar.
    Clock,
    /// An amount could not be converted.
    Amount(DecimalError),
}

/// The message built at the moment `now`, in seconds since the start of
/// 1970: the one for that moment as Tokyo writes it, to the minute.
pub open spec fn slack_payload_of(
    now: int,
    total: Seq<char>,
    services: Seq<BillPerServiceView>,
    rate: DecimalValue,
) -> Result<Seq<SlackBlockView>, PayloadError> {
    match zone_time_text(now, display_zone(), display_format()) {
        None => Err(PayloadError::Clock),
        Some(stamp) => match payload_of(stamp, total, services, rate) {
            Ok(blocks) => Ok(blocks),
            Err(e) => Err(PayloadError::Amount(e)),
        },
    }
}

/// Builds the message that reports the month's total and the cost of each
/// service, as of the moment `now`.
pub fn create_slack_payload(
    month_total: String,
    bill_per_services: Vec<BillPerService>,
    jpy_rate: ExchangeRate,
    now: i64,
) -> (r: Result<SlackWebhookPayload, PayloadError>)
    ensures
        match r {
            Ok(payload) => slack_payload_of(
                now as int,
                month_total@,
                bill_per_services.deep_view(),
                jpy_rate@,
            ) == Ok::<Seq<SlackBlockView>, PayloadError>(payload@),
            Err(e) => slack_payload_of(
                now as int,
                month_total@,
                bill_per_services.deep_view(),
                jpy_rate@,
            ) == Err::<Seq<SlackBlockView>, PayloadError>(e),
        },
{
    match display_time(now) {
        None => Err(PayloadError::Clock),
        Some(stamp) => match build_payload(
            stamp.as_str(),
            month_total.as_str(),
            &bill_per_services,
            &jpy_rate,
        ) {
            Ok(payload) => Ok(payload),
            Err(e) => Err(PayloadError::Amount(e)),
        },
    }
}

/// The layout of the message: the header, the column heads, and then for
/// the `i`-th service shown a divider and the service's block.
pub proof fn lemma_payload_layout(
    stamp: Seq<char>,
    total: Seq<char>,
    services: Seq<BillPerServiceView>,
    rate: DecimalValue,
)
    ensures
        payload_blocks(stamp, total, services, rate).len() == 2 + 2 * shown_services(
            services,
        ).len(),
        payload_blocks(stamp, total, services, rate)[0] == header_block(stamp, total, rate),
        payload_blocks(stamp, total, services, rate)[1] == columns_block(),
        forall|i: int|
            0 <= i < shown_services(services).len() ==> {
                &&& payload_blocks(stamp, total, services, rate)[2 + 2 * i] == divider_block()
                &&& #[trigger] payload_blocks(stamp, total, services, rate)[3 + 2 * i]
                    == service_block(shown_services(services)[i], rate)
            },
{
    let shown = shown_services(services);
    let blocks = payload_blocks(stamp, total, services, rate);
    assert forall|i: int| 0 <= i < shown.len() implies {
        &&& blocks[2 + 2 * i] == divider_block()
        &&& #[trigger] blocks[3 + 2 * i] == service_block(shown[i], rate)
    } by {
        assert(blocks[2 + 2 * i] == service_blocks(shown, rate)[2 * i]);
        assert(blocks[3 + 2 * i] == service_blocks(shown, rate)[2 * i + 1]);
        assert((2 * i) % 2 == 0);
        assert((2 * i + 1) % 2 == 1);
        assert((2 * i + 1) / 2 == i);
    }
}

/// The message shows exactly the services whose cost is not written as
/// nothing: each service shown is one of those given and has such a cost,
/// and each service given with such a cost is shown.
pub proof fn lemma_zero_cost_services_left_out(services: Seq<BillPerServiceView>)
    ensures
        forall|i: int|
            0 <= i < shown_services(services).len() ==> {
                &&& !zero_cost((#[trigger] shown_services(services)[i]).bill)
                &&& services.contains(shown_services(services)[i])
            },
        forall|j: int|
            0 <= j < services.len() && !zero_cost(services[j].bill) ==> shown_services(
                services,
            ).contains(#[trigger] services[j]),
{
    let shows = |service: BillPerServiceView| !zero_cost(service.bill);
    let shown = shown_services(services);
    assert forall|i: int| 0 <= i < shown.len() implies {
        &&& !zero_cost((#[trigger] shown[i]).bill)
        &&& services.contains(shown[i])
    } by {
        services.lemma_filter_pred(shows, i);
        assert(shown.contains(shown[i]));
        services.lemma_filter_contains_rev(shows, shown[i]);
    }
    assert forall|j: int| 0 <= j < services.len() && !zero_cost(services[j].bill) implies shown.contains(
     #[trigger] services[j]) by {
        services.lemma_filter_contains(shows, j);
    }
}

/// The time of building changes nothing but the start of the header's
/// text: two messages built from the same total, services and rate succeed or
/// fail alike, and where they succeed they have the same blocks in the same
/// order behind the header, and headers that differ in the time alone.
pub proof fn lemma_payload_differs_only_in_time(
    stamp_a: Seq<char>,
    stamp_b: Seq<char>,
    total: Seq<char>,
    services: Seq<BillPerServiceView>,
    rate: DecimalValue,
)
    ensures
        payload_of(stamp_a, total, services, rate) matches Err(e) ==> payload_of(
            stamp_b,
            total,
            services,
            rate,
        ) == Err::<Seq<SlackBlockView>, DecimalError>(e),
        payload_of(stamp_a, total, services, rate) matches Ok(a) ==> {
            &&& payload_of(stamp_b, total, services, rate) matches Ok(b)
            &&& a.len() == b.len()
            &&& a.skip(1) == b.skip(1)
            &&& a[0] == header_block(stamp_a, total, rate)
            &&& b[0] == header_block(stamp_b, total, rate)
        },
        header_text(stamp_a, total, rate).skip(stamp_a.len() as int) == header_text(
            stamp_b,
            total,
            rate,
        ).skip(stamp_b.len() as int),
{
    let a = payload_blocks(stamp_a, total, services, rate);
    let b = payload_blocks(stamp_b, total, services, rate);
    assert(a.skip(1) =~= b.skip(1));
    let rest = header_label() + prefix(total, 5) + yen_label() + int_text(yen_value(total, rate));
    assert(header_text(stamp_a, total, rate) =~= stamp_a + rest);
    assert(header_text(stamp_b, total, rate) =~= stamp_b + rest);
    assert((stamp_a + rest).skip(stamp_a.len() as int) =~= rest);
    assert((stamp_b + rest).skip(stamp_b.len() as int) =~= rest);
}

/// Why the message was not delivered.
#[derive(Clone, Copy, Debug, PartialEq, Eq, Structural)]
pub enum DeliveryError {
    /// The call failed before the chat service stated a status.
    Transport,
    /// The chat service answered with a status other than 200 and 201.
    Status { code: u16 },
}

/// What a delivery attempt comes to: `status` is the status that the chat
/// service answered with, `None` where the call failed before one was had.
pub open spec fn delivery_outcome(status: Option<u16>) -> Result<(), DeliveryError> {
    match status {
        None => Err(DeliveryError::Transport),
        Some(code) => if code == 200 || code == 201 {
            Ok(())
        } else {
            Err(DeliveryError::Status { code })
        },
    }
}

/// Judges one delivery attempt: delivered where the chat service answered
/// 200 or 201, a failure of the status on any other answer, and a failure of
/// the transport where there was no answer.
pub fn send_slack(status: Option<u16>) -> (r: Result<(), DeliveryError>)
    ensures
        r == delivery_outcome(status),
        r is Ok <==> status == Some(200u16) || status == Some(201u16),
        status is None <==> r == Err::<(), DeliveryError>(DeliveryError::Transport),
{
    match status {
        None => Err(DeliveryError::Transport),
        Some(code) => if code == 200 || code == 201 {
            Ok(())
        } else {
            Err(DeliveryError::Status { code })
        },
    }
}

} // verus!
