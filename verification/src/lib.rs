//! Monthly cloud-bill notification: billing queries, currency conversion,
//! chat-message assembly and the delivery decision, with verified contracts.

pub mod aws;
pub mod calendar;
pub mod decimal;
pub mod exchange_rate;
pub mod notify;
pub mod slack;
pub mod text;
