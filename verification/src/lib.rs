//! Normalizes raw keyboard and pointer input into two-field event records
//! and renders them as newline-delimited JSON.

pub mod channel;
pub mod decimal;
pub mod device;
pub mod discovery;
pub mod dispatch;
pub mod hook;
pub mod json;
pub mod producer;
pub mod record;
pub mod startup;
pub mod stream;
