//! Sri Lanka travel and culture knowledge used by the ApeClaw agent:
//! holidays and Poya days, visa rules, rail routes, tourism operators,
//! monsoon seasons and the local audit-log line format.

pub mod audit;
pub mod skills;
pub mod text;
