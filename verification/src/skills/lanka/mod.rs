pub mod cultural_calendar;
pub mod sltda;
pub mod train;
pub mod visa;
pub mod weather;
