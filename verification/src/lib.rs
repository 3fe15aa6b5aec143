pub mod bindings;
pub mod dispatch;
pub mod errors;
pub mod pool;
pub mod report;
pub mod session;
pub mod wstr;
