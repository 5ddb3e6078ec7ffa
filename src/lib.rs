pub mod handlers;
pub mod table;
pub mod task;
