pub mod guarantees;
pub mod messages;
