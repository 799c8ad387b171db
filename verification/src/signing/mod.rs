pub mod guarantees;
pub mod provider;
pub mod windows;
