pub mod acceptance;
pub mod assets;
pub mod cleanup;
pub mod compiler;
pub mod docker;
pub mod guarantees;
pub mod isolation;
pub mod pipeline;
pub mod runs;
pub mod validate;
