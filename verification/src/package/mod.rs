pub mod dlls;
pub mod guarantees;
pub mod installer;
pub mod manifest_reader;
pub mod manifests;
pub mod nsis;
pub mod portable;
pub mod resources;
pub mod script_lines;
pub mod version_info;
pub mod version_reader;
pub mod windows;
