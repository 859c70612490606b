//! Safe, verified core of a binding to the macOS workspace service.
//!
//! The library does not call the operating system itself. It turns caller
//! arguments into the nul-terminated strings the native entry points take,
//! names the native call to make, and decodes what the native side hands back.
pub mod error;
pub mod json;
pub mod laws;
pub mod native;
pub mod workspace;

pub use error::WorkspaceError;
pub use json::{JsonModel, JsonNumber};
pub use native::NativeString;
pub use workspace::{
    frontmost_application_from_json, running_applications_from_json, FrontmostApp, NSWorkspace,
    NativeCall, RunningApp,
};
