//! Resolution of a `cargo asm` request to one package and target of a
//! workspace, with structured diagnostics when the request is ambiguous.
pub mod filter;
pub mod focus;
pub mod options;
pub mod select;
pub mod workspace;

pub use filter::{compile_filter, TargetFilter};
pub use focus::Focus;
pub use options::{Format, Options, Syntax};
pub use select::{select_package, SelectError, TargetChoice};
pub use workspace::{Package, Target, TargetKind, Workspace};
