use vstd::prelude::*;

use crate::focus::Focus;

verus! {

/// std's owned path, carried through as it is.
#[verifier::external_type_specification]
#[verifier::external_body]
pub struct ExPathBuf(std::path::PathBuf);

/// Assembly dialect that rustc is asked to emit.
#[derive(Clone, Copy, Debug, PartialEq, Eq, Structural)]
pub enum Syntax {
    /// Intel style
    Intel,
    /// AT&T style
    Att,
}

/// The codegen option that selects the dialect.
pub open spec fn syntax_arg(s: Syntax) -> Seq<char> {
    match s {
        Syntax::Intel => "llvm-args=-x86-asm-syntax=intel"@,
        Syntax::Att => "llvm-args=-x86-asm-syntax=att"@,
    }
}

impl Syntax {
    /// The `-C` argument for rustc that selects this dialect.
    pub fn to_string(&self) -> (r: String)
        ensures
            r@ == syntax_arg(*self),
    {
        match self {
            Syntax::Intel => String::from_str("llvm-args=-x86-asm-syntax=intel"),
            Syntax::Att => String::from_str("llvm-args=-x86-asm-syntax=att"),
        }
    }
}

/// How the listing is presented.
#[derive(Clone, Copy, Debug, PartialEq, Eq, Structural)]
pub struct Format {
    /// Interleave the Rust source.
    pub rust: bool,
    /// Highlight with colors.
    pub color: bool,
    /// Show full demangled names instead of prefixes.
    pub full_name: bool,
}

/// Everything the user asked for on the command line.
#[derive(Debug)]
pub struct Options {
    /// Absolute path of the manifest to read.
    pub manifest_path: std::path::PathBuf,
    /// Custom directory for generated artifacts.
    pub target_dir: Option<std::path::PathBuf>,
    /// Package to use when the workspace holds several.
    pub package: Option<String>,
    /// Target to use when the package holds several.
    pub focus: Option<Focus>,
    /// Produce a build plan instead of building.
    pub dry: bool,
    /// Require Cargo.lock and cache to be up to date.
    pub frozen: bool,
    /// Require Cargo.lock to be up to date.
    pub locked: bool,
    /// Run without accessing the network.
    pub offline: bool,
    pub format: Format,
    /// How many times verbose output was asked for.
    pub verbosity: usize,
    pub syntax: Syntax,
    /// Full or partial name of the function to show.
    pub function: Option<String>,
    /// Which of several matching functions to show.
    pub nth: usize,
}

} // verus!
