use vstd::prelude::*;

use crate::workspace::{Target, TargetKind};

verus! {

/// A request narrowed to one target kind and name.
#[derive(Clone, Debug)]
pub enum Focus {
    Lib,
    Test(String),
    Bench(String),
    Example(String),
    Bin(String),
}

/// Whether `f` selects target `t`: same kind and, except for the library,
/// exactly the same name.
pub open spec fn focus_matches(f: Focus, t: Target) -> bool {
    match f {
        Focus::Lib => t.kind == TargetKind::Lib,
        Focus::Test(n) => t.kind == TargetKind::Test && t.name@ == n@,
        Focus::Bench(n) => t.kind == TargetKind::Bench && t.name@ == n@,
        Focus::Example(n) => t.kind == TargetKind::ExampleBin && t.name@ == n@,
        Focus::Bin(n) => t.kind == TargetKind::Bin && t.name@ == n@,
    }
}

/// The command line flag that requests `f`.
pub open spec fn focus_text(f: Focus) -> Seq<char> {
    match f {
        Focus::Lib => "--lib"@,
        Focus::Test(n) => "--test "@ + n@,
        Focus::Bench(n) => "--bench "@ + n@,
        Focus::Example(n) => "--example "@ + n@,
        Focus::Bin(n) => "--bin "@ + n@,
    }
}

impl Focus {
    /// Whether this focus selects `target`.
    pub fn matches(&self, target: &Target) -> (r: bool)
        ensures
            r == focus_matches(*self, *target),
    {
        match self {
            Focus::Lib => target.kind == TargetKind::Lib,
            Focus::Test(t) => target.kind == TargetKind::Test && target.name == *t,
            Focus::Bench(b) => target.kind == TargetKind::Bench && target.name == *b,
            Focus::Example(e) => target.kind == TargetKind::ExampleBin && target.name == *e,
            Focus::Bin(b) => target.kind == TargetKind::Bin && target.name == *b,
        }
    }

    /// The flag a user types to request this focus, such as `--bin tool`.
    pub fn to_string(&self) -> (r: String)
        ensures
            r@ == focus_text(*self),
    {
        match self {
            Focus::Lib => String::from_str("--lib"),
            Focus::Test(t) => String::from_str("--test ").concat(t.as_str()),
            Focus::Bench(b) => String::from_str("--bench ").concat(b.as_str()),
            Focus::Example(e) => String::from_str("--example ").concat(e.as_str()),
            Focus::Bin(b) => String::from_str("--bin ").concat(b.as_str()),
        }
    }
}

} // verus!
