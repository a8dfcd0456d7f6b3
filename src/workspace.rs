use vstd::prelude::*;

verus! {

/// The kind of a buildable target of a package.
#[derive(Clone, Copy, Debug, PartialEq, Eq, Structural)]
pub enum TargetKind {
    Lib,
    Bin,
    Test,
    Bench,
    ExampleBin,
    ExampleLib,
    CustomBuild,
}

/// One buildable target of a package, with what diagnostics show of it.
#[derive(Clone, Debug)]
pub struct Target {
    pub kind: TargetKind,
    pub name: String,
    /// Human readable description, such as "lib target `foo`".
    pub description: String,
    /// Path of the target's root source file.
    pub src_path: String,
}

/// A named package and its targets, in manifest order.
#[derive(Clone, Debug)]
pub struct Package {
    pub name: String,
    pub targets: Vec<Target>,
}

/// A workspace: either rooted at one package, or virtual with member packages
/// listed in discovery order.
#[derive(Clone, Debug)]
pub enum Workspace {
    Concrete(Package),
    Virtual(Vec<Package>),
}

} // verus!
