use vstd::prelude::*;

use cargo::ops::{CompileFilter, FilterRule, LibRule};

use crate::focus::Focus;
use crate::workspace::TargetKind;

verus! {

/// cargo's rule for the library target, declared with its variants so that
/// contracts can say which rule a filter holds.
#[verifier::external_type_specification]
pub struct ExLibRule(LibRule);

/// cargo's rule for one kind of target: all of them, or those named.
#[verifier::external_type_specification]
pub struct ExFilterRule(FilterRule);

/// cargo's compile filter, declared with its public variants and fields.
#[verifier::external_type_specification]
pub struct ExCompileFilter(CompileFilter);

/// The targets of a package that a build is asked for, in the terms of
/// cargo's compile filter: the library alone, or named targets by kind.
#[derive(Clone, Debug)]
pub struct TargetFilter {
    pub lib_only: bool,
    pub bins: Vec<String>,
    pub tests: Vec<String>,
    pub examples: Vec<String>,
    pub benches: Vec<String>,
}

/// The names that `f` asks for among targets of kind `k`: its one name where
/// `f` selects that kind, none otherwise.
pub open spec fn requested(f: Focus, k: TargetKind) -> Seq<Seq<char>> {
    match f {
        Focus::Lib => Seq::empty(),
        Focus::Test(n) => if k == TargetKind::Test {
            seq![n@]
        } else {
            Seq::empty()
        },
        Focus::Bench(n) => if k == TargetKind::Bench {
            seq![n@]
        } else {
            Seq::empty()
        },
        Focus::Example(n) => if k == TargetKind::ExampleBin {
            seq![n@]
        } else {
            Seq::empty()
        },
        Focus::Bin(n) => if k == TargetKind::Bin {
            seq![n@]
        } else {
            Seq::empty()
        },
    }
}

/// Whether `r` selects exactly the targets named in `names`.
pub open spec fn just(r: FilterRule, names: Seq<Seq<char>>) -> bool {
    r matches FilterRule::Just(v) && v.deep_view() == names
}

/// Whether `c` builds what `f` asks for and nothing else.
pub open spec fn filters_for(c: CompileFilter, f: Focus) -> bool {
    &&& c matches CompileFilter::Only { all_targets, lib, bins, examples, tests, benches }
    &&& !all_targets
    &&& lib == (if f is Lib {
        LibRule::True
    } else {
        LibRule::False
    })
    &&& just(bins, requested(f, TargetKind::Bin))
    &&& just(tests, requested(f, TargetKind::Test))
    &&& just(examples, requested(f, TargetKind::ExampleBin))
    &&& just(benches, requested(f, TargetKind::Bench))
}

fn single(s: &String) -> (r: Vec<String>)
    ensures
        r.deep_view() == seq![s@],
{
    let r = vec![s.clone()];
    assert(r.deep_view() =~= seq![s@]);
    r
}

impl Focus {
    /// The filter that builds this focus alone: exactly one of its parts is
    /// set, by the variant.
    pub fn target_filter(&self) -> (r: TargetFilter)
        ensures
            r.lib_only == (*self is Lib),
            r.bins.deep_view() == requested(*self, TargetKind::Bin),
            r.tests.deep_view() == requested(*self, TargetKind::Test),
            r.examples.deep_view() == requested(*self, TargetKind::ExampleBin),
            r.benches.deep_view() == requested(*self, TargetKind::Bench),
    {
        let mut r = TargetFilter {
            lib_only: false,
            bins: Vec::new(),
            tests: Vec::new(),
            examples: Vec::new(),
            benches: Vec::new(),
        };
        assert(r.bins.deep_view() =~= Seq::<Seq<char>>::empty());
        assert(r.tests.deep_view() =~= Seq::<Seq<char>>::empty());
        assert(r.examples.deep_view() =~= Seq::<Seq<char>>::empty());
        assert(r.benches.deep_view() =~= Seq::<Seq<char>>::empty());
        match self {
            Focus::Lib => r.lib_only = true,
            Focus::Test(t) => r.tests = single(t),
            Focus::Bench(b) => r.benches = single(b),
            Focus::Example(e) => r.examples = single(e),
            Focus::Bin(b) => r.bins = single(b),
        }
        r
    }
}

/// Relies on cargo's `CompileFilter::from_raw_arguments`: with none of the
/// "all" flags set and something asked for, it returns `Only` with the library
/// rule from `lib_only` and each list kept as given.
#[verifier::external_body]
fn from_raw_arguments(
    lib_only: bool,
    bins: Vec<String>,
    tests: Vec<String>,
    examples: Vec<String>,
    benches: Vec<String>,
) -> (r: CompileFilter)
    ensures
        (lib_only || bins@.len() > 0 || tests@.len() > 0 || examples@.len() > 0 || benches@.len()
            > 0) ==> r == (CompileFilter::Only {
            all_targets: false,
            lib: if lib_only {
                LibRule::True
            } else {
                LibRule::False
            },
            bins: FilterRule::Just(bins),
            examples: FilterRule::Just(examples),
            tests: FilterRule::Just(tests),
            benches: FilterRule::Just(benches),
        }),
{
    CompileFilter::from_raw_arguments(
        lib_only, bins, false, tests, false, examples, false, benches, false, false,
    )
}

/// The compile filter that builds exactly the target `focus` asks for.
pub fn compile_filter(focus: &Focus) -> (r: CompileFilter)
    ensures
        filters_for(r, *focus),
{
    let t = focus.target_filter();
    assert(t.bins.deep_view().len() == t.bins@.len());
    assert(t.tests.deep_view().len() == t.tests@.len());
    assert(t.examples.deep_view().len() == t.examples@.len());
    assert(t.benches.deep_view().len() == t.benches@.len());
    from_raw_arguments(t.lib_only, t.bins, t.tests, t.examples, t.benches)
}

} // verus!
