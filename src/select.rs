use vstd::prelude::*;

use crate::focus::{focus_matches, focus_text, Focus};
use crate::options::Options;
use crate::workspace::{Package, Target, TargetKind, Workspace};

verus! {

/// A target a user can pick, as an ambiguity report lists it.
#[derive(Clone, Debug)]
pub struct TargetChoice {
    /// The flag that selects the target, such as `--bin tool`.
    pub flag: String,
    pub description: String,
    pub src_path: String,
}

impl View for TargetChoice {
    type V = (Seq<char>, Seq<char>, Seq<char>);

    open spec fn view(&self) -> (Seq<char>, Seq<char>, Seq<char>) {
        (self.flag@, self.description@, self.src_path@)
    }
}

/// Why a request does not settle on one package and target. Each variant
/// carries what the user can choose from.
#[derive(Clone, Debug)]
pub enum SelectError {
    /// A virtual workspace, and neither a package nor a focus: every member.
    VirtualWorkspaceNoSelector { members: Vec<String> },
    /// The focus, as a flag, selects no target of any member.
    FocusNoMatch { focus: String },
    /// The focus, as a flag, selects targets of several members: those members.
    FocusAmbiguous { focus: String, packages: Vec<String> },
    /// The package has several targets and no focus was given: its targets.
    TargetAmbiguous { package: String, choices: Vec<TargetChoice> },
}

/// What a `SelectError` holds, as sequences of characters.
pub enum SelectErrorView {
    VirtualWorkspaceNoSelector { members: Seq<Seq<char>> },
    FocusNoMatch { focus: Seq<char> },
    FocusAmbiguous { focus: Seq<char>, packages: Seq<Seq<char>> },
    TargetAmbiguous { package: Seq<char>, choices: Seq<(Seq<char>, Seq<char>, Seq<char>)> },
}

pub open spec fn choices_view(cs: Seq<TargetChoice>) -> Seq<(Seq<char>, Seq<char>, Seq<char>)> {
    cs.map_values(|c: TargetChoice| c@)
}

impl View for SelectError {
    type V = SelectErrorView;

    open spec fn view(&self) -> SelectErrorView {
        match self {
            SelectError::VirtualWorkspaceNoSelector { members } => {
                SelectErrorView::VirtualWorkspaceNoSelector { members: members.deep_view() }
            },
            SelectError::FocusNoMatch { focus } => SelectErrorView::FocusNoMatch { focus: focus@ },
            SelectError::FocusAmbiguous { focus, packages } => {
                SelectErrorView::FocusAmbiguous { focus: focus@, packages: packages.deep_view() }
            },
            SelectError::TargetAmbiguous { package, choices } => {
                SelectErrorView::TargetAmbiguous {
                    package: package@,
                    choices: choices_view(choices@),
                }
            },
        }
    }
}

/// Names of the members, in discovery order.
pub open spec fn member_names(ms: Seq<Package>) -> Seq<Seq<char>> {
    ms.map_values(|p: Package| p.name@)
}

/// Whether some target of `p` is selected by `f`.
pub open spec fn has_match(f: Focus, p: Package) -> bool {
    exists|i: int| 0 <= i < p.targets@.len() && focus_matches(f, #[trigger] p.targets@[i])
}

/// Names of the members with a target selected by `f`, in discovery order.
pub open spec fn matching_packages(f: Focus, ms: Seq<Package>) -> Seq<Seq<char>>
    decreases ms.len(),
{
    if ms.len() == 0 {
        Seq::empty()
    } else {
        let rest = matching_packages(f, ms.drop_last());
        if has_match(f, ms.last()) {
            rest.push(ms.last().name@)
        } else {
            rest
        }
    }
}

/// The flag that selects `t`; none for kinds that cannot be selected.
pub open spec fn target_flag(t: Target) -> Option<Seq<char>> {
    match t.kind {
        TargetKind::Lib => Some("--lib"@),
        TargetKind::Bin => Some("--bin "@ + t.name@),
        TargetKind::Test => Some("--test "@ + t.name@),
        TargetKind::Bench => Some("--bench "@ + t.name@),
        TargetKind::ExampleBin => Some("--example "@ + t.name@),
        TargetKind::ExampleLib | TargetKind::CustomBuild => None,
    }
}

/// The selectable targets of `ts`, in order, as flag, description and path.
pub open spec fn target_choices(ts: Seq<Target>) -> Seq<(Seq<char>, Seq<char>, Seq<char>)>
    decreases ts.len(),
{
    if ts.len() == 0 {
        Seq::empty()
    } else {
        let rest = target_choices(ts.drop_last());
        match target_flag(ts.last()) {
            Some(flag) => rest.push((flag, ts.last().description@, ts.last().src_path@)),
            None => rest,
        }
    }
}

/// The first member named `name`.
pub open spec fn find_member(ms: Seq<Package>, name: Seq<char>) -> Option<Package>
    decreases ms.len(),
{
    if ms.len() == 0 {
        None
    } else if ms[0].name@ == name {
        Some(ms[0])
    } else {
        find_member(ms.drop_first(), name)
    }
}

/// The package that a request names, where the workspace or the hint fixes it.
pub open spec fn resolved_package(hint: Option<Seq<char>>, ws: Workspace) -> Option<Package> {
    match ws {
        Workspace::Concrete(p) => Some(p),
        Workspace::Virtual(ms) => match hint {
            Some(h) => find_member(ms@, h),
            None => None,
        },
    }
}

/// Settles on `p` unless it has several targets and no focus picks one.
pub open spec fn check_targets(p: Package, focus: Option<Focus>) -> Result<
    Seq<char>,
    SelectErrorView,
> {
    if p.targets@.len() > 1 && focus is None {
        Err(
            SelectErrorView::TargetAmbiguous {
                package: p.name@,
                choices: target_choices(p.targets@),
            },
        )
    } else {
        Ok(p.name@)
    }
}

/// The package that a request with package `hint` and `focus` selects in `ws`,
/// or why it selects none.
pub open spec fn selection(hint: Option<Seq<char>>, focus: Option<Focus>, ws: Workspace) -> Result<
    Seq<char>,
    SelectErrorView,
> {
    match ws {
        Workspace::Concrete(p) => check_targets(p, focus),
        Workspace::Virtual(ms) => match hint {
            Some(h) => match find_member(ms@, h) {
                Some(p) => check_targets(p, focus),
                None => Ok(h),
            },
            None => match focus {
                None => Err(
                    SelectErrorView::VirtualWorkspaceNoSelector { members: member_names(ms@) },
                ),
                Some(f) => {
                    let c = matching_packages(f, ms@);
                    if c.len() == 0 {
                        Err(SelectErrorView::FocusNoMatch { focus: focus_text(f) })
                    } else if c.len() == 1 {
                        Ok(c[0])
                    } else {
                        Err(SelectErrorView::FocusAmbiguous { focus: focus_text(f), packages: c })
                    }
                },
            },
        },
    }
}

/// Whether `t` is of a kind that a user can select.
pub open spec fn selectable(t: Target) -> bool {
    t.kind != TargetKind::ExampleLib && t.kind != TargetKind::CustomBuild
}

/// How an ambiguity report lists a selectable target.
pub open spec fn listed(t: Target) -> (Seq<char>, Seq<char>, Seq<char>) {
    (target_flag(t).unwrap(), t.description@, t.src_path@)
}

/// The focus that selects a selectable target `t`.
pub open spec fn focus_for(t: Target) -> Focus {
    match t.kind {
        TargetKind::Bin => Focus::Bin(t.name),
        TargetKind::Test => Focus::Test(t.name),
        TargetKind::Bench => Focus::Bench(t.name),
        TargetKind::ExampleBin => Focus::Example(t.name),
        _ => Focus::Lib,
    }
}

proof fn lemma_matching_none(f: Focus, ms: Seq<Package>)
    requires
        forall|i: int| 0 <= i < ms.len() ==> !has_match(f, #[trigger] ms[i]),
    ensures
        matching_packages(f, ms).len() == 0,
    decreases ms.len(),
{
    if ms.len() > 0 {
        assert(ms.last() == ms[ms.len() - 1]);
        lemma_matching_none(f, ms.drop_last());
    }
}

proof fn lemma_matching_one(f: Focus, ms: Seq<Package>, k: int)
    requires
        0 <= k < ms.len(),
        has_match(f, ms[k]),
        forall|i: int| 0 <= i < ms.len() && i != k ==> !has_match(f, #[trigger] ms[i]),
    ensures
        matching_packages(f, ms) == seq![ms[k].name@],
    decreases ms.len(),
{
    let rest = ms.drop_last();
    if k == ms.len() - 1 {
        lemma_matching_none(f, rest);
        assert(matching_packages(f, ms) =~= seq![ms[k].name@]);
    } else {
        assert(ms.last() == ms[ms.len() - 1]);
        lemma_matching_one(f, rest, k);
    }
}

proof fn lemma_matching_some(f: Focus, ms: Seq<Package>, i: int)
    requires
        0 <= i < ms.len(),
        has_match(f, ms[i]),
    ensures
        matching_packages(f, ms).len() >= 1,
    decreases ms.len(),
{
    if i < ms.len() - 1 {
        lemma_matching_some(f, ms.drop_last(), i);
    }
}

proof fn lemma_matching_two(f: Focus, ms: Seq<Package>, i: int, j: int)
    requires
        0 <= i < j < ms.len(),
        has_match(f, ms[i]),
        has_match(f, ms[j]),
    ensures
        matching_packages(f, ms).len() >= 2,
    decreases ms.len(),
{
    if j == ms.len() - 1 {
        lemma_matching_some(f, ms.drop_last(), i);
    } else {
        lemma_matching_two(f, ms.drop_last(), i, j);
        if has_match(f, ms.last()) {
        }
    }
}

proof fn lemma_matching_is_filter(f: Focus, ms: Seq<Package>)
    ensures
        matching_packages(f, ms) == ms.filter(|p: Package| has_match(f, p)).map_values(
            |p: Package| p.name@,
        ),
    decreases ms.len(),
{
    reveal(Seq::filter);
    if ms.len() > 0 {
        lemma_matching_is_filter(f, ms.drop_last());
        let pred = |p: Package| has_match(f, p);
        let name = |p: Package| p.name@;
        let before = ms.drop_last().filter(pred);
        assert(before.push(ms.last()).map_values(name) =~= before.map_values(name).push(
            ms.last().name@,
        ));
    }
}

proof fn lemma_choices_are_filter(ts: Seq<Target>)
    ensures
        target_choices(ts) == ts.filter(|t: Target| selectable(t)).map_values(
            |t: Target| listed(t),
        ),
    decreases ts.len(),
{
    reveal(Seq::filter);
    if ts.len() > 0 {
        lemma_choices_are_filter(ts.drop_last());
        let pred = |t: Target| selectable(t);
        let entry = |t: Target| listed(t);
        let before = ts.drop_last().filter(pred);
        assert(before.push(ts.last()).map_values(entry) =~= before.map_values(entry).push(
            listed(ts.last()),
        ));
    }
}

/// In a workspace rooted at a package, every request selects that package,
/// whatever package it names, unless the package has several targets and no
/// focus picks one of them.
pub proof fn lemma_concrete_selects_root(
    hint: Option<Seq<char>>,
    focus: Option<Focus>,
    p: Package,
)
    requires
        !(p.targets@.len() > 1 && focus is None),
    ensures
        selection(hint, focus, Workspace::Concrete(p)) == Ok::<Seq<char>, SelectErrorView>(
            p.name@,
        ),
{
}

/// In a virtual workspace of two or more members, a request with neither a
/// package nor a focus fails and lists every member, in discovery order.
pub proof fn lemma_virtual_needs_selector(ms: Vec<Package>)
    requires
        ms@.len() >= 2,
    ensures
        selection(None, None, Workspace::Virtual(ms)) matches Err(
            SelectErrorView::VirtualWorkspaceNoSelector { members },
        ) && members.len() == ms@.len() && forall|i: int|
            0 <= i < ms@.len() ==> members[i] == #[trigger] ms@[i].name@,
{
}

/// In a virtual workspace, a focus that selects targets of exactly one member
/// selects that member, with no package named.
pub proof fn lemma_focus_picks_member(f: Focus, ms: Vec<Package>, k: int)
    requires
        0 <= k < ms@.len(),
        has_match(f, ms@[k]),
        forall|i: int| 0 <= i < ms@.len() && i != k ==> !has_match(f, #[trigger] ms@[i]),
    ensures
        selection(None, Some(f), Workspace::Virtual(ms)) == Ok::<Seq<char>, SelectErrorView>(
            ms@[k].name@,
        ),
{
    lemma_matching_one(f, ms@, k);
}

/// In a virtual workspace, a focus that selects targets of two or more members,
/// with no package named, fails and lists exactly the members with a selected
/// target, in discovery order.
pub proof fn lemma_focus_in_several_members(f: Focus, ms: Vec<Package>, i: int, j: int)
    requires
        0 <= i < j < ms@.len(),
        has_match(f, ms@[i]),
        has_match(f, ms@[j]),
    ensures
        selection(None, Some(f), Workspace::Virtual(ms)) == Err::<Seq<char>, SelectErrorView>(
            SelectErrorView::FocusAmbiguous {
                focus: focus_text(f),
                packages: ms@.filter(|p: Package| has_match(f, p)).map_values(
                    |p: Package| p.name@,
                ),
            },
        ),
{
    lemma_matching_two(f, ms@, i, j);
    lemma_matching_is_filter(f, ms@);
}

/// Targets are reported as ambiguous only for a package that the workspace or
/// the package name fixes, that has two or more targets, and only when no
/// focus is given: a package with one target never is.
pub proof fn lemma_target_ambiguity_needs_targets(
    hint: Option<Seq<char>>,
    focus: Option<Focus>,
    ws: Workspace,
)
    ensures
        selection(hint, focus, ws) is Err && selection(hint, focus, ws)->Err_0 is TargetAmbiguous
            ==> resolved_package(hint, ws) is Some && resolved_package(hint, ws)->Some_0.targets@.len()
            >= 2 && focus is None,
{
}

/// A package with two or more targets, fixed by the workspace or the package
/// name, and no focus: the request fails and lists every target of the package
/// in order, but for the kinds that cannot be selected.
pub proof fn lemma_targets_listed(hint: Option<Seq<char>>, ws: Workspace, p: Package)
    requires
        resolved_package(hint, ws) == Some(p),
        p.targets@.len() >= 2,
    ensures
        selection(hint, None, ws) == Err::<Seq<char>, SelectErrorView>(
            SelectErrorView::TargetAmbiguous {
                package: p.name@,
                choices: p.targets@.filter(|t: Target| selectable(t)).map_values(
                    |t: Target| listed(t),
                ),
            },
        ),
{
    lemma_choices_are_filter(p.targets@);
}

/// The flag listed for a selectable target is the text of the focus that
/// selects it, and every focus that selects a target is listed by its text.
pub proof fn lemma_listed_flag_is_focus_text(f: Focus, t: Target)
    ensures
        focus_matches(f, t) ==> target_flag(t) == Some(focus_text(f)),
        selectable(t) ==> focus_matches(focus_for(t), t) && target_flag(t) == Some(
            focus_text(focus_for(t)),
        ),
{
}

fn member_name_list(ms: &Vec<Package>) -> (r: Vec<String>)
    ensures
        r.deep_view() == member_names(ms@),
{
    let mut r: Vec<String> = Vec::new();
    for i in 0..ms.len()
        invariant
            r.deep_view() == member_names(ms@.subrange(0, i as int)),
    {
        let ghost before = r.deep_view();
        r.push(ms[i].name.clone());
        assert(r.deep_view() =~= before.push(ms@[i as int].name@));
        assert(member_names(ms@.subrange(0, i + 1)) =~= member_names(
            ms@.subrange(0, i as int),
        ).push(ms@[i as int].name@));
    }
    assert(ms@.subrange(0, ms@.len() as int) =~= ms@);
    r
}

fn package_has_match(f: &Focus, p: &Package) -> (r: bool)
    ensures
        r == has_match(*f, *p),
{
    for i in 0..p.targets.len()
        invariant
            forall|j: int| 0 <= j < i ==> !focus_matches(*f, #[trigger] p.targets@[j]),
    {
        if f.matches(&p.targets[i]) {
            return true;
        }
    }
    false
}

fn matching_package_names(f: &Focus, ms: &Vec<Package>) -> (r: Vec<String>)
    ensures
        r.deep_view() == matching_packages(*f, ms@),
{
    let mut r: Vec<String> = Vec::new();
    for i in 0..ms.len()
        invariant
            r.deep_view() == matching_packages(*f, ms@.subrange(0, i as int)),
    {
        assert(ms@.subrange(0, i + 1).drop_last() =~= ms@.subrange(0, i as int));
        if package_has_match(f, &ms[i]) {
            r.push(ms[i].name.clone());
            assert(r.deep_view() =~= matching_packages(*f, ms@.subrange(0, i + 1)));
        }
    }
    assert(ms@.subrange(0, ms@.len() as int) =~= ms@);
    r
}

fn find_member_index(ms: &Vec<Package>, name: &String) -> (r: Option<usize>)
    ensures
        match r {
            Some(i) => i < ms@.len() && find_member(ms@, name@) == Some(ms@[i as int]),
            None => find_member(ms@, name@) is None,
        },
{
    let n = ms.len();
    assert(ms@.subrange(0, n as int) =~= ms@);
    for i in 0..n
        invariant
            n == ms@.len(),
            find_member(ms@, name@) == find_member(ms@.subrange(i as int, n as int), name@),
    {
        assert(ms@.subrange(i as int, n as int).drop_first() =~= ms@.subrange(i + 1, n as int));
        if ms[i].name == *name {
            return Some(i);
        }
    }
    None
}

fn target_flag_text(t: &Target) -> (r: Option<String>)
    ensures
        match r {
            Some(s) => target_flag(*t) == Some(s@),
            None => target_flag(*t) is None,
        },
{
    match t.kind {
        TargetKind::Lib => Some(String::from_str("--lib")),
        TargetKind::Bin => Some(String::from_str("--bin ").concat(t.name.as_str())),
        TargetKind::Test => Some(String::from_str("--test ").concat(t.name.as_str())),
        TargetKind::Bench => Some(String::from_str("--bench ").concat(t.name.as_str())),
        TargetKind::ExampleBin => Some(String::from_str("--example ").concat(t.name.as_str())),
        TargetKind::ExampleLib | TargetKind::CustomBuild => None,
    }
}

fn target_choice_list(ts: &Vec<Target>) -> (r: Vec<TargetChoice>)
    ensures
        choices_view(r@) == target_choices(ts@),
{
    let mut r: Vec<TargetChoice> = Vec::new();
    for i in 0..ts.len()
        invariant
            choices_view(r@) == target_choices(ts@.subrange(0, i as int)),
    {
        assert(ts@.subrange(0, i + 1).drop_last() =~= ts@.subrange(0, i as int));
        let t = &ts[i];
        if let Some(flag) = target_flag_text(t) {
            r.push(
                TargetChoice {
                    flag,
                    description: t.description.clone(),
                    src_path: t.src_path.clone(),
                },
            );
            assert(choices_view(r@) =~= target_choices(ts@.subrange(0, i + 1)));
        }
    }
    assert(ts@.subrange(0, ts@.len() as int) =~= ts@);
    r
}

fn check_package_targets(p: &Package, focus: &Option<Focus>) -> (r: Result<String, SelectError>)
    ensures
        match r {
            Ok(s) => check_targets(*p, *focus) == Ok::<Seq<char>, SelectErrorView>(s@),
            Err(e) => check_targets(*p, *focus) == Err::<Seq<char>, SelectErrorView>(e@),
        },
{
    if p.targets.len() > 1 && focus.is_none() {
        Err(
            SelectError::TargetAmbiguous {
                package: p.name.clone(),
                choices: target_choice_list(&p.targets),
            },
        )
    } else {
        Ok(p.name.clone())
    }
}

/// Settles the request in `opts` on one package of `ws`, or reports what the
/// user can choose from. A package hint that names no member is handed back
/// as it is, for the build to judge.
pub fn select_package(opts: &Options, ws: &Workspace) -> (r: Result<String, SelectError>)
    ensures
        match r {
            Ok(s) => selection(opts.package.deep_view(), opts.focus, *ws) == Ok::<
                Seq<char>,
                SelectErrorView,
            >(s@),
            Err(e) => selection(opts.package.deep_view(), opts.focus, *ws) == Err::<
                Seq<char>,
                SelectErrorView,
            >(e@),
        },
{
    match ws {
        Workspace::Concrete(p) => check_package_targets(p, &opts.focus),
        Workspace::Virtual(ms) => match &opts.package {
            Some(h) => match find_member_index(ms, h) {
                Some(i) => check_package_targets(&ms[i], &opts.focus),
                None => Ok(h.clone()),
            },
            None => match &opts.focus {
                None => Err(SelectError::VirtualWorkspaceNoSelector { members: member_name_list(ms) }),
                Some(f) => {
                    let mut c = matching_package_names(f, ms);
                    if c.len() == 0 {
                        Err(SelectError::FocusNoMatch { focus: f.to_string() })
                    } else if c.len() == 1 {
                        Ok(c.remove(0))
                    } else {
                        Err(SelectError::FocusAmbiguous { focus: f.to_string(), packages: c })
                    }
                },
            },
        },
    }
}

} // verus!
