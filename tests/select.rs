use cargo_show_asm::{
    select_package, Focus, Format, Options, Package, SelectError, Syntax, Target, TargetKind,
    Workspace,
};
use std::path::PathBuf;

fn target(kind: TargetKind, name: &str) -> Target {
    Target {
        kind,
        name: name.to_string(),
        description: format!("target `{name}`"),
        src_path: format!("src/{name}.rs"),
    }
}

fn package(name: &str, targets: Vec<Target>) -> Package {
    Package {
        name: name.to_string(),
        targets,
    }
}

fn options(package: Option<&str>, focus: Option<Focus>) -> Options {
    Options {
        manifest_path: PathBuf::from("/work/Cargo.toml"),
        target_dir: None,
        package: package.map(|p| p.to_string()),
        focus,
        dry: false,
        frozen: false,
        locked: false,
        offline: false,
        format: Format {
            rust: false,
            color: false,
            full_name: false,
        },
        verbosity: 0,
        syntax: Syntax::Intel,
        function: None,
        nth: 0,
    }
}

fn lib_and_tool() -> Workspace {
    Workspace::Virtual(vec![
        package("A", vec![target(TargetKind::Lib, "a")]),
        package("B", vec![target(TargetKind::Bin, "tool")]),
    ])
}

#[test]
fn focus_on_bin_picks_its_package() {
    let r = select_package(&options(None, Some(Focus::Bin("tool".to_string()))), &lib_and_tool());
    assert_eq!(r.unwrap(), "B");
}

#[test]
fn virtual_workspace_without_selector_lists_members() {
    match select_package(&options(None, None), &lib_and_tool()) {
        Err(SelectError::VirtualWorkspaceNoSelector { members }) => {
            assert_eq!(members, vec!["A".to_string(), "B".to_string()]);
            let lines: Vec<String> = members.iter().map(|m| format!("-p {m}")).collect();
            assert_eq!(lines, vec!["-p A".to_string(), "-p B".to_string()]);
        }
        other => panic!("unexpected {other:?}"),
    }
}

#[test]
fn package_with_several_targets_lists_flags() {
    let ws = Workspace::Virtual(vec![package(
        "C",
        vec![
            target(TargetKind::Lib, "c"),
            target(TargetKind::Test, "t1"),
            target(TargetKind::Test, "t2"),
        ],
    )]);
    match select_package(&options(Some("C"), None), &ws) {
        Err(SelectError::TargetAmbiguous { package, choices }) => {
            assert_eq!(package, "C");
            let flags: Vec<&str> = choices.iter().map(|c| c.flag.as_str()).collect();
            assert_eq!(flags, vec!["--lib", "--test t1", "--test t2"]);
            assert_eq!(choices[1].description, "target `t1`");
            assert_eq!(choices[2].src_path, "src/t2.rs");
        }
        other => panic!("unexpected {other:?}"),
    }
}

#[test]
fn concrete_workspace_ignores_hint() {
    let ws = Workspace::Concrete(package("root", vec![target(TargetKind::Lib, "root")]));
    assert_eq!(select_package(&options(Some("other"), None), &ws).unwrap(), "root");
    assert_eq!(select_package(&options(None, None), &ws).unwrap(), "root");
    let focus = Some(Focus::Bin("missing".to_string()));
    assert_eq!(select_package(&options(Some("x"), focus), &ws).unwrap(), "root");
}

#[test]
fn concrete_root_with_several_targets_needs_focus() {
    let ws = Workspace::Concrete(package(
        "root",
        vec![target(TargetKind::Lib, "root"), target(TargetKind::Bin, "root")],
    ));
    assert!(matches!(
        select_package(&options(None, None), &ws),
        Err(SelectError::TargetAmbiguous { .. })
    ));
    let r = select_package(&options(None, Some(Focus::Lib)), &ws);
    assert_eq!(r.unwrap(), "root");
}

#[test]
fn three_members_without_selector_lists_all() {
    let ws = Workspace::Virtual(vec![
        package("x", vec![target(TargetKind::Lib, "x")]),
        package("y", vec![target(TargetKind::Lib, "y")]),
        package("z", vec![target(TargetKind::Lib, "z")]),
    ]);
    match select_package(&options(None, None), &ws) {
        Err(SelectError::VirtualWorkspaceNoSelector { members }) => {
            assert_eq!(members, vec!["x", "y", "z"]);
        }
        other => panic!("unexpected {other:?}"),
    }
}

#[test]
fn single_member_without_selector_still_fails() {
    let ws = Workspace::Virtual(vec![package("x", vec![target(TargetKind::Lib, "x")])]);
    assert!(matches!(
        select_package(&options(None, None), &ws),
        Err(SelectError::VirtualWorkspaceNoSelector { .. })
    ));
}

#[test]
fn focus_in_one_member_of_several() {
    let ws = Workspace::Virtual(vec![
        package("x", vec![target(TargetKind::Lib, "x"), target(TargetKind::Test, "it")]),
        package("y", vec![target(TargetKind::Bench, "speed")]),
        package("z", vec![target(TargetKind::Lib, "z"), target(TargetKind::Test, "other")]),
    ]);
    let r = select_package(&options(None, Some(Focus::Bench("speed".to_string()))), &ws);
    assert_eq!(r.unwrap(), "y");
    let r = select_package(&options(None, Some(Focus::Test("it".to_string()))), &ws);
    assert_eq!(r.unwrap(), "x");
}

#[test]
fn focus_in_several_members_lists_them_in_order() {
    let ws = Workspace::Virtual(vec![
        package("x", vec![target(TargetKind::Lib, "x")]),
        package("y", vec![target(TargetKind::Bin, "y")]),
        package("z", vec![target(TargetKind::Lib, "z")]),
    ]);
    match select_package(&options(None, Some(Focus::Lib)), &ws) {
        Err(SelectError::FocusAmbiguous { focus, packages }) => {
            assert_eq!(focus, "--lib");
            assert_eq!(packages, vec!["x", "z"]);
        }
        other => panic!("unexpected {other:?}"),
    }
}

#[test]
fn focus_matching_nothing_fails() {
    let focus = Some(Focus::Example("demo".to_string()));
    match select_package(&options(None, focus), &lib_and_tool()) {
        Err(SelectError::FocusNoMatch { focus }) => assert_eq!(focus, "--example demo"),
        other => panic!("unexpected {other:?}"),
    }
}

#[test]
fn focus_needs_exact_kind_and_name() {
    let ws = Workspace::Virtual(vec![
        package("x", vec![target(TargetKind::Bin, "tool")]),
        package("y", vec![target(TargetKind::ExampleBin, "tool")]),
    ]);
    let r = select_package(&options(None, Some(Focus::Bin("too".to_string()))), &ws);
    assert!(matches!(r, Err(SelectError::FocusNoMatch { .. })));
    let r = select_package(&options(None, Some(Focus::Example("tool".to_string()))), &ws);
    assert_eq!(r.unwrap(), "y");
}

#[test]
fn unknown_hint_is_forwarded() {
    let r = select_package(&options(Some("elsewhere"), None), &lib_and_tool());
    assert_eq!(r.unwrap(), "elsewhere");
}

#[test]
fn known_hint_with_one_target() {
    let r = select_package(&options(Some("B"), None), &lib_and_tool());
    assert_eq!(r.unwrap(), "B");
    let r = select_package(&options(Some("A"), Some(Focus::Bin("tool".to_string()))), &lib_and_tool());
    assert_eq!(r.unwrap(), "A");
}

#[test]
fn known_hint_with_several_targets_and_focus() {
    let ws = Workspace::Virtual(vec![package(
        "C",
        vec![target(TargetKind::Lib, "c"), target(TargetKind::Bin, "c")],
    )]);
    let r = select_package(&options(Some("C"), Some(Focus::Bin("c".to_string()))), &ws);
    assert_eq!(r.unwrap(), "C");
}

#[test]
fn listing_skips_unselectable_kinds() {
    let ws = Workspace::Concrete(package(
        "p",
        vec![
            target(TargetKind::CustomBuild, "build-script-build"),
            target(TargetKind::Lib, "p"),
            target(TargetKind::ExampleLib, "plugin"),
            target(TargetKind::Bin, "main"),
            target(TargetKind::Bench, "fast"),
            target(TargetKind::ExampleBin, "demo"),
        ],
    ));
    match select_package(&options(None, None), &ws) {
        Err(SelectError::TargetAmbiguous { package, choices }) => {
            assert_eq!(package, "p");
            let flags: Vec<&str> = choices.iter().map(|c| c.flag.as_str()).collect();
            assert_eq!(flags, vec!["--lib", "--bin main", "--bench fast", "--example demo"]);
        }
        other => panic!("unexpected {other:?}"),
    }
}

#[test]
fn first_member_with_hinted_name_is_used() {
    let ws = Workspace::Virtual(vec![
        package("d", vec![target(TargetKind::Lib, "d")]),
        package("d", vec![target(TargetKind::Lib, "d"), target(TargetKind::Bin, "d")]),
    ]);
    assert_eq!(select_package(&options(Some("d"), None), &ws).unwrap(), "d");
}
