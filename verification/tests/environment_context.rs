use codex_context::environment_context::{
    EnvironmentContext, EnvironmentContextEnvironment, NetworkContext,
};
use codex_context::shell::{Shell, ShellType};
use codex_context::turn_context::{
    NetworkDomainPermissions, NetworkRequirements, TurnContext, TurnContextEnvironmentItem,
    TurnContextItem, TurnContextNetworkItem, TurnEnvironment,
};

fn s(text: &str) -> String {
    text.to_string()
}

fn strings(items: &[&str]) -> Vec<String> {
    items.iter().map(|item| item.to_string()).collect()
}

fn bash() -> Shell {
    Shell { shell_type: ShellType::Bash, shell_path: s("/bin/bash") }
}

fn zsh() -> Shell {
    Shell { shell_type: ShellType::Zsh, shell_path: s("/bin/zsh") }
}

fn environment(id: &str, cwd: &str, primary: bool) -> EnvironmentContextEnvironment {
    EnvironmentContextEnvironment { id: s(id), cwd: s(cwd), primary }
}

fn network(allowed: &[&str], denied: &[&str]) -> NetworkContext {
    NetworkContext { allowed_domains: strings(allowed), denied_domains: strings(denied) }
}

fn live_turn() -> TurnContext {
    TurnContext {
        cwd: s("/repo"),
        default_environment_cwd: s("/repo"),
        environments: vec![
            TurnEnvironment { environment_id: Some(s("local")), cwd: s("/repo") },
            TurnEnvironment { environment_id: Some(s("remote")), cwd: s("/srv/app") },
        ],
        multi_environment_tools: true,
        current_date: Some(s("2025-01-02")),
        timezone: Some(s("Europe/Paris")),
        network: Some(NetworkRequirements {
            domains: Some(NetworkDomainPermissions {
                allowed_domains: Some(strings(&["api.example.com"])),
                denied_domains: Some(strings(&["evil.example.com"])),
            }),
        }),
    }
}

fn recorded_turn() -> TurnContextItem {
    TurnContextItem {
        cwd: s("/repo"),
        current_date: Some(s("2025-01-01")),
        timezone: Some(s("Europe/Paris")),
        network: Some(TurnContextNetworkItem {
            allowed_domains: strings(&["api.example.com"]),
            denied_domains: strings(&["evil.example.com"]),
        }),
        environments: Some(vec![
            TurnContextEnvironmentItem { environment_id: s("local"), cwd: s("/repo") },
            TurnContextEnvironmentItem { environment_id: s("remote"), cwd: s("/srv/app") },
        ]),
    }
}

#[test]
fn serialize_minimal_context() {
    let context = EnvironmentContext::new(
        Some(s("/repo")),
        bash(),
        Some(s("2025-01-02")),
        Some(s("America/Los_Angeles")),
        None,
        None,
    );
    assert_eq!(
        context.serialize_to_xml(),
        "<environment_context>\n  <cwd>/repo</cwd>\n  <shell>bash</shell>\n  <current_date>2025-01-02</current_date>\n  <timezone>America/Los_Angeles</timezone>\n</environment_context>"
    );
}

#[test]
fn serialize_shell_only() {
    let context = EnvironmentContext::new(None, zsh(), None, None, None, None);
    assert_eq!(
        context.serialize_to_xml(),
        "<environment_context>\n  <shell>zsh</shell>\n</environment_context>"
    );
}

#[test]
fn serialize_every_shell_name() {
    let kinds = [
        (ShellType::Zsh, "zsh"),
        (ShellType::Bash, "bash"),
        (ShellType::PowerShell, "powershell"),
        (ShellType::Sh, "sh"),
        (ShellType::Cmd, "cmd"),
    ];
    for (kind, name) in kinds {
        let shell = Shell { shell_type: kind, shell_path: s("/x") };
        assert_eq!(shell.name(), name);
        let xml = EnvironmentContext::new(None, shell, None, None, None, None).serialize_to_xml();
        assert_eq!(xml, format!("<environment_context>\n  <shell>{name}</shell>\n</environment_context>"));
    }
}

#[test]
fn serialize_environments_network_and_subagents() {
    let context = EnvironmentContext::new_with_environments(
        Some(s("/repo")),
        Some(vec![environment("local", "/repo", true), environment("remote", "/srv/app", false)]),
        bash(),
        None,
        None,
        Some(network(&["api.example.com", "cdn.example.com"], &["evil.example.com"])),
        Some(s("- planner: splits work\r\n- tester: runs tests\n")),
    );
    let expected = [
        "<environment_context>",
        "  <cwd>/repo</cwd>",
        "  <environments>",
        "    <environment id=\"local\" primary=\"true\">",
        "      <cwd>/repo</cwd>",
        "    </environment>",
        "    <environment id=\"remote\">",
        "      <cwd>/srv/app</cwd>",
        "    </environment>",
        "  </environments>",
        "  <shell>bash</shell>",
        "  <network enabled=\"true\">",
        "    <allowed>api.example.com</allowed>",
        "    <allowed>cdn.example.com</allowed>",
        "    <denied>evil.example.com</denied>",
        "  </network>",
        "  <subagents>",
        "    - planner: splits work",
        "    - tester: runs tests",
        "  </subagents>",
        "</environment_context>",
    ]
    .join("\n");
    assert_eq!(context.serialize_to_xml(), expected);
}

#[test]
fn serialize_empty_network_policy() {
    let context = EnvironmentContext::new(None, bash(), None, None, Some(NetworkContext::default()), None);
    assert_eq!(
        context.serialize_to_xml(),
        "<environment_context>\n  <shell>bash</shell>\n  <network enabled=\"true\">\n  </network>\n</environment_context>"
    );
}

#[test]
fn serialize_empty_environment_list() {
    let context =
        EnvironmentContext::new_with_environments(None, Some(Vec::new()), bash(), None, None, None, None);
    assert_eq!(
        context.serialize_to_xml(),
        "<environment_context>\n  <environments>\n  </environments>\n  <shell>bash</shell>\n</environment_context>"
    );
}

#[test]
fn serialize_subagent_lines_keep_a_lone_carriage_return() {
    let context = EnvironmentContext::new(None, bash(), None, None, None, None)
        .with_subagents(s("a\n\nb\r"));
    assert_eq!(
        context.serialize_to_xml(),
        "<environment_context>\n  <shell>bash</shell>\n  <subagents>\n    a\n    \n    b\r\n  </subagents>\n</environment_context>"
    );
}

#[test]
fn with_subagents_ignores_empty_listing() {
    let context = EnvironmentContext::new(Some(s("/repo")), bash(), None, None, None, None);
    let unchanged = context.clone().with_subagents(String::new());
    assert_eq!(unchanged, context);
    assert_eq!(unchanged.subagents, None);
}

#[test]
fn with_subagents_sets_listing() {
    let context = EnvironmentContext::new(Some(s("/repo")), bash(), None, None, None, Some(s("old")));
    let updated = context.with_subagents(s("new"));
    assert_eq!(updated.subagents, Some(s("new")));
    assert_eq!(updated.cwd, Some(s("/repo")));
}

#[test]
fn equals_except_shell_ignores_shell() {
    let a = EnvironmentContext::new(Some(s("/repo")), bash(), Some(s("d")), Some(s("tz")), None, None);
    let b = EnvironmentContext::new(Some(s("/repo")), zsh(), Some(s("d")), Some(s("tz")), None, None);
    assert!(a.equals_except_shell(&b));
    assert!(b.equals_except_shell(&a));
    assert_ne!(a, b);
}

#[test]
fn equals_except_shell_sees_each_other_field() {
    let base = || {
        EnvironmentContext::new_with_environments(
            Some(s("/repo")),
            Some(vec![environment("local", "/repo", true)]),
            bash(),
            Some(s("d")),
            Some(s("tz")),
            Some(network(&["a.com"], &[])),
            Some(s("sub")),
        )
    };
    let reference = base();
    assert!(reference.equals_except_shell(&base()));

    let mut other = base();
    other.cwd = Some(s("/elsewhere"));
    assert!(!reference.equals_except_shell(&other));

    let mut other = base();
    other.environments = Some(vec![environment("local", "/repo", false)]);
    assert!(!reference.equals_except_shell(&other));

    let mut other = base();
    other.environments = None;
    assert!(!reference.equals_except_shell(&other));

    let mut other = base();
    other.current_date = None;
    assert!(!reference.equals_except_shell(&other));

    let mut other = base();
    other.timezone = Some(s("other"));
    assert!(!reference.equals_except_shell(&other));

    let mut other = base();
    other.network = Some(network(&["a.com"], &["b.com"]));
    assert!(!reference.equals_except_shell(&other));

    let mut other = base();
    other.subagents = None;
    assert!(!reference.equals_except_shell(&other));
}

#[test]
fn equals_except_shell_is_transitive_on_examples() {
    let a = EnvironmentContext::new(Some(s("/r")), bash(), None, None, None, None);
    let b = EnvironmentContext::new(Some(s("/r")), zsh(), None, None, None, None);
    let c = EnvironmentContext::new(
        Some(s("/r")),
        Shell { shell_type: ShellType::Cmd, shell_path: s("cmd.exe") },
        None,
        None,
        None,
        None,
    );
    assert!(a.equals_except_shell(&a));
    assert!(a.equals_except_shell(&b) && b.equals_except_shell(&c));
    assert!(a.equals_except_shell(&c));
}

#[test]
fn xml_depends_on_shell_kind_only() {
    let a = EnvironmentContext::new(Some(s("/r")), bash(), Some(s("d")), None, None, None);
    let b = EnvironmentContext::new(
        Some(s("/r")),
        Shell { shell_type: ShellType::Bash, shell_path: s("/usr/local/bin/bash") },
        Some(s("d")),
        None,
        None,
        None,
    );
    assert!(a.equals_except_shell(&b));
    assert_eq!(a.serialize_to_xml(), b.serialize_to_xml());
}

#[test]
fn from_turn_context_lists_environments() {
    let context = EnvironmentContext::from_turn_context(&live_turn(), &bash());
    assert_eq!(context.cwd, Some(s("/repo")));
    assert_eq!(
        context.environments,
        Some(vec![environment("local", "/repo", true), environment("remote", "/srv/app", false)])
    );
    assert_eq!(context.current_date, Some(s("2025-01-02")));
    assert_eq!(context.timezone, Some(s("Europe/Paris")));
    assert_eq!(context.network, Some(network(&["api.example.com"], &["evil.example.com"])));
    assert_eq!(context.subagents, None);
    assert_eq!(context.shell, bash());
}

#[test]
fn from_turn_context_uses_default_environment_cwd() {
    let mut turn = live_turn();
    turn.cwd = s("/repo/sub");
    turn.default_environment_cwd = s("/repo");
    let context = EnvironmentContext::from_turn_context(&turn, &bash());
    assert_eq!(context.cwd, Some(s("/repo")));
}

#[test]
fn from_turn_context_without_multi_environment_tools() {
    let mut turn = live_turn();
    turn.multi_environment_tools = false;
    assert_eq!(EnvironmentContext::environments_from_turn_context(&turn), None);
    let context = EnvironmentContext::from_turn_context(&turn, &bash());
    assert_eq!(context.environments, None);
}

#[test]
fn from_turn_context_without_environments() {
    let mut turn = live_turn();
    turn.environments = Vec::new();
    assert_eq!(EnvironmentContext::environments_from_turn_context(&turn), None);
}

#[test]
fn environments_without_id_are_skipped_and_only_first_is_primary() {
    let mut turn = live_turn();
    turn.environments = vec![
        TurnEnvironment { environment_id: None, cwd: s("/a") },
        TurnEnvironment { environment_id: Some(s("b")), cwd: s("/b") },
        TurnEnvironment { environment_id: Some(s("c")), cwd: s("/c") },
    ];
    assert_eq!(
        EnvironmentContext::environments_from_turn_context(&turn),
        Some(vec![environment("b", "/b", false), environment("c", "/c", false)])
    );
    turn.environments = vec![TurnEnvironment { environment_id: None, cwd: s("/a") }];
    assert_eq!(EnvironmentContext::environments_from_turn_context(&turn), Some(Vec::new()));
}

#[test]
fn network_from_turn_context_defaults_missing_lists() {
    let mut turn = live_turn();
    turn.network = Some(NetworkRequirements { domains: None });
    let context = EnvironmentContext::from_turn_context(&turn, &bash());
    assert_eq!(context.network, Some(NetworkContext::default()));

    turn.network = Some(NetworkRequirements {
        domains: Some(NetworkDomainPermissions {
            allowed_domains: Some(strings(&["x.com"])),
            denied_domains: None,
        }),
    });
    let context = EnvironmentContext::from_turn_context(&turn, &bash());
    assert_eq!(context.network, Some(network(&["x.com"], &[])));

    turn.network = None;
    let context = EnvironmentContext::from_turn_context(&turn, &bash());
    assert_eq!(context.network, None);
}

#[test]
fn from_turn_context_item_marks_first_environment_primary() {
    let context = EnvironmentContext::from_turn_context_item(&recorded_turn(), &zsh());
    assert_eq!(context.cwd, Some(s("/repo")));
    assert_eq!(
        context.environments,
        Some(vec![environment("local", "/repo", true), environment("remote", "/srv/app", false)])
    );
    assert_eq!(context.current_date, Some(s("2025-01-01")));
    assert_eq!(context.network, Some(network(&["api.example.com"], &["evil.example.com"])));
    assert_eq!(context.subagents, None);
}

#[test]
fn from_turn_context_item_with_empty_environment_list() {
    let mut item = recorded_turn();
    item.environments = Some(Vec::new());
    assert_eq!(EnvironmentContext::from_turn_context_item(&item, &bash()).environments, None);
    item.environments = None;
    assert_eq!(EnvironmentContext::from_turn_context_item(&item, &bash()).environments, None);
    item.network = None;
    assert_eq!(EnvironmentContext::from_turn_context_item(&item, &bash()).network, None);
}

#[test]
fn diff_of_unchanged_turn_names_no_change() {
    let diff = EnvironmentContext::diff_from_turn_context_item(&recorded_turn(), &live_turn(), &bash());
    assert_eq!(diff.cwd, None);
    assert_eq!(diff.environments, None);
    assert_eq!(diff.current_date, Some(s("2025-01-02")));
    assert_eq!(diff.timezone, Some(s("Europe/Paris")));
    assert_eq!(diff.network, Some(network(&["api.example.com"], &["evil.example.com"])));
    assert_eq!(diff.subagents, None);
    assert_eq!(diff.shell, bash());
}

#[test]
fn diff_names_new_cwd_and_environments() {
    let mut turn = live_turn();
    turn.cwd = s("/other");
    turn.environments.pop();
    let diff = EnvironmentContext::diff_from_turn_context_item(&recorded_turn(), &turn, &bash());
    assert_eq!(diff.cwd, Some(s("/other")));
    assert_eq!(diff.environments, Some(vec![environment("local", "/repo", true)]));
}

#[test]
fn diff_environments_turned_off() {
    let mut turn = live_turn();
    turn.multi_environment_tools = false;
    let diff = EnvironmentContext::diff_from_turn_context_item(&recorded_turn(), &turn, &bash());
    assert_eq!(diff.environments, None);
    let mut item = recorded_turn();
    item.environments = None;
    let diff = EnvironmentContext::diff_from_turn_context_item(&item, &live_turn(), &bash());
    assert_eq!(
        diff.environments,
        Some(vec![environment("local", "/repo", true), environment("remote", "/srv/app", false)])
    );
}

#[test]
fn diff_takes_live_network() {
    let mut turn = live_turn();
    turn.network = None;
    let diff = EnvironmentContext::diff_from_turn_context_item(&recorded_turn(), &turn, &bash());
    assert_eq!(diff.network, None);
    let mut item = recorded_turn();
    item.network = None;
    let diff = EnvironmentContext::diff_from_turn_context_item(&item, &live_turn(), &bash());
    assert_eq!(diff.network, Some(network(&["api.example.com"], &["evil.example.com"])));
}

#[test]
fn record_of_same_turn_matches_live_context() {
    let mut item = recorded_turn();
    item.current_date = Some(s("2025-01-02"));
    let recorded = EnvironmentContext::from_turn_context_item(&item, &bash());
    let live = EnvironmentContext::from_turn_context(&live_turn(), &zsh());
    assert!(recorded.equals_except_shell(&live));
}

#[test]
fn equals_except_shell_compares_paths_by_parts() {
    let a = EnvironmentContext::new(Some(s("/repo")), bash(), None, None, None, None);
    let b = EnvironmentContext::new(Some(s("/repo/")), zsh(), None, None, None, None);
    let c = EnvironmentContext::new(Some(s("/repo/./")), bash(), None, None, None, None);
    let d = EnvironmentContext::new(Some(s("/repo//sub")), bash(), None, None, None, None);
    let e = EnvironmentContext::new(Some(s("/repo/sub")), bash(), None, None, None, None);
    let f = EnvironmentContext::new(Some(s("/other")), bash(), None, None, None, None);
    assert!(a.equals_except_shell(&b));
    assert!(b.equals_except_shell(&a));
    assert!(a.equals_except_shell(&c));
    assert!(d.equals_except_shell(&e));
    assert!(!a.equals_except_shell(&f));
    assert!(!a.equals_except_shell(&e));
}

#[test]
fn equals_except_shell_compares_environment_dirs_by_parts() {
    let a = EnvironmentContext::new_with_environments(
        None,
        Some(vec![environment("local", "/repo", true)]),
        bash(),
        None,
        None,
        None,
        None,
    );
    let b = EnvironmentContext::new_with_environments(
        None,
        Some(vec![environment("local", "/repo/", true)]),
        bash(),
        None,
        None,
        None,
        None,
    );
    assert!(a.equals_except_shell(&b));
}

#[test]
fn diff_treats_same_path_as_unchanged() {
    let mut turn = live_turn();
    turn.cwd = s("/repo/");
    turn.environments[0].cwd = s("/repo/");
    let diff = EnvironmentContext::diff_from_turn_context_item(&recorded_turn(), &turn, &bash());
    assert_eq!(diff.cwd, None);
    assert_eq!(diff.environments, None);
}

#[test]
fn clone_keeps_every_field() {
    let context = EnvironmentContext::new_with_environments(
        Some(s("/repo")),
        Some(vec![environment("local", "/repo", true)]),
        bash(),
        Some(s("d")),
        Some(s("tz")),
        Some(network(&["a.com"], &["b.com"])),
        Some(s("sub")),
    );
    assert_eq!(context.clone(), context);
}

#[test]
fn contexts_compare_paths_by_parts() {
    let a = EnvironmentContext::new_with_environments(
        Some(s("/repo")),
        Some(vec![environment("local", "/repo", true)]),
        bash(),
        None,
        None,
        None,
        None,
    );
    let b = EnvironmentContext::new_with_environments(
        Some(s("/repo/")),
        Some(vec![environment("local", "/repo/./", true)]),
        Shell { shell_type: ShellType::Bash, shell_path: s("/bin//bash") },
        None,
        None,
        None,
        None,
    );
    assert_eq!(a, b);
    assert_eq!(environment("x", "/a/b", false), environment("x", "/a//b/", false));
    assert_ne!(environment("x", "/a/b", false), environment("x", "/a/c", false));
    assert_ne!(bash(), Shell { shell_type: ShellType::Sh, shell_path: s("/bin/bash") });
    let c = EnvironmentContext::new(Some(s("/repo")), bash(), None, None, None, None);
    assert_ne!(a, c);
}

#[test]
fn equals_except_shell_is_transitive_across_spellings() {
    let a = EnvironmentContext::new(Some(s("/repo")), bash(), None, None, None, None);
    let b = EnvironmentContext::new(Some(s("/repo/")), zsh(), None, None, None, None);
    let c = EnvironmentContext::new(Some(s("/repo//.")), bash(), None, None, None, None);
    assert!(a.equals_except_shell(&b) && b.equals_except_shell(&c));
    assert!(a.equals_except_shell(&c));
}
