use kube_switch::kubeconfig::{Context, Kubeconfig, NamedContext};

fn entry(name: &str, namespace: Option<&str>) -> NamedContext {
    NamedContext {
        name: name.to_string(),
        context: Context { namespace: namespace.map(|n| n.to_string()) },
    }
}

fn document(pointer: Option<&str>, entries: Vec<NamedContext>) -> Kubeconfig {
    Kubeconfig { contexts: entries, current_context: pointer.map(|p| p.to_string()) }
}

#[test]
fn current_context_name_is_the_pointer() {
    let config = document(Some("dev"), vec![entry("dev", None)]);
    assert_eq!(config.current_context_name(), "dev");
}

#[test]
fn current_context_name_is_empty_without_pointer() {
    let config = document(None, vec![entry("dev", None)]);
    assert_eq!(config.current_context_name(), "");
}

#[test]
fn current_context_name_may_name_no_context() {
    let config = document(Some("gone"), vec![entry("dev", None)]);
    assert_eq!(config.current_context_name(), "gone");
}

#[test]
fn context_names_keep_file_order() {
    let config = document(
        Some("b"),
        vec![entry("c", None), entry("a", Some("x")), entry("b", None)],
    );
    assert_eq!(config.context_names(), vec!["c".to_string(), "a".to_string(), "b".to_string()]);
}

#[test]
fn context_names_of_empty_document() {
    let config = document(None, vec![]);
    assert_eq!(config.context_names(), Vec::<String>::new());
}

#[test]
fn current_entry_finds_the_named_context() {
    let config = document(Some("prod"), vec![entry("dev", None), entry("prod", None)]);
    assert_eq!(config.current_entry(), Some(1));
}

#[test]
fn current_entry_is_the_first_of_equal_names() {
    let config = document(
        Some("dev"),
        vec![entry("prod", None), entry("dev", Some("one")), entry("dev", Some("two"))],
    );
    assert_eq!(config.current_entry(), Some(1));
    assert_eq!(config.current_namespace(), "one");
}

#[test]
fn current_entry_is_none_for_unknown_pointer() {
    let config = document(Some("gone"), vec![entry("dev", None), entry("prod", None)]);
    assert_eq!(config.current_entry(), None);
}

#[test]
fn current_entry_is_none_without_pointer() {
    let config = document(None, vec![entry("dev", None)]);
    assert_eq!(config.current_entry(), None);
}

#[test]
fn current_entry_without_pointer_matches_the_empty_name() {
    let config = document(None, vec![entry("dev", None), entry("", Some("hidden"))]);
    assert_eq!(config.current_entry(), Some(1));
    assert_eq!(config.current_namespace(), "hidden");
}

#[test]
fn current_entry_of_empty_document() {
    assert_eq!(document(Some("dev"), vec![]).current_entry(), None);
    assert_eq!(document(None, vec![]).current_entry(), None);
}

#[test]
fn current_namespace_is_the_one_set() {
    let config = document(Some("dev"), vec![entry("dev", Some("team-a")), entry("prod", None)]);
    assert_eq!(config.current_namespace(), "team-a");
}

#[test]
fn current_namespace_defaults_when_unset() {
    let config = document(Some("prod"), vec![entry("dev", Some("team-a")), entry("prod", None)]);
    assert_eq!(config.current_namespace(), "default");
}

#[test]
fn set_current_context_replaces_the_pointer_only() {
    let mut config = document(Some("dev"), vec![entry("dev", Some("team-a")), entry("prod", None)]);
    config.set_current_context("prod".to_string());
    assert_eq!(
        config,
        document(Some("prod"), vec![entry("dev", Some("team-a")), entry("prod", None)])
    );
}

#[test]
fn set_current_context_sets_a_missing_pointer() {
    let mut config = document(None, vec![entry("dev", None)]);
    config.set_current_context("dev".to_string());
    assert_eq!(config, document(Some("dev"), vec![entry("dev", None)]));
}

#[test]
fn set_namespace_touches_the_active_context_only() {
    let mut config = document(
        Some("dev"),
        vec![entry("stage", Some("s")), entry("dev", Some("team-a")), entry("prod", None)],
    );
    config.set_namespace("team-b");
    assert_eq!(
        config,
        document(
            Some("dev"),
            vec![entry("stage", Some("s")), entry("dev", Some("team-b")), entry("prod", None)],
        )
    );
}

#[test]
fn set_namespace_fills_an_unset_namespace() {
    let mut config = document(Some("prod"), vec![entry("dev", Some("team-a")), entry("prod", None)]);
    config.set_namespace("ops");
    assert_eq!(
        config,
        document(Some("prod"), vec![entry("dev", Some("team-a")), entry("prod", Some("ops"))])
    );
}

#[test]
fn set_namespace_reaches_every_context_of_the_active_name() {
    let mut config = document(
        Some("dev"),
        vec![entry("dev", Some("one")), entry("prod", None), entry("dev", None)],
    );
    config.set_namespace("both");
    assert_eq!(
        config,
        document(
            Some("dev"),
            vec![entry("dev", Some("both")), entry("prod", None), entry("dev", Some("both"))],
        )
    );
}

#[test]
fn set_namespace_without_matching_context_changes_nothing() {
    let mut config = document(Some("gone"), vec![entry("dev", Some("team-a")), entry("prod", None)]);
    config.set_namespace("ops");
    assert_eq!(
        config,
        document(Some("gone"), vec![entry("dev", Some("team-a")), entry("prod", None)])
    );
}
