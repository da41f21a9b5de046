use ec2_cli::state::linked_instance_from;
use ec2_cli::{resolve_instance_name, Ec2CliError, State};

#[test]
fn test_state_operations() {
    let mut state = State::default();

    state.add_instance("test-instance", "i-123456", "default", "us-west-2");
    assert!(state.get_instance("test-instance").is_some());

    let removed = state.remove_instance("test-instance");
    assert!(removed.is_some());
    assert!(state.get_instance("test-instance").is_none());
}

#[test]
fn state_round_trip_keeps_record() {
    let mut state = State::default();
    state.add_instance_at("alpha", "i-1", "default", "us-west-2", "2024-05-01T12:00:00Z".to_string());
    let got = state.get_instance("alpha").unwrap();
    assert_eq!(got.instance_id, "i-1");
    assert_eq!(got.profile, "default");
    assert_eq!(got.region, "us-west-2");
    assert_eq!(got.created_at, "2024-05-01T12:00:00Z");

    let removed = state.remove_instance("alpha").unwrap();
    assert_eq!(removed.instance_id, "i-1");
    assert_eq!(removed.created_at, "2024-05-01T12:00:00Z");
    assert!(state.get_instance("alpha").is_none());
    assert!(state.remove_instance("alpha").is_none());
}

#[test]
fn add_instance_stamps_current_time() {
    let mut state = State::default();
    state.add_instance("alpha", "i-1", "default", "us-west-2");
    let got = state.get_instance("alpha").unwrap();
    assert_eq!(got.instance_id, "i-1");
    assert!(got.created_at.ends_with('Z'));
    assert!(got.created_at.contains('T'));
}

#[test]
fn listing_one_entry_and_missing_lookup() {
    let mut state = State::default();
    state.add_instance_at("alpha", "i-1", "default", "us-west-2", "2024-05-01T12:00:00Z".to_string());
    assert_eq!(state.instances.len(), 1);
    let (name, record) = state.instances.entry(0);
    assert_eq!(name, "alpha");
    assert_eq!(record.instance_id, "i-1");
    assert!(state.get_instance("beta").is_none());
}

#[test]
fn re_adding_a_name_replaces_its_record() {
    let mut state = State::default();
    state.add_instance_at("alpha", "i-1", "default", "us-west-2", "t1".to_string());
    state.add_instance_at("alpha", "i-2", "gpu", "eu-west-1", "t2".to_string());
    assert_eq!(state.instances.len(), 1);
    let got = state.get_instance("alpha").unwrap();
    assert_eq!(got.instance_id, "i-2");
    assert_eq!(got.profile, "gpu");
}

#[test]
fn explicit_name_wins_over_link() {
    let r = resolve_instance_name(Some("x"), Some("linked".to_string())).unwrap();
    assert_eq!(r, "x");
    let r = resolve_instance_name(Some("x"), None).unwrap();
    assert_eq!(r, "x");
}

#[test]
fn linked_name_used_when_none_given() {
    let r = resolve_instance_name(None, Some("linked".to_string())).unwrap();
    assert_eq!(r, "linked");
}

#[test]
fn no_name_and_no_link_is_not_found() {
    let r = resolve_instance_name(None, None);
    assert!(matches!(r, Err(Ec2CliError::InstanceNotFound(_))));
}

#[test]
fn link_marker_is_trimmed() {
    assert_eq!(linked_instance_from("  alpha\n"), Some("alpha".to_string()));
    assert_eq!(linked_instance_from("beta"), Some("beta".to_string()));
    assert_eq!(linked_instance_from(" \n\t"), None);
    assert_eq!(linked_instance_from(""), None);
}

#[test]
fn link_marker_trims_unicode_whitespace() {
    assert_eq!(linked_instance_from("\u{a0}\u{3000}gamma\u{2028}"), Some("gamma".to_string()));
}

#[test]
fn default_state_lists_nothing() {
    let state = State::default();
    assert_eq!(state.instances.len(), 0);
    assert!(state.instances.is_empty());
}
