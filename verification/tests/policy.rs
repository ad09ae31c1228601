use sellafield::policy::{
    accumulate, duplicate_settings, PlacementPolicy, PolicyCell, Setting, DEFAULT_PERMISSIONS,
};

#[test]
fn initial_policy_discards_the_dump_and_is_owner_read_only() {
    let policy = PlacementPolicy::initial();
    assert_eq!(policy.output_path, "");
    assert_eq!(policy.permissions, 0o400);
    assert_eq!(DEFAULT_PERMISSIONS, 0o400);
}

#[test]
fn with_output_path_keeps_the_permissions() {
    let policy = PlacementPolicy { output_path: "/a".to_string(), permissions: 0o644 };
    let policy = policy.with_output_path("/b/c".to_string());
    assert_eq!(policy, PlacementPolicy { output_path: "/b/c".to_string(), permissions: 0o644 });
}

#[test]
fn with_permissions_keeps_the_path() {
    let policy = PlacementPolicy { output_path: "/a".to_string(), permissions: 0o644 };
    let policy = policy.with_permissions(0o600);
    assert_eq!(policy, PlacementPolicy { output_path: "/a".to_string(), permissions: 0o600 });
}

#[test]
fn negative_permissions_are_read_as_unsigned() {
    let policy = PlacementPolicy::initial().with_permissions(-1);
    assert_eq!(policy.permissions, u64::MAX);
    let policy = PlacementPolicy::initial().with_permissions(i64::MIN);
    assert_eq!(policy.permissions, 1u64 << 63);
    let policy = PlacementPolicy::initial().with_permissions(i64::MAX);
    assert_eq!(policy.permissions, i64::MAX as u64);
    let policy = PlacementPolicy::initial().with_permissions(0);
    assert_eq!(policy.permissions, 0);
}

#[test]
fn duplicate_is_equal() {
    let policy = PlacementPolicy { output_path: "/var/cores/x".to_string(), permissions: 0o640 };
    assert_eq!(policy.duplicate(), policy);
}

fn path(path: &str) -> Setting {
    Setting::OutputPath { path: path.to_string() }
}

fn mode(mode: i64) -> Setting {
    Setting::Permissions { mode }
}

#[test]
fn with_setting_applies_one_setting() {
    let policy = PlacementPolicy { output_path: "/a".to_string(), permissions: 0o644 };
    assert_eq!(
        policy.duplicate().with_setting(&path("/b")),
        PlacementPolicy { output_path: "/b".to_string(), permissions: 0o644 }
    );
    assert_eq!(
        policy.with_setting(&mode(0o600)),
        PlacementPolicy { output_path: "/a".to_string(), permissions: 0o600 }
    );
}

#[test]
fn no_settings_give_the_initial_policy() {
    assert_eq!(accumulate(&vec![]), PlacementPolicy::initial());
    assert_eq!(accumulate(&vec![]), PlacementPolicy { output_path: String::new(), permissions: 0o400 });
}

#[test]
fn path_alone_keeps_the_default_permissions() {
    assert_eq!(
        accumulate(&vec![path("/x/y/out")]),
        PlacementPolicy { output_path: "/x/y/out".to_string(), permissions: 0o400 }
    );
}

#[test]
fn permissions_alone_keep_the_empty_path() {
    assert_eq!(
        accumulate(&vec![mode(0o644)]),
        PlacementPolicy { output_path: String::new(), permissions: 0o644 }
    );
}

#[test]
fn path_and_permissions_give_both() {
    let expected = PlacementPolicy { output_path: "/x/y/out".to_string(), permissions: 0o600 };
    assert_eq!(accumulate(&vec![path("/x/y/out"), mode(0o600)]), expected);
    assert_eq!(accumulate(&vec![mode(0o600), path("/x/y/out")]), expected);
}

#[test]
fn last_of_repeated_settings_counts() {
    assert_eq!(
        accumulate(&vec![path("/a"), mode(0o644), path("/b"), mode(0o600)]),
        PlacementPolicy { output_path: "/b".to_string(), permissions: 0o600 }
    );
    assert_eq!(
        accumulate(&vec![path("/a"), path("/b"), path("")]),
        PlacementPolicy { output_path: String::new(), permissions: 0o400 }
    );
}

#[test]
fn negative_mode_accumulates_as_unsigned() {
    assert_eq!(
        accumulate(&vec![path("/a"), mode(-1)]),
        PlacementPolicy { output_path: "/a".to_string(), permissions: u64::MAX }
    );
}

#[test]
fn duplicate_settings_are_equal() {
    let settings = vec![path("/a"), mode(0o644), path("/b")];
    assert_eq!(duplicate_settings(&settings), settings);
    assert_eq!(duplicate_settings(&vec![]), vec![]);
    assert_eq!(path("/a").duplicate(), path("/a"));
    assert_eq!(mode(7).duplicate(), mode(7));
}

#[test]
fn fresh_cell_holds_no_setting() {
    let cell = PolicyCell::new();
    assert_eq!(cell.snapshot(), vec![]);
    assert_eq!(accumulate(&cell.snapshot()), PlacementPolicy::initial());
}

#[test]
fn cell_records_what_is_set_in_order() {
    let cell = PolicyCell::new();
    cell.set_output_path("/x/y/out".to_string());
    assert_eq!(cell.snapshot(), vec![path("/x/y/out")]);
    cell.set_permissions(0o600);
    assert_eq!(cell.snapshot(), vec![path("/x/y/out"), mode(0o600)]);
    cell.set_output_path("/elsewhere".to_string());
    cell.record(mode(-1));
    assert_eq!(
        cell.snapshot(),
        vec![path("/x/y/out"), mode(0o600), path("/elsewhere"), mode(-1)]
    );
    // Reading does not change what is held.
    assert_eq!(cell.snapshot(), cell.snapshot());
    assert_eq!(
        accumulate(&cell.snapshot()),
        PlacementPolicy { output_path: "/elsewhere".to_string(), permissions: u64::MAX }
    );
}

#[test]
fn shared_handles_record_into_one_list() {
    let cell = PolicyCell::new();
    let paths = cell.share();
    let modes = cell.share();
    paths.set_output_path("/shared".to_string());
    modes.set_permissions(0o444);
    paths.set_output_path("/shared/again".to_string());
    assert_eq!(cell.snapshot(), vec![path("/shared"), mode(0o444), path("/shared/again")]);
    assert_eq!(paths.snapshot(), modes.snapshot());
}

#[test]
fn separate_cells_do_not_share() {
    let one = PolicyCell::new();
    let other = PolicyCell::new();
    one.set_output_path("/one".to_string());
    assert_eq!(other.snapshot(), vec![]);
}
