use sellafield::error::PipelineError;
use sellafield::paths::RawPath;
use sellafield::policy::{PlacementPolicy, Setting};
use sellafield::request::{CrashRequest, Identity};
use sellafield::script::{
    evaluate, policy_outcome, run_script, script_bindings, settle, Binding, Primitive,
};

fn crash() -> CrashRequest {
    CrashRequest {
        uid: 1000,
        pid: 4242,
        crash_time: 1_700_000_000,
        exe_encoded: "!usr!bin!crashed".to_string(),
        core_limit: 50,
        config_script_path: "/etc/sellafield.rhai".to_string(),
    }
}

fn alice() -> Identity {
    Identity { username: "alice".to_string(), home: RawPath { bytes: b"/home/alice".to_vec() } }
}

fn decide(script: &str) -> Result<PlacementPolicy, PipelineError> {
    run_script(&crash(), "/usr/bin/crashed", "crashed", &alice(), script)
}

fn policy(path: &str, permissions: u64) -> PlacementPolicy {
    PlacementPolicy { output_path: path.to_string(), permissions }
}

fn text(name: &str, value: &str) -> Binding {
    Binding { name: name.to_string(), primitive: Primitive::Text { text: value.to_string() } }
}

fn number(name: &str, value: u32) -> Binding {
    Binding { name: name.to_string(), primitive: Primitive::Number { number: value } }
}

#[test]
fn bindings_are_the_seven_accessors_and_the_two_setters() {
    let bindings = script_bindings(&crash(), "/usr/bin/crashed", "crashed", &alice());
    assert_eq!(
        bindings,
        vec![
            text("home", "/home/alice"),
            text("username", "alice"),
            number("uid", 1000),
            number("pid", 4242),
            number("time", 1_700_000_000),
            text("full_exe", "/usr/bin/crashed"),
            text("exe", "crashed"),
            Binding { name: "set_output_path".to_string(), primitive: Primitive::SetOutputPath },
            Binding { name: "set_permissions".to_string(), primitive: Primitive::SetPermissions },
        ]
    );
}

#[test]
fn home_binding_reads_one_character_per_byte() {
    let identity =
        Identity { username: "bob".to_string(), home: RawPath { bytes: vec![0x2F, 0xE9] } };
    let bindings = script_bindings(&crash(), "/bin/x", "x", &identity);
    assert_eq!(bindings[0], text("home", "/\u{e9}"));
    // Bytes that would be one character in UTF-8 are two here.
    let identity =
        Identity { username: "bob".to_string(), home: RawPath { bytes: vec![0x2F, 0xC3, 0xA9] } };
    let bindings = script_bindings(&crash(), "/bin/x", "x", &identity);
    assert_eq!(bindings[0], text("home", "/\u{c3}\u{a9}"));
}

#[test]
fn script_sees_a_latin1_home_directory() {
    let identity = Identity {
        username: "caf\u{e9}".to_string(),
        home: RawPath { bytes: b"/home/caf\xE9".to_vec() },
    };
    let decided = run_script(
        &crash(),
        "/usr/bin/crashed",
        "crashed",
        &identity,
        "set_output_path(home() + \"/core\");",
    );
    assert_eq!(decided, Ok(policy("/home/caf\u{e9}/core", 0o400)));
}

#[test]
fn script_sets_path_and_permissions() {
    let decided = decide("set_output_path(\"/x/y/out\"); set_permissions(0o600);");
    assert_eq!(decided, Ok(policy("/x/y/out", 0o600)));
}

#[test]
fn script_that_sets_only_the_path_keeps_the_default_permissions() {
    assert_eq!(decide("set_output_path(\"/var/cores/core\");"), Ok(policy("/var/cores/core", 0o400)));
}

#[test]
fn script_that_sets_nothing_discards_the_dump() {
    assert_eq!(decide(""), Ok(policy("", 0o400)));
    assert_eq!(decide("let x = 1 + 1;"), Ok(policy("", 0o400)));
}

#[test]
fn script_that_sets_only_permissions_still_discards_the_dump() {
    assert_eq!(decide("set_permissions(0o644);"), Ok(policy("", 0o644)));
}

#[test]
fn last_setting_wins() {
    let decided = decide(
        "set_output_path(\"/first\"); set_permissions(0o600); set_output_path(\"/second\"); set_permissions(0o640);",
    );
    assert_eq!(decided, Ok(policy("/second", 0o640)));
}

#[test]
fn text_accessors_give_what_was_bound() {
    assert_eq!(decide("set_output_path(home());"), Ok(policy("/home/alice", 0o400)));
    assert_eq!(decide("set_output_path(username());"), Ok(policy("alice", 0o400)));
    assert_eq!(decide("set_output_path(full_exe());"), Ok(policy("/usr/bin/crashed", 0o400)));
    assert_eq!(decide("set_output_path(exe());"), Ok(policy("crashed", 0o400)));
}

#[test]
fn text_accessors_combine() {
    let decided = decide("set_output_path(home() + \"/cores/core.\" + username() + \".\" + exe());");
    assert_eq!(decided, Ok(policy("/home/alice/cores/core.alice.crashed", 0o400)));
}

#[test]
fn number_accessors_give_what_was_bound() {
    let decided = decide("set_output_path(`${uid()}-${pid()}-${time()}`);");
    assert_eq!(decided, Ok(policy("1000-4242-1700000000", 0o400)));
}

#[test]
fn script_may_decide_by_the_crash() {
    let script = "if username() == \"alice\" { set_output_path(\"/a\"); } else { set_output_path(\"/b\"); }";
    assert_eq!(decide(script), Ok(policy("/a", 0o400)));
}

#[test]
fn what_a_script_returns_is_ignored() {
    assert_eq!(decide("set_output_path(\"/a\"); 42"), Ok(policy("/a", 0o400)));
    assert_eq!(decide("\"just a value\""), Ok(policy("", 0o400)));
}

#[test]
fn negative_permissions_come_through_as_large_numbers() {
    assert_eq!(decide("set_output_path(\"/a\"); set_permissions(-1);"), Ok(policy("/a", u64::MAX)));
}

#[test]
fn script_that_throws_yields_a_policy_script_error() {
    match decide("throw \"boom\";") {
        Err(PipelineError::PolicyScript { detail }) => assert!(detail.contains("boom"), "{}", detail),
        other => panic!("{:?}", other),
    }
}

#[test]
fn script_that_throws_after_setting_yields_no_policy() {
    let decided = decide("set_output_path(\"/x/y/out\"); set_permissions(0o600); throw \"late\";");
    assert!(matches!(decided, Err(PipelineError::PolicyScript { .. })), "{:?}", decided);
}

#[test]
fn script_that_does_not_parse_yields_a_policy_script_error() {
    let decided = decide("set_output_path(\"/x\"");
    assert!(matches!(decided, Err(PipelineError::PolicyScript { .. })), "{:?}", decided);
    let decided = decide("let = ;");
    assert!(matches!(decided, Err(PipelineError::PolicyScript { .. })), "{:?}", decided);
}

#[test]
fn script_that_calls_an_unknown_function_fails() {
    let decided = decide("open_file(\"/etc/passwd\");");
    assert!(matches!(decided, Err(PipelineError::PolicyScript { .. })), "{:?}", decided);
    let decided = decide("set_output_path(42);");
    assert!(matches!(decided, Err(PipelineError::PolicyScript { .. })), "{:?}", decided);
    let decided = decide("set_permissions(\"rw\");");
    assert!(matches!(decided, Err(PipelineError::PolicyScript { .. })), "{:?}", decided);
}

#[test]
fn script_cannot_import_modules() {
    let decided = decide("import \"helpers\" as helpers; set_output_path(\"/x\");");
    assert!(matches!(decided, Err(PipelineError::PolicyScript { .. })), "{:?}", decided);
}

#[test]
fn each_run_starts_from_the_initial_policy() {
    assert_eq!(decide("set_output_path(\"/once\"); set_permissions(0o600);"), Ok(policy("/once", 0o600)));
    assert_eq!(decide(""), Ok(policy("", 0o400)));
}

#[test]
fn evaluate_knows_only_what_it_is_given() {
    let bindings = vec![
        text("greeting", "hello"),
        Binding { name: "put".to_string(), primitive: Primitive::SetOutputPath },
    ];
    assert_eq!(evaluate(&bindings, "put(greeting());"), Ok(policy("hello", 0o400)));
    let decided = evaluate(&bindings, "set_output_path(greeting());");
    assert!(matches!(decided, Err(PipelineError::PolicyScript { .. })), "{:?}", decided);
    let decided = evaluate(&Vec::new(), "home()");
    assert!(matches!(decided, Err(PipelineError::PolicyScript { .. })), "{:?}", decided);
}

#[test]
fn policy_outcome_of_a_good_run_is_what_was_accumulated() {
    assert_eq!(policy_outcome(Ok(()), policy("/x", 0o600)), Ok(policy("/x", 0o600)));
}

#[test]
fn policy_outcome_of_a_failed_run_is_the_error() {
    assert_eq!(
        policy_outcome(Err("boom".to_string()), policy("/x", 0o600)),
        Err(PipelineError::PolicyScript { detail: "boom".to_string() })
    );
}

#[test]
fn settle_of_a_good_run_applies_the_settings_in_order() {
    let settings = vec![
        Setting::OutputPath { path: "/a".to_string() },
        Setting::Permissions { mode: 0o644 },
        Setting::OutputPath { path: "/b".to_string() },
        Setting::Permissions { mode: 0o600 },
    ];
    assert_eq!(settle(Ok(()), settings), Ok(policy("/b", 0o600)));
    assert_eq!(
        settle(Ok(()), vec![Setting::OutputPath { path: "/x/y/out".to_string() }]),
        Ok(policy("/x/y/out", 0o400))
    );
    assert_eq!(settle(Ok(()), vec![]), Ok(policy("", 0o400)));
}

#[test]
fn settle_of_a_failed_run_yields_no_policy() {
    let settings = vec![Setting::OutputPath { path: "/x/y/out".to_string() }];
    assert_eq!(
        settle(Err("boom".to_string()), settings),
        Err(PipelineError::PolicyScript { detail: "boom".to_string() })
    );
}
