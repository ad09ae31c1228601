use sellafield::error::{PipelineError, WriteStage};
use sellafield::report::{log_contents, log_file_name, timestamp, MILLIS_LIMIT};

#[test]
fn usage_message_is_the_output() {
    let error = PipelineError::Usage { output: "Required options not provided:\n    --uid".to_string() };
    assert_eq!(error.message(), "Required options not provided:\n    --uid");
}

#[test]
fn identity_lookup_message_names_the_user_and_the_cause() {
    let error = PipelineError::IdentityLookup { uid: 4321, detail: "Success".to_string() };
    assert_eq!(error.message(), "Error getting username for user ID 4321: Success");
}

#[test]
fn privilege_drop_message_names_the_user_and_the_cause() {
    let error =
        PipelineError::PrivilegeDrop { uid: 0, detail: "Operation not permitted".to_string() };
    assert_eq!(error.message(), "Error switching to user ID 0: Operation not permitted");
    let error = PipelineError::PrivilegeDrop { uid: u32::MAX, detail: String::new() };
    assert_eq!(error.message(), "Error switching to user ID 4294967295: ");
}

#[test]
fn policy_script_message_wraps_the_cause() {
    let error = PipelineError::PolicyScript { detail: "Runtime error: boom (line 1, position 1)".to_string() };
    assert_eq!(
        error.message(),
        "Sellafield config script execution error: Runtime error: boom (line 1, position 1)"
    );
}

#[test]
fn invalid_permissions_message_cites_the_value() {
    let error = PipelineError::InvalidPermissions { value: 65536 };
    assert_eq!(
        error.message(),
        "Sellafield config script returned invalid permissions mode: 65536. out of range integral type conversion attempted"
    );
    let error = PipelineError::InvalidPermissions { value: u64::MAX };
    assert_eq!(
        error.message(),
        "Sellafield config script returned invalid permissions mode: 18446744073709551615. out of range integral type conversion attempted"
    );
}

#[test]
fn write_message_names_the_step() {
    let message = |stage: WriteStage| {
        PipelineError::Write { stage, detail: "Permission denied".to_string() }.message()
    };
    assert_eq!(message(WriteStage::Mask), "error setting file creation mask: Permission denied");
    assert_eq!(
        message(WriteStage::Directories),
        "error creating core dump directories: Permission denied"
    );
    assert_eq!(message(WriteStage::Open), "error opening core dump file: Permission denied");
    assert_eq!(
        message(WriteStage::Permissions),
        "error setting core dump permissions: Permission denied"
    );
    assert_eq!(message(WriteStage::Copy), "error writing core dump: Permission denied");
}

#[test]
fn stage_context_by_stage() {
    assert_eq!(WriteStage::Permissions.context(), "error setting core dump permissions");
    assert_eq!(WriteStage::Copy.context(), "error writing core dump");
}

#[test]
fn out_of_turn_message() {
    assert_eq!(
        PipelineError::OutOfTurn.message(),
        "Sellafield was told of a step it had not asked for"
    );
}

#[test]
fn error_duplicate_is_equal() {
    let errors = vec![
        PipelineError::Usage { output: "u".to_string() },
        PipelineError::IdentityLookup { uid: 1, detail: "a".to_string() },
        PipelineError::PrivilegeDrop { uid: 2, detail: "b".to_string() },
        PipelineError::PolicyScript { detail: "c".to_string() },
        PipelineError::InvalidPermissions { value: 3 },
        PipelineError::Write { stage: WriteStage::Open, detail: "d".to_string() },
        PipelineError::OutOfTurn,
    ];
    for error in errors.iter() {
        assert_eq!(&error.duplicate(), error);
    }
}

#[test]
fn log_file_is_named_by_the_time() {
    assert_eq!(log_file_name(0), "/tmp/sellafield_0.log");
    assert_eq!(log_file_name(1_700_000_000_123), "/tmp/sellafield_1700000000123.log");
    assert_eq!(
        log_file_name(u128::MAX),
        "/tmp/sellafield_340282366920938463463374607431768211455.log"
    );
}

#[test]
fn log_holds_the_message_on_one_line() {
    let error = PipelineError::IdentityLookup { uid: 4321, detail: "Success".to_string() };
    assert_eq!(log_contents(&error), "Error getting username for user ID 4321: Success\n");
}

#[test]
fn timestamp_is_after_the_year_2020_and_does_not_go_back_far() {
    let first = timestamp().unwrap();
    let second = timestamp().unwrap();
    assert!(first > 1_577_836_800_000, "{}", first);
    assert!(second + 60_000 > first, "{} {}", first, second);
}

#[test]
fn timestamp_names_the_log_file() {
    let millis = timestamp().unwrap();
    assert_eq!(log_file_name(millis), format!("/tmp/sellafield_{}.log", millis));
}

#[test]
fn timestamp_is_within_what_a_duration_holds() {
    assert_eq!(MILLIS_LIMIT, (u64::MAX as u128) * 1000 + 999);
    assert_eq!(
        MILLIS_LIMIT,
        std::time::Duration::new(u64::MAX, 999_999_999).as_millis()
    );
    assert_eq!(MILLIS_LIMIT, std::time::Duration::MAX.as_millis());
    assert!(timestamp().unwrap() <= MILLIS_LIMIT);
}
