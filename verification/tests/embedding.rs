use nodejs::args::NodeArgs;
use nodejs::callback::PendingCallback;
use nodejs::error::NodeError;
use nodejs::lifecycle::{interpret_run_result, interpret_stop_code, run_inner, ExecutionGuard};

#[test]
fn error_carries_message_and_code() {
    let e = NodeError::new("something broke".to_string(), 7);
    assert_eq!(e.message(), "something broke");
    assert_eq!(e.code(), 7);
}

#[test]
fn error_display_positive_code() {
    let e = NodeError::new("something broke".to_string(), 7);
    assert_eq!(e.display_string(), "something broke (code: 7)");
}

#[test]
fn error_display_negative_code() {
    let e = NodeError::new("stop failed".to_string(), -1);
    assert_eq!(e.display_string(), "stop failed (code: -1)");
}

#[test]
fn error_display_extreme_codes() {
    let e = NodeError::new("m".to_string(), i32::MIN);
    assert_eq!(e.display_string(), "m (code: -2147483648)");
    let e = NodeError::new("m".to_string(), i32::MAX);
    assert_eq!(e.display_string(), "m (code: 2147483647)");
    let e = NodeError::new("m".to_string(), 0);
    assert_eq!(e.display_string(), "m (code: 0)");
    let e = NodeError::new("m".to_string(), 100);
    assert_eq!(e.display_string(), "m (code: 100)");
}

#[test]
fn default_args_inject_process_arg() {
    let args = NodeArgs::new().get_args("/usr/bin/host".to_string());
    assert_eq!(args, vec!["/usr/bin/host".to_string()]);
}

#[test]
fn default_equals_new() {
    let a = NodeArgs::default().get_args("p".to_string());
    let b = NodeArgs::new().get_args("p".to_string());
    assert_eq!(a, b);
}

#[test]
fn full_argv_round_trips_unchanged() {
    let argv = vec![
        "/usr/bin/host".to_string(),
        "--flag".to_string(),
        "value".to_string(),
    ];
    let args = NodeArgs::new().args(argv.clone()).get_args("/usr/bin/host".to_string());
    assert_eq!(args, argv);
}

#[test]
fn caller_args_keep_their_order_after_insertion() {
    let argv = vec!["a".to_string(), "b".to_string(), "c".to_string()];
    let args = NodeArgs::new().args(argv).get_args("host".to_string());
    assert_eq!(
        args,
        vec![
            "host".to_string(),
            "a".to_string(),
            "b".to_string(),
            "c".to_string(),
        ]
    );
}

#[test]
fn insertion_can_be_disabled() {
    let args = NodeArgs::new()
        .args(vec!["only".to_string()])
        .insert_default_process_arg(false)
        .get_args("host".to_string());
    assert_eq!(args, vec!["only".to_string()]);

    let args = NodeArgs::new()
        .insert_default_process_arg(false)
        .get_args("host".to_string());
    assert!(args.is_empty());
}

#[test]
fn second_start_attempt_is_rejected() {
    let mut guard = ExecutionGuard::new();
    assert!(!guard.executed());

    let mut first_ran = false;
    let first = run_inner(&mut guard, || {
        first_ran = true;
        Ok(())
    });
    assert!(first.is_ok());
    assert!(first_ran);
    assert!(guard.executed());

    let mut second_ran = false;
    let second = run_inner(&mut guard, || {
        second_ran = true;
        Ok(())
    });
    assert!(!second_ran);
    let e = second.err().unwrap();
    assert_eq!(e.message(), "Node.js is already running");
    assert_eq!(e.code(), 1);
}

#[test]
fn second_start_attempt_rejected_after_failed_first() {
    let mut guard = ExecutionGuard::new();
    let first = run_inner(&mut guard, || {
        Err(NodeError::new("boom".to_string(), 3))
    });
    assert_eq!(first.err().unwrap().code(), 3);
    assert!(guard.executed());

    let mut second_ran = false;
    let second = run_inner(&mut guard, || {
        second_ran = true;
        Ok(())
    });
    assert!(!second_ran);
    let e = second.err().unwrap();
    assert_eq!(e.message(), "Node.js is already running");
    assert_eq!(e.code(), 1);
}

#[test]
fn foreign_error_report_is_preserved_verbatim() {
    let r = interpret_run_result(Some("Error: kaboom".to_string()), 1);
    let e = r.err().unwrap();
    assert_eq!(e.message(), "Error: kaboom");
    assert_eq!(e.code(), 1);
}

#[test]
fn exit_code_forty_two_surfaces_as_error() {
    let r = interpret_run_result(None, 42);
    let e = r.err().unwrap();
    assert_eq!(e.message(), "Node.js exited with a non-zero exit code");
    assert_eq!(e.code(), 42);
}

#[test]
fn clean_exit_is_success() {
    assert!(interpret_run_result(None, 0).is_ok());
}

#[test]
fn stop_code_zero_is_success() {
    assert!(interpret_stop_code(0).is_ok());
}

#[test]
fn stop_without_running_instance_fails_with_minus_one() {
    let e = interpret_stop_code(-1).err().unwrap();
    assert_eq!(e.message(), "Node.js failed to stop: Node.js is not running");
    assert_eq!(e.code(), -1);
}

#[test]
fn other_stop_codes_fail_generically() {
    let e = interpret_stop_code(5).err().unwrap();
    assert_eq!(e.message(), "Node.js failed to stop");
    assert_eq!(e.code(), 5);
}

#[test]
fn pending_callback_is_taken_at_most_once() {
    let mut hits = 0;
    let mut slot = PendingCallback::new(|| {
        hits += 1;
    });

    let first = slot.take();
    assert!(first.is_some());
    first.unwrap()();

    let second = slot.take();
    assert!(second.is_none());
    assert_eq!(hits, 1);
}
