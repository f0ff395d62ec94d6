use nexus::error::report::ResultExt;
use nexus::error::{
    AccessOp, DependencyCycleError, ErrorContext, ErrorKind, ErrorSeverity, HeartbeatTimeoutError,
    LockTimeoutError, NamespaceViolationError, NexusError, NexusResult,
};
use std::time::Duration;

#[test]
fn test_error_creation() {
    let err = NexusError::new(ErrorKind::InvalidInput, "test message");
    assert_eq!(err.kind(), ErrorKind::InvalidInput);
    assert_eq!(err.message(), "test message");
}

#[test]
fn test_error_chain() {
    let inner = NexusError::new(ErrorKind::Io, "file not found");
    let outer = NexusError::new(ErrorKind::Config, "failed to load").with_source(inner.clone());

    assert!(outer.has_kind(ErrorKind::Io));
    assert!(outer.has_kind(ErrorKind::Config));
    assert_eq!(outer.chain().len(), 2);
}

#[test]
fn test_error_kind_classification() {
    assert!(ErrorKind::Timeout.is_recoverable());
    assert!(ErrorKind::Timeout.is_transient());
    assert!(!ErrorKind::Timeout.is_fatal());

    assert!(!ErrorKind::Deadlock.is_recoverable());
    assert!(ErrorKind::Deadlock.is_fatal());

    assert_eq!(ErrorKind::InvalidInput.severity(), ErrorSeverity::Warning);
    assert_eq!(ErrorKind::InvariantViolation.severity(), ErrorSeverity::Critical);
}

#[test]
fn test_result_ext() {
    fn inner() -> Result<(), std::io::Error> {
        Err(std::io::Error::new(std::io::ErrorKind::NotFound, "missing"))
    }

    let result: NexusResult<()> = inner().context("during config load");
    assert!(result.is_err());
    let err = result.unwrap_err();
    assert!(err.has_kind(ErrorKind::Io));
}

#[test]
fn test_macros() {
    let err = NexusError::new(ErrorKind::InvalidInput, &format!("value {} is invalid", 42));
    assert_eq!(err.message(), "value 42 is invalid");

    fn test_bail() -> NexusResult<()> {
        return Err(NexusError::new(ErrorKind::NotFound, "resource missing"));
    }
    assert!(test_bail().is_err());

    fn test_ensure() -> NexusResult<()> {
        if !(false) {
            return Err(NexusError::new(ErrorKind::InvalidState, "should be true"));
        }
        Ok(())
    }
    assert!(test_ensure().is_err());
}

#[test]
fn test_lock_timeout_formats_as_key_value() {
    let err = LockTimeoutError::new("goal_states", Duration::from_millis(200)).with_holder_agent(4821);

    let formatted = err.to_display_string();

    assert!(
        formatted.contains("error=LockTimeout"),
        "Should contain 'error=LockTimeout', got: {}",
        formatted
    );
    assert!(
        formatted.contains("slot_id=goal_states"),
        "Should contain 'slot_id=goal_states', got: {}",
        formatted
    );
    assert!(
        formatted.contains("holder_agent_id=4821"),
        "Should contain 'holder_agent_id=4821', got: {}",
        formatted
    );
}

#[test]
fn test_ensure_macro_passes_when_condition_is_true() {
    fn test_func() -> NexusResult<()> {
        if !(2 + 2 == 4) {
            return Err(NexusError::new(ErrorKind::InvalidInput, "arithmetic broken"));
        }
        Ok(())
    }

    let result = test_func();
    assert!(result.is_ok(), "ensure!(true, ...) should pass, got {:?}", result);
}

#[test]
fn test_ensure_macro_fails_when_condition_is_false() {
    fn test_func() -> NexusResult<()> {
        if !(false) {
            return Err(NexusError::new(ErrorKind::InvalidInput, "should fail"));
        }
        Ok(())
    }

    let result = test_func();
    assert!(result.is_err(), "ensure!(false, ...) should return Err, got {:?}", result);
    let err = result.unwrap_err();
    assert_eq!(err.kind(), ErrorKind::InvalidInput);
}

#[test]
fn lock_timeout_text_is_exact() {
    let err = LockTimeoutError::new("goal_states", Duration::from_millis(200))
        .with_slot_id(7)
        .with_holder_agent(4821)
        .with_holder_thread(3);
    assert_eq!(
        err.to_display_string(),
        "error=LockTimeout slot_id=goal_states holder_agent_id=4821 holder_thread_id=3 timeout=200ms"
    );
    let none = LockTimeoutError::new("x", Duration::from_secs(1));
    assert_eq!(none.to_display_string(), "error=LockTimeout slot_id=x holder_agent_id=none timeout=1s");
    let e = err.into_nexus_error();
    assert_eq!(e.kind(), ErrorKind::Timeout);
    assert_eq!(
        e.message(),
        "error=LockTimeout slot_id=goal_states holder_agent_id=4821 holder_thread_id=3 timeout=200ms"
    );
    match e.get_context() {
        Some(ErrorContext::LockTimeout(c)) => {
            assert_eq!(c.slot_id, 7);
            assert_eq!(c.holder_agent_id, Some(4821));
        }
        _ => panic!("missing lock timeout context"),
    }
}

#[test]
fn namespace_violation_text_and_kind() {
    let err = NamespaceViolationError {
        goal_id: 9,
        slot_id: 3,
        agent_id: 12,
        operation: AccessOp::Write,
        expected_namespace: Some(4),
        actual_namespace: 5,
    };
    assert_eq!(
        err.to_display_string(),
        "namespace violation: agent 12 attempted write on slot 3 for goal 9 (expected namespace 4, was in namespace 5)"
    );
    let e = err.into_nexus_error();
    assert_eq!(e.kind(), ErrorKind::PermissionDenied);
}

#[test]
fn dependency_cycle_text_joins_path_with_arrows() {
    let err = DependencyCycleError { goal_id: 1, cycle_path: vec![1, 2, 3, 1] };
    assert_eq!(err.to_display_string(), "dependency cycle detected at goal 1: 1 -> 2 -> 3 -> 1");
    let empty = DependencyCycleError { goal_id: 5, cycle_path: vec![] };
    assert_eq!(empty.to_display_string(), "dependency cycle detected at goal 5: ");
    assert_eq!(err.into_nexus_error().kind(), ErrorKind::InvariantViolation);
}

#[test]
fn heartbeat_timeout_text() {
    let err = HeartbeatTimeoutError {
        last_heartbeat: 10,
        expected_interval_ms: 1000,
        elapsed_ms: 3500,
        stall_threshold_ms: 3000,
    };
    assert_eq!(
        err.to_display_string(),
        "heartbeat timeout: expected every 1000ms, but 3500ms elapsed (threshold 3000ms)"
    );
    assert_eq!(err.into_nexus_error().kind(), ErrorKind::HeartbeatMissed);
}

#[test]
fn result_ext_passes_success_and_adds_context() {
    let ok: NexusResult<u32> = Ok(3);
    assert_eq!(ok.context("never used").unwrap(), 3);
    let failed: NexusResult<u32> = Err(NexusError::new(ErrorKind::Config, "bad"));
    let err = failed.with_context(|| String::from("while loading")).unwrap_err();
    assert_eq!(err.kind(), ErrorKind::Config);
    assert_eq!(err.message(), "while loading");
    match err.get_context() {
        Some(ErrorContext::Message(m)) => assert_eq!(m, "while loading"),
        _ => panic!("missing message context"),
    }
    let chain = err.chain();
    assert_eq!(chain.len(), 2);
    assert_eq!(chain[1].message(), "bad");
    assert!(err.has_kind(ErrorKind::Config));

    let io: Result<(), std::io::Error> = Err(std::io::Error::new(std::io::ErrorKind::NotFound, "missing"));
    let err = io.context("during config load").unwrap_err();
    assert_eq!(err.message(), "during config load");
    assert!(err.chain().iter().any(|e| e.message() == "during config load"));
    assert_eq!(err.chain().len(), 3);
    assert!(err.has_kind(ErrorKind::Io));
}

#[test]
fn nexus_error_text_shows_kind_message_and_cause() {
    let inner = NexusError::new_no_backtrace(ErrorKind::Io, "file not found");
    let outer = NexusError::new_no_backtrace(ErrorKind::Config, "failed to load").with_source(inner);
    assert_eq!(
        outer.to_display_string(),
        "Configuration error: failed to load\n  caused by: I/O error: file not found"
    );
    let with_trace = NexusError::new(ErrorKind::Timeout, "slow");
    let text = with_trace.to_display_string();
    assert!(text.starts_with("Timeout: slow\n\nBacktrace:\n"));
}

#[test]
fn lock_timeout_text_with_given_duration_text() {
    let e = LockTimeoutError::new("goal_states", Duration::from_millis(200)).with_holder_agent(7);
    assert_eq!(e.text_with_duration("0.2s"), "error=LockTimeout slot_id=goal_states holder_agent_id=7 timeout=0.2s");
    assert_eq!(e.to_display_string(), e.text_with_duration("200ms"));
}

#[test]
fn clone_keeps_the_whole_chain_and_context() {
    let inner = NexusError::new_no_backtrace(ErrorKind::Io, "disk");
    let outer = NexusError::new_no_backtrace(ErrorKind::Config, "load")
        .with_context(ErrorContext::Message(String::from("note")))
        .with_source(inner);
    let copy = outer.clone();
    assert_eq!(copy.kind(), ErrorKind::Config);
    assert_eq!(copy.message(), "load");
    let chain = copy.chain();
    assert_eq!(chain.len(), 2);
    assert_eq!(chain[1].kind(), ErrorKind::Io);
    assert_eq!(chain[1].message(), "disk");
    match copy.get_context() {
        Some(ErrorContext::Message(m)) => assert_eq!(m, "note"),
        _ => panic!("context lost"),
    }
}
