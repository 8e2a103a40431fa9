use render_harness::diagnostics::{classify_error, ErrorQueue, GlDiagnostic};

#[test]
fn classify_each_known_code() {
    assert_eq!(classify_error(0x0500), GlDiagnostic::InvalidEnum);
    assert_eq!(classify_error(0x0501), GlDiagnostic::InvalidValue);
    assert_eq!(classify_error(0x0502), GlDiagnostic::InvalidOperation);
    assert_eq!(classify_error(0x0503), GlDiagnostic::StackOverflow);
    assert_eq!(classify_error(0x0504), GlDiagnostic::StackUnderflow);
    assert_eq!(classify_error(0x0505), GlDiagnostic::OutOfMemory);
    assert_eq!(classify_error(0x0506), GlDiagnostic::InvalidFramebufferOperation);
}

#[test]
fn labels_match_the_categories() {
    assert_eq!(classify_error(0x0500).label(), "invalid-enum");
    assert_eq!(classify_error(0x0501).label(), "invalid-value");
    assert_eq!(classify_error(0x0502).label(), "invalid-operation");
    assert_eq!(classify_error(0x0503).label(), "stack-overflow");
    assert_eq!(classify_error(0x0504).label(), "stack-underflow");
    assert_eq!(classify_error(0x0505).label(), "out-of-memory");
    assert_eq!(
        classify_error(0x0506).label(),
        "invalid-framebuffer-operation"
    );
    assert_eq!(classify_error(0x0600).label(), "unknown");
}

#[test]
fn classify_unknown_code() {
    assert_eq!(classify_error(0), GlDiagnostic::Unknown);
    assert_eq!(classify_error(0x0507), GlDiagnostic::Unknown);
    assert_eq!(classify_error(u32::MAX), GlDiagnostic::Unknown);
}

#[test]
fn drain_reports_all_pending_codes_in_order() {
    let mut queue = ErrorQueue::new();
    assert!(queue.is_empty());
    queue.record(0x0502);
    queue.record(0x0505);
    queue.record(0x9999);
    assert!(!queue.is_empty());
    let diags = queue.drain();
    assert_eq!(
        diags,
        vec![
            GlDiagnostic::InvalidOperation,
            GlDiagnostic::OutOfMemory,
            GlDiagnostic::Unknown
        ]
    );
}

#[test]
fn drain_is_idempotent() {
    let mut queue = ErrorQueue::new();
    queue.record(0x0500);
    queue.record(0x0501);
    let first = queue.drain();
    assert_eq!(first.len(), 2);
    let second = queue.drain();
    assert!(second.is_empty());
    assert!(queue.is_empty());
}

#[test]
fn drain_of_fresh_queue_is_empty() {
    let mut queue = ErrorQueue::new();
    let diags = queue.drain();
    assert!(diags.is_empty());
}
