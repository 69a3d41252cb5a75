use enclave_init::error::{Context, Failure, Report, SystemError};

#[test]
fn report_new_keeps_message() {
    let r = Report::new(Failure::Mount, "Failed to mount: /proc".to_string());
    assert_eq!(r.kind(), Failure::Mount);
    assert_eq!(r.to_string(), "Failed to mount: /proc");
}

#[test]
fn context_chain_outermost_first() {
    let cause = SystemError { message: "Permission denied".to_string() };
    let r = Report::caused_by(Failure::SeedOpen, "Failed to open /dev/urandom", &cause)
        .context("Unable to seed kernel with entropy");
    assert_eq!(r.kind(), Failure::SeedOpen);
    assert_eq!(
        r.to_string(),
        "Unable to seed kernel with entropy: Failed to open /dev/urandom: Permission denied"
    );
}

#[test]
fn result_context_only_touches_errors() {
    let ok: Result<u32, Report> = Ok(7);
    assert_eq!(ok.context("outer").ok(), Some(7));
    let err: Result<u32, Report> = Err(Report::new(Failure::ChannelConnect, "refused".to_string()));
    let e = err.context("Error when initializing AWS functionality").unwrap_err();
    assert_eq!(e.kind(), Failure::ChannelConnect);
    assert_eq!(e.to_string(), "Error when initializing AWS functionality: refused");
    assert_eq!(e.cloned().to_string(), e.to_string());
}

#[test]
fn with_context_computes_context_only_for_errors() {
    let mut calls = 0;
    let ok: Result<u32, Report> = Ok(3);
    assert_eq!(
        ok.with_context(|| {
            calls += 1;
            "never".to_string()
        })
        .ok(),
        Some(3)
    );
    assert_eq!(calls, 0);
    let err: Result<u32, Report> = Err(Report::new(Failure::SeedWrite, "EIO".to_string()));
    let e = err
        .with_context(|| {
            calls += 1;
            "Unable to seed kernel with entropy".to_string()
        })
        .unwrap_err();
    assert_eq!(calls, 1);
    assert_eq!(e.kind(), Failure::SeedWrite);
    assert_eq!(e.to_string(), "Unable to seed kernel with entropy: EIO");
}
