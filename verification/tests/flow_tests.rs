use file_storage::part_flow::{
    part_start, part_upload_step, BufferOutcome, ObjectOutcome, PartAction, PartClaims, PartEvent,
    PartState,
};
use file_storage::sidecar::{CallbackOutcome, TokenOp};
use file_storage::upload_flow::{
    upload_start, upload_step, UploadAction, UploadClaims, UploadEvent, UploadState, WriteOutcome,
};

fn claims(op: TokenOp) -> UploadClaims {
    UploadClaims {
        op,
        file_id: 1,
        version_id: 2,
        backend_id: "local-fs".to_owned(),
        backend_path: "/1/2".to_owned(),
        max_size: Some(100),
        exact_size: Some(4),
        expected_hash: Some("sha256:DEADBEEF".to_owned()),
    }
}

fn step(s: UploadState, e: UploadEvent) -> (UploadState, UploadAction) {
    upload_step(s, e)
}

fn respond_of(a: UploadAction) -> (u16, String) {
    match a {
        UploadAction::Respond { status, body } => (status, body),
        _ => panic!("expected a response"),
    }
}

fn written(bytes: u64) -> UploadEvent {
    UploadEvent::Written {
        outcome: WriteOutcome::Stored { bytes_written: bytes, digest: vec![0xde, 0xad, 0xbe, 0xef] },
    }
}

/// Run an upload through verification and the backend lookup.
fn to_writing(ctrl: &str, c: UploadClaims) -> UploadState {
    let s = upload_start(1, 2, ctrl.to_owned(), "sha256".to_owned());
    let (s, a) = step(s, UploadEvent::Received { token: Some("t".to_owned()) });
    assert!(matches!(a, UploadAction::Verify { ref token } if token == "t"));
    let (s, a) = step(s, UploadEvent::Verified { claims: Ok(c) });
    assert!(matches!(a, UploadAction::ResolveBackend { ref backend_id } if backend_id == "local-fs"));
    let (s, a) = step(s, UploadEvent::BackendResolved { found: Ok(()) });
    assert!(matches!(a, UploadAction::WriteStream { ref backend_path, max_size: Some(100) } if backend_path == "/1/2"));
    s
}

#[test]
fn upload_refusals_come_in_order() {
    let s = upload_start(1, 2, String::new(), "sha256".to_owned());
    assert_eq!(respond_of(step(s, UploadEvent::Received { token: None }).1), (401, "missing fs-token".to_owned()));
    let s = upload_start(1, 2, String::new(), "sha256".to_owned());
    let (s, _) = step(s, UploadEvent::Received { token: Some("t".to_owned()) });
    assert_eq!(
        respond_of(step(s, UploadEvent::Verified { claims: Err("token expired".to_owned()) }).1),
        (403, "token expired".to_owned())
    );
    let s = upload_start(1, 2, String::new(), "sha256".to_owned());
    let (s, _) = step(s, UploadEvent::Received { token: Some("t".to_owned()) });
    assert_eq!(
        respond_of(step(s, UploadEvent::Verified { claims: Ok(claims(TokenOp::Get)) }).1),
        (403, "token does not authorize this operation".to_owned())
    );
    let s = upload_start(1, 2, String::new(), "sha256".to_owned());
    let (s, _) = step(s, UploadEvent::Received { token: Some("t".to_owned()) });
    let (s, _) = step(s, UploadEvent::Verified { claims: Ok(claims(TokenOp::Put)) });
    assert_eq!(
        respond_of(step(s, UploadEvent::BackendResolved { found: Err("no such backend".to_owned()) }).1),
        (500, "unknown backend 'local-fs': no such backend".to_owned())
    );
    let s = to_writing("", claims(TokenOp::Put));
    assert_eq!(
        respond_of(step(s, UploadEvent::Written { outcome: WriteOutcome::OverLimit }).1),
        (413, "exceeds max_size".to_owned())
    );
    let s = to_writing("", claims(TokenOp::Put));
    assert_eq!(respond_of(step(s, written(3)).1), (400, "size does not match exact_size".to_owned()));
    let mut bad_hash = claims(TokenOp::Put);
    bad_hash.expected_hash = Some("sha256:00".to_owned());
    let s = to_writing("", bad_hash);
    assert_eq!(respond_of(step(s, written(4)).1), (400, "content hash mismatch".to_owned()));
    let s = to_writing("", claims(TokenOp::Put));
    assert_eq!(
        respond_of(step(s, UploadEvent::Written { outcome: WriteOutcome::Failed }).1),
        (500, "backend error".to_owned())
    );
}

#[test]
fn upload_without_callback_is_accepted_after_checks() {
    let s = to_writing("", claims(TokenOp::Put));
    assert_eq!(respond_of(step(s, written(4)).1), (200, "uploaded".to_owned()));
}

#[test]
fn upload_answers_200_only_after_the_finalize_callback() {
    let s = to_writing("http://cp/", claims(TokenOp::Put));
    let (s, a) = step(s, written(4));
    match a {
        UploadAction::SendFinalize { url, size, hash_hex, attempt } => {
            assert_eq!(
                url,
                "http://cp/api/file-storage/v1/files/00000000-0000-0000-0000-000000000001/versions/00000000-0000-0000-0000-000000000002/finalize"
            );
            assert_eq!((size, hash_hex.as_str(), attempt), (4, "deadbeef", 1));
        }
        _ => panic!("expected the finalize callback"),
    }
    let refused = CallbackOutcome::TransportFailed { is_connect: true, is_timeout: false };
    let (s, a) = step(s, UploadEvent::CallbackAttempted { outcome: refused });
    assert!(matches!(a, UploadAction::SendFinalize { attempt: 2, .. }));
    let (_, a) = step(s, UploadEvent::CallbackAttempted { outcome: CallbackOutcome::Answered { status: 204 } });
    assert_eq!(respond_of(a), (200, "uploaded".to_owned()));

    let s = to_writing("http://cp", claims(TokenOp::Put));
    let (s, _) = step(s, written(4));
    let (_, a) = step(s, UploadEvent::CallbackAttempted { outcome: CallbackOutcome::Answered { status: 500 } });
    assert_eq!(respond_of(a), (502, "finalize failed".to_owned()));
}

fn part_claims(op: TokenOp, part_number: u32) -> PartClaims {
    PartClaims {
        op,
        file_id: 1,
        version_id: 2,
        upload_id: 3,
        part_number,
        backend_id: "mem".to_owned(),
        backend_path: "/1/2".to_owned(),
        backend_handle: "h".to_owned(),
        offset: 0,
        size: 10,
    }
}

fn part_respond(a: PartAction) -> (u16, String) {
    match a {
        PartAction::Respond { status, body } => (status, body),
        _ => panic!("expected a response"),
    }
}

fn to_resolving(ctrl: &str) -> PartState {
    let s = part_start(1, 2, 7, ctrl.to_owned());
    let (s, _) = part_upload_step(s, PartEvent::Received { token: Some("t".to_owned()) });
    let (s, a) = part_upload_step(s, PartEvent::Verified { claims: Ok(part_claims(TokenOp::MultipartPart, 7)) });
    assert!(matches!(a, PartAction::ResolveBackend { .. }));
    s
}

#[test]
fn part_token_for_another_part_is_refused_before_any_write() {
    let s = part_start(1, 2, 7, String::new());
    assert_eq!(
        part_respond(part_upload_step(s, PartEvent::Received { token: None }).1),
        (401, "missing fs-token".to_owned())
    );
    let s = part_start(1, 2, 7, String::new());
    let (s, _) = part_upload_step(s, PartEvent::Received { token: Some("t".to_owned()) });
    assert_eq!(
        part_respond(part_upload_step(s, PartEvent::Verified { claims: Ok(part_claims(TokenOp::MultipartPart, 8)) }).1),
        (403, "token part_number does not match path".to_owned())
    );
    let s = part_start(1, 2, 7, String::new());
    let (s, _) = part_upload_step(s, PartEvent::Received { token: Some("t".to_owned()) });
    assert_eq!(
        part_respond(part_upload_step(s, PartEvent::Verified { claims: Ok(part_claims(TokenOp::Put, 7)) }).1),
        (403, "token does not authorize this operation".to_owned())
    );
}

#[test]
fn native_part_checks_length_then_reports() {
    let s = to_resolving("http://cp");
    let (s, a) = part_upload_step(s, PartEvent::BackendResolved { found: Ok(true) });
    assert!(matches!(a, PartAction::BufferBody { max_size: 10 }));
    let (_, a) = part_upload_step(s, PartEvent::Buffered { outcome: BufferOutcome::Complete { body_len: 5 } });
    assert_eq!(part_respond(a), (400, "part body length 5 does not match token size claim 10".to_owned()));

    let s = to_resolving("http://cp");
    let (s, _) = part_upload_step(s, PartEvent::BackendResolved { found: Ok(true) });
    let (_, a) = part_upload_step(s, PartEvent::Buffered { outcome: BufferOutcome::OverLimit });
    assert_eq!(part_respond(a), (413, "part body length exceeds token size claim 10".to_owned()));

    let s = to_resolving("http://cp");
    let (s, _) = part_upload_step(s, PartEvent::BackendResolved { found: Ok(true) });
    let (s, a) = part_upload_step(s, PartEvent::Buffered { outcome: BufferOutcome::Complete { body_len: 10 } });
    assert!(matches!(a, PartAction::UploadPart { part_number: 7, .. }));
    let (s, a) = part_upload_step(
        s,
        PartEvent::PartUploaded { result: Ok(("etag-7".to_owned(), vec![0xab])) },
    );
    match a {
        PartAction::SendReport { url, backend_etag, hash_hex, size, attempt } => {
            assert!(url.ends_with("/parts/7/report"));
            assert_eq!((backend_etag.as_str(), hash_hex.as_str(), size, attempt), ("etag-7", "ab", 10, 1));
        }
        _ => panic!("expected the part report"),
    }
    let (_, a) = part_upload_step(s, PartEvent::ReportAttempted { outcome: CallbackOutcome::Answered { status: 200 } });
    assert!(matches!(a, PartAction::Accept { part_number: 7, ref backend_etag, ref hash_hex } if backend_etag == "etag-7" && hash_hex == "ab"));
}

#[test]
fn offset_part_is_discarded_when_short() {
    let s = to_resolving("");
    let (s, a) = part_upload_step(s, PartEvent::BackendResolved { found: Ok(false) });
    assert!(matches!(a, PartAction::WriteObject { ref path, max_size: 10 } if path == "/1/2.part.7"));
    let (_, a) = part_upload_step(
        s,
        PartEvent::ObjectWritten { outcome: ObjectOutcome::Stored { body_len: 4, digest: vec![1] } },
    );
    assert!(matches!(a, PartAction::DiscardAndRespond { ref path, status: 400, .. } if path == "/1/2.part.7"));

    let s = to_resolving("");
    let (s, _) = part_upload_step(s, PartEvent::BackendResolved { found: Ok(false) });
    let (_, a) = part_upload_step(
        s,
        PartEvent::ObjectWritten { outcome: ObjectOutcome::Stored { body_len: 10, digest: vec![0x0f] } },
    );
    assert!(matches!(a, PartAction::Accept { part_number: 7, ref backend_etag, ref hash_hex } if backend_etag == "0f" && hash_hex == "0f"));
}

#[test]
fn failed_part_report_is_a_bad_gateway() {
    let s = to_resolving("http://cp");
    let (s, _) = part_upload_step(s, PartEvent::BackendResolved { found: Ok(false) });
    let (s, _) = part_upload_step(
        s,
        PartEvent::ObjectWritten { outcome: ObjectOutcome::Stored { body_len: 10, digest: vec![1] } },
    );
    let (_, a) = part_upload_step(s, PartEvent::ReportAttempted { outcome: CallbackOutcome::Answered { status: 409 } });
    assert_eq!(part_respond(a), (502, "report failed".to_owned()));
}
