use file_storage::models::ByteRange;
use file_storage::sidecar::{
    callback_failure_reply, callback_step, check_object_token, CallbackOutcome, CallbackStep, check_part_token, check_upload_constraints,
    chunk_overflows, download_content_type, download_etag, finalize_url, internal_token,
    offset_part_path, part_length_mismatch_message, part_too_large_message, range_reply,
    readiness_reply, report_part_url, select_token, should_retry, RangeReply, TokenOp,
    UploadRejection, CALLBACK_MAX_ATTEMPTS, WRONG_PART, WRONG_TARGET,
};

#[test]
fn range_reply_partial_carries_content_range() {
    match range_reply(ByteRange::Inclusive { start: 0, end: 4 }, 11) {
        RangeReply::Partial { start, end, content_range } => {
            assert_eq!((start, end), (0, 4));
            assert_eq!(content_range, "bytes 0-4/11");
        }
        RangeReply::Unsatisfiable { .. } => panic!("expected a partial reply"),
    }
}

#[test]
fn range_reply_unsatisfiable_names_total() {
    match range_reply(ByteRange::Inclusive { start: 100, end: 200 }, 11) {
        RangeReply::Unsatisfiable { content_range } => assert_eq!(content_range, "bytes */11"),
        RangeReply::Partial { .. } => panic!("expected 416"),
    }
}

#[test]
fn range_reply_suffix_and_open_ended() {
    match range_reply(ByteRange::Suffix { length: 3 }, 11) {
        RangeReply::Partial { start, end, content_range } => {
            assert_eq!((start, end), (8, 10));
            assert_eq!(content_range, "bytes 8-10/11");
        }
        RangeReply::Unsatisfiable { .. } => panic!("expected a partial reply"),
    }
    match range_reply(ByteRange::OpenEnded { start: 6 }, 11) {
        RangeReply::Partial { start, end, .. } => assert_eq!((start, end), (6, 10)),
        RangeReply::Unsatisfiable { .. } => panic!("expected a partial reply"),
    }
}

#[test]
fn download_headers_fall_back_without_claims() {
    assert_eq!(download_content_type("image/png"), "image/png");
    assert_eq!(download_content_type(""), "application/octet-stream");
    assert_eq!(download_etag("\"abc123\""), Some("\"abc123\"".to_owned()));
    assert_eq!(download_etag(""), None);
}

#[test]
fn header_values_with_control_characters_are_rejected() {
    assert_eq!(download_content_type("text/plain\n"), "application/octet-stream");
    assert_eq!(download_etag("a\rb"), None);
}

#[test]
fn token_targets_are_checked() {
    assert_eq!(check_object_token(TokenOp::Put, TokenOp::Put, 1, 2, 1, 2), Ok(()));
    assert_eq!(check_object_token(TokenOp::Get, TokenOp::Put, 1, 2, 1, 2), Err(WRONG_TARGET));
    assert_eq!(check_object_token(TokenOp::Put, TokenOp::Put, 1, 3, 1, 2), Err(WRONG_TARGET));
    assert_eq!(check_part_token(TokenOp::MultipartPart, 1, 2, 3, 1, 2, 3), Ok(()));
    assert_eq!(check_part_token(TokenOp::MultipartPart, 1, 2, 4, 1, 2, 3), Err(WRONG_PART));
    assert_eq!(check_part_token(TokenOp::Put, 1, 2, 3, 1, 2, 3), Err(WRONG_TARGET));
}

#[test]
fn query_token_wins_over_header() {
    assert_eq!(
        select_token(Some("q".to_owned()), Some("h".to_owned())),
        Some("q".to_owned())
    );
    assert_eq!(select_token(None, Some("h".to_owned())), Some("h".to_owned()));
    assert_eq!(select_token(None, None), None);
}

#[test]
fn upload_constraints_check_size_then_hash() {
    let digest = [0xde, 0xad, 0xbe, 0xef];
    assert_eq!(check_upload_constraints(4, Some(4), Some("sha256:deadbeef"), "sha256", &digest), Ok(()));
    assert_eq!(check_upload_constraints(4, Some(4), Some("SHA256:DEADBEEF"), "sha256", &digest), Ok(()));
    assert_eq!(
        check_upload_constraints(3, Some(4), Some("sha256:deadbeef"), "sha256", &digest),
        Err(UploadRejection::SizeMismatch)
    );
    assert_eq!(
        check_upload_constraints(4, None, Some("sha256:00"), "sha256", &digest),
        Err(UploadRejection::HashMismatch)
    );
    assert_eq!(check_upload_constraints(7, None, None, "sha256", &digest), Ok(()));
    assert_eq!(UploadRejection::HashMismatch.message(), "content hash mismatch");
    assert_eq!(UploadRejection::SizeMismatch.message(), "size does not match exact_size");
}

#[test]
fn chunk_overflow_is_exact() {
    assert!(!chunk_overflows(5, 5, 10));
    assert!(chunk_overflows(6, 5, 10));
    assert!(chunk_overflows(0, u64::MAX, 10));
    assert!(!chunk_overflows(u64::MAX - 1, 1, u64::MAX));
    assert!(!chunk_overflows(u64::MAX, 1, u64::MAX));
    assert!(chunk_overflows(u64::MAX, 1, u64::MAX - 1));
}

#[test]
fn part_messages_and_paths() {
    assert_eq!(part_too_large_message(10), "part body length exceeds token size claim 10");
    assert_eq!(
        part_length_mismatch_message(5, 10),
        "part body length 5 does not match token size claim 10"
    );
    assert_eq!(offset_part_path("/a/b", 3), "/a/b.part.3");
}

#[test]
fn readiness_lists_failing_backends() {
    assert_eq!(readiness_reply(&vec![]), (200, "ready".to_owned()));
    assert_eq!(
        readiness_reply(&vec!["local-fs".to_owned(), "s3".to_owned()]),
        (503, "not ready: local-fs, s3".to_owned())
    );
}

#[test]
fn callback_urls_use_canonical_uuids() {
    assert_eq!(finalize_url("", 1, 2), None);
    assert_eq!(
        finalize_url("http://cp/", 1, 2),
        Some(
            "http://cp/api/file-storage/v1/files/00000000-0000-0000-0000-000000000001/versions/00000000-0000-0000-0000-000000000002/finalize"
                .to_owned()
        )
    );
    assert_eq!(
        report_part_url("http://cp", 0x67e5504410b1426f9247bb680e5fe0c8, 2, 3, 7),
        Some(
            "http://cp/api/file-storage/v1/files/67e55044-10b1-426f-9247-bb680e5fe0c8/versions/00000000-0000-0000-0000-000000000002/multipart/00000000-0000-0000-0000-000000000003/parts/7/report"
                .to_owned()
        )
    );
}

#[test]
fn retries_stop_at_the_attempt_limit() {
    assert_eq!(CALLBACK_MAX_ATTEMPTS, 3);
    assert!(should_retry(1, true, false));
    assert!(should_retry(2, false, true));
    assert!(!should_retry(3, true, true));
    assert!(!should_retry(1, false, false));
}

#[test]
fn internal_token_ignores_empty_secret() {
    assert_eq!(internal_token(Some("s".to_owned())), Some("s".to_owned()));
    assert_eq!(internal_token(Some(String::new())), None);
    assert_eq!(internal_token(None), None);
}

#[test]
fn callback_failures_do_not_leak_details() {
    assert_eq!(callback_failure_reply(true), (502, "finalize failed"));
    assert_eq!(callback_failure_reply(false), (502, "report failed"));
}

#[test]
fn callback_steps_retry_only_transport_failures() {
    assert_eq!(callback_step(1, CallbackOutcome::Answered { status: 204 }), CallbackStep::Accepted);
    assert_eq!(callback_step(1, CallbackOutcome::Answered { status: 500 }), CallbackStep::Failed);
    assert_eq!(callback_step(1, CallbackOutcome::Answered { status: 199 }), CallbackStep::Failed);
    let refused = CallbackOutcome::TransportFailed { is_connect: true, is_timeout: false };
    assert_eq!(callback_step(1, refused), CallbackStep::Retry { next_attempt: 2 });
    assert_eq!(callback_step(2, refused), CallbackStep::Retry { next_attempt: 3 });
    assert_eq!(callback_step(3, refused), CallbackStep::Failed);
    let other = CallbackOutcome::TransportFailed { is_connect: false, is_timeout: false };
    assert_eq!(callback_step(1, other), CallbackStep::Failed);
}

#[test]
fn a_refused_then_answered_callback_sends_twice() {
    let outcomes = [
        CallbackOutcome::TransportFailed { is_connect: true, is_timeout: false },
        CallbackOutcome::Answered { status: 200 },
    ];
    let mut attempt = 1;
    let mut sends = 0;
    for o in outcomes {
        sends += 1;
        match callback_step(attempt, o) {
            CallbackStep::Retry { next_attempt } => attempt = next_attempt,
            step => {
                assert_eq!(step, CallbackStep::Accepted);
                break;
            }
        }
    }
    assert_eq!(sends, 2);
}

#[test]
fn written_report_saturates_and_hex_encodes() {
    assert_eq!(
        file_storage::sidecar::written_report(11, &[0xde, 0xad]),
        (11, "dead".to_owned())
    );
    assert_eq!(file_storage::sidecar::written_report(u64::MAX, &[]).0, i64::MAX);
}
