//! Tests of the block-submission pipeline, run against the real schema
//! checker of `ckb_types` and the real hex decoder of `faster_hex`.

use boxer::driver::Driver;
use boxer::hex::hex_encode;
use boxer::pipeline::{
    advance, begin_request, handle_line, CollabEvent, LineOutcome, PipelineError, RequestState,
};
use ckb_types::packed::Block;
use ckb_types::prelude::Entity;

fn default_block_hex() -> Vec<u8> {
    // The default packed block is schema-valid by construction.
    let block = Block::default();
    hex_encode(block.as_slice())
}

#[test]
fn odd_length_payload_is_a_decode_error() {
    let state = begin_request(b"abc");
    assert!(matches!(state, RequestState::Rejected { error: PipelineError::Decode }));
}

#[test]
fn non_hex_payload_is_a_decode_error() {
    let state = begin_request(b"zz");
    assert!(matches!(state, RequestState::Rejected { error: PipelineError::Decode }));
    let state = begin_request(b"0x01");
    assert!(matches!(state, RequestState::Rejected { error: PipelineError::Decode }));
}

#[test]
fn empty_payload_fails_the_schema_stage() {
    // Empty text is well-formed hex and decodes to no bytes, which the
    // block schema then rejects.
    let state = begin_request(b"");
    assert!(matches!(state, RequestState::Rejected { error: PipelineError::Schema }));
}

#[test]
fn well_formed_hex_of_garbage_is_a_schema_error() {
    let state = begin_request(b"deadbeef");
    assert!(matches!(state, RequestState::Rejected { error: PipelineError::Schema }));
}

#[test]
fn valid_block_passes_the_local_stages() {
    let payload = default_block_hex();
    let block = Block::default();
    match begin_request(&payload) {
        RequestState::AwaitHeaderVerify { block: checked } => {
            // The decoded bytes are exactly the serialized block.
            assert_eq!(checked.as_slice(), block.as_slice());
        }
        _ => panic!("a schema-valid block must await header verification"),
    }
}

#[test]
fn accepted_block_runs_each_stage_once() {
    let payload = default_block_hex();
    let state = begin_request(&payload);
    assert!(matches!(state, RequestState::AwaitHeaderVerify { .. }));
    let state = advance(state, CollabEvent::HeaderVerdict { error: None });
    assert!(matches!(state, RequestState::AwaitSubmit { .. }));
    let state = advance(state, CollabEvent::SubmitVerdict { result: Ok(true) });
    assert!(matches!(state, RequestState::Accepted { to_tip: true }));
}

#[test]
fn side_branch_acceptance_is_also_success() {
    let payload = default_block_hex();
    let state = begin_request(&payload);
    let state = advance(state, CollabEvent::HeaderVerdict { error: None });
    let state = advance(state, CollabEvent::SubmitVerdict { result: Ok(false) });
    assert!(matches!(state, RequestState::Accepted { to_tip: false }));
}

#[test]
fn header_verification_failure_is_reported_under_its_id() {
    let mut line = b"0001NBLK".to_vec();
    line.extend_from_slice(&default_block_hex());
    match handle_line(&line) {
        LineOutcome::Submit { id, state } => {
            assert_eq!(id, b"0001".to_vec());
            let verdict = CollabEvent::HeaderVerdict {
                error: Some(b"wrong parent hash".to_vec()),
            };
            match advance(state, verdict) {
                RequestState::Rejected {
                    error: PipelineError::HeaderVerification { reason },
                } => {
                    assert_eq!(reason, b"wrong parent hash".to_vec());
                }
                _ => panic!("a failed header verdict must reject the request"),
            }
        }
        _ => panic!("a well-formed NBLK line must reach the pipeline"),
    }
}

#[test]
fn processing_failure_rejects_the_request() {
    let payload = default_block_hex();
    let state = begin_request(&payload);
    let state = advance(state, CollabEvent::HeaderVerdict { error: None });
    match advance(state, CollabEvent::SubmitVerdict { result: Err(b"db error".to_vec()) }) {
        RequestState::Rejected { error: PipelineError::Processing { reason } } => {
            assert_eq!(reason, b"db error".to_vec());
        }
        _ => panic!("a failed submission verdict must reject the request"),
    }
}

#[test]
fn rejected_request_absorbs_later_verdicts() {
    let state = begin_request(b"zz");
    let state = advance(state, CollabEvent::HeaderVerdict { error: None });
    assert!(matches!(state, RequestState::Rejected { error: PipelineError::Decode }));
    let state = advance(state, CollabEvent::SubmitVerdict { result: Ok(true) });
    assert!(matches!(state, RequestState::Rejected { error: PipelineError::Decode }));
}

#[test]
fn verdict_for_another_stage_changes_nothing() {
    let payload = default_block_hex();
    let state = begin_request(&payload);
    // A submission verdict while the header verdict is owed is ignored.
    let state = advance(state, CollabEvent::SubmitVerdict { result: Ok(true) });
    assert!(matches!(state, RequestState::AwaitHeaderVerify { .. }));
}

#[test]
fn resubmission_is_revalidated_each_time() {
    let payload = default_block_hex();
    // First submission, accepted.
    let state = begin_request(&payload);
    let state = advance(state, CollabEvent::HeaderVerdict { error: None });
    let state = advance(state, CollabEvent::SubmitVerdict { result: Ok(true) });
    assert!(matches!(state, RequestState::Accepted { to_tip: true }));
    // Resubmitting the same payload runs every stage again, unaffected by
    // the earlier acceptance.
    let state = begin_request(&payload);
    assert!(matches!(state, RequestState::AwaitHeaderVerify { .. }));
    let state = advance(state, CollabEvent::HeaderVerdict { error: None });
    let state = advance(state, CollabEvent::SubmitVerdict { result: Ok(true) });
    assert!(matches!(state, RequestState::Accepted { to_tip: true }));
}

#[test]
fn submission_succeeds_after_listener_terminated() {
    let (mut driver, _tip) = Driver::start(3);
    assert_eq!(driver.on_notification(None), None);
    // The listener is gone, but a valid submission still runs through the
    // pipeline; it just produces no notification frame.
    let payload = default_block_hex();
    let state = begin_request(&payload);
    let state = advance(state, CollabEvent::HeaderVerdict { error: None });
    let state = advance(state, CollabEvent::SubmitVerdict { result: Ok(true) });
    assert!(matches!(state, RequestState::Accepted { to_tip: true }));
    assert_eq!(driver.on_notification(Some(vec![0xaa])), None);
}
