//! The block-submission pipeline.
//!
//! A hex payload runs through strictly ordered stages, each
//! short-circuiting on failure: hex decode, structural (schema)
//! validation of the raw block bytes, header verification against the
//! chain snapshot, and submission to the chain service. The first two
//! stages are decided here; header verification and submission are
//! performed by node collaborators outside the library, which report
//! back one verdict per stage. The pipeline is therefore a state
//! machine: `begin_request` runs the local stages, and `advance`
//! consumes one collaborator verdict.

use vstd::prelude::*;

use crate::hex::{hex_decode_checked, hex_decoded, hex_ok};
use crate::frame::{method_nblk, parse_frame, is_submit_method, Frame};
use ckb_types::prelude::Reader;

verus! {

/// Whether a byte string is a structurally well-formed serialized block
/// under the node's binary block schema, checked shallowly (without the
/// deep cursor walk). The schema is owned by the `ckb_types` collaborator;
/// the check is a pure function of the bytes alone, so it only gets a name
/// here.
pub uninterp spec fn block_schema_valid(raw: Seq<u8>) -> bool;

/// Relies on `ckb_types::packed::BlockReader::verify` in shallow
/// (non-compatible) mode: a deterministic schema check of the bytes alone,
/// named `block_schema_valid`.
#[verifier::external_body]
fn block_schema_check(raw: &[u8]) -> (r: bool)
    ensures
        r == block_schema_valid(raw@),
{
    ckb_types::packed::BlockReader::verify(raw, false).is_ok()
}

/// Raw block bytes that passed the schema validation stage. The only way
/// to obtain one is through the validating parse, so a structured block
/// view may be derived from it without re-validation.
pub struct ValidBlockBytes {
    bytes: Vec<u8>,
}

impl View for ValidBlockBytes {
    type V = Seq<u8>;

    closed spec fn view(&self) -> Seq<u8> {
        self.bytes@
    }
}

impl ValidBlockBytes {
    #[verifier::type_invariant]
    spec fn schema_checked(self) -> bool {
        block_schema_valid(self.bytes@)
    }

    /// The validated raw block bytes, for deriving the structured view.
    /// Every value of this type holds schema-valid bytes.
    pub fn as_slice(&self) -> (r: &[u8])
        ensures
            r@ == self@,
            block_schema_valid(self@),
    {
        proof {
            use_type_invariant(self);
        }
        self.bytes.as_slice()
    }
}

/// The failure of one pipeline stage. Every failure is local to its
/// request: it is logged with the frame's id and the request is dropped;
/// no error response frame exists in the protocol.
#[derive(Debug, Clone, PartialEq, Eq)]
pub enum PipelineError {
    /// The payload is not even-length hex text.
    Decode,
    /// The decoded bytes are not a schema-valid serialized block.
    Schema,
    /// The header verifier rejected the block, with its diagnostic.
    HeaderVerification { reason: Vec<u8> },
    /// The chain service rejected or failed the submission, with its
    /// diagnostic.
    Processing { reason: Vec<u8> },
}

/// Model of `PipelineError`.
pub enum ErrorModel {
    Decode,
    Schema,
    HeaderVerification { reason: Seq<u8> },
    Processing { reason: Seq<u8> },
}

impl PipelineError {
    /// The model this error denotes.
    pub open spec fn model(&self) -> ErrorModel {
        match self {
            PipelineError::Decode => ErrorModel::Decode,
            PipelineError::Schema => ErrorModel::Schema,
            PipelineError::HeaderVerification { reason } => ErrorModel::HeaderVerification {
                reason: reason@,
            },
            PipelineError::Processing { reason } => ErrorModel::Processing { reason: reason@ },
        }
    }
}

/// Where one block-submission request stands.
pub enum RequestState {
    /// The local stages passed; the header verifier's verdict is owed.
    AwaitHeaderVerify { block: ValidBlockBytes },
    /// The header passed; the chain service's verdict is owed. Reaching
    /// this state is what "submission is attempted" means.
    AwaitSubmit { block: ValidBlockBytes },
    /// The chain service accepted the block, into the active chain
    /// (`to_tip`) or as a valid side branch; both are pipeline success.
    Accepted { to_tip: bool },
    /// A stage failed; the request is dropped.
    Rejected { error: PipelineError },
}

/// Model of `RequestState`.
pub enum StateModel {
    AwaitHeaderVerify { bytes: Seq<u8> },
    AwaitSubmit { bytes: Seq<u8> },
    Accepted { to_tip: bool },
    Rejected { error: ErrorModel },
}

impl RequestState {
    /// The model this state denotes.
    pub open spec fn model(&self) -> StateModel {
        match self {
            RequestState::AwaitHeaderVerify { block } => StateModel::AwaitHeaderVerify {
                bytes: block@,
            },
            RequestState::AwaitSubmit { block } => StateModel::AwaitSubmit { bytes: block@ },
            RequestState::Accepted { to_tip } => StateModel::Accepted { to_tip: *to_tip },
            RequestState::Rejected { error } => StateModel::Rejected { error: error.model() },
        }
    }
}

/// One verdict reported back by a node collaborator.
pub enum CollabEvent {
    /// What the header verifier reported: `None` when the header checks
    /// out, `Some` with its diagnostic.
    HeaderVerdict { error: Option<Vec<u8>> },
    /// What the chain service reported: `Ok(to_tip)` when it took the
    /// block, `Err` with its diagnostic.
    SubmitVerdict { result: Result<bool, Vec<u8>> },
}

/// Model of `CollabEvent`.
pub enum EventModel {
    HeaderOk,
    HeaderErr { reason: Seq<u8> },
    SubmitOk { to_tip: bool },
    SubmitErr { reason: Seq<u8> },
}

impl CollabEvent {
    /// The model this event denotes.
    pub open spec fn model(&self) -> EventModel {
        match self {
            CollabEvent::HeaderVerdict { error: None } => EventModel::HeaderOk,
            CollabEvent::HeaderVerdict { error: Some(reason) } => EventModel::HeaderErr {
                reason: reason@,
            },
            CollabEvent::SubmitVerdict { result: Ok(to_tip) } => EventModel::SubmitOk {
                to_tip: *to_tip,
            },
            CollabEvent::SubmitVerdict { result: Err(reason) } => EventModel::SubmitErr {
                reason: reason@,
            },
        }
    }
}

/// The state a payload's request starts in: rejected by the hex or the
/// schema stage, or awaiting the header verifier on the decoded bytes.
pub open spec fn begin_model(payload: Seq<u8>) -> StateModel {
    if !hex_ok(payload) {
        StateModel::Rejected { error: ErrorModel::Decode }
    } else if !block_schema_valid(hex_decoded(payload)) {
        StateModel::Rejected { error: ErrorModel::Schema }
    } else {
        StateModel::AwaitHeaderVerify { bytes: hex_decoded(payload) }
    }
}

/// One transition of the request machine. A verdict for another stage
/// leaves the state unchanged; a terminal state absorbs every event.
pub open spec fn step_model(s: StateModel, e: EventModel) -> StateModel {
    match (s, e) {
        (StateModel::AwaitHeaderVerify { bytes }, EventModel::HeaderOk) => StateModel::AwaitSubmit {
            bytes,
        },
        (
            StateModel::AwaitHeaderVerify { bytes },
            EventModel::HeaderErr { reason },
        ) => StateModel::Rejected { error: ErrorModel::HeaderVerification { reason } },
        (StateModel::AwaitSubmit { bytes }, EventModel::SubmitOk { to_tip }) => StateModel::Accepted {
            to_tip,
        },
        (
            StateModel::AwaitSubmit { bytes },
            EventModel::SubmitErr { reason },
        ) => StateModel::Rejected { error: ErrorModel::Processing { reason } },
        (s0, _) => s0,
    }
}

/// The state after a whole sequence of collaborator verdicts.
pub open spec fn run_model(s: StateModel, evs: Seq<EventModel>) -> StateModel
    decreases evs.len(),
{
    if evs.len() == 0 {
        s
    } else {
        run_model(step_model(s, evs[0]), evs.skip(1))
    }
}

/// How many steps of a run consume a submission verdict in the
/// submission stage — that is, how often the chain service is asked to
/// accept the block.
pub open spec fn submit_attempts(s: StateModel, evs: Seq<EventModel>) -> nat
    decreases evs.len(),
{
    if evs.len() == 0 {
        0nat
    } else {
        (if s is AwaitSubmit && (evs[0] is SubmitOk || evs[0] is SubmitErr) {
            1nat
        } else {
            0nat
        }) + submit_attempts(step_model(s, evs[0]), evs.skip(1))
    }
}

/// Whether a run ever stands in the submission stage.
pub open spec fn ever_awaits_submit(s: StateModel, evs: Seq<EventModel>) -> bool
    decreases evs.len(),
{
    ||| s is AwaitSubmit
    ||| (evs.len() > 0 && ever_awaits_submit(step_model(s, evs[0]), evs.skip(1)))
}

/// Runs the local stages on one `NBLK` payload: hex decode, then schema
/// validation of the decoded bytes.
pub fn begin_request(payload: &[u8]) -> (r: RequestState)
    ensures
        r.model() == begin_model(payload@),
{
    match hex_decode_checked(payload) {
        None => RequestState::Rejected { error: PipelineError::Decode },
        Some(raw) => {
            if block_schema_check(raw.as_slice()) {
                RequestState::AwaitHeaderVerify { block: ValidBlockBytes { bytes: raw } }
            } else {
                RequestState::Rejected { error: PipelineError::Schema }
            }
        },
    }
}

/// Consumes one collaborator verdict and moves the request on.
pub fn advance(state: RequestState, event: CollabEvent) -> (r: RequestState)
    ensures
        r.model() == step_model(state.model(), event.model()),
{
    match (state, event) {
        (
            RequestState::AwaitHeaderVerify { block },
            CollabEvent::HeaderVerdict { error: None },
        ) => RequestState::AwaitSubmit { block },
        (
            RequestState::AwaitHeaderVerify { block: _ },
            CollabEvent::HeaderVerdict { error: Some(reason) },
        ) => RequestState::Rejected { error: PipelineError::HeaderVerification { reason } },
        (
            RequestState::AwaitSubmit { block: _ },
            CollabEvent::SubmitVerdict { result: Ok(to_tip) },
        ) => RequestState::Accepted { to_tip },
        (
            RequestState::AwaitSubmit { block: _ },
            CollabEvent::SubmitVerdict { result: Err(reason) },
        ) => RequestState::Rejected { error: PipelineError::Processing { reason } },
        (s0, _) => s0,
    }
}

/// What the command loop does with one trimmed input line.
pub enum LineOutcome {
    /// The line is shorter than the 8 header bytes; it is logged and
    /// dropped, and the loop reads on.
    Malformed,
    /// The method is not `NBLK`; it is logged with the frame's id and
    /// method for diagnostics, and the loop reads on.
    UnknownMethod { id: Vec<u8>, method: Vec<u8> },
    /// A block-submission request, with the local stages already run.
    Submit { id: Vec<u8>, state: RequestState },
}

/// Handles one trimmed input line of the command loop: parses the frame,
/// dispatches on the method, and for `NBLK` runs the local pipeline
/// stages on the payload.
pub fn handle_line(line: &[u8]) -> (r: LineOutcome)
    ensures
        r is Malformed <==> line@.len() < 8,
        line@.len() >= 8 && line@.subrange(4, 8) != method_nblk() ==> (r matches
            LineOutcome::UnknownMethod { id, method } && id@ == line@.subrange(0, 4) && method@
            == line@.subrange(4, 8)),
        line@.len() >= 8 && line@.subrange(4, 8) == method_nblk() ==> (r matches
            LineOutcome::Submit { id, state } && id@ == line@.subrange(0, 4) && state.model()
            == begin_model(line@.skip(8))),
{
    match parse_frame(line) {
        None => LineOutcome::Malformed,
        Some(Frame { id, method, payload }) => {
            if is_submit_method(method.as_slice()) {
                let state = begin_request(payload.as_slice());
                LineOutcome::Submit { id, state }
            } else {
                LineOutcome::UnknownMethod { id, method }
            }
        },
    }
}

/// A terminal request state absorbs every later verdict, and the chain
/// service is never asked again.
pub proof fn lemma_terminal_absorbing(s: StateModel, evs: Seq<EventModel>)
    requires
        s is Accepted || s is Rejected,
    ensures
        run_model(s, evs) == s,
        submit_attempts(s, evs) == 0,
        !ever_awaits_submit(s, evs),
    decreases evs.len(),
{
    if evs.len() > 0 {
        lemma_terminal_absorbing(step_model(s, evs[0]), evs.skip(1));
    }
}

/// However a request starts and whatever verdicts arrive, the chain
/// service is asked to accept its block at most once.
pub proof fn lemma_submission_at_most_once(s: StateModel, evs: Seq<EventModel>)
    ensures
        submit_attempts(s, evs) <= 1,
    decreases evs.len(),
{
    if evs.len() > 0 {
        let next = step_model(s, evs[0]);
        if s is AwaitSubmit && (evs[0] is SubmitOk || evs[0] is SubmitErr) {
            lemma_terminal_absorbing(next, evs.skip(1));
        } else {
            lemma_submission_at_most_once(next, evs.skip(1));
        }
    }
}

/// A payload with odd length or a non-hex character is rejected at the
/// decode stage, stays rejected whatever the collaborators report, and
/// no submission call is ever made for it.
pub proof fn lemma_bad_hex_never_submitted(payload: Seq<u8>, evs: Seq<EventModel>)
    requires
        !hex_ok(payload),
    ensures
        begin_model(payload) == (StateModel::Rejected { error: ErrorModel::Decode }),
        run_model(begin_model(payload), evs) == begin_model(payload),
        submit_attempts(begin_model(payload), evs) == 0,
        !ever_awaits_submit(begin_model(payload), evs),
{
    lemma_terminal_absorbing(begin_model(payload), evs);
}

/// A payload that decodes to a schema-valid block and passes header
/// verification is submitted exactly once, and a positive submission
/// verdict ends the request accepted.
pub proof fn lemma_valid_block_submitted_once(payload: Seq<u8>, to_tip: bool)
    requires
        hex_ok(payload),
        block_schema_valid(hex_decoded(payload)),
    ensures
        run_model(
            begin_model(payload),
            seq![EventModel::HeaderOk, EventModel::SubmitOk { to_tip }],
        ) == (StateModel::Accepted { to_tip }),
        submit_attempts(
            begin_model(payload),
            seq![EventModel::HeaderOk, EventModel::SubmitOk { to_tip }],
        ) == 1,
{
    let e0 = EventModel::HeaderOk;
    let e1 = EventModel::SubmitOk { to_tip };
    let evs = seq![e0, e1];
    let s0 = begin_model(payload);
    let s1 = step_model(s0, e0);
    let s2 = step_model(s1, e1);
    assert(evs.skip(1) =~= seq![e1]);
    assert(evs.skip(1).skip(1) =~= Seq::<EventModel>::empty());
    assert(s1 == (StateModel::AwaitSubmit { bytes: hex_decoded(payload) }));
    assert(s2 == (StateModel::Accepted { to_tip }));
    assert(run_model(s0, evs) == run_model(s1, evs.skip(1)));
    assert(run_model(s1, evs.skip(1)) == run_model(s2, evs.skip(1).skip(1)));
    assert(run_model(s2, evs.skip(1).skip(1)) == s2);
    assert(submit_attempts(s0, evs) == submit_attempts(s1, evs.skip(1)));
    assert(submit_attempts(s1, evs.skip(1)) == 1 + submit_attempts(s2, evs.skip(1).skip(1)));
    assert(submit_attempts(s2, evs.skip(1).skip(1)) == 0);
}

/// Resubmitting a payload is re-validated independently: the pipeline
/// keeps no memory across requests, so a request on the same payload
/// starts in the same state and, under the same collaborator verdicts,
/// ends in the same state.
pub proof fn lemma_resubmission_revalidated(
    first: Seq<u8>,
    second: Seq<u8>,
    evs: Seq<EventModel>,
)
    requires
        first == second,
    ensures
        begin_model(second) == begin_model(first),
        run_model(begin_model(second), evs) == run_model(begin_model(first), evs),
{
}

} // verus!
