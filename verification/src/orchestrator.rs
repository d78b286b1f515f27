//! The proof orchestrator: the host-side decisions around the proving
//! engine. The engine itself is outside: the orchestrator says what is to
//! be done next, the caller does it and reports what happened.
//!
//! One orchestrator serves one proof request. It hands the witness to the
//! engine only where the evaluation of the witness succeeds, has the
//! receipt persisted and verified, and delivers a journal only from a
//! receipt that the engine has verified against the program identity.

use vstd::prelude::*;
use crate::errors::{result_view, AttestError};
use crate::program_id::{identity_from_text, identity_of_text};
use crate::evaluator::{evaluate, evaluation};
use crate::journal::{decode_journal, journal_from_bytes, JournalView, PublicJournal};
use crate::signature::{Signature, SignatureView};
use crate::typed_data::{clone_attest, Attest, AttestView};
use crate::witness::{encode_witness, witness_bytes, PredicateWitness, WitnessView};

verus! {

/// Where the program to prove comes from. It is fixed when the
/// orchestrator is made.
#[derive(Debug, Clone, PartialEq, Eq)]
pub enum ProgramSource {
    /// A program known by its identity.
    Embedded([u32; 8]),
    /// A program whose bytes are read from a path.
    LoadedFromPath(String),
}

/// A program source as plain values.
pub enum ProgramSourceView {
    Embedded(Seq<u32>),
    LoadedFromPath(Seq<char>),
}

impl View for ProgramSource {
    type V = ProgramSourceView;

    open spec fn view(&self) -> ProgramSourceView {
        match *self {
            ProgramSource::Embedded(identity) => ProgramSourceView::Embedded(identity@),
            ProgramSource::LoadedFromPath(path) => ProgramSourceView::LoadedFromPath(path@),
        }
    }
}

/// The command line: the path of the program to prove and, where the
/// caller pins it, the identity that the receipt has to be of, in the text
/// form of `guest_id`.
#[derive(Debug, Clone, PartialEq, Eq)]
pub struct Cli {
    pub path: String,
    pub identity: Option<String>,
}

/// An optional text as plain values.
pub open spec fn text_view(text: Option<String>) -> Option<Seq<char>> {
    match text {
        Some(text) => Some(text@),
        None => None,
    }
}

/// The program source that a command line names: the pinned identity
/// where there is one, the path where there is none. A pinned identity
/// that is no identity is a configuration error; it is never passed over.
pub open spec fn program_source_of(path: Seq<char>, identity: Option<Seq<char>>) -> Result<
    ProgramSourceView,
    AttestError,
> {
    match identity {
        None => Ok(ProgramSourceView::LoadedFromPath(path)),
        Some(text) => match identity_of_text(text) {
            Some(words) => Ok(ProgramSourceView::Embedded(words)),
            None => Err(AttestError::ConfigError),
        },
    }
}

/// The identity that receipts are verified against: the pinned identity
/// of an embedded program, and for a program that is read from a path the
/// identity of the bytes that were read.
pub open spec fn resolved_identity(source: ProgramSource, loaded: [u32; 8]) -> [u32; 8] {
    match source {
        ProgramSource::Embedded(identity) => identity,
        ProgramSource::LoadedFromPath(_) => loaded,
    }
}

impl Cli {
    /// The program source that the command line names.
    pub fn program_source(&self) -> (source: Result<ProgramSource, AttestError>)
        ensures
            result_view(source) == program_source_of(self.path@, text_view(self.identity)),
    {
        match &self.identity {
            None => Ok(ProgramSource::LoadedFromPath(self.path.clone())),
            Some(text) => match identity_from_text(text.as_str()) {
                Some(identity) => Ok(ProgramSource::Embedded(identity)),
                None => Err(AttestError::ConfigError),
            },
        }
    }
}

/// Resolves the identity that receipts are verified against, given the
/// identity of the program bytes that were read.
pub fn resolve_identity(source: &ProgramSource, loaded: [u32; 8]) -> (identity: [u32; 8])
    ensures
        identity == resolved_identity(*source, loaded),
{
    match source {
        ProgramSource::Embedded(identity) => *identity,
        ProgramSource::LoadedFromPath(_) => loaded,
    }
}

/// Where a proof request stands.
#[derive(Debug, Clone, Copy, PartialEq, Eq, Structural)]
pub enum OrchestratorState {
    /// No witness has been submitted.
    Idle,
    /// The engine has the witness.
    Proving,
    /// A receipt exists and is being persisted.
    Persisting,
    /// The receipt is being verified against the program identity.
    Verifying,
    /// A verified journal has been delivered.
    Delivered,
    /// The request has failed.
    Failed,
}

/// What the caller reports.
#[derive(Debug, Clone, PartialEq, Eq)]
pub enum Event {
    /// A witness is submitted for proving.
    Submit { witness: PredicateWitness },
    /// The engine has produced a receipt.
    ReceiptProduced,
    /// The engine has failed to produce a receipt.
    ProvingFailed,
    /// The receipt has been written out, or could not be.
    PersistDone { saved: bool },
    /// The engine has verified the receipt; these are its journal bytes.
    ReceiptVerified { journal: Vec<u8> },
    /// The engine has refused the receipt.
    ReceiptRejected,
}

/// What the caller is to do next.
#[derive(Debug, Clone, PartialEq, Eq)]
pub enum Action {
    /// Hand these witness bytes to the engine.
    Prove { witness: Vec<u8> },
    /// Write the receipt out.
    Persist,
    /// Have the engine verify the receipt against the identity of the
    /// orchestrator.
    Verify,
    /// The request has succeeded with this journal.
    Deliver { journal: PublicJournal },
    /// The request has failed with this error.
    Fail { error: AttestError },
    /// The request had ended before; there is nothing to do.
    Halt,
}

/// An event as plain values.
pub enum EventView {
    Submit { witness: WitnessView },
    ReceiptProduced,
    ProvingFailed,
    PersistDone { saved: bool },
    ReceiptVerified { journal: Seq<u8> },
    ReceiptRejected,
}

/// An action as plain values.
pub enum ActionView {
    Prove { witness: Seq<u8> },
    Persist,
    Verify,
    Deliver { journal: JournalView },
    Fail { error: AttestError },
    Halt,
}

impl View for Event {
    type V = EventView;

    open spec fn view(&self) -> EventView {
        match *self {
            Event::Submit { witness } => EventView::Submit { witness: witness@ },
            Event::ReceiptProduced => EventView::ReceiptProduced,
            Event::ProvingFailed => EventView::ProvingFailed,
            Event::PersistDone { saved } => EventView::PersistDone { saved },
            Event::ReceiptVerified { journal } => EventView::ReceiptVerified { journal: journal@ },
            Event::ReceiptRejected => EventView::ReceiptRejected,
        }
    }
}

impl View for Action {
    type V = ActionView;

    open spec fn view(&self) -> ActionView {
        match *self {
            Action::Prove { witness } => ActionView::Prove { witness: witness@ },
            Action::Persist => ActionView::Persist,
            Action::Verify => ActionView::Verify,
            Action::Deliver { journal } => ActionView::Deliver { journal: journal@ },
            Action::Fail { error } => ActionView::Fail { error },
            Action::Halt => ActionView::Halt,
        }
    }
}

impl OrchestratorState {
    /// Whether the request has ended.
    pub open spec fn is_terminal(self) -> bool {
        self == OrchestratorState::Delivered || self == OrchestratorState::Failed
    }

    /// Whether a receipt exists in this state.
    pub open spec fn has_receipt(self) -> bool {
        self == OrchestratorState::Persisting || self == OrchestratorState::Verifying || self
            == OrchestratorState::Delivered
    }
}

/// The failure of a request that gets an event out of turn: before a
/// receipt exists nothing was proved, after that nothing was verified.
pub open spec fn out_of_turn(state: OrchestratorState) -> (OrchestratorState, ActionView) {
    (
        OrchestratorState::Failed,
        ActionView::Fail {
            error: if state.has_receipt() {
                AttestError::VerificationError
            } else {
                AttestError::ProvingError
            },
        },
    )
}

/// The decision of the orchestrator: the next state and what is to be
/// done, for a state and an event.
pub open spec fn decision(state: OrchestratorState, event: EventView) -> (
    OrchestratorState,
    ActionView,
) {
    match state {
        OrchestratorState::Idle => match event {
            EventView::Submit { witness } => match evaluation(witness) {
                Ok(_) => (
                    OrchestratorState::Proving,
                    ActionView::Prove { witness: witness_bytes(witness) },
                ),
                Err(error) => (OrchestratorState::Failed, ActionView::Fail { error }),
            },
            _ => out_of_turn(state),
        },
        OrchestratorState::Proving => match event {
            EventView::ReceiptProduced => (OrchestratorState::Persisting, ActionView::Persist),
            _ => out_of_turn(state),
        },
        OrchestratorState::Persisting => match event {
            EventView::PersistDone { saved } => (OrchestratorState::Verifying, ActionView::Verify),
            _ => out_of_turn(state),
        },
        OrchestratorState::Verifying => match event {
            EventView::ReceiptVerified { journal } => match journal_from_bytes(journal) {
                Ok(journal) => (OrchestratorState::Delivered, ActionView::Deliver { journal }),
                Err(error) => (OrchestratorState::Failed, ActionView::Fail { error }),
            },
            _ => out_of_turn(state),
        },
        OrchestratorState::Delivered => (state, ActionView::Halt),
        OrchestratorState::Failed => (state, ActionView::Halt),
    }
}

/// The failure of a request that gets an event out of turn.
fn fail_out_of_turn(state: OrchestratorState) -> (next: (OrchestratorState, Action))
    ensures
        (next.0, next.1@) == out_of_turn(state),
{
    let error = match state {
        OrchestratorState::Persisting | OrchestratorState::Verifying | OrchestratorState::Delivered => {
            AttestError::VerificationError
        },
        _ => AttestError::ProvingError,
    };
    (OrchestratorState::Failed, Action::Fail { error })
}

/// Decides what follows an event in a state.
pub fn decide(state: OrchestratorState, event: &Event) -> (next: (OrchestratorState, Action))
    ensures
        (next.0, next.1@) == decision(state, event@),
{
    match state {
        OrchestratorState::Idle => match event {
            Event::Submit { witness } => match evaluate(witness) {
                Ok(_) => (OrchestratorState::Proving, Action::Prove { witness: encode_witness(witness) }),
                Err(error) => (OrchestratorState::Failed, Action::Fail { error }),
            },
            _ => fail_out_of_turn(state),
        },
        OrchestratorState::Proving => match event {
            Event::ReceiptProduced => (OrchestratorState::Persisting, Action::Persist),
            _ => fail_out_of_turn(state),
        },
        OrchestratorState::Persisting => match event {
            Event::PersistDone { saved } => (OrchestratorState::Verifying, Action::Verify),
            _ => fail_out_of_turn(state),
        },
        OrchestratorState::Verifying => match event {
            Event::ReceiptVerified { journal } => match decode_journal(journal.as_slice()) {
                Ok(journal) => (OrchestratorState::Delivered, Action::Deliver { journal }),
                Err(error) => (OrchestratorState::Failed, Action::Fail { error }),
            },
            _ => fail_out_of_turn(state),
        },
        OrchestratorState::Delivered => (state, Action::Halt),
        OrchestratorState::Failed => (state, Action::Halt),
    }
}

/// What is handed to the engine for a witness: its bytes where its
/// evaluation succeeds, and the error of the evaluation where it fails.
pub open spec fn proof_request(witness: WitnessView) -> Result<Seq<u8>, AttestError> {
    match evaluation(witness) {
        Ok(_) => Ok(witness_bytes(witness)),
        Err(error) => Err(error),
    }
}

/// A proof request as plain values.
pub open spec fn request_view(request: Result<Vec<u8>, AttestError>) -> Result<
    Seq<u8>,
    AttestError,
> {
    match request {
        Ok(bytes) => Ok(bytes@),
        Err(error) => Err(error),
    }
}

/// The witness that the arguments of `prove_address` make up.
pub open spec fn witness_of_parts(
    signer_address: Seq<u8>,
    signature: SignatureView,
    threshold_age: u8,
    current_timestamp: u64,
    attest: AttestView,
    domain_separator: Seq<u8>,
) -> WitnessView {
    WitnessView {
        signer: signer_address,
        signature,
        domain_separator,
        message: attest,
        threshold_age,
        reference_timestamp: current_timestamp,
    }
}

/// Prepares the proof that `signer_address` signed `attest` and that the
/// attested person has reached `threshold_age` at `current_timestamp`:
/// gathers the witness, evaluates it, and returns the bytes to hand to the
/// engine. Where the evaluation fails there is nothing to prove, and the
/// error is returned instead.
pub fn prove_address(
    signer_address: &[u8; 20],
    signature: &Signature,
    threshold_age: &u8,
    current_timestamp: &u64,
    attest: &Attest,
    domain_separator: [u8; 32],
) -> (request: Result<Vec<u8>, AttestError>)
    ensures
        request_view(request) == proof_request(
            witness_of_parts(
                signer_address@,
                signature@,
                *threshold_age,
                *current_timestamp,
                attest@,
                domain_separator@,
            ),
        ),
{
    let witness = PredicateWitness {
        signer: *signer_address,
        signature: *signature,
        domain_separator,
        message: clone_attest(attest),
        threshold_age: *threshold_age,
        reference_timestamp: *current_timestamp,
    };
    match evaluate(&witness) {
        Ok(_) => Ok(encode_witness(&witness)),
        Err(error) => Err(error),
    }
}

/// The driver of one proof request.
#[derive(Debug, Clone, PartialEq, Eq)]
pub struct Orchestrator {
    source: ProgramSource,
    identity: [u32; 8],
    state: OrchestratorState,
}

impl Orchestrator {
    /// The program source, as plain data.
    pub closed spec fn source_spec(&self) -> ProgramSource {
        self.source
    }

    /// The identity that receipts are verified against.
    pub closed spec fn identity_spec(&self) -> [u32; 8] {
        self.identity
    }

    /// The state of the request.
    pub closed spec fn state_spec(&self) -> OrchestratorState {
        self.state
    }

    /// Makes the orchestrator of one proof request for a program, and
    /// resolves the identity that the receipt is verified against; `loaded`
    /// is the identity of the program bytes that the engine is given.
    pub fn new(source: ProgramSource, loaded: [u32; 8]) -> (orchestrator: Orchestrator)
        ensures
            orchestrator.source_spec() == source,
            orchestrator.identity_spec() == resolved_identity(source, loaded),
            orchestrator.state_spec() == OrchestratorState::Idle,
    {
        let identity = resolve_identity(&source, loaded);
        Orchestrator { source, identity, state: OrchestratorState::Idle }
    }

    /// The program that this orchestrator was made for.
    pub fn source(&self) -> (source: &ProgramSource)
        ensures
            *source == self.source_spec(),
    {
        &self.source
    }

    /// The identity that the receipt is to be verified against.
    pub fn identity(&self) -> (identity: [u32; 8])
        ensures
            identity == self.identity_spec(),
    {
        self.identity
    }

    /// The state of the request.
    pub fn state(&self) -> (state: OrchestratorState)
        ensures
            state == self.state_spec(),
    {
        self.state
    }

    /// Takes an event and says what is to be done next. The program
    /// source and the identity stay as they were made.
    pub fn handle(&mut self, event: &Event) -> (action: Action)
        ensures
            final(self).source_spec() == old(self).source_spec(),
            final(self).identity_spec() == old(self).identity_spec(),
            (final(self).state_spec(), action@) == decision(old(self).state_spec(), event@),
    {
        let (state, action) = decide(self.state, event);
        self.state = state;
        action
    }
}

} // verus!
