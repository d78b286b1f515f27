//! The predicate evaluator: the logic that runs inside the isolated
//! environment. It recovers the signer, checks it against the claimed one,
//! evaluates the age threshold and only then builds the public journal.
//! Both checks are gates: where one fails there is no journal.
//!
//! An evaluation is a single pass through the states
//! `Start`, `RecoverSigner`, `CheckSigner`, `EvaluatePredicate`,
//! `CommitJournal` and `Done`; `CheckSigner` and `EvaluatePredicate` may
//! lead to `Aborted` instead.

use vstd::prelude::*;
use crate::birth_date::{date_of_birth_of, decode_date_of_birth};
use crate::calendar::{calculate_age, calculate_age_spec, reference_date, reference_date_spec};
use crate::errors::{result_view, AttestError};
use crate::journal::{JournalView, PublicJournal};
use crate::signature::{candidate_signer, recover_candidate};
use crate::typed_data::{hash_message, hash_message_spec};
use crate::witness::{PredicateWitness, WitnessView};
use crate::word::same_bytes;

verus! {

/// Where an evaluation stands.
#[derive(Debug, Clone, Copy, PartialEq, Eq)]
pub enum EvaluatorState {
    /// Nothing has been computed.
    Start,
    /// The signed digest has been rederived; the signer is to be recovered.
    RecoverSigner { digest: [u8; 32] },
    /// A candidate signer, or none, has been recovered and is to be
    /// checked against the claimed signer.
    CheckSigner { digest: [u8; 32], candidate: Option<[u8; 20]> },
    /// The signer is confirmed; the predicate is to be evaluated.
    EvaluatePredicate { digest: [u8; 32] },
    /// Both gates are passed; the journal is to be built.
    CommitJournal { digest: [u8; 32] },
    /// The journal exists.
    Done { journal: PublicJournal },
    /// The evaluation has failed; there is no journal.
    Aborted { error: AttestError },
}

/// A state as plain values.
pub enum StateView {
    Start,
    RecoverSigner { digest: Seq<u8> },
    CheckSigner { digest: Seq<u8>, candidate: Option<Seq<u8>> },
    EvaluatePredicate { digest: Seq<u8> },
    CommitJournal { digest: Seq<u8> },
    Done { journal: JournalView },
    Aborted { error: AttestError },
}

/// An optional address as plain values.
pub open spec fn candidate_view(candidate: Option<[u8; 20]>) -> Option<Seq<u8>> {
    match candidate {
        Some(address) => Some(address@),
        None => None,
    }
}

impl View for EvaluatorState {
    type V = StateView;

    open spec fn view(&self) -> StateView {
        match *self {
            EvaluatorState::Start => StateView::Start,
            EvaluatorState::RecoverSigner { digest } => StateView::RecoverSigner { digest: digest@ },
            EvaluatorState::CheckSigner { digest, candidate } => StateView::CheckSigner {
                digest: digest@,
                candidate: candidate_view(candidate),
            },
            EvaluatorState::EvaluatePredicate { digest } => StateView::EvaluatePredicate {
                digest: digest@,
            },
            EvaluatorState::CommitJournal { digest } => StateView::CommitJournal { digest: digest@ },
            EvaluatorState::Done { journal } => StateView::Done { journal: journal@ },
            EvaluatorState::Aborted { error } => StateView::Aborted { error },
        }
    }
}

impl StateView {
    /// Whether the evaluation has ended.
    pub open spec fn is_terminal(self) -> bool {
        self is Done || self is Aborted
    }

    /// The position of a state in the pass: every transition from a state
    /// that is not terminal leads to a higher position.
    pub open spec fn position(self) -> nat {
        match self {
            StateView::Start => 0,
            StateView::RecoverSigner { .. } => 1,
            StateView::CheckSigner { .. } => 2,
            StateView::EvaluatePredicate { .. } => 3,
            StateView::CommitJournal { .. } => 4,
            StateView::Done { .. } => 5,
            StateView::Aborted { .. } => 5,
        }
    }
}

/// The digest that the witness's signature has to be over.
pub open spec fn witness_digest(witness: WitnessView) -> Seq<u8> {
    hash_message_spec(witness.domain_separator, witness.message)
}

/// The age of the attested person at the reference time, from the birth
/// date in the message's data; an input error where the data or the
/// reference time is malformed.
pub open spec fn witness_age(witness: WitnessView) -> Result<i64, AttestError> {
    match date_of_birth_of(witness.message.data) {
        Err(error) => Err(error),
        Ok(birth) => match reference_date_spec(witness.reference_timestamp) {
            Err(error) => Err(error),
            Ok(today) => calculate_age_spec(birth, today),
        },
    }
}

/// The signer gate: passed exactly where a candidate was recovered and is
/// the claimed signer, byte for byte.
pub open spec fn signer_gate(claimed: Seq<u8>, candidate: Option<Seq<u8>>) -> Result<
    (),
    AttestError,
> {
    if candidate == Some(claimed) {
        Ok(())
    } else {
        Err(AttestError::SignatureMismatch)
    }
}

/// The predicate gate: passed exactly where the age was computed and
/// reaches the threshold.
pub open spec fn predicate_gate(age: Result<i64, AttestError>, threshold_age: u8) -> Result<
    (),
    AttestError,
> {
    match age {
        Err(error) => Err(error),
        Ok(years) => if years >= threshold_age {
            Ok(())
        } else {
            Err(AttestError::PredicateFailure)
        },
    }
}

/// The journal that a witness commits to under a digest: the disclosed
/// fields of the witness and the digest, nothing of the birth date or the
/// signature.
pub open spec fn journal_of(witness: WitnessView, digest: Seq<u8>) -> JournalView {
    JournalView {
        signer: witness.signer,
        threshold_age: witness.threshold_age,
        reference_timestamp: witness.reference_timestamp,
        binding_hash: digest,
    }
}

/// One transition of the evaluation of `witness`.
pub open spec fn transition(witness: WitnessView, state: StateView) -> StateView {
    match state {
        StateView::Start => StateView::RecoverSigner { digest: witness_digest(witness) },
        StateView::RecoverSigner { digest } => StateView::CheckSigner {
            digest,
            candidate: candidate_signer(witness.signature, digest),
        },
        StateView::CheckSigner { digest, candidate } => match signer_gate(
            witness.signer,
            candidate,
        ) {
            Ok(_) => StateView::EvaluatePredicate { digest },
            Err(error) => StateView::Aborted { error },
        },
        StateView::EvaluatePredicate { digest } => match predicate_gate(
            witness_age(witness),
            witness.threshold_age,
        ) {
            Ok(_) => StateView::CommitJournal { digest },
            Err(error) => StateView::Aborted { error },
        },
        StateView::CommitJournal { digest } => StateView::Done {
            journal: journal_of(witness, digest),
        },
        StateView::Done { journal } => StateView::Done { journal },
        StateView::Aborted { error } => StateView::Aborted { error },
    }
}

/// The state after `steps` transitions.
pub open spec fn run(witness: WitnessView, state: StateView, steps: nat) -> StateView
    decreases steps,
{
    if steps == 0 {
        state
    } else {
        run(witness, transition(witness, state), (steps - 1) as nat)
    }
}

/// The outcome of an evaluation. The signer is checked first; then the age
/// is computed and held against the threshold; the journal exists only
/// where both gates are passed.
pub open spec fn evaluation(witness: WitnessView) -> Result<JournalView, AttestError> {
    match signer_gate(
        witness.signer,
        candidate_signer(witness.signature, witness_digest(witness)),
    ) {
        Err(error) => Err(error),
        Ok(_) => match predicate_gate(witness_age(witness), witness.threshold_age) {
            Err(error) => Err(error),
            Ok(_) => Ok(journal_of(witness, witness_digest(witness))),
        },
    }
}

/// Checks a recovered candidate against the claimed signer.
pub fn check_signer(claimed: &[u8; 20], candidate: &Option<[u8; 20]>) -> (gate: Result<
    (),
    AttestError,
>)
    ensures
        gate == signer_gate(claimed@, candidate_view(*candidate)),
{
    match candidate {
        Some(address) => {
            if same_bytes(address, claimed) {
                Ok(())
            } else {
                Err(AttestError::SignatureMismatch)
            }
        },
        None => Err(AttestError::SignatureMismatch),
    }
}

/// Holds an age, or the failure to compute one, against the threshold.
pub fn check_threshold(age: Result<i64, AttestError>, threshold_age: u8) -> (gate: Result<
    (),
    AttestError,
>)
    ensures
        gate == predicate_gate(age, threshold_age),
{
    match age {
        Err(error) => Err(error),
        Ok(years) => {
            if years >= threshold_age as i64 {
                Ok(())
            } else {
                Err(AttestError::PredicateFailure)
            }
        },
    }
}

/// Builds the journal of a witness under a digest.
pub fn commit_journal(witness: &PredicateWitness, digest: [u8; 32]) -> (journal: PublicJournal)
    ensures
        journal@ == journal_of(witness@, digest@),
{
    PublicJournal {
        signer: witness.signer,
        threshold_age: witness.threshold_age,
        reference_timestamp: witness.reference_timestamp,
        binding_hash: digest,
    }
}

/// Computes the age of the attested person at the reference time of the
/// witness.
pub fn age_of_witness(witness: &PredicateWitness) -> (age: Result<i64, AttestError>)
    ensures
        age == witness_age(witness@),
{
    let birth = match decode_date_of_birth(&witness.message.data) {
        Ok(birth) => birth,
        Err(error) => {
            return Err(error);
        },
    };
    let today = match reference_date(witness.reference_timestamp) {
        Ok(today) => today,
        Err(error) => {
            return Err(error);
        },
    };
    calculate_age(&birth, &today)
}

/// Makes one transition of the evaluation of `witness`.
pub fn advance(witness: &PredicateWitness, state: EvaluatorState) -> (next: EvaluatorState)
    ensures
        next@ == transition(witness@, state@),
{
    match state {
        EvaluatorState::Start => EvaluatorState::RecoverSigner {
            digest: hash_message(&witness.domain_separator, &witness.message),
        },
        EvaluatorState::RecoverSigner { digest } => EvaluatorState::CheckSigner {
            digest,
            candidate: recover_candidate(&witness.signature, &digest),
        },
        EvaluatorState::CheckSigner { digest, candidate } => match check_signer(
            &witness.signer,
            &candidate,
        ) {
            Ok(_) => EvaluatorState::EvaluatePredicate { digest },
            Err(error) => EvaluatorState::Aborted { error },
        },
        EvaluatorState::EvaluatePredicate { digest } => match check_threshold(
            age_of_witness(witness),
            witness.threshold_age,
        ) {
            Ok(_) => EvaluatorState::CommitJournal { digest },
            Err(error) => EvaluatorState::Aborted { error },
        },
        EvaluatorState::CommitJournal { digest } => EvaluatorState::Done {
            journal: commit_journal(witness, digest),
        },
        EvaluatorState::Done { journal } => EvaluatorState::Done { journal },
        EvaluatorState::Aborted { error } => EvaluatorState::Aborted { error },
    }
}

/// Five transitions from `Start` end the evaluation, in `Done` with the
/// journal where it succeeds and in `Aborted` with the error where it
/// fails.
pub proof fn lemma_run_reaches_outcome(witness: WitnessView)
    ensures
        run(witness, StateView::Start, 5) == match evaluation(witness) {
            Ok(journal) => StateView::Done { journal },
            Err(error) => StateView::Aborted { error },
        },
{
    reveal_with_fuel(run, 6);
}

/// Evaluates a witness: recovers and checks the signer, evaluates the
/// threshold predicate and builds the journal.
pub fn evaluate(witness: &PredicateWitness) -> (outcome: Result<PublicJournal, AttestError>)
    ensures
        result_view(outcome) == evaluation(witness@),
{
    let mut state = EvaluatorState::Start;
    let mut steps: usize = 0;
    while steps < 5
        invariant
            steps <= 5,
            run(witness@, state@, (5 - steps) as nat) == run(witness@, StateView::Start, 5),
        decreases 5 - steps,
    {
        state = advance(witness, state);
        steps = steps + 1;
    }
    proof {
        lemma_run_reaches_outcome(witness@);
    }
    match state {
        EvaluatorState::Done { journal } => Ok(journal),
        EvaluatorState::Aborted { error } => Err(error),
        // Five transitions end every evaluation: no other state is left.
        _ => Err(AttestError::SignatureMismatch),
    }
}

} // verus!
