//! What holds of the pipeline as a whole, stated over the same models as
//! the contracts of its functions.

use vstd::prelude::*;
use crate::calendar::{
    age_in_years, calculate_age_spec, comes_before, date_exists, lemma_birthday_in_reference_year,
    ordinal_in_year, CalendarDate, DateOfBirth,
};
use crate::errors::AttestError;
use crate::evaluator::{
    evaluation, journal_of, predicate_gate, run, signer_gate, transition, witness_age,
    witness_digest, StateView,
};
use crate::journal::{
    journal_bytes, journal_from_bytes, lemma_journal_bytes_unique, lemma_journal_round_trip,
    JournalView,
};
use crate::orchestrator::{decision, ActionView, EventView, OrchestratorState};
use crate::program_id::{
    hex_text, identity_of_text, le_bytes_of_words, le_words_of_bytes,
    lemma_hex_text_is_parsed_back, lemma_words_round_trip,
};
use crate::signature::candidate_signer;
use crate::typed_data::{
    digest_components_spec, signing_digest_spec, typed_data_digest_spec, AttestView, DomainView,
};
use crate::witness::{
    lemma_witness_bytes_unique, lemma_witness_round_trip, witness_bytes, witness_from_bytes,
    WitnessView,
};
use crate::word::{
    be_value, lemma_number_bytes_of_zero, lemma_number_bytes_split, lemma_number_bytes_tail,
    lemma_number_bytes_len, lemma_number_bytes_value, number_bytes, uint_word, without_low_bytes,
};

verus! {

/// The signing digest is a function of the domain and the message: two
/// computations on the same domain and message give the same bytes.
pub proof fn law_signing_digest_is_deterministic(
    domain: DomainView,
    message: AttestView,
    first: Seq<u8>,
    second: Seq<u8>,
)
    requires
        first == typed_data_digest_spec(domain, message),
        second == typed_data_digest_spec(domain, message),
    ensures
        first == second,
{
}

/// The signing digest is made of its two components and of nothing else:
/// combining the components of a message in a domain gives the digest of
/// the message in the domain.
pub proof fn law_digest_is_made_of_its_components(domain: DomainView, message: AttestView)
    ensures
        signing_digest_spec(
            digest_components_spec(domain, message).domain_separator,
            digest_components_spec(domain, message).message_digest,
        ) == typed_data_digest_spec(domain, message),
{
}

/// A number of at most 64 bits has one word: the 32 bytes that the parser
/// of numbers gives for it are the 32 bytes that are encoded for it.
pub proof fn law_numbers_have_one_word(value: u64)
    ensures
        number_bytes(value as nat, 32) == uint_word(value),
{
    lemma_number_bytes_split(value as nat, 24, 8);
    lemma_number_bytes_tail(value);
    lemma_number_bytes_of_zero(24);
}

/// Where the signature does not recover to the claimed signer, the
/// evaluation ends in `Aborted` with a signature mismatch, and a
/// submission of the witness fails without the engine being asked for a
/// proof.
pub proof fn law_signer_mismatch_aborts(witness: WitnessView)
    requires
        candidate_signer(witness.signature, witness_digest(witness)) != Some(witness.signer),
    ensures
        evaluation(witness) == Err::<JournalView, AttestError>(AttestError::SignatureMismatch),
        run(witness, StateView::Start, 5) == (StateView::Aborted {
            error: AttestError::SignatureMismatch,
        }),
        decision(OrchestratorState::Idle, EventView::Submit { witness }) == (
            OrchestratorState::Failed,
            ActionView::Fail { error: AttestError::SignatureMismatch },
        ),
{
    reveal_with_fuel(run, 6);
}

/// An evaluation succeeds exactly where both gates are passed: the
/// signature recovers to the claimed signer, and the age is computed and
/// reaches the threshold. The journal is then made of the disclosed
/// fields of the witness and of the signed digest, and of nothing else.
pub proof fn law_journal_needs_both_gates(witness: WitnessView)
    ensures
        evaluation(witness) is Ok <==> {
            &&& candidate_signer(witness.signature, witness_digest(witness)) == Some(
                witness.signer,
            )
            &&& witness_age(witness) is Ok
            &&& witness_age(witness)->Ok_0 >= witness.threshold_age
        },
        evaluation(witness) is Ok ==> evaluation(witness)->Ok_0 == journal_of(
            witness,
            witness_digest(witness),
        ),
{
}

/// A witness below the threshold yields no journal, and a submission of it
/// fails with a predicate failure without the engine being asked for a
/// proof.
pub proof fn law_predicate_failure_aborts(witness: WitnessView)
    requires
        candidate_signer(witness.signature, witness_digest(witness)) == Some(witness.signer),
        witness_age(witness) is Ok,
        witness_age(witness)->Ok_0 < witness.threshold_age,
    ensures
        evaluation(witness) == Err::<JournalView, AttestError>(AttestError::PredicateFailure),
        decision(OrchestratorState::Idle, EventView::Submit { witness }) == (
            OrchestratorState::Failed,
            ActionView::Fail { error: AttestError::PredicateFailure },
        ),
{
}

/// Two witnesses that differ in nothing but the signature commit to the
/// same journal, where both evaluations succeed.
pub proof fn law_journal_is_free_of_the_signature(first: WitnessView, second: WitnessView)
    requires
        first.signer == second.signer,
        first.domain_separator == second.domain_separator,
        first.message == second.message,
        first.threshold_age == second.threshold_age,
        first.reference_timestamp == second.reference_timestamp,
        evaluation(first) is Ok,
        evaluation(second) is Ok,
    ensures
        evaluation(first) == evaluation(second),
{
}

/// An evaluation is a single pass: every transition from a state that is
/// not terminal leads to a later state, terminal states stay as they are,
/// and only the two gates lead to `Aborted`.
pub proof fn law_evaluation_is_a_single_pass(witness: WitnessView, state: StateView)
    ensures
        !state.is_terminal() ==> transition(witness, state).position() > state.position(),
        state.is_terminal() ==> transition(witness, state) == state,
        transition(witness, state) is Aborted && !(state is Aborted) ==> state is CheckSigner
            || state is EvaluatePredicate,
{
}

/// The age on a reference date is the difference of the years, less one
/// while the birthday of the reference year has not yet come: where the
/// month and day of the reference date come before the month and day of
/// birth, which is where the reference date's day of the year comes before
/// the day of the year on which the birthday falls in the reference year.
/// This holds wherever both dates exist.
pub proof fn law_age_formula(birth: DateOfBirth, reference: CalendarDate)
    requires
        date_exists(birth.year as int, birth.month as int, birth.day as int),
        date_exists(reference.year as int, reference.month as int, reference.day as int),
    ensures
        calculate_age_spec(birth, reference) is Ok,
        calculate_age_spec(birth, reference)->Ok_0 == reference.year - birth.year - if comes_before(
            reference.month as int,
            reference.day as int,
            birth.month as int,
            birth.day as int,
        ) {
            1int
        } else {
            0int
        },
        calculate_age_spec(birth, reference)->Ok_0 == reference.year - birth.year - if ordinal_in_year(
            reference.year as int,
            reference.month as int,
            reference.day as int,
        ) < ordinal_in_year(reference.year as int, birth.month as int, birth.day as int) {
            1int
        } else {
            0int
        },
{
    lemma_birthday_in_reference_year(birth, reference);
    assert(age_in_years(birth, reference) == age_in_years(birth, reference) as i64);
}

/// On the birthday itself the age is the difference of the years, and on
/// the day before it is one less, whatever the lengths of the two years.
pub proof fn law_age_turns_on_the_birthday(birth: DateOfBirth, reference: CalendarDate)
    requires
        date_exists(birth.year as int, birth.month as int, birth.day as int),
        date_exists(reference.year as int, reference.month as int, reference.day as int),
        reference.month == birth.month,
    ensures
        reference.day >= birth.day ==> calculate_age_spec(birth, reference) == Ok::<
            i64,
            AttestError,
        >((reference.year - birth.year) as i64),
        reference.day < birth.day ==> calculate_age_spec(birth, reference) == Ok::<
            i64,
            AttestError,
        >((reference.year - birth.year - 1) as i64),
{
}

/// Verifying is a function of what the engine reports: the same journal
/// bytes from a verified receipt give the same outcome every time.
pub proof fn law_verification_is_repeatable(
    journal: Seq<u8>,
    first: (OrchestratorState, ActionView),
    second: (OrchestratorState, ActionView),
)
    requires
        first == decision(OrchestratorState::Verifying, EventView::ReceiptVerified { journal }),
        second == decision(OrchestratorState::Verifying, EventView::ReceiptVerified { journal }),
    ensures
        first == second,
        journal_from_bytes(journal) matches Ok(decoded) ==> first == (
            OrchestratorState::Delivered,
            ActionView::Deliver { journal: decoded },
        ),
{
}

/// A journal is delivered only for a receipt that the engine has verified
/// while the request was waiting for that.
pub proof fn law_delivery_needs_verification(state: OrchestratorState, event: EventView)
    requires
        decision(state, event).1 is Deliver,
    ensures
        state == OrchestratorState::Verifying,
        event is ReceiptVerified,
        journal_from_bytes(event->ReceiptVerified_journal) == Ok::<JournalView, AttestError>(
            decision(state, event).1->Deliver_journal,
        ),
        decision(state, event).0 == OrchestratorState::Delivered,
{
}

/// The engine is asked for a proof only for a submitted witness whose
/// evaluation succeeds.
pub proof fn law_proof_needs_evaluation(state: OrchestratorState, event: EventView)
    requires
        decision(state, event).1 is Prove,
    ensures
        state == OrchestratorState::Idle,
        event is Submit,
        evaluation(event->Submit_witness) is Ok,
{
}

/// What the engine is handed is the submitted witness and nothing else:
/// the bytes of a proof request decode to the witness that was submitted,
/// so that the evaluation inside the engine is the evaluation that was
/// made before the request.
pub proof fn law_engine_gets_the_submitted_witness(witness: WitnessView)
    requires
        witness.well_formed(),
        decision(OrchestratorState::Idle, EventView::Submit { witness }).1 is Prove,
    ensures
        witness_from_bytes(
            decision(OrchestratorState::Idle, EventView::Submit { witness }).1->Prove_witness,
        ) == Ok::<WitnessView, AttestError>(witness),
{
    lemma_witness_round_trip(witness);
}

/// What is delivered is the committed journal and nothing else: the bytes
/// of a journal, reported with a verified receipt, deliver that journal.
pub proof fn law_committed_journal_is_delivered(journal: JournalView)
    requires
        journal.well_formed(),
    ensures
        decision(
            OrchestratorState::Verifying,
            EventView::ReceiptVerified { journal: journal_bytes(journal) },
        ) == (OrchestratorState::Delivered, ActionView::Deliver { journal }),
{
    lemma_journal_round_trip(journal);
}

/// The wire holds a journal in one way only: decoding the bytes of a
/// journal gives the journal back, and bytes that decode to a journal are
/// the bytes of that journal.
pub proof fn law_journal_bytes_are_canonical(journal: JournalView, bytes: Seq<u8>)
    ensures
        journal.well_formed() ==> journal_from_bytes(journal_bytes(journal)) == Ok::<
            JournalView,
            AttestError,
        >(journal),
        journal_from_bytes(bytes) matches Ok(decoded) ==> decoded.well_formed() && journal_bytes(
            decoded,
        ) == bytes,
{
    if journal.well_formed() {
        lemma_journal_round_trip(journal);
    }
    if journal_from_bytes(bytes) is Ok {
        lemma_journal_bytes_unique(bytes);
    }
}

/// The wire holds a witness in one way only: decoding the bytes of a
/// witness gives the witness back, and bytes that decode to a witness are
/// the bytes of that witness.
pub proof fn law_witness_bytes_are_canonical(witness: WitnessView, bytes: Seq<u8>)
    ensures
        witness.well_formed() ==> witness_from_bytes(witness_bytes(witness)) == Ok::<
            WitnessView,
            AttestError,
        >(witness),
        witness_from_bytes(bytes) matches Ok(decoded) ==> decoded.well_formed() && witness_bytes(
            decoded,
        ) == bytes,
{
    if witness.well_formed() {
        lemma_witness_round_trip(witness);
    }
    if witness_from_bytes(bytes) is Ok {
        lemma_witness_bytes_unique(bytes);
    }
}

/// The bytes of a number are as many as are asked for, and where the
/// number fits them they are its big-endian form: read back as a number,
/// they give the number.
pub proof fn law_number_bytes_are_big_endian(number: nat, len: nat)
    ensures
        number_bytes(number, len).len() == len,
        without_low_bytes(number, len) == 0 ==> be_value(number_bytes(number, len)) == number,
{
    lemma_number_bytes_len(number, len);
    if without_low_bytes(number, len) == 0 {
        lemma_number_bytes_value(number, len);
    }
}

/// A program identity is read the way it is written: the words of the
/// bytes of an identity are the identity, and the text that `guest_id`
/// writes for an identity denotes that identity.
pub proof fn law_identity_is_read_as_written(identity: Seq<u32>)
    requires
        identity.len() == 8,
    ensures
        le_words_of_bytes(le_bytes_of_words(identity)) == identity,
        identity_of_text(hex_text(le_bytes_of_words(identity))) == Some(identity),
{
    lemma_words_round_trip(identity);
    lemma_hex_text_is_parsed_back(le_bytes_of_words(identity));
}

/// The state that a request is in after a series of events.
pub open spec fn state_after(state: OrchestratorState, events: Seq<EventView>) -> OrchestratorState
    decreases events.len(),
{
    if events.len() == 0 {
        state
    } else {
        state_after(decision(state, events.first()).0, events.drop_first())
    }
}

/// A request that has ended stays as it ended, whatever is reported
/// later: after a failure no receipt comes to exist and no journal is
/// delivered.
pub proof fn law_ended_requests_stay_ended(state: OrchestratorState, events: Seq<EventView>)
    requires
        state.is_terminal(),
    ensures
        state_after(state, events) == state,
        forall|event: EventView| (#[trigger] decision(state, event)) == (state, ActionView::Halt),
    decreases events.len(),
{
    if events.len() > 0 {
        law_ended_requests_stay_ended(state, events.drop_first());
    }
}

/// The two gates as one: what the evaluation returns is what the gates
/// return, the signer gate first.
pub proof fn law_gates_in_order(witness: WitnessView)
    ensures
        signer_gate(
            witness.signer,
            candidate_signer(witness.signature, witness_digest(witness)),
        ) is Err ==> evaluation(witness) == Err::<JournalView, AttestError>(
            AttestError::SignatureMismatch,
        ),
        signer_gate(
            witness.signer,
            candidate_signer(witness.signature, witness_digest(witness)),
        ) is Ok && predicate_gate(witness_age(witness), witness.threshold_age) is Err
            ==> evaluation(witness) == Err::<JournalView, AttestError>(
            predicate_gate(witness_age(witness), witness.threshold_age)->Err_0,
        ),
{
}

} // verus!
