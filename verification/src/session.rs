//! The session state machine.
//!
//! A session starts uninitialized. A successful setup makes it ready, and it
//! stays ready from then on: proofs can be generated and verified any number
//! of times, and a later setup replaces the circuit and its proving key.
//!
//! The proving engine runs outside this crate, so every operation has two
//! steps. The first step decides whether the engine is asked at all and with
//! what; it returns the request, or the error that ends the operation. The
//! second step takes the engine's answer and returns what the caller gets.
//!
//! | operation      | first step                       | second step                              |
//! |----------------|----------------------------------|------------------------------------------|
//! | setup          | [`MoproCircom::setup`]           | [`MoproCircom::complete_setup`]          |
//! | generate proof | [`MoproCircom::generate_proof`]  | [`MoproCircom::complete_proof`]          |
//! | verify proof   | [`MoproCircom::verify_proof`]    | [`MoproCircom::complete_verification`]   |
//!
//! # Access
//!
//! Setup and proof generation take the session by `&mut`: they need the
//! session for themselves, because the key may be replaced and because the
//! engine's witness computation is not re-entrant. Verification takes it by
//! `&`: any number of verifications may run side by side. A caller that shares
//! a session between threads keeps it behind a reader/writer lock and holds
//! the lock over both steps of an operation.

use crate::codec::{
    deserialize_inputs,
    deserialize_proof,
    frame,
    lemma_frame_of_parse_frame,
    lemma_parse_frame_of_frame,
    parse_frame,
    serialize_inputs,
    serialize_proof,
    serialize_proving_key,
    ArtifactKind,
    Proof,
    ProvingKey,
    PublicInputs,
};
use crate::encoder::{encode_inputs, encoded_signals, entries_view, SignalEntry, SignalEntryView};
use crate::error::{outcome_view, DecodeError, MoproError, MoproErrorView};
use crate::inputs::CircuitInputs;
use vstd::prelude::*;

verus! {

/// The compiled circuit of a session: the program that computes a witness and
/// the description of the constraint system, each named by its path.
#[derive(Debug)]
pub struct CircuitReference {
    pub wasm_path: String,
    pub r1cs_path: String,
}

/// What a circuit reference holds.
pub struct CircuitReferenceView {
    pub wasm_path: Seq<char>,
    pub r1cs_path: Seq<char>,
}

impl View for CircuitReference {
    type V = CircuitReferenceView;

    open spec fn view(&self) -> CircuitReferenceView {
        CircuitReferenceView { wasm_path: self.wasm_path@, r1cs_path: self.r1cs_path@ }
    }
}

/// The state of a session.
pub enum SessionState {
    /// No setup has succeeded yet.
    Uninitialized,
    /// The session holds the circuit and the proving key of the last
    /// successful setup.
    Ready { circuit: CircuitReferenceView, proving_key: Seq<u8> },
}

/// What a successful setup returns: the frame of the proving key.
#[allow(non_snake_case)]
#[derive(Debug)]
pub struct SetupResult {
    pub provingKey: Vec<u8>,
}

impl View for SetupResult {
    type V = Seq<u8>;

    open spec fn view(&self) -> Seq<u8> {
        self.provingKey@
    }
}

/// What a successful proof generation returns: the frames of the proof and of
/// its public inputs.
#[derive(Debug)]
pub struct GenerateProofResult {
    pub proof: Vec<u8>,
    pub inputs: Vec<u8>,
}

/// What a proof generation result holds.
pub struct GenerateProofResultView {
    pub proof: Seq<u8>,
    pub inputs: Seq<u8>,
}

impl View for GenerateProofResult {
    type V = GenerateProofResultView;

    open spec fn view(&self) -> GenerateProofResultView {
        GenerateProofResultView { proof: self.proof@, inputs: self.inputs@ }
    }
}

impl Clone for SetupResult {
    fn clone(&self) -> (copy: Self)
        ensures
            copy@ == self@,
    {
        SetupResult { provingKey: self.provingKey.clone() }
    }
}

impl Clone for GenerateProofResult {
    fn clone(&self) -> (copy: Self)
        ensures
            copy@ == self@,
    {
        GenerateProofResult { proof: self.proof.clone(), inputs: self.inputs.clone() }
    }
}

/// Asks the proving engine to load a circuit and derive its proving key.
#[derive(Debug)]
pub struct SetupRequest {
    pub circuit: CircuitReference,
}

impl View for SetupRequest {
    type V = CircuitReferenceView;

    open spec fn view(&self) -> CircuitReferenceView {
        self.circuit@
    }
}

/// Asks the proving engine to compute a witness from the inputs and to prove
/// it with the session's key. The circuit and the key are borrowed from the
/// session.
#[derive(Debug)]
pub struct ProofRequest<'a> {
    pub circuit: &'a CircuitReference,
    pub proving_key: &'a ProvingKey,
    pub inputs: Vec<SignalEntry>,
}

/// What a proof request holds.
pub struct ProofRequestView {
    pub circuit: CircuitReferenceView,
    pub proving_key: Seq<u8>,
    pub inputs: Seq<SignalEntryView>,
}

impl<'a> View for ProofRequest<'a> {
    type V = ProofRequestView;

    open spec fn view(&self) -> ProofRequestView {
        ProofRequestView {
            circuit: self.circuit@,
            proving_key: self.proving_key@,
            inputs: entries_view(self.inputs@),
        }
    }
}

/// Asks the proving engine to check a proof against its public inputs with
/// the session's key, which is borrowed from the session.
#[derive(Debug)]
pub struct VerifyRequest<'a> {
    pub proving_key: &'a ProvingKey,
    pub proof: Proof,
    pub public_inputs: PublicInputs,
}

/// What a verification request holds.
pub struct VerifyRequestView {
    pub proving_key: Seq<u8>,
    pub proof: Seq<u8>,
    pub public_inputs: Seq<u8>,
}

impl<'a> View for VerifyRequest<'a> {
    type V = VerifyRequestView;

    open spec fn view(&self) -> VerifyRequestView {
        VerifyRequestView {
            proving_key: self.proving_key@,
            proof: self.proof@,
            public_inputs: self.public_inputs@,
        }
    }
}

/// The state after the engine has answered a setup request: a key makes the
/// session ready for the requested circuit, a failure changes nothing.
pub open spec fn state_after_setup(
    state: SessionState,
    circuit: CircuitReferenceView,
    answer: Result<Seq<u8>, Seq<char>>,
) -> SessionState {
    match answer {
        Ok(proving_key) => SessionState::Ready { circuit, proving_key },
        Err(_) => state,
    }
}

/// What setup returns once the engine has answered: the frame of the new key,
/// or the engine's failure.
pub open spec fn setup_outcome(answer: Result<Seq<u8>, Seq<char>>) -> Result<
    Seq<u8>,
    MoproErrorView,
> {
    match answer {
        Ok(proving_key) => Ok(frame(ArtifactKind::ProvingKey, proving_key)),
        Err(message) => Err(MoproErrorView::BackendError(message)),
    }
}

/// The first step of proof generation: a session that is not ready refuses,
/// a ready one asks the engine with its circuit, its key and the encoded
/// inputs.
pub open spec fn proof_decision(state: SessionState, signals: Seq<(Seq<char>, Seq<i32>)>) -> Result<
    ProofRequestView,
    MoproErrorView,
> {
    match state {
        SessionState::Uninitialized => Err(MoproErrorView::NotReadyError),
        SessionState::Ready { circuit, proving_key } => Ok(
            ProofRequestView { circuit, proving_key, inputs: encoded_signals(signals) },
        ),
    }
}

/// What proof generation returns once the engine has answered: the frames of
/// the proof and of its public inputs, or the engine's failure.
pub open spec fn proof_outcome(
    state: SessionState,
    answer: Result<(Seq<u8>, Seq<u8>), Seq<char>>,
) -> Result<GenerateProofResultView, MoproErrorView> {
    match state {
        SessionState::Uninitialized => Err(MoproErrorView::NotReadyError),
        SessionState::Ready { .. } => match answer {
            Ok((proof, public_inputs)) => Ok(
                GenerateProofResultView {
                    proof: frame(ArtifactKind::Proof, proof),
                    inputs: frame(ArtifactKind::PublicInputs, public_inputs),
                },
            ),
            Err(message) => Err(MoproErrorView::BackendError(message)),
        },
    }
}

/// The first step of verification: a session that is not ready refuses; a
/// ready one decodes the proof, then the public inputs, and asks the engine
/// with its key and what the two buffers hold.
pub open spec fn verify_decision(
    state: SessionState,
    proof: Seq<u8>,
    public_input: Seq<u8>,
) -> Result<VerifyRequestView, MoproErrorView> {
    match state {
        SessionState::Uninitialized => Err(MoproErrorView::NotReadyError),
        SessionState::Ready { proving_key, .. } => match parse_frame(ArtifactKind::Proof, proof) {
            Err(reason) => Err(MoproErrorView::DecodeError(reason)),
            Ok(proof) => match parse_frame(ArtifactKind::PublicInputs, public_input) {
                Err(reason) => Err(MoproErrorView::DecodeError(reason)),
                Ok(public_inputs) => Ok(VerifyRequestView { proving_key, proof, public_inputs }),
            },
        },
    }
}

/// What verification returns once the engine has answered: the engine's
/// verdict, or the engine's failure. A proof that does not hold is the
/// verdict `false`, not a failure.
pub open spec fn verify_outcome(state: SessionState, answer: Result<bool, Seq<char>>) -> Result<
    bool,
    MoproErrorView,
> {
    match state {
        SessionState::Uninitialized => Err(MoproErrorView::NotReadyError),
        SessionState::Ready { .. } => match answer {
            Ok(verdict) => Ok(verdict),
            Err(message) => Err(MoproErrorView::BackendError(message)),
        },
    }
}

/// What the engine's answer to a setup request holds.
pub open spec fn setup_answer_view(answer: Result<ProvingKey, String>) -> Result<
    Seq<u8>,
    Seq<char>,
> {
    match answer {
        Ok(proving_key) => Ok(proving_key@),
        Err(message) => Err(message@),
    }
}

/// What the engine's answer to a proof request holds.
pub open spec fn proof_answer_view(answer: Result<(Proof, PublicInputs), String>) -> Result<
    (Seq<u8>, Seq<u8>),
    Seq<char>,
> {
    match answer {
        Ok((proof, public_inputs)) => Ok((proof@, public_inputs@)),
        Err(message) => Err(message@),
    }
}

/// What the engine's answer to a verification request holds.
pub open spec fn verify_answer_view(answer: Result<bool, String>) -> Result<bool, Seq<char>> {
    match answer {
        Ok(verdict) => Ok(verdict),
        Err(message) => Err(message@),
    }
}

/// A session that has not been set up asks nothing of the engine: both steps
/// of proof generation and of verification fail with `NotReadyError`,
/// whatever inputs, buffers or answers they are given. A failed setup keeps
/// such a session uninitialized.
pub proof fn lemma_uninitialized_session_refuses(
    signals: Seq<(Seq<char>, Seq<i32>)>,
    proof: Seq<u8>,
    public_input: Seq<u8>,
    proof_answer: Result<(Seq<u8>, Seq<u8>), Seq<char>>,
    verify_answer: Result<bool, Seq<char>>,
    circuit: CircuitReferenceView,
    message: Seq<char>,
)
    ensures
        proof_decision(SessionState::Uninitialized, signals) == Err::<
            ProofRequestView,
            MoproErrorView,
        >(MoproErrorView::NotReadyError),
        proof_outcome(SessionState::Uninitialized, proof_answer) == Err::<
            GenerateProofResultView,
            MoproErrorView,
        >(MoproErrorView::NotReadyError),
        verify_decision(SessionState::Uninitialized, proof, public_input) == Err::<
            VerifyRequestView,
            MoproErrorView,
        >(MoproErrorView::NotReadyError),
        verify_outcome(SessionState::Uninitialized, verify_answer) == Err::<bool, MoproErrorView>(
            MoproErrorView::NotReadyError,
        ),
        state_after_setup(SessionState::Uninitialized, circuit, Err(message))
            == SessionState::Uninitialized,
{
}

/// The state after a run of setups, oldest first, each with the engine's
/// answer to it.
pub open spec fn state_after_setups(
    state: SessionState,
    setups: Seq<(CircuitReferenceView, Result<Seq<u8>, Seq<char>>)>,
) -> SessionState
    decreases setups.len(),
{
    if setups.len() == 0 {
        state
    } else {
        state_after_setup(
            state_after_setups(state, setups.drop_last()),
            setups.last().0,
            setups.last().1,
        )
    }
}

/// A ready session stays ready, whatever setups follow and however the
/// engine answers them.
pub proof fn lemma_ready_is_terminal(
    state: SessionState,
    setups: Seq<(CircuitReferenceView, Result<Seq<u8>, Seq<char>>)>,
)
    requires
        state is Ready,
    ensures
        state_after_setups(state, setups) is Ready,
    decreases setups.len(),
{
    if setups.len() > 0 {
        lemma_ready_is_terminal(state, setups.drop_last());
    }
}

/// Setups that all fail leave the state as it was: a session on which no
/// setup has succeeded is uninitialized, and a ready session keeps its
/// circuit and its key.
pub proof fn lemma_failed_setups_change_nothing(
    state: SessionState,
    setups: Seq<(CircuitReferenceView, Result<Seq<u8>, Seq<char>>)>,
)
    requires
        forall|i: int| 0 <= i < setups.len() ==> (#[trigger] setups[i]).1 is Err,
    ensures
        state_after_setups(state, setups) == state,
    decreases setups.len(),
{
    if setups.len() > 0 {
        let earlier = setups.drop_last();
        assert forall|i: int| 0 <= i < earlier.len() implies (#[trigger] earlier[i]).1 is Err
        by {}
        lemma_failed_setups_change_nothing(state, earlier);
    }
}

/// The last setup that succeeded decides the state: the session is ready for
/// that setup's circuit with the key the engine answered, whatever it held
/// before.
pub proof fn lemma_last_successful_setup_wins(
    state: SessionState,
    setups: Seq<(CircuitReferenceView, Result<Seq<u8>, Seq<char>>)>,
    last: int,
)
    requires
        0 <= last < setups.len(),
        setups[last].1 is Ok,
        forall|i: int| last < i < setups.len() ==> (#[trigger] setups[i]).1 is Err,
    ensures
        state_after_setups(state, setups) == (SessionState::Ready {
            circuit: setups[last].0,
            proving_key: setups[last].1->Ok_0,
        }),
    decreases setups.len(),
{
    if last < setups.len() - 1 {
        let earlier = setups.drop_last();
        assert forall|i: int| last < i < earlier.len() implies (#[trigger] earlier[i]).1 is Err
        by {}
        lemma_last_successful_setup_wins(state, earlier, last);
    }
}

/// The key that a successful setup returns decodes to the key that the
/// session holds afterwards.
pub proof fn lemma_setup_key_round_trip(
    state: SessionState,
    circuit: CircuitReferenceView,
    proving_key: Seq<u8>,
)
    requires
        proving_key.len() <= u64::MAX,
    ensures
        setup_outcome(Ok(proving_key)) matches Ok(serialized) && parse_frame(
            ArtifactKind::ProvingKey,
            serialized,
        ) == Ok::<Seq<u8>, DecodeError>(proving_key),
        state_after_setup(state, circuit, Ok(proving_key)) matches SessionState::Ready {
            proving_key: held,
            ..
        } && held == proving_key,
{
    lemma_parse_frame_of_frame(ArtifactKind::ProvingKey, proving_key);
}

/// What proof generation returns is accepted by verification on the same
/// session: the two buffers decode to the proof and the public inputs that
/// the engine produced, and the engine is asked to check exactly those with
/// the session's key.
pub proof fn lemma_generated_proof_is_accepted(
    state: SessionState,
    proof: Seq<u8>,
    public_inputs: Seq<u8>,
)
    requires
        state is Ready,
        proof.len() <= u64::MAX,
        public_inputs.len() <= u64::MAX,
    ensures
        proof_outcome(state, Ok((proof, public_inputs))) matches Ok(generated) && verify_decision(
            state,
            generated.proof,
            generated.inputs,
        ) == Ok::<VerifyRequestView, MoproErrorView>(
            VerifyRequestView { proving_key: state->proving_key, proof, public_inputs },
        ),
{
    lemma_parse_frame_of_frame(ArtifactKind::Proof, proof);
    lemma_parse_frame_of_frame(ArtifactKind::PublicInputs, public_inputs);
}

/// Verification goes by the last setup that succeeded, however many setups
/// came before it and however many failed after it: the frames of a proof
/// and of its public inputs lead to a request with that setup's key.
pub proof fn lemma_verification_uses_last_key(
    state: SessionState,
    setups: Seq<(CircuitReferenceView, Result<Seq<u8>, Seq<char>>)>,
    last: int,
    proof: Seq<u8>,
    public_inputs: Seq<u8>,
)
    requires
        0 <= last < setups.len(),
        setups[last].1 is Ok,
        forall|i: int| last < i < setups.len() ==> (#[trigger] setups[i]).1 is Err,
        proof.len() <= u64::MAX,
        public_inputs.len() <= u64::MAX,
    ensures
        verify_decision(
            state_after_setups(state, setups),
            frame(ArtifactKind::Proof, proof),
            frame(ArtifactKind::PublicInputs, public_inputs),
        ) == Ok::<VerifyRequestView, MoproErrorView>(
            VerifyRequestView { proving_key: setups[last].1->Ok_0, proof, public_inputs },
        ),
{
    lemma_last_successful_setup_wins(state, setups, last);
    lemma_parse_frame_of_frame(ArtifactKind::Proof, proof);
    lemma_parse_frame_of_frame(ArtifactKind::PublicInputs, public_inputs);
}

/// A changed buffer never passes for the unchanged one: if a pair of buffers
/// leads to a request, a pair that differs from it in either buffer leads to
/// an error or to a request with another proof or other public inputs.
pub proof fn lemma_changed_buffer_changes_decision(
    state: SessionState,
    proof: Seq<u8>,
    public_input: Seq<u8>,
    changed_proof: Seq<u8>,
    changed_public_input: Seq<u8>,
)
    requires
        verify_decision(state, proof, public_input) is Ok,
        changed_proof != proof || changed_public_input != public_input,
    ensures
        verify_decision(state, changed_proof, changed_public_input) != verify_decision(
            state,
            proof,
            public_input,
        ),
{
    if verify_decision(state, changed_proof, changed_public_input) is Ok {
        lemma_frame_of_parse_frame(ArtifactKind::Proof, proof);
        lemma_frame_of_parse_frame(ArtifactKind::Proof, changed_proof);
        lemma_frame_of_parse_frame(ArtifactKind::PublicInputs, public_input);
        lemma_frame_of_parse_frame(ArtifactKind::PublicInputs, changed_public_input);
    }
}

/// The circuit and the key of a session that is ready.
#[derive(Debug)]
struct LoadedCircuit {
    circuit: CircuitReference,
    proving_key: ProvingKey,
}

/// A proving session.
#[derive(Debug)]
pub struct MoproCircom {
    loaded: Option<LoadedCircuit>,
}

impl View for MoproCircom {
    type V = SessionState;

    closed spec fn view(&self) -> SessionState {
        match self.loaded {
            None => SessionState::Uninitialized,
            Some(loaded) => SessionState::Ready {
                circuit: loaded.circuit@,
                proving_key: loaded.proving_key@,
            },
        }
    }
}

impl Default for MoproCircom {
    fn default() -> (session: Self)
        ensures
            session@ == SessionState::Uninitialized,
    {
        Self::new()
    }
}

impl MoproCircom {
    /// A session that has not been set up.
    pub fn new() -> (session: Self)
        ensures
            session@ == SessionState::Uninitialized,
    {
        MoproCircom { loaded: None }
    }

    /// Whether a setup has succeeded on this session.
    pub fn is_ready(&self) -> (ready: bool)
        ensures
            ready == (self@ is Ready),
    {
        self.loaded.is_some()
    }

    /// The first step of setup: names the circuit the engine is to load.
    /// Setup needs no earlier state, so the engine is always asked.
    pub fn setup(&mut self, wasm_path: String, r1cs_path: String) -> (request: SetupRequest)
        ensures
            final(self)@ == old(self)@,
            request@ == (CircuitReferenceView { wasm_path: wasm_path@, r1cs_path: r1cs_path@ }),
    {
        SetupRequest { circuit: CircuitReference { wasm_path, r1cs_path } }
    }

    /// The second step of setup: takes the engine's answer to `request`. A
    /// key is stored with the circuit, in place of what the session held, and
    /// returned as a frame, which decodes to the key. A failure leaves the
    /// session as it was.
    pub fn complete_setup(
        &mut self,
        request: SetupRequest,
        answer: Result<ProvingKey, String>,
    ) -> (outcome: Result<SetupResult, MoproError>)
        ensures
            final(self)@ == state_after_setup(old(self)@, request@, setup_answer_view(answer)),
            outcome_view(outcome) == setup_outcome(setup_answer_view(answer)),
            answer matches Ok(proving_key) ==> outcome matches Ok(serialized) && parse_frame(
                ArtifactKind::ProvingKey,
                serialized@,
            ) == Ok::<Seq<u8>, DecodeError>(proving_key@),
    {
        match answer {
            Ok(proving_key) => {
                let serialized = serialize_proving_key(&proving_key);
                self.loaded = Some(LoadedCircuit { circuit: request.circuit, proving_key });
                Ok(SetupResult { provingKey: serialized })
            },
            Err(message) => Err(MoproError::BackendError(message)),
        }
    }

    /// The first step of proof generation. On a session that is not ready
    /// this fails with `NotReadyError`, whatever the inputs. Otherwise the
    /// inputs are encoded and the engine is asked to prove them.
    pub fn generate_proof<'a>(&'a mut self, inputs: CircuitInputs) -> (decision: Result<
        ProofRequest<'a>,
        MoproError,
    >)
        ensures
            final(self)@ == old(self)@,
            outcome_view(decision) == proof_decision(old(self)@, inputs@),
    {
        match &self.loaded {
            None => Err(MoproError::NotReadyError),
            Some(loaded) => {
                let entries = encode_inputs(inputs);
                Ok(
                    ProofRequest {
                        circuit: &loaded.circuit,
                        proving_key: &loaded.proving_key,
                        inputs: entries,
                    },
                )
            },
        }
    }

    /// The second step of proof generation: takes the engine's answer. A
    /// proof and its public inputs are returned as frames; a failure is
    /// passed on. The session is the same afterwards, whatever the answer,
    /// and the two frames are such that `verify_proof` on this session
    /// decodes them to the proof and the public inputs of the answer.
    pub fn complete_proof(
        &mut self,
        answer: Result<(Proof, PublicInputs), String>,
    ) -> (outcome: Result<GenerateProofResult, MoproError>)
        ensures
            final(self)@ == old(self)@,
            outcome_view(outcome) == proof_outcome(old(self)@, proof_answer_view(answer)),
            outcome matches Ok(generated) ==> answer matches Ok((proof, public_inputs))
                && verify_decision(final(self)@, generated.proof@, generated.inputs@) == Ok::<
                VerifyRequestView,
                MoproErrorView,
            >(
                VerifyRequestView {
                    proving_key: final(self)@->proving_key,
                    proof: proof@,
                    public_inputs: public_inputs@,
                },
            ),
    {
        if self.loaded.is_none() {
            return Err(MoproError::NotReadyError);
        }
        match answer {
            Ok((proof, public_inputs)) => Ok(
                GenerateProofResult {
                    proof: serialize_proof(&proof),
                    inputs: serialize_inputs(&public_inputs),
                },
            ),
            Err(message) => Err(MoproError::BackendError(message)),
        }
    }

    /// The first step of verification. On a session that is not ready this
    /// fails with `NotReadyError`, whatever the buffers hold. Otherwise the
    /// proof is decoded, then the public inputs; the first buffer that is not
    /// a frame of its kind fails with `DecodeError`. If both decode, the
    /// engine is asked to check them.
    pub fn verify_proof<'a>(&'a self, proof: Vec<u8>, public_input: Vec<u8>) -> (decision: Result<
        VerifyRequest<'a>,
        MoproError,
    >)
        ensures
            outcome_view(decision) == verify_decision(self@, proof@, public_input@),
    {
        match &self.loaded {
            None => Err(MoproError::NotReadyError),
            Some(loaded) => {
                let proof = match deserialize_proof(proof) {
                    Ok(proof) => proof,
                    Err(reason) => {
                        return Err(MoproError::DecodeError(reason));
                    },
                };
                let public_inputs = match deserialize_inputs(public_input) {
                    Ok(public_inputs) => public_inputs,
                    Err(reason) => {
                        return Err(MoproError::DecodeError(reason));
                    },
                };
                Ok(VerifyRequest { proving_key: &loaded.proving_key, proof, public_inputs })
            },
        }
    }

    /// The second step of verification: takes the engine's answer. The
    /// verdict is returned as it is, `false` included; a failure of the
    /// engine is an error.
    pub fn complete_verification(&self, answer: Result<bool, String>) -> (outcome: Result<
        bool,
        MoproError,
    >)
        ensures
            outcome_view(outcome) == verify_outcome(self@, verify_answer_view(answer)),
    {
        if self.loaded.is_none() {
            return Err(MoproError::NotReadyError);
        }
        match answer {
            Ok(verdict) => Ok(verdict),
            Err(message) => Err(MoproError::BackendError(message)),
        }
    }
}

} // verus!
