//! Runtime semantics of the generated API, stated once over the machine
//! description instead of once per emitted type.
//!
//! The emitted code is asynchronous and calls consumer-supplied lifecycle
//! hooks, so a host drives each entry point as a loop: it asks this module
//! what to do next, performs the hook or store call itself, and hands the
//! outcome back.  Everything the generated code decides — which operation an
//! event maps to, in which order the hooks fire, how the identifier of a new
//! instance is resolved, and the whole decode policy of restoration — is a
//! verified function here.
//!
//! An `Instance` stands for a live value of the generated machine type: the
//! current state (as an index into the description), the identifier, the
//! shared data, and the current state's own data.  Payload values are opaque
//! to the machine (`V`); persisted payloads travel as `Encoded`, whose one
//! current representation is a structured-text value, and are decoded by the
//! consumer, so a decode outcome arrives here as an argument.

use vstd::prelude::*;
use crate::ast::{Machine, MachineV, TransitionV};
use crate::semantics::{
    spec_has_state, spec_state_data_type, spec_state_index, lemma_state_index, str_eq,
};

verus! {

/// Declaration of the structured-text value type that persisted payloads
/// carry; the machine never looks inside one.
#[verifier::external_type_specification]
#[verifier::external_body]
pub struct ExValue(serde_json::Value);

/// A persisted payload: a tagged container for one representation, so that
/// other encodings can be added later.
pub enum Encoded {
    Json(serde_json::Value),
}

/// Failure of an `init` entry point.
#[derive(Debug)]
pub enum InitError<E> {
    /// Neither the caller nor the `on_init` hook produced an identifier.
    EmptyId,
    /// A lifecycle hook failed; its error, wrapped at the origin.
    ObserverError(E),
}

/// Failure of a transition operation.
#[derive(Debug)]
pub enum TransitionError<E> {
    /// A lifecycle hook failed; its error, wrapped at the origin.
    ObserverError(E),
}

/// Failure of a restoration.
#[derive(Debug)]
pub enum RestoreError {
    /// The state requires data that was not supplied.
    EmptyData,
    /// The state requires no data, but some was supplied.
    UnexpectedData,
    /// A supplied payload failed to decode into the declared type.
    InvalidData,
    /// The stored state name matches no declared state.
    InvalidState,
}

/// Failure of a retrieval: either the store failed, or restoration did.
#[derive(Debug)]
pub enum RetrieveError<E> {
    RestoreError(RestoreError),
    RetrieverError(E),
}

/// Whether the state at index `i` carries data: the description's data-type
/// lookup for that state's name answers.
pub open spec fn spec_state_has_data(m: MachineV, i: int) -> bool {
    spec_state_data_type(m.states, m.states[i].name) is Some
}

/// A live instance of a machine: the current state as an index into the
/// description, the identifier, the shared data owned for the instance's
/// whole life, and the current state's own data.
pub struct Instance<V> {
    pub state: usize,
    pub id: String,
    pub shared_data: Option<V>,
    pub state_data: Option<V>,
}

impl<V> Instance<V> {
    /// Well-formedness against the description: the state is declared, shared
    /// data is present exactly where the machine declares a shared-data type,
    /// and state data exactly where the current state declares a data type.
    pub open spec fn wf(self, m: MachineV) -> bool {
        &&& (self.state as int) < m.states.len()
        &&& (self.shared_data is Some <==> m.shared_data_type is Some)
        &&& (self.state_data is Some <==> spec_state_has_data(m, self.state as int))
    }

    /// The instance's identifier.
    pub fn id(&self) -> (r: &str)
        ensures
            r@ == self.id@,
    {
        self.id.as_str()
    }

    /// The shared data, present exactly where the machine declares some.
    pub fn data(&self) -> (r: &Option<V>)
        ensures
            r == self.shared_data,
    {
        &self.shared_data
    }
}

/// One lifecycle notification, in the form the host performs it.
#[allow(inconsistent_fields)]
pub enum HookCall {
    /// `on_init`, asked for the identifier of an instance to be created in
    /// the state at `to`.
    Init { to: usize },
    /// `on_transition`, announcing the move from `from` to `to`.
    Transition { from: usize, to: usize },
    /// `on_exit_<from>`, leaving `from` towards `to`.
    Exit { from: usize, to: usize },
    /// `on_enter_<to>`; `from` is absent when the instance is being created
    /// rather than moved.
    Enter { from: Option<usize>, to: usize },
}

/// The notifications a transition from `source` to `target` issues, in order:
/// `on_transition`, then `on_exit` of the source, then `on_enter` of the
/// target.
pub open spec fn spec_transition_hooks(source: usize, target: usize) -> Seq<HookCall> {
    seq![
        HookCall::Transition { from: source, to: target },
        HookCall::Exit { from: source, to: target },
        HookCall::Enter { from: Some(source), to: target },
    ]
}

/// The notifications an `init` into `target` issues, in order: `on_init`,
/// then `on_enter` of the target with no predecessor.
pub open spec fn spec_init_hooks(target: usize) -> Seq<HookCall> {
    seq![HookCall::Init { to: target }, HookCall::Enter { from: None, to: target }]
}

/// Law: in every transition's notification sequence, `on_transition` comes
/// strictly before `on_exit` of the source, which comes strictly before
/// `on_enter` of the target; each occurs exactly once.
pub proof fn lemma_hook_ordering(source: usize, target: usize)
    ensures
        ({
            let hs = spec_transition_hooks(source, target);
            &&& hs.len() == 3
            &&& forall|i: int, j: int|
                0 <= i < hs.len() && 0 <= j < hs.len() && hs[i] is Transition && hs[j] is Exit
                    ==> i < j
            &&& forall|i: int, j: int|
                0 <= i < hs.len() && 0 <= j < hs.len() && hs[i] is Exit && hs[j] is Enter ==> i < j
            &&& forall|i: int| 0 <= i < hs.len() ==> !(hs[i] is Init)
        }),
{
}

/// Law: in an `init`'s notification sequence, `on_init` comes strictly
/// before `on_enter` of the target, and no transition or exit notification
/// occurs: creation leaves no state.
pub proof fn lemma_init_hook_ordering(target: usize)
    ensures
        ({
            let hs = spec_init_hooks(target);
            &&& hs.len() == 2
            &&& forall|i: int, j: int|
                0 <= i < hs.len() && 0 <= j < hs.len() && hs[i] is Init && hs[j] is Enter ==> i < j
            &&& forall|i: int| 0 <= i < hs.len() ==> !(hs[i] is Transition) && !(hs[i] is Exit)
        }),
{
}

/// The target state name of the first transition declared for `event`, if
/// the state declares the event at all.
pub open spec fn spec_find_transition(trs: Seq<TransitionV>, event: Seq<char>) -> Option<
    Seq<char>,
>
    decreases trs.len(),
{
    if trs.len() == 0 {
        None
    } else if trs[0].event == event {
        Some(trs[0].next_state)
    } else {
        spec_find_transition(trs.drop_first(), event)
    }
}

/// A transition operation resolved against the description: the operation is
/// callable on `source` and leads to `target`.
pub struct TransitionPlan {
    pub source: usize,
    pub target: usize,
}

/// The notifications the plan's operation issues, in order.
pub open spec fn spec_plan_hooks(p: TransitionPlan) -> Seq<HookCall> {
    spec_transition_hooks(p.source, p.target)
}

impl Machine {
    /// Resolves the operation named `event` on the state at `source`.  The
    /// operation exists exactly when that state declares a transition for the
    /// event — on every other state the generated API has no such operation —
    /// and its target is the declared next state, which must itself be
    /// declared for the generated code to name its type.
    pub fn transition_plan(&self, source: usize, event: &str) -> (r: Option<TransitionPlan>)
        requires
            (source as int) < self@.states.len(),
        ensures
            r is Some <==> (spec_find_transition(
                self@.states[source as int].transitions,
                event@,
            ) matches Some(target_name) && spec_has_state(self@, target_name)),
            r matches Some(p) ==> {
                let target_name = spec_find_transition(
                    self@.states[source as int].transitions,
                    event@,
                )->Some_0;
                &&& p.source == source
                &&& p.target == spec_state_index(self@.states, target_name)
                &&& (p.target as int) < self@.states.len()
                &&& self@.states[p.target as int].name == target_name
            },
    {
        let st = &self.states[source];
        proof {
            assert(st@.transitions.skip(0) =~= st@.transitions);
        }
        let n = st.transitions.len();
        let mut i: usize = 0;
        while i < n
            invariant
                (source as int) < self@.states.len(),
                st == self.states@[source as int],
                n == st@.transitions.len(),
                i <= n,
                forall|k: int|
                    0 <= k < i ==> #[trigger] st@.transitions[k].event != event@,
                spec_find_transition(st@.transitions, event@) == spec_find_transition(
                    st@.transitions.skip(i as int),
                    event@,
                ),
            decreases n - i,
        {
            let ghost rest = st@.transitions.skip(i as int);
            proof {
                assert(rest[0] == st@.transitions[i as int]);
                assert(rest.drop_first() =~= st@.transitions.skip(i + 1 as int));
            }
            if str_eq(st.transitions[i].event.as_str(), event) {
                let target = &st.transitions[i].next_state;
                proof {
                    assert(spec_find_transition(st@.transitions, event@) == Some(
                        st@.transitions[i as int].next_state,
                    ));
                }
                let ti = self.state_index(target.as_str());
                proof {
                    lemma_state_index(self@.states, target@);
                }
                return match ti {
                    Some(t) => Some(TransitionPlan { source, target: t }),
                    None => None,
                };
            }
            i = i + 1;
        }
        proof {
            assert(st@.transitions.skip(n as int) =~= Seq::<TransitionV>::empty());
        }
        None
    }
}

/// The plan's notifications as a value the host can walk, in the proved
/// order.
pub fn hook_sequence(p: &TransitionPlan) -> (r: Vec<HookCall>)
    ensures
        r@ == spec_plan_hooks(*p),
{
    let mut r: Vec<HookCall> = Vec::new();
    r.push(HookCall::Transition { from: p.source, to: p.target });
    r.push(HookCall::Exit { from: p.source, to: p.target });
    r.push(HookCall::Enter { from: Some(p.source), to: p.target });
    proof {
        assert(r@ =~= spec_plan_hooks(*p));
    }
    r
}

/// What resolving the identifier of a new instance yields, given the
/// `on_init` hook's outcome: the identifier the hook returned, the
/// missing-identifier failure where it returned none, or its error wrapped.
pub open spec fn spec_resolve_init_id<E>(hook_outcome: Result<Option<String>, E>) -> Result<
    String,
    InitError<E>,
> {
    match hook_outcome {
        Ok(Some(id)) => Ok(id),
        Ok(None) => Err(InitError::EmptyId),
        Err(e) => Err(InitError::ObserverError(e)),
    }
}

/// Law: under the default `on_init` hook, which passes the caller-supplied
/// identifier through unchanged, creation fails for want of an identifier
/// exactly when the caller supplied none — that is, exactly when both the
/// caller-supplied and the hook-returned identifier are absent.
pub proof fn lemma_empty_id_exactly_when_both_absent<E>(supplied: Option<String>)
    ensures
        spec_resolve_init_id::<E>(Ok(supplied)) == Err::<String, InitError<E>>(InitError::EmptyId)
            <==> supplied is None,
{
}

/// Resolves the identifier of an instance being created from the `on_init`
/// hook's outcome, exactly as `spec_resolve_init_id` describes.
pub fn resolve_init_id<E>(hook_outcome: Result<Option<String>, E>) -> (r: Result<
    String,
    InitError<E>,
>)
    ensures
        r == spec_resolve_init_id(hook_outcome),
{
    match hook_outcome {
        Ok(Some(id)) => Ok(id),
        Ok(None) => Err(InitError::EmptyId),
        Err(e) => Err(InitError::ObserverError(e)),
    }
}

/// What a transition operation does with one performed notification's
/// outcome: a hook's failure is wrapped at its origin and aborts the call;
/// success lets the operation continue.
pub fn transition_hook_outcome<E>(outcome: Result<(), E>) -> (r: Result<(), TransitionError<E>>)
    ensures
        match outcome {
            Ok(u) => r == Ok::<(), TransitionError<E>>(u),
            Err(e) => r == Err::<(), TransitionError<E>>(TransitionError::ObserverError(e)),
        },
{
    match outcome {
        Ok(u) => Ok(u),
        Err(e) => Err(TransitionError::ObserverError(e)),
    }
}

/// Creates the instance an `init` entry point returns once its hooks have
/// succeeded: it sits in the requested initial state and owns the resolved
/// identifier, the shared data, and the state's data, exactly as supplied.
pub fn init_instance<V>(
    m: &Machine,
    state: usize,
    id: String,
    shared_data: Option<V>,
    state_data: Option<V>,
) -> (r: Instance<V>)
    requires
        (state as int) < m@.states.len(),
        m@.states[state as int].init,
        shared_data is Some <==> m@.shared_data_type is Some,
        state_data is Some <==> spec_state_has_data(m@, state as int),
    ensures
        r.state == state,
        r.id == id,
        r.shared_data == shared_data,
        r.state_data == state_data,
        r.wf(m@),
{
    Instance { state, id, shared_data, state_data }
}

/// Finishes a successful transition: consumes the old instance and returns
/// the next state's instance, carrying the identifier and the shared data
/// forward unchanged and owning the new state's data.
pub fn complete_transition<V>(
    m: &Machine,
    inst: Instance<V>,
    plan: &TransitionPlan,
    new_state_data: Option<V>,
) -> (r: Instance<V>)
    requires
        inst.wf(m@),
        plan.source == inst.state,
        (plan.target as int) < m@.states.len(),
        new_state_data is Some <==> spec_state_has_data(m@, plan.target as int),
    ensures
        r.state == plan.target,
        r.id == inst.id,
        r.shared_data == inst.shared_data,
        r.state_data == new_state_data,
        r.wf(m@),
{
    Instance {
        state: plan.target,
        id: inst.id,
        shared_data: inst.shared_data,
        state_data: new_state_data,
    }
}

/// What must still be decoded to restore an instance of the state at `state`.
pub struct RestorePlan {
    pub state: usize,
    pub decode_shared: bool,
    pub decode_state: bool,
}

impl RestorePlan {
    /// The plan names a declared state and asks to decode exactly the
    /// payloads that state requires.
    pub open spec fn wf(self, m: MachineV) -> bool {
        &&& (self.state as int) < m.states.len()
        &&& self.decode_shared == (m.shared_data_type is Some)
        &&& self.decode_state == spec_state_has_data(m, self.state as int)
    }
}

/// The dispatcher and presence policy of restoration: the unknown-state
/// failure where no state bears the stored name; then, data required by the
/// named state but absent fails as missing (shared data examined before state
/// data), and data supplied though not required fails as unexpected;
/// otherwise the plan naming what remains to decode.
pub open spec fn spec_restore_plan(
    m: MachineV,
    name: Seq<char>,
    has_shared: bool,
    has_state: bool,
) -> Result<RestorePlan, RestoreError> {
    if !spec_has_state(m, name) {
        Err(RestoreError::InvalidState)
    } else {
        let needs_shared = m.shared_data_type is Some;
        let needs_state = spec_state_data_type(m.states, name) is Some;
        if needs_shared && !has_shared {
            Err(RestoreError::EmptyData)
        } else if !needs_shared && has_shared {
            Err(RestoreError::UnexpectedData)
        } else if needs_state && !has_state {
            Err(RestoreError::EmptyData)
        } else if !needs_state && has_state {
            Err(RestoreError::UnexpectedData)
        } else {
            Ok(
                RestorePlan {
                    state: spec_state_index(m.states, name) as usize,
                    decode_shared: needs_shared,
                    decode_state: needs_state,
                },
            )
        }
    }
}

impl Machine {
    /// Matches a stored state name against the declared states, exactly and
    /// case-sensitively, and checks the supplied payloads against what that
    /// state requires, as `spec_restore_plan` describes.  No hook is
    /// involved: restoration is raw materialization.
    pub fn restore_plan(
        &self,
        state_string: &str,
        shared_enc: &Option<Encoded>,
        state_enc: &Option<Encoded>,
    ) -> (r: Result<RestorePlan, RestoreError>)
        ensures
            r == spec_restore_plan(self@, state_string@, shared_enc is Some, state_enc is Some),
            r matches Ok(p) ==> p.wf(self@) && self@.states[p.state as int].name == state_string@,
    {
        let state = match self.state_index(state_string) {
            Some(i) => i,
            None => {
                return Err(RestoreError::InvalidState);
            },
        };
        proof {
            lemma_state_index(self@.states, state_string@);
        }
        let needs_shared = self.shared_data_type.is_some();
        let needs_state = self.state_data_type(state_string).is_some();
        if needs_shared && shared_enc.is_none() {
            Err(RestoreError::EmptyData)
        } else if !needs_shared && shared_enc.is_some() {
            Err(RestoreError::UnexpectedData)
        } else if needs_state && state_enc.is_none() {
            Err(RestoreError::EmptyData)
        } else if !needs_state && state_enc.is_some() {
            Err(RestoreError::UnexpectedData)
        } else {
            Ok(RestorePlan { state, decode_shared: needs_shared, decode_state: needs_state })
        }
    }
}

/// Completes a restoration from the consumer's decode outcomes, supplied for
/// exactly the payloads the plan asked to decode: the invalid-data failure
/// exactly when some required payload failed to decode (the shared payload
/// examined first); otherwise the live instance, sitting directly in the
/// stored state with the decoded values, no hook having run.
pub fn restore_instance<V>(
    m: &Machine,
    plan: &RestorePlan,
    id: String,
    decoded_shared: Option<Option<V>>,
    decoded_state: Option<Option<V>>,
) -> (r: Result<Instance<V>, RestoreError>)
    requires
        plan.wf(m@),
        decoded_shared is Some <==> plan.decode_shared,
        decoded_state is Some <==> plan.decode_state,
    ensures
        decoded_shared == Some(None::<V>) ==> r == Err::<Instance<V>, RestoreError>(
            RestoreError::InvalidData,
        ),
        decoded_shared != Some(None::<V>) && decoded_state == Some(None::<V>) ==> r == Err::<
            Instance<V>,
            RestoreError,
        >(RestoreError::InvalidData),
        decoded_shared != Some(None::<V>) && decoded_state != Some(None::<V>) ==> (r matches Ok(
            inst,
        ) && inst.state == plan.state && inst.id == id && inst.shared_data == (match decoded_shared {
            Some(v) => v,
            None => None,
        }) && inst.state_data == (match decoded_state {
            Some(v) => v,
            None => None,
        }) && inst.wf(m@)),
{
    let shared_data: Option<V> = match decoded_shared {
        Some(Some(v)) => Some(v),
        Some(None) => {
            return Err(RestoreError::InvalidData);
        },
        None => None,
    };
    let state_data: Option<V> = match decoded_state {
        Some(Some(v)) => Some(v),
        Some(None) => {
            return Err(RestoreError::InvalidData);
        },
        None => None,
    };
    Ok(Instance { state: plan.state, id, shared_data, state_data })
}

/// The retrieval composition after the store call: the store's failure is
/// kept apart from restoration failures; a fetched (state name, payloads)
/// triple goes through the restore dispatcher's policy.
pub fn retrieve_plan<E>(
    m: &Machine,
    fetched: Result<(String, Option<Encoded>, Option<Encoded>), E>,
) -> (r: Result<RestorePlan, RetrieveError<E>>)
    ensures
        match fetched {
            Err(e) => r == Err::<RestorePlan, RetrieveError<E>>(RetrieveError::RetrieverError(e)),
            Ok(t) => match spec_restore_plan(m@, t.0@, t.1 is Some, t.2 is Some) {
                Ok(p) => r == Ok::<RestorePlan, RetrieveError<E>>(p) && p.wf(m@),
                Err(re) => r == Err::<RestorePlan, RetrieveError<E>>(
                    RetrieveError::RestoreError(re),
                ),
            },
        },
{
    match fetched {
        Ok((state_string, shared_enc, state_enc)) => match m.restore_plan(
            state_string.as_str(),
            &shared_enc,
            &state_enc,
        ) {
            Ok(p) => Ok(p),
            Err(re) => Err(RetrieveError::RestoreError(re)),
        },
        Err(e) => Err(RetrieveError::RetrieverError(e)),
    }
}

} // verus!
