//! The code generator: from a machine description to the generated API.
//!
//! `build_api` derives the structure of everything the compiler emits — one
//! nominal type per state, the per-machine instance type's `init` entry
//! points, one transition operation per declared edge attached to its source
//! state alone, one enter/exit hook pair per state, and one restore procedure
//! per state — and is proved equal to `spec_api`, the mathematical statement
//! of that structure.  `render` turns the structure into source text, proved
//! equal to the templates it is built from, and `statemachine` is the whole
//! pipeline from description text to generated text.

use vstd::prelude::*;
use vstd::string::StringExecFns;
use crate::ast::{Machine, MachineV, StateDefV, TransitionV};
use crate::lexer::{tokenize_from, lex_from};
use crate::parser::{ParseError, spec_parse_machine};
use crate::semantics::{spec_is_init_state, spec_state_data_type};
use convert_case::{Case, Casing};

verus! {

/// The snake-case rendering of an identifier, as the case-conversion library
/// defines it; hook and restore procedure names are built from it.
pub uninterp spec fn snake_of(s: Seq<char>) -> Seq<char>;

/// Relies on convert_case's `Casing::to_case` with the snake case: the result
/// depends on the input characters alone.
#[verifier::external_body]
fn to_snake_case(s: &str) -> (r: String)
    ensures
        r@ == snake_of(s@),
{
    s.to_case(Case::Snake)
}

/// One emitted state type: named after the state, owning a value of the
/// declared data type where the state declares one.
pub struct GenStateType {
    pub name: String,
    pub data_type: Option<String>,
}

/// One emitted `init` entry point: on the type of an initial state, taking
/// that state's data where it declares some.
pub struct GenInitEntry {
    pub state: String,
    pub snake: String,
    pub state_data_type: Option<String>,
}

/// One emitted transition operation: named after the event, attached to the
/// source state's type alone, producing the target state's type, taking the
/// target's data where it declares some.  `enter_from_optional` says the
/// target's enter hook takes its predecessor in optional form, because the
/// target is also an initial state.
pub struct GenOperation {
    pub source: String,
    pub source_snake: String,
    pub source_has_data: bool,
    pub event: String,
    pub target: String,
    pub target_snake: String,
    pub target_data_type: Option<String>,
    pub enter_from_optional: bool,
}

/// One emitted enter/exit hook pair, named after the snake-case state name.
pub struct GenHookPair {
    pub state: String,
    pub snake: String,
    pub from_optional: bool,
    pub data_type: Option<String>,
}

/// One emitted restore procedure, named after the snake-case state name,
/// decoding exactly the payloads its state requires.
pub struct GenRestoreProc {
    pub state: String,
    pub snake: String,
    pub needs_shared: bool,
    pub data_type: Option<String>,
}

/// The structure of everything emitted for one machine.
pub struct GeneratedApi {
    pub machine: String,
    pub wrapped: String,
    pub shared_data_type: Option<String>,
    pub states: Vec<GenStateType>,
    pub inits: Vec<GenInitEntry>,
    pub operations: Vec<GenOperation>,
    pub hooks: Vec<GenHookPair>,
    pub restores: Vec<GenRestoreProc>,
}

/// Mathematical model of an emitted state type.
pub struct GenStateTypeV {
    pub name: Seq<char>,
    pub data_type: Option<Seq<char>>,
}

/// Mathematical model of an emitted `init` entry point.
pub struct GenInitEntryV {
    pub state: Seq<char>,
    pub snake: Seq<char>,
    pub state_data_type: Option<Seq<char>>,
}

/// Mathematical model of an emitted transition operation.
pub struct GenOperationV {
    pub source: Seq<char>,
    pub source_snake: Seq<char>,
    pub source_has_data: bool,
    pub event: Seq<char>,
    pub target: Seq<char>,
    pub target_snake: Seq<char>,
    pub target_data_type: Option<Seq<char>>,
    pub enter_from_optional: bool,
}

/// Mathematical model of an emitted hook pair.
pub struct GenHookPairV {
    pub state: Seq<char>,
    pub snake: Seq<char>,
    pub from_optional: bool,
    pub data_type: Option<Seq<char>>,
}

/// Mathematical model of an emitted restore procedure.
pub struct GenRestoreProcV {
    pub state: Seq<char>,
    pub snake: Seq<char>,
    pub needs_shared: bool,
    pub data_type: Option<Seq<char>>,
}

/// Mathematical model of the whole emitted structure.
pub struct GeneratedApiV {
    pub machine: Seq<char>,
    pub wrapped: Seq<char>,
    pub shared_data_type: Option<Seq<char>>,
    pub states: Seq<GenStateTypeV>,
    pub inits: Seq<GenInitEntryV>,
    pub operations: Seq<GenOperationV>,
    pub hooks: Seq<GenHookPairV>,
    pub restores: Seq<GenRestoreProcV>,
}

/// The view of an optional identifier.
pub open spec fn opt_view(o: Option<String>) -> Option<Seq<char>> {
    match o {
        Some(s) => Some(s@),
        None => None,
    }
}

impl View for GenStateType {
    type V = GenStateTypeV;

    open spec fn view(&self) -> GenStateTypeV {
        GenStateTypeV { name: self.name@, data_type: opt_view(self.data_type) }
    }
}

impl DeepView for GenStateType {
    type V = GenStateTypeV;

    open spec fn deep_view(&self) -> GenStateTypeV {
        self.view()
    }
}

impl View for GenInitEntry {
    type V = GenInitEntryV;

    open spec fn view(&self) -> GenInitEntryV {
        GenInitEntryV {
            state: self.state@,
            snake: self.snake@,
            state_data_type: opt_view(self.state_data_type),
        }
    }
}

impl DeepView for GenInitEntry {
    type V = GenInitEntryV;

    open spec fn deep_view(&self) -> GenInitEntryV {
        self.view()
    }
}

impl View for GenOperation {
    type V = GenOperationV;

    open spec fn view(&self) -> GenOperationV {
        GenOperationV {
            source: self.source@,
            source_snake: self.source_snake@,
            source_has_data: self.source_has_data,
            event: self.event@,
            target: self.target@,
            target_snake: self.target_snake@,
            target_data_type: opt_view(self.target_data_type),
            enter_from_optional: self.enter_from_optional,
        }
    }
}

impl DeepView for GenOperation {
    type V = GenOperationV;

    open spec fn deep_view(&self) -> GenOperationV {
        self.view()
    }
}

impl View for GenHookPair {
    type V = GenHookPairV;

    open spec fn view(&self) -> GenHookPairV {
        GenHookPairV {
            state: self.state@,
            snake: self.snake@,
            from_optional: self.from_optional,
            data_type: opt_view(self.data_type),
        }
    }
}

impl DeepView for GenHookPair {
    type V = GenHookPairV;

    open spec fn deep_view(&self) -> GenHookPairV {
        self.view()
    }
}

impl View for GenRestoreProc {
    type V = GenRestoreProcV;

    open spec fn view(&self) -> GenRestoreProcV {
        GenRestoreProcV {
            state: self.state@,
            snake: self.snake@,
            needs_shared: self.needs_shared,
            data_type: opt_view(self.data_type),
        }
    }
}

impl DeepView for GenRestoreProc {
    type V = GenRestoreProcV;

    open spec fn deep_view(&self) -> GenRestoreProcV {
        self.view()
    }
}

impl View for GeneratedApi {
    type V = GeneratedApiV;

    open spec fn view(&self) -> GeneratedApiV {
        GeneratedApiV {
            machine: self.machine@,
            wrapped: self.wrapped@,
            shared_data_type: opt_view(self.shared_data_type),
            states: self.states.deep_view(),
            inits: self.inits.deep_view(),
            operations: self.operations.deep_view(),
            hooks: self.hooks.deep_view(),
            restores: self.restores.deep_view(),
        }
    }
}

/// The emitted state type of one declared state.
pub open spec fn spec_gen_state(s: StateDefV) -> GenStateTypeV {
    GenStateTypeV { name: s.name, data_type: s.associated_data_type }
}

/// The emitted `init` entry points of the first `k` declared states: one per
/// state flagged initial, in declaration order.
pub open spec fn spec_inits_prefix(states: Seq<StateDefV>, k: int) -> Seq<GenInitEntryV>
    decreases k,
{
    if k <= 0 {
        Seq::empty()
    } else {
        spec_inits_prefix(states, k - 1) + (if states[k - 1].init {
            seq![
                GenInitEntryV {
                    state: states[k - 1].name,
                    snake: snake_of(states[k - 1].name),
                    state_data_type: states[k - 1].associated_data_type,
                },
            ]
        } else {
            Seq::empty()
        })
    }
}

/// The emitted operation of one declared edge.
pub open spec fn spec_gen_op(m: MachineV, source: Seq<char>, t: TransitionV) -> GenOperationV {
    GenOperationV {
        source: source,
        source_snake: snake_of(source),
        source_has_data: spec_state_data_type(m.states, source) is Some,
        event: t.event,
        target: t.next_state,
        target_snake: snake_of(t.next_state),
        target_data_type: spec_state_data_type(m.states, t.next_state),
        enter_from_optional: spec_is_init_state(m, t.next_state),
    }
}

/// The emitted operations of the first `j` edges of the state at `i`.
pub open spec fn spec_state_ops_prefix(m: MachineV, i: int, j: int) -> Seq<GenOperationV>
    decreases j,
{
    if j <= 0 {
        Seq::empty()
    } else {
        spec_state_ops_prefix(m, i, j - 1) + seq![
            spec_gen_op(m, m.states[i].name, m.states[i].transitions[j - 1]),
        ]
    }
}

/// The emitted operations of all edges of the first `k` declared states, in
/// declaration order.
pub open spec fn spec_ops_prefix(m: MachineV, k: int) -> Seq<GenOperationV>
    decreases k,
{
    if k <= 0 {
        Seq::empty()
    } else {
        spec_ops_prefix(m, k - 1) + spec_state_ops_prefix(
            m,
            k - 1,
            m.states[k - 1].transitions.len() as int,
        )
    }
}

/// The emitted hook pair of one declared state.
pub open spec fn spec_gen_hook(m: MachineV, s: StateDefV) -> GenHookPairV {
    GenHookPairV {
        state: s.name,
        snake: snake_of(s.name),
        from_optional: s.init,
        data_type: spec_state_data_type(m.states, s.name),
    }
}

/// The emitted restore procedure of one declared state.
pub open spec fn spec_gen_restore(m: MachineV, s: StateDefV) -> GenRestoreProcV {
    GenRestoreProcV {
        state: s.name,
        snake: snake_of(s.name),
        needs_shared: m.shared_data_type is Some,
        data_type: spec_state_data_type(m.states, s.name),
    }
}

/// The structure of everything the compiler emits for `m`.
pub open spec fn spec_api(m: MachineV) -> GeneratedApiV {
    GeneratedApiV {
        machine: m.name,
        wrapped: "Wrapped"@ + m.name,
        shared_data_type: m.shared_data_type,
        states: m.states.map_values(|s: StateDefV| spec_gen_state(s)),
        inits: spec_inits_prefix(m.states, m.states.len() as int),
        operations: spec_ops_prefix(m, m.states.len() as int),
        hooks: m.states.map_values(|s: StateDefV| spec_gen_hook(m, s)),
        restores: m.states.map_values(|s: StateDefV| spec_gen_restore(m, s)),
    }
}

impl Machine {
    /// Derives the structure of the generated API: exactly one state type,
    /// hook pair and restore procedure per declared state, one `init` entry
    /// point per state flagged initial, and one operation per declared edge,
    /// attached to its source state, everything in declaration order.
    pub fn build_api(&self) -> (api: GeneratedApi)
        ensures
            api@ == spec_api(self@),
    {
        let machine = self.name.clone();
        let mut wrapped = String::from_str("Wrapped");
        wrapped.append(self.name.as_str());
        let shared_data_type = match &self.shared_data_type {
            Some(t) => Some(t.clone()),
            None => None,
        };

        let n = self.states.len();
        let mut states: Vec<GenStateType> = Vec::new();
        let mut inits: Vec<GenInitEntry> = Vec::new();
        let mut operations: Vec<GenOperation> = Vec::new();
        let mut hooks: Vec<GenHookPair> = Vec::new();
        let mut restores: Vec<GenRestoreProc> = Vec::new();

        let needs_shared = self.shared_data_type.is_some();
        let mut i: usize = 0;
        while i < n
            invariant
                n == self@.states.len(),
                i <= n,
                needs_shared == (self@.shared_data_type is Some),
                states.deep_view() =~= self@.states.take(i as int).map_values(
                    |s: StateDefV| spec_gen_state(s),
                ),
                inits.deep_view() =~= spec_inits_prefix(self@.states, i as int),
                operations.deep_view() =~= spec_ops_prefix(self@, i as int),
                hooks.deep_view() =~= self@.states.take(i as int).map_values(
                    |s: StateDefV| spec_gen_hook(self@, s),
                ),
                restores.deep_view() =~= self@.states.take(i as int).map_values(
                    |s: StateDefV| spec_gen_restore(self@, s),
                ),
            decreases n - i,
        {
            let ghost states0 = states.deep_view();
            let ghost inits0 = inits.deep_view();
            let ghost hooks0 = hooks.deep_view();
            let ghost restores0 = restores.deep_view();
            let st = &self.states[i];
            let name = st.name.clone();
            let data_type = match &st.associated_data_type {
                Some(t) => Some(t.clone()),
                None => None,
            };
            states.push(GenStateType { name: name.clone(), data_type: data_type.clone() });
            let snake = to_snake_case(name.as_str());
            if st.init {
                inits.push(
                    GenInitEntry {
                        state: name.clone(),
                        snake: snake.clone(),
                        state_data_type: data_type,
                    },
                );
            }
            let lookup = match self.state_data_type(name.as_str()) {
                Some(t) => Some(t.clone()),
                None => None,
            };
            hooks.push(
                GenHookPair {
                    state: name.clone(),
                    snake: snake.clone(),
                    from_optional: st.init,
                    data_type: lookup.clone(),
                },
            );
            let source_has_data = lookup.is_some();
            restores.push(
                GenRestoreProc {
                    state: name.clone(),
                    snake: snake.clone(),
                    needs_shared,
                    data_type: lookup.clone(),
                },
            );
            proof {
                assert(self@.states.take(i + 1 as int).drop_last() =~= self@.states.take(i as int));
                assert(states.deep_view() =~= states0 + seq![spec_gen_state(self@.states[i as int])]);
                assert(states.deep_view() =~= self@.states.take(i + 1 as int).map_values(
                    |s: StateDefV| spec_gen_state(s),
                ));
                assert(inits.deep_view() =~= spec_inits_prefix(self@.states, i + 1 as int));
                assert(hooks.deep_view() =~= hooks0 + seq![spec_gen_hook(self@, self@.states[i as int])]);
                assert(hooks.deep_view() =~= self@.states.take(i + 1 as int).map_values(
                    |s: StateDefV| spec_gen_hook(self@, s),
                ));
                assert(restores.deep_view() =~= restores0 + seq![
                    spec_gen_restore(self@, self@.states[i as int]),
                ]);
                assert(restores.deep_view() =~= self@.states.take(i + 1 as int).map_values(
                    |s: StateDefV| spec_gen_restore(self@, s),
                ));
            }

            let tn = st.transitions.len();
            let mut j: usize = 0;
            while j < tn
                invariant
                    n == self@.states.len(),
                    i < n,
                    st == self.states@[i as int],
                    tn == st@.transitions.len(),
                    j <= tn,
                    snake@ == snake_of(self@.states[i as int].name),
                    source_has_data == (spec_state_data_type(
                        self@.states,
                        self@.states[i as int].name,
                    ) is Some),
                    operations.deep_view() =~= spec_ops_prefix(self@, i as int)
                        + spec_state_ops_prefix(self@, i as int, j as int),
                decreases tn - j,
            {
                let ghost ops0 = operations.deep_view();
                let tr = &st.transitions[j];
                let target_data_type = match self.state_data_type(tr.next_state.as_str()) {
                    Some(t) => Some(t.clone()),
                    None => None,
                };
                let enter_from_optional = self.is_init_state(tr.next_state.as_str());
                let target_snake = to_snake_case(tr.next_state.as_str());
                operations.push(
                    GenOperation {
                        source: st.name.clone(),
                        source_snake: snake.clone(),
                        source_has_data,
                        event: tr.event.clone(),
                        target: tr.next_state.clone(),
                        target_snake,
                        target_data_type,
                        enter_from_optional,
                    },
                );
                proof {
                    assert(operations.deep_view() =~= ops0 + seq![
                        spec_gen_op(self@, self@.states[i as int].name, self@.states[i as int].transitions[j as int]),
                    ]);
                }
                j = j + 1;
            }
            i = i + 1;
        }
        proof {
            assert(self@.states.take(n as int) =~= self@.states);
        }
        let api = GeneratedApi {
            machine,
            wrapped,
            shared_data_type,
            states,
            inits,
            operations,
            hooks,
            restores,
        };
        proof {
            assert(api@.states =~= spec_api(self@).states);
            assert(api@.inits =~= spec_api(self@).inits);
            assert(api@.operations =~= spec_api(self@).operations);
            assert(api@.hooks =~= spec_api(self@).hooks);
            assert(api@.restores =~= spec_api(self@).restores);
        }
        api
    }
}

/// An optional text fragment: the prefix followed by the name, or nothing.
pub open spec fn opt_frag(prefix: Seq<char>, t: Option<Seq<char>>) -> Seq<char> {
    match t {
        Some(s) => prefix + s,
        None => Seq::empty(),
    }
}

/// A boolean text fragment: one text or the other.
pub open spec fn pick(c: bool, yes: Seq<char>, no: Seq<char>) -> Seq<char> {
    if c {
        yes
    } else {
        no
    }
}

fn emit_opt(out: &mut String, prefix: &str, t: &Option<String>)
    ensures
        final(out)@ == old(out)@ + opt_frag(prefix@, opt_view(*t)),
{
    match t {
        Some(s) => {
            out.append(prefix);
            out.append(s.as_str());
        },
        None => {
            proof {
                assert(out@ =~= old(out)@ + opt_frag(prefix@, opt_view(*t)));
            }
        },
    }
}

/// The error taxonomy and the payload container, the same for every machine.
pub open spec fn prelude_text() -> Seq<char> {
    "pub enum InitError<E> { EmptyId, ObserverError(E) }\npub enum TransitionError<E> { ObserverError(E) }\npub enum RestoreError { EmptyData, UnexpectedData, InvalidData, InvalidState }\npub enum RetrieveError<E> { RestoreError(RestoreError), RetrieverError(E) }\npub enum Encoded { Json(serde_json::Value) }\n"@
}

/// The state-tag enumeration: one variant per declared state.
pub open spec fn state_names_prefix(ss: Seq<GenStateTypeV>, k: int) -> Seq<char>
    decreases k,
{
    if k <= 0 {
        Seq::empty()
    } else {
        state_names_prefix(ss, k - 1) + ss[k - 1].name + ", "@
    }
}

pub open spec fn state_enum_text(ss: Seq<GenStateTypeV>) -> Seq<char> {
    "pub enum State { "@ + state_names_prefix(ss, ss.len() as int) + "}\n"@
}

/// The state tag's stringification: each variant to its literal name.
pub open spec fn state_arm_text(s: GenStateTypeV) -> Seq<char> {
    "State::"@ + s.name + " => String::from(\""@ + s.name + "\"), "@
}

pub open spec fn state_arms_prefix(ss: Seq<GenStateTypeV>, k: int) -> Seq<char>
    decreases k,
{
    if k <= 0 {
        Seq::empty()
    } else {
        state_arms_prefix(ss, k - 1) + state_arm_text(ss[k - 1])
    }
}

pub open spec fn state_to_string_text(ss: Seq<GenStateTypeV>) -> Seq<char> {
    "impl State { pub fn to_string(&self) -> String { match self { "@ + state_arms_prefix(
        ss,
        ss.len() as int,
    ) + "} } }\n"@
}

/// One enter/exit hook pair of the observer contract, with safe no-op
/// defaults; the parameter lists carry the shared and per-state data only
/// where they are declared.
pub open spec fn hook_pair_text(h: GenHookPairV, shared: Option<Seq<char>>) -> Seq<char> {
    "async fn on_enter_"@ + h.snake + "(&mut self, ctx: &mut S, id: &str, from: "@ + pick(
        h.from_optional,
        "Option<State>"@,
        "State"@,
    ) + opt_frag(", data: &"@, shared) + opt_frag(", state_data: &"@, h.data_type)
        + ") -> Result<(), Self::Error> { Ok(()) } async fn on_exit_"@ + h.snake
        + "(&mut self, ctx: &mut S, id: &str, to: State"@ + opt_frag(", data: &"@, shared)
        + opt_frag(", state_data: &"@, h.data_type) + ") -> Result<(), Self::Error> { Ok(()) } "@
}

pub open spec fn hooks_prefix(hs: Seq<GenHookPairV>, shared: Option<Seq<char>>, k: int) -> Seq<
    char,
>
    decreases k,
{
    if k <= 0 {
        Seq::empty()
    } else {
        hooks_prefix(hs, shared, k - 1) + hook_pair_text(hs[k - 1], shared)
    }
}

pub open spec fn observer_text(hs: Seq<GenHookPairV>, shared: Option<Seq<char>>) -> Seq<char> {
    "#[async_trait]\npub trait Observer<S: Send> { type Error; async fn on_init<T: Serialize + Send, U: Serialize + Send>(&mut self, ctx: &mut S, id: Option<String>, to: State, data: Option<T>, state_data: Option<U>) -> Result<Option<String>, Self::Error> { Ok(id) } async fn on_transition<T: Serialize + Send, U: Serialize + Send>(&mut self, ctx: &mut S, id: &str, from: State, to: State, data: Option<T>, state_data: Option<U>) -> Result<(), Self::Error> { Ok(()) } "@
        + hooks_prefix(hs, shared, hs.len() as int) + "}\n"@
}

/// The store capability behind `retrieve`.
pub open spec fn retriever_text() -> Seq<char> {
    "#[async_trait]\npub trait Retriever<T: Send> { type RetrieverError; async fn on_retrieve(&mut self, ctx: &mut T, id: &str) -> Result<(String, Option<Encoded>, Option<Encoded>), Self::RetrieverError>; }\n"@
}

/// The generic per-machine instance type.
pub open spec fn machine_struct_text(machine: Seq<char>, shared: Option<Seq<char>>) -> Seq<char> {
    "pub struct "@ + machine
        + "<S, T: Send, U: Observer<T> + Send> { observer: U, id: String, pub state: S"@
        + opt_frag(", data: "@, shared) + ", phantom: PhantomData<T> }\n"@
}

/// One nominal state type: empty, or owning the declared data with a read
/// accessor.
pub open spec fn state_type_text(s: GenStateTypeV) -> Seq<char> {
    match s.data_type {
        Some(dt) => "pub struct "@ + s.name + " { data: "@ + dt + " } impl "@ + s.name
            + " { fn new(data: "@ + dt + ") -> Self { Self { data } } pub fn data(&self) -> &"@
            + dt + " { &self.data } }\n"@,
        None => "pub struct "@ + s.name + " {} impl "@ + s.name
            + " { fn new() -> Self { Self {} } }\n"@,
    }
}

pub open spec fn state_types_prefix(ss: Seq<GenStateTypeV>, k: int) -> Seq<char>
    decreases k,
{
    if k <= 0 {
        Seq::empty()
    } else {
        state_types_prefix(ss, k - 1) + state_type_text(ss[k - 1])
    }
}

/// The per-state constructor of the instance type, with the identifier
/// accessor and, where shared data is declared, its accessor.
pub open spec fn ctor_text(machine: Seq<char>, name: Seq<char>, shared: Option<Seq<char>>) -> Seq<
    char,
> {
    "impl<S: Send, T: Observer<S> + Send> "@ + machine + "<"@ + name
        + ", S, T> { fn new(observer: T, id: String, state: "@ + name + opt_frag(
        ", data: "@,
        shared,
    ) + ") -> Self { Self { observer, id, state"@ + pick(shared is Some, ", data"@, Seq::<char>::empty())
        + ", phantom: PhantomData } } pub fn id(&self) -> &str { &self.id }"@ + opt_frag(
        " pub fn data(&self) -> &"@,
        shared,
    ) + pick(shared is Some, " { &self.data }"@, Seq::<char>::empty()) + " }\n"@
}

pub open spec fn ctors_prefix(
    machine: Seq<char>,
    ss: Seq<GenStateTypeV>,
    shared: Option<Seq<char>>,
    k: int,
) -> Seq<char>
    decreases k,
{
    if k <= 0 {
        Seq::empty()
    } else {
        ctors_prefix(machine, ss, shared, k - 1) + ctor_text(machine, ss[k - 1].name, shared)
    }
}

/// One `init` entry point, on an initial state's type: `on_init` resolves the
/// identifier or the call fails for want of one, the state's enter hook runs
/// with no predecessor, and the instance is built.
pub open spec fn init_text_head(
    machine: Seq<char>,
    e: GenInitEntryV,
    shared: Option<Seq<char>>,
) -> Seq<char> {
    "impl<S: Send, T: Observer<S> + Send> "@ + machine + "<"@ + e.state
        + ", S, T> { pub async fn init(ctx: &mut S, mut observer: T, id: Option<String>"@
        + opt_frag(", data: "@, shared) + opt_frag(", state_data: "@, e.state_data_type)
        + ") -> Result<Self, InitError<T::Error>> { let id = observer.on_init(ctx, id, State::"@
        + e.state + ", "@ + pick(shared is Some, "Some(&data)"@, "Option::<()>::None"@) + ", "@
        + pick(e.state_data_type is Some, "Some(&state_data)"@, "Option::<()>::None"@)
}

pub open spec fn init_text_mid(e: GenInitEntryV, shared: Option<Seq<char>>) -> Seq<char> {
    ").await.map_err(|e| InitError::ObserverError(e))?.ok_or(InitError::EmptyId)?; observer.on_enter_"@
        + e.snake + "(ctx, &id, None"@ + pick(shared is Some, ", &data"@, Seq::<char>::empty())
        + pick(e.state_data_type is Some, ", &state_data"@, Seq::<char>::empty())
}

pub open spec fn init_text_tail(e: GenInitEntryV, shared: Option<Seq<char>>) -> Seq<char> {
    ").await.map_err(|e| InitError::ObserverError(e))?; Ok(Self::new(observer, id, "@ + e.state
        + "::new("@ + pick(e.state_data_type is Some, "state_data"@, Seq::<char>::empty()) + ")"@
        + pick(shared is Some, ", data"@, Seq::<char>::empty()) + ")) } }\n"@
}

pub open spec fn init_text(machine: Seq<char>, e: GenInitEntryV, shared: Option<Seq<char>>) -> Seq<
    char,
> {
    init_text_head(machine, e, shared) + init_text_mid(e, shared) + init_text_tail(e, shared)
}

pub open spec fn inits_prefix_text(
    machine: Seq<char>,
    es: Seq<GenInitEntryV>,
    shared: Option<Seq<char>>,
    k: int,
) -> Seq<char>
    decreases k,
{
    if k <= 0 {
        Seq::empty()
    } else {
        inits_prefix_text(machine, es, shared, k - 1) + init_text(machine, es[k - 1], shared)
    }
}

/// One transition operation, attached to the source state's type alone: it
/// consumes the instance, notifies `on_transition`, the source's exit hook
/// and the target's enter hook in that order, and returns the target state's
/// instance with the identifier and the shared data carried forward.
pub open spec fn op_text_head(
    machine: Seq<char>,
    o: GenOperationV,
    shared: Option<Seq<char>>,
) -> Seq<char> {
    "impl<S: Send, T: Observer<S> + Send> "@ + machine + "<"@ + o.source
        + ", S, T> { pub async fn "@ + o.event + "(mut self, ctx: &mut S"@ + opt_frag(
        ", data: "@,
        o.target_data_type,
    ) + ") -> Result<"@ + machine + "<"@ + o.target
        + ", S, T>, TransitionError<T::Error>> { self.observer.on_transition(ctx, &self.id, State::"@
        + o.source + ", State::"@ + o.target + ", "@ + pick(
        shared is Some,
        "Some(&self.data)"@,
        "Option::<()>::None"@,
    ) + ", "@ + pick(o.target_data_type is Some, "Some(&data)"@, "Option::<()>::None"@)
        + ").await.map_err(|e| TransitionError::ObserverError(e))?; "@
}

pub open spec fn op_text_exit(o: GenOperationV, shared: Option<Seq<char>>) -> Seq<char> {
    "self.observer.on_exit_"@ + o.source_snake + "(ctx, &self.id, State::"@ + o.target + pick(
        shared is Some,
        ", &self.data"@,
        Seq::<char>::empty(),
    ) + pick(o.source_has_data, ", &self.state.data"@, Seq::<char>::empty())
        + ").await.map_err(|e| TransitionError::ObserverError(e))?; "@
}

pub open spec fn op_text_enter(o: GenOperationV, shared: Option<Seq<char>>) -> Seq<char> {
    "self.observer.on_enter_"@ + o.target_snake + "(ctx, &self.id, "@ + pick(
        o.enter_from_optional,
        "Some(State::"@ + o.source + ")"@,
        "State::"@ + o.source,
    ) + pick(shared is Some, ", &self.data"@, Seq::<char>::empty()) + pick(
        o.target_data_type is Some,
        ", &data"@,
        Seq::<char>::empty(),
    ) + ").await.map_err(|e| TransitionError::ObserverError(e))?; "@
}

pub open spec fn op_text_mid(o: GenOperationV, shared: Option<Seq<char>>) -> Seq<char> {
    op_text_exit(o, shared) + op_text_enter(o, shared)
}

pub open spec fn op_text_tail(
    machine: Seq<char>,
    o: GenOperationV,
    shared: Option<Seq<char>>,
) -> Seq<char> {
    "Ok("@ + machine + "::<"@ + o.target + ", S, T>::new(self.observer, self.id, "@ + o.target
        + "::new("@ + pick(o.target_data_type is Some, "data"@, Seq::<char>::empty()) + ")"@
        + pick(shared is Some, ", self.data"@, Seq::<char>::empty()) + ")) } }\n"@
}

pub open spec fn op_text(machine: Seq<char>, o: GenOperationV, shared: Option<Seq<char>>) -> Seq<
    char,
> {
    op_text_head(machine, o, shared) + op_text_mid(o, shared) + op_text_tail(machine, o, shared)
}

pub open spec fn ops_prefix_text(
    machine: Seq<char>,
    os: Seq<GenOperationV>,
    shared: Option<Seq<char>>,
    k: int,
) -> Seq<char>
    decreases k,
{
    if k <= 0 {
        Seq::empty()
    } else {
        ops_prefix_text(machine, os, shared, k - 1) + op_text(machine, os[k - 1], shared)
    }
}

/// The runtime-tagged union over all state types, for results whose concrete
/// state is known only at run time.
pub open spec fn wrapped_variant_text(machine: Seq<char>, s: GenStateTypeV) -> Seq<char> {
    s.name + "("@ + machine + "<"@ + s.name + ", S, T>), "@
}

pub open spec fn wrapped_variants_prefix(
    machine: Seq<char>,
    ss: Seq<GenStateTypeV>,
    k: int,
) -> Seq<char>
    decreases k,
{
    if k <= 0 {
        Seq::empty()
    } else {
        wrapped_variants_prefix(machine, ss, k - 1) + wrapped_variant_text(machine, ss[k - 1])
    }
}

pub open spec fn wrapped_text(wrapped: Seq<char>, machine: Seq<char>, ss: Seq<GenStateTypeV>) -> Seq<
    char,
> {
    "pub enum "@ + wrapped + "<S: Send, T: Observer<S> + Send> { "@ + wrapped_variants_prefix(
        machine,
        ss,
        ss.len() as int,
    ) + "}\n"@
}

/// One per-state decode procedure: data required by the state but absent
/// fails as missing, data supplied though not required fails as unexpected, a
/// payload that does not decode fails as invalid, and otherwise the instance
/// is materialized directly, no hook involved.
pub open spec fn restore_text(
    machine: Seq<char>,
    wrapped: Seq<char>,
    shared: Option<Seq<char>>,
    p: GenRestoreProcV,
) -> Seq<char> {
    restore_text_head(wrapped, p) + restore_text_mid(shared, p) + restore_text_tail(
        machine,
        wrapped,
        p,
    )
}

/// The decode procedure's signature, up to the opening of its body.
pub open spec fn restore_text_head(wrapped: Seq<char>, p: GenRestoreProcV) -> Seq<char> {
    "async fn restore_"@ + p.snake
        + "<S: Send, T: Observer<S> + Send>(observer: T, id: String, data: Option<Encoded>, state_data: Option<Encoded>) -> Result<"@
        + wrapped + "<S, T>, RestoreError> { "@
}

/// The decode policy: for each of the shared and per-state payloads, either
/// the required decode or the rejection of unexpected data.
pub open spec fn restore_text_mid(shared: Option<Seq<char>>, p: GenRestoreProcV) -> Seq<char> {
    (match shared {
        Some(sdt) => "let shared_d: "@ + sdt
            + " = match data.ok_or(RestoreError::EmptyData)? { Encoded::Json(v) => serde_json::from_value(v).ok().ok_or(RestoreError::InvalidData)? }; "@,
        None => "if data.is_some() { return Err(RestoreError::UnexpectedData) }; "@,
    }) + (match p.data_type {
        Some(dt) => "let state_d: "@ + dt
            + " = match state_data.ok_or(RestoreError::EmptyData)? { Encoded::Json(v) => serde_json::from_value(v).ok().ok_or(RestoreError::InvalidData)? }; "@,
        None => "if state_data.is_some() { return Err(RestoreError::UnexpectedData) }; "@,
    })
}

/// The materialization of the wrapped instance.
pub open spec fn restore_text_tail(
    machine: Seq<char>,
    wrapped: Seq<char>,
    p: GenRestoreProcV,
) -> Seq<char> {
    "Ok("@ + wrapped + "::"@ + p.state + "("@ + machine + "::<"@ + p.state
        + ", S, T>::new(observer, id, "@ + p.state + "::new("@ + pick(
        p.data_type is Some,
        "state_d"@,
        Seq::<char>::empty(),
    ) + ")"@ + pick(p.needs_shared, ", shared_d"@, Seq::<char>::empty()) + "))) }\n"@
}

pub open spec fn restores_prefix_text(
    machine: Seq<char>,
    wrapped: Seq<char>,
    shared: Option<Seq<char>>,
    ps: Seq<GenRestoreProcV>,
    k: int,
) -> Seq<char>
    decreases k,
{
    if k <= 0 {
        Seq::empty()
    } else {
        restores_prefix_text(machine, wrapped, shared, ps, k - 1) + restore_text(
            machine,
            wrapped,
            shared,
            ps[k - 1],
        )
    }
}

/// The dispatcher: the stored state name, matched exactly and
/// case-sensitively, selects the decode procedure; anything else is the
/// unknown-state failure.
pub open spec fn dispatch_arm_text(p: GenRestoreProcV) -> Seq<char> {
    "\""@ + p.state + "\" => restore_"@ + p.snake + "(observer, id, data, state_data).await, "@
}

pub open spec fn dispatch_arms_prefix(ps: Seq<GenRestoreProcV>, k: int) -> Seq<char>
    decreases k,
{
    if k <= 0 {
        Seq::empty()
    } else {
        dispatch_arms_prefix(ps, k - 1) + dispatch_arm_text(ps[k - 1])
    }
}

pub open spec fn dispatcher_text(wrapped: Seq<char>, ps: Seq<GenRestoreProcV>) -> Seq<char> {
    "pub async fn restore<S: Send, T: Observer<S> + Send>(observer: T, id: String, state_string: String, data: Option<Encoded>, state_data: Option<Encoded>) -> Result<"@
        + wrapped + "<S, T>, RestoreError> { match state_string.as_str() { "@
        + dispatch_arms_prefix(ps, ps.len() as int)
        + "_ => Err(RestoreError::InvalidState) } }\n"@
}

/// The retrieval composition over the store capability: the store's failure
/// and restoration failures stay distinguished.
pub open spec fn retrieve_text(wrapped: Seq<char>) -> Seq<char> {
    "pub async fn retrieve<S: Send, T: Retriever<S> + Observer<S> + Send>(ctx: &mut S, mut retriever: T, id: String) -> Result<"@
        + wrapped
        + "<S, T>, RetrieveError<T::RetrieverError>> { let (state_string, maybe_data, maybe_state_data) = retriever.on_retrieve(ctx, &id).await.map_err(|e| RetrieveError::RetrieverError(e))?; restore(retriever, id, state_string, maybe_data, maybe_state_data).await.map_err(|e| RetrieveError::RestoreError(e)) }\n"@
}

/// Everything the compiler emits for one machine, in order.
pub open spec fn render_text(a: GeneratedApiV) -> Seq<char> {
    prelude_text() + state_enum_text(a.states) + state_to_string_text(a.states) + observer_text(
        a.hooks,
        a.shared_data_type,
    ) + retriever_text() + machine_struct_text(a.machine, a.shared_data_type) + state_types_prefix(
        a.states,
        a.states.len() as int,
    ) + ctors_prefix(a.machine, a.states, a.shared_data_type, a.states.len() as int)
        + inits_prefix_text(a.machine, a.inits, a.shared_data_type, a.inits.len() as int)
        + ops_prefix_text(a.machine, a.operations, a.shared_data_type, a.operations.len() as int)
        + wrapped_text(a.wrapped, a.machine, a.states) + restores_prefix_text(
        a.machine,
        a.wrapped,
        a.shared_data_type,
        a.restores,
        a.restores.len() as int,
    ) + dispatcher_text(a.wrapped, a.restores) + retrieve_text(a.wrapped)
}

pub proof fn lemma_state_ops_prefix(m: MachineV, i: int, j: int)
    requires
        0 <= i < m.states.len(),
        0 <= j <= m.states[i].transitions.len(),
    ensures
        spec_state_ops_prefix(m, i, j).len() == j,
        forall|q: int|
            0 <= q < j ==> spec_state_ops_prefix(m, i, j)[q] == spec_gen_op(
                m,
                m.states[i].name,
                m.states[i].transitions[q],
            ),
    decreases j,
{
    if j > 0 {
        lemma_state_ops_prefix(m, i, j - 1);
    }
}

/// Every emitted operation comes from a declared edge, and every declared
/// edge yields an emitted operation, over the first `k` states.
pub proof fn lemma_ops_prefix_membership(m: MachineV, k: int)
    requires
        0 <= k <= m.states.len(),
    ensures
        forall|q: int|
            0 <= q < spec_ops_prefix(m, k).len() ==> exists|i: int, j: int|
                0 <= i < k && 0 <= j < m.states[i].transitions.len() && #[trigger] spec_ops_prefix(
                    m,
                    k,
                )[q] == spec_gen_op(m, m.states[i].name, m.states[i].transitions[j]),
        forall|i: int, j: int|
            0 <= i < k && 0 <= j < m.states[i].transitions.len() ==> exists|q: int|
                0 <= q < spec_ops_prefix(m, k).len() && spec_ops_prefix(m, k)[q]
                    == #[trigger] spec_gen_op(m, m.states[i].name, m.states[i].transitions[j]),
    decreases k,
{
    if k > 0 {
        lemma_ops_prefix_membership(m, k - 1);
        lemma_state_ops_prefix(m, k - 1, m.states[k - 1].transitions.len() as int);
        let pre = spec_ops_prefix(m, k - 1);
        let tail = spec_state_ops_prefix(m, k - 1, m.states[k - 1].transitions.len() as int);
        assert forall|q: int| 0 <= q < spec_ops_prefix(m, k).len() implies exists|i: int, j: int|
            0 <= i < k && 0 <= j < m.states[i].transitions.len() && #[trigger] spec_ops_prefix(
                m,
                k,
            )[q] == spec_gen_op(m, m.states[i].name, m.states[i].transitions[j]) by {
            if q < pre.len() {
                let (i0, j0) = choose|i: int, j: int|
                    0 <= i < k - 1 && 0 <= j < m.states[i].transitions.len() && #[trigger] pre[q]
                        == spec_gen_op(m, m.states[i].name, m.states[i].transitions[j]);
                assert(spec_ops_prefix(m, k)[q] == spec_gen_op(
                    m,
                    m.states[i0].name,
                    m.states[i0].transitions[j0],
                ));
            } else {
                let j0 = q - pre.len();
                assert(spec_ops_prefix(m, k)[q] == tail[j0]);
                assert(spec_ops_prefix(m, k)[q] == spec_gen_op(
                    m,
                    m.states[k - 1].name,
                    m.states[k - 1].transitions[j0],
                ));
            }
        }
        assert forall|i: int, j: int|
            0 <= i < k && 0 <= j < m.states[i].transitions.len() implies exists|q: int|
            0 <= q < spec_ops_prefix(m, k).len() && spec_ops_prefix(m, k)[q]
                == #[trigger] spec_gen_op(m, m.states[i].name, m.states[i].transitions[j]) by {
            if i < k - 1 {
                let q0 = choose|q: int|
                    0 <= q < pre.len() && pre[q] == spec_gen_op(
                        m,
                        m.states[i].name,
                        m.states[i].transitions[j],
                    );
                assert(spec_ops_prefix(m, k)[q0] == pre[q0]);
            } else {
                let q0 = pre.len() + j;
                assert(spec_ops_prefix(m, k)[q0] == tail[j]);
            }
        }
    }
}

/// Law: the generated API attaches an operation for a (state name, event)
/// pair exactly when a state of that name declares a transition for the
/// event; no other state's type carries the operation.
#[verifier::rlimit(100)]
pub proof fn lemma_operations_exactly_declared(m: MachineV, source: Seq<char>, event: Seq<char>)
    ensures
        (exists|q: int|
            0 <= q < spec_api(m).operations.len() && (#[trigger] spec_api(m).operations[q]).source
                == source && spec_api(m).operations[q].event == event) <==> (exists|i: int, j: int|
            0 <= i < m.states.len() && (#[trigger] m.states[i]).name == source && 0 <= j
                < m.states[i].transitions.len() && (#[trigger] m.states[i].transitions[j]).event
                == event),
{
    let ops = spec_ops_prefix(m, m.states.len() as int);
    lemma_ops_prefix_membership(m, m.states.len() as int);
    assert(spec_api(m).operations == ops);
    if exists|q: int|
        0 <= q < ops.len() && (#[trigger] ops[q]).source == source && ops[q].event == event {
        let q = choose|q: int|
            0 <= q < ops.len() && (#[trigger] ops[q]).source == source && ops[q].event == event;
        let (i0, j0) = choose|i: int, j: int|
            0 <= i < m.states.len() && 0 <= j < m.states[i].transitions.len() && ops[q]
                == spec_gen_op(m, m.states[i].name, m.states[i].transitions[j]);
        assert(m.states[i0].name == source && m.states[i0].transitions[j0].event == event);
    }
    if exists|i: int, j: int|
        0 <= i < m.states.len() && (#[trigger] m.states[i]).name == source && 0 <= j
            < m.states[i].transitions.len() && (#[trigger] m.states[i].transitions[j]).event
            == event {
        let (i0, j0) = choose|i: int, j: int|
            0 <= i < m.states.len() && (#[trigger] m.states[i]).name == source && 0 <= j
                < m.states[i].transitions.len() && (#[trigger] m.states[i].transitions[j]).event
                == event;
        let q0 = choose|q: int|
            0 <= q < ops.len() && ops[q] == spec_gen_op(
                m,
                m.states[i0].name,
                m.states[i0].transitions[j0],
            );
        assert(0 <= q0 < spec_api(m).operations.len() && spec_api(m).operations[q0].source
            == source && spec_api(m).operations[q0].event == event);
    }
}

fn emit_state_enum(out: &mut String, ss: &Vec<GenStateType>)
    ensures
        final(out)@ == old(out)@ + state_enum_text(ss.deep_view()),
{
    out.append("pub enum State { ");
    let n = ss.len();
    let mut k: usize = 0;
    while k < n
        invariant
            n == ss.deep_view().len(),
            k <= n,
            out@ == old(out)@ + "pub enum State { "@ + state_names_prefix(ss.deep_view(), k as int),
        decreases n - k,
    {
        out.append(ss[k].name.as_str());
        out.append(", ");
        proof {
            assert(out@ =~= old(out)@ + "pub enum State { "@ + state_names_prefix(
                ss.deep_view(),
                k + 1 as int,
            ));
        }
        k = k + 1;
    }
    out.append("}\n");
    proof {
        assert(out@ =~= old(out)@ + state_enum_text(ss.deep_view()));
    }
}

fn emit_state_to_string(out: &mut String, ss: &Vec<GenStateType>)
    ensures
        final(out)@ == old(out)@ + state_to_string_text(ss.deep_view()),
{
    let ghost start = out@;
    out.append("impl State { pub fn to_string(&self) -> String { match self { ");
    let n = ss.len();
    let mut k: usize = 0;
    while k < n
        invariant
            n == ss.deep_view().len(),
            k <= n,
            out@ == start + "impl State { pub fn to_string(&self) -> String { match self { "@
                + state_arms_prefix(ss.deep_view(), k as int),
        decreases n - k,
    {
        out.append("State::");
        out.append(ss[k].name.as_str());
        out.append(" => String::from(\"");
        out.append(ss[k].name.as_str());
        out.append("\"), ");
        proof {
            assert(out@ =~= start
                + "impl State { pub fn to_string(&self) -> String { match self { "@
                + state_arms_prefix(ss.deep_view(), k + 1 as int));
        }
        k = k + 1;
    }
    out.append("} } }\n");
    proof {
        assert(out@ =~= start + state_to_string_text(ss.deep_view()));
    }
}

fn emit_hook_pair(out: &mut String, h: &GenHookPair, shared: &Option<String>)
    ensures
        final(out)@ == old(out)@ + hook_pair_text(h@, opt_view(*shared)),
{
    out.append("async fn on_enter_");
    out.append(h.snake.as_str());
    out.append("(&mut self, ctx: &mut S, id: &str, from: ");
    if h.from_optional {
        out.append("Option<State>");
    } else {
        out.append("State");
    }
    emit_opt(out, ", data: &", shared);
    emit_opt(out, ", state_data: &", &h.data_type);
    out.append(") -> Result<(), Self::Error> { Ok(()) } async fn on_exit_");
    out.append(h.snake.as_str());
    out.append("(&mut self, ctx: &mut S, id: &str, to: State");
    emit_opt(out, ", data: &", shared);
    emit_opt(out, ", state_data: &", &h.data_type);
    out.append(") -> Result<(), Self::Error> { Ok(()) } ");
    proof {
        assert(out@ =~= old(out)@ + hook_pair_text(h@, opt_view(*shared)));
    }
}

fn emit_observer(out: &mut String, hs: &Vec<GenHookPair>, shared: &Option<String>)
    ensures
        final(out)@ == old(out)@ + observer_text(hs.deep_view(), opt_view(*shared)),
{
    let ghost start = out@;
    out.append(
        "#[async_trait]\npub trait Observer<S: Send> { type Error; async fn on_init<T: Serialize + Send, U: Serialize + Send>(&mut self, ctx: &mut S, id: Option<String>, to: State, data: Option<T>, state_data: Option<U>) -> Result<Option<String>, Self::Error> { Ok(id) } async fn on_transition<T: Serialize + Send, U: Serialize + Send>(&mut self, ctx: &mut S, id: &str, from: State, to: State, data: Option<T>, state_data: Option<U>) -> Result<(), Self::Error> { Ok(()) } ",
    );
    let ghost head = out@;
    let n = hs.len();
    let mut k: usize = 0;
    while k < n
        invariant
            n == hs.deep_view().len(),
            k <= n,
            out@ == head + hooks_prefix(hs.deep_view(), opt_view(*shared), k as int),
        decreases n - k,
    {
        emit_hook_pair(out, &hs[k], shared);
        proof {
            assert(out@ =~= head + hooks_prefix(hs.deep_view(), opt_view(*shared), k + 1 as int));
        }
        k = k + 1;
    }
    out.append("}\n");
    proof {
        assert(out@ =~= start + observer_text(hs.deep_view(), opt_view(*shared)));
    }
}

fn emit_machine_struct(out: &mut String, machine: &String, shared: &Option<String>)
    ensures
        final(out)@ == old(out)@ + machine_struct_text(machine@, opt_view(*shared)),
{
    out.append("pub struct ");
    out.append(machine.as_str());
    out.append("<S, T: Send, U: Observer<T> + Send> { observer: U, id: String, pub state: S");
    emit_opt(out, ", data: ", shared);
    out.append(", phantom: PhantomData<T> }\n");
    proof {
        assert(out@ =~= old(out)@ + machine_struct_text(machine@, opt_view(*shared)));
    }
}

fn emit_state_type(out: &mut String, s: &GenStateType)
    ensures
        final(out)@ == old(out)@ + state_type_text(s@),
{
    match &s.data_type {
        Some(dt) => {
            out.append("pub struct ");
            out.append(s.name.as_str());
            out.append(" { data: ");
            out.append(dt.as_str());
            out.append(" } impl ");
            out.append(s.name.as_str());
            out.append(" { fn new(data: ");
            out.append(dt.as_str());
            out.append(") -> Self { Self { data } } pub fn data(&self) -> &");
            out.append(dt.as_str());
            out.append(" { &self.data } }\n");
        },
        None => {
            out.append("pub struct ");
            out.append(s.name.as_str());
            out.append(" {} impl ");
            out.append(s.name.as_str());
            out.append(" { fn new() -> Self { Self {} } }\n");
        },
    }
    proof {
        assert(out@ =~= old(out)@ + state_type_text(s@));
    }
}

fn emit_ctor(out: &mut String, machine: &String, name: &String, shared: &Option<String>)
    ensures
        final(out)@ == old(out)@ + ctor_text(machine@, name@, opt_view(*shared)),
{
    out.append("impl<S: Send, T: Observer<S> + Send> ");
    out.append(machine.as_str());
    out.append("<");
    out.append(name.as_str());
    out.append(", S, T> { fn new(observer: T, id: String, state: ");
    out.append(name.as_str());
    emit_opt(out, ", data: ", shared);
    out.append(") -> Self { Self { observer, id, state");
    if shared.is_some() {
        out.append(", data");
    }
    out.append(", phantom: PhantomData } } pub fn id(&self) -> &str { &self.id }");
    emit_opt(out, " pub fn data(&self) -> &", shared);
    if shared.is_some() {
        out.append(" { &self.data }");
    }
    out.append(" }\n");
    proof {
        assert(out@ =~= old(out)@ + ctor_text(machine@, name@, opt_view(*shared)));
    }
}

#[verifier::rlimit(100)]
fn emit_init_head(out: &mut String, machine: &String, e: &GenInitEntry, shared: &Option<String>)
    ensures
        final(out)@ == old(out)@ + init_text_head(machine@, e@, opt_view(*shared)),
{
    out.append("impl<S: Send, T: Observer<S> + Send> ");
    out.append(machine.as_str());
    out.append("<");
    out.append(e.state.as_str());
    out.append(", S, T> { pub async fn init(ctx: &mut S, mut observer: T, id: Option<String>");
    emit_opt(out, ", data: ", shared);
    emit_opt(out, ", state_data: ", &e.state_data_type);
    out.append(") -> Result<Self, InitError<T::Error>> { let id = observer.on_init(ctx, id, State::");
    out.append(e.state.as_str());
    out.append(", ");
    if shared.is_some() {
        out.append("Some(&data)");
    } else {
        out.append("Option::<()>::None");
    }
    out.append(", ");
    if e.state_data_type.is_some() {
        out.append("Some(&state_data)");
    } else {
        out.append("Option::<()>::None");
    }
    proof {
        assert(out@ =~= old(out)@ + init_text_head(machine@, e@, opt_view(*shared)));
    }
}

#[verifier::rlimit(100)]
fn emit_init_mid(out: &mut String, e: &GenInitEntry, shared: &Option<String>)
    ensures
        final(out)@ == old(out)@ + init_text_mid(e@, opt_view(*shared)),
{
    out.append(
        ").await.map_err(|e| InitError::ObserverError(e))?.ok_or(InitError::EmptyId)?; observer.on_enter_",
    );
    out.append(e.snake.as_str());
    out.append("(ctx, &id, None");
    if shared.is_some() {
        out.append(", &data");
    }
    if e.state_data_type.is_some() {
        out.append(", &state_data");
    }
    proof {
        assert(out@ =~= old(out)@ + init_text_mid(e@, opt_view(*shared)));
    }
}

#[verifier::rlimit(100)]
fn emit_init_tail(out: &mut String, e: &GenInitEntry, shared: &Option<String>)
    ensures
        final(out)@ == old(out)@ + init_text_tail(e@, opt_view(*shared)),
{
    out.append(").await.map_err(|e| InitError::ObserverError(e))?; Ok(Self::new(observer, id, ");
    out.append(e.state.as_str());
    out.append("::new(");
    if e.state_data_type.is_some() {
        out.append("state_data");
    }
    out.append(")");
    if shared.is_some() {
        out.append(", data");
    }
    out.append(")) } }\n");
    proof {
        assert(out@ =~= old(out)@ + init_text_tail(e@, opt_view(*shared)));
    }
}

fn emit_init(out: &mut String, machine: &String, e: &GenInitEntry, shared: &Option<String>)
    ensures
        final(out)@ == old(out)@ + init_text(machine@, e@, opt_view(*shared)),
{
    emit_init_head(out, machine, e, shared);
    emit_init_mid(out, e, shared);
    emit_init_tail(out, e, shared);
    proof {
        assert(out@ =~= old(out)@ + init_text(machine@, e@, opt_view(*shared)));
    }
}

#[verifier::rlimit(100)]
fn emit_op_head(out: &mut String, machine: &String, o: &GenOperation, shared: &Option<String>)
    ensures
        final(out)@ == old(out)@ + op_text_head(machine@, o@, opt_view(*shared)),
{
    out.append("impl<S: Send, T: Observer<S> + Send> ");
    out.append(machine.as_str());
    out.append("<");
    out.append(o.source.as_str());
    out.append(", S, T> { pub async fn ");
    out.append(o.event.as_str());
    out.append("(mut self, ctx: &mut S");
    emit_opt(out, ", data: ", &o.target_data_type);
    out.append(") -> Result<");
    out.append(machine.as_str());
    out.append("<");
    out.append(o.target.as_str());
    out.append(
        ", S, T>, TransitionError<T::Error>> { self.observer.on_transition(ctx, &self.id, State::",
    );
    out.append(o.source.as_str());
    out.append(", State::");
    out.append(o.target.as_str());
    out.append(", ");
    if shared.is_some() {
        out.append("Some(&self.data)");
    } else {
        out.append("Option::<()>::None");
    }
    out.append(", ");
    if o.target_data_type.is_some() {
        out.append("Some(&data)");
    } else {
        out.append("Option::<()>::None");
    }
    out.append(").await.map_err(|e| TransitionError::ObserverError(e))?; ");
    proof {
        assert(out@ =~= old(out)@ + op_text_head(machine@, o@, opt_view(*shared)));
    }
}

#[verifier::rlimit(100)]
fn emit_op_exit(out: &mut String, o: &GenOperation, shared: &Option<String>)
    ensures
        final(out)@ == old(out)@ + op_text_exit(o@, opt_view(*shared)),
{
    out.append("self.observer.on_exit_");
    out.append(o.source_snake.as_str());
    out.append("(ctx, &self.id, State::");
    out.append(o.target.as_str());
    if shared.is_some() {
        out.append(", &self.data");
    }
    if o.source_has_data {
        out.append(", &self.state.data");
    }
    out.append(").await.map_err(|e| TransitionError::ObserverError(e))?; ");
    proof {
        assert(out@ =~= old(out)@ + op_text_exit(o@, opt_view(*shared)));
    }
}

#[verifier::rlimit(100)]
fn emit_op_enter(out: &mut String, o: &GenOperation, shared: &Option<String>)
    ensures
        final(out)@ == old(out)@ + op_text_enter(o@, opt_view(*shared)),
{
    out.append("self.observer.on_enter_");
    out.append(o.target_snake.as_str());
    out.append("(ctx, &self.id, ");
    if o.enter_from_optional {
        out.append("Some(State::");
        out.append(o.source.as_str());
        out.append(")");
    } else {
        out.append("State::");
        out.append(o.source.as_str());
    }
    if shared.is_some() {
        out.append(", &self.data");
    }
    if o.target_data_type.is_some() {
        out.append(", &data");
    }
    out.append(").await.map_err(|e| TransitionError::ObserverError(e))?; ");
    proof {
        assert(out@ =~= old(out)@ + op_text_enter(o@, opt_view(*shared)));
    }
}

fn emit_op_mid(out: &mut String, o: &GenOperation, shared: &Option<String>)
    ensures
        final(out)@ == old(out)@ + op_text_mid(o@, opt_view(*shared)),
{
    emit_op_exit(out, o, shared);
    emit_op_enter(out, o, shared);
    proof {
        assert(out@ =~= old(out)@ + op_text_mid(o@, opt_view(*shared)));
    }
}

#[verifier::rlimit(100)]
fn emit_op_tail(out: &mut String, machine: &String, o: &GenOperation, shared: &Option<String>)
    ensures
        final(out)@ == old(out)@ + op_text_tail(machine@, o@, opt_view(*shared)),
{
    out.append("Ok(");
    out.append(machine.as_str());
    out.append("::<");
    out.append(o.target.as_str());
    out.append(", S, T>::new(self.observer, self.id, ");
    out.append(o.target.as_str());
    out.append("::new(");
    if o.target_data_type.is_some() {
        out.append("data");
    }
    out.append(")");
    if shared.is_some() {
        out.append(", self.data");
    }
    out.append(")) } }\n");
    proof {
        assert(out@ =~= old(out)@ + op_text_tail(machine@, o@, opt_view(*shared)));
    }
}

fn emit_op(out: &mut String, machine: &String, o: &GenOperation, shared: &Option<String>)
    ensures
        final(out)@ == old(out)@ + op_text(machine@, o@, opt_view(*shared)),
{
    emit_op_head(out, machine, o, shared);
    emit_op_mid(out, o, shared);
    emit_op_tail(out, machine, o, shared);
    proof {
        assert(out@ =~= old(out)@ + op_text(machine@, o@, opt_view(*shared)));
    }
}

fn emit_wrapped(out: &mut String, wrapped: &String, machine: &String, ss: &Vec<GenStateType>)
    ensures
        final(out)@ == old(out)@ + wrapped_text(wrapped@, machine@, ss.deep_view()),
{
    let ghost start = out@;
    out.append("pub enum ");
    out.append(wrapped.as_str());
    out.append("<S: Send, T: Observer<S> + Send> { ");
    let ghost head = out@;
    let n = ss.len();
    let mut k: usize = 0;
    while k < n
        invariant
            n == ss.deep_view().len(),
            k <= n,
            out@ == head + wrapped_variants_prefix(machine@, ss.deep_view(), k as int),
        decreases n - k,
    {
        out.append(ss[k].name.as_str());
        out.append("(");
        out.append(machine.as_str());
        out.append("<");
        out.append(ss[k].name.as_str());
        out.append(", S, T>), ");
        proof {
            assert(out@ =~= head + wrapped_variants_prefix(
                machine@,
                ss.deep_view(),
                k + 1 as int,
            ));
        }
        k = k + 1;
    }
    out.append("}\n");
    proof {
        assert(out@ =~= start + wrapped_text(wrapped@, machine@, ss.deep_view()));
    }
}

#[verifier::rlimit(100)]
fn emit_restore(
    out: &mut String,
    machine: &String,
    wrapped: &String,
    shared: &Option<String>,
    p: &GenRestoreProc,
)
    ensures
        final(out)@ == old(out)@ + restore_text(machine@, wrapped@, opt_view(*shared), p@),
{
    out.append("async fn restore_");
    out.append(p.snake.as_str());
    out.append(
        "<S: Send, T: Observer<S> + Send>(observer: T, id: String, data: Option<Encoded>, state_data: Option<Encoded>) -> Result<",
    );
    out.append(wrapped.as_str());
    out.append("<S, T>, RestoreError> { ");
    proof {
        assert(out@ =~= old(out)@ + restore_text_head(wrapped@, p@));
    }
    let ghost c1 = out@;
    match shared {
        Some(sdt) => {
            out.append("let shared_d: ");
            out.append(sdt.as_str());
            out.append(
                " = match data.ok_or(RestoreError::EmptyData)? { Encoded::Json(v) => serde_json::from_value(v).ok().ok_or(RestoreError::InvalidData)? }; ",
            );
        },
        None => {
            out.append("if data.is_some() { return Err(RestoreError::UnexpectedData) }; ");
        },
    }
    match &p.data_type {
        Some(dt) => {
            out.append("let state_d: ");
            out.append(dt.as_str());
            out.append(
                " = match state_data.ok_or(RestoreError::EmptyData)? { Encoded::Json(v) => serde_json::from_value(v).ok().ok_or(RestoreError::InvalidData)? }; ",
            );
        },
        None => {
            out.append("if state_data.is_some() { return Err(RestoreError::UnexpectedData) }; ");
        },
    }
    proof {
        assert(out@ =~= c1 + restore_text_mid(opt_view(*shared), p@));
    }
    let ghost c2 = out@;
    out.append("Ok(");
    out.append(wrapped.as_str());
    out.append("::");
    out.append(p.state.as_str());
    out.append("(");
    out.append(machine.as_str());
    out.append("::<");
    out.append(p.state.as_str());
    out.append(", S, T>::new(observer, id, ");
    out.append(p.state.as_str());
    out.append("::new(");
    if p.data_type.is_some() {
        out.append("state_d");
    }
    out.append(")");
    if p.needs_shared {
        out.append(", shared_d");
    }
    out.append("))) }\n");
    proof {
        assert(out@ =~= c2 + restore_text_tail(machine@, wrapped@, p@));
        assert(out@ =~= old(out)@ + restore_text(machine@, wrapped@, opt_view(*shared), p@));
    }
}

fn emit_dispatcher(out: &mut String, wrapped: &String, ps: &Vec<GenRestoreProc>)
    ensures
        final(out)@ == old(out)@ + dispatcher_text(wrapped@, ps.deep_view()),
{
    let ghost start = out@;
    out.append(
        "pub async fn restore<S: Send, T: Observer<S> + Send>(observer: T, id: String, state_string: String, data: Option<Encoded>, state_data: Option<Encoded>) -> Result<",
    );
    out.append(wrapped.as_str());
    out.append("<S, T>, RestoreError> { match state_string.as_str() { ");
    let ghost head = out@;
    let n = ps.len();
    let mut k: usize = 0;
    while k < n
        invariant
            n == ps.deep_view().len(),
            k <= n,
            out@ == head + dispatch_arms_prefix(ps.deep_view(), k as int),
        decreases n - k,
    {
        out.append("\"");
        out.append(ps[k].state.as_str());
        out.append("\" => restore_");
        out.append(ps[k].snake.as_str());
        out.append("(observer, id, data, state_data).await, ");
        proof {
            assert(out@ =~= head + dispatch_arms_prefix(ps.deep_view(), k + 1 as int));
        }
        k = k + 1;
    }
    out.append("_ => Err(RestoreError::InvalidState) } }\n");
    proof {
        assert(out@ =~= start + dispatcher_text(wrapped@, ps.deep_view()));
    }
}

/// Renders the generated API as source text, exactly as the templates of
/// `render_text` lay it out.
pub fn render(api: &GeneratedApi) -> (r: String)
    ensures
        r@ == render_text(api@),
{
    let mut out = String::new();
    out.append(
        "pub enum InitError<E> { EmptyId, ObserverError(E) }\npub enum TransitionError<E> { ObserverError(E) }\npub enum RestoreError { EmptyData, UnexpectedData, InvalidData, InvalidState }\npub enum RetrieveError<E> { RestoreError(RestoreError), RetrieverError(E) }\npub enum Encoded { Json(serde_json::Value) }\n",
    );
    emit_state_enum(&mut out, &api.states);
    emit_state_to_string(&mut out, &api.states);
    emit_observer(&mut out, &api.hooks, &api.shared_data_type);
    out.append(
        "#[async_trait]\npub trait Retriever<T: Send> { type RetrieverError; async fn on_retrieve(&mut self, ctx: &mut T, id: &str) -> Result<(String, Option<Encoded>, Option<Encoded>), Self::RetrieverError>; }\n",
    );
    emit_machine_struct(&mut out, &api.machine, &api.shared_data_type);
    let n = api.states.len();
    let mut k: usize = 0;
    while k < n
        invariant
            n == api.states.deep_view().len(),
            k <= n,
            out@ == render_head(api@) + state_types_prefix(api.states.deep_view(), k as int),
        decreases n - k,
    {
        emit_state_type(&mut out, &api.states[k]);
        proof {
            assert(out@ =~= render_head(api@) + state_types_prefix(
                api.states.deep_view(),
                k + 1 as int,
            ));
        }
        k = k + 1;
    }
    let mut k2: usize = 0;
    while k2 < n
        invariant
            n == api.states.deep_view().len(),
            k2 <= n,
            out@ == render_head(api@) + state_types_prefix(
                api.states.deep_view(),
                api.states.deep_view().len() as int,
            ) + ctors_prefix(
                api.machine@,
                api.states.deep_view(),
                opt_view(api.shared_data_type),
                k2 as int,
            ),
        decreases n - k2,
    {
        emit_ctor(&mut out, &api.machine, &api.states[k2].name, &api.shared_data_type);
        proof {
            assert(out@ =~= render_head(api@) + state_types_prefix(
                api.states.deep_view(),
                api.states.deep_view().len() as int,
            ) + ctors_prefix(
                api.machine@,
                api.states.deep_view(),
                opt_view(api.shared_data_type),
                k2 + 1 as int,
            ));
        }
        k2 = k2 + 1;
    }
    let ghost mid = out@;
    let ni = api.inits.len();
    let mut k3: usize = 0;
    while k3 < ni
        invariant
            ni == api.inits.deep_view().len(),
            k3 <= ni,
            out@ == mid + inits_prefix_text(
                api.machine@,
                api.inits.deep_view(),
                opt_view(api.shared_data_type),
                k3 as int,
            ),
        decreases ni - k3,
    {
        emit_init(&mut out, &api.machine, &api.inits[k3], &api.shared_data_type);
        proof {
            assert(out@ =~= mid + inits_prefix_text(
                api.machine@,
                api.inits.deep_view(),
                opt_view(api.shared_data_type),
                k3 + 1 as int,
            ));
        }
        k3 = k3 + 1;
    }
    let ghost mid2 = out@;
    let no = api.operations.len();
    let mut k4: usize = 0;
    while k4 < no
        invariant
            no == api.operations.deep_view().len(),
            k4 <= no,
            out@ == mid2 + ops_prefix_text(
                api.machine@,
                api.operations.deep_view(),
                opt_view(api.shared_data_type),
                k4 as int,
            ),
        decreases no - k4,
    {
        emit_op(&mut out, &api.machine, &api.operations[k4], &api.shared_data_type);
        proof {
            assert(out@ =~= mid2 + ops_prefix_text(
                api.machine@,
                api.operations.deep_view(),
                opt_view(api.shared_data_type),
                k4 + 1 as int,
            ));
        }
        k4 = k4 + 1;
    }
    emit_wrapped(&mut out, &api.wrapped, &api.machine, &api.states);
    let ghost mid3 = out@;
    let nr = api.restores.len();
    let mut k5: usize = 0;
    while k5 < nr
        invariant
            nr == api.restores.deep_view().len(),
            k5 <= nr,
            out@ == mid3 + restores_prefix_text(
                api.machine@,
                api.wrapped@,
                opt_view(api.shared_data_type),
                api.restores.deep_view(),
                k5 as int,
            ),
        decreases nr - k5,
    {
        emit_restore(
            &mut out,
            &api.machine,
            &api.wrapped,
            &api.shared_data_type,
            &api.restores[k5],
        );
        proof {
            assert(out@ =~= mid3 + restores_prefix_text(
                api.machine@,
                api.wrapped@,
                opt_view(api.shared_data_type),
                api.restores.deep_view(),
                k5 + 1 as int,
            ));
        }
        k5 = k5 + 1;
    }
    emit_dispatcher(&mut out, &api.wrapped, &api.restores);
    out.append(
        "pub async fn retrieve<S: Send, T: Retriever<S> + Observer<S> + Send>(ctx: &mut S, mut retriever: T, id: String) -> Result<",
    );
    out.append(api.wrapped.as_str());
    out.append(
        "<S, T>, RetrieveError<T::RetrieverError>> { let (state_string, maybe_data, maybe_state_data) = retriever.on_retrieve(ctx, &id).await.map_err(|e| RetrieveError::RetrieverError(e))?; restore(retriever, id, state_string, maybe_data, maybe_state_data).await.map_err(|e| RetrieveError::RestoreError(e)) }\n",
    );
    proof {
        assert(out@ =~= render_text(api@));
    }
    out
}

/// The text up to and including the machine struct: the sections that precede
/// the per-state types.
pub open spec fn render_head(a: GeneratedApiV) -> Seq<char> {
    prelude_text() + state_enum_text(a.states) + state_to_string_text(a.states) + observer_text(
        a.hooks,
        a.shared_data_type,
    ) + retriever_text() + machine_struct_text(a.machine, a.shared_data_type)
}

/// The whole compiler: reads a machine description and emits the generated
/// API's source text.  It succeeds exactly when the lexer reads the input and
/// the grammar derives it, and then the text is the rendering of the emitted
/// structure of the parsed machine; the error carries the position at which
/// reading stopped.
pub fn statemachine(input: &str) -> (r: Result<String, ParseError>)
    ensures
        r is Ok <==> (lex_from(input@, 0) matches Some(ts) && spec_parse_machine(ts) is Some),
        r matches Ok(text) ==> (lex_from(input@, 0) matches Some(ts) && spec_parse_machine(
            ts,
        ) matches Some(m) && text@ == render_text(spec_api(m))),
{
    let cs = crate::lexer::str_chars(input);
    let toks = match tokenize_from(&cs, 0) {
        Some(t) => t,
        None => {
            return Err(ParseError { position: 0 });
        },
    };
    let m = match Machine::parse(&toks) {
        Ok(m) => m,
        Err(e) => {
            return Err(e);
        },
    };
    let api = m.build_api();
    Ok(render(&api))
}

} // verus!
