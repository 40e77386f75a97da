use statemachine::ast::Machine;
use statemachine::codegen::statemachine;
use statemachine::lexer::{str_chars, tokenize_from, Token};

const ORDER_SRC: &str = "Order : Cart {\n  init Created { pay => Paid },\n  Paid : Receipt { ship => Shipped },\n  Shipped { }\n}";

fn parse_order() -> Machine {
    let cs = str_chars(ORDER_SRC);
    let toks = tokenize_from(&cs, 0).expect("lexes");
    Machine::parse(&toks).expect("parses")
}

#[test]
fn lexes_idents_and_punctuation() {
    let cs = str_chars("init Created { pay => Paid }");
    let toks = tokenize_from(&cs, 0).expect("lexes");
    assert_eq!(toks.len(), 7);
    assert!(matches!(&toks[0], Token::Ident(s) if s == "init"));
    assert!(matches!(&toks[1], Token::Ident(s) if s == "Created"));
    assert!(matches!(&toks[2], Token::LBrace));
    assert!(matches!(&toks[3], Token::Ident(s) if s == "pay"));
    assert!(matches!(&toks[4], Token::Arrow));
    assert!(matches!(&toks[5], Token::Ident(s) if s == "Paid"));
    assert!(matches!(&toks[6], Token::RBrace));
}

#[test]
fn lexer_rejects_stray_characters() {
    let cs = str_chars("Order ; {}");
    assert!(tokenize_from(&cs, 0).is_none());
    let cs2 = str_chars("a = b");
    assert!(tokenize_from(&cs2, 0).is_none());
}

#[test]
fn parses_the_order_machine() {
    let m = parse_order();
    assert_eq!(m.name, "Order");
    assert_eq!(m.shared_data_type.as_deref(), Some("Cart"));
    assert_eq!(m.states.len(), 3);
    assert!(m.states[0].init);
    assert_eq!(m.states[0].name, "Created");
    assert!(m.states[0].associated_data_type.is_none());
    assert_eq!(m.states[0].transitions.len(), 1);
    assert_eq!(m.states[0].transitions[0].event, "pay");
    assert_eq!(m.states[0].transitions[0].next_state, "Paid");
    assert!(!m.states[1].init);
    assert_eq!(m.states[1].associated_data_type.as_deref(), Some("Receipt"));
    assert_eq!(m.states[2].name, "Shipped");
    assert!(m.states[2].transitions.is_empty());
}

#[test]
fn parses_trailing_commas_and_empty_bodies() {
    let cs = str_chars("M { A { x => B, }, B { }, }");
    let toks = tokenize_from(&cs, 0).expect("lexes");
    let m = Machine::parse(&toks).expect("parses");
    assert_eq!(m.states.len(), 2);
    assert_eq!(m.states[0].transitions.len(), 1);
}

#[test]
fn parse_rejects_malformed_input() {
    for src in [
        "",
        "M",
        "M {",
        "M { A }",
        "M { A { x => } }",
        "M { A { } } trailing",
        "M : { A { } }",
        "M { init { } }",
    ] {
        let cs = str_chars(src);
        match tokenize_from(&cs, 0) {
            None => continue,
            Some(toks) => assert!(Machine::parse(&toks).is_err(), "accepted: {}", src),
        }
    }
}

#[test]
fn statemachine_emits_the_order_api() {
    let out = statemachine(ORDER_SRC).expect("compiles");
    assert!(out.contains("pub enum State { Created, Paid, Shipped, }"));
    assert!(out.contains("State::Paid => String::from(\"Paid\")"));
    assert!(out.contains("pub struct Created {}"));
    assert!(out.contains("pub struct Paid { data: Receipt }"));
    assert!(out.contains("pub struct Order<S, T: Send, U: Observer<T> + Send>"));
    assert!(out.contains(", data: Cart, phantom: PhantomData<T> }"));
    assert!(out.contains("pub enum WrappedOrder<S: Send, T: Observer<S> + Send> { Created(Order<Created, S, T>), Paid(Order<Paid, S, T>), Shipped(Order<Shipped, S, T>), }"));
    assert!(out.contains("pub async fn pay(mut self, ctx: &mut S, data: Receipt) -> Result<Order<Paid, S, T>, TransitionError<T::Error>>"));
    assert!(out.contains("pub async fn ship(mut self, ctx: &mut S) -> Result<Order<Shipped, S, T>, TransitionError<T::Error>>"));
    assert!(out.contains("\"Paid\" => restore_paid(observer, id, data, state_data).await"));
    assert!(out.contains("_ => Err(RestoreError::InvalidState)"));
    assert!(out.contains("pub async fn retrieve"));
    // the only init entry point is Created's, and Created has no state data
    assert!(out.contains("Order<Created, S, T> { pub async fn init(ctx: &mut S, mut observer: T, id: Option<String>, data: Cart)"));
    assert_eq!(out.matches("pub async fn init(").count(), 1);
}

#[test]
fn transition_text_orders_hooks() {
    let out = statemachine(ORDER_SRC).expect("compiles");
    let pay_at = out.find("pub async fn pay(").expect("pay exists");
    let body = &out[pay_at..];
    let t = body.find("on_transition(").expect("notifies the transition");
    let x = body.find("on_exit_created(").expect("exits the source");
    let e = body.find("on_enter_paid(").expect("enters the target");
    assert!(t < x && x < e);
}

#[test]
fn hook_names_are_snake_case() {
    let out = statemachine("M { init MyLongState { go => MyLongState } }").expect("compiles");
    assert!(out.contains("on_enter_my_long_state"));
    assert!(out.contains("on_exit_my_long_state"));
    assert!(out.contains("restore_my_long_state"));
    assert!(!out.contains("on_enter_MyLongState"));
    // the target is itself initial, so its enter hook takes an optional
    // predecessor even on the declared edge
    assert!(out.contains("on_enter_my_long_state(ctx, &self.id, Some(State::MyLongState))"));
}

#[test]
fn restore_text_follows_the_decode_policy() {
    let out = statemachine(ORDER_SRC).expect("compiles");
    let paid = out.find("async fn restore_paid").expect("restore_paid exists");
    let body = &out[paid..];
    assert!(body.starts_with("async fn restore_paid<S: Send, T: Observer<S> + Send>(observer: T, id: String, data: Option<Encoded>, state_data: Option<Encoded>)"));
    assert!(body.contains("let shared_d: Cart = match data.ok_or(RestoreError::EmptyData)?"));
    assert!(body.contains("let state_d: Receipt = match state_data.ok_or(RestoreError::EmptyData)?"));
    let created = out.find("async fn restore_created").expect("restore_created exists");
    let cbody = &out[created..];
    assert!(cbody.contains("if state_data.is_some() { return Err(RestoreError::UnexpectedData) }"));
}

#[test]
fn no_shared_data_machine_omits_the_field() {
    let out = statemachine("Door { init Open { close => Closed }, Closed { open => Open } }")
        .expect("compiles");
    assert!(out.contains("pub struct Door<S, T: Send, U: Observer<T> + Send> { observer: U, id: String, pub state: S, phantom: PhantomData<T> }"));
    assert!(out.contains("if data.is_some() { return Err(RestoreError::UnexpectedData) }"));
    // both states are initial targets of each other, so both enter hooks are optional
    assert!(out.contains("from: Option<State>"));
}

#[test]
fn build_api_lists_exactly_the_declared_edges() {
    let m = parse_order();
    let api = m.build_api();
    assert_eq!(api.machine, "Order");
    assert_eq!(api.wrapped, "WrappedOrder");
    assert_eq!(api.shared_data_type.as_deref(), Some("Cart"));
    assert_eq!(api.states.len(), 3);
    assert_eq!(api.inits.len(), 1);
    assert_eq!(api.inits[0].state, "Created");
    assert_eq!(api.operations.len(), 2);
    assert_eq!(api.operations[0].source, "Created");
    assert_eq!(api.operations[0].event, "pay");
    assert_eq!(api.operations[0].target, "Paid");
    assert_eq!(api.operations[0].target_data_type.as_deref(), Some("Receipt"));
    assert!(!api.operations[0].enter_from_optional);
    assert!(!api.operations[0].source_has_data);
    assert_eq!(api.operations[1].source, "Paid");
    assert_eq!(api.operations[1].event, "ship");
    assert!(api.operations[1].source_has_data);
    assert_eq!(api.hooks.len(), 3);
    assert!(api.hooks[0].from_optional);
    assert!(!api.hooks[1].from_optional);
    assert_eq!(api.restores.len(), 3);
    assert!(api.restores[0].needs_shared);
    assert!(api.restores[0].data_type.is_none());
    assert_eq!(api.restores[1].data_type.as_deref(), Some("Receipt"));
}

#[test]
fn init_with_state_data_takes_both_payloads() {
    let out = statemachine("Game : Board { init Lobby : Roster { start => Running }, Running { } }")
        .expect("compiles");
    assert!(out.contains(
        "pub async fn init(ctx: &mut S, mut observer: T, id: Option<String>, data: Board, state_data: Roster)"
    ));
    assert!(out.contains("observer.on_init(ctx, id, State::Lobby, Some(&data), Some(&state_data))"));
    assert!(out.contains("Ok(Self::new(observer, id, Lobby::new(state_data), data))"));
}

#[test]
fn undeclared_targets_pass_through_unvalidated() {
    let out = statemachine("M { init A { go => Nowhere } }").expect("compiles");
    assert!(out.contains("pub async fn go(mut self, ctx: &mut S)"));
    assert!(out.contains("Result<M<Nowhere, S, T>, TransitionError<T::Error>>"));
}
