use serde_json::Value;
use statemachine::ast::Machine;
use statemachine::lexer::{str_chars, tokenize_from};
use statemachine::runtime::{
    complete_transition, hook_sequence, init_instance, resolve_init_id, restore_instance,
    retrieve_plan, transition_hook_outcome, Encoded, HookCall, InitError, Instance, RestoreError,
    RetrieveError, TransitionError,
};

const ORDER_SRC: &str = "Order : Cart {\n  init Created { pay => Paid },\n  Paid : Receipt { ship => Shipped },\n  Shipped { }\n}";

fn parse(src: &str) -> Machine {
    let cs = str_chars(src);
    let toks = tokenize_from(&cs, 0).expect("lexes");
    Machine::parse(&toks).expect("parses")
}

#[test]
fn semantic_lookups() {
    let m = parse(ORDER_SRC);
    assert_eq!(m.state_index("Created"), Some(0));
    assert_eq!(m.state_index("Shipped"), Some(2));
    assert_eq!(m.state_index("Refunded"), None);
    assert!(m.is_init_state("Created"));
    assert!(!m.is_init_state("Paid"));
    assert!(!m.is_init_state("Refunded"));
    assert_eq!(m.state_data_type("Paid").map(|t| t.as_str()), Some("Receipt"));
    assert!(m.state_data_type("Created").is_none());
}

#[test]
fn duplicate_names_keep_the_last_declared_data_type() {
    let m = parse("M { init A : X { }, A : Y { }, A { } }");
    // the first index answers for dispatch, the last declared data type for
    // the lookup
    assert_eq!(m.state_index("A"), Some(0));
    assert_eq!(m.state_data_type("A").map(|t| t.as_str()), Some("Y"));
    assert!(m.is_init_state("A"));
}

#[test]
fn init_on_a_data_bearing_initial_state() {
    let m = parse("Game { init Lobby : Roster { start => Running }, Running { } }");
    let roster = Value::String("two players".to_string());
    let inst: Instance<Value> =
        init_instance(&m, 0, "g1".to_string(), None, Some(roster.clone()));
    assert_eq!(inst.id(), "g1");
    assert!(inst.data().is_none());
    assert_eq!(inst.state_data.as_ref(), Some(&roster));
    let plan = m.transition_plan(0, "start").expect("start is declared");
    let running = complete_transition(&m, inst, &plan, None);
    assert_eq!(running.state, 1);
    assert!(running.state_data.is_none());
    assert!(running.shared_data.is_none());
}

#[test]
fn operations_exist_only_where_declared() {
    let m = parse(ORDER_SRC);
    assert!(m.transition_plan(0, "pay").is_some());
    assert!(m.transition_plan(0, "ship").is_none());
    assert!(m.transition_plan(1, "ship").is_some());
    assert!(m.transition_plan(1, "pay").is_none());
    assert!(m.transition_plan(2, "pay").is_none());
    assert!(m.transition_plan(2, "ship").is_none());
    let p = m.transition_plan(0, "pay").unwrap();
    assert_eq!(p.source, 0);
    assert_eq!(p.target, 1);
}

#[test]
fn undeclared_target_has_no_plan() {
    let m = parse("M { init A { go => Nowhere } }");
    assert!(m.transition_plan(0, "go").is_none());
}

#[test]
fn hooks_fire_in_order() {
    let m = parse(ORDER_SRC);
    let p = m.transition_plan(0, "pay").unwrap();
    let hooks = hook_sequence(&p);
    assert_eq!(hooks.len(), 3);
    assert!(matches!(hooks[0], HookCall::Transition { from: 0, to: 1 }));
    assert!(matches!(hooks[1], HookCall::Exit { from: 0, to: 1 }));
    assert!(matches!(hooks[2], HookCall::Enter { from: Some(0), to: 1 }));
}

#[test]
fn init_id_comes_from_the_hook() {
    // the hook returned an identifier: it is the one used
    assert!(matches!(
        resolve_init_id::<String>(Ok(Some("o1".to_string()))),
        Ok(ref id) if id == "o1"
    ));
    // neither the caller nor the hook produced one: the missing-identifier failure
    assert!(matches!(
        resolve_init_id::<String>(Ok(None)),
        Err(InitError::EmptyId)
    ));
    // the hook failed: its error, wrapped
    assert!(matches!(
        resolve_init_id::<String>(Err("boom".to_string())),
        Err(InitError::ObserverError(ref e)) if e == "boom"
    ));
}

#[test]
fn a_failed_hook_aborts_the_transition_with_its_error_wrapped() {
    assert!(matches!(
        transition_hook_outcome::<String>(Err("hook refused".to_string())),
        Err(TransitionError::ObserverError(ref e)) if e == "hook refused"
    ));
    assert!(transition_hook_outcome::<String>(Ok(())).is_ok());
}

#[test]
fn restore_plan_policy() {
    let m = parse(ORDER_SRC);
    let cart = Some(Encoded::Json(Value::String("cart".to_string())));
    let receipt = Some(Encoded::Json(Value::String("receipt".to_string())));
    // unregistered state name
    assert!(matches!(
        m.restore_plan("Refunded", &cart, &receipt),
        Err(RestoreError::InvalidState)
    ));
    // required shared data absent
    assert!(matches!(
        m.restore_plan("Created", &None, &None),
        Err(RestoreError::EmptyData)
    ));
    // required state data absent
    assert!(matches!(
        m.restore_plan("Paid", &cart, &None),
        Err(RestoreError::EmptyData)
    ));
    // state data supplied though Created declares none
    assert!(matches!(
        m.restore_plan("Created", &cart, &receipt),
        Err(RestoreError::UnexpectedData)
    ));
    // everything in place
    let p = m.restore_plan("Paid", &cart, &receipt).expect("plan");
    assert_eq!(p.state, 1);
    assert!(p.decode_shared);
    assert!(p.decode_state);
}

#[test]
fn restore_plan_rejects_shared_data_where_none_is_declared() {
    let m = parse("Door { init Open { close => Closed }, Closed { open => Open } }");
    let stray = Some(Encoded::Json(Value::Null));
    assert!(matches!(
        m.restore_plan("Open", &stray, &None),
        Err(RestoreError::UnexpectedData)
    ));
    let p = m.restore_plan("Open", &None, &None).expect("plan");
    assert!(!p.decode_shared);
    assert!(!p.decode_state);
}

#[test]
fn restore_fails_invalid_data_on_a_failed_decode() {
    let m = parse(ORDER_SRC);
    let cart = Some(Encoded::Json(Value::String("cart".to_string())));
    let receipt = Some(Encoded::Json(Value::String("receipt".to_string())));
    let p = m.restore_plan("Paid", &cart, &receipt).expect("plan");
    // the shared payload failed to decode
    let r: Result<Instance<Value>, RestoreError> =
        restore_instance(&m, &p, "o1".to_string(), Some(None), Some(Some(Value::Null)));
    assert!(matches!(r, Err(RestoreError::InvalidData)));
    // the state payload failed to decode
    let r2: Result<Instance<Value>, RestoreError> = restore_instance(
        &m,
        &p,
        "o1".to_string(),
        Some(Some(Value::Null)),
        Some(None),
    );
    assert!(matches!(r2, Err(RestoreError::InvalidData)));
}

#[test]
fn retrieve_distinguishes_store_and_restore_failures() {
    let m = parse(ORDER_SRC);
    let r = retrieve_plan::<String>(&m, Err("store down".to_string()));
    assert!(matches!(r, Err(RetrieveError::RetrieverError(ref e)) if e == "store down"));
    let fetched = Ok((
        "Refunded".to_string(),
        Some(Encoded::Json(Value::Null)),
        None,
    ));
    let r2 = retrieve_plan::<String>(&m, fetched);
    assert!(matches!(
        r2,
        Err(RetrieveError::RestoreError(RestoreError::InvalidState))
    ));
    let fetched3 = Ok((
        "Shipped".to_string(),
        Some(Encoded::Json(Value::String("cart".to_string()))),
        None,
    ));
    let p = retrieve_plan::<String>(&m, fetched3).expect("plan");
    assert_eq!(p.state, 2);
    assert!(p.decode_shared);
    assert!(!p.decode_state);
}

#[test]
fn order_scenario_end_to_end() {
    let m = parse(ORDER_SRC);
    let cart = Value::String("three apples".to_string());
    let receipt = Value::String("paid 3".to_string());

    // init with no caller-supplied id; the observer's hook answers "o1"
    let mut calls: Vec<&str> = Vec::new();
    calls.push("on_init");
    let id = resolve_init_id::<String>(Ok(Some("o1".to_string()))).expect("id resolved");
    calls.push("on_enter_created");
    let inst: Instance<Value> = init_instance(&m, 0, id, Some(cart.clone()), None);
    assert_eq!(inst.id(), "o1");
    assert_eq!(inst.data().as_ref(), Some(&cart));
    assert_eq!(inst.state, 0);

    // pay(receipt): the three hooks fire in order, then the Paid instance
    let plan = m.transition_plan(inst.state, "pay").expect("pay is declared");
    for h in hook_sequence(&plan) {
        match h {
            HookCall::Transition { .. } => calls.push("on_transition"),
            HookCall::Exit { .. } => calls.push("on_exit_created"),
            HookCall::Enter { .. } => calls.push("on_enter_paid"),
            HookCall::Init { .. } => calls.push("on_init"),
        }
    }
    let paid = complete_transition(&m, inst, &plan, Some(receipt.clone()));
    assert_eq!(paid.state, 1);
    assert_eq!(paid.id(), "o1");
    assert_eq!(paid.data().as_ref(), Some(&cart));
    assert_eq!(paid.state_data.as_ref(), Some(&receipt));
    assert_eq!(
        calls,
        vec!["on_init", "on_enter_created", "on_transition", "on_exit_created", "on_enter_paid"],
    );

    // restoring "Paid" from the same encoded payloads reconstructs an
    // instance observably equal to the live one, with no hook involved
    let p = m
        .restore_plan(
            "Paid",
            &Some(Encoded::Json(cart.clone())),
            &Some(Encoded::Json(receipt.clone())),
        )
        .expect("plan");
    let restored: Instance<Value> = restore_instance(
        &m,
        &p,
        "o1".to_string(),
        Some(Some(cart.clone())),
        Some(Some(receipt.clone())),
    )
    .expect("restores");
    assert_eq!(restored.state, paid.state);
    assert_eq!(restored.id(), paid.id());
    assert_eq!(restored.shared_data, paid.shared_data);
    assert_eq!(restored.state_data, paid.state_data);
}
