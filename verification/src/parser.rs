//! Parser for the machine-description language, over the lexer's tokens.
//!
//! The grammar:
//!
//! ```text
//! Machine         := Ident (":" Ident)? "{" StateDefinition ("," StateDefinition)* "}"
//! StateDefinition := "init"? Ident (":" Ident)? "{" StateTransition ("," StateTransition)* "}"
//! StateTransition := Ident "=>" Ident
//! ```
//!
//! Both lists may be empty and may end with a trailing separator.  A state
//! whose first identifier reads `init` is flagged initial and must be followed
//! by the state's name.  Each executable parser is proved equal to its
//! mathematical twin (`spec_parse_*`), so an input parses successfully exactly
//! when the grammar derives it, and then to the one abstract syntax tree the
//! grammar gives it.

use vstd::prelude::*;
use vstd::string::StringExecFns;
use crate::ast::{Machine, StateDefinition, StateTransition, MachineV, StateDefV, TransitionV};
use crate::lexer::{Token, TokenV};

verus! {

/// A syntax error: the token position at which parsing stopped.
#[derive(Debug)]
pub struct ParseError {
    pub position: usize,
}

/// One transition read at token position `i`: `Ident "=>" Ident`, three
/// tokens, and the position after them.
pub open spec fn spec_parse_transition(ts: Seq<TokenV>, i: int) -> Option<(TransitionV, int)> {
    if 0 <= i && i + 2 < ts.len() && ts[i] is Ident && ts[i + 1] is Arrow && ts[i + 2] is Ident {
        Some(
            (TransitionV { event: ts[i]->Ident_0, next_state: ts[i + 2]->Ident_0 }, i + 3),
        )
    } else {
        None
    }
}

/// The transitions of a state body from position `i` up to and through the
/// closing brace: zero or more transitions separated by commas, a trailing
/// comma allowed.
pub open spec fn spec_parse_transitions(ts: Seq<TokenV>, i: int) -> Option<(Seq<TransitionV>, int)>
    decreases ts.len() - i,
{
    if i < 0 || i >= ts.len() {
        None
    } else if ts[i] is RBrace {
        Some((Seq::empty(), i + 1))
    } else {
        match spec_parse_transition(ts, i) {
            None => None,
            Some((tr, j)) => if j < ts.len() && ts[j] is Comma {
                match spec_parse_transitions(ts, j + 1) {
                    Some((rest, k)) => Some((seq![tr] + rest, k)),
                    None => None,
                }
            } else if j < ts.len() && ts[j] is RBrace {
                Some((seq![tr], j + 1))
            } else {
                None
            },
        }
    }
}

/// One state definition from position `i` on: optional `init` flag, name,
/// optional `: DataType`, and the braced transition list.
pub open spec fn spec_parse_state(ts: Seq<TokenV>, i: int) -> Option<(StateDefV, int)> {
    if i < 0 || i >= ts.len() || !(ts[i] is Ident) {
        None
    } else {
        let first = ts[i]->Ident_0;
        let init = first == "init"@;
        let k = if init { i + 1 } else { i };
        if k >= ts.len() || !(ts[k] is Ident) {
            None
        } else {
            let name = ts[k]->Ident_0;
            let after_colon = if k + 1 < ts.len() && ts[k + 1] is Colon {
                if k + 2 < ts.len() && ts[k + 2] is Ident {
                    Some((Some(ts[k + 2]->Ident_0), k + 3))
                } else {
                    None
                }
            } else {
                Some((None::<Seq<char>>, k + 1))
            };
            match after_colon {
                None => None,
                Some((data_type, b)) => if b < ts.len() && ts[b] is LBrace {
                    match spec_parse_transitions(ts, b + 1) {
                        Some((trs, j)) => Some(
                            (
                                StateDefV {
                                    init,
                                    name,
                                    associated_data_type: data_type,
                                    transitions: trs,
                                },
                                j,
                            ),
                        ),
                        None => None,
                    }
                } else {
                    None
                },
            }
        }
    }
}

/// A successful parse always moves forward and never past the end.
pub proof fn lemma_parse_transitions_advances(ts: Seq<TokenV>, i: int)
    ensures
        spec_parse_transitions(ts, i) matches Some(r) ==> i < r.1 <= ts.len(),
    decreases ts.len() - i,
{
    if 0 <= i && i < ts.len() && !(ts[i] is RBrace) {
        match spec_parse_transition(ts, i) {
            Some((tr, j)) => {
                if j < ts.len() && ts[j] is Comma {
                    lemma_parse_transitions_advances(ts, j + 1);
                }
            },
            None => {},
        }
    }
}

/// A successful state parse always moves forward and never past the end.
pub proof fn lemma_parse_state_advances(ts: Seq<TokenV>, i: int)
    ensures
        spec_parse_state(ts, i) matches Some(r) ==> i < r.1 <= ts.len(),
{
    if 0 <= i && i < ts.len() {
        lemma_parse_transitions_advances(ts, i + 1);
        lemma_parse_transitions_advances(ts, i + 2);
        lemma_parse_transitions_advances(ts, i + 3);
        lemma_parse_transitions_advances(ts, i + 4);
        lemma_parse_transitions_advances(ts, i + 5);
    }
}

/// The states of a machine body from position `i` up to and through the
/// closing brace: zero or more state definitions separated by commas, a
/// trailing comma allowed.
pub open spec fn spec_parse_states(ts: Seq<TokenV>, i: int) -> Option<(Seq<StateDefV>, int)>
    decreases ts.len() - i,
    via spec_parse_states_decreases
{
    if i < 0 || i >= ts.len() {
        None
    } else if ts[i] is RBrace {
        Some((Seq::empty(), i + 1))
    } else {
        match spec_parse_state(ts, i) {
            None => None,
            Some((sd, j)) => if j < ts.len() && ts[j] is Comma {
                match spec_parse_states(ts, j + 1) {
                    Some((rest, k)) => Some((seq![sd] + rest, k)),
                    None => None,
                }
            } else if j < ts.len() && ts[j] is RBrace {
                Some((seq![sd], j + 1))
            } else {
                None
            },
        }
    }
}

#[via_fn]
proof fn spec_parse_states_decreases(ts: Seq<TokenV>, i: int) {
    lemma_parse_state_advances(ts, i);
}

/// A whole machine description: name, optional `: SharedDataType`, and the
/// braced state list, with nothing after the closing brace.
pub open spec fn spec_parse_machine(ts: Seq<TokenV>) -> Option<MachineV> {
    if ts.len() == 0 || !(ts[0] is Ident) {
        None
    } else {
        let name = ts[0]->Ident_0;
        let after_colon = if 1 < ts.len() && ts[1] is Colon {
            if 2 < ts.len() && ts[2] is Ident {
                Some((Some(ts[2]->Ident_0), 3int))
            } else {
                None
            }
        } else {
            Some((None::<Seq<char>>, 1int))
        };
        match after_colon {
            None => None,
            Some((shared, b)) => if b < ts.len() && ts[b] is LBrace {
                match spec_parse_states(ts, b + 1) {
                    Some((states, j)) => if j == ts.len() {
                        Some(MachineV { name, shared_data_type: shared, states })
                    } else {
                        None
                    },
                    None => None,
                }
            } else {
                None
            },
        }
    }
}

/// Reads the identifier at `i`, if the token there is one.
fn ident_at(ts: &Vec<Token>, i: usize) -> (r: Option<String>)
    requires
        i < ts@.len(),
    ensures
        r is Some <==> ts@[i as int]@ is Ident,
        r matches Some(s) ==> s@ == ts@[i as int]@->Ident_0,
{
    match &ts[i] {
        Token::Ident(s) => Some(s.clone()),
        _ => None,
    }
}

impl StateTransition {
    /// Reads one transition, `Ident "=>" Ident`, at token position `i`,
    /// exactly as `spec_parse_transition` describes.
    pub fn parse(ts: &Vec<Token>, i: usize) -> (r: Option<(StateTransition, usize)>)
        ensures
            r is Some <==> spec_parse_transition(ts.deep_view(), i as int) is Some,
            r matches Some((tr, j)) ==> spec_parse_transition(ts.deep_view(), i as int) == Some(
                (tr@, j as int),
            ),
    {
        if i < ts.len() && ts.len() - i >= 3 && matches!(&ts[i + 1], Token::Arrow) {
            let ev = ident_at(ts, i);
            let nx = ident_at(ts, i + 2);
            match (ev, nx) {
                (Some(event), Some(next_state)) => Some(
                    (StateTransition { event, next_state }, i + 3),
                ),
                _ => None,
            }
        } else {
            None
        }
    }
}

/// Reads the transitions of a state body, through the closing brace, exactly
/// as `spec_parse_transitions` describes.
fn parse_transition_list(ts: &Vec<Token>, i: usize) -> (r: Option<(Vec<StateTransition>, usize)>)
    ensures
        r is Some <==> spec_parse_transitions(ts.deep_view(), i as int) is Some,
        r matches Some((trs, j)) ==> spec_parse_transitions(ts.deep_view(), i as int) == Some(
            (trs.deep_view(), j as int),
        ),
    decreases ts@.len() - i,
{
    if i >= ts.len() {
        None
    } else if matches!(&ts[i], Token::RBrace) {
        let trs: Vec<StateTransition> = Vec::new();
        proof {
            assert(trs.deep_view() =~= Seq::<TransitionV>::empty());
        }
        Some((trs, i + 1))
    } else {
        match StateTransition::parse(ts, i) {
            None => None,
            Some((tr, j)) => {
                if j < ts.len() && matches!(&ts[j], Token::Comma) {
                    match parse_transition_list(ts, j + 1) {
                        Some((rest, k)) => {
                            let ghost tr_v = tr@;
                            let ghost rest_v = rest.deep_view();
                            let mut out = rest;
                            out.insert(0, tr);
                            proof {
                                assert forall|q: int| 0 <= q < out@.len() implies out.deep_view()[q]
                                    == (seq![tr_v] + rest_v)[q] by {
                                    if q > 0 {
                                        assert(out@[q] == rest@[q - 1]);
                                    }
                                }
                                assert(out.deep_view() =~= seq![tr_v] + rest_v);
                            }
                            Some((out, k))
                        },
                        None => None,
                    }
                } else if j < ts.len() && matches!(&ts[j], Token::RBrace) {
                    let ghost tr_v = tr@;
                    let mut out: Vec<StateTransition> = Vec::new();
                    out.push(tr);
                    proof {
                        assert(out.deep_view() =~= seq![tr_v]);
                    }
                    Some((out, j + 1))
                } else {
                    None
                }
            },
        }
    }
}

impl StateDefinition {
    /// Reads one state definition at token position `i`, exactly as
    /// `spec_parse_state` describes.
    pub fn parse(ts: &Vec<Token>, i: usize) -> (r: Option<(StateDefinition, usize)>)
        ensures
            r is Some <==> spec_parse_state(ts.deep_view(), i as int) is Some,
            r matches Some((sd, j)) ==> spec_parse_state(ts.deep_view(), i as int) == Some(
                (sd@, j as int),
            ),
    {
        if i >= ts.len() {
            return None;
        }
        let first = match ident_at(ts, i) {
            Some(s) => s,
            None => {
                return None;
            },
        };
        let init_lit = String::from_str("init");
        let init = first == init_lit;
        let k = if init {
            i + 1
        } else {
            i
        };
        if k >= ts.len() {
            return None;
        }
        let name = match ident_at(ts, k) {
            Some(s) => s,
            None => {
                return None;
            },
        };
        let mut associated_data_type: Option<String> = None;
        let mut b = k + 1;
        if ts.len() - k >= 2 && matches!(&ts[k + 1], Token::Colon) {
            if ts.len() - k >= 3 {
                match ident_at(ts, k + 2) {
                    Some(s) => {
                        associated_data_type = Some(s);
                        b = k + 3;
                    },
                    None => {
                        return None;
                    },
                }
            } else {
                return None;
            }
        }
        if b < ts.len() && matches!(&ts[b], Token::LBrace) {
            match parse_transition_list(ts, b + 1) {
                Some((transitions, j)) => {
                    let ghost trs_v = transitions.deep_view();
                    let sd = StateDefinition { init, name, associated_data_type, transitions };
                    proof {
                        assert(sd@.transitions =~= trs_v);
                    }
                    Some((sd, j))
                },
                None => None,
            }
        } else {
            None
        }
    }
}

/// Reads the states of a machine body, through the closing brace, exactly as
/// `spec_parse_states` describes.
fn parse_state_list(ts: &Vec<Token>, i: usize) -> (r: Option<(Vec<StateDefinition>, usize)>)
    ensures
        r is Some <==> spec_parse_states(ts.deep_view(), i as int) is Some,
        r matches Some((sds, j)) ==> spec_parse_states(ts.deep_view(), i as int) == Some(
            (sds.deep_view(), j as int),
        ),
    decreases ts@.len() - i,
{
    if i >= ts.len() {
        None
    } else if matches!(&ts[i], Token::RBrace) {
        let sds: Vec<StateDefinition> = Vec::new();
        proof {
            assert(sds.deep_view() =~= Seq::<StateDefV>::empty());
        }
        Some((sds, i + 1))
    } else {
        match StateDefinition::parse(ts, i) {
            None => None,
            Some((sd, j)) => {
                proof {
                    lemma_parse_state_advances(ts.deep_view(), i as int);
                }
                if j < ts.len() && matches!(&ts[j], Token::Comma) {
                    match parse_state_list(ts, j + 1) {
                        Some((rest, k)) => {
                            let ghost sd_v = sd@;
                            let ghost rest_v = rest.deep_view();
                            let mut out = rest;
                            out.insert(0, sd);
                            proof {
                                assert forall|q: int| 0 <= q < out@.len() implies out.deep_view()[q]
                                    == (seq![sd_v] + rest_v)[q] by {
                                    if q > 0 {
                                        assert(out@[q] == rest@[q - 1]);
                                    }
                                }
                                assert(out.deep_view() =~= seq![sd_v] + rest_v);
                            }
                            Some((out, k))
                        },
                        None => None,
                    }
                } else if j < ts.len() && matches!(&ts[j], Token::RBrace) {
                    let ghost sd_v = sd@;
                    let mut out: Vec<StateDefinition> = Vec::new();
                    out.push(sd);
                    proof {
                        assert(out.deep_view() =~= seq![sd_v]);
                    }
                    Some((out, j + 1))
                } else {
                    None
                }
            },
        }
    }
}

impl Machine {
    /// Reads a whole machine description from the token stream, exactly as
    /// `spec_parse_machine` describes; the error carries the position of the
    /// token at which parsing failed.
    pub fn parse(ts: &Vec<Token>) -> (r: Result<Machine, ParseError>)
        ensures
            r is Ok <==> spec_parse_machine(ts.deep_view()) is Some,
            r matches Ok(m) ==> spec_parse_machine(ts.deep_view()) == Some(m@),
    {
        if ts.len() == 0 {
            return Err(ParseError { position: 0 });
        }
        let name = match ident_at(ts, 0) {
            Some(s) => s,
            None => {
                return Err(ParseError { position: 0 });
            },
        };
        let mut shared_data_type: Option<String> = None;
        let mut b: usize = 1;
        if 1 < ts.len() && matches!(&ts[1], Token::Colon) {
            if 2 < ts.len() {
                match ident_at(ts, 2) {
                    Some(s) => {
                        shared_data_type = Some(s);
                        b = 3;
                    },
                    None => {
                        return Err(ParseError { position: 2 });
                    },
                }
            } else {
                return Err(ParseError { position: 2 });
            }
        }
        if b < ts.len() && matches!(&ts[b], Token::LBrace) {
            match parse_state_list(ts, b + 1) {
                Some((states, j)) => {
                    if j == ts.len() {
                        let ghost states_v = states.deep_view();
                        let m = Machine { name, shared_data_type, states };
                        proof {
                            assert(m@.states =~= states_v);
                        }
                        Ok(m)
                    } else {
                        Err(ParseError { position: j })
                    }
                },
                None => Err(ParseError { position: b + 1 }),
            }
        } else {
            Err(ParseError { position: b })
        }
    }
}

} // verus!
