//! The semantic model derived from a machine description: which state names
//! are flagged initial, and which associated data type a state name declares.
//!
//! Nothing here validates the description: duplicate state names and
//! transitions to undeclared states pass through, exactly as the language
//! accepts them.  A name flagged initial on any of its declarations counts as
//! initial; of several declarations of one name carrying a data type, the
//! last one declared wins.

use vstd::prelude::*;
use vstd::string::StrSliceExecFns;
use crate::ast::{Machine, MachineV, StateDefV};

verus! {

/// Whether some state of the machine is named `name`.
pub open spec fn spec_has_state(m: MachineV, name: Seq<char>) -> bool {
    exists|i: int| 0 <= i < m.states.len() && m.states[i].name == name
}

/// Whether `name` names a state flagged initial.
pub open spec fn spec_is_init_state(m: MachineV, name: Seq<char>) -> bool {
    exists|i: int| 0 <= i < m.states.len() && m.states[i].name == name && m.states[i].init
}

/// The index of the first state named `name`, or the number of states where
/// none is.
pub open spec fn spec_state_index(states: Seq<StateDefV>, name: Seq<char>) -> int
    decreases states.len(),
{
    if states.len() == 0 {
        0
    } else if states[0].name == name {
        0
    } else {
        1 + spec_state_index(states.drop_first(), name)
    }
}

/// The first matching index is in range exactly when the name occurs, names
/// its state, and nothing before it matches.
pub proof fn lemma_state_index(states: Seq<StateDefV>, name: Seq<char>)
    ensures
        0 <= spec_state_index(states, name) <= states.len(),
        spec_state_index(states, name) < states.len() <==> exists|i: int|
            0 <= i < states.len() && states[i].name == name,
        spec_state_index(states, name) < states.len() ==> states[spec_state_index(
            states,
            name,
        )].name == name,
        forall|k: int| 0 <= k < spec_state_index(states, name) ==> states[k].name != name,
    decreases states.len(),
{
    if states.len() > 0 && states[0].name != name {
        lemma_state_index(states.drop_first(), name);
        let rest = states.drop_first();
        assert(forall|i: int|
            0 <= i < rest.len() ==> rest[i] == states[i + 1]);
        if exists|i: int| 0 <= i < states.len() && states[i].name == name {
            let w = choose|i: int| 0 <= i < states.len() && states[i].name == name;
            assert(rest[w - 1].name == name);
        }
        assert forall|k: int| 0 <= k < spec_state_index(states, name) implies states[k].name
            != name by {
            if k > 0 {
                assert(states[k] == rest[k - 1]);
            }
        }
    }
}

/// The data type the description gives the state named `name`: of the states
/// so named that declare one, the last declared wins; `None` where no such
/// state declares one.
pub open spec fn spec_state_data_type(states: Seq<StateDefV>, name: Seq<char>) -> Option<Seq<char>>
    decreases states.len(),
{
    if states.len() == 0 {
        None
    } else if states.last().name == name && states.last().associated_data_type is Some {
        states.last().associated_data_type
    } else {
        spec_state_data_type(states.drop_last(), name)
    }
}

/// Character-for-character equality of two string slices.
pub fn str_eq(a: &str, b: &str) -> (r: bool)
    ensures
        r == (a@ == b@),
{
    let na = a.unicode_len();
    let nb = b.unicode_len();
    if na != nb {
        proof {
            assert(a@ != b@);
        }
        return false;
    }
    let mut i: usize = 0;
    while i < na
        invariant
            na == a@.len() == b@.len(),
            i <= na,
            forall|k: int| 0 <= k < i ==> a@[k] == b@[k],
        decreases na - i,
    {
        if a.get_char(i) != b.get_char(i) {
            return false;
        }
        i = i + 1;
    }
    proof {
        assert(a@ =~= b@);
    }
    true
}

impl Machine {
    /// The index of the first state named `name`, if any state is.
    pub fn state_index(&self, name: &str) -> (r: Option<usize>)
        ensures
            r is Some <==> spec_has_state(self@, name@),
            r matches Some(k) ==> k == spec_state_index(self@.states, name@) && k
                < self@.states.len(),
    {
        let n = self.states.len();
        let mut i: usize = 0;
        while i < n
            invariant
                n == self@.states.len(),
                i <= n,
                forall|k: int| 0 <= k < i ==> self@.states[k].name != name@,
            decreases n - i,
        {
            if str_eq(self.states[i].name.as_str(), name) {
                proof {
                    lemma_state_index(self@.states, name@);
                    assert(self@.states[i as int].name == name@);
                }
                return Some(i);
            }
            i = i + 1;
        }
        proof {
            lemma_state_index(self@.states, name@);
        }
        None
    }

    /// Whether `name` names a state flagged initial.
    pub fn is_init_state(&self, name: &str) -> (r: bool)
        ensures
            r == spec_is_init_state(self@, name@),
    {
        let n = self.states.len();
        let mut i: usize = 0;
        while i < n
            invariant
                n == self@.states.len(),
                i <= n,
                forall|k: int|
                    0 <= k < i ==> !(self@.states[k].name == name@ && self@.states[k].init),
            decreases n - i,
        {
            if self.states[i].init && str_eq(self.states[i].name.as_str(), name) {
                proof {
                    assert(self@.states[i as int].name == name@ && self@.states[i as int].init);
                }
                return true;
            }
            i = i + 1;
        }
        false
    }

    /// The associated data type declared for the state named `name`, if one
    /// is: of several declarations, the last wins.
    pub fn state_data_type(&self, name: &str) -> (r: Option<&String>)
        ensures
            match r {
                Some(t) => spec_state_data_type(self@.states, name@) == Some(t@),
                None => spec_state_data_type(self@.states, name@) is None,
            },
    {
        let n = self.states.len();
        let mut found: Option<&String> = None;
        let mut i: usize = 0;
        while i < n
            invariant
                n == self@.states.len(),
                i <= n,
                match found {
                    Some(t) => spec_state_data_type(self@.states.take(i as int), name@) == Some(
                        t@,
                    ),
                    None => spec_state_data_type(self@.states.take(i as int), name@) is None,
                },
            decreases n - i,
        {
            let ghost pre = self@.states.take(i as int);
            let ghost cur = self@.states.take(i + 1 as int);
            proof {
                assert(cur.drop_last() =~= pre);
                assert(cur.last() == self@.states[i as int]);
            }
            if str_eq(self.states[i].name.as_str(), name) {
                match &self.states[i].associated_data_type {
                    Some(t) => {
                        found = Some(t);
                    },
                    None => {},
                }
            }
            i = i + 1;
        }
        proof {
            assert(self@.states.take(n as int) =~= self@.states);
        }
        found
    }
}

} // verus!
