//! Abstract syntax of a machine description.
//!
//! A `Machine` names the machine, an optional shared-data type visible in
//! every state, and its states in declaration order.  A `StateDefinition`
//! carries an initial-state flag, the state's name, an optional associated
//! data type private to that state, and the transitions leaving the state.
//! A `StateTransition` names the event and the target state.

use vstd::prelude::*;

verus! {

/// One declared edge: on `event`, move to the state named `next_state`.
pub struct StateTransition {
    pub event: String,
    pub next_state: String,
}

/// One declared state of a machine.
pub struct StateDefinition {
    pub init: bool,
    pub name: String,
    pub associated_data_type: Option<String>,
    pub transitions: Vec<StateTransition>,
}

/// A whole machine description.
pub struct Machine {
    pub name: String,
    pub shared_data_type: Option<String>,
    pub states: Vec<StateDefinition>,
}

/// Mathematical model of a transition: both names as character sequences.
pub struct TransitionV {
    pub event: Seq<char>,
    pub next_state: Seq<char>,
}

/// Mathematical model of a state definition.
pub struct StateDefV {
    pub init: bool,
    pub name: Seq<char>,
    pub associated_data_type: Option<Seq<char>>,
    pub transitions: Seq<TransitionV>,
}

/// Mathematical model of a machine.
pub struct MachineV {
    pub name: Seq<char>,
    pub shared_data_type: Option<Seq<char>>,
    pub states: Seq<StateDefV>,
}

impl View for StateTransition {
    type V = TransitionV;

    open spec fn view(&self) -> TransitionV {
        TransitionV { event: self.event@, next_state: self.next_state@ }
    }
}

impl DeepView for StateTransition {
    type V = TransitionV;

    open spec fn deep_view(&self) -> TransitionV {
        self.view()
    }
}

impl View for StateDefinition {
    type V = StateDefV;

    open spec fn view(&self) -> StateDefV {
        StateDefV {
            init: self.init,
            name: self.name@,
            associated_data_type: match self.associated_data_type {
                Some(ref t) => Some(t@),
                None => None,
            },
            transitions: self.transitions@.map_values(|t: StateTransition| t@),
        }
    }
}

impl DeepView for StateDefinition {
    type V = StateDefV;

    open spec fn deep_view(&self) -> StateDefV {
        self.view()
    }
}

impl View for Machine {
    type V = MachineV;

    open spec fn view(&self) -> MachineV {
        MachineV {
            name: self.name@,
            shared_data_type: match self.shared_data_type {
                Some(ref t) => Some(t@),
                None => None,
            },
            states: self.states@.map_values(|s: StateDefinition| s@),
        }
    }
}

} // verus!
