//! How a connection becomes a session: before it is handed to a caller,
//! the caller's identity is put into three variables of the connection.
//! The storage engine reads them when it enforces its own access rules.
//!
//! The crate decides, step by step, what is done next. Whoever owns the
//! connection performs each step and reports how it went.

use vstd::prelude::*;
use vstd::string::*;
use crate::context::execution::ExecutionContext;
use crate::error::Error;
use crate::infra::db::util::StorageError;

verus! {

/// The variable that holds the caller's type.
pub const CALLER_TYPE_VARIABLE: &'static str = "var.caller_type";

/// The variable that holds the caller's id.
pub const CALLER_ID_VARIABLE: &'static str = "var.caller_id";

/// The variable that holds the tenant's id.
pub const TENANT_ID_VARIABLE: &'static str = "var.tenant_id";

/// The number of variables that make a session.
pub const SESSION_VARIABLES: usize = 3;

/// A variable to set on a connection, for as long as the connection is
/// held and no longer.
pub struct SessionVariable {
    pub key: String,
    pub value: String,
}

/// The name of the session variable at `index`.
pub open spec fn variable_key(index: int) -> Seq<char> {
    if index == 0 {
        CALLER_TYPE_VARIABLE@
    } else if index == 1 {
        CALLER_ID_VARIABLE@
    } else {
        TENANT_ID_VARIABLE@
    }
}

/// The value that the session variable at `index` gets for a context: the
/// caller's type, the caller's id, and the tenant's id, which is empty
/// where the call is for no tenant.
pub open spec fn variable_value(context: ExecutionContext, index: int) -> Seq<char> {
    if index == 0 {
        context.who().caller_type.name()
    } else if index == 1 {
        context.who().caller_id@
    } else {
        match context.scope() {
            Some(tenant) => tenant@,
            None => Seq::empty(),
        }
    }
}

/// The session variable at `index` for a context.
pub fn session_variable(context: &ExecutionContext, index: usize) -> (variable: SessionVariable)
    requires
        index < SESSION_VARIABLES,
    ensures
        variable.key@ == variable_key(index as int),
        variable.value@ == variable_value(*context, index as int),
{
    if index == 0 {
        SessionVariable {
            key: CALLER_TYPE_VARIABLE.to_string(),
            value: context.caller_type_name(),
        }
    } else if index == 1 {
        SessionVariable { key: CALLER_ID_VARIABLE.to_string(), value: context.caller_id() }
    } else {
        SessionVariable { key: TENANT_ID_VARIABLE.to_string(), value: context.tenant_text() }
    }
}

/// The variables that make a session for a context, in the order in
/// which they are set.
pub fn session_variables(context: &ExecutionContext) -> (variables: Vec<SessionVariable>)
    ensures
        variables@.len() == SESSION_VARIABLES,
        forall|i: int|
            0 <= i < SESSION_VARIABLES ==> (#[trigger] variables@[i]).key@ == variable_key(i)
                && variables@[i].value@ == variable_value(*context, i),
{
    let mut variables: Vec<SessionVariable> = Vec::new();
    let mut index: usize = 0;
    while index < SESSION_VARIABLES
        invariant
            index <= SESSION_VARIABLES,
            variables@.len() == index,
            forall|i: int|
                0 <= i < index ==> (#[trigger] variables@[i]).key@ == variable_key(i)
                    && variables@[i].value@ == variable_value(*context, i),
        decreases SESSION_VARIABLES - index,
    {
        variables.push(session_variable(context, index));
        index = index + 1;
    }
    variables
}

/// How far the making of a session has come.
#[derive(Debug, Clone, Copy, PartialEq, Eq, Structural)]
pub enum Acquisition {
    /// A connection has been asked for.
    Connecting,
    /// The connection is there, and the variable with this index is being
    /// set; the ones before it are set.
    Setting(usize),
    /// All variables are set: the session can be used.
    Ready,
    /// The acquisition failed. The connection, if there was one, is not
    /// for use.
    Failed,
}

/// What happened to the step that was asked for last.
pub enum AcquisitionEvent {
    /// The pool handed out a connection.
    Connected,
    /// The variable was set.
    VariableSet,
    /// The step failed.
    Fault(StorageError),
}

/// What to do next.
pub enum AcquisitionStep {
    /// Set this variable on the connection.
    Apply(SessionVariable),
    /// Hand the session to the caller.
    HandOver,
    /// Give the connection up and report the failure.
    Abort(Error),
}

impl Acquisition {
    /// The number of variables that are known to be set.
    pub open spec fn variables_set(&self) -> int {
        match self {
            Acquisition::Connecting => 0,
            Acquisition::Setting(index) => *index as int,
            Acquisition::Ready => SESSION_VARIABLES as int,
            Acquisition::Failed => 0,
        }
    }

    /// Whether the state is one that the protocol reaches.
    pub open spec fn well_formed(&self) -> bool {
        self matches Acquisition::Setting(index) ==> *index < SESSION_VARIABLES
    }

    /// The state after an event.
    pub open spec fn after(&self, event: AcquisitionEvent) -> Acquisition {
        match (*self, event) {
            (Acquisition::Connecting, AcquisitionEvent::Connected) => Acquisition::Setting(0),
            (Acquisition::Setting(index), AcquisitionEvent::VariableSet) => if index + 1
                < SESSION_VARIABLES {
                Acquisition::Setting((index + 1) as usize)
            } else if index + 1 == SESSION_VARIABLES {
                Acquisition::Ready
            } else {
                Acquisition::Failed
            },
            _ => Acquisition::Failed,
        }
    }

    /// The state after a run of events, one after the other.
    pub open spec fn after_all(&self, events: Seq<AcquisitionEvent>) -> Acquisition
        decreases events.len(),
    {
        if events.len() == 0 {
            *self
        } else {
            self.after_all(events.drop_last()).after(events.last())
        }
    }

    /// Takes note of an event and says what to do next. A fault, and an
    /// event that has no place in the protocol, end the acquisition: the
    /// connection is given up, and the failure is reported as a
    /// repository error. The session is handed over when the last
    /// variable is set, and at no other time.
    pub fn next(self, context: &ExecutionContext, event: AcquisitionEvent) -> (step: (
        Acquisition,
        AcquisitionStep,
    ))
        ensures
            step.0 == self.after(event),
            step.0.well_formed(),
            match step.0 {
                Acquisition::Setting(index) => step.1 matches AcquisitionStep::Apply(variable)
                    && variable.key@ == variable_key(index as int) && variable.value@
                    == variable_value(*context, index as int),
                Acquisition::Ready => step.1 is HandOver,
                Acquisition::Failed => step.1 matches AcquisitionStep::Abort(
                    Error::RepositoryError(message),
                ) && is_failure_message(event, message),
                Acquisition::Connecting => false,
            },
    {
        match event {
            AcquisitionEvent::Connected => match self {
                Acquisition::Connecting => (
                    Acquisition::Setting(0),
                    AcquisitionStep::Apply(session_variable(context, 0)),
                ),
                _ => (Acquisition::Failed, AcquisitionStep::Abort(out_of_turn())),
            },
            AcquisitionEvent::VariableSet => match self {
                Acquisition::Setting(index) => {
                    if index < SESSION_VARIABLES - 1 {
                        (
                            Acquisition::Setting(index + 1),
                            AcquisitionStep::Apply(session_variable(context, index + 1)),
                        )
                    } else if index == SESSION_VARIABLES - 1 {
                        (Acquisition::Ready, AcquisitionStep::HandOver)
                    } else {
                        (Acquisition::Failed, AcquisitionStep::Abort(out_of_turn()))
                    }
                },
                _ => (Acquisition::Failed, AcquisitionStep::Abort(out_of_turn())),
            },
            AcquisitionEvent::Fault(e) => (
                Acquisition::Failed,
                AcquisitionStep::Abort(Error::from(e)),
            ),
        }
    }
}

fn out_of_turn() -> (error: Error)
    ensures
        error matches Error::RepositoryError(message) && message@ == OUT_OF_TURN@,
{
    Error::RepositoryError(OUT_OF_TURN.to_string())
}

/// What is said of an event that has no place in the protocol.
pub const OUT_OF_TURN: &'static str = "session protocol violated";

/// Whether `message` is what the failure of an acquisition is reported
/// with, after `event` ended it: the message of the fault, where the
/// event is a fault, and else that the protocol was violated.
pub open spec fn is_failure_message(event: AcquisitionEvent, message: String) -> bool {
    match event {
        AcquisitionEvent::Fault(e) => message == e.message,
        _ => message@ == OUT_OF_TURN@,
    }
}

/// Once failed, an acquisition stays failed whatever happens.
pub proof fn lemma_failed_stays_failed(events: Seq<AcquisitionEvent>)
    ensures
        Acquisition::Failed.after_all(events) == Acquisition::Failed,
    decreases events.len(),
{
    if events.len() > 0 {
        lemma_failed_stays_failed(events.drop_last());
    }
}

/// An acquisition that started from nothing and has come to the point
/// where a variable is being set, or where the session is ready, saw the
/// connection arrive and then one success for each variable set, and
/// nothing else. So a session is ready only after the connection came
/// and every one of its variables was set, without a fault in between.
pub proof fn lemma_ready_means_all_set(events: Seq<AcquisitionEvent>)
    ensures
        ({
            let reached = Acquisition::Connecting.after_all(events);
            (reached is Setting || reached is Ready) ==> {
                &&& events.len() == reached.variables_set() + 1
                &&& events[0] is Connected
                &&& forall|i: int| 1 <= i < events.len() ==> (#[trigger] events[i]) is VariableSet
                &&& reached.well_formed()
            }
        }),
        Acquisition::Connecting.after_all(events) is Connecting <==> events.len() == 0,
    decreases events.len(),
{
    if events.len() > 0 {
        let before = events.drop_last();
        lemma_ready_means_all_set(before);
        let reached = Acquisition::Connecting.after_all(events);
        if reached is Setting || reached is Ready {
            assert forall|i: int| 1 <= i < events.len() implies (
            #[trigger] events[i]) is VariableSet by {
                if i < before.len() {
                    assert(events[i] == before[i]);
                }
            }
            if before.len() > 0 {
                assert(events[0] == before[0]);
            }
        }
    }
}

} // verus!
