//! The control-mode supervisor: which algorithm, if any, owns actuation, and
//! how the operator's messages turn into commands and mode switches.
use vstd::prelude::*;
use crate::message::{ClientMessage, SerialCMD, neutral_commands, spec_neutral_commands};

verus! {

/// The control modes. Exactly one is active at a time.
#[derive(Clone, Copy, Debug, PartialEq, Eq, Structural)]
pub enum ControlState {
    ManualControl,
    FollowLine,
    KeepDistance,
}

/// The mode a name stands for, if any.
pub open spec fn spec_parse_state(s: Seq<char>) -> Option<ControlState> {
    if s == "ManualControl"@ {
        Some(ControlState::ManualControl)
    } else if s == "FollowLine"@ {
        Some(ControlState::FollowLine)
    } else if s == "KeepDistance"@ {
        Some(ControlState::KeepDistance)
    } else {
        None
    }
}

impl ControlState {
    /// Parses a mode name; any other text is refused.
    pub fn from_str(s: &str) -> (r: Result<ControlState, ()>)
        ensures
            match spec_parse_state(s@) {
                Some(st) => r == Ok::<ControlState, ()>(st),
                None => r is Err,
            },
    {
        let owned = s.to_owned();
        if owned == "ManualControl".to_owned() {
            Ok(ControlState::ManualControl)
        } else if owned == "FollowLine".to_owned() {
            Ok(ControlState::FollowLine)
        } else if owned == "KeepDistance".to_owned() {
            Ok(ControlState::KeepDistance)
        } else {
            Err(())
        }
    }
}

/// What the caller must do after the supervisor decided: cancel the running
/// background task (first), send the commands in order, then start a task
/// for the given mode.
#[derive(Debug, PartialEq, Eq)]
pub struct Dispatch {
    pub cancel: bool,
    pub commands: Vec<SerialCMD>,
    pub spawn: Option<ControlState>,
}

/// The supervisor as the spec sees it: the mode, and whether a background task runs.
pub struct SupervisorView {
    pub state: ControlState,
    pub task_active: bool,
}

/// Entering an automatic mode while the other one is active: a contract
/// violation, since its task would have to start while another still runs.
pub open spec fn is_auto_switch(from: ControlState, to: ControlState) -> bool {
    from != ControlState::ManualControl && to != ControlState::ManualControl && from != to
}

/// A mode switch. Staying in the same mode does nothing. Leaving an automatic
/// mode cancels its task; entering `ManualControl` sends the neutral
/// sequence; entering an automatic mode starts its task.
pub open spec fn spec_change_state(s: SupervisorView, new: ControlState) -> (SupervisorView, bool, Seq<SerialCMD>, Option<ControlState>) {
    if s.state == new {
        (s, false, Seq::empty(), None)
    } else if new == ControlState::ManualControl {
        (SupervisorView { state: new, task_active: false }, s.task_active, spec_neutral_commands(), None)
    } else {
        (SupervisorView { state: new, task_active: true }, s.task_active, Seq::empty(), Some(new))
    }
}

/// Owns the current control mode on behalf of the operator's connection.
pub struct Server {
    state: ControlState,
    task_active: bool,
}

impl View for Server {
    type V = SupervisorView;

    closed spec fn view(&self) -> SupervisorView {
        SupervisorView { state: self.state, task_active: self.task_active }
    }
}

impl Server {
    /// A background task runs exactly when an automatic mode is active.
    pub open spec fn wf(&self) -> bool {
        self@.task_active == (self@.state != ControlState::ManualControl)
    }

    pub fn new() -> (r: Self)
        ensures
            r.wf(),
            r@ == (SupervisorView { state: ControlState::ManualControl, task_active: false }),
    {
        Server { state: ControlState::ManualControl, task_active: false }
    }

    pub fn state(&self) -> (r: ControlState)
        ensures
            r == self@.state,
    {
        self.state
    }

    /// Switches to `new_state`. Going from one automatic mode straight to the
    /// other is not allowed: the operator returns to manual control first.
    pub fn change_state(&mut self, new_state: ControlState) -> (r: Dispatch)
        requires
            old(self).wf(),
            !is_auto_switch(old(self)@.state, new_state),
        ensures
            final(self).wf(),
            (final(self)@, r.cancel, r.commands@, r.spawn) == spec_change_state(old(self)@, new_state),
    {
        if self.state == new_state {
            let d = Dispatch { cancel: false, commands: Vec::new(), spawn: None };
            proof {
                assert(d.commands@ =~= Seq::<SerialCMD>::empty());
            }
            return d;
        }
        let cancel = self.task_active;
        self.state = new_state;
        match new_state {
            ControlState::ManualControl => {
                self.task_active = false;
                Dispatch { cancel, commands: neutral_commands(), spawn: None }
            },
            _ => {
                self.task_active = true;
                let d = Dispatch { cancel, commands: Vec::new(), spawn: Some(new_state) };
                proof {
                    assert(d.commands@ =~= Seq::<SerialCMD>::empty());
                }
                d
            },
        }
    }

    /// Handles one operator message: actuator messages become one command
    /// each; a mode name switches mode; an unknown mode name is ignored. A
    /// switch between the two automatic modes is not allowed, as for `change_state`.
    pub fn handle_message(&mut self, msg: ClientMessage) -> (r: Dispatch)
        requires
            old(self).wf(),
            msg matches ClientMessage::ControlState(name) ==> (spec_parse_state(name@) matches Some(st)
                ==> !is_auto_switch(old(self)@.state, st)),
        ensures
            final(self).wf(),
            match msg {
                ClientMessage::Buzzer(f) => final(self)@ == old(self)@ && !r.cancel && r.spawn is None
                    && r.commands@ == seq![SerialCMD::Buzzer(f)],
                ClientMessage::LED(c) => final(self)@ == old(self)@ && !r.cancel && r.spawn is None
                    && r.commands@ == seq![SerialCMD::LED(c)],
                ClientMessage::Servo(d) => final(self)@ == old(self)@ && !r.cancel && r.spawn is None
                    && r.commands@ == seq![SerialCMD::Servo(d)],
                ClientMessage::Motor(m) => final(self)@ == old(self)@ && !r.cancel && r.spawn is None
                    && r.commands@ == seq![SerialCMD::HBridge(m)],
                ClientMessage::ControlState(name) => match spec_parse_state(name@) {
                    Some(st) => (final(self)@, r.cancel, r.commands@, r.spawn)
                        == spec_change_state(old(self)@, st),
                    None => final(self)@ == old(self)@ && !r.cancel && r.spawn is None
                        && r.commands@.len() == 0,
                },
            },
    {
        let cmd = match msg {
            ClientMessage::Buzzer(f) => SerialCMD::Buzzer(f),
            ClientMessage::LED(c) => SerialCMD::LED(c),
            ClientMessage::Servo(d) => SerialCMD::Servo(d),
            ClientMessage::Motor(m) => SerialCMD::HBridge(m),
            ClientMessage::ControlState(name) => {
                return match ControlState::from_str(name.as_str()) {
                    Ok(st) => self.change_state(st),
                    Err(()) => Dispatch { cancel: false, commands: Vec::new(), spawn: None },
                };
            },
        };
        let mut commands: Vec<SerialCMD> = Vec::new();
        commands.push(cmd);
        Dispatch { cancel: false, commands, spawn: None }
    }
}

/// Switching from an automatic mode to `ManualControl` cancels the running
/// task and sends the neutral sequence exactly once, whatever else holds.
pub proof fn lemma_manual_switch_resets(s: SupervisorView)
    requires
        s.state != ControlState::ManualControl,
        s.task_active == (s.state != ControlState::ManualControl),
    ensures
        ({
            let (next, cancel, commands, spawn) = spec_change_state(s, ControlState::ManualControl);
            &&& cancel
            &&& commands == spec_neutral_commands()
            &&& spawn is None
            &&& next.state == ControlState::ManualControl
            &&& !next.task_active
        }),
{
}

/// A new background task is started only when none runs, so at most one
/// task runs at a time.
pub proof fn lemma_one_task_at_a_time(s: SupervisorView, new: ControlState)
    requires
        s.task_active == (s.state != ControlState::ManualControl),
        !is_auto_switch(s.state, new),
    ensures
        ({
            let (next, cancel, commands, spawn) = spec_change_state(s, new);
            &&& spawn is Some ==> !s.task_active && !cancel
            &&& next.task_active == (next.state != ControlState::ManualControl)
        }),
{
}

} // verus!
