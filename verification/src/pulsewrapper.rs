//! The control channel to the audio server, as far as it decides.
//!
//! The channel owns one connection and a run-loop that only advances when it
//! is pumped. Pumping, asking the server and closing the connection are the
//! caller's work; this module holds what is decided in between: whether to
//! pump once more, when a connection attempt has succeeded or failed, whether
//! a connection has to be closed, and what a finished query has delivered.

use vstd::prelude::*;

verus! {

/// What one step of the run-loop reported.
#[derive(Clone, Copy, Debug, PartialEq, Eq, Structural)]
pub enum IterateResult {
    /// The step went through and dispatched this many event sources.
    Success(u32),
    /// The loop was asked to quit, with this return value.
    Quit(i32),
    /// The loop failed, with this error value.
    Error(i32),
}

/// The state of the connection as the server library reports it.
#[derive(Clone, Copy, Debug, PartialEq, Eq, Structural)]
pub enum ContextState {
    Unconnected,
    Connecting,
    Authorizing,
    SettingName,
    Ready,
    Failed,
    Terminated,
}

/// The state of a request that was sent to the server.
#[derive(Clone, Copy, Debug, PartialEq, Eq, Structural)]
pub enum OperationState {
    Running,
    Done,
    Cancelled,
}

/// What to do after a step of the run-loop.
#[derive(Clone, Copy, Debug, PartialEq, Eq, Structural)]
pub enum PumpStep {
    /// Advance the run-loop by one more step.
    Continue,
    /// What was waited for has happened.
    Done,
    /// The run-loop has ended for good; this is its last report.
    Aborted(IterateResult),
}

/// What happened to a connection attempt.
#[derive(Clone, Copy, Debug, PartialEq, Eq, Structural)]
pub enum ConnectEvent {
    /// The connection could not even be opened.
    OpenFailed,
    /// The run-loop made a step, after which the connection was in this state.
    Iterated(IterateResult, ContextState),
}

/// How a connection attempt goes on.
#[derive(Clone, Copy, Debug, PartialEq, Eq, Structural)]
pub enum ConnectStep {
    /// Nothing is decided yet: pump the run-loop once more.
    Pump,
    /// The connection is established.
    Ready,
    /// The connection cannot be had.
    Failed,
}

/// One call of a list query's callback.
#[derive(Clone, Debug)]
pub enum ListResult {
    /// A device, by name and description.
    Item(String, String),
    /// The list is complete.
    End,
    /// The query failed.
    Error,
}

impl IterateResult {
    /// The run-loop has quit or failed, and must not be pumped again.
    pub open spec fn is_terminal(self) -> bool {
        !(self is Success)
    }
}

impl ContextState {
    /// A connection attempt has come to its end, well or badly.
    pub open spec fn is_settled(self) -> bool {
        self == ContextState::Ready || self == ContextState::Failed || self
            == ContextState::Terminated
    }

    /// Whether a connection attempt has come to its end.
    pub fn settled(&self) -> (settled: bool)
        ensures
            settled == self.is_settled(),
    {
        match self {
            ContextState::Ready | ContextState::Failed | ContextState::Terminated => true,
            _ => false,
        }
    }
}

impl OperationState {
    /// Whether the request has come to its end, done or cancelled.
    pub fn finished(&self) -> (finished: bool)
        ensures
            finished == (*self != OperationState::Running),
    {
        match self {
            OperationState::Running => false,
            _ => true,
        }
    }
}

/// The decision after a step of the run-loop: a loop that has quit or failed
/// ends the pumping with its report, whatever else holds; otherwise the
/// pumping ends when what was waited for has happened. `status` is `None`
/// while the run-loop has not been advanced yet.
pub open spec fn pump_step(satisfied: bool, status: Option<IterateResult>) -> PumpStep {
    if status is Some && status.unwrap().is_terminal() {
        PumpStep::Aborted(status.unwrap())
    } else if satisfied {
        PumpStep::Done
    } else {
        PumpStep::Continue
    }
}

/// How a connection attempt goes on after an event: it has failed if the
/// connection could not be opened, if the run-loop has ended, or if the
/// connection has failed or was terminated; it has succeeded if the
/// connection is ready; otherwise the run-loop is pumped again.
pub open spec fn connect_step(event: ConnectEvent) -> ConnectStep {
    match event {
        ConnectEvent::OpenFailed => ConnectStep::Failed,
        ConnectEvent::Iterated(status, state) => if status.is_terminal() {
            ConnectStep::Failed
        } else if state == ContextState::Ready {
            ConnectStep::Ready
        } else if state.is_settled() {
            ConnectStep::Failed
        } else {
            ConnectStep::Pump
        },
    }
}

/// The devices that the callback of a list query was given, in their order.
pub open spec fn listed(listing: Seq<ListResult>) -> Seq<(Seq<char>, Seq<char>)>
    decreases listing.len(),
{
    if listing.len() == 0 {
        Seq::empty()
    } else {
        match listing.last() {
            ListResult::Item(name, description) => listed(listing.drop_last()).push(
                (name@, description@),
            ),
            _ => listed(listing.drop_last()),
        }
    }
}

/// The decisions of the control channel. It remembers whether a connection
/// is established.
#[derive(Clone, Debug)]
pub struct PulseWrapper {
    connected: bool,
}

impl PulseWrapper {
    /// Whether a connection is established.
    pub closed spec fn is_connected(&self) -> bool {
        self.connected
    }

    /// A channel that is not connected yet.
    pub fn new() -> (wrapper: PulseWrapper)
        ensures
            !wrapper.is_connected(),
    {
        PulseWrapper { connected: false }
    }

    /// Whether a connection is established.
    pub fn connected(&self) -> (connected: bool)
        ensures
            connected == self.is_connected(),
    {
        self.connected
    }

    /// Decides after a step of the run-loop whether to pump again.
    /// `satisfied` says whether what is waited for has happened, `status` is
    /// the report of the last step, or `None` before the first one.
    pub fn pump_until(satisfied: bool, status: Option<IterateResult>) -> (step: PumpStep)
        ensures
            step == pump_step(satisfied, status),
    {
        match status {
            Some(IterateResult::Quit(code)) => PumpStep::Aborted(IterateResult::Quit(code)),
            Some(IterateResult::Error(code)) => PumpStep::Aborted(IterateResult::Error(code)),
            _ => if satisfied {
                PumpStep::Done
            } else {
                PumpStep::Continue
            },
        }
    }

    /// Takes one event of a connection attempt and says how the attempt goes
    /// on. The channel is connected from the event on that finds the
    /// connection ready.
    pub fn connect(&mut self, event: ConnectEvent) -> (step: ConnectStep)
        ensures
            step == connect_step(event),
            final(self).is_connected() == (old(self).is_connected() || step == ConnectStep::Ready),
    {
        match event {
            ConnectEvent::OpenFailed => ConnectStep::Failed,
            ConnectEvent::Iterated(status, state) => {
                match Self::pump_until(state.settled(), Some(status)) {
                    PumpStep::Aborted(_) => ConnectStep::Failed,
                    PumpStep::Continue => ConnectStep::Pump,
                    PumpStep::Done => match state {
                        ContextState::Ready => {
                            self.connected = true;
                            ConnectStep::Ready
                        },
                        _ => ConnectStep::Failed,
                    },
                }
            },
        }
    }

    /// Marks the channel as not connected and says whether there is a
    /// connection to close: there is one only if the channel was connected.
    pub fn disconnect(&mut self) -> (close: bool)
        ensures
            close == old(self).is_connected(),
            !final(self).is_connected(),
    {
        let close = self.connected;
        self.connected = false;
        close
    }

    /// The devices that a list query delivered: every item that its callback
    /// was given, in order, also where the query ended in an error. A channel
    /// that is not connected delivers nothing.
    fn collect(&self, listing: &Vec<ListResult>) -> (devices: Vec<(String, String)>)
        ensures
            devices.deep_view() == if self.is_connected() {
                listed(listing@)
            } else {
                Seq::empty()
            },
    {
        let mut devices: Vec<(String, String)> = Vec::new();
        assert(devices.deep_view() =~= Seq::empty());
        if !self.connected {
            return devices;
        }
        let mut i: usize = 0;
        while i < listing.len()
            invariant
                i <= listing.len(),
                devices.deep_view() == listed(listing@.take(i as int)),
            decreases listing.len() - i,
        {
            let ghost before = devices.deep_view();
            proof {
                assert(listing@.take(i + 1).drop_last() =~= listing@.take(i as int));
            }
            match &listing[i] {
                ListResult::Item(name, description) => {
                    devices.push((name.clone(), description.clone()));
                    assert(devices.deep_view() =~= before.push((name@, description@)));
                },
                _ => {},
            }
            i += 1;
        }
        proof {
            assert(listing@.take(listing.len() as int) =~= listing@);
        }
        devices
    }

    /// The recording devices that a list query delivered, by name and
    /// description.
    pub fn get_sources(&self, listing: &Vec<ListResult>) -> (sources: Vec<(String, String)>)
        ensures
            sources.deep_view() == if self.is_connected() {
                listed(listing@)
            } else {
                Seq::empty()
            },
    {
        self.collect(listing)
    }

    /// The playback devices that a list query delivered, by name and
    /// description.
    pub fn get_sinks(&self, listing: &Vec<ListResult>) -> (sinks: Vec<(String, String)>)
        ensures
            sinks.deep_view() == if self.is_connected() {
                listed(listing@)
            } else {
                Seq::empty()
            },
    {
        self.collect(listing)
    }

    /// The names of the default recording and the default playback device
    /// that a server-info query delivered; two empty names where the query's
    /// callback never ran or the channel is not connected.
    pub fn get_defaults(&self, info: Option<(String, String)>) -> (defaults: (String, String))
        ensures
            defaults.deep_view() == if self.is_connected() && info is Some {
                info.unwrap().deep_view()
            } else {
                (Seq::<char>::empty(), Seq::<char>::empty())
            },
    {
        match info {
            Some(names) => if self.connected {
                names
            } else {
                (String::new(), String::new())
            },
            None => (String::new(), String::new()),
        }
    }
}

} // verus!
