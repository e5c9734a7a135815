//! The course of the host process: the embedded kernel is started with its
//! boot command line, the USB devices are enumerated, a diagnostic hook may
//! run, and the kernel is halted.
//!
//! As with an enumeration session, the caller performs the pending action
//! and hands in what came of it.

use vstd::prelude::*;
use vstd::string::*;

use crate::text::{emit, push_signed, signed_decimal};

verus! {

/// Why the host process aborts.
#[derive(Clone, Copy, Debug, PartialEq, Eq, Structural)]
pub enum HostFatal {
    /// The kernel did not start.
    KernelStart { status: i32 },
    /// The enumeration gave no result.
    Enumeration,
}

/// What the host process does next.
#[derive(Clone, Copy, Debug, PartialEq, Eq, Structural)]
pub enum HostAction {
    /// Start the kernel with the boot command line.
    StartKernel,
    /// Run one enumeration session to its end.
    Enumerate,
    /// Run the diagnostic hook.
    Diagnose,
    /// Halt the kernel.
    Halt,
    /// Leave normally.
    Exit,
    /// Abort at once.
    Abort { cause: HostFatal },
}

/// What came of the action that was pending.
#[derive(Clone, Copy, Debug, PartialEq, Eq, Structural)]
pub enum HostEvent {
    Started { status: i32 },
    Enumerated { count: Option<i64> },
    Diagnosed,
    Halted { status: i32 },
}

/// The state of the host process between two actions.
#[derive(Clone, Copy, Debug, PartialEq, Eq, Structural)]
pub struct Host {
    /// The action that the caller was last told to perform.
    pub pending: HostAction,
    /// Whether the diagnostic hook runs between enumeration and halt.
    pub diagnose: bool,
}

/// The line that reports how many devices were processed.
pub open spec fn processed_line(count: i64) -> Seq<char> {
    "processed "@ + signed_decimal(count as int) + " USB devices"@
}

impl HostFatal {
    /// The message with which the process aborts.
    pub open spec fn message(self) -> Seq<char> {
        match self {
            HostFatal::KernelStart { status } => "lkl_start_kernel() failed: "@ + signed_decimal(
                status as int,
            ),
            HostFatal::Enumeration => "failed to iterate USB devices"@,
        }
    }

    /// Gives the message with which the process aborts.
    pub fn to_message(self) -> (text: String)
        ensures
            text@ == self.message(),
    {
        match self {
            HostFatal::KernelStart { status } => {
                let mut text = String::from_str("lkl_start_kernel() failed: ");
                push_signed(&mut text, status as i64);
                text
            },
            HostFatal::Enumeration => String::from_str("failed to iterate USB devices"),
        }
    }
}

/// The command line with which the kernel is booted.
pub fn boot_command_line() -> (text: &'static str)
    ensures
        text@ == "mem=16M loglevel=8"@,
{
    "mem=16M loglevel=8"
}

impl Host {
    /// The host process before anything was done: the kernel is to be
    /// started.
    pub open spec fn start(diagnose: bool) -> Host {
        Host { pending: HostAction::StartKernel, diagnose }
    }

    /// Whether `event` is what comes of the pending action.
    pub open spec fn expects(self, event: HostEvent) -> bool {
        match self.pending {
            HostAction::StartKernel => event is Started,
            HostAction::Enumerate => event is Enumerated,
            HostAction::Diagnose => event is Diagnosed,
            HostAction::Halt => event is Halted,
            HostAction::Exit => false,
            HostAction::Abort { .. } => false,
        }
    }

    /// The action that follows the enumeration.
    pub open spec fn after_enumeration(self) -> HostAction {
        if self.diagnose {
            HostAction::Diagnose
        } else {
            HostAction::Halt
        }
    }

    /// The host process after `event` has come of the pending action.
    pub open spec fn next(self, event: HostEvent) -> Host {
        match (self.pending, event) {
            (HostAction::StartKernel, HostEvent::Started { status }) => Host {
                pending: if status < 0 {
                    HostAction::Abort { cause: HostFatal::KernelStart { status } }
                } else {
                    HostAction::Enumerate
                },
                ..self
            },
            (HostAction::Enumerate, HostEvent::Enumerated { count }) => Host {
                pending: if count is Some {
                    self.after_enumeration()
                } else {
                    HostAction::Abort { cause: HostFatal::Enumeration }
                },
                ..self
            },
            (HostAction::Diagnose, HostEvent::Diagnosed) => Host {
                pending: HostAction::Halt,
                ..self
            },
            (HostAction::Halt, HostEvent::Halted { .. }) => Host {
                pending: HostAction::Exit,
                ..self
            },
            _ => self,
        }
    }

    /// The lines that are reported when `event` comes of the pending
    /// action: the number of devices, once they were enumerated.
    pub open spec fn report(self, event: HostEvent) -> Seq<Seq<char>> {
        match (self.pending, event) {
            (HostAction::Enumerate, HostEvent::Enumerated { count: Some(count) }) => seq![
                processed_line(count),
            ],
            _ => Seq::empty(),
        }
    }

    /// The host process before anything was done.
    pub fn new(diagnose: bool) -> (host: Host)
        ensures
            host == Host::start(diagnose),
    {
        Host { pending: HostAction::StartKernel, diagnose }
    }

    /// Tells whether `event` is what comes of the pending action, as a
    /// step demands.
    pub fn accepts(&self, event: &HostEvent) -> (ok: bool)
        ensures
            ok == self.expects(*event),
    {
        match (self.pending, event) {
            (HostAction::StartKernel, HostEvent::Started { .. }) => true,
            (HostAction::Enumerate, HostEvent::Enumerated { .. }) => true,
            (HostAction::Diagnose, HostEvent::Diagnosed) => true,
            (HostAction::Halt, HostEvent::Halted { .. }) => true,
            _ => false,
        }
    }

    /// One step of the host process: takes what came of the pending
    /// action, reports what is to be reported, and tells the next action.
    ///
    /// A kernel that did not start is fatal, and so is an enumeration
    /// without a result. After an enumeration with a result the number of
    /// devices is reported, the diagnostic hook runs where it is wanted,
    /// and the kernel is halted, whatever status the halt gives.
    pub fn step(&mut self, event: &HostEvent, out: &mut Vec<String>) -> (action: HostAction)
        requires
            old(self).expects(*event),
        ensures
            *final(self) == old(self).next(*event),
            action == final(self).pending,
            final(out).deep_view() == old(out).deep_view() + old(self).report(*event),
    {
        let action = match (self.pending, event) {
            (HostAction::StartKernel, HostEvent::Started { status }) => {
                if *status < 0 {
                    HostAction::Abort { cause: HostFatal::KernelStart { status: *status } }
                } else {
                    HostAction::Enumerate
                }
            },
            (HostAction::Enumerate, HostEvent::Enumerated { count: Some(count) }) => {
                let mut line = String::from_str("processed ");
                push_signed(&mut line, *count);
                line.append(" USB devices");
                emit(out, line);
                if self.diagnose {
                    HostAction::Diagnose
                } else {
                    HostAction::Halt
                }
            },
            (HostAction::Enumerate, HostEvent::Enumerated { count: None }) => {
                HostAction::Abort { cause: HostFatal::Enumeration }
            },
            (HostAction::Diagnose, _) => HostAction::Halt,
            (HostAction::Halt, _) => HostAction::Exit,
            _ => self.pending,
        };
        self.pending = action;
        assert(out.deep_view() =~= old(out).deep_view() + old(self).report(*event));
        action
    }
}

impl Host {
    /// Offers `event` to the host process. Where `event` is what comes of
    /// the pending action, the step is taken and the next action is told.
    /// Where not, nothing changes, nothing is reported, and no action is
    /// told.
    pub fn offer(&mut self, event: &HostEvent, out: &mut Vec<String>) -> (action: Option<
        HostAction,
    >)
        ensures
            old(self).expects(*event) ==> {
                &&& *final(self) == old(self).next(*event)
                &&& action == Some(final(self).pending)
                &&& final(out).deep_view() == old(out).deep_view() + old(self).report(*event)
            },
            !old(self).expects(*event) ==> {
                &&& *final(self) == *old(self)
                &&& action is None
                &&& *final(out) == *old(out)
            },
    {
        if self.accepts(event) {
            Some(self.step(event, out))
        } else {
            None
        }
    }
}

/// The kernel is halted only after it has started and the devices were
/// enumerated with a result, and the process leaves normally only after
/// the halt. A process that aborts does so straight after the failure:
/// nothing is reported, and the kernel is not halted.
pub proof fn lemma_host_course(host: Host, event: HostEvent)
    requires
        host.expects(event),
    ensures
        host.next(event).pending == HostAction::Halt ==> (host.pending == HostAction::Diagnose || (
        host.pending == HostAction::Enumerate && !host.diagnose && (
        event matches HostEvent::Enumerated { count } && count is Some))),
        host.next(event).pending == HostAction::Diagnose ==> host.diagnose && host.pending
            == HostAction::Enumerate,
        host.next(event).pending == HostAction::Exit <==> host.pending == HostAction::Halt,
        host.next(event).pending is Abort <==> (event matches HostEvent::Started { status }
            && status < 0) || event == (HostEvent::Enumerated { count: None }),
        host.next(event).pending is Abort ==> host.report(event).len() == 0,
        host.next(event).diagnose == host.diagnose,
{
}

} // verus!
