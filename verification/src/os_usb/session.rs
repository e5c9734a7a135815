//! One enumeration session, as the decisions between the calls to the
//! backend: from what the backend answered to what is asked of it next.
//!
//! The caller performs the pending action, hands in what came back as an
//! event, and is told the next action, until the session finishes or
//! aborts. Report lines are appended to a sink on the way.

use vstd::prelude::*;
use vstd::string::*;

use crate::os_usb::classify::{desc_type_label, desc_type_str};
use crate::os_usb::descriptor::{ConfigDescriptor, ConfigDescriptorView, DeviceDescriptor};
use crate::os_usb::walk::{dev_ifs_iterate, interface_lines};
use crate::text::{
    decimal, emit, hex, push_decimal, push_decimal_padded, push_hex_padded, push_signed,
    signed_decimal, zero_padded,
};

verus! {

/// A descriptor fetch that failed: the session cannot go on, and nothing
/// is released on the way out.
#[derive(Clone, Copy, Debug, PartialEq, Eq, Structural)]
pub enum Fatal {
    DeviceDescriptor,
    ConfigDescriptor,
}

impl Fatal {
    /// The message with which the caller aborts.
    pub open spec fn message_text(self) -> Seq<char> {
        match self {
            Fatal::DeviceDescriptor => "libusb_get_device_descriptor failed"@,
            Fatal::ConfigDescriptor => "libusb_get_config_descriptor failed"@,
        }
    }

    /// Gives the message with which the caller aborts.
    pub fn message(self) -> (text: &'static str)
        ensures
            text@ == self.message_text(),
    {
        match self {
            Fatal::DeviceDescriptor => "libusb_get_device_descriptor failed",
            Fatal::ConfigDescriptor => "libusb_get_config_descriptor failed",
        }
    }
}

/// What the session asks of its caller. All but the last two are calls to
/// the backend; `device` is an index into the device list.
#[derive(Clone, Copy, Debug, PartialEq, Eq, Structural)]
pub enum Action {
    Init,
    GetDeviceList,
    GetBusNumber { device: i64 },
    GetDeviceAddress { device: i64 },
    GetDeviceDescriptor { device: i64 },
    GetConfigDescriptor { device: i64, index: u8 },
    FreeConfigDescriptor { device: i64, index: u8 },
    FreeDeviceList { unref_devices: bool },
    Exit,
    /// The session is over: the number of devices processed, or no result.
    Finish { count: Option<i64> },
    /// The session is over on a fatal condition: the caller aborts.
    Abort { cause: Fatal },
}

/// What came back from the backend.
#[derive(Clone, Debug, PartialEq, Eq)]
pub enum Event {
    Initialized { status: i32 },
    DeviceList { length: i64 },
    BusNumber { number: u8 },
    DeviceAddress { address: u8 },
    DeviceDescriptor { status: i32, descriptor: DeviceDescriptor },
    ConfigDescriptor { status: i32, descriptor: Option<ConfigDescriptor> },
    /// A call that returns nothing has returned.
    Done,
}

/// The state of a session between two calls to the backend.
#[derive(Clone, Copy, Debug, PartialEq, Eq, Structural)]
pub struct Session {
    /// The action that the caller was last told to perform.
    pub pending: Action,
    /// The length of the device list, once it was obtained.
    pub length: i64,
    /// Bus number of the device being visited.
    pub bus: u8,
    /// Address of the device being visited.
    pub address: u8,
    /// Configuration count of the device being visited.
    pub configurations: u8,
}

/// How far a session has come.
#[derive(Clone, Copy, Debug, PartialEq, Eq, Structural)]
pub enum Phase {
    /// The backend is not initialized yet.
    Uninitialized,
    /// The backend is initialized and no device list is held.
    Initialized,
    /// The device list is held and no device was visited yet.
    ListObtained,
    /// Devices are being visited.
    Traversing,
    /// The device list was freed; the backend is being left.
    Released,
    /// Over, with the number of devices processed.
    Completed,
    /// Over, without a result.
    Failed,
    /// Over on a fatal condition, without the release of the list or of the backend.
    Aborted,
}

/// The summary line of the device at `index` of the list.
pub open spec fn device_line(desc: DeviceDescriptor, index: nat, bus: u8, address: u8) -> Seq<
    char,
> {
    desc_type_label(desc.descriptor_type as u32) + "["@ + decimal(index) + "] Bus "@ + zero_padded(
        decimal(bus as nat),
        3,
    ) + " Device "@ + zero_padded(decimal(address as nat), 3) + " ID "@ + zero_padded(
        hex(desc.id_vendor as nat),
        4,
    ) + ":"@ + zero_padded(hex(desc.id_product as nat), 4)
}

/// The summary line of the configuration at `index` of its device.
pub open spec fn config_line(desc: ConfigDescriptorView, index: nat) -> Seq<char> {
    "->"@ + desc_type_label(desc.descriptor_type as u32) + "["@ + decimal(index) + "] Len "@
        + decimal(desc.length as nat)
}

/// What is reported of one configuration: its summary line, then the
/// report of its interfaces.
pub open spec fn config_block(desc: ConfigDescriptorView, index: nat) -> Seq<Seq<char>> {
    seq![config_line(desc, index)] + interface_lines(desc.interfaces, desc.num_interfaces as nat)
}

/// The line that reports a failed initialization.
pub open spec fn init_failure_line(status: i32) -> Seq<char> {
    "failed to initialize libusb: "@ + signed_decimal(status as int)
}

impl Session {
    /// What holds of a session between any two calls: an index that is
    /// pending lies within the count it was taken from.
    pub open spec fn inv(self) -> bool {
        match self.pending {
            Action::GetBusNumber { device } => 0 <= device < self.length,
            Action::GetDeviceAddress { device } => 0 <= device < self.length,
            Action::GetDeviceDescriptor { device } => 0 <= device < self.length,
            Action::GetConfigDescriptor { device, index } => 0 <= device < self.length && index
                < self.configurations,
            Action::FreeConfigDescriptor { device, index } => 0 <= device < self.length && index
                < self.configurations,
            Action::FreeDeviceList { unref_devices } => unref_devices && 0 < self.length,
            Action::Finish { count } => count is Some ==> count == Some(self.length) && 0
                < self.length,
            _ => true,
        }
    }

    /// Whether `event` answers the pending action. A configuration fetch
    /// that succeeded comes with a well-formed descriptor.
    pub open spec fn expects(self, event: Event) -> bool {
        match self.pending {
            Action::Init => event is Initialized,
            Action::GetDeviceList => event is DeviceList,
            Action::GetBusNumber { .. } => event is BusNumber,
            Action::GetDeviceAddress { .. } => event is DeviceAddress,
            Action::GetDeviceDescriptor { .. } => event is DeviceDescriptor,
            Action::GetConfigDescriptor { .. } => event matches Event::ConfigDescriptor {
                status,
                descriptor,
            } && (status >= 0 ==> descriptor is Some && descriptor->0@.wf()),
            Action::FreeConfigDescriptor { .. } => event is Done,
            Action::FreeDeviceList { .. } => event is Done,
            Action::Exit => event is Done,
            Action::Finish { .. } => false,
            Action::Abort { .. } => false,
        }
    }

    /// The action with which the walk over the devices goes on at
    /// `device`: the first query about that device, or the release of the
    /// list once every device was visited.
    pub open spec fn at_device(self, device: int) -> Action {
        if device < self.length {
            Action::GetBusNumber { device: device as i64 }
        } else {
            Action::FreeDeviceList { unref_devices: true }
        }
    }

    /// The action with which the walk over the configurations of `device`
    /// goes on at `index`, given the device's configuration count: the
    /// fetch of that configuration, or the step to the next device once
    /// every configuration was visited.
    pub open spec fn at_config(self, device: int, index: int, configurations: u8) -> Action {
        if index < configurations {
            Action::GetConfigDescriptor { device: device as i64, index: index as u8 }
        } else {
            self.at_device(device + 1)
        }
    }

    /// The session that has asked for nothing yet but the initialization
    /// of the backend.
    pub open spec fn start() -> Session {
        Session { pending: Action::Init, length: 0, bus: 0, address: 0, configurations: 0 }
    }

    /// The session after `event` has answered the pending action.
    pub open spec fn next(self, event: Event) -> Session {
        match (self.pending, event) {
            (Action::Init, Event::Initialized { status }) => Session {
                pending: if status != 0 {
                    Action::Finish { count: None }
                } else {
                    Action::GetDeviceList
                },
                ..self
            },
            (Action::GetDeviceList, Event::DeviceList { length }) => Session {
                pending: if length <= 0 {
                    Action::Exit
                } else {
                    Action::GetBusNumber { device: 0 }
                },
                length,
                ..self
            },
            (Action::GetBusNumber { device }, Event::BusNumber { number }) => Session {
                pending: Action::GetDeviceAddress { device },
                bus: number,
                ..self
            },
            (Action::GetDeviceAddress { device }, Event::DeviceAddress { address }) => Session {
                pending: Action::GetDeviceDescriptor { device },
                address,
                ..self
            },
            (
                Action::GetDeviceDescriptor { device },
                Event::DeviceDescriptor { status, descriptor },
            ) => if status < 0 {
                Session { pending: Action::Abort { cause: Fatal::DeviceDescriptor }, ..self }
            } else {
                Session {
                    pending: self.at_config(device as int, 0, descriptor.num_configurations),
                    configurations: descriptor.num_configurations,
                    ..self
                }
            },
            (
                Action::GetConfigDescriptor { device, index },
                Event::ConfigDescriptor { status, descriptor },
            ) => Session {
                pending: if status < 0 {
                    Action::Abort { cause: Fatal::ConfigDescriptor }
                } else {
                    Action::FreeConfigDescriptor { device, index }
                },
                ..self
            },
            (Action::FreeConfigDescriptor { device, index }, Event::Done) => Session {
                pending: self.at_config(device as int, index + 1, self.configurations),
                ..self
            },
            (Action::FreeDeviceList { .. }, Event::Done) => Session {
                pending: Action::Exit,
                ..self
            },
            (Action::Exit, Event::Done) => Session {
                pending: Action::Finish {
                    count: if self.length > 0 {
                        Some(self.length)
                    } else {
                        None
                    },
                },
                ..self
            },
            _ => self,
        }
    }

    /// The lines that are reported when `event` answers the pending
    /// action.
    pub open spec fn report(self, event: Event) -> Seq<Seq<char>> {
        match (self.pending, event) {
            (Action::Init, Event::Initialized { status }) => if status != 0 {
                seq![init_failure_line(status)]
            } else {
                Seq::empty()
            },
            (
                Action::GetDeviceDescriptor { device },
                Event::DeviceDescriptor { status, descriptor },
            ) => if status < 0 {
                Seq::empty()
            } else {
                seq![device_line(descriptor, device as nat, self.bus, self.address)]
            },
            (
                Action::GetConfigDescriptor { device, index },
                Event::ConfigDescriptor { status, descriptor },
            ) => if status < 0 {
                Seq::empty()
            } else {
                config_block(descriptor->0@, index as nat)
            },
            _ => Seq::empty(),
        }
    }

    /// How far the session has come, told from the pending action.
    pub open spec fn phase(self) -> Phase {
        match self.pending {
            Action::Init => Phase::Uninitialized,
            Action::GetDeviceList => Phase::Initialized,
            Action::GetBusNumber { device } => if device == 0 {
                Phase::ListObtained
            } else {
                Phase::Traversing
            },
            Action::GetDeviceAddress { .. } => Phase::Traversing,
            Action::GetDeviceDescriptor { .. } => Phase::Traversing,
            Action::GetConfigDescriptor { .. } => Phase::Traversing,
            Action::FreeConfigDescriptor { .. } => Phase::Traversing,
            Action::FreeDeviceList { .. } => Phase::Traversing,
            Action::Exit => if self.length > 0 {
                Phase::Released
            } else {
                Phase::Initialized
            },
            Action::Finish { count } => if count is Some {
                Phase::Completed
            } else {
                Phase::Failed
            },
            Action::Abort { .. } => Phase::Aborted,
        }
    }

    /// Whether the session is over: nothing is pending but the end.
    pub open spec fn is_over(self) -> bool {
        self.pending is Finish || self.pending is Abort
    }

    /// Tells whether the session's invariant holds.
    pub fn is_consistent(&self) -> (ok: bool)
        ensures
            ok == self.inv(),
    {
        match self.pending {
            Action::GetBusNumber { device } => 0 <= device && device < self.length,
            Action::GetDeviceAddress { device } => 0 <= device && device < self.length,
            Action::GetDeviceDescriptor { device } => 0 <= device && device < self.length,
            Action::GetConfigDescriptor { device, index } => 0 <= device && device < self.length
                && index < self.configurations,
            Action::FreeConfigDescriptor { device, index } => 0 <= device && device < self.length
                && index < self.configurations,
            Action::FreeDeviceList { unref_devices } => unref_devices && 0 < self.length,
            Action::Finish { count: Some(count) } => count == self.length && 0 < self.length,
            _ => true,
        }
    }

    /// Tells how far the session has come.
    pub fn current_phase(&self) -> (phase: Phase)
        ensures
            phase == self.phase(),
    {
        match self.pending {
            Action::Init => Phase::Uninitialized,
            Action::GetDeviceList => Phase::Initialized,
            Action::GetBusNumber { device } => if device == 0 {
                Phase::ListObtained
            } else {
                Phase::Traversing
            },
            Action::GetDeviceAddress { .. } => Phase::Traversing,
            Action::GetDeviceDescriptor { .. } => Phase::Traversing,
            Action::GetConfigDescriptor { .. } => Phase::Traversing,
            Action::FreeConfigDescriptor { .. } => Phase::Traversing,
            Action::FreeDeviceList { .. } => Phase::Traversing,
            Action::Exit => if self.length > 0 {
                Phase::Released
            } else {
                Phase::Initialized
            },
            Action::Finish { count: Some(_) } => Phase::Completed,
            Action::Finish { count: None } => Phase::Failed,
            Action::Abort { .. } => Phase::Aborted,
        }
    }

    /// Tells whether `event` answers the pending action, as a step of the
    /// session demands.
    pub fn accepts(&self, event: &Event) -> (ok: bool)
        ensures
            ok == self.expects(*event),
    {
        match (self.pending, event) {
            (Action::Init, Event::Initialized { .. }) => true,
            (Action::GetDeviceList, Event::DeviceList { .. }) => true,
            (Action::GetBusNumber { .. }, Event::BusNumber { .. }) => true,
            (Action::GetDeviceAddress { .. }, Event::DeviceAddress { .. }) => true,
            (Action::GetDeviceDescriptor { .. }, Event::DeviceDescriptor { .. }) => true,
            (
                Action::GetConfigDescriptor { .. },
                Event::ConfigDescriptor { status, descriptor: Some(desc) },
            ) => *status < 0 || desc.is_well_formed(),
            (
                Action::GetConfigDescriptor { .. },
                Event::ConfigDescriptor { status, descriptor: None },
            ) => *status < 0,
            (Action::FreeConfigDescriptor { .. }, Event::Done) => true,
            (Action::FreeDeviceList { .. }, Event::Done) => true,
            (Action::Exit, Event::Done) => true,
            _ => false,
        }
    }

    /// A session that has asked for nothing yet but the initialization of
    /// the backend.
    pub fn new() -> (session: Session)
        ensures
            session == Session::start(),
            session.inv(),
    {
        Session { pending: Action::Init, length: 0, bus: 0, address: 0, configurations: 0 }
    }
}

/// Writes the summary line of a device.
fn device_text(desc: &DeviceDescriptor, index: i64, bus: u8, address: u8) -> (line: String)
    requires
        0 <= index,
    ensures
        line@ == device_line(*desc, index as nat, bus, address),
{
    let mut line = String::from_str(desc_type_str(desc.descriptor_type as u32));
    line.append("[");
    push_decimal(&mut line, index as u64);
    line.append("] Bus ");
    push_decimal_padded(&mut line, bus as u64, 3);
    line.append(" Device ");
    push_decimal_padded(&mut line, address as u64, 3);
    line.append(" ID ");
    push_hex_padded(&mut line, desc.id_vendor as u64, 4);
    line.append(":");
    push_hex_padded(&mut line, desc.id_product as u64, 4);
    line
}

/// Writes the summary line of a configuration.
fn config_text(desc: &ConfigDescriptor, index: u8) -> (line: String)
    ensures
        line@ == config_line(desc@, index as nat),
{
    let mut line = String::from_str("->");
    line.append(desc_type_str(desc.descriptor_type as u32));
    line.append("[");
    push_decimal(&mut line, index as u64);
    line.append("] Len ");
    push_decimal(&mut line, desc.length as u64);
    line
}

/// Writes the line that reports a failed initialization.
fn init_failure_text(status: i32) -> (line: String)
    ensures
        line@ == init_failure_line(status),
{
    let mut line = String::from_str("failed to initialize libusb: ");
    push_signed(&mut line, status as i64);
    line
}

/// The action with which the walk over the devices goes on at `device`.
fn walk_devices(session: &Session, device: i64) -> (action: Action)
    ensures
        action == session.at_device(device as int),
{
    if device < session.length {
        Action::GetBusNumber { device }
    } else {
        Action::FreeDeviceList { unref_devices: true }
    }
}

/// The action with which the walk over the configurations of `device`
/// goes on after the configuration at `index`.
fn walk_configs(session: &Session, device: i64, index: u8, configurations: u8) -> (action: Action)
    requires
        0 <= device < session.length,
    ensures
        action == session.at_config(device as int, index as int, configurations),
{
    if index < configurations {
        Action::GetConfigDescriptor { device, index }
    } else {
        walk_devices(session, device + 1)
    }
}

/// The walk over the configurations of one device, one answer at a time.
///
/// A configuration fetch that failed is fatal: the session aborts. One
/// that succeeded is reported, the configuration line first and its
/// interfaces after it, and the release of that very descriptor is the
/// next action. Once the release has returned, the walk goes on to the
/// next index, or past the last one to the next device.
pub fn dev_cfgs_iterate(session: &mut Session, event: &Event, out: &mut Vec<String>) -> (action:
    Action)
    requires
        old(session).inv(),
        old(session).expects(*event),
        old(session).pending is GetConfigDescriptor || old(session).pending is FreeConfigDescriptor,
    ensures
        *final(session) == old(session).next(*event),
        action == final(session).pending,
        final(session).inv(),
        final(out).deep_view() == old(out).deep_view() + old(session).report(*event),
{
    let action = match (session.pending, event) {
        (
            Action::GetConfigDescriptor { device, index },
            Event::ConfigDescriptor { status, descriptor: Some(desc) },
        ) => {
            if *status < 0 {
                Action::Abort { cause: Fatal::ConfigDescriptor }
            } else {
                emit(out, config_text(desc, index));
                let interfaces = desc.interfaces.as_slice();
                assert(interfaces.deep_view() =~= desc@.interfaces);
                assert forall|i: int| 0 <= i < desc.num_interfaces implies (
                #[trigger] interfaces@[i])@.wf() by {
                    assert(desc@.interfaces[i] == interfaces@[i]@);
                }
                dev_ifs_iterate(interfaces, desc.num_interfaces, out);
                Action::FreeConfigDescriptor { device, index }
            }
        },
        (Action::GetConfigDescriptor { .. }, Event::ConfigDescriptor { status, descriptor: None }) => {
            Action::Abort { cause: Fatal::ConfigDescriptor }
        },
        (Action::FreeConfigDescriptor { device, index }, _) => {
            if index < session.configurations {
                walk_configs(session, device, index + 1, session.configurations)
            } else {
                session.pending
            }
        },
        _ => session.pending,
    };
    session.pending = action;
    assert(out.deep_view() =~= old(out).deep_view() + old(session).report(*event));
    action
}

/// The walk over the device list, one answer at a time.
///
/// The bus number, the address and the descriptor of a device are asked
/// for in that order. A descriptor fetch that failed is fatal: the
/// session aborts. One that succeeded gives the device line, and the walk
/// over as many configurations as the descriptor counts.
pub fn dev_list_iterate(session: &mut Session, event: &Event, out: &mut Vec<String>) -> (action:
    Action)
    requires
        old(session).inv(),
        old(session).expects(*event),
        old(session).pending is GetBusNumber || old(session).pending is GetDeviceAddress || old(
            session,
        ).pending is GetDeviceDescriptor,
    ensures
        *final(session) == old(session).next(*event),
        action == final(session).pending,
        final(session).inv(),
        final(out).deep_view() == old(out).deep_view() + old(session).report(*event),
{
    let action = match (session.pending, event) {
        (Action::GetBusNumber { device }, Event::BusNumber { number }) => {
            session.bus = *number;
            Action::GetDeviceAddress { device }
        },
        (Action::GetDeviceAddress { device }, Event::DeviceAddress { address }) => {
            session.address = *address;
            Action::GetDeviceDescriptor { device }
        },
        (Action::GetDeviceDescriptor { device }, Event::DeviceDescriptor { status, descriptor }) => {
            if *status < 0 {
                Action::Abort { cause: Fatal::DeviceDescriptor }
            } else {
                emit(out, device_text(descriptor, device, session.bus, session.address));
                session.configurations = descriptor.num_configurations;
                walk_configs(session, device, 0, descriptor.num_configurations)
            }
        },
        _ => session.pending,
    };
    session.pending = action;
    assert(out.deep_view() =~= old(out).deep_view() + old(session).report(*event));
    action
}

/// One step of an enumeration session: takes what the backend answered to
/// the pending action, reports what is to be reported, and tells the next
/// action.
///
/// The backend is initialized first; a status other than zero is reported
/// and ends the session without a result. The device list is asked for
/// next; on a length that is not positive the backend is left again and
/// the session ends without a result. Else every device of the list is
/// visited, the list is freed, the backend is left, and the session ends
/// with the length of the list.
pub fn devs_iterate(session: &mut Session, event: &Event, out: &mut Vec<String>) -> (action: Action)
    requires
        old(session).inv(),
        old(session).expects(*event),
    ensures
        *final(session) == old(session).next(*event),
        action == final(session).pending,
        final(session).inv(),
        final(out).deep_view() == old(out).deep_view() + old(session).report(*event),
{
    match (session.pending, event) {
        (Action::Init, Event::Initialized { status }) => {
            if *status != 0 {
                emit(out, init_failure_text(*status));
                session.pending = Action::Finish { count: None };
            } else {
                session.pending = Action::GetDeviceList;
            }
        },
        (Action::GetDeviceList, Event::DeviceList { length }) => {
            session.length = *length;
            if *length <= 0 {
                session.pending = Action::Exit;
            } else {
                session.pending = walk_devices(session, 0);
            }
        },
        (Action::GetBusNumber { .. }, _) => {
            return dev_list_iterate(session, event, out);
        },
        (Action::GetDeviceAddress { .. }, _) => {
            return dev_list_iterate(session, event, out);
        },
        (Action::GetDeviceDescriptor { .. }, _) => {
            return dev_list_iterate(session, event, out);
        },
        (Action::GetConfigDescriptor { .. }, _) => {
            return dev_cfgs_iterate(session, event, out);
        },
        (Action::FreeConfigDescriptor { .. }, _) => {
            return dev_cfgs_iterate(session, event, out);
        },
        (Action::FreeDeviceList { .. }, _) => {
            session.pending = Action::Exit;
        },
        (Action::Exit, _) => {
            session.pending = Action::Finish {
                count: if session.length > 0 {
                    Some(session.length)
                } else {
                    None
                },
            };
        },
        _ => {},
    }
    assert(out.deep_view() =~= old(out).deep_view() + old(session).report(*event));
    session.pending
}

impl Session {
    /// Offers `event` to the session. Where the session is consistent and
    /// `event` answers the pending action, the step is taken as
    /// `devs_iterate` takes it, and the next action is told. Where not,
    /// nothing changes, nothing is reported, and no action is told.
    pub fn offer(&mut self, event: &Event, out: &mut Vec<String>) -> (action: Option<Action>)
        ensures
            old(self).inv() && old(self).expects(*event) ==> {
                &&& *final(self) == old(self).next(*event)
                &&& action == Some(final(self).pending)
                &&& final(self).inv()
                &&& final(out).deep_view() == old(out).deep_view() + old(self).report(*event)
            },
            !(old(self).inv() && old(self).expects(*event)) ==> {
                &&& *final(self) == *old(self)
                &&& action is None
                &&& *final(out) == *old(out)
            },
    {
        if self.is_consistent() && self.accepts(event) {
            Some(devs_iterate(self, event, out))
        } else {
            None
        }
    }
}

} // verus!
