//! The course of a whole session against a backend that fails nowhere:
//! which answers come in which order, where the session ends, and what it
//! has reported by then.

use vstd::prelude::*;

use crate::os_usb::descriptor::{ConfigDescriptor, DeviceDescriptor};
use crate::os_usb::laws::{
    accepted, acquisitions, lemma_course_in_parts, lemma_course_of_one, releases, reported, run,
};
use crate::os_usb::session::{config_block, device_line, Action, Event, Session};

verus! {

/// What the backend answers when a configuration is fetched.
pub struct ConfigAnswer {
    pub status: i32,
    pub descriptor: ConfigDescriptor,
}

/// What the backend answers about one device.
pub struct DeviceAnswers {
    pub bus: u8,
    pub address: u8,
    pub status: i32,
    pub descriptor: DeviceDescriptor,
    /// The answers to the fetch of each configuration, by index.
    pub configs: Seq<ConfigAnswer>,
}

impl ConfigAnswer {
    /// The fetch succeeded, with a well-formed descriptor.
    pub open spec fn ok(self) -> bool {
        self.status >= 0 && self.descriptor@.wf()
    }

    /// The answer as an event.
    pub open spec fn event(self) -> Event {
        Event::ConfigDescriptor { status: self.status, descriptor: Some(self.descriptor) }
    }
}

impl DeviceAnswers {
    /// Every fetch succeeded, and there is an answer for each of the
    /// configurations that the device descriptor counts.
    pub open spec fn ok(self) -> bool {
        &&& self.status >= 0
        &&& self.configs.len() == self.descriptor.num_configurations
        &&& forall|i: int| 0 <= i < self.configs.len() ==> (#[trigger] self.configs[i]).ok()
    }
}

/// The answers that come while the first `upto` configurations are
/// walked: for each the descriptor, then the return of its release.
pub open spec fn config_events(configs: Seq<ConfigAnswer>, upto: nat) -> Seq<Event>
    decreases upto,
{
    if upto == 0 {
        Seq::empty()
    } else {
        config_events(configs, (upto - 1) as nat) + seq![configs[upto - 1].event()] + seq![
            Event::Done,
        ]
    }
}

/// What is reported of the first `upto` configurations.
pub open spec fn config_report(configs: Seq<ConfigAnswer>, upto: nat) -> Seq<Seq<char>>
    decreases upto,
{
    if upto == 0 {
        Seq::empty()
    } else {
        config_report(configs, (upto - 1) as nat) + config_block(
            configs[upto - 1].descriptor@,
            (upto - 1) as nat,
        )
    }
}

/// The answers that come while one device is visited: its bus number,
/// its address, its descriptor, then those of its configurations.
pub open spec fn device_events(device: DeviceAnswers) -> Seq<Event> {
    seq![Event::BusNumber { number: device.bus }] + seq![
        Event::DeviceAddress { address: device.address },
    ] + seq![Event::DeviceDescriptor { status: device.status, descriptor: device.descriptor }]
        + config_events(device.configs, device.configs.len())
}

/// What is reported of the device at `index` of the list: the device
/// line, then its configurations.
pub open spec fn device_report(device: DeviceAnswers, index: nat) -> Seq<Seq<char>> {
    seq![device_line(device.descriptor, index, device.bus, device.address)] + config_report(
        device.configs,
        device.configs.len(),
    )
}

/// The answers that come while the first `upto` devices are visited.
pub open spec fn list_events(devices: Seq<DeviceAnswers>, upto: nat) -> Seq<Event>
    decreases upto,
{
    if upto == 0 {
        Seq::empty()
    } else {
        list_events(devices, (upto - 1) as nat) + device_events(devices[upto - 1])
    }
}

/// What is reported of the first `upto` devices.
pub open spec fn list_report(devices: Seq<DeviceAnswers>, upto: nat) -> Seq<Seq<char>>
    decreases upto,
{
    if upto == 0 {
        Seq::empty()
    } else {
        list_report(devices, (upto - 1) as nat) + device_report(
            devices[upto - 1],
            (upto - 1) as nat,
        )
    }
}

/// The number of configurations of the first `upto` devices together.
pub open spec fn configurations(devices: Seq<DeviceAnswers>, upto: nat) -> nat
    decreases upto,
{
    if upto == 0 {
        0
    } else {
        configurations(devices, (upto - 1) as nat) + devices[upto - 1].configs.len()
    }
}

/// All the answers of a session over `devices`: the initialization, the
/// list, the devices, and the return of the two releases at the end.
pub open spec fn session_events(devices: Seq<DeviceAnswers>) -> Seq<Event> {
    seq![Event::Initialized { status: 0 }] + seq![Event::DeviceList { length: devices.len() as i64 }]
        + list_events(devices, devices.len()) + seq![Event::Done] + seq![Event::Done]
}

/// The walk over the configurations of one device. From the fetch of the
/// first configuration, after the answers for `upto` of them the walk
/// stands at the next index, or past the last at the next device. Each
/// configuration was acquired and released once, and reported in turn.
pub proof fn lemma_config_walk(
    session: Session,
    device: i64,
    configs: Seq<ConfigAnswer>,
    upto: nat,
)
    requires
        session.inv(),
        0 <= device < session.length,
        session.pending == session.at_config(device as int, 0, session.configurations),
        configs.len() == session.configurations,
        upto <= configs.len(),
        forall|i: int| 0 <= i < configs.len() ==> (#[trigger] configs[i]).ok(),
    ensures
        accepted(session, config_events(configs, upto)),
        run(session, config_events(configs, upto)) == (Session {
            pending: session.at_config(device as int, upto as int, session.configurations),
            ..session
        }),
        reported(session, config_events(configs, upto)) == config_report(configs, upto),
        acquisitions(session, config_events(configs, upto)) == upto,
        releases(session, config_events(configs, upto)) == upto,
    decreases upto,
{
    if upto == 0 {
        assert(reported(session, config_events(configs, upto)) =~= config_report(configs, upto));
    } else {
        let before = config_events(configs, (upto - 1) as nat);
        let answer = configs[upto - 1];
        assert(answer.ok());
        lemma_config_walk(session, device, configs, (upto - 1) as nat);
        let fetching = run(session, before);
        lemma_course_in_parts(session, before, seq![answer.event()]);
        lemma_course_of_one(fetching, answer.event());
        let releasing = fetching.next(answer.event());
        lemma_course_in_parts(session, before + seq![answer.event()], seq![Event::Done]);
        lemma_course_of_one(releasing, Event::Done);
        assert(reported(session, config_events(configs, upto)) =~= config_report(configs, upto));
    }
}

/// The visit of one device. From the query of its bus number, after the
/// answers about the device the session stands at the next device, or
/// at the release of the list after the last one. The device and its
/// configurations were reported, and every configuration was acquired
/// and released once.
pub proof fn lemma_device_visit(session: Session, index: i64, device: DeviceAnswers)
    requires
        session.inv(),
        session.pending == (Action::GetBusNumber { device: index }),
        device.ok(),
    ensures
        accepted(session, device_events(device)),
        run(session, device_events(device)).pending == session.at_device(index + 1),
        run(session, device_events(device)).length == session.length,
        run(session, device_events(device)).inv(),
        reported(session, device_events(device)) == device_report(device, index as nat),
        acquisitions(session, device_events(device)) == device.configs.len(),
        releases(session, device_events(device)) == device.configs.len(),
{
    let bus = Event::BusNumber { number: device.bus };
    let address = Event::DeviceAddress { address: device.address };
    let descriptor = Event::DeviceDescriptor { status: device.status, descriptor: device.descriptor };
    let walk = config_events(device.configs, device.configs.len());
    let s1 = session.next(bus);
    let s2 = s1.next(address);
    let s3 = s2.next(descriptor);
    lemma_course_of_one(session, bus);
    lemma_course_in_parts(session, seq![bus], seq![address]);
    lemma_course_of_one(s1, address);
    lemma_course_in_parts(session, seq![bus] + seq![address], seq![descriptor]);
    lemma_course_of_one(s2, descriptor);
    lemma_course_in_parts(session, seq![bus] + seq![address] + seq![descriptor], walk);
    lemma_config_walk(s3, index, device.configs, device.configs.len());
    assert(reported(session, device_events(device)) =~= device_report(device, index as nat));
}

/// The walk over the device list. From the first device, after the
/// answers about `upto` devices the session stands at the next device,
/// or at the release of the list after the last one.
pub proof fn lemma_list_walk(session: Session, devices: Seq<DeviceAnswers>, upto: nat)
    requires
        session.inv(),
        session.pending == (Action::GetBusNumber { device: 0 }),
        session.length == devices.len(),
        upto <= devices.len(),
        forall|i: int| 0 <= i < devices.len() ==> (#[trigger] devices[i]).ok(),
    ensures
        accepted(session, list_events(devices, upto)),
        run(session, list_events(devices, upto)).pending == session.at_device(upto as int),
        run(session, list_events(devices, upto)).length == session.length,
        run(session, list_events(devices, upto)).inv(),
        reported(session, list_events(devices, upto)) == list_report(devices, upto),
        acquisitions(session, list_events(devices, upto)) == configurations(devices, upto),
        releases(session, list_events(devices, upto)) == configurations(devices, upto),
    decreases upto,
{
    if upto == 0 {
        assert(reported(session, list_events(devices, upto)) =~= list_report(devices, upto));
    } else {
        let before = list_events(devices, (upto - 1) as nat);
        let device = devices[upto - 1];
        assert(device.ok());
        lemma_list_walk(session, devices, (upto - 1) as nat);
        let visiting = run(session, before);
        lemma_course_in_parts(session, before, device_events(device));
        lemma_device_visit(visiting, (upto - 1) as i64, device);
        assert(reported(session, list_events(devices, upto)) =~= list_report(devices, upto));
    }
}

/// A whole session over a list of at least one device, against a backend
/// that fails nowhere: the session takes every answer, ends with the
/// number of devices, and has reported every device with its
/// configurations, in the order of the list. It has acquired as many
/// configuration descriptors as the devices have configurations, and
/// released as many.
pub proof fn lemma_session_course(devices: Seq<DeviceAnswers>)
    requires
        0 < devices.len() <= i64::MAX,
        forall|i: int| 0 <= i < devices.len() ==> (#[trigger] devices[i]).ok(),
    ensures
        accepted(Session::start(), session_events(devices)),
        run(Session::start(), session_events(devices)).pending == (Action::Finish {
            count: Some(devices.len() as i64),
        }),
        reported(Session::start(), session_events(devices)) == list_report(devices, devices.len()),
        acquisitions(Session::start(), session_events(devices)) == configurations(
            devices,
            devices.len(),
        ),
        releases(Session::start(), session_events(devices)) == configurations(
            devices,
            devices.len(),
        ),
{
    let start = Session::start();
    let init = Event::Initialized { status: 0 };
    let list = Event::DeviceList { length: devices.len() as i64 };
    let walk = list_events(devices, devices.len());
    let s1 = start.next(init);
    let s2 = s1.next(list);
    lemma_course_of_one(start, init);
    lemma_course_in_parts(start, seq![init], seq![list]);
    lemma_course_of_one(s1, list);
    lemma_course_in_parts(start, seq![init] + seq![list], walk);
    lemma_list_walk(s2, devices, devices.len());
    let s3 = run(s2, walk);
    lemma_course_in_parts(start, seq![init] + seq![list] + walk, seq![Event::Done]);
    lemma_course_of_one(s3, Event::Done);
    let s4 = s3.next(Event::Done);
    lemma_course_in_parts(
        start,
        seq![init] + seq![list] + walk + seq![Event::Done],
        seq![Event::Done],
    );
    lemma_course_of_one(s4, Event::Done);
    assert(reported(start, session_events(devices)) =~= list_report(devices, devices.len()));
}

} // verus!
