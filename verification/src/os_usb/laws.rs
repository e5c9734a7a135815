//! What holds of every enumeration session: which action can follow
//! which, that descriptors acquired are released, and how a session ends.

use vstd::prelude::*;

use crate::os_usb::descriptor::DeviceDescriptor;
use crate::os_usb::session::{device_line, Action, Event, Fatal, Phase, Session};

verus! {

/// Whether `event` reports a configuration descriptor that was acquired.
pub open spec fn is_acquisition(event: Event) -> bool {
    event matches Event::ConfigDescriptor { status, .. } && status >= 0
}

/// The place of a phase in the course of a session.
pub open spec fn phase_rank(phase: Phase) -> nat {
    match phase {
        Phase::Uninitialized => 0,
        Phase::Initialized => 1,
        Phase::ListObtained => 2,
        Phase::Traversing => 3,
        Phase::Released => 4,
        Phase::Completed => 5,
        Phase::Failed => 5,
        Phase::Aborted => 5,
    }
}

/// Whether the session can take the events of `events` one after the
/// other: each answers the action that is pending when it comes.
pub open spec fn accepted(session: Session, events: Seq<Event>) -> bool
    decreases events.len(),
{
    events.len() > 0 ==> accepted(session, events.drop_last()) && run(
        session,
        events.drop_last(),
    ).expects(events.last())
}

/// The session after it has taken the events of `events` one after the
/// other.
pub open spec fn run(session: Session, events: Seq<Event>) -> Session
    decreases events.len(),
{
    if events.len() == 0 {
        session
    } else {
        run(session, events.drop_last()).next(events.last())
    }
}

/// How many configuration descriptors were acquired in the course of
/// `events`.
pub open spec fn acquisitions(session: Session, events: Seq<Event>) -> nat
    decreases events.len(),
{
    if events.len() == 0 {
        0
    } else {
        let before = run(session, events.drop_last());
        let now: nat = if before.pending is GetConfigDescriptor && is_acquisition(events.last()) {
            1
        } else {
            0
        };
        acquisitions(session, events.drop_last()) + now
    }
}

/// How many configuration descriptors were released in the course of
/// `events`.
pub open spec fn releases(session: Session, events: Seq<Event>) -> nat
    decreases events.len(),
{
    if events.len() == 0 {
        0
    } else {
        let before = run(session, events.drop_last());
        let now: nat = if before.pending is FreeConfigDescriptor && events.last() is Done {
            1
        } else {
            0
        };
        releases(session, events.drop_last()) + now
    }
}

/// The lines reported in the course of `events`, in their order.
pub open spec fn reported(session: Session, events: Seq<Event>) -> Seq<Seq<char>>
    decreases events.len(),
{
    if events.len() == 0 {
        Seq::empty()
    } else {
        reported(session, events.drop_last()) + run(session, events.drop_last()).report(
            events.last(),
        )
    }
}

/// The number of configuration descriptors that the session holds: one
/// while a release is pending, none at any other time.
pub open spec fn held(session: Session) -> nat {
    if session.pending is FreeConfigDescriptor {
        1
    } else {
        0
    }
}

/// Every step keeps the session's invariant.
pub proof fn lemma_step_keeps_invariant(session: Session, event: Event)
    requires
        session.inv(),
        session.expects(event),
    ensures
        session.next(event).inv(),
{
}

/// The release of a configuration descriptor is the next action exactly
/// when that descriptor was just acquired: it follows every acquisition
/// at once, for the same device and index, and nothing else.
pub proof fn lemma_release_follows_acquisition(
    session: Session,
    event: Event,
    device: i64,
    index: u8,
)
    requires
        session.inv(),
        session.expects(event),
    ensures
        session.next(event).pending == (Action::FreeConfigDescriptor { device, index }) <==> (
        session.pending == (Action::GetConfigDescriptor { device, index }) && is_acquisition(
            event,
        )),
{
}

/// A configuration is fetched only while no descriptor is held, in
/// ascending order and within the count of the device's descriptor:
/// index zero straight after that descriptor came, every other index
/// straight after the release of the one before it.
pub proof fn lemma_acquisition_in_order(session: Session, event: Event, device: i64, index: u8)
    requires
        session.inv(),
        session.expects(event),
        session.next(event).pending == (Action::GetConfigDescriptor { device, index }),
    ensures
        index < session.next(event).configurations,
        index == 0 ==> session.pending == (Action::GetDeviceDescriptor { device }) && (
        event matches Event::DeviceDescriptor { status, descriptor } && status >= 0
            && descriptor.num_configurations == session.next(event).configurations),
        index > 0 ==> session.pending == (Action::FreeConfigDescriptor {
            device,
            index: (index - 1) as u8,
        }) && session.next(event).configurations == session.configurations,
{
}

/// A failed fetch of a configuration aborts the session, and so does a
/// failed fetch of a device descriptor; nothing else does. The step that
/// aborts reports nothing.
pub proof fn lemma_abort(session: Session, event: Event)
    requires
        session.inv(),
        session.expects(event),
    ensures
        session.next(event).pending == (Action::Abort { cause: Fatal::ConfigDescriptor }) <==> (
        event matches Event::ConfigDescriptor { status, .. } && status < 0),
        session.next(event).pending == (Action::Abort { cause: Fatal::DeviceDescriptor }) <==> (
        event matches Event::DeviceDescriptor { status, .. } && status < 0),
        session.next(event).pending is Abort ==> session.report(event).len() == 0,
{
}

/// A device without configurations: once its descriptor has come, no
/// configuration is fetched or released for it. The next action belongs
/// to the next device, or frees the list, and the device line is all
/// that is reported.
pub proof fn lemma_no_configurations(
    session: Session,
    device: i64,
    status: i32,
    descriptor: DeviceDescriptor,
)
    requires
        session.inv(),
        session.pending == (Action::GetDeviceDescriptor { device }),
        status >= 0,
        descriptor.num_configurations == 0,
    ensures
        ({
            let event = Event::DeviceDescriptor { status, descriptor };
            let after = session.next(event);
            &&& after.pending == session.at_device(device + 1)
            &&& !(after.pending is GetConfigDescriptor)
            &&& !(after.pending is FreeConfigDescriptor)
            &&& session.report(event) == seq![
                device_line(descriptor, device as nat, session.bus, session.address),
            ]
        }),
{
}

/// A device list whose length is not positive: the backend is left at
/// once and the session ends without a result. Nothing is asked about
/// any device and nothing is reported.
pub proof fn lemma_empty_list(session: Session, length: i64)
    requires
        session.inv(),
        session.pending == Action::GetDeviceList,
        length <= 0,
    ensures
        ({
            let listed = session.next(Event::DeviceList { length });
            let left = listed.next(Event::Done);
            &&& listed.pending == Action::Exit
            &&& listed.expects(Event::Done)
            &&& forall|event: Event| listed.expects(event) ==> event == Event::Done
            &&& left.pending == (Action::Finish { count: None })
            &&& session.report(Event::DeviceList { length }).len() == 0
            &&& listed.report(Event::Done).len() == 0
        }),
{
}

/// A session ends with a count exactly when it leaves the backend after
/// a list of positive length, and the count is that length. It ends
/// without a result exactly when the initialization failed, or when it
/// leaves the backend after a list without devices.
pub proof fn lemma_result(session: Session, event: Event)
    requires
        session.inv(),
        session.expects(event),
    ensures
        forall|count: i64| #[trigger]
            session.next(event).pending == (Action::Finish { count: Some(count) }) <==> (
            session.pending == Action::Exit && count == session.length && count > 0),
        session.next(event).pending == (Action::Finish { count: None }) <==> ((session.pending
            == Action::Exit && session.length <= 0) || (session.pending == Action::Init && (
        event matches Event::Initialized { status } && status != 0))),
{
}

/// The device list is freed once, with its devices, after the last
/// device was visited; the backend is left straight after that.
pub proof fn lemma_list_freed(session: Session, event: Event)
    requires
        session.inv(),
        session.expects(event),
    ensures
        session.next(event).pending is FreeDeviceList ==> {
            &&& session.next(event).pending == (Action::FreeDeviceList { unref_devices: true })
            &&& !(session.pending is FreeDeviceList)
            &&& (session.pending matches Action::GetDeviceDescriptor { device } && device + 1
                == session.length) || (session.pending matches Action::FreeConfigDescriptor {
                device,
                ..
            } && device + 1 == session.length)
        },
        session.pending is FreeDeviceList ==> session.next(event).pending == Action::Exit,
{
}

/// A session never falls back to an earlier phase. It completes only
/// from the release of its resources; it fails only where the backend
/// did not initialize or listed no device; it aborts only while devices
/// are visited.
pub proof fn lemma_phase_advances(session: Session, event: Event)
    requires
        session.inv(),
        session.expects(event),
    ensures
        phase_rank(session.phase()) <= phase_rank(session.next(event).phase()),
        session.next(event).phase() == Phase::Completed ==> session.phase() == Phase::Released,
        session.next(event).phase() == Phase::Failed ==> session.phase() == Phase::Uninitialized
            || session.phase() == Phase::Initialized,
        session.next(event).phase() == Phase::Aborted ==> session.phase() == Phase::Traversing,
        session.next(event).phase() == Phase::Released ==> session.pending is FreeDeviceList,
{
}

/// A bound on the number of events that a session can still take, once
/// the device list is known.
pub open spec fn steps_left(session: Session) -> int {
    match session.pending {
        Action::GetBusNumber { device } => (session.length - device) * 516 + 3,
        Action::GetDeviceAddress { device } => (session.length - device) * 516 + 2,
        Action::GetDeviceDescriptor { device } => (session.length - device) * 516 + 1,
        Action::GetConfigDescriptor { device, index } => (session.length - device) * 516 - 2
            * index,
        Action::FreeConfigDescriptor { device, index } => (session.length - device) * 516 - 2
            * index - 1,
        Action::FreeDeviceList { .. } => 2,
        Action::Exit => 1,
        _ => 0,
    }
}

/// Every session ends: once the device list is known, each event that
/// the session takes brings it closer to its end by at least one step,
/// and a session that can take no further step is over.
pub proof fn lemma_session_ends(session: Session, event: Event)
    requires
        session.inv(),
        session.expects(event),
        !(session.pending is Init),
        !(session.pending is GetDeviceList),
    ensures
        0 <= steps_left(session.next(event)) < steps_left(session),
        steps_left(session.next(event)) == 0 <==> session.next(event).is_over(),
{
}

/// A session that is over takes no further event.
pub proof fn lemma_over_is_final(session: Session, event: Event)
    requires
        session.is_over(),
    ensures
        !session.expects(event),
{
}

/// At every point of a session, the configuration descriptors acquired so
/// far are those released so far and the one that is held, if any. At
/// most one is held at a time, and none once the session is over, be it
/// finished or aborted: none leaks and none is released twice.
pub proof fn lemma_acquired_are_released(events: Seq<Event>)
    requires
        accepted(Session::start(), events),
    ensures
        run(Session::start(), events).inv(),
        acquisitions(Session::start(), events) == releases(Session::start(), events) + held(
            run(Session::start(), events),
        ),
        run(Session::start(), events).is_over() ==> acquisitions(Session::start(), events)
            == releases(Session::start(), events),
    decreases events.len(),
{
    if events.len() > 0 {
        lemma_acquired_are_released(events.drop_last());
    }
}

/// A course of one event is one step.
pub proof fn lemma_course_of_one(session: Session, event: Event)
    ensures
        accepted(session, seq![event]) == session.expects(event),
        run(session, seq![event]) == session.next(event),
        reported(session, seq![event]) == session.report(event),
        acquisitions(session, seq![event]) == (if session.pending is GetConfigDescriptor
            && is_acquisition(event) {
            1nat
        } else {
            0nat
        }),
        releases(session, seq![event]) == (if session.pending is FreeConfigDescriptor
            && event is Done {
            1nat
        } else {
            0nat
        }),
{
    let events = seq![event];
    assert(events.drop_last() =~= Seq::<Event>::empty());
    assert(events.last() == event);
    assert(accepted(session, events.drop_last()));
    assert(run(session, events.drop_last()) == session);
    assert(reported(session, events.drop_last()) =~= Seq::<Seq<char>>::empty());
    assert(reported(session, events) =~= session.report(event));
    assert(acquisitions(session, events.drop_last()) == 0);
    assert(releases(session, events.drop_last()) == 0);
}

/// A course in two parts is the course of the first part, followed by
/// the course of the second part from where the first one ended.
pub proof fn lemma_course_in_parts(session: Session, first: Seq<Event>, second: Seq<Event>)
    ensures
        accepted(session, first + second) == (accepted(session, first) && accepted(
            run(session, first),
            second,
        )),
        run(session, first + second) == run(run(session, first), second),
        reported(session, first + second) == reported(session, first) + reported(
            run(session, first),
            second,
        ),
        acquisitions(session, first + second) == acquisitions(session, first) + acquisitions(
            run(session, first),
            second,
        ),
        releases(session, first + second) == releases(session, first) + releases(
            run(session, first),
            second,
        ),
    decreases second.len(),
{
    let middle = run(session, first);
    if second.len() == 0 {
        assert(first + second =~= first);
        assert(reported(middle, second) =~= Seq::<Seq<char>>::empty());
        assert(reported(session, first + second) =~= reported(session, first) + reported(
            middle,
            second,
        ));
    } else {
        let whole = first + second;
        assert(whole.drop_last() =~= first + second.drop_last());
        assert(whole.last() == second.last());
        lemma_course_in_parts(session, first, second.drop_last());
        assert(reported(session, whole) =~= reported(session, first) + reported(middle, second));
    }
}

} // verus!
