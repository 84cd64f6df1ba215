//! Waiting for a device.
//!
//! A caller that waits first tries the devices that are connected already
//! and then listens for devices being plugged in. The caller does the
//! opening, the sleeping and the listening; the waiter decides what comes
//! next. A device that is busy is tried again after a pause, a device that
//! fails otherwise is passed over, and the wait ends without a device only
//! when no more events will come.

use vstd::prelude::*;
use crate::discovery::DeviceFilter;
use crate::discovery::DeviceIdentity;
use crate::error::Error;
use crate::error::ErrorView;

verus! {

/// The device that the caller is to open.
#[derive(Clone, Copy, Debug, PartialEq, Eq, Structural)]
pub enum Target {
    /// The device at this position of the enumeration.
    Listed(usize),
    /// The device of the event that was handed in last.
    Arrived,
}

/// Something that happens on the bus while the caller listens.
#[derive(Clone, Debug, PartialEq, Eq)]
pub enum PlugEvent {
    /// A device was plugged in.
    Connected(DeviceIdentity),
    /// A device was removed.
    Disconnected,
    /// No more events will come.
    Ended,
}

/// Mathematical model of a [`PendingOpen`].
pub struct PendingOpenView {
    pub filter: DeviceFilter,
    /// Positions of the connected devices that are still to be tried.
    pub queue: Seq<int>,
    /// The device that the caller is opening.
    pub target: Target,
}

/// Mathematical model of a [`Watcher`].
pub struct WatcherView {
    pub filter: DeviceFilter,
}

/// Mathematical model of a [`WaitStep`].
pub enum WaitStepView {
    Open(PendingOpenView, bool),
    Listen(WatcherView),
    Found,
    NotFound,
}

/// The step that starts on the queue `queue` of devices to try: the first
/// of them is opened, and with none left the caller listens.
pub open spec fn begin_with(filter: DeviceFilter, queue: Seq<int>) -> WaitStepView {
    if queue.len() > 0 {
        WaitStepView::Open(
            PendingOpenView {
                filter,
                queue: queue.drop_first(),
                target: Target::Listed(queue.first() as usize),
            },
            false,
        )
    } else {
        WaitStepView::Listen(WatcherView { filter })
    }
}

impl PendingOpenView {
    /// The step that follows the attempt to open the target. `failure` is
    /// `None` if the device is open.
    pub open spec fn next(self, failure: Option<ErrorView>) -> WaitStepView {
        match failure {
            None => WaitStepView::Found,
            Some(e) => match self.target {
                Target::Listed(_) => if e == ErrorView::DeviceBusy {
                    WaitStepView::Open(self, true)
                } else {
                    begin_with(self.filter, self.queue)
                },
                Target::Arrived => WaitStepView::Listen(WatcherView { filter: self.filter }),
            },
        }
    }
}

impl WatcherView {
    /// The step that follows the event `event`.
    pub open spec fn next(self, event: PlugEvent) -> WaitStepView {
        match event {
            PlugEvent::Connected(device) => if self.filter.accepts(&device) {
                WaitStepView::Open(
                    PendingOpenView {
                        filter: self.filter,
                        queue: Seq::empty(),
                        target: Target::Arrived,
                    },
                    false,
                )
            } else {
                WaitStepView::Listen(self)
            },
            PlugEvent::Disconnected => WaitStepView::Listen(self),
            PlugEvent::Ended => WaitStepView::NotFound,
        }
    }
}

/// The wait ends without a device only when the events have ended: no
/// failure to open a device ends it.
pub proof fn only_the_end_of_events_gives_up(
    pending: PendingOpenView,
    failure: Option<ErrorView>,
    watcher: WatcherView,
    event: PlugEvent,
)
    ensures
        !(pending.next(failure) is NotFound),
        pending.next(failure) is Found <==> failure is None,
        watcher.next(event) is NotFound <==> event is Ended,
        !(watcher.next(event) is Found),
{
}

/// A connected device that is busy is tried again, after a pause, and
/// nothing else is tried before it.
pub proof fn busy_device_is_retried(pending: PendingOpenView)
    requires
        pending.target is Listed,
    ensures
        pending.next(Some(ErrorView::DeviceBusy)) == WaitStepView::Open(pending, true),
{
}

/// What the caller does next while it waits for a device.
pub enum WaitStep {
    /// Open the target, after a pause of about a second if `pause` is set,
    /// and hand the outcome to the pending open.
    Open { pending: PendingOpen, pause: bool },
    /// Wait for the next event and hand it to the watcher.
    Listen(Watcher),
    /// The device that was opened last is the one.
    Found,
    /// No device will come.
    NotFound,
}

impl View for WaitStep {
    type V = WaitStepView;

    open spec fn view(&self) -> WaitStepView {
        match *self {
            WaitStep::Open { pending, pause } => WaitStepView::Open(pending@, pause),
            WaitStep::Listen(watcher) => WaitStepView::Listen(watcher@),
            WaitStep::Found => WaitStepView::Found,
            WaitStep::NotFound => WaitStepView::NotFound,
        }
    }
}

/// The wait while the caller opens a device.
pub struct PendingOpen {
    filter: DeviceFilter,
    queue: Vec<usize>,
    next: usize,
    target: Target,
}

impl View for PendingOpen {
    type V = PendingOpenView;

    closed spec fn view(&self) -> PendingOpenView {
        PendingOpenView {
            filter: self.filter,
            queue: self.queue@.skip(self.next as int).map_values(|i: usize| i as int),
            target: self.target,
        }
    }
}

/// The wait while the caller listens for events.
pub struct Watcher {
    filter: DeviceFilter,
}

impl View for Watcher {
    type V = WatcherView;

    closed spec fn view(&self) -> WatcherView {
        WatcherView { filter: self.filter }
    }
}

/// Starts on the devices of `queue` from position `next` on.
fn begin_at(filter: DeviceFilter, queue: Vec<usize>, next: usize) -> (step: WaitStep)
    requires
        next <= queue@.len(),
    ensures
        step@ == begin_with(filter, queue@.skip(next as int).map_values(|i: usize| i as int)),
{
    let ghost rest = queue@.skip(next as int).map_values(|i: usize| i as int);
    if next < queue.len() {
        let target = Target::Listed(queue[next]);
        proof {
            assert(rest.first() == queue@[next as int] as int);
            assert(queue@.skip(next + 1).map_values(|i: usize| i as int) =~= rest.drop_first());
        }
        WaitStep::Open { pending: PendingOpen { filter, queue, next: next + 1, target }, pause: false }
    } else {
        WaitStep::Listen(Watcher { filter })
    }
}

/// Starts the wait for a device that `filter` accepts, given the devices
/// that are connected now. The caller subscribes to events before it
/// enumerates, so that no device slips through between the two.
pub fn wait_for_device(filter: DeviceFilter, devices: &Vec<DeviceIdentity>) -> (step: WaitStep)
    ensures
        step@ == begin_with(filter, filter.accepted(devices@)),
{
    let queue = filter.candidates(devices);
    assert(queue@.skip(0) == queue@);
    begin_at(filter, queue, 0)
}

impl PendingOpen {
    #[verifier::type_invariant]
    spec fn inv(&self) -> bool {
        self.next <= self.queue@.len()
    }

    /// The device that the caller is to open.
    pub fn target(&self) -> (t: Target)
        ensures
            t == self@.target,
    {
        self.target
    }

    /// Takes the outcome of the attempt to open the target.
    pub fn on_result(self, outcome: Result<(), Error>) -> (step: WaitStep)
        ensures
            step@ == self@.next(
                match outcome {
                    Ok(_) => None,
                    Err(e) => Some(e@),
                },
            ),
    {
        proof {
            use_type_invariant(&self);
        }
        match outcome {
            Ok(_) => WaitStep::Found,
            Err(e) => match self.target {
                Target::Listed(_) => {
                    if is_busy(&e) {
                        WaitStep::Open { pending: self, pause: true }
                    } else {
                        begin_at(self.filter, self.queue, self.next)
                    }
                },
                Target::Arrived => WaitStep::Listen(Watcher { filter: self.filter }),
            },
        }
    }
}

/// Tells whether `e` says that another process holds the interface.
fn is_busy(e: &Error) -> (busy: bool)
    ensures
        busy == (e@ == ErrorView::DeviceBusy),
{
    match e {
        Error::DeviceBusy => true,
        _ => false,
    }
}

impl Watcher {
    /// Takes the next event.
    pub fn on_event(self, event: &PlugEvent) -> (step: WaitStep)
        ensures
            step@ == self@.next(*event),
    {
        match event {
            PlugEvent::Connected(device) => {
                if self.filter.matches(device) {
                    let pending = PendingOpen {
                        filter: self.filter,
                        queue: Vec::new(),
                        next: 0,
                        target: Target::Arrived,
                    };
                    assert(pending@.queue =~= Seq::<int>::empty());
                    WaitStep::Open { pending, pause: false }
                } else {
                    WaitStep::Listen(self)
                }
            },
            PlugEvent::Disconnected => WaitStep::Listen(self),
            PlugEvent::Ended => WaitStep::NotFound,
        }
    }
}

} // verus!
