//! The wizard's state machine: the steps, the events that drive them, the
//! transition table, and the engine that owns the current step and folds
//! events into it one at a time.
//!
//! The workflow is linear: `Welcome`, then device selection, then the
//! download. Events that are not valid for the current step are ignored.

use vstd::prelude::*;
use crate::device::{DeviceNameId, DeviceView};
use crate::download::DownloadProgress;
use crate::bus::EventBus;

verus! {

/// Mathematical image of a `WizardStep`.
pub enum StepView {
    Welcome,
    SelectDevice { devices: Seq<DeviceView> },
    Downloading { bytes_done: u64, bytes_total: Option<u64> },
}

/// Mathematical image of a `WizardEvent`.
pub enum EventView {
    UserAdvance,
    DeviceDiscovered(DeviceView),
    DeviceSelected,
    DownloadProgressed(u64, Option<u64>),
}

/// One screen's worth of workflow state. Exactly one variant is live;
/// a transition replaces it wholesale.
pub enum WizardStep {
    /// The greeting screen.
    Welcome,
    /// Device selection: the devices discovered so far, in arrival order.
    SelectDevice { devices: Vec<DeviceNameId> },
    /// The running download and its progress.
    Downloading { progress: DownloadProgress },
}

impl View for WizardStep {
    type V = StepView;

    open spec fn view(&self) -> StepView {
        match self {
            WizardStep::Welcome => StepView::Welcome,
            WizardStep::SelectDevice { devices } => StepView::SelectDevice {
                devices: devices.deep_view(),
            },
            WizardStep::Downloading { progress } => StepView::Downloading {
                bytes_done: progress.bytes_done,
                bytes_total: progress.bytes_total,
            },
        }
    }
}

/// A domain event: produced by the user, the device watcher or the
/// download session, consumed exactly once by the engine.
pub enum WizardEvent {
    /// The user asked to go to the next step.
    UserAdvance,
    /// The watcher resolved a newly attached device.
    DeviceDiscovered(DeviceNameId),
    /// The user picked an entry in the device list; it only arms the
    /// advance action and changes no step data.
    DeviceSelected,
    /// The download reported its cumulative progress and, when known, the
    /// declared total.
    DownloadProgressed(u64, Option<u64>),
}

impl View for WizardEvent {
    type V = EventView;

    open spec fn view(&self) -> EventView {
        match self {
            WizardEvent::UserAdvance => EventView::UserAdvance,
            WizardEvent::DeviceDiscovered(d) => EventView::DeviceDiscovered(d@),
            WizardEvent::DeviceSelected => EventView::DeviceSelected,
            WizardEvent::DownloadProgressed(done, total) => EventView::DownloadProgressed(
                *done,
                *total,
            ),
        }
    }
}

impl DeepView for WizardEvent {
    type V = EventView;

    open spec fn deep_view(&self) -> EventView {
        self.view()
    }
}

/// Whether the transition table has a row for this step and event; events
/// without a row are ignored.
pub open spec fn event_valid_for(s: StepView, e: EventView) -> bool {
    match (s, e) {
        (StepView::Welcome, EventView::UserAdvance) => true,
        (StepView::SelectDevice { devices }, EventView::DeviceDiscovered(_)) => true,
        (StepView::SelectDevice { devices }, EventView::UserAdvance) => devices.len() > 0,
        (StepView::Downloading { .. }, EventView::DownloadProgressed(..)) => true,
        _ => false,
    }
}

/// The transition table. Advancing from the greeting opens an empty device
/// list; a discovery appends (no uniqueness check); advancing with at least
/// one device known starts a download at zero progress; a progress report
/// updates the byte count and, when it carries one, the declared total.
/// Every other pairing leaves the step unchanged.
pub open spec fn step_transition(s: StepView, e: EventView) -> StepView {
    match (s, e) {
        (StepView::Welcome, EventView::UserAdvance) => StepView::SelectDevice {
            devices: Seq::empty(),
        },
        (StepView::SelectDevice { devices }, EventView::DeviceDiscovered(d)) => StepView::SelectDevice {
            devices: devices.push(d),
        },
        (StepView::SelectDevice { devices }, EventView::UserAdvance) => {
            if devices.len() > 0 {
                StepView::Downloading { bytes_done: 0, bytes_total: None }
            } else {
                s
            }
        },
        (StepView::Downloading { bytes_done, bytes_total }, EventView::DownloadProgressed(c, t)) => StepView::Downloading {
            bytes_done: c,
            bytes_total: if t is Some {
                t
            } else {
                bytes_total
            },
        },
        _ => s,
    }
}

/// The transition table folded over a whole sequence of events, oldest
/// first.
pub open spec fn run_transitions(s: StepView, events: Seq<EventView>) -> StepView
    decreases events.len(),
{
    if events.len() == 0 {
        s
    } else {
        run_transitions(step_transition(s, events[0]), events.skip(1))
    }
}

/// An event the table has no row for leaves the step exactly as it was.
pub proof fn lemma_invalid_event_ignored(s: StepView, e: EventView)
    requires
        !event_valid_for(s, e),
    ensures
        step_transition(s, e) == s,
{
}

/// Two discoveries of devices with different identifiers are both recorded
/// in the device list, in arrival order, one directly after the other.
pub proof fn lemma_discoveries_in_order(devices: Seq<DeviceView>, d1: DeviceView, d2: DeviceView)
    requires
        d1.id != d2.id,
    ensures
        ({
            let s = StepView::SelectDevice { devices };
            let after = step_transition(
                step_transition(s, EventView::DeviceDiscovered(d1)),
                EventView::DeviceDiscovered(d2),
            );
            &&& after == (StepView::SelectDevice { devices: devices.push(d1).push(d2) })
            &&& devices.push(d1).push(d2)[devices.len() as int] == d1
            &&& devices.push(d1).push(d2)[devices.len() as int + 1] == d2
        }),
{
}

impl WizardStep {
    /// The greeting step, where the workflow begins.
    pub fn step1() -> (s: Self)
        ensures
            s@ == StepView::Welcome,
    {
        WizardStep::Welcome
    }

    /// The device-selection step, with no device known yet.
    pub fn step2() -> (s: Self)
        ensures
            s@ == (StepView::SelectDevice { devices: Seq::<DeviceView>::empty() }),
    {
        let devices: Vec<DeviceNameId> = Vec::new();
        proof {
            assert(devices.deep_view() =~= Seq::<DeviceView>::empty());
        }
        WizardStep::SelectDevice { devices }
    }

    /// The download step, at zero progress with no declared total yet.
    pub fn step3() -> (s: Self)
        ensures
            s@ == (StepView::Downloading { bytes_done: 0, bytes_total: None }),
    {
        WizardStep::Downloading {
            progress: DownloadProgress { bytes_done: 0, bytes_total: None },
        }
    }

    /// Appends a discovered device to the selection list, exactly as the
    /// transition table does: on any other step this is a no-op.
    pub fn add_usb_device(&mut self, device: &DeviceNameId)
        ensures
            final(self)@ == step_transition(old(self)@, EventView::DeviceDiscovered(device@)),
    {
        match self {
            WizardStep::SelectDevice { devices } => {
                let ghost before = devices.deep_view();
                devices.push(device.clone());
                proof {
                    assert(devices.deep_view() =~= before.push(device@));
                }
            },
            _ => {},
        }
    }

    /// Updates the download progress, exactly as the transition table does:
    /// the byte count is replaced, the declared total only when the report
    /// carries one; on any other step this is a no-op.
    pub fn set_progress(&mut self, cur: u64, total: Option<u64>)
        ensures
            final(self)@ == step_transition(old(self)@, EventView::DownloadProgressed(cur, total)),
    {
        match self {
            WizardStep::Downloading { progress } => {
                progress.bytes_done = cur;
                match total {
                    Some(t) => {
                        progress.bytes_total = Some(t);
                    },
                    None => {},
                }
            },
            _ => {},
        }
    }
}

/// The orchestrator: owns the current step, consumes one event at a time,
/// and exposes the new step for rendering after every event.
pub struct WizardEngine {
    step: WizardStep,
}

impl View for WizardEngine {
    type V = StepView;

    closed spec fn view(&self) -> StepView {
        self.step@
    }
}

impl WizardEngine {
    /// A fresh engine, at the greeting step.
    pub fn new() -> (e: Self)
        ensures
            e@ == StepView::Welcome,
    {
        WizardEngine { step: WizardStep::step1() }
    }

    /// The current step, to be handed to the renderer as the snapshot of
    /// what the last event produced.
    pub fn current_step(&self) -> (r: &WizardStep)
        ensures
            r@ == self@,
    {
        &self.step
    }

    /// Consumes one event: the step becomes exactly what the transition
    /// table says, and events without a row are ignored.
    pub fn handle_event(&mut self, event: &WizardEvent)
        ensures
            final(self)@ == step_transition(old(self)@, event@),
    {
        match event {
            WizardEvent::UserAdvance => {
                match &self.step {
                    WizardStep::Welcome => {
                        self.step = WizardStep::step2();
                    },
                    WizardStep::SelectDevice { devices } => {
                        if devices.len() > 0 {
                            self.step = WizardStep::step3();
                        }
                    },
                    _ => {},
                }
            },
            WizardEvent::DeviceDiscovered(d) => {
                self.step.add_usb_device(d);
            },
            WizardEvent::DeviceSelected => {},
            WizardEvent::DownloadProgressed(cur, total) => {
                self.step.set_progress(*cur, *total);
            },
        }
    }

    /// Consumes every queued event, oldest first: the step ends as the
    /// transition table's fold of the whole queue, and the queue is empty.
    pub fn drain(&mut self, bus: &mut EventBus)
        ensures
            final(self)@ == run_transitions(old(self)@, old(bus)@),
            final(bus)@ == Seq::<EventView>::empty(),
    {
        proof {
            assert(bus@.skip(0) =~= bus@);
        }
        let ghost target = run_transitions(self@, bus@);
        while !bus.is_empty()
            invariant
                run_transitions(self@, bus@) == target,
            decreases bus@.len(),
        {
            let ghost before = bus@;
            match bus.next_event() {
                Some(event) => {
                    self.handle_event(&event);
                    proof {
                        assert(before.skip(1) =~= bus@);
                    }
                },
                None => {},
            }
        }
        proof {
            assert(bus@ =~= Seq::<EventView>::empty());
        }
    }
}

} // verus!
