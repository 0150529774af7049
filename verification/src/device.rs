//! The main loop's state and decisions.
//!
//! The loop runs forever: drive the indicator high, sample, render, consume
//! any pending button press, drive the indicator low, delay, repeat.  The
//! bus transactions and the delay block outside the crate and hand back
//! plain outcomes; everything the loop decides about those outcomes — the
//! fault policy, what the display shows next, when the setpoint moves — is
//! here, with one verified function per decision point.  Faults from the
//! collaborators are transient and recoverable: nothing in this module has
//! a halted state, so no outcome can stop the loop.

use vstd::prelude::*;

use crate::button::SharedButtonCell;
use crate::button::Uninitialized;
use crate::button::spec_after_edges;
use crate::button::lemma_edges_coalesce;
use crate::config::SensorConfig;
use crate::frame::DisplayFrame;
use crate::frame::compose_frame;
use crate::frame::frame_shows;
use crate::reading::DeviceView;
use crate::reading::DisplayFault;
use crate::reading::SensorFault;
use crate::reading::SensorReading;

verus! {

/// Setpoint the device boots with, in tenths of a degree.
pub const DEFAULT_SETPOINT_DECI: i32 = 140;

/// How far one button press moves the setpoint down, in tenths of a degree.
pub const SETPOINT_STEP_DECI: i32 = 5;

/// The only state that persists across loop iterations, and the only thing
/// a button press may alter.
#[derive(Clone, Copy, Debug, PartialEq, Eq, Structural)]
pub struct DeviceMode {
    /// The indicator line: high while an iteration is in progress.
    pub indicator_on: bool,
    /// User-adjustable temperature threshold, in tenths of a degree.
    pub setpoint_deci: i32,
}

/// Counters the loop advances as it runs; the fault counts stand for the
/// log lines the device emits.
#[derive(Clone, Copy, Debug, PartialEq, Eq, Structural)]
pub struct LoopStats {
    pub iterations: u64,
    pub indicator_pulses: u64,
    pub sample_faults: u64,
    pub render_faults: u64,
    pub presses_applied: u64,
}

/// The whole per-device state the main loop carries between iterations.
#[derive(Clone, Copy, Debug, PartialEq, Eq, Structural)]
pub struct Device {
    pub config: SensorConfig,
    pub mode: DeviceMode,
    pub stats: LoopStats,
    /// What the display currently shows; a failed sample leaves it as it
    /// was, so the previous reading stays visible.
    pub view: DeviceView,
}

/// The state after the indicator is driven high at the top of an
/// iteration: one more pulse, everything else untouched.
pub open spec fn spec_begin(d: Device) -> Device {
    Device {
        mode: DeviceMode { indicator_on: true, ..d.mode },
        stats: LoopStats {
            indicator_pulses: (d.stats.indicator_pulses + 1) as u64,
            ..d.stats
        },
        ..d
    }
}

/// The state after the sample outcome is applied.  A reading replaces the
/// view; a fault is counted and leaves the view — and so the display —
/// exactly as it was.
pub open spec fn spec_observe_sample(d: Device, outcome: Result<
    SensorReading,
    SensorFault,
>) -> Device {
    match outcome {
        Ok(r) => Device { view: DeviceView::Reading(r), ..d },
        Err(_) => Device {
            stats: LoopStats { sample_faults: (d.stats.sample_faults + 1) as u64, ..d.stats },
            ..d
        },
    }
}

/// The state after the render outcome is applied: a failed flush is
/// counted and changes nothing else.
pub open spec fn spec_observe_render(d: Device, outcome: Result<(), DisplayFault>) -> Device {
    match outcome {
        Ok(_) => d,
        Err(_) => Device {
            stats: LoopStats { render_faults: (d.stats.render_faults + 1) as u64, ..d.stats },
            ..d
        },
    }
}

/// The state after the indicator is driven low at the end of an iteration:
/// one more completed iteration.
pub open spec fn spec_end(d: Device) -> Device {
    Device {
        mode: DeviceMode { indicator_on: false, ..d.mode },
        stats: LoopStats { iterations: (d.stats.iterations + 1) as u64, ..d.stats },
        ..d
    }
}

/// One full loop pass, given the outcomes the two collaborators returned,
/// with no button press consumed in between.
pub open spec fn spec_iteration(
    d: Device,
    sample: Result<SensorReading, SensorFault>,
    render: Result<(), DisplayFault>,
) -> Device {
    spec_end(spec_observe_render(spec_observe_sample(spec_begin(d), sample), render))
}

/// The outcomes the two bus collaborators hand back during one loop pass.
#[derive(Clone, Copy, Debug)]
pub struct CycleOutcomes {
    pub sample: Result<SensorReading, SensorFault>,
    pub render: Result<(), DisplayFault>,
}

/// The state after running one loop pass for each outcome pair in turn.
pub open spec fn spec_run(d: Device, evs: Seq<CycleOutcomes>) -> Device
    decreases evs.len(),
{
    if evs.len() == 0 {
        d
    } else {
        spec_run(spec_iteration(d, evs[0].sample, evs[0].render), evs.subrange(1, evs.len() as int))
    }
}

/// The state and cell after the main loop's button check: the pending
/// press flag is read and cleared in one guarded step, and exactly when a
/// press was pending the setpoint moves down one step.
pub open spec fn spec_check_button(d: Device, c: SharedButtonCell) -> (Device, SharedButtonCell) {
    if c.slot is Some {
        let cleared = SharedButtonCell { slot: c.slot, pressed: false };
        if c.pressed {
            (
                Device {
                    mode: DeviceMode {
                        setpoint_deci: (d.mode.setpoint_deci - SETPOINT_STEP_DECI) as i32,
                        ..d.mode
                    },
                    stats: LoopStats {
                        presses_applied: (d.stats.presses_applied + 1) as u64,
                        ..d.stats
                    },
                    ..d
                },
                cleared,
            )
        } else {
            (d, cleared)
        }
    } else {
        (d, c)
    }
}

impl Device {
    /// The device as it leaves start-up: indicator low, default setpoint,
    /// all counters zero, placeholder on the display.
    pub fn new(config: SensorConfig) -> (d: Device)
        ensures
            d.config == config,
            !d.mode.indicator_on,
            d.mode.setpoint_deci == DEFAULT_SETPOINT_DECI,
            d.stats == (LoopStats {
                iterations: 0,
                indicator_pulses: 0,
                sample_faults: 0,
                render_faults: 0,
                presses_applied: 0,
            }),
            d.view is Placeholder,
    {
        Device {
            config,
            mode: DeviceMode { indicator_on: false, setpoint_deci: DEFAULT_SETPOINT_DECI },
            stats: LoopStats {
                iterations: 0,
                indicator_pulses: 0,
                sample_faults: 0,
                render_faults: 0,
                presses_applied: 0,
            },
            view: DeviceView::Placeholder,
        }
    }

    /// Top of an iteration: the indicator goes high to mark "sampling in
    /// progress", counting one pulse.  The caller drives the line.
    pub fn begin_iteration(&mut self)
        requires
            old(self).stats.indicator_pulses < u64::MAX,
        ensures
            *final(self) == spec_begin(*old(self)),
    {
        self.mode.indicator_on = true;
        self.stats.indicator_pulses = self.stats.indicator_pulses + 1;
    }

    /// Applies one sample outcome.  A fault is non-fatal and transient: it
    /// is counted (the device logs it) and the view keeps the previous
    /// reading, or the placeholder if none ever succeeded.
    pub fn observe_sample(&mut self, outcome: Result<SensorReading, SensorFault>)
        requires
            old(self).stats.sample_faults < u64::MAX,
        ensures
            *final(self) == spec_observe_sample(*old(self), outcome),
    {
        match outcome {
            Ok(r) => {
                self.view = DeviceView::Reading(r);
            },
            Err(_) => {
                self.stats.sample_faults = self.stats.sample_faults + 1;
            },
        }
    }

    /// The frame to draw this iteration: the current view, composed into
    /// draw commands for the display driver.
    pub fn frame(&self) -> (f: DisplayFrame)
        ensures
            frame_shows(f, self.view),
    {
        compose_frame(&self.view)
    }

    /// Applies one render outcome.  A failed flush is counted (the device
    /// logs it) and nothing else changes: the display is a convenience,
    /// and its failure never touches sensing or the mode.
    pub fn observe_render(&mut self, outcome: Result<(), DisplayFault>)
        requires
            old(self).stats.render_faults < u64::MAX,
        ensures
            *final(self) == spec_observe_render(*old(self), outcome),
    {
        match outcome {
            Ok(_) => {},
            Err(_) => {
                self.stats.render_faults = self.stats.render_faults + 1;
            },
        }
    }

    /// The loop's button check: consumes the pending press flag through
    /// the guarded cell and, exactly when a press was pending, applies the
    /// one supported mutation — the setpoint moves down one step.  Returns
    /// whether a press was consumed; before the handle is installed it
    /// returns the start-up ordering error and changes nothing.
    pub fn check_button(&mut self, cell: &mut SharedButtonCell) -> (r: Result<
        bool,
        Uninitialized,
    >)
        requires
            old(cell).slot is Some && old(cell).pressed ==> i32::MIN + SETPOINT_STEP_DECI <= old(
                self,
            ).mode.setpoint_deci && old(self).stats.presses_applied < u64::MAX,
        ensures
            *final(self) == spec_check_button(*old(self), *old(cell)).0,
            *final(cell) == spec_check_button(*old(self), *old(cell)).1,
            old(cell).slot is Some ==> (r matches Ok(p) && p == old(cell).pressed),
            old(cell).slot is None ==> r is Err,
    {
        match cell.take_press() {
            Ok(true) => {
                self.mode.setpoint_deci = self.mode.setpoint_deci - SETPOINT_STEP_DECI;
                self.stats.presses_applied = self.stats.presses_applied + 1;
                Ok(true)
            },
            Ok(false) => Ok(false),
            Err(e) => Err(e),
        }
    }

    /// Bottom of an iteration: the indicator goes low and the iteration is
    /// counted; the caller then blocks for the fixed period and repeats.
    pub fn end_iteration(&mut self)
        requires
            old(self).stats.iterations < u64::MAX,
        ensures
            *final(self) == spec_end(*old(self)),
    {
        self.mode.indicator_on = false;
        self.stats.iterations = self.stats.iterations + 1;
    }
}

/// No outcome halts the loop.  Whatever the collaborators return — every
/// sample a fault, every flush a fault — each pass completes: after the
/// passes the iteration count and the indicator pulse count have both
/// advanced by exactly the number of passes.
pub proof fn lemma_faults_never_halt(d: Device, evs: Seq<CycleOutcomes>)
    requires
        d.stats.iterations + evs.len() <= u64::MAX,
        d.stats.indicator_pulses + evs.len() <= u64::MAX,
    ensures
        spec_run(d, evs).stats.iterations == d.stats.iterations + evs.len(),
        spec_run(d, evs).stats.indicator_pulses == d.stats.indicator_pulses + evs.len(),
    decreases evs.len(),
{
    if evs.len() > 0 {
        lemma_faults_never_halt(
            spec_iteration(d, evs[0].sample, evs[0].render),
            evs.subrange(1, evs.len() as int),
        );
    }
}

/// Every sensor fault is logged and none is fatal.  Over passes whose
/// samples all fault, the fault count — the device's log lines — advances
/// by exactly the number of passes, and the view, and so the display's
/// content, stays exactly what it was before the first fault.
pub proof fn lemma_every_fault_is_logged(d: Device, evs: Seq<CycleOutcomes>)
    requires
        d.stats.sample_faults + evs.len() <= u64::MAX,
        forall|i: int| 0 <= i < evs.len() ==> (#[trigger] evs[i].sample) is Err,
    ensures
        spec_run(d, evs).stats.sample_faults == d.stats.sample_faults + evs.len(),
        spec_run(d, evs).view == d.view,
    decreases evs.len(),
{
    if evs.len() > 0 {
        let rest = evs.subrange(1, evs.len() as int);
        assert(forall|i: int| 0 <= i < rest.len() ==> (#[trigger] rest[i].sample) is Err) by {
            assert(forall|i: int|
                0 <= i < rest.len() ==> #[trigger] rest[i] == evs[i + 1]);
        }
        lemma_every_fault_is_logged(spec_iteration(d, evs[0].sample, evs[0].render), rest);
    }
}

/// A failed flush is isolated.  Two passes from the same state with the
/// same sample outcome but different render outcomes agree on everything
/// except the render-fault count: the mode, the view, the config, and the
/// counters the next sample depends on are untouched, so a render failure
/// never prevents the next sample.
pub proof fn lemma_render_fault_is_isolated(
    d: Device,
    sample: Result<SensorReading, SensorFault>,
    r1: Result<(), DisplayFault>,
    r2: Result<(), DisplayFault>,
)
    ensures
        ({
            let a = spec_iteration(d, sample, r1);
            let b = spec_iteration(d, sample, r2);
            &&& a.mode == b.mode
            &&& a.view == b.view
            &&& a.config == b.config
            &&& a.stats.iterations == b.stats.iterations
            &&& a.stats.indicator_pulses == b.stats.indicator_pulses
            &&& a.stats.sample_faults == b.stats.sample_faults
            &&& a.stats.presses_applied == b.stats.presses_applied
        }),
{
}

/// Without a pending press the button check mutates nothing: the setpoint
/// only ever moves on a consumed press.
pub proof fn lemma_no_mutation_without_press(d: Device, c: SharedButtonCell)
    requires
        !c.pressed,
    ensures
        spec_check_button(d, c).0 == d,
        !spec_check_button(d, c).1.pressed,
{
}

/// Exactly one setpoint mutation per press, however many raw edges
/// coalesced into it.  After one or more edges fire, the next button check
/// applies one step down and one press; the check after that, with no new
/// edges, changes nothing.
pub proof fn lemma_one_mutation_per_press(d: Device, c: SharedButtonCell, n: nat)
    requires
        c.slot is Some,
        !c.pressed,
        n >= 1,
    ensures
        ({
            let edged = spec_after_edges(c, n);
            let first = spec_check_button(d, edged);
            let second = spec_check_button(first.0, first.1);
            &&& first.0.mode.setpoint_deci == (d.mode.setpoint_deci - SETPOINT_STEP_DECI) as i32
            &&& first.0.stats.presses_applied == (d.stats.presses_applied + 1) as u64
            &&& !first.1.pressed
            &&& second.0 == first.0
            &&& second.1 == first.1
        }),
{
    lemma_edges_coalesce(c, n);
}

} // verus!
