//! The interrupt-safe shared button state.
//!
//! The button input handle is owned, at every instant, by exactly one of the
//! edge interrupt handler and the main loop.  At start-up it is moved into a
//! single-slot cell; afterwards both contexts reach it only through the
//! cell's guarded operations, each of which the caller runs inside a
//! critical section (the interrupt source masked), so the handler's mutation
//! and any main-loop access either fully precede or fully follow one
//! another.  Raw edges coalesce into at most one pending press: the handler
//! sets a flag, and the main loop consumes it at most once per press.

use vstd::prelude::*;

verus! {

/// A guarded operation ran before the handle was installed: a start-up
/// ordering bug with no safe recovery; the caller halts the device.
#[derive(Clone, Copy, Debug, PartialEq, Eq, Structural)]
pub struct Uninitialized;

/// The button input line handle.  The only part of it the logic reads is
/// the edge flag the hardware latches on a falling edge, which the handler
/// must acknowledge before returning.
#[derive(Clone, Copy, Debug, PartialEq, Eq, Structural)]
pub struct ButtonHandle {
    pub edge_latched: bool,
}

impl ButtonHandle {
    /// A freshly configured input line, with no edge latched yet.
    pub fn new() -> (h: ButtonHandle)
        ensures
            !h.edge_latched,
    {
        ButtonHandle { edge_latched: false }
    }

    /// The hardware latches a falling edge on the line.
    pub fn latch_edge(&mut self)
        ensures
            final(self).edge_latched,
    {
        self.edge_latched = true;
    }

    /// Acknowledges the latched edge so the interrupt can fire again.
    pub fn clear_interrupt(&mut self)
        ensures
            !final(self).edge_latched,
    {
        self.edge_latched = false;
    }
}

/// Single-slot container for the button handle, shared between the
/// interrupt handler and the main loop.  `slot` is `None` only before
/// start-up hands the handle over; it never empties again.  `pressed` is
/// the depth-one coalescing slot: however many raw edges fire before the
/// main loop looks, at most one press is pending.
#[derive(Clone, Copy, Debug)]
pub struct SharedButtonCell {
    pub slot: Option<ButtonHandle>,
    pub pressed: bool,
}

/// The cell after the interrupt handler services one raw edge: the latched
/// hardware edge is acknowledged and one press is pending.  An edge that
/// arrives before the handle is installed changes nothing.
pub open spec fn spec_service(c: SharedButtonCell) -> SharedButtonCell {
    if c.slot is Some {
        SharedButtonCell { slot: Some(ButtonHandle { edge_latched: false }), pressed: true }
    } else {
        c
    }
}

/// The cell after `n` raw edges fire, none of them consumed in between.
pub open spec fn spec_after_edges(c: SharedButtonCell, n: nat) -> SharedButtonCell
    decreases n,
{
    if n == 0 {
        c
    } else {
        spec_service(spec_after_edges(c, (n - 1) as nat))
    }
}

/// How many logical presses the cell holds for the main loop to consume.
pub open spec fn pending_presses(c: SharedButtonCell) -> nat {
    if c.pressed {
        1
    } else {
        0
    }
}

impl SharedButtonCell {
    /// The empty cell, before start-up installs the handle.
    pub fn new() -> (c: SharedButtonCell)
        ensures
            c.slot is None,
            !c.pressed,
    {
        SharedButtonCell { slot: None, pressed: false }
    }

    /// Moves the button handle into the cell.  Called exactly once at
    /// start-up, before the edge interrupt is enabled.
    pub fn install(&mut self, h: ButtonHandle)
        requires
            old(self).slot is None,
        ensures
            final(self).slot == Some(h),
            final(self).pressed == old(self).pressed,
    {
        self.slot = Some(h);
    }

    /// The interrupt handler's guarded access: acknowledges the latched
    /// hardware edge and records at most one pending press.  Before the
    /// handle is installed this is a start-up ordering bug; the cell is
    /// left untouched and the caller halts.
    pub fn service_edge(&mut self) -> (r: Result<(), Uninitialized>)
        ensures
            *final(self) == spec_service(*old(self)),
            r is Ok <==> old(self).slot is Some,
    {
        match &mut self.slot {
            Some(h) => {
                h.clear_interrupt();
                self.pressed = true;
                Ok(())
            },
            None => Err(Uninitialized),
        }
    }

    /// The main loop's guarded access: reads and clears the pending press
    /// in one step, so a press is consumed at most once.
    pub fn take_press(&mut self) -> (r: Result<bool, Uninitialized>)
        ensures
            old(self).slot is Some ==> (r matches Ok(p) && p == old(self).pressed),
            old(self).slot is Some ==> *final(self) == (SharedButtonCell {
                slot: old(self).slot,
                pressed: false,
            }),
            old(self).slot is None ==> r is Err && *final(self) == *old(self),
    {
        if self.slot.is_some() {
            let p = self.pressed;
            self.pressed = false;
            Ok(p)
        } else {
            Err(Uninitialized)
        }
    }
}

/// The two states of the edge interrupt controller.  Outside a handler run
/// it is `Armed`; the hardware masks the source and enters `Servicing` for
/// the duration of the handler, which runs to completion before the main
/// loop resumes.
#[derive(Clone, Copy, Debug, PartialEq, Eq, Structural)]
pub enum IsrState {
    Armed,
    Servicing,
}

/// Owner of button-edge detection: on a falling edge it acknowledges the
/// hardware event through the shared cell and re-arms.
#[derive(Clone, Copy, Debug)]
pub struct EdgeInterruptController {
    pub state: IsrState,
}

impl EdgeInterruptController {
    /// A controller listening for the next falling edge.
    pub fn new() -> (c: EdgeInterruptController)
        ensures
            c.state is Armed,
    {
        EdgeInterruptController { state: IsrState::Armed }
    }

    /// The complete handler run for one falling edge: enter `Servicing`,
    /// acknowledge the edge and record the press through the guarded cell,
    /// re-arm, return.  It never blocks and does no bus work; everything
    /// the press means for the device happens later in the main loop.
    pub fn on_edge(&mut self, cell: &mut SharedButtonCell) -> (r: Result<(), Uninitialized>)
        requires
            old(self).state is Armed,
        ensures
            final(self).state is Armed,
            *final(cell) == spec_service(*old(cell)),
            r is Ok <==> old(cell).slot is Some,
    {
        self.state = IsrState::Servicing;
        let r = cell.service_edge();
        self.state = IsrState::Armed;
        r
    }
}

/// Raw edges coalesce.  However many edges fire between two consecutive
/// main-loop checks, at most one logical press is pending, and every edge
/// after the first changes nothing: the cell ends exactly as it stands
/// after the first edge was serviced.
pub proof fn lemma_edges_coalesce(c: SharedButtonCell, n: nat)
    requires
        n >= 1,
    ensures
        pending_presses(spec_after_edges(c, n)) <= 1,
        c.slot is Some ==> spec_after_edges(c, n) == spec_service(c),
    decreases n,
{
    if n == 1 {
        assert(spec_after_edges(c, 0) == c);
        assert(spec_after_edges(c, 1) == spec_service(spec_after_edges(c, 0)));
    } else {
        lemma_edges_coalesce(c, (n - 1) as nat);
        assert(spec_after_edges(c, n) == spec_service(spec_after_edges(c, (n - 1) as nat)));
    }
}

} // verus!
