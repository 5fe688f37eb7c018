//! The frame controller: the redraw-cycle state machine that drives the
//! pipeline. Each cycle runs layout → surface → draw → publish → re-arm,
//! in that order and no other; a fatal failure aborts the cycle before
//! anything is published, and a close request shuts the pipeline down once.
//!
//! The controller decides; the unverified host performs. Every event from
//! the host (a redraw trigger, a layout result, an allocation outcome) is
//! fed to [`FrameController::step`], which returns the one action the host
//! must perform next.

use vstd::prelude::*;

use crate::geometry::{content_rect_of, layout_is_valid, Layout, Rect};

verus! {

/// Where the controller stands in the current redraw cycle.
#[derive(Clone, Copy, Debug, PartialEq, Eq, Structural)]
pub enum Phase {
    /// Between cycles, awaiting a redraw trigger or the layout it asked for.
    Idle,
    /// A valid layout is in hand; a surface of its size was requested.
    LayoutComputed,
    /// The surface is allocated; the frame's draw commands were requested.
    SurfaceReady,
    /// The frame is drawn; its publication was requested.
    Drawn,
    /// The frame was handed to the sharing session; awaiting the next
    /// trigger.
    Published,
    /// A fatal failure ended the pipeline; no further frame is produced.
    Aborted,
    /// The pipeline was shut down on a close request.
    Stopped,
}

/// What the host reports to the controller.
#[derive(Clone, Copy, Debug, PartialEq, Eq, Structural)]
pub enum Event {
    /// The event source asks for a frame.
    RedrawRequested,
    /// The layout engine produced the root's geometry.
    LayoutReady(Layout),
    /// The layout engine failed; the tree is malformed.
    LayoutFailed,
    /// The requested render surface was allocated.
    SurfaceAllocated,
    /// Surface allocation failed; resources are exhausted.
    SurfaceFailed,
    /// The frame's draw commands were issued.
    DrawCompleted,
    /// The frame was published to the sharing session.
    FramePublished,
    /// The event source asks the application to close.
    CloseRequested,
}

/// What the controller asks the host to perform next.
#[derive(Clone, Copy, Debug, PartialEq, Eq, Structural)]
pub enum Action {
    /// Recompute the layout of the retained tree.
    ComputeLayout,
    /// Allocate a render surface of exactly these pixel dimensions.
    AllocateSurface(i32, i32),
    /// Fill this content rectangle on the surface.
    DrawContent(Rect),
    /// Publish the drawn surface to the sharing session.
    PublishFrame,
    /// Re-arm the loop: ask the event source for another redraw.
    RequestRedraw,
    /// Abort: drop the cycle's work and surface nothing stale.
    AbortCycle,
    /// Stop the sharing session once, then release the GPU context.
    Shutdown,
    /// Nothing: the event does not concern the current phase.
    Ignore,
}

/// The redraw-loop state machine: the current phase, the layout driving
/// the current cycle, and the counts that tie publishes to cycles.
#[derive(Clone, Copy, Debug, PartialEq, Eq, Structural)]
pub struct FrameController {
    /// Where the controller stands in the cycle.
    pub phase: Phase,
    /// The layout of the cycle in progress, from `LayoutComputed` on.
    pub layout: Option<Layout>,
    /// How many publish actions the controller has issued.
    pub publishes_requested: u64,
    /// How many cycles have completed with a published frame.
    pub cycles_completed: u64,
}

impl FrameController {
    /// The controller's invariant: the cycle's layout is valid while a
    /// cycle is in flight, and exactly one publish is requested per cycle —
    /// the publish count equals the completed-cycle count, one ahead only
    /// while a requested publish is still in flight (`Drawn`), and never
    /// more than one ahead even when a shutdown interrupts a cycle.
    pub open spec fn wf(self) -> bool {
        &&& (self.phase == Phase::LayoutComputed || self.phase == Phase::SurfaceReady
            || self.phase == Phase::Drawn) ==> (self.layout matches Some(l) && l.is_valid())
        &&& (self.phase == Phase::Drawn ==> self.publishes_requested == self.cycles_completed + 1)
        &&& (self.phase == Phase::Idle || self.phase == Phase::LayoutComputed || self.phase
            == Phase::SurfaceReady || self.phase == Phase::Published || self.phase
            == Phase::Aborted) ==> self.publishes_requested == self.cycles_completed
        &&& (self.phase == Phase::Stopped ==> (self.publishes_requested == self.cycles_completed
            || self.publishes_requested == self.cycles_completed + 1))
    }

    /// The transition relation: from a controller state and an event, the
    /// successor state and the action the host must perform.
    ///
    /// One cycle in order: a redraw trigger asks for layout; a valid
    /// layout asks for a surface of its size; an allocated surface asks
    /// for the content rectangle to be drawn; a drawn frame asks for one
    /// publish; a published frame re-arms the loop. A layout failure, an
    /// invalid layout or an allocation failure aborts before any publish.
    /// A close request from any live phase shuts down once; `Aborted`
    /// absorbs everything but the close, and `Stopped` absorbs everything.
    pub open spec fn next(self, e: Event) -> (FrameController, Action) {
        if self.phase == Phase::Stopped {
            (self, Action::Ignore)
        } else if e == Event::CloseRequested {
            (FrameController { phase: Phase::Stopped, ..self }, Action::Shutdown)
        } else if self.phase == Phase::Aborted {
            (self, Action::Ignore)
        } else {
            match (self.phase, e) {
                (Phase::Idle, Event::RedrawRequested) => (self, Action::ComputeLayout),
                (Phase::Published, Event::RedrawRequested) => (
                    FrameController { phase: Phase::Idle, ..self },
                    Action::ComputeLayout,
                ),
                (Phase::Idle, Event::LayoutReady(l)) => if l.is_valid() {
                    (
                        FrameController { phase: Phase::LayoutComputed, layout: Some(l), ..self },
                        Action::AllocateSurface(l.width, l.height),
                    )
                } else {
                    (FrameController { phase: Phase::Aborted, ..self }, Action::AbortCycle)
                },
                (Phase::Idle, Event::LayoutFailed) => (
                    FrameController { phase: Phase::Aborted, ..self },
                    Action::AbortCycle,
                ),
                (Phase::LayoutComputed, Event::SurfaceAllocated) => (
                    FrameController { phase: Phase::SurfaceReady, ..self },
                    Action::DrawContent(content_rect_of(self.layout->0)),
                ),
                (Phase::LayoutComputed, Event::SurfaceFailed) => (
                    FrameController { phase: Phase::Aborted, ..self },
                    Action::AbortCycle,
                ),
                (Phase::SurfaceReady, Event::DrawCompleted) => (
                    FrameController {
                        phase: Phase::Drawn,
                        publishes_requested: (self.publishes_requested + 1) as u64,
                        ..self
                    },
                    Action::PublishFrame,
                ),
                (Phase::Drawn, Event::FramePublished) => (
                    FrameController {
                        phase: Phase::Published,
                        cycles_completed: (self.cycles_completed + 1) as u64,
                        ..self
                    },
                    Action::RequestRedraw,
                ),
                _ => (self, Action::Ignore),
            }
        }
    }

    /// Whether the controller satisfies its invariant; see [`Self::wf`].
    /// The unverified host can test this before feeding an event.
    pub fn is_wf(&self) -> (b: bool)
        ensures
            b == self.wf(),
    {
        let in_cycle = self.phase == Phase::LayoutComputed || self.phase == Phase::SurfaceReady
            || self.phase == Phase::Drawn;
        let layout_ok = if in_cycle {
            match self.layout {
                Some(l) => layout_is_valid(&l),
                None => false,
            }
        } else {
            true
        };
        let counts_ok = if self.phase == Phase::Drawn {
            self.cycles_completed < u64::MAX && self.publishes_requested == self.cycles_completed
                + 1
        } else if self.phase == Phase::Stopped {
            self.publishes_requested == self.cycles_completed || (self.cycles_completed < u64::MAX
                && self.publishes_requested == self.cycles_completed + 1)
        } else {
            self.publishes_requested == self.cycles_completed
        };
        layout_ok && counts_ok
    }

    /// Build the controller from the GPU acquisition outcome. With the
    /// context in hand it idles, awaiting the first trigger; without it
    /// the pipeline is aborted from the start and no cycle ever begins.
    pub fn new(gpu_acquired: bool) -> (c: FrameController)
        ensures
            c.phase == (if gpu_acquired {
                Phase::Idle
            } else {
                Phase::Aborted
            }),
            c.layout is None,
            c.publishes_requested == 0,
            c.cycles_completed == 0,
            c.wf(),
    {
        FrameController {
            phase: if gpu_acquired {
                Phase::Idle
            } else {
                Phase::Aborted
            },
            layout: None,
            publishes_requested: 0,
            cycles_completed: 0,
        }
    }

    /// Feed one event to the controller; it moves along [`Self::next`] and
    /// returns the action the host must perform. Preserves the invariant.
    pub fn step(&mut self, e: Event) -> (a: Action)
        requires
            old(self).wf(),
            old(self).cycles_completed < u64::MAX - 1,
        ensures
            (*final(self), a) == old(self).next(e),
            final(self).wf(),
    {
        if self.phase == Phase::Stopped {
            return Action::Ignore;
        }
        if e == Event::CloseRequested {
            self.phase = Phase::Stopped;
            return Action::Shutdown;
        }
        if self.phase == Phase::Aborted {
            return Action::Ignore;
        }
        match (self.phase, e) {
            (Phase::Idle, Event::RedrawRequested) => Action::ComputeLayout,
            (Phase::Published, Event::RedrawRequested) => {
                self.phase = Phase::Idle;
                Action::ComputeLayout
            },
            (Phase::Idle, Event::LayoutReady(l)) => if layout_is_valid(&l) {
                self.phase = Phase::LayoutComputed;
                self.layout = Some(l);
                Action::AllocateSurface(l.width, l.height)
            } else {
                self.phase = Phase::Aborted;
                Action::AbortCycle
            },
            (Phase::Idle, Event::LayoutFailed) => {
                self.phase = Phase::Aborted;
                Action::AbortCycle
            },
            (Phase::LayoutComputed, Event::SurfaceAllocated) => {
                self.phase = Phase::SurfaceReady;
                let l = self.layout.unwrap();
                Action::DrawContent(crate::geometry::content_rect(&l))
            },
            (Phase::LayoutComputed, Event::SurfaceFailed) => {
                self.phase = Phase::Aborted;
                Action::AbortCycle
            },
            (Phase::SurfaceReady, Event::DrawCompleted) => {
                self.phase = Phase::Drawn;
                self.publishes_requested = self.publishes_requested + 1;
                Action::PublishFrame
            },
            (Phase::Drawn, Event::FramePublished) => {
                self.phase = Phase::Published;
                self.cycles_completed = self.cycles_completed + 1;
                Action::RequestRedraw
            },
            _ => Action::Ignore,
        }
    }
}

/// The controller after a whole sequence of events, one [`FrameController::next`]
/// step per event.
pub open spec fn run(c: FrameController, es: Seq<Event>) -> FrameController
    decreases es.len(),
{
    if es.len() == 0 {
        c
    } else {
        run(c.next(es[0]).0, es.skip(1))
    }
}

/// The actions a sequence of events makes the controller request, in order.
pub open spec fn run_actions(c: FrameController, es: Seq<Event>) -> Seq<Action>
    decreases es.len(),
{
    if es.len() == 0 {
        Seq::empty()
    } else {
        seq![c.next(es[0]).1] + run_actions(c.next(es[0]).0, es.skip(1))
    }
}

/// How many shutdowns a sequence of events makes the controller request.
pub open spec fn shutdown_count(c: FrameController, es: Seq<Event>) -> nat
    decreases es.len(),
{
    if es.len() == 0 {
        0
    } else {
        (if c.next(es[0]).1 is Shutdown {
            1nat
        } else {
            0nat
        }) + shutdown_count(c.next(es[0]).0, es.skip(1))
    }
}

/// An action that advances frame production, as opposed to ignoring an
/// event, aborting, or shutting down.
pub open spec fn produces_frame_work(a: Action) -> bool {
    ||| a is ComputeLayout
    ||| a is AllocateSurface
    ||| a is DrawContent
    ||| a is PublishFrame
    ||| a is RequestRedraw
}

/// Every single transition preserves the controller's invariant.
pub proof fn lemma_next_preserves_wf(c: FrameController, e: Event)
    requires
        c.wf(),
        c.cycles_completed < u64::MAX - 1,
    ensures
        c.next(e).0.wf(),
{
}

/// Exactly one publish per redraw cycle, no duplication: the only
/// transition that requests a publish is the completion of the cycle's
/// draw, and it moves the controller to `Drawn`, where a second request is
/// impossible before the frame's publication completes the cycle.
pub proof fn lemma_publish_requested_only_after_draw(c: FrameController, e: Event)
    requires
        c.next(e).1 is PublishFrame,
        c.publishes_requested < u64::MAX,
    ensures
        c.phase == Phase::SurfaceReady,
        e == Event::DrawCompleted,
        c.next(e).0.phase == Phase::Drawn,
        c.next(e).0.publishes_requested == c.publishes_requested + 1,
{
}

/// Exactly one publish per redraw cycle, no coalescing: whenever the
/// controller is between cycles, every completed cycle has requested
/// exactly one publish.
pub proof fn lemma_one_publish_per_cycle(c: FrameController)
    requires
        c.wf(),
        c.phase == Phase::Idle || c.phase == Phase::Published,
    ensures
        c.publishes_requested == c.cycles_completed,
{
}

/// A controller whose pipeline has ended — aborted fatally, as after a GPU
/// acquisition failure at startup, or stopped — never reaches
/// `SurfaceReady` under any further events, and requests no further frame
/// work: no layout, no surface allocation, no draw, no publish.
pub proof fn lemma_ended_pipeline_stays_ended(c: FrameController, es: Seq<Event>)
    requires
        c.phase == Phase::Aborted || c.phase == Phase::Stopped,
    ensures
        run(c, es).phase == Phase::Aborted || run(c, es).phase == Phase::Stopped,
        run(c, es).phase != Phase::SurfaceReady,
        run_actions(c, es).len() == es.len(),
        forall|i: int|
            0 <= i < es.len() ==> !produces_frame_work(#[trigger] run_actions(c, es)[i]),
    decreases es.len(),
{
    if es.len() > 0 {
        let c1 = c.next(es[0]).0;
        assert(c1.phase == Phase::Aborted || c1.phase == Phase::Stopped);
        lemma_ended_pipeline_stays_ended(c1, es.skip(1));
        assert forall|i: int| 0 <= i < es.len() implies !produces_frame_work(
            #[trigger] run_actions(c, es)[i],
        ) by {
            if i > 0 {
                assert(run_actions(c, es)[i] == run_actions(c1, es.skip(1))[i - 1]);
            }
        }
    }
}

/// A live controller never transitions into `Stopped` except on a close
/// request.
pub proof fn lemma_only_close_stops(c: FrameController, e: Event)
    requires
        c.phase != Phase::Stopped,
        e != Event::CloseRequested,
    ensures
        c.next(e).0.phase != Phase::Stopped,
        !(c.next(e).1 is Shutdown),
{
}

/// Shutdown is requested at most once across the whole run, whatever the
/// events: the first close request stops the controller, and a stopped
/// controller never requests another shutdown. Combined with the studio's
/// one-shot stop guard, the sharing session's stop is never invoked twice.
pub proof fn lemma_shutdown_at_most_once(c: FrameController, es: Seq<Event>)
    ensures
        shutdown_count(c, es) <= 1,
        c.phase == Phase::Stopped ==> shutdown_count(c, es) == 0,
    decreases es.len(),
{
    if es.len() > 0 {
        let c1 = c.next(es[0]).0;
        lemma_shutdown_at_most_once(c1, es.skip(1));
        if c.phase == Phase::Stopped {
            assert(c1.phase == Phase::Stopped);
        } else if c.next(es[0]).1 is Shutdown {
            assert(c1.phase == Phase::Stopped);
        }
    }
}

} // verus!
