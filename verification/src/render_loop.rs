//! The per-frame orchestration: record, submit, present, synchronize.
//!
//! An external message-pump collaborator drives [`RenderLoop::tick`] once
//! per idle tick. The platform calls a tick makes (allocator/list reset,
//! close, present) are performed outside; their outcomes arrive as a
//! [`TickEvents`] value and the verified policy decides everything else.
//! A per-frame failure is reported to the logging collaborator and the
//! frame is skipped: the loop stays alive, and — deliberately — neither the
//! fence value nor the back-buffer index is resynchronized on a skip.

use vstd::prelude::*;

use crate::error::GfxError;
use crate::fence::{drain_wait, wait_and_advance, Fence};
use crate::recorder::{populate_command_list, spec_frame_commands, CommandList, RecordEvents};
use crate::swapchain::{SwapChain, SwapChainManager, FRAME_COUNT};

verus! {

/// The loop's per-frame bookkeeping: which back buffer the next frame
/// targets, and the next fence value to signal. Mutated once per frame,
/// never concurrently.
#[derive(Clone, Copy, Debug, PartialEq, Eq, Structural)]
pub struct FrameState {
    /// Index of the back buffer the next recording targets.
    pub frame_index: u32,
    /// The fence value the next successful frame signals.
    pub fence_value: u64,
}

/// Outcomes of the platform calls one tick makes.
#[derive(Clone, Copy, Debug, PartialEq, Eq, Structural)]
pub struct TickEvents {
    /// Outcomes of the recording calls (allocator reset, list reset,
    /// close).
    pub record: RecordEvents,
    /// Outcome of presenting the frame.
    pub present_ok: bool,
}

/// A tick on which recording and presenting both succeeded.
pub open spec fn spec_tick_success(ev: TickEvents) -> bool {
    ev.record.all_ok() && ev.present_ok
}

/// What one tick did.
pub enum TickOutcome {
    /// Recording failed: the error was logged and nothing was submitted or
    /// presented this tick.
    SkippedRecording,
    /// The closed list was submitted but presenting failed: the error was
    /// logged and synchronization was skipped.
    SkippedPresent { submitted: CommandList },
    /// The list was submitted, the frame presented, and the CPU
    /// synchronized with the GPU.
    Completed { submitted: CommandList },
}

impl TickOutcome {
    /// The error this outcome reports to the logging collaborator, if any.
    pub open spec fn spec_logged_error(&self) -> Option<GfxError> {
        match self {
            TickOutcome::SkippedRecording => Some(GfxError::CommandListFailure),
            TickOutcome::SkippedPresent { .. } => Some(GfxError::PresentFailure),
            TickOutcome::Completed { .. } => None,
        }
    }

    /// The error to hand to the logging collaborator, if any.
    pub fn logged_error(&self) -> (r: Option<GfxError>)
        ensures
            r == self.spec_logged_error(),
    {
        match self {
            TickOutcome::SkippedRecording => Some(GfxError::CommandListFailure),
            TickOutcome::SkippedPresent { .. } => Some(GfxError::PresentFailure),
            TickOutcome::Completed { .. } => None,
        }
    }
}

/// The render loop's whole resource bundle, threaded explicitly through
/// every operation: frame bookkeeping, the fence, and the swap chain with
/// its render-target views.
pub struct RenderLoop {
    pub frame: FrameState,
    pub fence: Fence,
    pub chain: SwapChainManager,
    /// The GPU objects are still held. Cleared only by
    /// [`RenderLoop::release_objects`], after the fence confirms the GPU
    /// has drained all submitted work.
    pub objects_live: bool,
}

impl RenderLoop {
    /// The loop's steady-state invariant, held at every tick boundary:
    /// the frame index mirrors the chain and stays inside the ring; each
    /// frame signals exactly once, so the next fence value is one past the
    /// last submitted; and — since every successful frame ends with a full
    /// wait (no pipelining) — the GPU has completed everything submitted,
    /// which is what makes resetting the single command allocator safe.
    pub open spec fn wf(&self) -> bool {
        &&& self.chain.wf()
        &&& self.fence.wf()
        &&& self.frame.frame_index == self.chain.chain.current_index
        &&& 1 <= self.frame.fence_value
        &&& self.fence.submitted == self.frame.fence_value - 1
        &&& self.fence.completed == self.fence.submitted
    }

    /// Assembles the loop over a freshly created swap chain: the fence
    /// starts at zero, the first frame signals value one, and the frame
    /// index starts wherever the chain reports.
    pub fn new(chain: SwapChainManager) -> (rl: RenderLoop)
        requires
            chain.wf(),
        ensures
            rl.wf(),
            rl.objects_live,
            rl.frame.fence_value == 1,
            rl.fence.submitted == 0,
            rl.fence.completed == 0,
            rl.chain == chain,
            rl.frame.frame_index == chain.chain.current_index,
    {
        let frame_index = chain.current_back_buffer_index();
        RenderLoop {
            frame: FrameState { frame_index, fence_value: 1 },
            fence: Fence::new(),
            chain,
            objects_live: true,
        }
    }

    /// One idle-tick call: record the frame, and on success submit the
    /// closed list, present, then synchronize and refresh the frame state.
    ///
    /// A recording failure skips the tick entirely; a present failure
    /// skips only the synchronization. In both skip cases the fence value
    /// and the back-buffer index are left exactly as they were.
    pub fn tick(&mut self, events: TickEvents) -> (out: TickOutcome)
        requires
            old(self).wf(),
            old(self).objects_live,
            old(self).frame.fence_value < u64::MAX,
        ensures
            final (self).wf(),
            final (self).objects_live,
            final (self).chain.desc == old(self).chain.desc,
            final (self).chain.rtv == old(self).chain.rtv,
            *final (self) == spec_tick(*old(self), events),
            match out {
                TickOutcome::SkippedRecording => {
                    &&& !events.record.all_ok()
                    &&& *final (self) == *old(self)
                },
                TickOutcome::SkippedPresent { submitted } => {
                    &&& events.record.all_ok()
                    &&& !events.present_ok
                    &&& submitted.closed
                    &&& submitted.commands@ == spec_frame_commands(old(self).frame.frame_index)
                    &&& *final (self) == *old(self)
                },
                TickOutcome::Completed { submitted } => {
                    &&& spec_tick_success(events)
                    &&& submitted.closed
                    &&& submitted.commands@ == spec_frame_commands(old(self).frame.frame_index)
                    &&& final (self).frame.frame_index == (old(self).frame.frame_index + 1) % (
                    FRAME_COUNT as int)
                    &&& final (self).frame.fence_value == old(self).frame.fence_value + 1
                    &&& final (self).fence.submitted == old(self).frame.fence_value
                    &&& final (self).fence.completed == old(self).frame.fence_value
                },
            },
    {
        let submitted = match populate_command_list(self.frame.frame_index, events.record) {
            Ok(list) => list,
            Err(_) => {
                return TickOutcome::SkippedRecording;
            },
        };
        // The closed list is handed to the queue here (submission itself
        // touches neither the fence nor the frame bookkeeping).
        if !events.present_ok {
            return TickOutcome::SkippedPresent { submitted };
        }
        self.chain.chain.present();
        let (next_fence_value, frame_index) = wait_and_advance(
            &mut self.fence,
            &self.chain.chain,
            self.frame.fence_value,
        );
        self.frame.fence_value = next_fence_value;
        self.frame.frame_index = frame_index;
        TickOutcome::Completed { submitted }
    }

    /// Releases every GPU object. The fence must already confirm that the
    /// GPU has completed all submitted work: no device, queue, heap,
    /// resource or fence object may be released while work referencing it
    /// is still outstanding.
    pub fn release_objects(&mut self)
        requires
            old(self).objects_live,
            old(self).fence.completed >= old(self).fence.submitted,
        ensures
            !final (self).objects_live,
            final (self).frame == old(self).frame,
            final (self).fence == old(self).fence,
            final (self).chain == old(self).chain,
    {
        self.objects_live = false;
    }

    /// The debug-only leak report, reduced to what it can observe of this
    /// bundle: whether any GPU object is still outstanding.
    pub fn report_live_objects(&self) -> (leaked: bool)
        ensures
            leaked == self.objects_live,
    {
        self.objects_live
    }

    /// Teardown: one final signal-and-wait drains the queue, and only then
    /// are the GPU objects released. The drain wait observes the completed
    /// value equal to the last submitted value.
    pub fn shutdown(&mut self)
        requires
            old(self).wf(),
            old(self).objects_live,
            old(self).frame.fence_value < u64::MAX,
        ensures
            final (self).wf(),
            !final (self).objects_live,
            final (self).fence.submitted == old(self).frame.fence_value,
            final (self).fence.completed == final (self).fence.submitted,
            final (self).frame.fence_value == old(self).frame.fence_value + 1,
            final (self).frame.frame_index == old(self).frame.frame_index,
            final (self).chain == old(self).chain,
    {
        let next_fence_value = drain_wait(&mut self.fence, self.frame.fence_value);
        self.frame.fence_value = next_fence_value;
        self.release_objects();
    }
}

/// What one tick does to the loop's state: a successful tick presents
/// (advancing the ring), signals the frame's fence value, waits for it,
/// and steps the frame state; a skipped tick changes nothing.
pub open spec fn spec_tick(rl: RenderLoop, ev: TickEvents) -> RenderLoop {
    if spec_tick_success(ev) {
        RenderLoop {
            frame: FrameState {
                frame_index: (((rl.frame.frame_index + 1) % (FRAME_COUNT as int)) as u32),
                fence_value: ((rl.frame.fence_value + 1) as u64),
            },
            fence: Fence { submitted: rl.frame.fence_value, completed: rl.frame.fence_value },
            chain: SwapChainManager {
                desc: rl.chain.desc,
                chain: SwapChain {
                    buffer_count: rl.chain.chain.buffer_count,
                    current_index: (((rl.chain.chain.current_index + 1) % (
                    rl.chain.chain.buffer_count as int)) as u32),
                },
                rtv: rl.chain.rtv,
            },
            objects_live: rl.objects_live,
        }
    } else {
        rl
    }
}

/// The loop's state after a whole run of ticks.
pub open spec fn spec_run_loop(rl: RenderLoop, events: Seq<TickEvents>) -> RenderLoop
    decreases events.len(),
{
    if events.len() == 0 {
        rl
    } else {
        spec_tick(spec_run_loop(rl, events.drop_last()), events.last())
    }
}

/// How many ticks of a run succeeded.
pub open spec fn spec_success_count(events: Seq<TickEvents>) -> int
    decreases events.len(),
{
    if events.len() == 0 {
        0
    } else {
        spec_success_count(events.drop_last()) + if spec_tick_success(events.last()) {
            1int
        } else {
            0int
        }
    }
}

/// The back-buffer index after a run of ticks: a successful tick advances
/// it to the next buffer in the ring, a skipped tick leaves it alone.
pub open spec fn spec_index_after(start: u32, events: Seq<TickEvents>) -> int
    decreases events.len(),
{
    if events.len() == 0 {
        start as int
    } else {
        let prev = spec_index_after(start, events.drop_last());
        if spec_tick_success(events.last()) {
            (prev + 1) % (FRAME_COUNT as int)
        } else {
            prev
        }
    }
}

/// Law: across any run of ticks the frame index stays inside the ring,
/// and — absent resize — it cycles through the back buffers in present
/// order: it is the start index advanced once per successful tick, modulo
/// the buffer count (for a ring of two, alternating). Skipped ticks do not
/// advance it.
pub proof fn lemma_frame_index_cycles(start: u32, events: Seq<TickEvents>)
    requires
        start < FRAME_COUNT,
    ensures
        0 <= spec_index_after(start, events) < FRAME_COUNT,
        spec_index_after(start, events) == (start + spec_success_count(events)) % (
        FRAME_COUNT as int),
        spec_success_count(events) >= 0,
    decreases events.len(),
{
    if events.len() > 0 {
        lemma_frame_index_cycles(start, events.drop_last());
    }
}

/// A run never succeeds more often than it ticks.
pub proof fn lemma_success_count_bounds(events: Seq<TickEvents>)
    ensures
        0 <= spec_success_count(events) <= events.len(),
    decreases events.len(),
{
    if events.len() > 0 {
        lemma_success_count_bounds(events.drop_last());
    }
}

/// Law: across any run of ticks from a well-formed state (whose fence
/// values have room for the run), the loop stays well-formed, the GPU
/// objects stay held, the submitted fence value rises by exactly one per
/// successful tick — skipped ticks change nothing — the GPU ends the run
/// fully caught up (completed equals submitted), and the back-buffer index
/// ends where the cycling law says.
pub proof fn lemma_loop_run(rl: RenderLoop, events: Seq<TickEvents>)
    requires
        rl.wf(),
        rl.frame.fence_value + spec_success_count(events) <= u64::MAX,
    ensures
        spec_run_loop(rl, events).wf(),
        spec_run_loop(rl, events).objects_live == rl.objects_live,
        spec_run_loop(rl, events).fence.submitted == rl.fence.submitted + spec_success_count(
            events,
        ),
        spec_run_loop(rl, events).frame.fence_value == rl.frame.fence_value + spec_success_count(
            events,
        ),
        spec_run_loop(rl, events).fence.completed == spec_run_loop(rl, events).fence.submitted,
        spec_run_loop(rl, events).frame.frame_index == spec_index_after(
            rl.frame.frame_index,
            events,
        ),
        spec_run_loop(rl, events).chain.desc == rl.chain.desc,
        spec_run_loop(rl, events).chain.rtv == rl.chain.rtv,
    decreases events.len(),
{
    if events.len() > 0 {
        lemma_success_count_bounds(events.drop_last());
        lemma_loop_run(rl, events.drop_last());
        lemma_frame_index_cycles(rl.frame.frame_index, events.drop_last());
    }
}

} // verus!
