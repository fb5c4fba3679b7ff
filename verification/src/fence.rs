//! CPU/GPU synchronization through a monotonic fence.
//!
//! The fence is a monotonically increasing counter with two views: the last
//! value the CPU has signaled on the queue (`submitted`) and the last value
//! the GPU has completed (`completed`). The GPU executes strictly in
//! submission order, so `completed` never exceeds `submitted` and never
//! moves backwards. Waiting blocks the CPU on an OS event until the GPU
//! reaches a target value; the blocking itself is the platform's, the
//! bookkeeping it justifies is verified here.

use vstd::prelude::*;

use crate::swapchain::SwapChain;

verus! {

/// The two views of the fence counter.
#[derive(Clone, Copy, Debug, PartialEq, Eq, Structural)]
pub struct Fence {
    /// Last value signaled by the CPU on the command queue.
    pub submitted: u64,
    /// Last value the GPU has completed.
    pub completed: u64,
}

/// One observable step of the fence's lifetime.
#[derive(Clone, Copy, Debug, PartialEq, Eq, Structural)]
pub enum FenceEvent {
    /// The CPU enqueues a signal of this value on the queue.
    Signal(u64),
    /// The GPU reaches this value, in submission order.
    GpuComplete(u64),
    /// The CPU blocks until the GPU has reached this value.
    Wait(u64),
}

/// When an event can happen: signals carry fresh (strictly larger) values,
/// the GPU completes only work that was submitted and never regresses, and
/// a wait can only target a submitted value (else it would block forever).
pub open spec fn spec_event_enabled(f: Fence, e: FenceEvent) -> bool {
    match e {
        FenceEvent::Signal(v) => f.submitted < v,
        FenceEvent::GpuComplete(v) => f.completed <= v && v <= f.submitted,
        FenceEvent::Wait(v) => v <= f.submitted,
    }
}

/// What each event does to the fence.
pub open spec fn spec_event_step(f: Fence, e: FenceEvent) -> Fence {
    match e {
        FenceEvent::Signal(v) => Fence { submitted: v, completed: f.completed },
        FenceEvent::GpuComplete(v) => Fence { submitted: f.submitted, completed: v },
        FenceEvent::Wait(v) => Fence {
            submitted: f.submitted,
            completed: if f.completed >= v {
                f.completed
            } else {
                v
            },
        },
    }
}

/// The fence after a whole run of events.
pub open spec fn spec_run(f: Fence, events: Seq<FenceEvent>) -> Fence
    decreases events.len(),
{
    if events.len() == 0 {
        f
    } else {
        spec_run(spec_event_step(f, events[0]), events.drop_first())
    }
}

/// Every event of the run is enabled in the state it meets.
pub open spec fn spec_run_enabled(f: Fence, events: Seq<FenceEvent>) -> bool
    decreases events.len(),
{
    if events.len() == 0 {
        true
    } else {
        spec_event_enabled(f, events[0]) && spec_run_enabled(
            spec_event_step(f, events[0]),
            events.drop_first(),
        )
    }
}

impl Fence {
    /// The completed view never exceeds the submitted view.
    pub open spec fn wf(&self) -> bool {
        self.completed <= self.submitted
    }

    /// A fresh fence, created at value zero.
    pub fn new() -> (f: Fence)
        ensures
            f.submitted == 0,
            f.completed == 0,
            f.wf(),
    {
        Fence { submitted: 0, completed: 0 }
    }

    /// The CPU signals the fence on the queue with a fresh value. This
    /// enqueues — it does not block, and the GPU's view is untouched.
    pub fn signal(&mut self, value: u64)
        requires
            old(self).wf(),
            old(self).submitted < value,
        ensures
            *final (self) == spec_event_step(*old(self), FenceEvent::Signal(value)),
            final (self).wf(),
    {
        self.submitted = value;
    }

    /// The value the fence currently reports as completed.
    pub fn completed_value(&self) -> (v: u64)
        ensures
            v == self.completed,
    {
        self.completed
    }

    /// The GPU reaches `value`: it completes work in submission order, so
    /// it never regresses and never passes what was submitted.
    pub fn gpu_complete(&mut self, value: u64)
        requires
            old(self).wf(),
            old(self).completed <= value,
            value <= old(self).submitted,
        ensures
            *final (self) == spec_event_step(*old(self), FenceEvent::GpuComplete(value)),
            final (self).wf(),
    {
        self.completed = value;
    }

    /// Blocks (with no timeout) on the OS event registered for `target`
    /// until the GPU has completed at least that value.
    pub fn wait_until(&mut self, target: u64)
        requires
            old(self).wf(),
            target <= old(self).submitted,
        ensures
            *final (self) == spec_event_step(*old(self), FenceEvent::Wait(target)),
            final (self).completed >= target,
            final (self).wf(),
    {
        if self.completed < target {
            self.completed = target;
        }
    }
}

/// Law: across any enabled run of its lifetime, the fence's completed
/// value is non-decreasing and never exceeds the last submitted value.
pub proof fn lemma_fence_monotonic(f: Fence, events: Seq<FenceEvent>)
    requires
        f.wf(),
        spec_run_enabled(f, events),
    ensures
        spec_run(f, events).wf(),
        f.completed <= spec_run(f, events).completed,
    decreases events.len(),
{
    if events.len() > 0 {
        lemma_fence_monotonic(spec_event_step(f, events[0]), events.drop_first());
    }
}

/// One frame's synchronization step: signal the fence with the frame's
/// value, step the target to the next frame, block until the GPU has
/// completed the value just signaled, and re-query the chain's current
/// back-buffer index (it may have changed due to present semantics).
///
/// This serializes CPU and GPU fully — no frame is pipelined — which is
/// what makes reusing a single command allocator safe.
pub fn wait_and_advance(fence: &mut Fence, chain: &SwapChain, fence_value: u64) -> (r: (u64, u32))
    requires
        old(fence).wf(),
        old(fence).submitted < fence_value,
        fence_value < u64::MAX,
    ensures
        final (fence).submitted == fence_value,
        final (fence).completed == fence_value,
        final (fence).wf(),
        r.0 == fence_value + 1,
        r.1 == chain.current_index,
{
    let current_fence_value = fence_value;
    fence.signal(current_fence_value);
    let next_fence_value = fence_value + 1;
    if fence.completed_value() < current_fence_value {
        fence.wait_until(current_fence_value);
    }
    (next_fence_value, chain.current_back_buffer_index())
}

/// The final signal-and-wait of teardown: drains the queue so that the
/// fence confirms the GPU has finished all submitted work. Only after this
/// may any GPU object be released.
pub fn drain_wait(fence: &mut Fence, fence_value: u64) -> (next_fence_value: u64)
    requires
        old(fence).wf(),
        old(fence).submitted < fence_value,
        fence_value < u64::MAX,
    ensures
        final (fence).submitted == fence_value,
        final (fence).completed == fence_value,
        final (fence).wf(),
        next_fence_value == fence_value + 1,
{
    fence.signal(fence_value);
    let next_fence_value = fence_value + 1;
    if fence.completed_value() < fence_value {
        fence.wait_until(fence_value);
    }
    next_fence_value
}

} // verus!
