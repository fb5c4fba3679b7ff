//! Per-frame command recording.
//!
//! One command allocator and one command list are reused every frame
//! (single-buffering); this is safe only because the frame synchronizer
//! guarantees the GPU has finished consuming the previous recording before
//! the allocator is reset. A recorded frame is modeled as the sequence of
//! commands it carries; the platform's allocator-reset, list-reset and
//! close calls are performed outside and their outcomes handed in.

use vstd::prelude::*;

use crate::error::GfxError;
use crate::swapchain::FRAME_COUNT;

verus! {

/// The usage states a back buffer transitions between.
#[derive(Clone, Copy, Debug, PartialEq, Eq, Structural)]
pub enum ResourceState {
    /// The buffer is presentable.
    Present,
    /// The buffer may be written as a render target.
    RenderTarget,
}

/// An RGBA color, each channel in thousandths of full intensity.
#[derive(Clone, Copy, Debug, PartialEq, Eq, Structural)]
pub struct ClearColor {
    pub red: u32,
    pub green: u32,
    pub blue: u32,
    pub alpha: u32,
}

/// The fixed deep-blue clear color every frame is cleared to.
pub open spec fn spec_clear_color() -> ClearColor {
    ClearColor { red: 0, green: 200, blue: 400, alpha: 1000 }
}

/// Returns the fixed clear color.
pub fn clear_color() -> (c: ClearColor)
    ensures
        c == spec_clear_color(),
{
    ClearColor { red: 0, green: 200, blue: 400, alpha: 1000 }
}

/// One recorded command.
#[derive(Clone, Copy, Debug, PartialEq, Eq, Structural)]
pub enum Command {
    /// A resource-state transition barrier on back buffer `buffer`,
    /// declaring both the expected prior state and the target state. No
    /// other barrier type is ever recorded.
    Transition { buffer: u32, before: ResourceState, after: ResourceState },
    /// Bind back buffer `buffer`'s render-target view as the sole render
    /// target.
    BindRenderTarget { buffer: u32 },
    /// Clear the bound render target to `color`.
    Clear { color: ClearColor },
}

/// Builds a transition barrier; both the prior and the target state are
/// always stated explicitly.
pub fn transition_barrier(buffer: u32, state_before: ResourceState, state_after: ResourceState) -> (
    c: Command)
    ensures
        c == (Command::Transition { buffer, before: state_before, after: state_after }),
{
    Command::Transition { buffer, before: state_before, after: state_after }
}

/// Everything a frame records, in order: transition the back buffer from
/// presentable to render target, bind its view, clear it to the fixed
/// color, and transition it back.
pub open spec fn spec_frame_commands(frame_index: u32) -> Seq<Command> {
    seq![
        Command::Transition {
            buffer: frame_index,
            before: ResourceState::Present,
            after: ResourceState::RenderTarget,
        },
        Command::BindRenderTarget { buffer: frame_index },
        Command::Clear { color: spec_clear_color() },
        Command::Transition {
            buffer: frame_index,
            before: ResourceState::RenderTarget,
            after: ResourceState::Present,
        },
    ]
}

/// A command list as submission sees it: the commands it carries, and
/// whether it has been closed (a list must be closed before submission).
pub struct CommandList {
    pub commands: Vec<Command>,
    pub closed: bool,
}

/// Outcomes of the three platform calls a recording makes: resetting the
/// allocator, resetting the list against it, and closing the list.
#[derive(Clone, Copy, Debug, PartialEq, Eq, Structural)]
pub struct RecordEvents {
    /// The allocator reset succeeded (it fails while the GPU is still
    /// consuming the allocator's memory from the previous use).
    pub allocator_reset_ok: bool,
    /// The list reset against the freshly reset allocator succeeded.
    pub list_reset_ok: bool,
    /// Closing the list succeeded.
    pub close_ok: bool,
}

impl RecordEvents {
    /// All three platform calls succeeded.
    pub open spec fn all_ok(&self) -> bool {
        self.allocator_reset_ok && self.list_reset_ok && self.close_ok
    }
}

/// Records one frame's command list for back buffer `frame_index`.
///
/// On success the returned list is closed and carries exactly
/// [`spec_frame_commands`]. Any step failure aborts the recording with
/// `CommandListFailure` and no list is handed out, so a half-recorded list
/// can never be submitted.
pub fn populate_command_list(frame_index: u32, events: RecordEvents) -> (r: Result<
    CommandList,
    GfxError,
>)
    requires
        frame_index < FRAME_COUNT,
    ensures
        match r {
            Ok(list) => {
                &&& events.all_ok()
                &&& list.closed
                &&& list.commands@ == spec_frame_commands(frame_index)
            },
            Err(e) => {
                &&& !events.all_ok()
                &&& e == GfxError::CommandListFailure
            },
        },
{
    if !events.allocator_reset_ok {
        return Err(GfxError::CommandListFailure);
    }
    if !events.list_reset_ok {
        return Err(GfxError::CommandListFailure);
    }
    let mut commands: Vec<Command> = Vec::new();
    commands.push(
        transition_barrier(frame_index, ResourceState::Present, ResourceState::RenderTarget),
    );
    commands.push(Command::BindRenderTarget { buffer: frame_index });
    commands.push(Command::Clear { color: clear_color() });
    commands.push(
        transition_barrier(frame_index, ResourceState::RenderTarget, ResourceState::Present),
    );
    if !events.close_ok {
        return Err(GfxError::CommandListFailure);
    }
    proof {
        assert(commands@ =~= spec_frame_commands(frame_index));
    }
    Ok(CommandList { commands, closed: true })
}

/// Law: every recorded frame contains exactly two transition barriers —
/// presentable-to-render-target before the clear and
/// render-target-to-presentable immediately after it — the clear is the
/// only clear and uses the fixed color, the two barriers chain (the second
/// starts in the state the first established), and no two of them target
/// the same state.
pub proof fn lemma_barrier_discipline(frame_index: u32)
    ensures
        spec_frame_commands(frame_index).len() == 4,
        spec_frame_commands(frame_index)[0] == (Command::Transition {
            buffer: frame_index,
            before: ResourceState::Present,
            after: ResourceState::RenderTarget,
        }),
        spec_frame_commands(frame_index)[3] == (Command::Transition {
            buffer: frame_index,
            before: ResourceState::RenderTarget,
            after: ResourceState::Present,
        }),
        forall|k: int|
            0 <= k < spec_frame_commands(frame_index).len()
                ==> ((#[trigger] spec_frame_commands(frame_index)[k]) is Transition <==> (k == 0
                || k == 3)),
        forall|k: int|
            0 <= k < spec_frame_commands(frame_index).len()
                ==> ((#[trigger] spec_frame_commands(frame_index)[k]) is Clear <==> k == 2),
        spec_frame_commands(frame_index)[2] == (Command::Clear { color: spec_clear_color() }),
        spec_frame_commands(frame_index)[3]->Transition_before == spec_frame_commands(
            frame_index,
        )[0]->Transition_after,
        spec_frame_commands(frame_index)[3]->Transition_after != spec_frame_commands(
            frame_index,
        )[0]->Transition_after,
{
}

} // verus!
