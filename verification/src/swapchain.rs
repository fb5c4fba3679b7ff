//! Swap-chain and render-target-view bookkeeping.
//!
//! The swap chain is a fixed ring of [`FRAME_COUNT`] back buffers bound to
//! one window surface and one queue. Each back buffer has one
//! render-target-view descriptor, stored contiguously in a descriptor heap:
//! descriptor `i` lives at `heap_base + i * increment`. The platform
//! allocates the heap and creates the chain; what it reports (heap base,
//! increment size, initial back-buffer index, per-buffer fetch outcomes) is
//! folded into the verified bookkeeping here.

use vstd::arithmetic::mul::{lemma_mul_inequality, lemma_mul_strict_inequality};
use vstd::prelude::*;

use crate::error::GfxError;

verus! {

/// Number of back buffers in the swap chain.
pub const FRAME_COUNT: u32 = 2;

/// Back-buffer pixel format: 8 bits per channel, RGBA.
#[derive(Clone, Copy, Debug, PartialEq, Eq, Structural)]
pub enum PixelFormat {
    Rgba8Unorm,
}

/// Presentation mode: flip the ring and discard the presented buffer.
#[derive(Clone, Copy, Debug, PartialEq, Eq, Structural)]
pub enum SwapEffect {
    FlipDiscard,
}

/// What the back buffers may be used for.
#[derive(Clone, Copy, Debug, PartialEq, Eq, Structural)]
pub enum BufferUsage {
    RenderTargetOutput,
}

/// The creation parameters requested for the swap chain.
#[derive(Clone, Copy, Debug, PartialEq, Eq, Structural)]
pub struct SwapChainDesc {
    pub buffer_count: u32,
    pub width: u32,
    pub height: u32,
    pub format: PixelFormat,
    pub swap_effect: SwapEffect,
    pub usage: BufferUsage,
    /// Samples per pixel; no multisampling is requested.
    pub sample_count: u32,
    /// Whether the OS gesture that switches to fullscreen on Alt+Enter is
    /// honored; disabling it is explicit policy.
    pub allow_alt_enter: bool,
}

/// The one description this renderer ever requests for a surface of the
/// given size.
pub open spec fn spec_swap_chain_desc(width: u32, height: u32) -> SwapChainDesc {
    SwapChainDesc {
        buffer_count: FRAME_COUNT,
        width,
        height,
        format: PixelFormat::Rgba8Unorm,
        swap_effect: SwapEffect::FlipDiscard,
        usage: BufferUsage::RenderTargetOutput,
        sample_count: 1,
        allow_alt_enter: false,
    }
}

/// Builds the fixed swap-chain request: exactly [`FRAME_COUNT`] buffers,
/// 8-bit RGBA, flip-discard, render-target usage, no multisampling, and
/// Alt+Enter fullscreen switching disabled.
pub fn swap_chain_desc(width: u32, height: u32) -> (d: SwapChainDesc)
    ensures
        d == spec_swap_chain_desc(width, height),
{
    SwapChainDesc {
        buffer_count: FRAME_COUNT,
        width,
        height,
        format: PixelFormat::Rgba8Unorm,
        swap_effect: SwapEffect::FlipDiscard,
        usage: BufferUsage::RenderTargetOutput,
        sample_count: 1,
        allow_alt_enter: false,
    }
}

/// The render-target-view table: one descriptor per back buffer, laid out
/// contiguously from the heap's base handle.
#[derive(Clone, Copy, Debug, PartialEq, Eq, Structural)]
pub struct RtvTable {
    /// CPU handle of the heap's first descriptor.
    pub heap_base: u64,
    /// Byte distance between consecutive descriptors, as the device
    /// reports it.
    pub increment: u64,
    /// Number of descriptors; equals the back-buffer count.
    pub count: u32,
}

impl RtvTable {
    /// Every descriptor address fits in the handle type.
    pub open spec fn wf(&self) -> bool {
        self.heap_base as int + self.count as int * self.increment as int <= u64::MAX as int
    }

    /// Address of descriptor `i`.
    pub open spec fn spec_descriptor(&self, i: int) -> int {
        self.heap_base as int + i * self.increment as int
    }

    /// Computes the CPU handle of the render-target view for back buffer
    /// `index`.
    pub fn descriptor(&self, index: u32) -> (ptr: u64)
        requires
            self.wf(),
            index < self.count,
        ensures
            ptr as int == self.spec_descriptor(index as int),
    {
        proof {
            lemma_mul_inequality(index as int, self.count as int, self.increment as int);
        }
        self.heap_base + (index as u64) * self.increment
    }
}

/// Law: the render-target-view table is laid out contiguously — descriptor
/// `i` lives exactly at `heap_base + i * increment` — and, when the device
/// reports a positive increment, distinct back buffers have distinct
/// descriptor handles.
pub proof fn lemma_rtv_descriptor_layout(t: RtvTable)
    requires
        t.wf(),
    ensures
        forall|i: int|
            0 <= i < t.count ==> #[trigger] t.spec_descriptor(i) == t.heap_base + i
                * t.increment,
        t.increment > 0 ==> forall|i: int, j: int|
            0 <= i < j < t.count ==> #[trigger] t.spec_descriptor(i) != #[trigger] t.spec_descriptor(
                j,
            ),
{
    if t.increment > 0 {
        assert forall|i: int, j: int| 0 <= i < j < t.count implies #[trigger] t.spec_descriptor(i)
            != #[trigger] t.spec_descriptor(j) by {
            lemma_mul_strict_inequality(i, j, t.increment as int);
        }
    }
}

/// The presentable ring of back buffers, as far as frame bookkeeping sees
/// it: its size and which buffer is currently the back buffer.
#[derive(Clone, Copy, Debug, PartialEq, Eq, Structural)]
pub struct SwapChain {
    /// Size of the ring; fixed at [`FRAME_COUNT`].
    pub buffer_count: u32,
    /// Index of the buffer rendering targets next; changes only after a
    /// present.
    pub current_index: u32,
}

impl SwapChain {
    pub open spec fn wf(&self) -> bool {
        &&& self.buffer_count == FRAME_COUNT
        &&& self.current_index < self.buffer_count
    }

    /// The index the chain reports for the current back buffer.
    pub fn current_back_buffer_index(&self) -> (i: u32)
        ensures
            i == self.current_index,
    {
        self.current_index
    }

    /// A successful present under flip-discard semantics: the ring advances
    /// to the next buffer in index order.
    pub fn present(&mut self)
        requires
            old(self).wf(),
        ensures
            final (self).wf(),
            final (self).buffer_count == old(self).buffer_count,
            final (self).current_index == (old(self).current_index + 1) % (
            old(self).buffer_count as int),
    {
        if self.current_index + 1 == self.buffer_count {
            self.current_index = 0;
        } else {
            self.current_index = self.current_index + 1;
        }
    }
}

/// The swap-chain manager: the requested description, the ring's state,
/// and the render-target-view table for its buffers.
pub struct SwapChainManager {
    pub desc: SwapChainDesc,
    pub chain: SwapChain,
    pub rtv: RtvTable,
}

impl SwapChainManager {
    pub open spec fn wf(&self) -> bool {
        &&& self.chain.wf()
        &&& self.rtv.wf()
        &&& self.desc.buffer_count == self.chain.buffer_count
        &&& self.rtv.count == self.chain.buffer_count
    }

    /// Assembles the manager from what the platform reported while the
    /// chain was created for a `width` by `height` surface.
    ///
    /// `chain_created` is the outcome of creating the chain itself;
    /// `buffer_obtained[i]` the outcome of fetching back-buffer resource
    /// `i`. Failure to create the chain or to obtain any back buffer is
    /// fatal `SwapChainCreationFailed`; there is no partial-success state.
    pub fn create(
        width: u32,
        height: u32,
        chain_created: bool,
        initial_index: u32,
        heap_base: u64,
        increment: u64,
        buffer_obtained: &Vec<bool>,
    ) -> (r: Result<SwapChainManager, GfxError>)
        requires
            initial_index < FRAME_COUNT,
            buffer_obtained@.len() == FRAME_COUNT,
            heap_base as int + FRAME_COUNT as int * increment as int <= u64::MAX as int,
        ensures
            match r {
                Ok(m) => {
                    &&& chain_created
                    &&& forall|i: int| 0 <= i < FRAME_COUNT ==> #[trigger] buffer_obtained@[i]
                    &&& m.wf()
                    &&& m.desc == spec_swap_chain_desc(width, height)
                    &&& m.chain == (SwapChain {
                        buffer_count: FRAME_COUNT,
                        current_index: initial_index,
                    })
                    &&& m.rtv == (RtvTable { heap_base, increment, count: FRAME_COUNT })
                },
                Err(e) => {
                    &&& e == GfxError::SwapChainCreationFailed
                    &&& (!chain_created || exists|i: int|
                        0 <= i < FRAME_COUNT && !(#[trigger] buffer_obtained@[i]))
                },
            },
    {
        if !chain_created {
            return Err(GfxError::SwapChainCreationFailed);
        }
        let mut i: usize = 0;
        while i < buffer_obtained.len()
            invariant
                buffer_obtained@.len() == FRAME_COUNT,
                i <= buffer_obtained@.len(),
                forall|j: int| 0 <= j < i ==> #[trigger] buffer_obtained@[j],
            decreases buffer_obtained.len() - i,
        {
            if !buffer_obtained[i] {
                return Err(GfxError::SwapChainCreationFailed);
            }
            i = i + 1;
        }
        Ok(
            SwapChainManager {
                desc: swap_chain_desc(width, height),
                chain: SwapChain { buffer_count: FRAME_COUNT, current_index: initial_index },
                rtv: RtvTable { heap_base, increment, count: FRAME_COUNT },
            },
        )
    }

    /// CPU handle of the render-target view for back buffer `index`.
    pub fn view_for(&self, index: u32) -> (ptr: u64)
        requires
            self.wf(),
            index < self.chain.buffer_count,
        ensures
            ptr as int == self.rtv.spec_descriptor(index as int),
    {
        self.rtv.descriptor(index)
    }

    /// The index the chain reports for the current back buffer.
    pub fn current_back_buffer_index(&self) -> (i: u32)
        ensures
            i == self.chain.current_index,
    {
        self.chain.current_back_buffer_index()
    }
}

} // verus!
