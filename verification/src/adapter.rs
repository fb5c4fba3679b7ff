//! Adapter selection and device creation policy.
//!
//! The surrounding application enumerates the platform's adapters in index
//! order and probes each one against the minimum feature level (without
//! creating a real device). What it observes about each adapter is handed
//! to [`select_adapter`] as plain values; the selection rule itself is
//! verified here. The actual device-creation call is performed outside, and
//! its outcome is folded back in through [`device_from_outcome`].

use vstd::prelude::*;

use crate::error::GfxError;

verus! {

/// The minimum feature level a selected adapter must support, as the
/// platform encodes it (major level 11, minor 0).
pub const MINIMUM_FEATURE_LEVEL: u32 = 0xb000;

/// What adapter enumeration observes about one adapter.
#[derive(Clone, Copy, Debug, PartialEq, Eq, Structural)]
pub struct AdapterProbe {
    /// The adapter carries the platform's "software" capability flag.
    pub is_software: bool,
    /// The probe-only device-creation check at [`MINIMUM_FEATURE_LEVEL`]
    /// succeeded.
    pub supports_minimum_level: bool,
}

/// Which adapter the device is created from.
#[derive(Clone, Copy, Debug, PartialEq, Eq, Structural)]
pub enum AdapterChoice {
    /// The platform's reference/software adapter, bound directly without
    /// enumerating hardware.
    Software,
    /// The hardware adapter at this position in enumeration order.
    Hardware(usize),
}

/// A selectable hardware adapter: not software, and validated against the
/// minimum feature level.
pub open spec fn spec_eligible(a: AdapterProbe) -> bool {
    !a.is_software && a.supports_minimum_level
}

/// Selects the adapter to create the device from.
///
/// With the software flag set, hardware enumeration is bypassed entirely
/// and the software adapter is chosen, whatever `adapters` holds.
/// Otherwise the first eligible adapter in enumeration order is chosen;
/// exhausting the list without a hit is a fatal `AdapterNotFound`.
pub fn select_adapter(adapters: &Vec<AdapterProbe>, use_warp_device: bool) -> (r: Result<
    AdapterChoice,
    GfxError,
>)
    ensures
        use_warp_device ==> r == Ok::<AdapterChoice, GfxError>(AdapterChoice::Software),
        !use_warp_device ==> match r {
            Ok(AdapterChoice::Software) => false,
            Ok(AdapterChoice::Hardware(i)) => {
                &&& i < adapters@.len()
                &&& spec_eligible(adapters@[i as int])
                &&& forall|j: int| 0 <= j < i ==> !spec_eligible(#[trigger] adapters@[j])
            },
            Err(e) => {
                &&& e == GfxError::AdapterNotFound
                &&& forall|j: int|
                    0 <= j < adapters@.len() ==> !spec_eligible(#[trigger] adapters@[j])
            },
        },
{
    if use_warp_device {
        return Ok(AdapterChoice::Software);
    }
    let mut k: usize = 0;
    while k < adapters.len()
        invariant
            !use_warp_device,
            k <= adapters.len(),
            forall|j: int| 0 <= j < k ==> !spec_eligible(#[trigger] adapters@[j]),
        decreases adapters.len() - k,
    {
        let probe = adapters[k];
        if !probe.is_software && probe.supports_minimum_level {
            return Ok(AdapterChoice::Hardware(k));
        }
        k = k + 1;
    }
    Err(GfxError::AdapterNotFound)
}

/// The logical device, created from exactly one adapter at a fixed minimum
/// feature level.
#[derive(Clone, Copy, Debug, PartialEq, Eq, Structural)]
pub struct GraphicsDevice {
    /// The adapter the device was created from.
    pub adapter: AdapterChoice,
    /// The feature level requested at creation.
    pub feature_level: u32,
}

/// Folds the outcome of the platform's device-creation call back into the
/// model: success yields a device bound to the chosen adapter at the
/// minimum feature level; failure is fatal `DeviceCreationFailed`.
pub fn device_from_outcome(choice: AdapterChoice, creation_succeeded: bool) -> (r: Result<
    GraphicsDevice,
    GfxError,
>)
    ensures
        creation_succeeded ==> r == Ok::<GraphicsDevice, GfxError>(
            GraphicsDevice { adapter: choice, feature_level: MINIMUM_FEATURE_LEVEL },
        ),
        !creation_succeeded ==> r == Err::<GraphicsDevice, GfxError>(
            GfxError::DeviceCreationFailed,
        ),
{
    if creation_succeeded {
        Ok(GraphicsDevice { adapter: choice, feature_level: MINIMUM_FEATURE_LEVEL })
    } else {
        Err(GfxError::DeviceCreationFailed)
    }
}

/// Severity classes of the platform's validation-layer messages.
#[derive(Clone, Copy, Debug, PartialEq, Eq, Structural)]
pub enum MessageSeverity {
    Corruption,
    Error,
    Warning,
    Info,
}

/// The known-noisy informational messages that the validation layer is told
/// to suppress.
#[derive(Clone, Copy, Debug, PartialEq, Eq, Structural)]
pub enum SuppressedMessage {
    /// Clear-value mismatch on a render-target clear.
    ClearValueMismatch,
    /// Map with a null range.
    MapNullRange,
    /// Unmap with a null range.
    UnmapNullRange,
}

/// Configuration of the diagnostic validation layer, applied in
/// non-production builds only; it must never alter control flow.
pub struct DebugConfig {
    /// Severities that force a break in the debugger.
    pub break_on: Vec<MessageSeverity>,
    /// Message severities denied (filtered out) wholesale.
    pub denied_severities: Vec<MessageSeverity>,
    /// Individual message IDs denied in addition.
    pub denied_messages: Vec<SuppressedMessage>,
}

/// The fixed validation-layer configuration: break on corruption, error and
/// warning severities; deny informational messages and the fixed list of
/// known-noisy message IDs.
pub fn debug_config() -> (c: DebugConfig)
    ensures
        c.break_on@ == seq![
            MessageSeverity::Corruption,
            MessageSeverity::Error,
            MessageSeverity::Warning,
        ],
        c.denied_severities@ == seq![MessageSeverity::Info],
        c.denied_messages@ == seq![
            SuppressedMessage::ClearValueMismatch,
            SuppressedMessage::MapNullRange,
            SuppressedMessage::UnmapNullRange,
        ],
{
    let mut break_on: Vec<MessageSeverity> = Vec::new();
    break_on.push(MessageSeverity::Corruption);
    break_on.push(MessageSeverity::Error);
    break_on.push(MessageSeverity::Warning);
    let mut denied_severities: Vec<MessageSeverity> = Vec::new();
    denied_severities.push(MessageSeverity::Info);
    let mut denied_messages: Vec<SuppressedMessage> = Vec::new();
    denied_messages.push(SuppressedMessage::ClearValueMismatch);
    denied_messages.push(SuppressedMessage::MapNullRange);
    denied_messages.push(SuppressedMessage::UnmapNullRange);
    proof {
        assert(break_on@ =~= seq![
            MessageSeverity::Corruption,
            MessageSeverity::Error,
            MessageSeverity::Warning,
        ]);
        assert(denied_severities@ =~= seq![MessageSeverity::Info]);
        assert(denied_messages@ =~= seq![
            SuppressedMessage::ClearValueMismatch,
            SuppressedMessage::MapNullRange,
            SuppressedMessage::UnmapNullRange,
        ]);
    }
    DebugConfig { break_on, denied_severities, denied_messages }
}

} // verus!
