use frame_pipeline::adapter::{
    debug_config, device_from_outcome, select_adapter, AdapterChoice, AdapterProbe,
    GraphicsDevice, MessageSeverity, SuppressedMessage, MINIMUM_FEATURE_LEVEL,
};
use frame_pipeline::error::GfxError;

fn probe(is_software: bool, supports_minimum_level: bool) -> AdapterProbe {
    AdapterProbe {
        is_software,
        supports_minimum_level,
    }
}

#[test]
fn hardware_selection_skips_software_and_noncompliant() {
    let adapters = vec![probe(true, true), probe(false, false), probe(false, true)];
    assert_eq!(
        select_adapter(&adapters, false),
        Ok(AdapterChoice::Hardware(2))
    );
}

#[test]
fn hardware_selection_picks_first_compliant() {
    let adapters = vec![probe(false, true), probe(false, true)];
    assert_eq!(
        select_adapter(&adapters, false),
        Ok(AdapterChoice::Hardware(0))
    );
}

#[test]
fn warp_flag_bypasses_hardware_enumeration() {
    // Even with compliant hardware adapters present, the software adapter
    // is bound directly.
    let adapters = vec![probe(false, true), probe(false, true)];
    assert_eq!(select_adapter(&adapters, true), Ok(AdapterChoice::Software));
    let none: Vec<AdapterProbe> = Vec::new();
    assert_eq!(select_adapter(&none, true), Ok(AdapterChoice::Software));
}

#[test]
fn exhausted_enumeration_is_adapter_not_found() {
    let none: Vec<AdapterProbe> = Vec::new();
    assert_eq!(select_adapter(&none, false), Err(GfxError::AdapterNotFound));
    let only_software = vec![probe(true, true), probe(true, false)];
    assert_eq!(
        select_adapter(&only_software, false),
        Err(GfxError::AdapterNotFound)
    );
}

#[test]
fn device_created_at_minimum_feature_level() {
    assert_eq!(
        device_from_outcome(AdapterChoice::Hardware(0), true),
        Ok(GraphicsDevice {
            adapter: AdapterChoice::Hardware(0),
            feature_level: MINIMUM_FEATURE_LEVEL,
        })
    );
    assert_eq!(MINIMUM_FEATURE_LEVEL, 0xb000);
}

#[test]
fn failed_device_creation_is_reported() {
    assert_eq!(
        device_from_outcome(AdapterChoice::Software, false),
        Err(GfxError::DeviceCreationFailed)
    );
}

#[test]
fn validation_layer_config_is_fixed() {
    let c = debug_config();
    assert_eq!(
        c.break_on,
        vec![
            MessageSeverity::Corruption,
            MessageSeverity::Error,
            MessageSeverity::Warning,
        ]
    );
    assert_eq!(c.denied_severities, vec![MessageSeverity::Info]);
    assert_eq!(
        c.denied_messages,
        vec![
            SuppressedMessage::ClearValueMismatch,
            SuppressedMessage::MapNullRange,
            SuppressedMessage::UnmapNullRange,
        ]
    );
}

#[test]
fn initialization_errors_are_fatal_and_frame_errors_are_not() {
    assert!(GfxError::AdapterNotFound.is_fatal());
    assert!(GfxError::DeviceCreationFailed.is_fatal());
    assert!(GfxError::SwapChainCreationFailed.is_fatal());
    assert!(!GfxError::CommandListFailure.is_fatal());
    assert!(!GfxError::PresentFailure.is_fatal());
    assert!(!GfxError::FenceWaitFailure.is_fatal());
}

#[test]
fn every_error_has_a_diagnostic_text() {
    let all = [
        GfxError::AdapterNotFound,
        GfxError::DeviceCreationFailed,
        GfxError::SwapChainCreationFailed,
        GfxError::CommandListFailure,
        GfxError::PresentFailure,
        GfxError::FenceWaitFailure,
    ];
    for e in all {
        assert!(!e.describe().is_empty());
    }
}
