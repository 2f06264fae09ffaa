use nettune_core::tweaks::mock::MockTweak;
use nettune_core::tweaks::{OsPlatform, Tweak};

#[test]
fn test_mock_tweak_apply_and_revert() {
    let mut tweak = MockTweak::new("test_tweak", "Test Tweak", "default_val");

    assert_eq!(tweak.read_current_value().unwrap(), "default_val");

    tweak.apply(Some("new_val"));
    assert_eq!(tweak.read_current_value().unwrap(), "new_val");

    tweak.revert("default_val");
    assert_eq!(tweak.read_current_value().unwrap(), "default_val");
}

#[test]
fn mock_apply_without_value_sets_applied() {
    let mut tweak = MockTweak::new("t", "T", "before");
    tweak.apply(None);
    assert_eq!(tweak.read_current_value().unwrap(), "applied");
    tweak.revert("before");
    assert_eq!(tweak.read_current_value().unwrap(), "before");
}

#[test]
fn mock_metadata() {
    let tweak = MockTweak::new("test_tweak", "Test Tweak", "x");
    assert_eq!(tweak.id(), "test_tweak");
    assert_eq!(tweak.name(), "Test Tweak");
    assert_eq!(tweak.description(), "Ajuste falso para testes unitários");
    assert_eq!(
        tweak.supported_os(),
        vec![OsPlatform::Windows, OsPlatform::Linux, OsPlatform::MacOS]
    );
    assert!(!tweak.requires_reboot());
}
