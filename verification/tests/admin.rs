use libnvme::{
    FeatureSelect, FirmwareAction, MetadataSettings, ProtectionInfo, ProtectionLocation,
    SanitizeAction, SecureErase, SelfTestAction,
};

#[test]
fn secure_erase_discriminants() {
    assert_eq!(SecureErase::NoErase.as_raw(), 0);
    assert_eq!(SecureErase::UserData.as_raw(), 1);
    assert_eq!(SecureErase::Cryptographic.as_raw(), 2);
}

#[test]
fn protection_info_discriminants() {
    assert_eq!(ProtectionInfo::Disabled.as_raw(), 0);
    assert_eq!(ProtectionInfo::Type1.as_raw(), 1);
    assert_eq!(ProtectionInfo::Type2.as_raw(), 2);
    assert_eq!(ProtectionInfo::Type3.as_raw(), 3);
}

#[test]
fn firmware_action_discriminants() {
    assert_eq!(FirmwareAction::Replace.as_raw(), 0);
    assert_eq!(FirmwareAction::ReplaceAndActivate.as_raw(), 1);
    assert_eq!(FirmwareAction::SetActive.as_raw(), 2);
    assert_eq!(FirmwareAction::ReplaceAndActivateImmediate.as_raw(), 3);
    assert_eq!(FirmwareAction::ReplaceBootPartition.as_raw(), 6);
    assert_eq!(FirmwareAction::ActivateBootPartition.as_raw(), 7);
}

#[test]
fn feature_select_discriminants() {
    assert_eq!(FeatureSelect::Current.as_raw(), 0);
    assert_eq!(FeatureSelect::Default.as_raw(), 1);
    assert_eq!(FeatureSelect::Saved.as_raw(), 2);
    assert_eq!(FeatureSelect::Supported.as_raw(), 3);
}

#[test]
fn sanitize_action_discriminants() {
    assert_eq!(SanitizeAction::ExitFailure.as_raw(), 1);
    assert_eq!(SanitizeAction::BlockErase.as_raw(), 2);
    assert_eq!(SanitizeAction::Overwrite.as_raw(), 3);
    assert_eq!(SanitizeAction::CryptoErase.as_raw(), 4);
    assert_eq!(SanitizeAction::ExitMediaVerification.as_raw(), 5);
}

#[test]
fn self_test_action_discriminants() {
    assert_eq!(SelfTestAction::Short.as_raw(), 1);
    assert_eq!(SelfTestAction::Extended.as_raw(), 2);
    assert_eq!(SelfTestAction::HostInitiated.as_raw(), 3);
    assert_eq!(SelfTestAction::VendorSpecific.as_raw(), 14);
    assert_eq!(SelfTestAction::Abort.as_raw(), 15);
}

#[test]
fn defaults_are_conservative() {
    assert_eq!(SecureErase::default(), SecureErase::NoErase);
    assert_eq!(ProtectionInfo::default(), ProtectionInfo::Disabled);
    assert_eq!(ProtectionLocation::default(), ProtectionLocation::Last);
    assert_eq!(MetadataSettings::default(), MetadataSettings::Separate);
    assert_eq!(FeatureSelect::default(), FeatureSelect::Current);
}

#[test]
fn location_and_metadata_discriminants() {
    assert_eq!(ProtectionLocation::Last.as_raw(), 0);
    assert_eq!(ProtectionLocation::First.as_raw(), 1);
    assert_eq!(MetadataSettings::Separate.as_raw(), 0);
    assert_eq!(MetadataSettings::Extended.as_raw(), 1);
}
