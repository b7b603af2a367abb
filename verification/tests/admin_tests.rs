use lib::{
    FeatureSelect, FirmwareAction, MetadataSettings, ProtectionInfo, ProtectionLocation,
    SecureErase,
};

#[test]
fn secure_erase_raw_values() {
    assert_eq!(SecureErase::NoErase.as_raw(), 0);
    assert_eq!(SecureErase::UserData.as_raw(), 1);
    assert_eq!(SecureErase::Cryptographic.as_raw(), 2);
    assert_eq!(SecureErase::default(), SecureErase::NoErase);
}

#[test]
fn protection_raw_values() {
    assert_eq!(ProtectionInfo::Disabled.as_raw(), 0);
    assert_eq!(ProtectionInfo::Type1.as_raw(), 1);
    assert_eq!(ProtectionInfo::Type2.as_raw(), 2);
    assert_eq!(ProtectionInfo::Type3.as_raw(), 3);
    assert_eq!(ProtectionInfo::default(), ProtectionInfo::Disabled);
    assert_eq!(ProtectionLocation::Last.as_raw(), 0);
    assert_eq!(ProtectionLocation::First.as_raw(), 1);
    assert_eq!(ProtectionLocation::default(), ProtectionLocation::Last);
}

#[test]
fn metadata_raw_values() {
    assert_eq!(MetadataSettings::Separate.as_raw(), 0);
    assert_eq!(MetadataSettings::Extended.as_raw(), 1);
    assert_eq!(MetadataSettings::default(), MetadataSettings::Separate);
}

#[test]
fn firmware_action_raw_values() {
    assert_eq!(FirmwareAction::Replace.as_raw(), 0);
    assert_eq!(FirmwareAction::ReplaceAndActivate.as_raw(), 1);
    assert_eq!(FirmwareAction::SetActive.as_raw(), 2);
    assert_eq!(FirmwareAction::ReplaceAndActivateImmediate.as_raw(), 3);
    assert_eq!(FirmwareAction::ReplaceBootPartition.as_raw(), 6);
    assert_eq!(FirmwareAction::ActivateBootPartition.as_raw(), 7);
}

#[test]
fn feature_select_raw_values() {
    assert_eq!(FeatureSelect::Current.as_raw(), 0);
    assert_eq!(FeatureSelect::Default.as_raw(), 1);
    assert_eq!(FeatureSelect::Saved.as_raw(), 2);
    assert_eq!(FeatureSelect::Supported.as_raw(), 3);
    assert_eq!(FeatureSelect::default(), FeatureSelect::Current);
}

#[test]
fn firmware_actions_have_distinct_raw_values() {
    let all = [
        FirmwareAction::Replace,
        FirmwareAction::ReplaceAndActivate,
        FirmwareAction::SetActive,
        FirmwareAction::ReplaceAndActivateImmediate,
        FirmwareAction::ReplaceBootPartition,
        FirmwareAction::ActivateBootPartition,
    ];
    for (i, a) in all.iter().enumerate() {
        for (j, b) in all.iter().enumerate() {
            assert_eq!(i == j, a.as_raw() == b.as_raw());
        }
    }
}
