//! Typed parameters for NVMe admin commands.
//!
//! Each enum corresponds to one of libnvme's `nvme_cmd_*` integer typedefs.
//! Using these instead of raw integers at the API surface catches typos at
//! compile time; `as_raw` gives the value that is placed in the command, and
//! distinct variants always give distinct values.

use vstd::prelude::*;

verus! {

/// How user data should be erased during a Format NVM operation.
#[derive(Debug, Clone, Copy, PartialEq, Eq, Structural)]
pub enum SecureErase {
    /// No secure erase — only metadata is overwritten.
    NoErase,
    /// User-data block-by-block erase. Time scales with namespace size.
    UserData,
    /// Cryptographic erase — destroys the media-encryption key.
    /// Effectively instantaneous regardless of capacity.
    Cryptographic,
}

impl SecureErase {
    /// The Secure Erase Settings (SES) field value of this setting.
    pub open spec fn raw(self) -> u32 {
        match self {
            SecureErase::NoErase => 0,
            SecureErase::UserData => 1,
            SecureErase::Cryptographic => 2,
        }
    }

    /// The value passed to libnvme for this setting.
    pub fn as_raw(self) -> (r: u32)
        ensures
            r == self.raw(),
    {
        match self {
            SecureErase::NoErase => 0,
            SecureErase::UserData => 1,
            SecureErase::Cryptographic => 2,
        }
    }
}

impl Default for SecureErase {
    fn default() -> (r: Self)
        ensures
            r == SecureErase::NoErase,
    {
        SecureErase::NoErase
    }
}

/// End-to-end Data Protection type to apply when formatting.
#[derive(Debug, Clone, Copy, PartialEq, Eq, Structural)]
pub enum ProtectionInfo {
    /// PI disabled (the common case for consumer SSDs).
    Disabled,
    /// PI Type 1 (Guard tag, Application tag, Reference tag).
    Type1,
    /// PI Type 2.
    Type2,
    /// PI Type 3.
    Type3,
}

impl ProtectionInfo {
    /// The Protection Information (PI) field value of this setting.
    pub open spec fn raw(self) -> u32 {
        match self {
            ProtectionInfo::Disabled => 0,
            ProtectionInfo::Type1 => 1,
            ProtectionInfo::Type2 => 2,
            ProtectionInfo::Type3 => 3,
        }
    }

    /// The value passed to libnvme for this setting.
    pub fn as_raw(self) -> (r: u32)
        ensures
            r == self.raw(),
    {
        match self {
            ProtectionInfo::Disabled => 0,
            ProtectionInfo::Type1 => 1,
            ProtectionInfo::Type2 => 2,
            ProtectionInfo::Type3 => 3,
        }
    }
}

impl Default for ProtectionInfo {
    fn default() -> (r: Self)
        ensures
            r == ProtectionInfo::Disabled,
    {
        ProtectionInfo::Disabled
    }
}

/// Where the PI guard bytes sit within each LBA.
#[derive(Debug, Clone, Copy, PartialEq, Eq, Structural)]
pub enum ProtectionLocation {
    /// PI in the last 8 bytes of metadata (the common choice).
    Last,
    /// PI in the first 8 bytes of metadata.
    First,
}

impl ProtectionLocation {
    /// The Protection Information Location (PIL) field value of this setting.
    pub open spec fn raw(self) -> u32 {
        match self {
            ProtectionLocation::Last => 0,
            ProtectionLocation::First => 1,
        }
    }

    /// The value passed to libnvme for this setting.
    pub fn as_raw(self) -> (r: u32)
        ensures
            r == self.raw(),
    {
        match self {
            ProtectionLocation::Last => 0,
            ProtectionLocation::First => 1,
        }
    }
}

impl Default for ProtectionLocation {
    fn default() -> (r: Self)
        ensures
            r == ProtectionLocation::Last,
    {
        ProtectionLocation::Last
    }
}

/// How metadata is transferred relative to LBA data.
#[derive(Debug, Clone, Copy, PartialEq, Eq, Structural)]
pub enum MetadataSettings {
    /// Metadata passed through a separate buffer.
    Separate,
    /// Metadata interleaved with LBA data (extended LBA format).
    Extended,
}

impl MetadataSettings {
    /// The Metadata Settings (MSET) field value of this setting.
    pub open spec fn raw(self) -> u32 {
        match self {
            MetadataSettings::Separate => 0,
            MetadataSettings::Extended => 1,
        }
    }

    /// The value passed to libnvme for this setting.
    pub fn as_raw(self) -> (r: u32)
        ensures
            r == self.raw(),
    {
        match self {
            MetadataSettings::Separate => 0,
            MetadataSettings::Extended => 1,
        }
    }
}

impl Default for MetadataSettings {
    fn default() -> (r: Self)
        ensures
            r == MetadataSettings::Separate,
    {
        MetadataSettings::Separate
    }
}

/// What the firmware-commit admin command should do with the slot it targets.
#[derive(Debug, Clone, Copy, PartialEq, Eq, Structural)]
pub enum FirmwareAction {
    /// Replace the image in the slot. The image takes effect on the next
    /// controller reset.
    Replace,
    /// Replace the image and mark this slot to be activated on next reset.
    ReplaceAndActivate,
    /// Mark an already-loaded slot as the one to activate on next reset.
    SetActive,
    /// Replace and activate the image *immediately*, with no reset.
    /// Only supported on controllers that advertise that capability in OACS.
    ReplaceAndActivateImmediate,
    /// Replace a boot-partition image.
    ReplaceBootPartition,
    /// Activate a boot-partition image already in a slot.
    ActivateBootPartition,
}

impl FirmwareAction {
    /// The Commit Action (CA) field value of this action.
    pub open spec fn raw(self) -> u32 {
        match self {
            FirmwareAction::Replace => 0,
            FirmwareAction::ReplaceAndActivate => 1,
            FirmwareAction::SetActive => 2,
            FirmwareAction::ReplaceAndActivateImmediate => 3,
            FirmwareAction::ReplaceBootPartition => 6,
            FirmwareAction::ActivateBootPartition => 7,
        }
    }

    /// The value passed to libnvme for this action.
    pub fn as_raw(self) -> (r: u32)
        ensures
            r == self.raw(),
    {
        match self {
            FirmwareAction::Replace => 0,
            FirmwareAction::ReplaceAndActivate => 1,
            FirmwareAction::SetActive => 2,
            FirmwareAction::ReplaceAndActivateImmediate => 3,
            FirmwareAction::ReplaceBootPartition => 6,
            FirmwareAction::ActivateBootPartition => 7,
        }
    }
}

/// Which "view" of a feature value the Get Features command should return.
#[derive(Debug, Clone, Copy, PartialEq, Eq, Structural)]
pub enum FeatureSelect {
    /// The currently-active value for the feature.
    Current,
    /// The default value the controller ships with.
    Default,
    /// The most recently saved value (if the feature supports save).
    Saved,
    /// The set of supported capabilities for the feature, encoded in the
    /// result dword. See the NVMe spec for the per-feature encoding.
    Supported,
}

impl FeatureSelect {
    /// The Select (SEL) field value of this view.
    pub open spec fn raw(self) -> u32 {
        match self {
            FeatureSelect::Current => 0,
            FeatureSelect::Default => 1,
            FeatureSelect::Saved => 2,
            FeatureSelect::Supported => 3,
        }
    }

    /// The value passed to libnvme for this view.
    pub fn as_raw(self) -> (r: u32)
        ensures
            r == self.raw(),
    {
        match self {
            FeatureSelect::Current => 0,
            FeatureSelect::Default => 1,
            FeatureSelect::Saved => 2,
            FeatureSelect::Supported => 3,
        }
    }
}

impl Default for FeatureSelect {
    fn default() -> (r: Self)
        ensures
            r == FeatureSelect::Current,
    {
        FeatureSelect::Current
    }
}

/// Distinct settings are encoded as distinct raw values, and every raw value
/// fits the command field that carries it (SES and PI: 3 bits; PIL and MSET:
/// 1 bit; CA: 3 bits; SEL: 3 bits).
pub proof fn raw_values_are_distinct_and_fit(
    se1: SecureErase,
    se2: SecureErase,
    pi1: ProtectionInfo,
    pi2: ProtectionInfo,
    pl1: ProtectionLocation,
    pl2: ProtectionLocation,
    ms1: MetadataSettings,
    ms2: MetadataSettings,
    fa1: FirmwareAction,
    fa2: FirmwareAction,
    fs1: FeatureSelect,
    fs2: FeatureSelect,
)
    ensures
        se1.raw() == se2.raw() ==> se1 == se2,
        pi1.raw() == pi2.raw() ==> pi1 == pi2,
        pl1.raw() == pl2.raw() ==> pl1 == pl2,
        ms1.raw() == ms2.raw() ==> ms1 == ms2,
        fa1.raw() == fa2.raw() ==> fa1 == fa2,
        fs1.raw() == fs2.raw() ==> fs1 == fs2,
        se1.raw() < 8,
        pi1.raw() < 8,
        pl1.raw() < 2,
        ms1.raw() < 2,
        fa1.raw() < 8,
        fs1.raw() < 8,
{
}

} // verus!
