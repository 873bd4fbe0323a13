//! Typed parameters for NVMe admin commands.
//!
//! Each enum corresponds to one field of an admin command. Using these instead
//! of raw integers at the API surface catches typos at compile time and makes
//! call sites self-documenting.

use vstd::prelude::*;

verus! {

/// How user data should be erased during a Format NVM operation.
///
/// `#[non_exhaustive]`: the NVMe `SES` field has reserved encodings that may
/// be assigned later, so match with a `_` arm.
#[derive(Debug, Clone, Copy, PartialEq, Eq, Structural)]
#[non_exhaustive]
pub enum SecureErase {
    /// No secure erase - only metadata is overwritten.
    NoErase,
    /// User-data block-by-block erase. Time scales with namespace size.
    UserData,
    /// Cryptographic erase - destroys the media-encryption key. Effectively
    /// instantaneous regardless of capacity.
    Cryptographic,
}

impl Default for SecureErase {
    fn default() -> (r: Self)
        ensures
            r == SecureErase::NoErase,
    {
        SecureErase::NoErase
    }
}

impl SecureErase {
    /// The value that encodes this variant in its command field.
    pub open spec fn code(self) -> u32 {
        match self {
            SecureErase::NoErase => 0,
            SecureErase::UserData => 1,
            SecureErase::Cryptographic => 2,
        }
    }

    /// The value that encodes this variant in its command field.
    pub fn as_raw(self) -> (r: u32)
        ensures
            r == self.code(),
    {
        match self {
            SecureErase::NoErase => 0,
            SecureErase::UserData => 1,
            SecureErase::Cryptographic => 2,
        }
    }

    /// No two variants share an encoding.
    pub proof fn codes_are_distinct(a: Self, b: Self)
        ensures
            a.code() == b.code() ==> a == b,
    {
    }
}

/// End-to-end Data Protection type to apply when formatting.
#[derive(Debug, Clone, Copy, PartialEq, Eq, Structural)]
#[non_exhaustive]
pub enum ProtectionInfo {
    /// PI disabled (the common case for consumer SSDs).
    Disabled,
    /// PI Type 1 (Guard tag, Application tag, Reference tag).
    Type1,
    /// PI Type 2.
    Type2,
    /// PI Type 3.
    Type3,
}

impl Default for ProtectionInfo {
    fn default() -> (r: Self)
        ensures
            r == ProtectionInfo::Disabled,
    {
        ProtectionInfo::Disabled
    }
}

impl ProtectionInfo {
    /// The value that encodes this variant in its command field.
    pub open spec fn code(self) -> u32 {
        match self {
            ProtectionInfo::Disabled => 0,
            ProtectionInfo::Type1 => 1,
            ProtectionInfo::Type2 => 2,
            ProtectionInfo::Type3 => 3,
        }
    }

    /// The value that encodes this variant in its command field.
    pub fn as_raw(self) -> (r: u32)
        ensures
            r == self.code(),
    {
        match self {
            ProtectionInfo::Disabled => 0,
            ProtectionInfo::Type1 => 1,
            ProtectionInfo::Type2 => 2,
            ProtectionInfo::Type3 => 3,
        }
    }

    /// No two variants share an encoding.
    pub proof fn codes_are_distinct(a: Self, b: Self)
        ensures
            a.code() == b.code() ==> a == b,
    {
    }
}

/// Where the PI guard bytes sit within each LBA.
#[derive(Debug, Clone, Copy, PartialEq, Eq, Structural)]
pub enum ProtectionLocation {
    /// PI in the last 8 bytes of metadata (the common choice).
    Last,
    /// PI in the first 8 bytes of metadata.
    First,
}

impl Default for ProtectionLocation {
    fn default() -> (r: Self)
        ensures
            r == ProtectionLocation::Last,
    {
        ProtectionLocation::Last
    }
}

impl ProtectionLocation {
    /// The value that encodes this variant in its command field.
    pub open spec fn code(self) -> u32 {
        match self {
            ProtectionLocation::Last => 0,
            ProtectionLocation::First => 1,
        }
    }

    /// The value that encodes this variant in its command field.
    pub fn as_raw(self) -> (r: u32)
        ensures
            r == self.code(),
    {
        match self {
            ProtectionLocation::Last => 0,
            ProtectionLocation::First => 1,
        }
    }

    /// No two variants share an encoding.
    pub proof fn codes_are_distinct(a: Self, b: Self)
        ensures
            a.code() == b.code() ==> a == b,
    {
    }
}

/// How metadata is transferred relative to LBA data.
#[derive(Debug, Clone, Copy, PartialEq, Eq, Structural)]
pub enum MetadataSettings {
    /// Metadata passed through a separate buffer.
    Separate,
    /// Metadata interleaved with LBA data (extended LBA format).
    Extended,
}

impl Default for MetadataSettings {
    fn default() -> (r: Self)
        ensures
            r == MetadataSettings::Separate,
    {
        MetadataSettings::Separate
    }
}

impl MetadataSettings {
    /// The value that encodes this variant in its command field.
    pub open spec fn code(self) -> u32 {
        match self {
            MetadataSettings::Separate => 0,
            MetadataSettings::Extended => 1,
        }
    }

    /// The value that encodes this variant in its command field.
    pub fn as_raw(self) -> (r: u32)
        ensures
            r == self.code(),
    {
        match self {
            MetadataSettings::Separate => 0,
            MetadataSettings::Extended => 1,
        }
    }

    /// No two variants share an encoding.
    pub proof fn codes_are_distinct(a: Self, b: Self)
        ensures
            a.code() == b.code() ==> a == b,
    {
    }
}

/// What the firmware-commit admin command should do with the slot it targets.
#[derive(Debug, Clone, Copy, PartialEq, Eq, Structural)]
#[non_exhaustive]
pub enum FirmwareAction {
    /// Replace the image in the slot. The image takes effect on the next
    /// controller reset.
    Replace,
    /// Replace the image and mark this slot to be activated on next reset.
    ReplaceAndActivate,
    /// Mark an already-loaded slot as the one to activate on next reset.
    SetActive,
    /// Replace and activate the image *immediately*, with no reset. Only
    /// supported on controllers that advertise that capability in OACS.
    ReplaceAndActivateImmediate,
    /// Replace a boot-partition image.
    ReplaceBootPartition,
    /// Activate a boot-partition image already in a slot.
    ActivateBootPartition,
}

impl FirmwareAction {
    /// The value that encodes this variant in its command field.
    pub open spec fn code(self) -> u32 {
        match self {
            FirmwareAction::Replace => 0,
            FirmwareAction::ReplaceAndActivate => 1,
            FirmwareAction::SetActive => 2,
            FirmwareAction::ReplaceAndActivateImmediate => 3,
            FirmwareAction::ReplaceBootPartition => 6,
            FirmwareAction::ActivateBootPartition => 7,
        }
    }

    /// The value that encodes this variant in its command field.
    pub fn as_raw(self) -> (r: u32)
        ensures
            r == self.code(),
    {
        match self {
            FirmwareAction::Replace => 0,
            FirmwareAction::ReplaceAndActivate => 1,
            FirmwareAction::SetActive => 2,
            FirmwareAction::ReplaceAndActivateImmediate => 3,
            FirmwareAction::ReplaceBootPartition => 6,
            FirmwareAction::ActivateBootPartition => 7,
        }
    }

    /// No two variants share an encoding.
    pub proof fn codes_are_distinct(a: Self, b: Self)
        ensures
            a.code() == b.code() ==> a == b,
    {
    }
}

/// Which "view" of a feature value the Get Features command should return.
#[derive(Debug, Clone, Copy, PartialEq, Eq, Structural)]
#[non_exhaustive]
pub enum FeatureSelect {
    /// The currently-active value for the feature.
    Current,
    /// The default value the controller ships with.
    Default,
    /// The most recently saved value (if the feature supports save).
    Saved,
    /// The set of supported capabilities for the feature, encoded in the
    /// result dword.
    Supported,
}

impl Default for FeatureSelect {
    fn default() -> (r: Self)
        ensures
            r == FeatureSelect::Current,
    {
        FeatureSelect::Current
    }
}

impl FeatureSelect {
    /// The value that encodes this variant in its command field.
    pub open spec fn code(self) -> u32 {
        match self {
            FeatureSelect::Current => 0,
            FeatureSelect::Default => 1,
            FeatureSelect::Saved => 2,
            FeatureSelect::Supported => 3,
        }
    }

    /// The value that encodes this variant in its command field.
    pub fn as_raw(self) -> (r: u32)
        ensures
            r == self.code(),
    {
        match self {
            FeatureSelect::Current => 0,
            FeatureSelect::Default => 1,
            FeatureSelect::Saved => 2,
            FeatureSelect::Supported => 3,
        }
    }

    /// No two variants share an encoding.
    pub proof fn codes_are_distinct(a: Self, b: Self)
        ensures
            a.code() == b.code() ==> a == b,
    {
    }
}

/// Sanitize action - what the Sanitize admin command should do to the drive's
/// user data area.
#[derive(Debug, Clone, Copy, PartialEq, Eq, Structural)]
#[non_exhaustive]
pub enum SanitizeAction {
    /// Exit a Sanitize Failure state (after a previous sanitize errored).
    ExitFailure,
    /// Block-erase all user data (fast).
    BlockErase,
    /// Multi-pass overwrite with a configurable pattern. Slow.
    Overwrite,
    /// Cryptographic erase - destroys the media-encryption key. Effectively
    /// instantaneous.
    CryptoErase,
    /// Exit Media Verification (NVMe 2.0+).
    ExitMediaVerification,
}

impl SanitizeAction {
    /// The value that encodes this variant in its command field.
    pub open spec fn code(self) -> u32 {
        match self {
            SanitizeAction::ExitFailure => 1,
            SanitizeAction::BlockErase => 2,
            SanitizeAction::Overwrite => 3,
            SanitizeAction::CryptoErase => 4,
            SanitizeAction::ExitMediaVerification => 5,
        }
    }

    /// The value that encodes this variant in its command field.
    pub fn as_raw(self) -> (r: u32)
        ensures
            r == self.code(),
    {
        match self {
            SanitizeAction::ExitFailure => 1,
            SanitizeAction::BlockErase => 2,
            SanitizeAction::Overwrite => 3,
            SanitizeAction::CryptoErase => 4,
            SanitizeAction::ExitMediaVerification => 5,
        }
    }

    /// No two variants share an encoding.
    pub proof fn codes_are_distinct(a: Self, b: Self)
        ensures
            a.code() == b.code() ==> a == b,
    {
    }
}

/// Self-test action for the Device Self-Test admin command.
#[derive(Debug, Clone, Copy, PartialEq, Eq, Structural)]
#[non_exhaustive]
pub enum SelfTestAction {
    /// Short self-test (typically completes in minutes).
    Short,
    /// Extended self-test (hours).
    Extended,
    /// Host-initiated self-test (NVMe 2.0+).
    HostInitiated,
    /// Vendor-specific self-test.
    VendorSpecific,
    /// Abort a currently-running self-test.
    Abort,
}

impl SelfTestAction {
    /// The value that encodes this variant in its command field.
    pub open spec fn code(self) -> u32 {
        match self {
            SelfTestAction::Short => 1,
            SelfTestAction::Extended => 2,
            SelfTestAction::HostInitiated => 3,
            SelfTestAction::VendorSpecific => 14,
            SelfTestAction::Abort => 15,
        }
    }

    /// The value that encodes this variant in its command field.
    pub fn as_raw(self) -> (r: u32)
        ensures
            r == self.code(),
    {
        match self {
            SelfTestAction::Short => 1,
            SelfTestAction::Extended => 2,
            SelfTestAction::HostInitiated => 3,
            SelfTestAction::VendorSpecific => 14,
            SelfTestAction::Abort => 15,
        }
    }

    /// No two variants share an encoding.
    pub proof fn codes_are_distinct(a: Self, b: Self)
        ensures
            a.code() == b.code() ==> a == b,
    {
    }
}

} // verus!
