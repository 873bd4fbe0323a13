//! How the typed parameters are encoded.

use crate::admin::{
    FeatureSelect, FirmwareAction, MetadataSettings, ProtectionInfo, ProtectionLocation,
    SanitizeAction, SecureErase, SelfTestAction,
};
use crate::directives::{DirectiveRecvOp, DirectiveSendOp, DirectiveType};
use crate::reservations::{
    PtplChange, ReservationAcquireAction, ReservationRegisterAction, ReservationReleaseAction,
    ReservationType,
};
use crate::zns::{ZoneRecvAction, ZoneReportFilter, ZoneSendAction};
use vstd::prelude::*;

verus! {

/// How each [`SecureErase`] is encoded.
pub proof fn secure_erase(x: SecureErase, r: u32)
    requires
        call_ensures(SecureErase::as_raw, (x,), r),
    ensures
        x is NoErase ==> r == 0,
        x is UserData ==> r == 1,
        x is Cryptographic ==> r == 2,
{
}

/// How each [`ProtectionInfo`] is encoded.
pub proof fn protection_info(x: ProtectionInfo, r: u32)
    requires
        call_ensures(ProtectionInfo::as_raw, (x,), r),
    ensures
        x is Disabled ==> r == 0,
        x is Type1 ==> r == 1,
        x is Type2 ==> r == 2,
        x is Type3 ==> r == 3,
{
}

/// How each [`ProtectionLocation`] is encoded.
pub proof fn protection_location(x: ProtectionLocation, r: u32)
    requires
        call_ensures(ProtectionLocation::as_raw, (x,), r),
    ensures
        x is Last ==> r == 0,
        x is First ==> r == 1,
{
}

/// How each [`MetadataSettings`] is encoded.
pub proof fn metadata_settings(x: MetadataSettings, r: u32)
    requires
        call_ensures(MetadataSettings::as_raw, (x,), r),
    ensures
        x is Separate ==> r == 0,
        x is Extended ==> r == 1,
{
}

/// How each [`FirmwareAction`] is encoded.
pub proof fn firmware_action(x: FirmwareAction, r: u32)
    requires
        call_ensures(FirmwareAction::as_raw, (x,), r),
    ensures
        x is Replace ==> r == 0,
        x is ReplaceAndActivate ==> r == 1,
        x is SetActive ==> r == 2,
        x is ReplaceAndActivateImmediate ==> r == 3,
        x is ReplaceBootPartition ==> r == 6,
        x is ActivateBootPartition ==> r == 7,
{
}

/// How each [`FeatureSelect`] is encoded.
pub proof fn feature_select(x: FeatureSelect, r: u32)
    requires
        call_ensures(FeatureSelect::as_raw, (x,), r),
    ensures
        x is Current ==> r == 0,
        x is Default ==> r == 1,
        x is Saved ==> r == 2,
        x is Supported ==> r == 3,
{
}

/// How each [`SanitizeAction`] is encoded.
pub proof fn sanitize_action(x: SanitizeAction, r: u32)
    requires
        call_ensures(SanitizeAction::as_raw, (x,), r),
    ensures
        x is ExitFailure ==> r == 1,
        x is BlockErase ==> r == 2,
        x is Overwrite ==> r == 3,
        x is CryptoErase ==> r == 4,
        x is ExitMediaVerification ==> r == 5,
{
}

/// How each [`SelfTestAction`] is encoded.
pub proof fn self_test_action(x: SelfTestAction, r: u32)
    requires
        call_ensures(SelfTestAction::as_raw, (x,), r),
    ensures
        x is Short ==> r == 1,
        x is Extended ==> r == 2,
        x is HostInitiated ==> r == 3,
        x is VendorSpecific ==> r == 14,
        x is Abort ==> r == 15,
{
}

/// Which [`SecureErase`] is the default.
pub proof fn secure_erase_default(x: SecureErase)
    requires
        call_ensures(<SecureErase as Default>::default, (), x),
    ensures
        x is NoErase,
{
}

/// Which [`ProtectionInfo`] is the default.
pub proof fn protection_info_default(x: ProtectionInfo)
    requires
        call_ensures(<ProtectionInfo as Default>::default, (), x),
    ensures
        x is Disabled,
{
}

/// Which [`ProtectionLocation`] is the default.
pub proof fn protection_location_default(x: ProtectionLocation)
    requires
        call_ensures(<ProtectionLocation as Default>::default, (), x),
    ensures
        x is Last,
{
}

/// Which [`MetadataSettings`] is the default.
pub proof fn metadata_settings_default(x: MetadataSettings)
    requires
        call_ensures(<MetadataSettings as Default>::default, (), x),
    ensures
        x is Separate,
{
}

/// Which [`FeatureSelect`] is the default.
pub proof fn feature_select_default(x: FeatureSelect)
    requires
        call_ensures(<FeatureSelect as Default>::default, (), x),
    ensures
        x is Current,
{
}

/// How each [`DirectiveType`] is encoded.
pub proof fn directive_type(x: DirectiveType, r: u32)
    requires
        call_ensures(DirectiveType::as_raw, (x,), r),
    ensures
        x is Identify ==> r == 0,
        x is Streams ==> r == 1,
        x matches DirectiveType::Raw(v) ==> r == v,
{
}

/// How each [`DirectiveSendOp`] is encoded.
pub proof fn directive_send_op(x: DirectiveSendOp, r: u32)
    requires
        call_ensures(DirectiveSendOp::as_raw, (x,), r),
    ensures
        x is IdentifyEnable ==> r == 0x01,
        x is StreamsReleaseIdentifier ==> r == 0x01,
        x is StreamsReleaseResource ==> r == 0x02,
        x matches DirectiveSendOp::Raw(v) ==> r == v,
{
}

/// How each [`DirectiveRecvOp`] is encoded.
pub proof fn directive_recv_op(x: DirectiveRecvOp, r: u32)
    requires
        call_ensures(DirectiveRecvOp::as_raw, (x,), r),
    ensures
        x is IdentifyReturnParameters ==> r == 0x01,
        x is StreamsReturnParameters ==> r == 0x01,
        x is StreamsGetStatus ==> r == 0x02,
        x is StreamsAllocateResources ==> r == 0x03,
        x matches DirectiveRecvOp::Raw(v) ==> r == v,
{
}

/// How each [`ReservationType`] is encoded.
pub proof fn reservation_type(x: ReservationType, r: u32)
    requires
        call_ensures(ReservationType::as_raw, (x,), r),
    ensures
        x is WriteExclusive ==> r == 1,
        x is ExclusiveAccess ==> r == 2,
        x is WriteExclusiveRegistrantsOnly ==> r == 3,
        x is ExclusiveAccessRegistrantsOnly ==> r == 4,
        x is WriteExclusiveAllRegistrants ==> r == 5,
        x is ExclusiveAccessAllRegistrants ==> r == 6,
{
}

/// How each [`ReservationAcquireAction`] is encoded.
pub proof fn reservation_acquire_action(x: ReservationAcquireAction, r: u32)
    requires
        call_ensures(ReservationAcquireAction::as_raw, (x,), r),
    ensures
        x is Acquire ==> r == 0,
        x is Preempt ==> r == 1,
        x is PreemptAndAbort ==> r == 2,
{
}

/// How each [`ReservationRegisterAction`] is encoded.
pub proof fn reservation_register_action(x: ReservationRegisterAction, r: u32)
    requires
        call_ensures(ReservationRegisterAction::as_raw, (x,), r),
    ensures
        x is Register ==> r == 0,
        x is Unregister ==> r == 1,
        x is Replace ==> r == 2,
{
}

/// How each [`ReservationReleaseAction`] is encoded.
pub proof fn reservation_release_action(x: ReservationReleaseAction, r: u32)
    requires
        call_ensures(ReservationReleaseAction::as_raw, (x,), r),
    ensures
        x is Release ==> r == 0,
        x is Clear ==> r == 1,
{
}

/// How each [`PtplChange`] is encoded.
pub proof fn ptpl_change(x: PtplChange, r: u32)
    requires
        call_ensures(PtplChange::as_raw, (x,), r),
    ensures
        x is NoChange ==> r == 0,
        x is Clear ==> r == 2,
        x is Persist ==> r == 3,
{
}

/// Which [`ReservationAcquireAction`] is the default.
pub proof fn reservation_acquire_action_default(x: ReservationAcquireAction)
    requires
        call_ensures(<ReservationAcquireAction as Default>::default, (), x),
    ensures
        x is Acquire,
{
}

/// Which [`ReservationRegisterAction`] is the default.
pub proof fn reservation_register_action_default(x: ReservationRegisterAction)
    requires
        call_ensures(<ReservationRegisterAction as Default>::default, (), x),
    ensures
        x is Register,
{
}

/// Which [`ReservationReleaseAction`] is the default.
pub proof fn reservation_release_action_default(x: ReservationReleaseAction)
    requires
        call_ensures(<ReservationReleaseAction as Default>::default, (), x),
    ensures
        x is Release,
{
}

/// Which [`PtplChange`] is the default.
pub proof fn ptpl_change_default(x: PtplChange)
    requires
        call_ensures(<PtplChange as Default>::default, (), x),
    ensures
        x is NoChange,
{
}

/// How each [`ZoneSendAction`] is encoded.
pub proof fn zone_send_action(x: ZoneSendAction, r: u32)
    requires
        call_ensures(ZoneSendAction::as_raw, (x,), r),
    ensures
        x is Close ==> r == 0x1,
        x is Finish ==> r == 0x2,
        x is Open ==> r == 0x3,
        x is Reset ==> r == 0x4,
        x is Offline ==> r == 0x5,
        x is SetDescriptorExtension ==> r == 0x10,
        x is ZrwaFlush ==> r == 0x11,
{
}

/// How each [`ZoneRecvAction`] is encoded.
pub proof fn zone_recv_action(x: ZoneRecvAction, r: u32)
    requires
        call_ensures(ZoneRecvAction::as_raw, (x,), r),
    ensures
        x is Report ==> r == 0x0,
        x is ExtendedReport ==> r == 0x1,
{
}

/// How each [`ZoneReportFilter`] is encoded.
pub proof fn zone_report_filter(x: ZoneReportFilter, r: u16)
    requires
        call_ensures(ZoneReportFilter::as_raw, (x,), r),
    ensures
        x is All ==> r == 0x0,
        x is Empty ==> r == 0x1,
        x is ImplicitlyOpened ==> r == 0x2,
        x is ExplicitlyOpened ==> r == 0x3,
        x is Closed ==> r == 0x4,
        x is Full ==> r == 0x5,
        x is ReadOnly ==> r == 0x6,
        x is Offline ==> r == 0x7,
{
}

/// Which [`ZoneRecvAction`] is the default.
pub proof fn zone_recv_action_default(x: ZoneRecvAction)
    requires
        call_ensures(<ZoneRecvAction as Default>::default, (), x),
    ensures
        x is Report,
{
}

/// Which [`ZoneReportFilter`] is the default.
pub proof fn zone_report_filter_default(x: ZoneReportFilter)
    requires
        call_ensures(<ZoneReportFilter as Default>::default, (), x),
    ensures
        x is All,
{
}

} // verus!
