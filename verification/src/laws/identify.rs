//! What the Identify data structures report.

use super::fields::trimmed_is_the_core;
use super::{core_of, holds, reads_core};
use crate::error::Result;
use crate::identify::{
    IdCtrl, IdNs, IdentifyController, IdentifyNamespace, LbaFormat, Lbaf, NvmeVersion,
};
use crate::{text, wire};
use vstd::arithmetic::power::pow;
use vstd::arithmetic::power2::pow2;
use vstd::prelude::*;

verus! {

/// Where a number is read from sixteen bytes, the bytes hold it.
proof fn capacity_holds(bytes: Seq<u8>, value: u128)
    requires
        bytes.len() == 16,
        value == wire::le_value(bytes),
    ensures
        holds(bytes, 0, 16, value as int),
{
    wire::le_decode_encode(bytes);
    assert forall|k: int| 0 <= k < 16 implies #[trigger] bytes[0 + k] == (value as int / pow(
        256,
        k as nat,
    )) % 256 by {
        wire::le_bytes_digit(value as nat, 16, k);
    }
}

/// Whether a version has the three parts that a packed number holds: the high half,
/// and the two bytes below it.
pub open spec fn unpacks(v: NvmeVersion, ver: u32) -> bool {
    &&& v.major as int * 0x1_0000 + v.minor as int * 0x100 + v.tertiary as int == ver
}

/// A version is unpacked into its parts.
pub proof fn versions(ver: u32, v: NvmeVersion)
    requires
        call_ensures(NvmeVersion::from_raw, (ver,), v),
    ensures
        unpacks(v, ver),
{
    v.unpack_undoes_pack(ver);
}

/// The text of a version is its three parts in decimal, separated by dots.
pub proof fn version_texts(v: NvmeVersion, r: String)
    requires
        call_ensures(NvmeVersion::to_string, (&v,), r),
    ensures
        r@ == text::decimal(v.major as nat) + seq!['.'] + text::decimal(v.minor as nat) + seq!['.']
            + text::decimal(v.tertiary as nat),
{
    reveal_strlit(".");
    assert("."@ =~= seq!['.']);
}

/// Whether `f` is what a raw LBA format says: metadata size, two to the power of the
/// size exponent, and the two low bits of the performance field.
pub open spec fn format_of(f: LbaFormat, raw: Lbaf) -> bool {
    &&& f.metadata_size == raw.ms
    &&& f.relative_performance as int == raw.rp as int % 4
    &&& f.data_size_bytes == (if raw.ds == 0 {
        0
    } else {
        pow2(raw.ds as nat)
    })
}

/// An LBA format is decoded field by field.
pub proof fn formats(raw: Lbaf, f: LbaFormat)
    requires
        raw.ds < 32,
        call_ensures(LbaFormat::from_raw, (raw,), f),
    ensures
        format_of(f, raw),
{
}

/// What an Identify Controller structure reports is what the device gave: numbers as
/// they are, texts without the blanks at the ends, and capacities as the numbers that
/// their bytes hold, least significant first.
#[verifier::spinoff_prover]
pub proof fn controllers(raw: IdCtrl, x: IdentifyController)
    requires
        call_ensures(IdentifyController::from_raw, (raw,), x),
    ensures
        forall|r: u16|
            #[trigger] call_ensures(IdentifyController::vendor_id, (&x,), r) ==> r == raw.vid,
        forall|r: u16|
            #[trigger] call_ensures(IdentifyController::subsystem_vendor_id, (&x,), r)
                ==> r == raw.ssvid,
        forall|r: u8|
            #[trigger] call_ensures(IdentifyController::max_data_transfer_size_exp, (&x,), r)
                ==> r == raw.mdts,
        forall|r: u16|
            #[trigger] call_ensures(IdentifyController::controller_id, (&x,), r)
                ==> r == raw.cntlid,
        forall|r: u8|
            #[trigger] call_ensures(IdentifyController::controller_type, (&x,), r)
                ==> r == raw.cntrltype,
        forall|r: u16|
            #[trigger] call_ensures(IdentifyController::optional_admin_command_support, (&x,), r)
                ==> r == raw.oacs,
        forall|r: u8|
            #[trigger] call_ensures(IdentifyController::abort_command_limit, (&x,), r)
                ==> r == raw.acl,
        forall|r: u8|
            #[trigger] call_ensures(IdentifyController::async_event_request_limit, (&x,), r)
                ==> r == raw.aerl,
        forall|r: u8|
            #[trigger] call_ensures(IdentifyController::firmware_updates, (&x,), r)
                ==> r == raw.frmw,
        forall|r: u8|
            #[trigger] call_ensures(IdentifyController::log_page_attributes, (&x,), r)
                ==> r == raw.lpa,
        forall|r: u8|
            #[trigger] call_ensures(IdentifyController::error_log_page_entries, (&x,), r)
                ==> r == raw.elpe,
        forall|r: u8|
            #[trigger] call_ensures(IdentifyController::num_power_states, (&x,), r)
                ==> r == raw.npss,
        forall|r: u16|
            #[trigger] call_ensures(IdentifyController::warning_temp_threshold_kelvin, (&x,), r)
                ==> r == raw.wctemp,
        forall|r: u16|
            #[trigger] call_ensures(IdentifyController::critical_temp_threshold_kelvin, (&x,), r)
                ==> r == raw.cctemp,
        forall|r: u32|
            #[trigger] call_ensures(IdentifyController::host_memory_buffer_preferred_size, (&x,), r)
                ==> r == raw.hmpre,
        forall|r: u32|
            #[trigger] call_ensures(IdentifyController::host_memory_buffer_min_size, (&x,), r)
                ==> r == raw.hmmin,
        forall|r: u8|
            #[trigger] call_ensures(IdentifyController::submission_queue_entry_size, (&x,), r)
                ==> r == raw.sqes,
        forall|r: u8|
            #[trigger] call_ensures(IdentifyController::completion_queue_entry_size, (&x,), r)
                ==> r == raw.cqes,
        forall|r: u16|
            #[trigger] call_ensures(IdentifyController::max_commands_outstanding, (&x,), r)
                ==> r == raw.maxcmd,
        forall|r: u32|
            #[trigger] call_ensures(IdentifyController::num_namespaces, (&x,), r) ==> r == raw.nn,
        forall|r: [u8; 3]|
            #[trigger] call_ensures(IdentifyController::ieee_oui, (&x,), r) ==> r == raw.ieee,
        forall|r: [u8; 16]|
            #[trigger] call_ensures(IdentifyController::fru_guid, (&x,), r) ==> r == raw.fguid,
        forall|r: NvmeVersion|
            #[trigger] call_ensures(IdentifyController::nvme_version, (&x,), r)
                ==> unpacks(r, raw.ver),
        forall|r: Result<&str>|
            #[trigger] call_ensures(IdentifyController::serial_number, (&x,), r)
                ==> reads_core(r, raw.sn@),
        forall|r: Result<&str>|
            #[trigger] call_ensures(IdentifyController::model_number, (&x,), r)
                ==> reads_core(r, raw.mn@),
        forall|r: Result<&str>|
            #[trigger] call_ensures(IdentifyController::firmware_revision, (&x,), r)
                ==> reads_core(r, raw.fr@),
        forall|r: u128|
            #[trigger] call_ensures(IdentifyController::total_nvm_capacity_bytes, (&x,), r)
                ==> holds(raw.tnvmcap@, 0, 16, r as int),
        forall|r: u128|
            #[trigger] call_ensures(IdentifyController::unallocated_nvm_capacity_bytes, (&x,), r)
                ==> holds(raw.unvmcap@, 0, 16, r as int),
{
    let (i, j) = trimmed_is_the_core(raw.sn@);
    assert(core_of(raw.sn@, i, j));
    let (i, j) = trimmed_is_the_core(raw.mn@);
    assert(core_of(raw.mn@, i, j));
    let (i, j) = trimmed_is_the_core(raw.fr@);
    assert(core_of(raw.fr@, i, j));
    NvmeVersion::of(raw.ver).unpack_undoes_pack(raw.ver);
    assert forall|r: u128| #[trigger] call_ensures(IdentifyController::total_nvm_capacity_bytes, (&x,), r) implies holds(raw.tnvmcap@, 0, 16, r as int) by {
        capacity_holds(raw.tnvmcap@, r);
    }
    assert forall|r: u128| #[trigger] call_ensures(IdentifyController::unallocated_nvm_capacity_bytes, (&x,), r) implies holds(raw.unvmcap@, 0, 16, r as int) by {
        capacity_holds(raw.unvmcap@, r);
    }
}

/// What an Identify Namespace structure reports is what the device gave: numbers as
/// they are, and the capacity as the number that its bytes hold.
#[verifier::spinoff_prover]
pub proof fn namespaces(raw: IdNs, x: IdentifyNamespace)
    requires
        call_ensures(IdentifyNamespace::from_raw, (raw,), x),
    ensures
        forall|r: u64|
            #[trigger] call_ensures(IdentifyNamespace::size_lbas, (&x,), r) ==> r == raw.nsze,
        forall|r: u64|
            #[trigger] call_ensures(IdentifyNamespace::capacity_lbas, (&x,), r) ==> r == raw.ncap,
        forall|r: u64|
            #[trigger] call_ensures(IdentifyNamespace::utilization_lbas, (&x,), r)
                ==> r == raw.nuse,
        forall|r: u8|
            #[trigger] call_ensures(IdentifyNamespace::features, (&x,), r) ==> r == raw.nsfeat,
        forall|r: u8|
            #[trigger] call_ensures(IdentifyNamespace::num_lba_formats, (&x,), r)
                ==> r == raw.nlbaf,
        forall|r: u8|
            #[trigger] call_ensures(IdentifyNamespace::formatted_lba_size, (&x,), r)
                ==> r == raw.flbas,
        forall|r: u8|
            #[trigger] call_ensures(IdentifyNamespace::metadata_capabilities, (&x,), r)
                ==> r == raw.mc,
        forall|r: u8|
            #[trigger] call_ensures(IdentifyNamespace::data_protection_capabilities, (&x,), r)
                ==> r == raw.dpc,
        forall|r: u8|
            #[trigger] call_ensures(IdentifyNamespace::data_protection_setting, (&x,), r)
                ==> r == raw.dps,
        forall|r: u8|
            #[trigger] call_ensures(IdentifyNamespace::multipath_capabilities, (&x,), r)
                ==> r == raw.nmic,
        forall|r: u8|
            #[trigger] call_ensures(IdentifyNamespace::reservation_capabilities, (&x,), r)
                ==> r == raw.rescap,
        forall|r: u16|
            #[trigger] call_ensures(IdentifyNamespace::atomic_write_unit_normal, (&x,), r)
                ==> r == raw.nawun,
        forall|r: [u8; 16]|
            #[trigger] call_ensures(IdentifyNamespace::nguid, (&x,), r) ==> r == raw.nguid,
        forall|r: [u8; 8]|
            #[trigger] call_ensures(IdentifyNamespace::eui64, (&x,), r) ==> r == raw.eui64,
        forall|r: u128|
            #[trigger] call_ensures(IdentifyNamespace::nvm_capacity_bytes, (&x,), r)
                ==> holds(raw.nvmcap@, 0, 16, r as int),
{
    assert forall|r: u128| #[trigger] call_ensures(IdentifyNamespace::nvm_capacity_bytes, (&x,), r) implies holds(raw.nvmcap@, 0, 16, r as int) by {
        capacity_holds(raw.nvmcap@, r);
    }
}

/// An LBA format is reported exactly where the index is below 64 and the format has a
/// size, and the current one is that of the low four bits of the formatted LBA size.
/// Every size exponent below 32 fits, and nothing is read beyond index 63.
#[verifier::spinoff_prover]
pub proof fn lba_formats(raw: IdNs, x: IdentifyNamespace, index: u8)
    requires
        call_ensures(IdentifyNamespace::from_raw, (raw,), x),
    ensures
        forall|r: bool| #[trigger]
            call_ensures(IdentifyNamespace::lba_size_fits, (&x, index), r) ==> (r <==> index >= 64
                || raw.lbaf@[index as int].ds < 32),
        forall|r: Option<LbaFormat>| #[trigger]
            call_ensures(IdentifyNamespace::lba_format, (&x, index), r) ==> (match r {
                Some(f) => index < 64 && raw.lbaf@[index as int].ds > 0 && format_of(
                    f,
                    raw.lbaf@[index as int],
                ),
                None => index >= 64 || raw.lbaf@[index as int].ds == 0,
            }),
        forall|r: Option<LbaFormat>| #[trigger]
            call_ensures(IdentifyNamespace::current_lba_format, (&x,), r) ==> ({
                let at = raw.flbas as int % 16;
                match r {
                    Some(f) => raw.lbaf@[at].ds > 0 && format_of(f, raw.lbaf@[at]),
                    None => raw.lbaf@[at].ds == 0,
                }
            }),
{
}

/// An LBA format can be asked for wherever its size fits, and the current one
/// wherever the size of the format at the low four bits fits.
pub proof fn lba_formats_can_be_asked_for(raw: IdNs, x: IdentifyNamespace, index: u8)
    requires
        call_ensures(IdentifyNamespace::from_raw, (raw,), x),
    ensures
        index >= 64 || raw.lbaf@[index as int].ds < 32 ==> call_requires(
            IdentifyNamespace::lba_format,
            (&x, index),
        ),
        raw.lbaf@[raw.flbas as int % 16].ds < 32 ==> call_requires(
            IdentifyNamespace::current_lba_format,
            (&x,),
        ),
{
}

} // verus!
