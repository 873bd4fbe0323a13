//! Identify Controller and Identify Namespace data structures.
//!
//! These are the payloads returned by the NVMe Identify admin command
//! (CNS = 01h and 00h respectively), with decoded accessors.

use crate::error::Result;
use crate::text::push_decimal;
use crate::util::fixed_ascii_to_str;
use crate::wire::u128_from_le_bytes;
use crate::{text, util, wire};
use vstd::prelude::*;
use vstd::string::StringExecFns;

verus! {

/// Decoded NVMe version, as reported by the controller's `VER` register and the
/// `vs` field of Identify Controller.
#[derive(Debug, Clone, Copy, PartialEq, Eq, Structural)]
pub struct NvmeVersion {
    /// Major version number (MJR).
    pub major: u16,
    /// Minor version number (MNR).
    pub minor: u8,
    /// Tertiary version number (TER).
    pub tertiary: u8,
}

impl NvmeVersion {
    /// The version that the register value `ver` stands for.
    pub open spec fn of(ver: u32) -> Self {
        NvmeVersion {
            major: (ver / 0x1_0000) as u16,
            minor: (ver / 0x100 % 0x100) as u8,
            tertiary: (ver % 0x100) as u8,
        }
    }

    /// The register value of this version.
    pub open spec fn packed(self) -> int {
        self.major * 0x1_0000 + self.minor * 0x100 + self.tertiary
    }

    /// The version in dotted form.
    pub open spec fn text(self) -> Seq<char> {
        text::decimal(self.major as nat) + "."@ + text::decimal(self.minor as nat) + "."@
            + text::decimal(self.tertiary as nat)
    }

    /// Register values and versions correspond one to one.
    pub proof fn unpack_undoes_pack(self, ver: u32)
        ensures
            Self::of(ver).packed() == ver,
            0 <= self.packed() <= u32::MAX,
            Self::of(self.packed() as u32) == self,
    {
        let (a, b, c) = (self.major, self.minor, self.tertiary);
        let p: u32 = ((a as u32) << 16) | ((b as u32) << 8) | (c as u32);
        assert(p == a * 0x1_0000 + b * 0x100 + c && p / 0x1_0000 == a && p / 0x100 % 0x100 == b && p
            % 0x100 == c) by (bit_vector)
            requires
                p == ((a as u32) << 16) | ((b as u32) << 8) | (c as u32),
        ;
        assert((ver / 0x1_0000) * 0x1_0000 + (ver / 0x100 % 0x100) * 0x100 + ver % 0x100 == ver)
            by (bit_vector);
        assert(ver / 0x1_0000 <= 0xffff && ver / 0x100 % 0x100 <= 0xff && ver % 0x100 <= 0xff)
            by (bit_vector);
    }

    /// Decode the `VER` register.
    pub fn from_raw(ver: u32) -> (r: Self)
        ensures
            r == Self::of(ver),
    {
        assert((ver >> 16) as u16 == ver / 0x1_0000) by (bit_vector);
        assert((ver >> 8) as u8 == ver / 0x100 % 0x100) by (bit_vector);
        assert(ver as u8 == ver % 0x100) by (bit_vector);
        NvmeVersion { major: (ver >> 16) as u16, minor: (ver >> 8) as u8, tertiary: ver as u8 }
    }

    /// The version in dotted form, e.g. `1.4.2`.
    pub fn to_string(&self) -> (r: String)
        ensures
            r@ == self.text(),
    {
        let mut out = String::new();
        push_decimal(&mut out, self.major as u64);
        out.append(".");
        push_decimal(&mut out, self.minor as u64);
        out.append(".");
        push_decimal(&mut out, self.tertiary as u64);
        assert(out@ =~= self.text());
        out
    }
}

/// One raw LBA format descriptor.
#[derive(Debug, Clone, Copy, PartialEq, Eq, Structural)]
pub struct Lbaf {
    /// Metadata size in bytes.
    pub ms: u16,
    /// Data size, as an exponent of two; `0` if unsupported.
    pub ds: u8,
    /// Relative performance, in the lower two bits.
    pub rp: u8,
}

/// One LBA format entry from Identify Namespace.
///
/// A namespace declares up to 64 supported formats; the active one is selected
/// by the lower bits of `flbas`. `data_size_bytes` is `2 ^ ds` of the raw
/// descriptor; a value of `0` means the format is unsupported.
#[derive(Debug, Clone, Copy, PartialEq, Eq, Structural)]
pub struct LbaFormat {
    /// Metadata size in bytes per LBA (MS).
    pub metadata_size: u16,
    /// Logical block data size in bytes (`2 ^ ds`); `0` if unsupported.
    pub data_size_bytes: u32,
    /// Relative Performance (RP) - lower is better (2-bit field).
    pub relative_performance: u8,
}

impl LbaFormat {
    /// Whether this is what the descriptor `raw` stands for.
    pub open spec fn decodes(self, raw: Lbaf) -> bool {
        &&& self.metadata_size == raw.ms
        &&& self.data_size_bytes == if raw.ds == 0 {
            0
        } else {
            vstd::arithmetic::power2::pow2(raw.ds as nat)
        }
        &&& self.relative_performance == raw.rp % 4
    }

    /// A decoded data size is `0` exactly where the descriptor says unsupported,
    /// and a power of two from `2` on otherwise; the performance has two bits.
    pub proof fn size_is_zero_or_power_of_two(self, raw: Lbaf)
        requires
            self.decodes(raw),
        ensures
            self.data_size_bytes == 0 <==> raw.ds == 0,
            raw.ds > 0 ==> self.data_size_bytes >= 2,
            raw.ds > 0 ==> self.data_size_bytes == vstd::arithmetic::power2::pow2(raw.ds as nat),
            self.relative_performance < 4,
    {
        if raw.ds > 0 {
            vstd::arithmetic::power2::lemma_pow2_strictly_increases(0, raw.ds as nat);
            vstd::arithmetic::power2::lemma2_to64();
        }
    }

    /// Decode a raw descriptor.
    pub fn from_raw(raw: Lbaf) -> (r: Self)
        requires
            raw.ds < 32,
        ensures
            r.decodes(raw),
    {
        let rp: u8 = raw.rp;
        assert(rp & 0x3 == rp % 4) by (bit_vector);
        let data_size_bytes: u32 = if raw.ds == 0 {
            0
        } else {
            proof {
                vstd::bits::lemma_u32_pow2_no_overflow(raw.ds as nat);
                vstd::bits::lemma_u32_shl_is_mul(1, raw.ds as u32);
            }
            1u32 << (raw.ds as u32)
        };
        LbaFormat { metadata_size: raw.ms, data_size_bytes, relative_performance: rp & 0x3 }
    }
}

/// The fields of the Identify Controller data structure that are decoded here.
#[derive(Debug, Clone, Copy)]
pub struct IdCtrl {
    /// VID.
    pub vid: u16,
    /// SSVID.
    pub ssvid: u16,
    /// SN.
    pub sn: [u8; 20],
    /// MN.
    pub mn: [u8; 40],
    /// FR.
    pub fr: [u8; 8],
    /// IEEE.
    pub ieee: [u8; 3],
    /// MDTS.
    pub mdts: u8,
    /// CNTLID.
    pub cntlid: u16,
    /// VER.
    pub ver: u32,
    /// CNTRLTYPE.
    pub cntrltype: u8,
    /// FGUID.
    pub fguid: [u8; 16],
    /// OACS.
    pub oacs: u16,
    /// ACL.
    pub acl: u8,
    /// AERL.
    pub aerl: u8,
    /// FRMW.
    pub frmw: u8,
    /// LPA.
    pub lpa: u8,
    /// ELPE.
    pub elpe: u8,
    /// NPSS.
    pub npss: u8,
    /// WCTEMP.
    pub wctemp: u16,
    /// CCTEMP.
    pub cctemp: u16,
    /// HMPRE.
    pub hmpre: u32,
    /// HMMIN.
    pub hmmin: u32,
    /// TNVMCAP.
    pub tnvmcap: [u8; 16],
    /// UNVMCAP.
    pub unvmcap: [u8; 16],
    /// SQES.
    pub sqes: u8,
    /// CQES.
    pub cqes: u8,
    /// MAXCMD.
    pub maxcmd: u16,
    /// NN.
    pub nn: u32,
}

/// Decoded Identify Controller (CNS 01h) data structure.
///
/// Accessors decode individual fields on demand. Field naming spells out the
/// NVMe abbreviations where that reads better (e.g. `vendor_id`, not `vid`).
pub struct IdentifyController {
    inner: IdCtrl,
}

impl View for IdentifyController {
    type V = IdCtrl;

    closed spec fn view(&self) -> IdCtrl {
        self.inner
    }
}

impl IdentifyController {
    /// Wrap the data that a controller returned.
    pub fn from_raw(inner: IdCtrl) -> (r: Self)
        ensures
            r@ == inner,
    {
        IdentifyController { inner }
    }

    /// PCI vendor ID (VID).
    pub fn vendor_id(&self) -> (r: u16)
        ensures
            r == self@.vid,
    {
        self.inner.vid
    }

    /// PCI subsystem vendor ID (SSVID).
    pub fn subsystem_vendor_id(&self) -> (r: u16)
        ensures
            r == self@.ssvid,
    {
        self.inner.ssvid
    }

    /// 20-byte ASCII serial number, trimmed.
    pub fn serial_number(&self) -> (r: Result<&str>)
        ensures
            util::decodes_to(r, util::trimmed(self@.sn@)),
    {
        fixed_ascii_to_str(self.inner.sn.as_slice())
    }

    /// 40-byte ASCII model number, trimmed.
    pub fn model_number(&self) -> (r: Result<&str>)
        ensures
            util::decodes_to(r, util::trimmed(self@.mn@)),
    {
        fixed_ascii_to_str(self.inner.mn.as_slice())
    }

    /// 8-byte ASCII firmware revision, trimmed.
    pub fn firmware_revision(&self) -> (r: Result<&str>)
        ensures
            util::decodes_to(r, util::trimmed(self@.fr@)),
    {
        fixed_ascii_to_str(self.inner.fr.as_slice())
    }

    /// IEEE OUI (3-byte company identifier), in little-endian byte order.
    pub fn ieee_oui(&self) -> (r: [u8; 3])
        ensures
            r == self@.ieee,
    {
        self.inner.ieee
    }

    /// Maximum data transfer size, as an exponent of the controller's minimum
    /// memory-page size. `0` means no limit.
    pub fn max_data_transfer_size_exp(&self) -> (r: u8)
        ensures
            r == self@.mdts,
    {
        self.inner.mdts
    }

    /// 16-bit controller identifier.
    pub fn controller_id(&self) -> (r: u16)
        ensures
            r == self@.cntlid,
    {
        self.inner.cntlid
    }

    /// NVMe version supported by the controller.
    pub fn nvme_version(&self) -> (r: NvmeVersion)
        ensures
            r == NvmeVersion::of(self@.ver),
    {
        NvmeVersion::from_raw(self.inner.ver)
    }

    /// Controller type: `1` = I/O, `2` = Discovery, `3` = Administrative.
    pub fn controller_type(&self) -> (r: u8)
        ensures
            r == self@.cntrltype,
    {
        self.inner.cntrltype
    }

    /// 16-byte FRU Globally Unique Identifier.
    pub fn fru_guid(&self) -> (r: [u8; 16])
        ensures
            r == self@.fguid,
    {
        self.inner.fguid
    }

    /// Optional Admin Command Support bitfield (OACS).
    pub fn optional_admin_command_support(&self) -> (r: u16)
        ensures
            r == self@.oacs,
    {
        self.inner.oacs
    }

    /// Abort command limit (ACL).
    pub fn abort_command_limit(&self) -> (r: u8)
        ensures
            r == self@.acl,
    {
        self.inner.acl
    }

    /// Async event request limit (AERL).
    pub fn async_event_request_limit(&self) -> (r: u8)
        ensures
            r == self@.aerl,
    {
        self.inner.aerl
    }

    /// Firmware updates bitfield (FRMW).
    pub fn firmware_updates(&self) -> (r: u8)
        ensures
            r == self@.frmw,
    {
        self.inner.frmw
    }

    /// Log Page Attributes bitfield (LPA).
    pub fn log_page_attributes(&self) -> (r: u8)
        ensures
            r == self@.lpa,
    {
        self.inner.lpa
    }

    /// Number of supported error log page entries (ELPE).
    pub fn error_log_page_entries(&self) -> (r: u8)
        ensures
            r == self@.elpe,
    {
        self.inner.elpe
    }

    /// Number of power states supported, zero-based (NPSS).
    pub fn num_power_states(&self) -> (r: u8)
        ensures
            r == self@.npss,
    {
        self.inner.npss
    }

    /// Warning composite temperature threshold in Kelvin (WCTEMP).
    pub fn warning_temp_threshold_kelvin(&self) -> (r: u16)
        ensures
            r == self@.wctemp,
    {
        self.inner.wctemp
    }

    /// Critical composite temperature threshold in Kelvin (CCTEMP).
    pub fn critical_temp_threshold_kelvin(&self) -> (r: u16)
        ensures
            r == self@.cctemp,
    {
        self.inner.cctemp
    }

    /// Host Memory Buffer preferred size in 4 KiB units (HMPRE).
    pub fn host_memory_buffer_preferred_size(&self) -> (r: u32)
        ensures
            r == self@.hmpre,
    {
        self.inner.hmpre
    }

    /// Host Memory Buffer minimum size in 4 KiB units (HMMIN).
    pub fn host_memory_buffer_min_size(&self) -> (r: u32)
        ensures
            r == self@.hmmin,
    {
        self.inner.hmmin
    }

    /// Total NVM Capacity in bytes (TNVMCAP), as a 128-bit little-endian integer.
    pub fn total_nvm_capacity_bytes(&self) -> (r: u128)
        ensures
            r == wire::le_value(self@.tnvmcap@),
    {
        u128_from_le_bytes(&self.inner.tnvmcap)
    }

    /// Unallocated NVM Capacity in bytes (UNVMCAP).
    pub fn unallocated_nvm_capacity_bytes(&self) -> (r: u128)
        ensures
            r == wire::le_value(self@.unvmcap@),
    {
        u128_from_le_bytes(&self.inner.unvmcap)
    }

    /// Submission Queue Entry Size encoding (SQES).
    ///
    /// Bits 0-3: required size; bits 4-7: maximum size. The actual byte size
    /// is `2 ^ value`.
    pub fn submission_queue_entry_size(&self) -> (r: u8)
        ensures
            r == self@.sqes,
    {
        self.inner.sqes
    }

    /// Completion Queue Entry Size encoding (CQES).
    pub fn completion_queue_entry_size(&self) -> (r: u8)
        ensures
            r == self@.cqes,
    {
        self.inner.cqes
    }

    /// Maximum outstanding commands (MAXCMD). `0` means no limit reported.
    pub fn max_commands_outstanding(&self) -> (r: u16)
        ensures
            r == self@.maxcmd,
    {
        self.inner.maxcmd
    }

    /// Number of namespaces supported (NN).
    pub fn num_namespaces(&self) -> (r: u32)
        ensures
            r == self@.nn,
    {
        self.inner.nn
    }
}

/// The fields of the Identify Namespace data structure that are decoded here.
#[derive(Debug, Clone, Copy)]
pub struct IdNs {
    /// NSZE.
    pub nsze: u64,
    /// NCAP.
    pub ncap: u64,
    /// NUSE.
    pub nuse: u64,
    /// NSFEAT.
    pub nsfeat: u8,
    /// NLBAF.
    pub nlbaf: u8,
    /// FLBAS.
    pub flbas: u8,
    /// MC.
    pub mc: u8,
    /// DPC.
    pub dpc: u8,
    /// DPS.
    pub dps: u8,
    /// NMIC.
    pub nmic: u8,
    /// RESCAP.
    pub rescap: u8,
    /// NVMCAP.
    pub nvmcap: [u8; 16],
    /// NAWUN.
    pub nawun: u16,
    /// NGUID.
    pub nguid: [u8; 16],
    /// EUI64.
    pub eui64: [u8; 8],
    /// LBAF, the supported LBA formats.
    pub lbaf: [Lbaf; 64],
}

/// Decoded Identify Namespace (CNS 00h) data structure.
pub struct IdentifyNamespace {
    inner: IdNs,
}

impl View for IdentifyNamespace {
    type V = IdNs;

    closed spec fn view(&self) -> IdNs {
        self.inner
    }
}

impl IdentifyNamespace {
    /// Whether the size of the format in slot `index` fits 32 bits. A slot out
    /// of range has no size.
    pub open spec fn size_fits(self, index: u8) -> bool {
        index < 64 ==> self@.lbaf@[index as int].ds < 32
    }

    /// Whether `r` is the supported format in slot `index`, if there is one.
    pub open spec fn is_format(self, index: u8, r: Option<LbaFormat>) -> bool {
        if index < 64 && self@.lbaf@[index as int].ds > 0 {
            r matches Some(f) && f.decodes(self@.lbaf@[index as int])
        } else {
            r is None
        }
    }

    /// Wrap the data that a namespace returned.
    pub fn from_raw(inner: IdNs) -> (r: Self)
        ensures
            r@ == inner,
    {
        IdentifyNamespace { inner }
    }

    /// Namespace size in logical blocks (NSZE).
    pub fn size_lbas(&self) -> (r: u64)
        ensures
            r == self@.nsze,
    {
        self.inner.nsze
    }

    /// Namespace capacity in logical blocks (NCAP).
    pub fn capacity_lbas(&self) -> (r: u64)
        ensures
            r == self@.ncap,
    {
        self.inner.ncap
    }

    /// Namespace utilization in logical blocks (NUSE).
    pub fn utilization_lbas(&self) -> (r: u64)
        ensures
            r == self@.nuse,
    {
        self.inner.nuse
    }

    /// Namespace features bitfield (NSFEAT).
    pub fn features(&self) -> (r: u8)
        ensures
            r == self@.nsfeat,
    {
        self.inner.nsfeat
    }

    /// Number of supported LBA formats, zero-based (NLBAF).
    pub fn num_lba_formats(&self) -> (r: u8)
        ensures
            r == self@.nlbaf,
    {
        self.inner.nlbaf
    }

    /// Formatted LBA Size byte (FLBAS) - encodes which LBA format is active
    /// in the lower 4 bits (combined with NULBAF bits for extended encoding).
    pub fn formatted_lba_size(&self) -> (r: u8)
        ensures
            r == self@.flbas,
    {
        self.inner.flbas
    }

    /// Metadata Capabilities bitfield (MC).
    pub fn metadata_capabilities(&self) -> (r: u8)
        ensures
            r == self@.mc,
    {
        self.inner.mc
    }

    /// End-to-end Data Protection Capabilities (DPC).
    pub fn data_protection_capabilities(&self) -> (r: u8)
        ensures
            r == self@.dpc,
    {
        self.inner.dpc
    }

    /// End-to-end Data Protection Type Settings (DPS).
    pub fn data_protection_setting(&self) -> (r: u8)
        ensures
            r == self@.dps,
    {
        self.inner.dps
    }

    /// Namespace Multi-path I/O and Namespace Sharing Capabilities (NMIC).
    pub fn multipath_capabilities(&self) -> (r: u8)
        ensures
            r == self@.nmic,
    {
        self.inner.nmic
    }

    /// Reservation Capabilities bitfield (RESCAP).
    pub fn reservation_capabilities(&self) -> (r: u8)
        ensures
            r == self@.rescap,
    {
        self.inner.rescap
    }

    /// NVM Capacity in bytes (NVMCAP), 128-bit little-endian.
    pub fn nvm_capacity_bytes(&self) -> (r: u128)
        ensures
            r == wire::le_value(self@.nvmcap@),
    {
        u128_from_le_bytes(&self.inner.nvmcap)
    }

    /// Namespace Atomic Write Unit Normal (NAWUN), in LBAs minus one.
    pub fn atomic_write_unit_normal(&self) -> (r: u16)
        ensures
            r == self@.nawun,
    {
        self.inner.nawun
    }

    /// 128-bit Namespace Globally Unique Identifier.
    pub fn nguid(&self) -> (r: [u8; 16])
        ensures
            r == self@.nguid,
    {
        self.inner.nguid
    }

    /// 64-bit IEEE Extended Unique Identifier.
    pub fn eui64(&self) -> (r: [u8; 8])
        ensures
            r == self@.eui64,
    {
        self.inner.eui64
    }

    /// Whether the size of the format in slot `index` fits 32 bits, so that the
    /// format can be looked up. The device supplies the size.
    pub fn lba_size_fits(&self, index: u8) -> (r: bool)
        ensures
            r == self.size_fits(index),
    {
        index >= 64 || self.inner.lbaf[index as usize].ds < 32
    }

    /// Look up an LBA format by index. Returns `None` if `index` is out of
    /// range (>= 64) or the format slot is unsupported (`data_size_bytes == 0`).
    pub fn lba_format(&self, index: u8) -> (r: Option<LbaFormat>)
        requires
            self.size_fits(index),
        ensures
            self.is_format(index, r),
    {
        if index >= 64 {
            return None;
        }
        let raw: Lbaf = self.inner.lbaf[index as usize];
        let format = LbaFormat::from_raw(raw);
        proof {
            format.size_is_zero_or_power_of_two(raw);
        }
        if format.data_size_bytes == 0 {
            None
        } else {
            Some(format)
        }
    }

    /// Active LBA format, as selected by the low bits of `flbas`.
    pub fn current_lba_format(&self) -> (r: Option<LbaFormat>)
        requires
            self.size_fits((self@.flbas % 16) as u8),
        ensures
            self.is_format((self@.flbas % 16) as u8, r),
    {
        let flbas: u8 = self.formatted_lba_size();
        assert(flbas & 0x0F == flbas % 16) by (bit_vector);
        let idx: u8 = flbas & 0x0F;
        self.lba_format(idx)
    }
}

} // verus!
