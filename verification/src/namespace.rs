//! Namespaces, and the commands that are scoped to one.

use crate::admin::{MetadataSettings, ProtectionInfo, ProtectionLocation, SecureErase};
use crate::commands::PassthruCommand;
use crate::directives::{
    DirectiveRecv, DirectiveRecvOp, DirectiveSend, DirectiveSendOp, DirectiveType,
};
use crate::error::{Error, Result};
use crate::io::{
    Compare, CopyRange, Dsm, DsmAttr, IoOpts, Read, ReadCommand, Verify, Write,
    WriteUncorrectable, WriteZeroes,
};
use crate::reservations::{
    ReservationAcquire, ReservationRegister, ReservationRelease, ReservationReport,
};
use crate::tree::Walk;
use crate::util::{cast_u32, cstr_to_str, trimmed_cstr_to_str};
use crate::wire::push_zeros;
use crate::zns::{ZnsAppend, ZnsMgmtRecv, ZnsMgmtSend, ZoneSendAction};
use crate::{directives, io, reservations, util, wire, zns};
use std::borrow::Cow;
use vstd::prelude::*;

verus! {

/// What libnvme reports of a namespace.
///
/// Numbers are as libnvme returns them; a string is the bytes of a C string,
/// and `None` stands for a NULL pointer.
#[derive(Debug, Clone, Copy)]
pub struct NamespaceAttrs<'r> {
    /// Kernel-assigned name.
    pub name: Option<&'r [u8]>,
    /// Generic-device name.
    pub generic_name: Option<&'r [u8]>,
    /// Model of the owning controller.
    pub model: Option<&'r [u8]>,
    /// Serial number of the owning controller.
    pub serial: Option<&'r [u8]>,
    /// Firmware revision of the owning controller.
    pub firmware: Option<&'r [u8]>,
    /// Namespace identifier.
    pub nsid: i32,
    /// Logical block size in bytes.
    pub lba_size: i32,
    /// Metadata bytes per logical block.
    pub meta_size: i32,
    /// Number of logical blocks.
    pub lba_count: u64,
    /// Number of allocated logical blocks.
    pub lba_util: u64,
    /// Command set identifier.
    pub csi: u32,
    /// Namespace UUID.
    pub uuid: [u8; 16],
    /// Namespace Globally Unique Identifier.
    pub nguid: Option<[u8; 16]>,
    /// IEEE Extended Unique Identifier.
    pub eui64: Option<[u8; 8]>,
}

/// An NVMe namespace.
///
/// Maps to a `/dev/nvmeXnY` block device. A namespace is an addressable region
/// of logical blocks, with its own LBA format, identifier(s), and size.
pub struct Namespace<'r> {
    attrs: NamespaceAttrs<'r>,
}

impl<'r> View for Namespace<'r> {
    type V = NamespaceAttrs<'r>;

    closed spec fn view(&self) -> NamespaceAttrs<'r> {
        self.attrs
    }
}

impl<'r> Namespace<'r> {
    /// The namespace identifier, as commands carry it.
    pub open spec fn id(&self) -> u32 {
        util::as_unsigned(self@.nsid)
    }

    /// The size of a logical block in bytes.
    pub open spec fn block_size(&self) -> u32 {
        util::as_unsigned(self@.lba_size)
    }

    /// A namespace with the attributes that libnvme reports.
    pub fn from_raw(attrs: NamespaceAttrs<'r>) -> (ns: Self)
        ensures
            ns@ == attrs,
    {
        Namespace { attrs }
    }

    /// Kernel-assigned namespace name, e.g. `nvme0n1`.
    pub fn name(&self) -> (r: Result<&'r str>)
        ensures
            util::cstr_outcome(r, util::opt_bytes(self@.name)),
    {
        cstr_to_str(self.attrs.name)
    }

    /// Generic-namespace name, e.g. `ng0n1`. The generic device exposes the
    /// namespace via `/dev/ng*` for passthrough I/O.
    pub fn generic_name(&self) -> (r: Result<&'r str>)
        ensures
            util::cstr_outcome(r, util::opt_bytes(self@.generic_name)),
    {
        cstr_to_str(self.attrs.generic_name)
    }

    /// Namespace identifier (1-based, unique within the controller).
    pub fn nsid(&self) -> (r: u32)
        ensures
            r == self.id(),
    {
        cast_u32(self.attrs.nsid)
    }

    /// Logical block size in bytes (typically 512 or 4096).
    pub fn lba_size(&self) -> (r: u32)
        ensures
            r == self.block_size(),
    {
        cast_u32(self.attrs.lba_size)
    }

    /// Metadata bytes per LBA, or `0` if metadata is not used in the active LBA
    /// format.
    pub fn meta_size(&self) -> (r: u32)
        ensures
            r == util::as_unsigned(self@.meta_size),
    {
        cast_u32(self.attrs.meta_size)
    }

    /// Total number of logical blocks in the namespace.
    pub fn lba_count(&self) -> (r: u64)
        ensures
            r == self@.lba_count,
    {
        self.attrs.lba_count
    }

    /// Number of logical blocks actually allocated within the namespace.
    pub fn lba_utilization(&self) -> (r: u64)
        ensures
            r == self@.lba_util,
    {
        self.attrs.lba_util
    }

    /// Total namespace size in bytes (`lba_count * lba_size`), capped at the
    /// largest `u64`.
    pub fn size_bytes(&self) -> (r: u64)
        ensures
            r as int == if self@.lba_count * self.block_size() <= u64::MAX {
                self@.lba_count * self.block_size()
            } else {
                u64::MAX as int
            },
    {
        match self.lba_count().checked_mul(self.lba_size() as u64) {
            Some(size) => size,
            None => u64::MAX,
        }
    }

    /// Command Set Identifier. `0` = NVM, `1` = Key-Value, `2` = Zoned.
    pub fn csi(&self) -> (r: u8)
        ensures
            r == self@.csi % 256,
    {
        (self.attrs.csi % 256) as u8
    }

    /// Model string of the controller that owns this namespace
    /// (whitespace-trimmed).
    pub fn model(&self) -> (r: Result<&'r str>)
        ensures
            util::cstr_outcome(r, util::opt_trimmed(self@.model)),
    {
        trimmed_cstr_to_str(self.attrs.model)
    }

    /// Serial number of the controller that owns this namespace
    /// (whitespace-trimmed).
    pub fn serial(&self) -> (r: Result<&'r str>)
        ensures
            util::cstr_outcome(r, util::opt_trimmed(self@.serial)),
    {
        trimmed_cstr_to_str(self.attrs.serial)
    }

    /// Firmware revision of the controller that owns this namespace
    /// (whitespace-trimmed).
    pub fn firmware(&self) -> (r: Result<&'r str>)
        ensures
            util::cstr_outcome(r, util::opt_trimmed(self@.firmware)),
    {
        trimmed_cstr_to_str(self.attrs.firmware)
    }

    /// 128-bit namespace UUID, or all-zero if not reported.
    pub fn uuid(&self) -> (r: [u8; 16])
        ensures
            r == self@.uuid,
    {
        self.attrs.uuid
    }

    /// 128-bit Namespace Globally Unique Identifier (NGUID), or all-zero.
    pub fn nguid(&self) -> (r: [u8; 16])
        ensures
            match self@.nguid {
                Some(id) => r == id,
                None => r@ == wire::zeros(16),
            },
    {
        match self.attrs.nguid {
            Some(id) => id,
            None => {
                let zero: [u8; 16] = [0;16];
                assert(zero@ =~= wire::zeros(16));
                zero
            },
        }
    }

    /// 64-bit IEEE Extended Unique Identifier (EUI-64), or all-zero.
    pub fn eui64(&self) -> (r: [u8; 8])
        ensures
            match self@.eui64 {
                Some(id) => r == id,
                None => r@ == wire::zeros(8),
            },
    {
        match self.attrs.eui64 {
            Some(id) => id,
            None => {
                let zero: [u8; 8] = [0;8];
                assert(zero@ =~= wire::zeros(8));
                zero
            },
        }
    }

    /// Begin building a Format NVM admin command for this namespace.
    ///
    /// # Warning
    ///
    /// **Destructive and irreversible.** Format NVM erases all user data in
    /// the namespace and applies the configured LBA format, protection
    /// settings, and secure-erase mode. There is no undo. The returned
    /// [`Format`] builder is inert; issuing the command that
    /// [`Format::execute`] returns is the destructive step.
    pub fn format(&self) -> (b: Format<'_, 'r>)
        ensures
            b@ == FormatCommand::initial(self.id()),
            b.target() == *self,
    {
        Format::new(self)
    }

    /// Build a Read command starting at `slba`, reading `nlb` blocks
    /// (1-based) into `buf`. `buf.len()` must equal `nlb * lba_size`.
    pub fn read<'a>(&'a self, slba: u64, nlb: u32, buf: &'a mut [u8]) -> (b: Read<'a, 'r>)
        ensures
            b@ == io::IoRequest::new(*self, slba, nlb, Some(old(buf)@)),
            b.data_buf()@ == old(buf)@,
            final(b.data_buf())@ == final(buf)@,
            b.metadata_buf() is None,
            b.target() == *self,
    {
        Read::new(self, slba, nlb, buf)
    }

    /// Convenience: make `buf` a zeroed buffer sized for `nlb` blocks and encode
    /// a Read into it: what the device fills in stands in `buf`. Defaults apply
    /// (no FUA, no protection-info checks). For finer control use
    /// [`Namespace::read`] with your own buffer.
    pub fn read_to_vec<'a>(&'a self, slba: u64, nlb: u32, buf: &'a mut Vec<u8>) -> (r: Result<
        ReadCommand<'a>,
    >)
        ensures
            if nlb * self.block_size() > usize::MAX {
                r matches Err(e) && e.rejects_with("nlb * lba_size overflows usize"@)
            } else {
                let req = io::IoRequest::new(
                    *self,
                    slba,
                    nlb,
                    Some(wire::zeros((nlb * self.block_size()) as nat)),
                );
                match req.refusal() {
                    Some(msg) => r matches Err(e) && e.rejects_with(msg),
                    None => r matches Ok(c) && c.encodes(req, io::OPC_READ) && final(c.data)@
                        == final(buf)@,
                }
            },
            r is Err ==> final(buf)@ == old(buf)@,
    {
        let len: usize = match (nlb as usize).checked_mul(self.lba_size() as usize) {
            Some(len) => len,
            None => return Err(
                Error::invalid_argument(Cow::Borrowed("nlb * lba_size overflows usize")),
            ),
        };
        io::encode_nlb(nlb)?;
        buf.clear();
        push_zeros(buf, len);
        assert(buf@ =~= wire::zeros(len as nat));
        io::read_command(self, slba, nlb, buf.as_mut_slice(), None, IoOpts::default())
    }

    /// Build a Write command. `buf.len()` must equal `nlb * lba_size`.
    pub fn write<'a>(&'a self, slba: u64, nlb: u32, buf: &'a [u8]) -> (b: Write<'a, 'r>)
        ensures
            b@ == io::IoRequest::new(*self, slba, nlb, Some(buf@)),
            b.target() == *self,
    {
        Write::new(self, slba, nlb, buf)
    }

    /// Build a Compare command - compares stored LBAs against `buf`.
    /// The device answers with status `0x85` if they differ.
    pub fn compare<'a>(&'a self, slba: u64, nlb: u32, buf: &'a [u8]) -> (b: Compare<'a, 'r>)
        ensures
            b@ == io::IoRequest::new(*self, slba, nlb, Some(buf@)),
            b.target() == *self,
    {
        Compare::new(self, slba, nlb, buf)
    }

    /// Build a Verify command. No host buffer - the controller reads and
    /// validates the LBA range internally.
    pub fn verify(&self, slba: u64, nlb: u32) -> (b: Verify<'_, 'r>)
        ensures
            b@ == io::IoRequest::new(*self, slba, nlb, None),
            b.target() == *self,
    {
        Verify::new(self, slba, nlb)
    }

    /// Build a Write Zeroes command.
    pub fn write_zeroes(&self, slba: u64, nlb: u32) -> (b: WriteZeroes<'_, 'r>)
        ensures
            b@ == io::IoRequest::new(*self, slba, nlb, None),
            b.target() == *self,
    {
        WriteZeroes::new(self, slba, nlb)
    }

    /// Build a Write Uncorrectable command. **Destructive:** the named LBAs
    /// become unreadable (return Unrecovered Read Error) until rewritten.
    pub fn write_uncorrectable(&self, slba: u64, nlb: u32) -> (b: WriteUncorrectable<'_, 'r>)
        ensures
            b@ == io::IoRequest::new(*self, slba, nlb, None),
            b.target() == *self,
    {
        WriteUncorrectable::new(self, slba, nlb)
    }

    /// A Flush command. Pushes the volatile write cache to media.
    pub fn flush(&self) -> (c: PassthruCommand<'static>)
        ensures
            io::is_flush(c, self.id()),
    {
        io::flush(self)
    }

    /// Build a Dataset Management command. Combine attributes with `|`,
    /// e.g. [`DsmAttr::deallocate`] for TRIM. Set the LBA ranges via
    /// [`Dsm::ranges`].
    pub fn dsm(&self, attrs: DsmAttr) -> (b: Dsm<'_, 'r>)
        ensures
            b@ == (io::DsmRequest {
                nsid: self.id(),
                attrs: attrs@,
                ranges: None,
                timeout_ms: 0,
            }),
            b.target() == *self,
    {
        Dsm::new(self, attrs)
    }

    /// Build a Copy command. `sdlba` is the destination LBA; `ranges` are
    /// the source ranges. Up to 128 ranges per command.
    pub fn copy<'a>(&'a self, sdlba: u64, ranges: &'a [CopyRange]) -> (b: io::Copy<'a, 'r>)
        ensures
            b@ == io::CopyRequest::new(self.id(), sdlba, ranges@),
            b.target() == *self,
    {
        io::Copy::new(self, sdlba, ranges)
    }

    /// Build a Reservation Acquire command. See [`ReservationAcquire`] for the
    /// chainable setters.
    pub fn reservation_acquire(&self) -> (b: ReservationAcquire<'_, 'r>)
        ensures
            b@ == reservations::ReservationAcquireCommand::initial(self.id()),
            b.target() == *self,
    {
        ReservationAcquire::new(self)
    }

    /// Build a Reservation Register command.
    pub fn reservation_register(&self) -> (b: ReservationRegister<'_, 'r>)
        ensures
            b@ == reservations::ReservationRegisterCommand::initial(self.id()),
            b.target() == *self,
    {
        ReservationRegister::new(self)
    }

    /// Build a Reservation Release command.
    pub fn reservation_release(&self) -> (b: ReservationRelease<'_, 'r>)
        ensures
            b@ == reservations::ReservationReleaseCommand::initial(self.id()),
            b.target() == *self,
    {
        ReservationRelease::new(self)
    }

    /// Build a Reservation Report command. Supply a buffer via
    /// [`ReservationReport::buffer`] (or use `execute_to_vec`).
    pub fn reservation_report(&self) -> (b: ReservationReport<'_, 'r>)
        ensures
            b@ == (reservations::ReservationReportRequest {
                nsid: self.id(),
                buf: None,
                eds: false,
                timeout_ms: 0,
            }),
            b.slot() is None,
            b.target() == *self,
    {
        ReservationReport::new(self)
    }

    /// Build a Directive Send command.
    pub fn directive_send(&self, dtype: DirectiveType, doper: DirectiveSendOp) -> (b: DirectiveSend<
        '_,
        'r,
    >)
        ensures
            b@ == directives::DirectiveRequest::new(self.id(), dtype.code(), doper.code()),
            b.target() == *self,
    {
        DirectiveSend::new(self, dtype, doper)
    }

    /// Build a Directive Receive command.
    pub fn directive_recv(&self, dtype: DirectiveType, doper: DirectiveRecvOp) -> (b: DirectiveRecv<
        '_,
        'r,
    >)
        ensures
            b@ == directives::DirectiveRequest::new(self.id(), dtype.code(), doper.code()),
            b.slot() is None,
            b.target() == *self,
    {
        DirectiveRecv::new(self, dtype, doper)
    }

    /// Build a Zone Management Send command.
    pub fn zns_mgmt_send(&self, slba: u64, action: ZoneSendAction) -> (b: ZnsMgmtSend<'_, 'r>)
        ensures
            b@ == (zns::ZnsMgmtSendRequest {
                nsid: self.id(),
                slba,
                zsa: action.code(),
                data: None,
                select_all: false,
                zsaso: 0,
                timeout_ms: 0,
            }),
            b.target() == *self,
    {
        ZnsMgmtSend::new(self, slba, action)
    }

    /// Build a Zone Management Receive command. Supply a buffer via
    /// [`ZnsMgmtRecv::buffer`].
    pub fn zns_mgmt_recv(&self, slba: u64) -> (b: ZnsMgmtRecv<'_, 'r>)
        ensures
            b@ == (zns::ZnsMgmtRecvRequest {
                nsid: self.id(),
                slba,
                zra: 0,
                zrasf: 0,
                partial: false,
                data: None,
                timeout_ms: 0,
            }),
            b.slot() is None,
            b.target() == *self,
    {
        ZnsMgmtRecv::new(self, slba)
    }

    /// Build a Zone Append command. Block count is 1-based.
    pub fn zns_append<'a>(&'a self, zslba: u64, nlb: u32, data: &'a [u8]) -> (b: ZnsAppend<'a, 'r>)
        ensures
            b@ == (zns::ZnsAppendRequest {
                nsid: self.id(),
                lba_size: self.block_size(),
                zslba,
                nlb,
                data: data@,
                metadata: None,
                ilbrt: 0,
                ilbrt_u64: 0,
                lbat: 0,
                lbatm: 0,
                control: 0,
                timeout_ms: 0,
            }),
            b.target() == *self,
    {
        ZnsAppend::new(self, zslba, nlb, data)
    }
}

/// A Format NVM command, ready to be issued: also the view of [`Format`].
#[derive(Debug, Clone, Copy, PartialEq, Eq, Structural)]
pub struct FormatCommand {
    /// Timeout in milliseconds.
    pub timeout: u32,
    /// Namespace identifier.
    pub nsid: u32,
    /// Metadata settings.
    pub mset: u32,
    /// Protection information.
    pub pi: u32,
    /// Protection information location.
    pub pil: u32,
    /// Secure erase settings.
    pub ses: u32,
    /// LBA format index, lower bits.
    pub lbaf: u8,
    /// LBA format index, upper bits.
    pub lbafu: u8,
}

impl FormatCommand {
    /// The Format NVM command on which nothing was set.
    pub open spec fn initial(nsid: u32) -> Self {
        FormatCommand {
            timeout: 0,
            nsid: nsid,
            mset: MetadataSettings::Separate.code(),
            pi: ProtectionInfo::Disabled.code(),
            pil: ProtectionLocation::Last.code(),
            ses: SecureErase::NoErase.code(),
            lbaf: 0,
            lbafu: 0,
        }
    }
}

/// Builder for the Format NVM admin command.
///
/// Created via [`Namespace::format`]. All fields default to "no-op /
/// conservative" values (LBA format 0, no secure erase, PI disabled),
/// so calling [`Format::execute`] without further chaining performs a
/// metadata-only format.
#[must_use]
pub struct Format<'a, 'r> {
    ns: &'a Namespace<'r>,
    lba_format: u8,
    secure_erase: SecureErase,
    protection_info: ProtectionInfo,
    protection_location: ProtectionLocation,
    metadata: MetadataSettings,
    lba_format_upper: u8,
    timeout_ms: u32,
}

impl<'a, 'r> View for Format<'a, 'r> {
    type V = FormatCommand;

    closed spec fn view(&self) -> FormatCommand {
        FormatCommand {
            timeout: self.timeout_ms,
            nsid: self.ns.id(),
            mset: self.metadata.code(),
            pi: self.protection_info.code(),
            pil: self.protection_location.code(),
            ses: self.secure_erase.code(),
            lbaf: self.lba_format,
            lbafu: self.lba_format_upper,
        }
    }
}

impl<'a, 'r> Format<'a, 'r> {
    /// The namespace that the command is for.
    pub closed spec fn target(self) -> Namespace<'r> {
        *self.ns
    }

    /// A Format NVM command on `ns` on which nothing is set.
    pub(crate) fn new(ns: &'a Namespace<'r>) -> (b: Self)
        ensures
            b@ == FormatCommand::initial(ns.id()),
            b.target() == *ns,
    {
        Format {
            ns,
            lba_format: 0,
            secure_erase: SecureErase::NoErase,
            protection_info: ProtectionInfo::Disabled,
            protection_location: ProtectionLocation::Last,
            metadata: MetadataSettings::Separate,
            lba_format_upper: 0,
            timeout_ms: 0,
        }
    }

    /// Select the LBA format (an index into the array reported by
    /// Identify Namespace). The active format becomes the new namespace
    /// format after the command completes.
    pub fn lba_format(self, index: u8) -> (r: Self)
        ensures
            r@ == (FormatCommand { lbaf: index, ..self@ }),
            r.target() == self.target(),
    {
        Format { lba_format: index, ..self }
    }

    /// For NVMe 2.0+ controllers that expose more than 16 LBA formats, the
    /// upper bits of the format index live here.
    pub fn lba_format_upper(self, upper: u8) -> (r: Self)
        ensures
            r@ == (FormatCommand { lbafu: upper, ..self@ }),
            r.target() == self.target(),
    {
        Format { lba_format_upper: upper, ..self }
    }

    /// Configure secure-erase behaviour.
    pub fn secure_erase(self, mode: SecureErase) -> (r: Self)
        ensures
            r@ == (FormatCommand { ses: mode.code(), ..self@ }),
            r.target() == self.target(),
    {
        Format { secure_erase: mode, ..self }
    }

    /// Configure end-to-end data protection.
    pub fn protection_info(self, pi: ProtectionInfo) -> (r: Self)
        ensures
            r@ == (FormatCommand { pi: pi.code(), ..self@ }),
            r.target() == self.target(),
    {
        Format { protection_info: pi, ..self }
    }

    /// Where PI guard bytes sit within metadata (only meaningful when
    /// `protection_info` is not [`ProtectionInfo::Disabled`]).
    pub fn protection_location(self, location: ProtectionLocation) -> (r: Self)
        ensures
            r@ == (FormatCommand { pil: location.code(), ..self@ }),
            r.target() == self.target(),
    {
        Format { protection_location: location, ..self }
    }

    /// Whether metadata is separate or interleaved with LBA data.
    pub fn metadata(self, settings: MetadataSettings) -> (r: Self)
        ensures
            r@ == (FormatCommand { mset: settings.code(), ..self@ }),
            r.target() == self.target(),
    {
        Format { metadata: settings, ..self }
    }

    /// Per-command timeout in milliseconds. `0` (the default) means the
    /// libnvme/kernel default - usually plenty for any reasonable format,
    /// but on large drives with `SecureErase::UserData` this can be raised.
    pub fn timeout_ms(self, ms: u32) -> (r: Self)
        ensures
            r@ == (FormatCommand { timeout: ms, ..self@ }),
            r.target() == self.target(),
    {
        Format { timeout_ms: ms, ..self }
    }

    /// The namespace that the command is for.
    pub fn namespace(&self) -> (ns: &'a Namespace<'r>)
        ensures
            *ns == self.target(),
    {
        self.ns
    }

    /// The Format NVM command, ready to be issued.
    pub fn execute(self) -> (c: FormatCommand)
        ensures
            c == self@,
    {
        FormatCommand {
            timeout: self.timeout_ms,
            nsid: self.ns.nsid(),
            mset: self.metadata.as_raw(),
            pi: self.protection_info.as_raw(),
            pil: self.protection_location.as_raw(),
            ses: self.secure_erase.as_raw(),
            lbaf: self.lba_format,
            lbafu: self.lba_format_upper,
        }
    }
}

/// Walk over the namespaces of a controller.
pub type Namespaces<P, H> = Walk<P, H>;

} // verus!
