//! Namespace-scoped NVM I/O commands.
//!
//! Read, Write, Compare, Verify, Write Zeroes, Write Uncorrectable, Flush,
//! Dataset Management (DSM), and Copy.
//!
//! Each command (except [`Namespace::flush`]) is a builder that lets you tune
//! optional fields - Force Unit Access, Limited Retry, end-to-end Protection
//! Information, application/reference tags, dataset-management hints, directive
//! specifiers, and the per-command timeout - before calling [`Read::execute`]
//! et al. The view of a builder is the request that it describes; `execute`
//! checks the request and returns the command to hand to libnvme.
//!
//! Block counts in this API are **1-based**: `nlb = 1` reads a single LBA.
//! NVMe encodes them 0's-based; `execute` subtracts one. The maximum value is
//! therefore `65_536` LBAs per command.

use crate::commands::{CommandSet, PassthruArgs, PassthruCommand};
use crate::error::{Error, Result};
use crate::namespace::Namespace;
use crate::text::push_decimal;
use crate::util::len_u32;
use crate::wire::{push_le, push_zeros};
use crate::{text, util, wire};
use std::borrow::Cow;
use vstd::prelude::*;
use vstd::string::StringExecFns;

verus! {

/// Opcode of the Flush command.
pub const OPC_FLUSH: u8 = 0x00;

/// Opcode of the Write command.
pub const OPC_WRITE: u8 = 0x01;

/// Opcode of the Read command.
pub const OPC_READ: u8 = 0x02;

/// Opcode of the Write Uncorrectable command.
pub const OPC_WRITE_UNCOR: u8 = 0x04;

/// Opcode of the Compare command.
pub const OPC_COMPARE: u8 = 0x05;

/// Opcode of the Write Zeroes command.
pub const OPC_WRITE_ZEROES: u8 = 0x08;

/// Opcode of the Verify command.
pub const OPC_VERIFY: u8 = 0x0c;

/// I/O control-flag bit values (CDW12 upper bits), fixed by NVMe.
///
/// The chainable setters on each builder (`.fua()`, `.limited_retry()`,
/// `.check_guard()`, etc.) set them.
pub struct IoControl;

impl IoControl {
    /// Streams directive type.
    pub const DTYPE_STREAMS: u16 = 0x0010;

    /// No-Deallocate after Successful Zeroing.
    pub const NSZ: u16 = 0x0080;

    /// Storage Tag Check.
    pub const STC: u16 = 0x0100;

    /// Deallocate.
    pub const DEAC: u16 = 0x0200;

    /// Check the reference tag.
    pub const PRINFO_PRCHK_REF: u16 = 0x0400;

    /// Check the application tag.
    pub const PRINFO_PRCHK_APP: u16 = 0x0800;

    /// Check the guard.
    pub const PRINFO_PRCHK_GUARD: u16 = 0x1000;

    /// Protection Information Action.
    pub const PRINFO_PRACT: u16 = 0x2000;

    /// Force Unit Access.
    pub const FUA: u16 = 0x4000;

    /// Limited Retry.
    pub const LR: u16 = 0x8000;

    /// The ten control flags, by rising bit position.
    pub open spec fn nth(i: int) -> u16 {
        if i == 0 {
            Self::DTYPE_STREAMS
        } else if i == 1 {
            Self::NSZ
        } else if i == 2 {
            Self::STC
        } else if i == 3 {
            Self::DEAC
        } else if i == 4 {
            Self::PRINFO_PRCHK_REF
        } else if i == 5 {
            Self::PRINFO_PRCHK_APP
        } else if i == 6 {
            Self::PRINFO_PRCHK_GUARD
        } else if i == 7 {
            Self::PRINFO_PRACT
        } else if i == 8 {
            Self::FUA
        } else {
            Self::LR
        }
    }

    /// No two control flags share a bit, and none is empty.
    pub proof fn bits_are_disjoint(i: int, j: int)
        requires
            0 <= i < 10,
            0 <= j < 10,
        ensures
            Self::nth(i) != 0,
            i != j ==> Self::nth(i) & Self::nth(j) == 0,
    {
        let a = Self::nth(i);
        let b = Self::nth(j);
        assert(a & b == b & a) by (bit_vector);
        assert(0x0010u16 & 0x0080u16 == 0 && 0x0010u16 & 0x0100u16 == 0
            && 0x0010u16 & 0x0200u16 == 0 && 0x0010u16 & 0x0400u16 == 0
            && 0x0010u16 & 0x0800u16 == 0 && 0x0010u16 & 0x1000u16 == 0
            && 0x0010u16 & 0x2000u16 == 0 && 0x0010u16 & 0x4000u16 == 0
            && 0x0010u16 & 0x8000u16 == 0 && 0x0080u16 & 0x0100u16 == 0
            && 0x0080u16 & 0x0200u16 == 0 && 0x0080u16 & 0x0400u16 == 0
            && 0x0080u16 & 0x0800u16 == 0 && 0x0080u16 & 0x1000u16 == 0
            && 0x0080u16 & 0x2000u16 == 0 && 0x0080u16 & 0x4000u16 == 0
            && 0x0080u16 & 0x8000u16 == 0 && 0x0100u16 & 0x0200u16 == 0
            && 0x0100u16 & 0x0400u16 == 0 && 0x0100u16 & 0x0800u16 == 0
            && 0x0100u16 & 0x1000u16 == 0 && 0x0100u16 & 0x2000u16 == 0
            && 0x0100u16 & 0x4000u16 == 0 && 0x0100u16 & 0x8000u16 == 0
            && 0x0200u16 & 0x0400u16 == 0 && 0x0200u16 & 0x0800u16 == 0
            && 0x0200u16 & 0x1000u16 == 0 && 0x0200u16 & 0x2000u16 == 0
            && 0x0200u16 & 0x4000u16 == 0 && 0x0200u16 & 0x8000u16 == 0
            && 0x0400u16 & 0x0800u16 == 0 && 0x0400u16 & 0x1000u16 == 0
            && 0x0400u16 & 0x2000u16 == 0 && 0x0400u16 & 0x4000u16 == 0
            && 0x0400u16 & 0x8000u16 == 0 && 0x0800u16 & 0x1000u16 == 0
            && 0x0800u16 & 0x2000u16 == 0 && 0x0800u16 & 0x4000u16 == 0
            && 0x0800u16 & 0x8000u16 == 0 && 0x1000u16 & 0x2000u16 == 0
            && 0x1000u16 & 0x4000u16 == 0 && 0x1000u16 & 0x8000u16 == 0
            && 0x2000u16 & 0x4000u16 == 0 && 0x2000u16 & 0x8000u16 == 0
            && 0x4000u16 & 0x8000u16 == 0) by (bit_vector);
    }
}

/// Common, optional knobs shared by the I/O commands.
#[derive(Debug, Clone, Copy, PartialEq, Eq, Structural)]
pub struct IoOpts {
    /// Control flags (see [`IoControl`]).
    pub control: u16,
    /// Dataset Management hint.
    pub dsm_hint: u8,
    /// Directive Specific value.
    pub dspec: u16,
    /// Application tag.
    pub apptag: u16,
    /// Application tag mask.
    pub appmask: u16,
    /// Reference tag (32-bit).
    pub reftag: u32,
    /// Reference tag (64-bit).
    pub reftag_u64: u64,
    /// Storage tag.
    pub storage_tag: u64,
    /// Storage tag size in bits.
    pub sts: u8,
    /// Protection Information Format.
    pub pif: u8,
    /// Timeout in milliseconds, `0` for the default.
    pub timeout_ms: u32,
}

impl Default for IoOpts {
    fn default() -> (r: Self)
        ensures
            r == IoOpts::unset(),
    {
        IoOpts {
            control: 0,
            dsm_hint: 0,
            dspec: 0,
            apptag: 0,
            appmask: 0,
            reftag: 0,
            reftag_u64: 0,
            storage_tag: 0,
            sts: 0,
            pif: 0,
            timeout_ms: 0,
        }
    }
}

impl IoOpts {
    /// The options of a request on which nothing was set.
    pub open spec fn unset() -> Self {
        IoOpts {
            control: 0,
            dsm_hint: 0,
            dspec: 0,
            apptag: 0,
            appmask: 0,
            reftag: 0,
            reftag_u64: 0,
            storage_tag: 0,
            sts: 0,
            pif: 0,
            timeout_ms: 0,
        }
    }

    /// These options with a control flag added.
    fn flagged(self, bit: u16) -> (r: Self)
        ensures
            r == (IoOpts { control: self.control | bit, ..self }),
    {
        IoOpts { control: self.control | bit, ..self }
    }

    /// Copy the options into the arguments of a command. The fields that name
    /// the blocks and the buffers stay as they are.
    pub fn apply_to(&self, args: &mut IoArgs)
        ensures
            *final(args) == old(args).with_opts(*self),
    {
        args.control = self.control;
        args.dsm = self.dsm_hint;
        args.dspec = self.dspec;
        args.apptag = self.apptag;
        args.appmask = self.appmask;
        args.reftag = self.reftag;
        args.reftag_u64 = self.reftag_u64;
        args.storage_tag = self.storage_tag;
        args.sts = self.sts;
        args.pif = self.pif;
        args.timeout = self.timeout_ms;
    }
}

/// The arguments of an I/O command as libnvme takes them, but for the file
/// descriptor and the buffers' addresses.
#[derive(Debug, Clone, Copy, PartialEq, Eq, Structural)]
pub struct IoArgs {
    /// Starting LBA.
    pub slba: u64,
    /// Storage tag.
    pub storage_tag: u64,
    /// Reference tag (64-bit).
    pub reftag_u64: u64,
    /// Timeout in milliseconds.
    pub timeout: u32,
    /// Namespace identifier.
    pub nsid: u32,
    /// Reference tag (32-bit).
    pub reftag: u32,
    /// Length of the data buffer in bytes, `0` where there is none.
    pub data_len: u32,
    /// Length of the metadata buffer in bytes, `0` where there is none.
    pub metadata_len: u32,
    /// Number of logical blocks, 0's-based.
    pub nlb: u16,
    /// Control flags.
    pub control: u16,
    /// Application tag.
    pub apptag: u16,
    /// Application tag mask.
    pub appmask: u16,
    /// Directive Specific value.
    pub dspec: u16,
    /// Dataset Management hint.
    pub dsm: u8,
    /// Storage tag size in bits.
    pub sts: u8,
    /// Protection Information Format.
    pub pif: u8,
}

impl IoArgs {
    /// These arguments with the fields that options control set from `opts`.
    pub open spec fn with_opts(self, opts: IoOpts) -> Self {
        IoArgs {
            control: opts.control,
            dsm: opts.dsm_hint,
            dspec: opts.dspec,
            apptag: opts.apptag,
            appmask: opts.appmask,
            reftag: opts.reftag,
            reftag_u64: opts.reftag_u64,
            storage_tag: opts.storage_tag,
            sts: opts.sts,
            pif: opts.pif,
            timeout: opts.timeout_ms,
            ..self
        }
    }

    /// Arguments that name blocks and a data length, with all else zero.
    pub open spec fn base(nsid: u32, slba: u64, nlb_enc: u16, data_len: u32) -> Self {
        IoArgs {
            slba,
            storage_tag: 0,
            reftag_u64: 0,
            timeout: 0,
            nsid,
            reftag: 0,
            data_len,
            metadata_len: 0,
            nlb: nlb_enc,
            control: 0,
            apptag: 0,
            appmask: 0,
            dspec: 0,
            dsm: 0,
            sts: 0,
            pif: 0,
        }
    }
}

/// Build partly-populated arguments with the mandatory fields set.
pub fn base_args(nsid: u32, slba: u64, nlb_enc: u16, data_len: u32) -> (r: IoArgs)
    ensures
        r == IoArgs::base(nsid, slba, nlb_enc, data_len),
{
    IoArgs {
        slba,
        storage_tag: 0,
        reftag_u64: 0,
        timeout: 0,
        nsid,
        reftag: 0,
        data_len,
        metadata_len: 0,
        nlb: nlb_enc,
        control: 0,
        apptag: 0,
        appmask: 0,
        dspec: 0,
        dsm: 0,
        sts: 0,
        pif: 0,
    }
}

/// The 0's-based `NLB` field for `nlb` blocks: `nlb - 1` for `1..=65536`, and
/// none for any other count.
pub open spec fn nlb_field(nlb: u32) -> Option<u16> {
    if 1 <= nlb <= 65_536 {
        Some((nlb - 1) as u16)
    } else {
        None
    }
}

/// What is said of a block count that has no `NLB` field.
pub open spec fn nlb_message(nlb: u32) -> Seq<char> {
    "nlb must be 1..=65536, got "@ + text::decimal(nlb as nat)
}

/// What is said of a data buffer whose length is not that of the blocks.
pub open spec fn buf_len_message(len: nat, nlb: u32, lba_size: u32) -> Seq<char> {
    "buffer length "@ + text::decimal(len) + " bytes does not match nlb*lba_size = "@
        + text::decimal(nlb as nat) + "*"@ + text::decimal(lba_size as nat) + " = "@
        + text::decimal((nlb * lba_size) as nat)
}

/// Every block count that is encoded is recovered by adding one, every field
/// value encodes exactly one block count, and no two counts share a field.
pub proof fn nlb_field_is_one_based(nlb: u32, other: u32, field: u16)
    ensures
        nlb_field(nlb) matches Some(f) ==> f + 1 == nlb,
        nlb_field((field + 1) as u32) == Some(field),
        nlb_field(nlb) is Some && nlb_field(nlb) == nlb_field(other) ==> nlb == other,
        nlb_field(nlb) is None <==> nlb == 0 || nlb > 65_536,
{
}

/// Build an [`Error::InvalidArgument`] from a message. All caller-input
/// validation in this module routes through here.
pub fn invalid(msg: Cow<'static, str>) -> (e: Error)
    ensures
        e.rejects_with(msg@),
{
    Error::invalid_argument(msg)
}

/// Number of blocks to encode as the NVMe 0's-based `NLB` field.
///
/// Caller passes a 1-based count (`nlb = 1` means one LBA), at most 65_536.
/// Returns [`Error::InvalidArgument`] if `nlb == 0` or `nlb > 65_536`.
pub fn encode_nlb(nlb: u32) -> (r: Result<u16>)
    ensures
        match nlb_field(nlb) {
            Some(f) => r == Ok::<u16, Error>(f),
            None => r matches Err(e) && e.rejects_with(nlb_message(nlb)),
        },
{
    if nlb == 0 || nlb > 65_536 {
        let mut msg = String::from_str("nlb must be 1..=65536, got ");
        push_decimal(&mut msg, nlb as u64);
        return Err(invalid(Cow::Owned(msg)));
    }
    Ok((nlb - 1) as u16)
}

/// Check that a data buffer holds exactly `nlb` blocks of `lba_size` bytes.
pub fn check_buf_len(buf_len: usize, nlb: u32, lba_size: u32) -> (r: Result<()>)
    ensures
        if buf_len == nlb * lba_size {
            r is Ok
        } else {
            r matches Err(e) && e.rejects_with(buf_len_message(buf_len as nat, nlb, lba_size))
        },
{
    assert(0 <= nlb * lba_size <= 0xffff_ffff * 0xffff_ffff) by (nonlinear_arith)
        requires
            0 <= nlb <= 0xffff_ffff,
            0 <= lba_size <= 0xffff_ffff,
    ;
    let want: u64 = nlb as u64 * lba_size as u64;
    if buf_len as u64 != want {
        let mut msg = String::from_str("buffer length ");
        push_decimal(&mut msg, buf_len as u64);
        msg.append(" bytes does not match nlb*lba_size = ");
        push_decimal(&mut msg, nlb as u64);
        msg.append("*");
        push_decimal(&mut msg, lba_size as u64);
        msg.append(" = ");
        push_decimal(&mut msg, want);
        return Err(invalid(Cow::Owned(msg)));
    }
    Ok(())
}

/// What a builder asks for: the view of the I/O builders.
#[verifier::ext_equal]
pub struct IoRequest {
    /// Namespace identifier.
    pub nsid: u32,
    /// Size of a logical block in bytes.
    pub lba_size: u32,
    /// Starting LBA.
    pub slba: u64,
    /// Number of logical blocks, 1-based.
    pub nlb: u32,
    /// Contents of the data buffer, where the command has one.
    pub data: Option<Seq<u8>>,
    /// Contents of the metadata buffer, where one is attached.
    pub metadata: Option<Seq<u8>>,
    /// Optional knobs.
    pub opts: IoOpts,
}

impl IoRequest {
    /// A request on which no option is set.
    pub open spec fn new(ns: Namespace, slba: u64, nlb: u32, data: Option<Seq<u8>>) -> Self {
        IoRequest {
            nsid: ns.id(),
            lba_size: ns.block_size(),
            slba,
            nlb,
            data,
            metadata: None,
            opts: IoOpts::unset(),
        }
    }

    /// This request with other options.
    pub open spec fn with_opts(self, opts: IoOpts) -> Self {
        IoRequest { opts, ..self }
    }

    /// This request with a control flag added.
    pub open spec fn with_flag(self, bit: u16) -> Self {
        self.with_opts((IoOpts { control: self.opts.control | bit, ..self.opts }))
    }

    /// Why the request is refused, if it is: a data buffer must hold exactly
    /// the blocks, and the block count must have an `NLB` field.
    pub open spec fn refusal(self) -> Option<Seq<char>> {
        if self.data is Some && self.data->0.len() != self.nlb * self.lba_size {
            Some(buf_len_message(self.data->0.len(), self.nlb, self.lba_size))
        } else if nlb_field(self.nlb) is None {
            Some(nlb_message(self.nlb))
        } else {
            None
        }
    }

    /// The arguments that encode an accepted request.
    pub open spec fn args(self) -> IoArgs {
        let base = IoArgs::base(
            self.nsid,
            self.slba,
            nlb_field(self.nlb)->0,
            util::buffer_len(self.data),
        );
        (IoArgs { metadata_len: util::buffer_len(self.metadata), ..base }).with_opts(self.opts)
    }

    /// Setting a control flag twice is the same as setting it once.
    pub proof fn flag_is_idempotent(self, bit: u16)
        ensures
            self.with_flag(bit).with_flag(bit) == self.with_flag(bit),
    {
        let c = self.opts.control;
        assert((c | bit) | bit == c | bit) by (bit_vector);
    }

    /// The order in which control flags are set does not matter.
    pub proof fn flag_order_is_irrelevant(self, a: u16, b: u16)
        ensures
            self.with_flag(a).with_flag(b) == self.with_flag(b).with_flag(a),
    {
        let c = self.opts.control;
        assert((c | a) | b == (c | b) | a) by (bit_vector);
    }

    /// Setting a control flag sets all of its bits, keeps what was set before,
    /// and leaves every flag that shares no bit with it as it was.
    pub proof fn flag_changes_only_itself(self, bit: u16, other: u16)
        ensures
            self.with_flag(bit).opts.control & bit == bit,
            self.opts.control & other == other ==> self.with_flag(bit).opts.control & other
                == other,
            bit & other == 0 ==> self.with_flag(bit).opts.control & other == self.opts.control
                & other,
    {
        let c = self.opts.control;
        assert((c | bit) & bit == bit) by (bit_vector);
        assert(c & other == other ==> (c | bit) & other == other) by (bit_vector);
        assert(bit & other == 0 ==> (c | bit) & other == c & other) by (bit_vector);
    }

    /// Options decide neither whether a request is refused nor which blocks and
    /// buffers it names.
    pub proof fn options_keep_blocks(self, opts: IoOpts)
        ensures
            self.with_opts(opts).refusal() == self.refusal(),
            self.with_opts(opts).args() == self.args().with_opts(opts),
    {
    }

    /// An accepted request names at least one block, its `NLB` field is one less
    /// than the count, and its data buffer holds exactly the blocks.
    pub proof fn accepted_request_is_exact(self)
        requires
            self.refusal() is None,
        ensures
            1 <= self.nlb <= 65_536,
            self.args().nlb + 1 == self.nlb,
            self.args().slba == self.slba,
            self.args().nsid == self.nsid,
            self.data matches Some(d) ==> d.len() == self.nlb * self.lba_size,
            self.data matches Some(d) ==> (d.len() < 0x1_0000_0000 ==> self.args().data_len
                == d.len()),
            self.data is None ==> self.args().data_len == 0,
    {
    }
}

/// A Read command, ready to be issued.
#[derive(Debug)]
pub struct ReadCommand<'a> {
    /// Opcode.
    pub opcode: u8,
    /// Arguments.
    pub args: IoArgs,
    /// The buffer that the device fills.
    pub data: &'a mut [u8],
    /// The buffer for the metadata.
    pub metadata: Option<&'a mut [u8]>,
}

impl<'a> ReadCommand<'a> {
    /// Whether this command is what `req` asks for, under the given opcode.
    pub open spec fn encodes(self, req: IoRequest, opcode: u8) -> bool {
        &&& self.opcode == opcode
        &&& self.args == req.args()
        &&& req.data == Some(self.data@)
        &&& req.metadata == util::mut_bytes(self.metadata)
    }
}

/// Check a read of `nlb` blocks from `slba` on into `data` and encode it. The
/// command holds the very buffers: what is written through it stands in them. A
/// refused read leaves them as they were.
pub(crate) fn read_command<'a>(
    ns: &Namespace<'_>,
    slba: u64,
    nlb: u32,
    data: &'a mut [u8],
    metadata: Option<&'a mut [u8]>,
    opts: IoOpts,
) -> (r: Result<ReadCommand<'a>>)
    ensures
        ({
            let req = IoRequest {
                nsid: ns.id(),
                lba_size: ns.block_size(),
                slba,
                nlb,
                data: Some(old(data)@),
                metadata: util::mut_bytes(metadata),
                opts,
            };
            match req.refusal() {
                Some(msg) => r matches Err(e) && e.rejects_with(msg) && final(data)@ == old(data)@,
                None => r matches Ok(c) && c.encodes(req, OPC_READ) && final(c.data)@
                    == final(data)@,
            }
        }),
        match (metadata, r) {
            (Some(m), Ok(c)) => c.metadata matches Some(d) && final(d)@ == final(m)@,
            (Some(m), Err(_)) => final(m)@ == m@,
            (None, Ok(c)) => c.metadata is None,
            (None, Err(_)) => true,
        },
{
    check_buf_len(data.len(), nlb, ns.lba_size())?;
    let nlb_enc: u16 = encode_nlb(nlb)?;
    let data_len: u32 = len_u32(data.len());
    let mut args = base_args(ns.nsid(), slba, nlb_enc, data_len);
    args.metadata_len = match &metadata {
        Some(md) => len_u32(md.len()),
        None => 0,
    };
    opts.apply_to(&mut args);
    Ok(ReadCommand { opcode: OPC_READ, args, data, metadata })
}

/// A Write or Compare command, ready to be issued.
#[derive(Debug)]
pub struct WriteCommand<'a> {
    /// Opcode.
    pub opcode: u8,
    /// Arguments.
    pub args: IoArgs,
    /// The bytes that the device reads.
    pub data: &'a [u8],
    /// The metadata that the device reads.
    pub metadata: Option<&'a [u8]>,
}

impl<'a> WriteCommand<'a> {
    /// Whether this command is what `req` asks for, under the given opcode.
    pub open spec fn encodes(self, req: IoRequest, opcode: u8) -> bool {
        &&& self.opcode == opcode
        &&& self.args == req.args()
        &&& req.data == Some(self.data@)
        &&& req.metadata == util::opt_bytes(self.metadata)
    }
}

/// A command without buffers, ready to be issued.
#[derive(Debug, Clone, Copy, PartialEq, Eq, Structural)]
pub struct NoDataCommand {
    /// Opcode.
    pub opcode: u8,
    /// Arguments.
    pub args: IoArgs,
}

impl NoDataCommand {
    /// Whether this command is what `req` asks for, under the given opcode.
    pub open spec fn encodes(self, req: IoRequest, opcode: u8) -> bool {
        &&& self.opcode == opcode
        &&& self.args == req.args()
        &&& req.data is None
        &&& req.metadata is None
    }
}

/// Builder returned by [`Namespace::read`].
///
/// Fills `data` from device into the supplied buffer; `data.len()` must equal
/// `nlb * lba_size`.
#[must_use]
pub struct Read<'a, 'r> {
    ns: &'a Namespace<'r>,
    slba: u64,
    nlb: u32,
    data: &'a mut [u8],
    metadata: Option<&'a mut [u8]>,
    opts: IoOpts,
}

impl<'a, 'r> View for Read<'a, 'r> {
    type V = IoRequest;

    closed spec fn view(&self) -> IoRequest {
        IoRequest {
            nsid: self.ns.id(),
            lba_size: self.ns.block_size(),
            slba: self.slba,
            nlb: self.nlb,
            data: Some(self.data@),
            metadata: util::mut_bytes(self.metadata),
            opts: self.opts,
        }
    }
}

impl<'a, 'r> Read<'a, 'r> {
    /// The namespace that the command is for.
    pub closed spec fn target(self) -> Namespace<'r> {
        *self.ns
    }

    /// The buffer that the device is to fill.
    pub closed spec fn data_buf(self) -> &'a mut [u8] {
        self.data
    }

    /// The buffer for the metadata, where one is attached.
    pub closed spec fn metadata_buf(self) -> Option<&'a mut [u8]> {
        self.metadata
    }

    /// A Read of `nlb` blocks from `slba` on, with no option set.
    pub(crate) fn new(ns: &'a Namespace<'r>, slba: u64, nlb: u32, data: &'a mut [u8]) -> (b: Self)
        ensures
            b@ == IoRequest::new(*ns, slba, nlb, Some(old(data)@)),
            b.data_buf()@ == old(data)@,
            final(b.data_buf())@ == final(data)@,
            b.metadata_buf() is None,
            b.target() == *ns,
    {
        Read { ns, slba, nlb, data, metadata: None, opts: IoOpts::default() }
    }

    /// Attach a metadata buffer (separate from data). Length must match
    /// `nlb * meta_size`.
    pub fn metadata(self, md: &'a mut [u8]) -> (r: Self)
        ensures
            r@ == (IoRequest { metadata: Some(old(md)@), ..self@ }),
            r.data_buf() == self.data_buf(),
            r.metadata_buf() matches Some(m) && m@ == old(md)@ && final(m)@ == final(md)@,
            self.metadata_buf() matches Some(m) ==> final(m)@ == m@,
            r.target() == self.target(),
    {
        Read { metadata: Some(md), ..self }
    }

    /// Force Unit Access - bypass volatile write cache for this command.
    pub fn fua(self) -> (r: Self)
        ensures
            r@ == self@.with_flag(IoControl::FUA),
            r.data_buf() == self.data_buf(),
            r.metadata_buf() == self.metadata_buf(),
            r.target() == self.target(),
    {
        Read { opts: self.opts.flagged(IoControl::FUA), ..self }
    }

    /// Limited Retry - controller should bound retry effort on error.
    pub fn limited_retry(self) -> (r: Self)
        ensures
            r@ == self@.with_flag(IoControl::LR),
            r.data_buf() == self.data_buf(),
            r.metadata_buf() == self.metadata_buf(),
            r.target() == self.target(),
    {
        Read { opts: self.opts.flagged(IoControl::LR), ..self }
    }

    /// Set Protection Information Action (PRACT). Strips/inserts PI bytes
    /// per the namespace format's protection setting.
    pub fn protection_action(self) -> (r: Self)
        ensures
            r@ == self@.with_flag(IoControl::PRINFO_PRACT),
            r.data_buf() == self.data_buf(),
            r.metadata_buf() == self.metadata_buf(),
            r.target() == self.target(),
    {
        Read { opts: self.opts.flagged(IoControl::PRINFO_PRACT), ..self }
    }

    /// Check Reference Tag (PRCHK.REF) - enable PI ref-tag check.
    pub fn check_reftag(self) -> (r: Self)
        ensures
            r@ == self@.with_flag(IoControl::PRINFO_PRCHK_REF),
            r.data_buf() == self.data_buf(),
            r.metadata_buf() == self.metadata_buf(),
            r.target() == self.target(),
    {
        Read { opts: self.opts.flagged(IoControl::PRINFO_PRCHK_REF), ..self }
    }

    /// Check Application Tag (PRCHK.APP).
    pub fn check_apptag(self) -> (r: Self)
        ensures
            r@ == self@.with_flag(IoControl::PRINFO_PRCHK_APP),
            r.data_buf() == self.data_buf(),
            r.metadata_buf() == self.metadata_buf(),
            r.target() == self.target(),
    {
        Read { opts: self.opts.flagged(IoControl::PRINFO_PRCHK_APP), ..self }
    }

    /// Check Guard (PRCHK.GUARD) - enable PI CRC check.
    pub fn check_guard(self) -> (r: Self)
        ensures
            r@ == self@.with_flag(IoControl::PRINFO_PRCHK_GUARD),
            r.data_buf() == self.data_buf(),
            r.metadata_buf() == self.metadata_buf(),
            r.target() == self.target(),
    {
        Read { opts: self.opts.flagged(IoControl::PRINFO_PRCHK_GUARD), ..self }
    }

    /// Expected initial Logical Block Reference Tag (ILBRT, 32-bit).
    pub fn ref_tag(self, tag: u32) -> (r: Self)
        ensures
            r@ == self@.with_opts((IoOpts { reftag: tag, ..self@.opts })),
            r.data_buf() == self.data_buf(),
            r.metadata_buf() == self.metadata_buf(),
            r.target() == self.target(),
    {
        Read { opts: IoOpts { reftag: tag, ..self.opts }, ..self }
    }

    /// Expected initial Logical Block Reference Tag (64-bit variant -
    /// enhanced PI namespaces).
    pub fn ref_tag_u64(self, tag: u64) -> (r: Self)
        ensures
            r@ == self@.with_opts((IoOpts { reftag_u64: tag, ..self@.opts })),
            r.data_buf() == self.data_buf(),
            r.metadata_buf() == self.metadata_buf(),
            r.target() == self.target(),
    {
        Read { opts: IoOpts { reftag_u64: tag, ..self.opts }, ..self }
    }

    /// Expected Logical Block Application Tag.
    pub fn app_tag(self, tag: u16) -> (r: Self)
        ensures
            r@ == self@.with_opts((IoOpts { apptag: tag, ..self@.opts })),
            r.data_buf() == self.data_buf(),
            r.metadata_buf() == self.metadata_buf(),
            r.target() == self.target(),
    {
        Read { opts: IoOpts { apptag: tag, ..self.opts }, ..self }
    }

    /// Logical Block Application Tag Mask.
    pub fn app_mask(self, mask: u16) -> (r: Self)
        ensures
            r@ == self@.with_opts((IoOpts { appmask: mask, ..self@.opts })),
            r.data_buf() == self.data_buf(),
            r.metadata_buf() == self.metadata_buf(),
            r.target() == self.target(),
    {
        Read { opts: IoOpts { appmask: mask, ..self.opts }, ..self }
    }

    /// Dataset Management hint - a combination of frequency/latency/
    /// access-pattern bits per NVMe `nvme_io_dsm_flags`.
    pub fn dataset_mgmt(self, dsm: u8) -> (r: Self)
        ensures
            r@ == self@.with_opts((IoOpts { dsm_hint: dsm, ..self@.opts })),
            r.data_buf() == self.data_buf(),
            r.metadata_buf() == self.metadata_buf(),
            r.target() == self.target(),
    {
        Read { opts: IoOpts { dsm_hint: dsm, ..self.opts }, ..self }
    }

    /// Directive Specific value (DSPEC) - only meaningful when a
    /// directive is in use (e.g. streams).
    pub fn directive(self, dspec: u16) -> (r: Self)
        ensures
            r@ == self@.with_opts((IoOpts { dspec, ..self@.opts })),
            r.data_buf() == self.data_buf(),
            r.metadata_buf() == self.metadata_buf(),
            r.target() == self.target(),
    {
        Read { opts: IoOpts { dspec, ..self.opts }, ..self }
    }

    /// Use the streams directive type for this command.
    pub fn streams(self) -> (r: Self)
        ensures
            r@ == self@.with_flag(IoControl::DTYPE_STREAMS),
            r.data_buf() == self.data_buf(),
            r.metadata_buf() == self.metadata_buf(),
            r.target() == self.target(),
    {
        Read { opts: self.opts.flagged(IoControl::DTYPE_STREAMS), ..self }
    }

    /// Storage Tag (variable-size, packed into CDW2/CDW3 - for enhanced
    /// protection-info namespaces).
    pub fn storage_tag(self, tag: u64) -> (r: Self)
        ensures
            r@ == self@.with_opts((IoOpts { storage_tag: tag, ..self@.opts })),
            r.data_buf() == self.data_buf(),
            r.metadata_buf() == self.metadata_buf(),
            r.target() == self.target(),
    {
        Read { opts: IoOpts { storage_tag: tag, ..self.opts }, ..self }
    }

    /// Enable Storage Tag Check (STC).
    pub fn check_storage_tag(self) -> (r: Self)
        ensures
            r@ == self@.with_flag(IoControl::STC),
            r.data_buf() == self.data_buf(),
            r.metadata_buf() == self.metadata_buf(),
            r.target() == self.target(),
    {
        Read { opts: self.opts.flagged(IoControl::STC), ..self }
    }

    /// Storage tag size in bits - must match the namespace's Extended
    /// LBA Format. Default `0` lets libnvme use the namespace setting.
    pub fn storage_tag_size(self, sts: u8) -> (r: Self)
        ensures
            r@ == self@.with_opts((IoOpts { sts, ..self@.opts })),
            r.data_buf() == self.data_buf(),
            r.metadata_buf() == self.metadata_buf(),
            r.target() == self.target(),
    {
        Read { opts: IoOpts { sts, ..self.opts }, ..self }
    }

    /// Protection Information Format - must match the namespace's
    /// Extended LBA Format. Default `0` (16b guard).
    pub fn pi_format(self, pif: u8) -> (r: Self)
        ensures
            r@ == self@.with_opts((IoOpts { pif, ..self@.opts })),
            r.data_buf() == self.data_buf(),
            r.metadata_buf() == self.metadata_buf(),
            r.target() == self.target(),
    {
        Read { opts: IoOpts { pif, ..self.opts }, ..self }
    }

    /// Per-command timeout in milliseconds. `0` lets libnvme use the
    /// default.
    pub fn timeout_ms(self, ms: u32) -> (r: Self)
        ensures
            r@ == self@.with_opts((IoOpts { timeout_ms: ms, ..self@.opts })),
            r.data_buf() == self.data_buf(),
            r.metadata_buf() == self.metadata_buf(),
            r.target() == self.target(),
    {
        Read { opts: IoOpts { timeout_ms: ms, ..self.opts }, ..self }
    }

    /// The namespace that the command is for.
    pub fn namespace(&self) -> (ns: &'a Namespace<'r>)
        ensures
            *ns == self.target(),
    {
        self.ns
    }

    /// Check the request and encode the Read command, ready to be issued. What is
    /// written through the command's buffers stands in the buffers that were given;
    /// a refused request leaves them as they were.
    pub fn execute(self) -> (r: Result<ReadCommand<'a>>)
        ensures
            match self@.refusal() {
                Some(msg) => r matches Err(e) && e.rejects_with(msg),
                None => r matches Ok(c) && c.encodes(self@, OPC_READ),
            },
            match r {
                Ok(c) => final(c.data)@ == final(self.data_buf())@,
                Err(_) => final(self.data_buf())@ == self.data_buf()@,
            },
            match (self.metadata_buf(), r) {
                (Some(m), Ok(c)) => c.metadata matches Some(d) && final(d)@ == final(m)@,
                (Some(m), Err(_)) => final(m)@ == m@,
                (None, Ok(c)) => c.metadata is None,
                (None, Err(_)) => true,
            },
    {
        read_command(self.ns, self.slba, self.nlb, self.data, self.metadata, self.opts)
    }
}

/// Builder returned by [`Namespace::write`].
///
/// Sends bytes from `data` to the device; `data.len()` must equal
/// `nlb * lba_size`.
#[must_use]
pub struct Write<'a, 'r> {
    ns: &'a Namespace<'r>,
    slba: u64,
    nlb: u32,
    data: &'a [u8],
    metadata: Option<&'a [u8]>,
    opts: IoOpts,
}

impl<'a, 'r> View for Write<'a, 'r> {
    type V = IoRequest;

    closed spec fn view(&self) -> IoRequest {
        IoRequest {
            nsid: self.ns.id(),
            lba_size: self.ns.block_size(),
            slba: self.slba,
            nlb: self.nlb,
            data: Some(self.data@),
            metadata: util::opt_bytes(self.metadata),
            opts: self.opts,
        }
    }
}

impl<'a, 'r> Write<'a, 'r> {
    /// The namespace that the command is for.
    pub closed spec fn target(self) -> Namespace<'r> {
        *self.ns
    }

    /// A Write of `nlb` blocks from `slba` on, with no option set.
    pub(crate) fn new(ns: &'a Namespace<'r>, slba: u64, nlb: u32, data: &'a [u8]) -> (b: Self)
        ensures
            b@ == IoRequest::new(*ns, slba, nlb, Some(data@)),
            b.target() == *ns,
    {
        Write { ns, slba, nlb, data, metadata: None, opts: IoOpts::default() }
    }

    /// Attach a metadata buffer (separate from data).
    pub fn metadata(self, md: &'a [u8]) -> (r: Self)
        ensures
            r@ == (IoRequest { metadata: Some(md@), ..self@ }),
            r.target() == self.target(),
    {
        Write { metadata: Some(md), ..self }
    }

    /// Force Unit Access - bypass volatile write cache for this command.
    pub fn fua(self) -> (r: Self)
        ensures
            r@ == self@.with_flag(IoControl::FUA),
            r.target() == self.target(),
    {
        Write { opts: self.opts.flagged(IoControl::FUA), ..self }
    }

    /// Limited Retry - controller should bound retry effort on error.
    pub fn limited_retry(self) -> (r: Self)
        ensures
            r@ == self@.with_flag(IoControl::LR),
            r.target() == self.target(),
    {
        Write { opts: self.opts.flagged(IoControl::LR), ..self }
    }

    /// Set Protection Information Action (PRACT). Strips/inserts PI bytes
    /// per the namespace format's protection setting.
    pub fn protection_action(self) -> (r: Self)
        ensures
            r@ == self@.with_flag(IoControl::PRINFO_PRACT),
            r.target() == self.target(),
    {
        Write { opts: self.opts.flagged(IoControl::PRINFO_PRACT), ..self }
    }

    /// Check Reference Tag (PRCHK.REF) - enable PI ref-tag check.
    pub fn check_reftag(self) -> (r: Self)
        ensures
            r@ == self@.with_flag(IoControl::PRINFO_PRCHK_REF),
            r.target() == self.target(),
    {
        Write { opts: self.opts.flagged(IoControl::PRINFO_PRCHK_REF), ..self }
    }

    /// Check Application Tag (PRCHK.APP).
    pub fn check_apptag(self) -> (r: Self)
        ensures
            r@ == self@.with_flag(IoControl::PRINFO_PRCHK_APP),
            r.target() == self.target(),
    {
        Write { opts: self.opts.flagged(IoControl::PRINFO_PRCHK_APP), ..self }
    }

    /// Check Guard (PRCHK.GUARD) - enable PI CRC check.
    pub fn check_guard(self) -> (r: Self)
        ensures
            r@ == self@.with_flag(IoControl::PRINFO_PRCHK_GUARD),
            r.target() == self.target(),
    {
        Write { opts: self.opts.flagged(IoControl::PRINFO_PRCHK_GUARD), ..self }
    }

    /// Expected initial Logical Block Reference Tag (ILBRT, 32-bit).
    pub fn ref_tag(self, tag: u32) -> (r: Self)
        ensures
            r@ == self@.with_opts((IoOpts { reftag: tag, ..self@.opts })),
            r.target() == self.target(),
    {
        Write { opts: IoOpts { reftag: tag, ..self.opts }, ..self }
    }

    /// Expected initial Logical Block Reference Tag (64-bit variant -
    /// enhanced PI namespaces).
    pub fn ref_tag_u64(self, tag: u64) -> (r: Self)
        ensures
            r@ == self@.with_opts((IoOpts { reftag_u64: tag, ..self@.opts })),
            r.target() == self.target(),
    {
        Write { opts: IoOpts { reftag_u64: tag, ..self.opts }, ..self }
    }

    /// Expected Logical Block Application Tag.
    pub fn app_tag(self, tag: u16) -> (r: Self)
        ensures
            r@ == self@.with_opts((IoOpts { apptag: tag, ..self@.opts })),
            r.target() == self.target(),
    {
        Write { opts: IoOpts { apptag: tag, ..self.opts }, ..self }
    }

    /// Logical Block Application Tag Mask.
    pub fn app_mask(self, mask: u16) -> (r: Self)
        ensures
            r@ == self@.with_opts((IoOpts { appmask: mask, ..self@.opts })),
            r.target() == self.target(),
    {
        Write { opts: IoOpts { appmask: mask, ..self.opts }, ..self }
    }

    /// Dataset Management hint - a combination of frequency/latency/
    /// access-pattern bits per NVMe `nvme_io_dsm_flags`.
    pub fn dataset_mgmt(self, dsm: u8) -> (r: Self)
        ensures
            r@ == self@.with_opts((IoOpts { dsm_hint: dsm, ..self@.opts })),
            r.target() == self.target(),
    {
        Write { opts: IoOpts { dsm_hint: dsm, ..self.opts }, ..self }
    }

    /// Directive Specific value (DSPEC) - only meaningful when a
    /// directive is in use (e.g. streams).
    pub fn directive(self, dspec: u16) -> (r: Self)
        ensures
            r@ == self@.with_opts((IoOpts { dspec, ..self@.opts })),
            r.target() == self.target(),
    {
        Write { opts: IoOpts { dspec, ..self.opts }, ..self }
    }

    /// Use the streams directive type for this command.
    pub fn streams(self) -> (r: Self)
        ensures
            r@ == self@.with_flag(IoControl::DTYPE_STREAMS),
            r.target() == self.target(),
    {
        Write { opts: self.opts.flagged(IoControl::DTYPE_STREAMS), ..self }
    }

    /// Storage Tag (variable-size, packed into CDW2/CDW3 - for enhanced
    /// protection-info namespaces).
    pub fn storage_tag(self, tag: u64) -> (r: Self)
        ensures
            r@ == self@.with_opts((IoOpts { storage_tag: tag, ..self@.opts })),
            r.target() == self.target(),
    {
        Write { opts: IoOpts { storage_tag: tag, ..self.opts }, ..self }
    }

    /// Enable Storage Tag Check (STC).
    pub fn check_storage_tag(self) -> (r: Self)
        ensures
            r@ == self@.with_flag(IoControl::STC),
            r.target() == self.target(),
    {
        Write { opts: self.opts.flagged(IoControl::STC), ..self }
    }

    /// Storage tag size in bits - must match the namespace's Extended
    /// LBA Format. Default `0` lets libnvme use the namespace setting.
    pub fn storage_tag_size(self, sts: u8) -> (r: Self)
        ensures
            r@ == self@.with_opts((IoOpts { sts, ..self@.opts })),
            r.target() == self.target(),
    {
        Write { opts: IoOpts { sts, ..self.opts }, ..self }
    }

    /// Protection Information Format - must match the namespace's
    /// Extended LBA Format. Default `0` (16b guard).
    pub fn pi_format(self, pif: u8) -> (r: Self)
        ensures
            r@ == self@.with_opts((IoOpts { pif, ..self@.opts })),
            r.target() == self.target(),
    {
        Write { opts: IoOpts { pif, ..self.opts }, ..self }
    }

    /// Per-command timeout in milliseconds. `0` lets libnvme use the
    /// default.
    pub fn timeout_ms(self, ms: u32) -> (r: Self)
        ensures
            r@ == self@.with_opts((IoOpts { timeout_ms: ms, ..self@.opts })),
            r.target() == self.target(),
    {
        Write { opts: IoOpts { timeout_ms: ms, ..self.opts }, ..self }
    }

    /// The namespace that the command is for.
    pub fn namespace(&self) -> (ns: &'a Namespace<'r>)
        ensures
            *ns == self.target(),
    {
        self.ns
    }

    /// Check the request and encode the Write command, ready to be issued.
    pub fn execute(self) -> (r: Result<WriteCommand<'a>>)
        ensures
            match self@.refusal() {
                Some(msg) => r matches Err(e) && e.rejects_with(msg),
                None => r matches Ok(c) && c.encodes(self@, OPC_WRITE),
            },
    {
        check_buf_len(self.data.len(), self.nlb, self.ns.lba_size())?;
        let nlb_enc: u16 = encode_nlb(self.nlb)?;
        let data_len: u32 = len_u32(self.data.len());
        let mut args = base_args(self.ns.nsid(), self.slba, nlb_enc, data_len);
        args.metadata_len = match &self.metadata {
            Some(md) => len_u32(md.len()),
            None => 0,
        };
        self.opts.apply_to(&mut args);
        Ok(WriteCommand { opcode: OPC_WRITE, args, data: self.data, metadata: self.metadata })
    }
}

/// Builder returned by [`Namespace::compare`].
///
/// Compares stored LBAs against the supplied host buffer. The controller
/// returns NVMe status `0x85` (Compare Failure) via [`Error::Nvme`] if any
/// byte differs.
#[must_use]
pub struct Compare<'a, 'r> {
    ns: &'a Namespace<'r>,
    slba: u64,
    nlb: u32,
    data: &'a [u8],
    metadata: Option<&'a [u8]>,
    opts: IoOpts,
}

impl<'a, 'r> View for Compare<'a, 'r> {
    type V = IoRequest;

    closed spec fn view(&self) -> IoRequest {
        IoRequest {
            nsid: self.ns.id(),
            lba_size: self.ns.block_size(),
            slba: self.slba,
            nlb: self.nlb,
            data: Some(self.data@),
            metadata: util::opt_bytes(self.metadata),
            opts: self.opts,
        }
    }
}

impl<'a, 'r> Compare<'a, 'r> {
    /// The namespace that the command is for.
    pub closed spec fn target(self) -> Namespace<'r> {
        *self.ns
    }

    /// A Compare of `nlb` blocks from `slba` on, with no option set.
    pub(crate) fn new(ns: &'a Namespace<'r>, slba: u64, nlb: u32, data: &'a [u8]) -> (b: Self)
        ensures
            b@ == IoRequest::new(*ns, slba, nlb, Some(data@)),
            b.target() == *ns,
    {
        Compare { ns, slba, nlb, data, metadata: None, opts: IoOpts::default() }
    }

    /// Attach a metadata buffer (separate from data).
    pub fn metadata(self, md: &'a [u8]) -> (r: Self)
        ensures
            r@ == (IoRequest { metadata: Some(md@), ..self@ }),
            r.target() == self.target(),
    {
        Compare { metadata: Some(md), ..self }
    }

    /// Force Unit Access - bypass volatile write cache for this command.
    pub fn fua(self) -> (r: Self)
        ensures
            r@ == self@.with_flag(IoControl::FUA),
            r.target() == self.target(),
    {
        Compare { opts: self.opts.flagged(IoControl::FUA), ..self }
    }

    /// Limited Retry - controller should bound retry effort on error.
    pub fn limited_retry(self) -> (r: Self)
        ensures
            r@ == self@.with_flag(IoControl::LR),
            r.target() == self.target(),
    {
        Compare { opts: self.opts.flagged(IoControl::LR), ..self }
    }

    /// Set Protection Information Action (PRACT). Strips/inserts PI bytes
    /// per the namespace format's protection setting.
    pub fn protection_action(self) -> (r: Self)
        ensures
            r@ == self@.with_flag(IoControl::PRINFO_PRACT),
            r.target() == self.target(),
    {
        Compare { opts: self.opts.flagged(IoControl::PRINFO_PRACT), ..self }
    }

    /// Check Reference Tag (PRCHK.REF) - enable PI ref-tag check.
    pub fn check_reftag(self) -> (r: Self)
        ensures
            r@ == self@.with_flag(IoControl::PRINFO_PRCHK_REF),
            r.target() == self.target(),
    {
        Compare { opts: self.opts.flagged(IoControl::PRINFO_PRCHK_REF), ..self }
    }

    /// Check Application Tag (PRCHK.APP).
    pub fn check_apptag(self) -> (r: Self)
        ensures
            r@ == self@.with_flag(IoControl::PRINFO_PRCHK_APP),
            r.target() == self.target(),
    {
        Compare { opts: self.opts.flagged(IoControl::PRINFO_PRCHK_APP), ..self }
    }

    /// Check Guard (PRCHK.GUARD) - enable PI CRC check.
    pub fn check_guard(self) -> (r: Self)
        ensures
            r@ == self@.with_flag(IoControl::PRINFO_PRCHK_GUARD),
            r.target() == self.target(),
    {
        Compare { opts: self.opts.flagged(IoControl::PRINFO_PRCHK_GUARD), ..self }
    }

    /// Expected initial Logical Block Reference Tag (ILBRT, 32-bit).
    pub fn ref_tag(self, tag: u32) -> (r: Self)
        ensures
            r@ == self@.with_opts((IoOpts { reftag: tag, ..self@.opts })),
            r.target() == self.target(),
    {
        Compare { opts: IoOpts { reftag: tag, ..self.opts }, ..self }
    }

    /// Expected initial Logical Block Reference Tag (64-bit variant -
    /// enhanced PI namespaces).
    pub fn ref_tag_u64(self, tag: u64) -> (r: Self)
        ensures
            r@ == self@.with_opts((IoOpts { reftag_u64: tag, ..self@.opts })),
            r.target() == self.target(),
    {
        Compare { opts: IoOpts { reftag_u64: tag, ..self.opts }, ..self }
    }

    /// Expected Logical Block Application Tag.
    pub fn app_tag(self, tag: u16) -> (r: Self)
        ensures
            r@ == self@.with_opts((IoOpts { apptag: tag, ..self@.opts })),
            r.target() == self.target(),
    {
        Compare { opts: IoOpts { apptag: tag, ..self.opts }, ..self }
    }

    /// Logical Block Application Tag Mask.
    pub fn app_mask(self, mask: u16) -> (r: Self)
        ensures
            r@ == self@.with_opts((IoOpts { appmask: mask, ..self@.opts })),
            r.target() == self.target(),
    {
        Compare { opts: IoOpts { appmask: mask, ..self.opts }, ..self }
    }

    /// Dataset Management hint - a combination of frequency/latency/
    /// access-pattern bits per NVMe `nvme_io_dsm_flags`.
    pub fn dataset_mgmt(self, dsm: u8) -> (r: Self)
        ensures
            r@ == self@.with_opts((IoOpts { dsm_hint: dsm, ..self@.opts })),
            r.target() == self.target(),
    {
        Compare { opts: IoOpts { dsm_hint: dsm, ..self.opts }, ..self }
    }

    /// Directive Specific value (DSPEC) - only meaningful when a
    /// directive is in use (e.g. streams).
    pub fn directive(self, dspec: u16) -> (r: Self)
        ensures
            r@ == self@.with_opts((IoOpts { dspec, ..self@.opts })),
            r.target() == self.target(),
    {
        Compare { opts: IoOpts { dspec, ..self.opts }, ..self }
    }

    /// Use the streams directive type for this command.
    pub fn streams(self) -> (r: Self)
        ensures
            r@ == self@.with_flag(IoControl::DTYPE_STREAMS),
            r.target() == self.target(),
    {
        Compare { opts: self.opts.flagged(IoControl::DTYPE_STREAMS), ..self }
    }

    /// Storage Tag (variable-size, packed into CDW2/CDW3 - for enhanced
    /// protection-info namespaces).
    pub fn storage_tag(self, tag: u64) -> (r: Self)
        ensures
            r@ == self@.with_opts((IoOpts { storage_tag: tag, ..self@.opts })),
            r.target() == self.target(),
    {
        Compare { opts: IoOpts { storage_tag: tag, ..self.opts }, ..self }
    }

    /// Enable Storage Tag Check (STC).
    pub fn check_storage_tag(self) -> (r: Self)
        ensures
            r@ == self@.with_flag(IoControl::STC),
            r.target() == self.target(),
    {
        Compare { opts: self.opts.flagged(IoControl::STC), ..self }
    }

    /// Storage tag size in bits - must match the namespace's Extended
    /// LBA Format. Default `0` lets libnvme use the namespace setting.
    pub fn storage_tag_size(self, sts: u8) -> (r: Self)
        ensures
            r@ == self@.with_opts((IoOpts { sts, ..self@.opts })),
            r.target() == self.target(),
    {
        Compare { opts: IoOpts { sts, ..self.opts }, ..self }
    }

    /// Protection Information Format - must match the namespace's
    /// Extended LBA Format. Default `0` (16b guard).
    pub fn pi_format(self, pif: u8) -> (r: Self)
        ensures
            r@ == self@.with_opts((IoOpts { pif, ..self@.opts })),
            r.target() == self.target(),
    {
        Compare { opts: IoOpts { pif, ..self.opts }, ..self }
    }

    /// Per-command timeout in milliseconds. `0` lets libnvme use the
    /// default.
    pub fn timeout_ms(self, ms: u32) -> (r: Self)
        ensures
            r@ == self@.with_opts((IoOpts { timeout_ms: ms, ..self@.opts })),
            r.target() == self.target(),
    {
        Compare { opts: IoOpts { timeout_ms: ms, ..self.opts }, ..self }
    }

    /// The namespace that the command is for.
    pub fn namespace(&self) -> (ns: &'a Namespace<'r>)
        ensures
            *ns == self.target(),
    {
        self.ns
    }

    /// Check the request and encode the Compare command, ready to be issued.
    pub fn execute(self) -> (r: Result<WriteCommand<'a>>)
        ensures
            match self@.refusal() {
                Some(msg) => r matches Err(e) && e.rejects_with(msg),
                None => r matches Ok(c) && c.encodes(self@, OPC_COMPARE),
            },
    {
        check_buf_len(self.data.len(), self.nlb, self.ns.lba_size())?;
        let nlb_enc: u16 = encode_nlb(self.nlb)?;
        let data_len: u32 = len_u32(self.data.len());
        let mut args = base_args(self.ns.nsid(), self.slba, nlb_enc, data_len);
        args.metadata_len = match &self.metadata {
            Some(md) => len_u32(md.len()),
            None => 0,
        };
        self.opts.apply_to(&mut args);
        Ok(WriteCommand { opcode: OPC_COMPARE, args, data: self.data, metadata: self.metadata })
    }
}

/// Builder returned by [`Namespace::verify`].
#[must_use]
pub struct Verify<'a, 'r> {
    ns: &'a Namespace<'r>,
    slba: u64,
    nlb: u32,
    opts: IoOpts,
}

impl<'a, 'r> View for Verify<'a, 'r> {
    type V = IoRequest;

    closed spec fn view(&self) -> IoRequest {
        IoRequest {
            nsid: self.ns.id(),
            lba_size: self.ns.block_size(),
            slba: self.slba,
            nlb: self.nlb,
            data: None,
            metadata: None,
            opts: self.opts,
        }
    }
}

impl<'a, 'r> Verify<'a, 'r> {
    /// The namespace that the command is for.
    pub closed spec fn target(self) -> Namespace<'r> {
        *self.ns
    }

    /// A Verify of `nlb` blocks from `slba` on, with no option set.
    pub(crate) fn new(ns: &'a Namespace<'r>, slba: u64, nlb: u32) -> (b: Self)
        ensures
            b@ == IoRequest::new(*ns, slba, nlb, None),
            b.target() == *ns,
    {
        Verify { ns, slba, nlb, opts: IoOpts::default() }
    }

    /// Force Unit Access - bypass volatile write cache for this command.
    pub fn fua(self) -> (r: Self)
        ensures
            r@ == self@.with_flag(IoControl::FUA),
            r.target() == self.target(),
    {
        Verify { opts: self.opts.flagged(IoControl::FUA), ..self }
    }

    /// Limited Retry - controller should bound retry effort on error.
    pub fn limited_retry(self) -> (r: Self)
        ensures
            r@ == self@.with_flag(IoControl::LR),
            r.target() == self.target(),
    {
        Verify { opts: self.opts.flagged(IoControl::LR), ..self }
    }

    /// Set Protection Information Action (PRACT). Strips/inserts PI bytes
    /// per the namespace format's protection setting.
    pub fn protection_action(self) -> (r: Self)
        ensures
            r@ == self@.with_flag(IoControl::PRINFO_PRACT),
            r.target() == self.target(),
    {
        Verify { opts: self.opts.flagged(IoControl::PRINFO_PRACT), ..self }
    }

    /// Check Reference Tag (PRCHK.REF) - enable PI ref-tag check.
    pub fn check_reftag(self) -> (r: Self)
        ensures
            r@ == self@.with_flag(IoControl::PRINFO_PRCHK_REF),
            r.target() == self.target(),
    {
        Verify { opts: self.opts.flagged(IoControl::PRINFO_PRCHK_REF), ..self }
    }

    /// Check Application Tag (PRCHK.APP).
    pub fn check_apptag(self) -> (r: Self)
        ensures
            r@ == self@.with_flag(IoControl::PRINFO_PRCHK_APP),
            r.target() == self.target(),
    {
        Verify { opts: self.opts.flagged(IoControl::PRINFO_PRCHK_APP), ..self }
    }

    /// Check Guard (PRCHK.GUARD) - enable PI CRC check.
    pub fn check_guard(self) -> (r: Self)
        ensures
            r@ == self@.with_flag(IoControl::PRINFO_PRCHK_GUARD),
            r.target() == self.target(),
    {
        Verify { opts: self.opts.flagged(IoControl::PRINFO_PRCHK_GUARD), ..self }
    }

    /// Expected initial Logical Block Reference Tag (ILBRT, 32-bit).
    pub fn ref_tag(self, tag: u32) -> (r: Self)
        ensures
            r@ == self@.with_opts((IoOpts { reftag: tag, ..self@.opts })),
            r.target() == self.target(),
    {
        Verify { opts: IoOpts { reftag: tag, ..self.opts }, ..self }
    }

    /// Expected Logical Block Application Tag.
    pub fn app_tag(self, tag: u16) -> (r: Self)
        ensures
            r@ == self@.with_opts((IoOpts { apptag: tag, ..self@.opts })),
            r.target() == self.target(),
    {
        Verify { opts: IoOpts { apptag: tag, ..self.opts }, ..self }
    }

    /// Logical Block Application Tag Mask.
    pub fn app_mask(self, mask: u16) -> (r: Self)
        ensures
            r@ == self@.with_opts((IoOpts { appmask: mask, ..self@.opts })),
            r.target() == self.target(),
    {
        Verify { opts: IoOpts { appmask: mask, ..self.opts }, ..self }
    }

    /// Per-command timeout in milliseconds. `0` lets libnvme use the
    /// default.
    pub fn timeout_ms(self, ms: u32) -> (r: Self)
        ensures
            r@ == self@.with_opts((IoOpts { timeout_ms: ms, ..self@.opts })),
            r.target() == self.target(),
    {
        Verify { opts: IoOpts { timeout_ms: ms, ..self.opts }, ..self }
    }

    /// The namespace that the command is for.
    pub fn namespace(&self) -> (ns: &'a Namespace<'r>)
        ensures
            *ns == self.target(),
    {
        self.ns
    }

    /// Check the request and encode the Verify command, ready to be issued.
    pub fn execute(self) -> (r: Result<NoDataCommand>)
        ensures
            match self@.refusal() {
                Some(msg) => r matches Err(e) && e.rejects_with(msg),
                None => r matches Ok(c) && c.encodes(self@, OPC_VERIFY),
            },
    {
        let nlb_enc: u16 = encode_nlb(self.nlb)?;
        let mut args = base_args(self.ns.nsid(), self.slba, nlb_enc, 0);
        self.opts.apply_to(&mut args);
        Ok(NoDataCommand { opcode: OPC_VERIFY, args })
    }
}

/// Builder returned by [`Namespace::write_zeroes`].
#[must_use]
pub struct WriteZeroes<'a, 'r> {
    ns: &'a Namespace<'r>,
    slba: u64,
    nlb: u32,
    opts: IoOpts,
}

impl<'a, 'r> View for WriteZeroes<'a, 'r> {
    type V = IoRequest;

    closed spec fn view(&self) -> IoRequest {
        IoRequest {
            nsid: self.ns.id(),
            lba_size: self.ns.block_size(),
            slba: self.slba,
            nlb: self.nlb,
            data: None,
            metadata: None,
            opts: self.opts,
        }
    }
}

impl<'a, 'r> WriteZeroes<'a, 'r> {
    /// The namespace that the command is for.
    pub closed spec fn target(self) -> Namespace<'r> {
        *self.ns
    }

    /// A Write Zeroes of `nlb` blocks from `slba` on, with no option set.
    pub(crate) fn new(ns: &'a Namespace<'r>, slba: u64, nlb: u32) -> (b: Self)
        ensures
            b@ == IoRequest::new(*ns, slba, nlb, None),
            b.target() == *ns,
    {
        WriteZeroes { ns, slba, nlb, opts: IoOpts::default() }
    }

    /// Force Unit Access - bypass volatile write cache for this command.
    pub fn fua(self) -> (r: Self)
        ensures
            r@ == self@.with_flag(IoControl::FUA),
            r.target() == self.target(),
    {
        WriteZeroes { opts: self.opts.flagged(IoControl::FUA), ..self }
    }

    /// Limited Retry - controller should bound retry effort on error.
    pub fn limited_retry(self) -> (r: Self)
        ensures
            r@ == self@.with_flag(IoControl::LR),
            r.target() == self.target(),
    {
        WriteZeroes { opts: self.opts.flagged(IoControl::LR), ..self }
    }

    /// Set Protection Information Action (PRACT). Strips/inserts PI bytes
    /// per the namespace format's protection setting.
    pub fn protection_action(self) -> (r: Self)
        ensures
            r@ == self@.with_flag(IoControl::PRINFO_PRACT),
            r.target() == self.target(),
    {
        WriteZeroes { opts: self.opts.flagged(IoControl::PRINFO_PRACT), ..self }
    }

    /// Check Reference Tag (PRCHK.REF) - enable PI ref-tag check.
    pub fn check_reftag(self) -> (r: Self)
        ensures
            r@ == self@.with_flag(IoControl::PRINFO_PRCHK_REF),
            r.target() == self.target(),
    {
        WriteZeroes { opts: self.opts.flagged(IoControl::PRINFO_PRCHK_REF), ..self }
    }

    /// Check Application Tag (PRCHK.APP).
    pub fn check_apptag(self) -> (r: Self)
        ensures
            r@ == self@.with_flag(IoControl::PRINFO_PRCHK_APP),
            r.target() == self.target(),
    {
        WriteZeroes { opts: self.opts.flagged(IoControl::PRINFO_PRCHK_APP), ..self }
    }

    /// Check Guard (PRCHK.GUARD) - enable PI CRC check.
    pub fn check_guard(self) -> (r: Self)
        ensures
            r@ == self@.with_flag(IoControl::PRINFO_PRCHK_GUARD),
            r.target() == self.target(),
    {
        WriteZeroes { opts: self.opts.flagged(IoControl::PRINFO_PRCHK_GUARD), ..self }
    }

    /// Expected initial Logical Block Reference Tag (ILBRT, 32-bit).
    pub fn ref_tag(self, tag: u32) -> (r: Self)
        ensures
            r@ == self@.with_opts((IoOpts { reftag: tag, ..self@.opts })),
            r.target() == self.target(),
    {
        WriteZeroes { opts: IoOpts { reftag: tag, ..self.opts }, ..self }
    }

    /// Expected Logical Block Application Tag.
    pub fn app_tag(self, tag: u16) -> (r: Self)
        ensures
            r@ == self@.with_opts((IoOpts { apptag: tag, ..self@.opts })),
            r.target() == self.target(),
    {
        WriteZeroes { opts: IoOpts { apptag: tag, ..self.opts }, ..self }
    }

    /// Logical Block Application Tag Mask.
    pub fn app_mask(self, mask: u16) -> (r: Self)
        ensures
            r@ == self@.with_opts((IoOpts { appmask: mask, ..self@.opts })),
            r.target() == self.target(),
    {
        WriteZeroes { opts: IoOpts { appmask: mask, ..self.opts }, ..self }
    }

    /// Per-command timeout in milliseconds. `0` lets libnvme use the
    /// default.
    pub fn timeout_ms(self, ms: u32) -> (r: Self)
        ensures
            r@ == self@.with_opts((IoOpts { timeout_ms: ms, ..self@.opts })),
            r.target() == self.target(),
    {
        WriteZeroes { opts: IoOpts { timeout_ms: ms, ..self.opts }, ..self }
    }

    /// Set Deallocate (DEAC) - after zeroing, the LBA range is unmapped.
    pub fn deallocate(self) -> (r: Self)
        ensures
            r@ == self@.with_flag(IoControl::DEAC),
            r.target() == self.target(),
    {
        WriteZeroes { opts: self.opts.flagged(IoControl::DEAC), ..self }
    }

    /// No-Deallocate after Successful Zeroing (NSZ - NVMe 2.0+).
    pub fn no_deallocate_after_zero(self) -> (r: Self)
        ensures
            r@ == self@.with_flag(IoControl::NSZ),
            r.target() == self.target(),
    {
        WriteZeroes { opts: self.opts.flagged(IoControl::NSZ), ..self }
    }

    /// The namespace that the command is for.
    pub fn namespace(&self) -> (ns: &'a Namespace<'r>)
        ensures
            *ns == self.target(),
    {
        self.ns
    }

    /// Check the request and encode the Write Zeroes command, ready to be issued.
    pub fn execute(self) -> (r: Result<NoDataCommand>)
        ensures
            match self@.refusal() {
                Some(msg) => r matches Err(e) && e.rejects_with(msg),
                None => r matches Ok(c) && c.encodes(self@, OPC_WRITE_ZEROES),
            },
    {
        let nlb_enc: u16 = encode_nlb(self.nlb)?;
        let mut args = base_args(self.ns.nsid(), self.slba, nlb_enc, 0);
        self.opts.apply_to(&mut args);
        Ok(NoDataCommand { opcode: OPC_WRITE_ZEROES, args })
    }
}

/// Builder returned by [`Namespace::write_uncorrectable`].
///
/// # Warning
///
/// **Destructive.** Marks the LBA range so that subsequent reads return
/// Unrecovered Read Error. Existing data in the range becomes unreadable
/// until those LBAs are rewritten (either via [`Namespace::write`] or
/// [`Namespace::write_zeroes`]). Use only for fault-injection testing
/// or to deliberately invalidate data; never on production drives
/// without explicit intent.
#[must_use]
pub struct WriteUncorrectable<'a, 'r> {
    ns: &'a Namespace<'r>,
    slba: u64,
    nlb: u32,
    opts: IoOpts,
}

impl<'a, 'r> View for WriteUncorrectable<'a, 'r> {
    type V = IoRequest;

    closed spec fn view(&self) -> IoRequest {
        IoRequest {
            nsid: self.ns.id(),
            lba_size: self.ns.block_size(),
            slba: self.slba,
            nlb: self.nlb,
            data: None,
            metadata: None,
            opts: self.opts,
        }
    }
}

impl<'a, 'r> WriteUncorrectable<'a, 'r> {
    /// The namespace that the command is for.
    pub closed spec fn target(self) -> Namespace<'r> {
        *self.ns
    }

    /// A Write Uncorrectable of `nlb` blocks from `slba` on, with no option set.
    pub(crate) fn new(ns: &'a Namespace<'r>, slba: u64, nlb: u32) -> (b: Self)
        ensures
            b@ == IoRequest::new(*ns, slba, nlb, None),
            b.target() == *ns,
    {
        WriteUncorrectable { ns, slba, nlb, opts: IoOpts::default() }
    }

    /// Per-command timeout in milliseconds. `0` lets libnvme use the
    /// default.
    pub fn timeout_ms(self, ms: u32) -> (r: Self)
        ensures
            r@ == self@.with_opts((IoOpts { timeout_ms: ms, ..self@.opts })),
            r.target() == self.target(),
    {
        WriteUncorrectable { opts: IoOpts { timeout_ms: ms, ..self.opts }, ..self }
    }

    /// The namespace that the command is for.
    pub fn namespace(&self) -> (ns: &'a Namespace<'r>)
        ensures
            *ns == self.target(),
    {
        self.ns
    }

    /// Check the request and encode the Write Uncorrectable command, ready to be issued.
    pub fn execute(self) -> (r: Result<NoDataCommand>)
        ensures
            match self@.refusal() {
                Some(msg) => r matches Err(e) && e.rejects_with(msg),
                None => r matches Ok(c) && c.encodes(self@, OPC_WRITE_UNCOR),
            },
    {
        let nlb_enc: u16 = encode_nlb(self.nlb)?;
        let mut args = base_args(self.ns.nsid(), self.slba, nlb_enc, 0);
        self.opts.apply_to(&mut args);
        Ok(NoDataCommand { opcode: OPC_WRITE_UNCOR, args })
    }
}

/// DSM attribute bits (CDW11). Combine with `|`.
#[derive(Debug, Clone, Copy, PartialEq, Eq, Structural)]
pub struct DsmAttr(u32);

impl View for DsmAttr {
    type V = u32;

    closed spec fn view(&self) -> u32 {
        self.0
    }
}

impl DsmAttr {
    /// Integral Dataset Read.
    pub fn integral_read() -> (r: Self)
        ensures
            r@ == 1,
    {
        DsmAttr(1)
    }

    /// Integral Dataset Write.
    pub fn integral_write() -> (r: Self)
        ensures
            r@ == 2,
    {
        DsmAttr(2)
    }

    /// Deallocate (the well-known TRIM/UNMAP).
    pub fn deallocate() -> (r: Self)
        ensures
            r@ == 4,
    {
        DsmAttr(4)
    }

    /// The attributes with the given mask.
    pub closed spec fn of(bits: u32) -> Self {
        DsmAttr(bits)
    }

    /// Construct from a raw mask.
    pub fn from_bits(bits: u32) -> (r: Self)
        ensures
            r == Self::of(bits),
            r@ == bits,
    {
        DsmAttr(bits)
    }

    /// Raw mask.
    pub fn bits(self) -> (r: u32)
        ensures
            r == self@,
    {
        self.0
    }

    /// Attributes and masks correspond one to one.
    pub proof fn mask_determines_attributes(self, bits: u32)
        ensures
            Self::of(bits)@ == bits,
            Self::of(self@) == self,
    {
    }

    /// Combining attributes is combining masks: it sets the bits of both and no
    /// others, whatever the order and however often.
    pub proof fn union_is_bitwise(a: Self, b: Self, bit: u32)
        ensures
            Self::of(a@ | b@)@ & bit == (a@ & bit) | (b@ & bit),
            Self::of(a@ | b@) == Self::of(b@ | a@),
            Self::of(a@ | a@) == a,
    {
        let x = a@;
        let y = b@;
        assert((x | y) & bit == (x & bit) | (y & bit)) by (bit_vector);
        assert(x | y == y | x) by (bit_vector);
        assert(x | x == x) by (bit_vector);
    }
}

impl std::ops::BitOr for DsmAttr {
    type Output = Self;

    fn bitor(self, rhs: Self) -> (r: Self)
        ensures
            r@ == self@ | rhs@,
    {
        let mut both = self;
        <DsmAttr as std::ops::BitOrAssign>::bitor_assign(&mut both, rhs);
        both
    }
}

impl vstd::std_specs::ops::BitOrSpecImpl for DsmAttr {
    open spec fn obeys_bitor_spec() -> bool {
        true
    }

    open spec fn bitor_req(self, rhs: Self) -> bool {
        true
    }

    open spec fn bitor_spec(self, rhs: Self) -> Self {
        DsmAttr::of(self@ | rhs@)
    }
}

impl std::ops::BitOrAssign for DsmAttr {
    fn bitor_assign(&mut self, rhs: Self)
        ensures
            final(self)@ == old(self)@ | rhs@,
    {
        self.0 = self.0 | rhs.0;
    }
}

/// The fields of one DSM range on the wire: the view of [`DsmRange`].
pub struct DsmEntry {
    /// Context attributes.
    pub context: u32,
    /// Length in logical blocks, 0's-based.
    pub length: u32,
    /// Starting LBA.
    pub slba: u64,
}

impl DsmEntry {
    /// The sixteen bytes of the entry.
    pub open spec fn bytes(self) -> Seq<u8> {
        wire::le_bytes(self.context as nat, 4) + wire::le_bytes(self.length as nat, 4)
            + wire::le_bytes(self.slba as nat, 8)
    }

    /// The entry that sixteen bytes hold.
    pub open spec fn from_bytes(b: Seq<u8>) -> Self {
        DsmEntry {
            context: wire::le_value(b.subrange(0, 4)) as u32,
            length: wire::le_value(b.subrange(4, 8)) as u32,
            slba: wire::le_value(b.subrange(8, 16)) as u64,
        }
    }

    /// An entry takes sixteen bytes, from which it can be read back.
    pub proof fn wire_round_trip(self)
        ensures
            self.bytes().len() == 16,
            Self::from_bytes(self.bytes()) == self,
    {
        wire::le_field(self.context as nat, 4);
        wire::le_field(self.length as nat, 4);
        wire::le_field(self.slba as nat, 8);
        assert(self.bytes().subrange(0, 4) =~= wire::le_bytes(self.context as nat, 4));
        assert(self.bytes().subrange(4, 8) =~= wire::le_bytes(self.length as nat, 4));
        assert(self.bytes().subrange(8, 16) =~= wire::le_bytes(self.slba as nat, 8));
    }
}

/// One DSM range entry.
///
/// Fields are private - construct via [`DsmRange::new`] (which takes a
/// **1-based** block count, matching the rest of this module's I/O API)
/// and refine with [`DsmRange::with_context`]. This makes it impossible
/// to confuse the public 1-based count with the 0-based wire encoding.
#[derive(Debug, Clone, Copy)]
pub struct DsmRange {
    context: u32,
    length: u32,
    slba: u64,
}

impl View for DsmRange {
    type V = DsmEntry;

    closed spec fn view(&self) -> DsmEntry {
        DsmEntry { context: self.context, length: self.length, slba: self.slba }
    }
}

impl DsmRange {
    /// Construct a range starting at `slba` covering `nlb` logical blocks.
    ///
    /// `nlb` is **1-based** (1 = a single LBA), consistent with the rest of
    /// this module; it is stored decremented to the 0-based encoding. `nlb` of
    /// `0` is treated as `1`.
    #[must_use]
    pub fn new(slba: u64, nlb: u32) -> (r: Self)
        ensures
            r@.slba == slba,
            r@.context == 0,
            r@.length + 1 == if nlb == 0 {
                1
            } else {
                nlb as int
            },
    {
        let length: u32 = if nlb == 0 {
            0
        } else {
            nlb - 1
        };
        DsmRange { context: 0, length, slba }
    }

    /// Attach DSM context-attribute bits (frequency / latency /
    /// access-pattern hints).
    #[must_use]
    pub fn with_context(self, context: u32) -> (r: Self)
        ensures
            r@ == (DsmEntry { context, ..self@ }),
    {
        DsmRange { context, ..self }
    }

    /// Context attributes.
    pub fn context(&self) -> (r: u32)
        ensures
            r == self@.context,
    {
        self.context
    }

    /// Length in logical blocks, 0's-based.
    pub fn length(&self) -> (r: u32)
        ensures
            r == self@.length,
    {
        self.length
    }

    /// Starting LBA.
    pub fn slba(&self) -> (r: u64)
        ensures
            r == self@.slba,
    {
        self.slba
    }

    /// Append the sixteen little-endian bytes of this range to `out`.
    pub fn encode(&self, out: &mut Vec<u8>)
        ensures
            final(out)@ == old(out)@ + self@.bytes(),
    {
        let ghost start = out@;
        push_le(out, self.context as u64, 4);
        push_le(out, self.length as u64, 4);
        push_le(out, self.slba, 8);
        assert(out@ =~= start + self@.bytes());
    }
}

/// What a [`Dsm`] builder asks for.
#[verifier::ext_equal]
pub struct DsmRequest {
    /// Namespace identifier.
    pub nsid: u32,
    /// Attribute mask.
    pub attrs: u32,
    /// The ranges, once given.
    pub ranges: Option<Seq<DsmRange>>,
    /// Timeout in milliseconds.
    pub timeout_ms: u32,
}

impl DsmRequest {
    /// The ranges, none where they were not given.
    pub open spec fn entries(self) -> Seq<DsmRange> {
        match self.ranges {
            Some(r) => r,
            None => Seq::empty(),
        }
    }

    /// Why the request is refused, if it is: it needs 1 to 256 ranges.
    pub open spec fn refusal(self) -> Option<Seq<char>> {
        if self.entries().len() == 0 {
            Some("DSM requires at least one range"@)
        } else if self.entries().len() > 256 {
            Some("DSM supports at most 256 ranges, got "@ + text::decimal(self.entries().len()))
        } else {
            None
        }
    }
}

/// The bytes of each range.
pub open spec fn dsm_parts(ranges: Seq<DsmRange>) -> Seq<Seq<u8>> {
    Seq::new(ranges.len(), |i: int| ranges[i]@.bytes())
}

/// The range list as the device reads it.
pub open spec fn dsm_payload(ranges: Seq<DsmRange>) -> Seq<u8> {
    wire::joined(dsm_parts(ranges))
}

/// A DSM range list takes sixteen bytes per range, and range `i` can be read
/// back from the bytes at `16 * i`.
pub proof fn dsm_payload_round_trip(ranges: Seq<DsmRange>, i: int)
    requires
        0 <= i < ranges.len(),
    ensures
        dsm_payload(ranges).len() == 16 * ranges.len(),
        DsmEntry::from_bytes(dsm_payload(ranges).subrange(16 * i, 16 * i + 16)) == ranges[i]@,
{
    let parts = dsm_parts(ranges);
    assert forall|k: int| 0 <= k < parts.len() implies #[trigger] parts[k].len() == 16 by {
        ranges[k]@.wire_round_trip();
    }
    wire::joined_part(parts, 16, i);
    ranges[i]@.wire_round_trip();
}

/// A Dataset Management command, ready to be issued.
#[derive(Debug)]
pub struct DsmCommand {
    /// Namespace identifier.
    pub nsid: u32,
    /// Attribute mask.
    pub attrs: u32,
    /// Number of ranges.
    pub nr_ranges: u16,
    /// Timeout in milliseconds.
    pub timeout: u32,
    /// The range list in wire layout.
    pub ranges: Vec<u8>,
}

/// Builder returned by [`Namespace::dsm`].
#[must_use]
pub struct Dsm<'a, 'r> {
    ns: &'a Namespace<'r>,
    attrs: DsmAttr,
    ranges: Option<&'a [DsmRange]>,
    timeout_ms: u32,
}

impl<'a, 'r> View for Dsm<'a, 'r> {
    type V = DsmRequest;

    closed spec fn view(&self) -> DsmRequest {
        DsmRequest {
            nsid: self.ns.id(),
            attrs: self.attrs@,
            ranges: match self.ranges {
                Some(r) => Some(r@),
                None => None,
            },
            timeout_ms: self.timeout_ms,
        }
    }
}

impl<'a, 'r> Dsm<'a, 'r> {
    /// The namespace that the command is for.
    pub closed spec fn target(self) -> Namespace<'r> {
        *self.ns
    }

    /// A DSM command with the given attributes and no ranges yet.
    pub(crate) fn new(ns: &'a Namespace<'r>, attrs: DsmAttr) -> (b: Self)
        ensures
            b@ == (DsmRequest { nsid: ns.id(), attrs: attrs@, ranges: None, timeout_ms: 0 }),
            b.target() == *ns,
    {
        Dsm { ns, attrs, ranges: None, timeout_ms: 0 }
    }

    /// Provide the LBA ranges this DSM applies to. The DSM command accepts
    /// up to 256 ranges per submission.
    pub fn ranges(self, ranges: &'a [DsmRange]) -> (r: Self)
        ensures
            r@ == (DsmRequest { ranges: Some(ranges@), ..self@ }),
            r.target() == self.target(),
    {
        Dsm { ranges: Some(ranges), ..self }
    }

    /// Per-command timeout in milliseconds. `0` lets libnvme use the default.
    pub fn timeout_ms(self, ms: u32) -> (r: Self)
        ensures
            r@ == (DsmRequest { timeout_ms: ms, ..self@ }),
            r.target() == self.target(),
    {
        Dsm { timeout_ms: ms, ..self }
    }

    /// The namespace that the command is for.
    pub fn namespace(&self) -> (ns: &'a Namespace<'r>)
        ensures
            *ns == self.target(),
    {
        self.ns
    }

    /// Check the request and encode the Dataset Management command, ready to be
    /// issued.
    pub fn execute(self) -> (r: Result<DsmCommand>)
        ensures
            match self@.refusal() {
                Some(msg) => r matches Err(e) && e.rejects_with(msg),
                None => r matches Ok(c) && c.nsid == self@.nsid && c.attrs == self@.attrs
                    && c.timeout == self@.timeout_ms && c.nr_ranges == self@.entries().len()
                    && c.ranges@ == dsm_payload(self@.entries()),
            },
    {
        let ranges: &[DsmRange] = match self.ranges {
            Some(ranges) => ranges,
            None => return Err(invalid(Cow::Borrowed("DSM requires at least one range"))),
        };
        let n: usize = ranges.len();
        if n == 0 {
            return Err(invalid(Cow::Borrowed("DSM requires at least one range")));
        }
        if n > 256 {
            let mut msg = String::from_str("DSM supports at most 256 ranges, got ");
            push_decimal(&mut msg, n as u64);
            return Err(invalid(Cow::Owned(msg)));
        }
        let ghost parts = dsm_parts(ranges@);
        let mut raw: Vec<u8> = Vec::new();
        let mut i: usize = 0;
        while i < n
            invariant
                i <= n,
                n == ranges@.len(),
                parts == dsm_parts(ranges@),
                raw@ == wire::joined(parts.take(i as int)),
            decreases n - i,
        {
            proof {
                assert(parts.take(i + 1).drop_last() =~= parts.take(i as int));
            }
            ranges[i].encode(&mut raw);
            i = i + 1;
        }
        assert(parts.take(n as int) =~= parts);
        Ok(
            DsmCommand {
                nsid: self.ns.nsid(),
                attrs: self.attrs.bits(),
                nr_ranges: n as u16,
                timeout: self.timeout_ms,
                ranges: raw,
            },
        )
    }
}

/// One source range for the NVMe Copy command (format 0).
#[derive(Debug, Clone, Copy)]
pub struct CopyRange {
    /// Source starting LBA.
    pub slba: u64,
    /// Number of logical blocks. **1-based** in this API; converted to the
    /// 0-based encoding on send.
    pub nlb: u16,
    /// Expected initial logical block reference tag (only meaningful on
    /// PI-formatted namespaces).
    pub eilbrt: u32,
    /// Expected logical block application tag.
    pub elbat: u16,
    /// Expected logical block application tag mask.
    pub elbatm: u16,
}

impl Default for CopyRange {
    fn default() -> (r: Self)
        ensures
            r == (CopyRange { slba: 0, nlb: 0, eilbrt: 0, elbat: 0, elbatm: 0 }),
    {
        CopyRange { slba: 0, nlb: 0, eilbrt: 0, elbat: 0, elbatm: 0 }
    }
}

impl CopyRange {
    /// The block count on the wire: one less than `nlb`, but not below zero.
    pub open spec fn nlb_wire(self) -> nat {
        if self.nlb == 0 {
            0
        } else {
            (self.nlb - 1) as nat
        }
    }

    /// The thirty-two bytes of the range.
    pub open spec fn bytes(self) -> Seq<u8> {
        wire::zeros(8) + wire::le_bytes(self.slba as nat, 8) + wire::le_bytes(self.nlb_wire(), 2)
            + wire::zeros(6) + wire::le_bytes(self.eilbrt as nat, 4) + wire::le_bytes(
            self.elbat as nat,
            2,
        ) + wire::le_bytes(self.elbatm as nat, 2)
    }

    /// The range that thirty-two bytes hold.
    pub open spec fn from_bytes(b: Seq<u8>) -> Self {
        CopyRange {
            slba: wire::le_value(b.subrange(8, 16)) as u64,
            nlb: (wire::le_value(b.subrange(16, 18)) + 1) as u16,
            eilbrt: wire::le_value(b.subrange(24, 28)) as u32,
            elbat: wire::le_value(b.subrange(28, 30)) as u16,
            elbatm: wire::le_value(b.subrange(30, 32)) as u16,
        }
    }

    /// A range takes thirty-two bytes, from which it can be read back. A block
    /// count of `0` comes back as `1`, which has the same encoding.
    pub proof fn wire_round_trip(self)
        ensures
            self.bytes().len() == 32,
            self.nlb > 0 ==> Self::from_bytes(self.bytes()) == self,
            self.nlb == 0 ==> self.bytes() == (CopyRange { nlb: 1, ..self }).bytes(),
    {
        wire::le_field(self.slba as nat, 8);
        wire::le_field(self.nlb_wire(), 2);
        wire::le_field(self.eilbrt as nat, 4);
        wire::le_field(self.elbat as nat, 2);
        wire::le_field(self.elbatm as nat, 2);
        let b = self.bytes();
        assert(b.subrange(8, 16) =~= wire::le_bytes(self.slba as nat, 8));
        assert(b.subrange(16, 18) =~= wire::le_bytes(self.nlb_wire(), 2));
        assert(b.subrange(24, 28) =~= wire::le_bytes(self.eilbrt as nat, 4));
        assert(b.subrange(28, 30) =~= wire::le_bytes(self.elbat as nat, 2));
        assert(b.subrange(30, 32) =~= wire::le_bytes(self.elbatm as nat, 2));
    }

    /// Construct a source range starting at `slba` covering `nlb` logical
    /// blocks (1-based).
    pub fn new(slba: u64, nlb: u16) -> (r: Self)
        ensures
            r == (CopyRange { slba, nlb, eilbrt: 0, elbat: 0, elbatm: 0 }),
    {
        CopyRange { slba, nlb, ..CopyRange::default() }
    }

    /// Expected initial logical block reference tag (EILBRT).
    pub fn ref_tag(self, eilbrt: u32) -> (r: Self)
        ensures
            r == (CopyRange { eilbrt, ..self }),
    {
        CopyRange { eilbrt, ..self }
    }

    /// Expected logical block application tag (ELBAT) + mask (ELBATM).
    pub fn app_tag(self, elbat: u16, mask: u16) -> (r: Self)
        ensures
            r == (CopyRange { elbat, elbatm: mask, ..self }),
    {
        CopyRange { elbat, elbatm: mask, ..self }
    }

    /// Append the thirty-two little-endian bytes of this range to `out`.
    pub fn encode(&self, out: &mut Vec<u8>)
        ensures
            final(out)@ == old(out)@ + self.bytes(),
    {
        let nlb_enc: u16 = if self.nlb == 0 {
            0
        } else {
            self.nlb - 1
        };
        let ghost start = out@;
        push_zeros(out, 8);
        push_le(out, self.slba, 8);
        push_le(out, nlb_enc as u64, 2);
        push_zeros(out, 6);
        push_le(out, self.eilbrt as u64, 4);
        push_le(out, self.elbat as u64, 2);
        push_le(out, self.elbatm as u64, 2);
        assert(out@ =~= start + self.bytes());
    }
}

/// What a [`Copy`] builder asks for.
#[verifier::ext_equal]
pub struct CopyRequest {
    /// Namespace identifier.
    pub nsid: u32,
    /// Destination starting LBA.
    pub sdlba: u64,
    /// Source ranges.
    pub ranges: Seq<CopyRange>,
    /// Destination reference tag (32-bit).
    pub ilbrt: u32,
    /// Destination reference tag (64-bit).
    pub ilbrt_u64: u64,
    /// Destination application tag.
    pub lbat: u16,
    /// Destination application tag mask.
    pub lbatm: u16,
    /// PI field for reads from the source.
    pub prinfor: u8,
    /// PI field for writes to the destination.
    pub prinfow: u8,
    /// Force Unit Access.
    pub fua: bool,
    /// Limited Retry.
    pub lr: bool,
    /// Directive type.
    pub dtype: u8,
    /// Directive Specific value.
    pub dspec: u16,
    /// Source-range descriptor format.
    pub format: u8,
    /// Timeout in milliseconds.
    pub timeout_ms: u32,
}

impl CopyRequest {
    /// A request on which no option is set.
    pub open spec fn new(nsid: u32, sdlba: u64, ranges: Seq<CopyRange>) -> Self {
        CopyRequest {
            nsid,
            sdlba,
            ranges,
            ilbrt: 0,
            ilbrt_u64: 0,
            lbat: 0,
            lbatm: 0,
            prinfor: 0,
            prinfow: 0,
            fua: false,
            lr: false,
            dtype: 0,
            dspec: 0,
            format: 0,
            timeout_ms: 0,
        }
    }

    /// Why the request is refused, if it is: it needs 1 to 128 source ranges.
    pub open spec fn refusal(self) -> Option<Seq<char>> {
        if self.ranges.len() == 0 {
            Some("Copy requires at least one source range"@)
        } else if self.ranges.len() > 128 {
            Some("Copy supports at most 128 ranges, got "@ + text::decimal(self.ranges.len()))
        } else {
            None
        }
    }
}

/// The bytes of each source range.
pub open spec fn copy_parts(ranges: Seq<CopyRange>) -> Seq<Seq<u8>> {
    Seq::new(ranges.len(), |i: int| ranges[i].bytes())
}

/// The source-range list as the device reads it.
pub open spec fn copy_payload(ranges: Seq<CopyRange>) -> Seq<u8> {
    wire::joined(copy_parts(ranges))
}

/// A source-range list takes thirty-two bytes per range, and range `i` can be
/// read back from the bytes at `32 * i` (a block count of `0` as `1`).
pub proof fn copy_payload_round_trip(ranges: Seq<CopyRange>, i: int)
    requires
        0 <= i < ranges.len(),
    ensures
        copy_payload(ranges).len() == 32 * ranges.len(),
        copy_payload(ranges).subrange(32 * i, 32 * i + 32) == ranges[i].bytes(),
        ranges[i].nlb > 0 ==> CopyRange::from_bytes(
            copy_payload(ranges).subrange(32 * i, 32 * i + 32),
        ) == ranges[i],
{
    let parts = copy_parts(ranges);
    assert forall|k: int| 0 <= k < parts.len() implies #[trigger] parts[k].len() == 32 by {
        ranges[k].wire_round_trip();
    }
    wire::joined_part(parts, 32, i);
    ranges[i].wire_round_trip();
}

/// A Copy command, ready to be issued.
#[derive(Debug)]
pub struct CopyCommand {
    /// Destination starting LBA.
    pub sdlba: u64,
    /// The source-range list in wire layout.
    pub copy: Vec<u8>,
    /// Timeout in milliseconds.
    pub timeout: u32,
    /// Namespace identifier.
    pub nsid: u32,
    /// Destination reference tag (32-bit).
    pub ilbrt: u32,
    /// Limited Retry: `1` where set.
    pub lr: i32,
    /// Force Unit Access: `1` where set.
    pub fua: i32,
    /// Number of source ranges, 0's-based.
    pub nr: u16,
    /// Directive Specific value.
    pub dspec: u16,
    /// Destination application tag mask.
    pub lbatm: u16,
    /// Destination application tag.
    pub lbat: u16,
    /// PI field for reads from the source.
    pub prinfor: u8,
    /// PI field for writes to the destination.
    pub prinfow: u8,
    /// Directive type.
    pub dtype: u8,
    /// Source-range descriptor format.
    pub format: u8,
    /// Destination reference tag (64-bit).
    pub ilbrt_u64: u64,
}

impl CopyCommand {
    /// Whether this command is what `req` asks for.
    pub open spec fn encodes(self, req: CopyRequest) -> bool {
        &&& self.sdlba == req.sdlba
        &&& self.copy@ == copy_payload(req.ranges)
        &&& self.timeout == req.timeout_ms
        &&& self.nsid == req.nsid
        &&& self.ilbrt == req.ilbrt
        &&& self.lr == flag_int(req.lr)
        &&& self.fua == flag_int(req.fua)
        &&& self.nr + 1 == req.ranges.len()
        &&& self.dspec == req.dspec
        &&& self.lbatm == req.lbatm
        &&& self.lbat == req.lbat
        &&& self.prinfor == req.prinfor
        &&& self.prinfow == req.prinfow
        &&& self.dtype == req.dtype
        &&& self.format == req.format
        &&& self.ilbrt_u64 == req.ilbrt_u64
    }
}

/// How a yes/no field is encoded as a C `int`.
pub open spec fn flag_int(b: bool) -> i32 {
    if b {
        1
    } else {
        0
    }
}

/// Encode a yes/no field as a C `int`.
pub fn encode_flag(b: bool) -> (r: i32)
    ensures
        r == flag_int(b),
{
    if b {
        1
    } else {
        0
    }
}

/// Builder returned by [`Namespace::copy`].
#[must_use]
pub struct Copy<'a, 'r> {
    ns: &'a Namespace<'r>,
    sdlba: u64,
    ranges: &'a [CopyRange],
    ilbrt: u32,
    ilbrt_u64: u64,
    lbat: u16,
    lbatm: u16,
    prinfor: u8,
    prinfow: u8,
    fua: bool,
    lr: bool,
    dtype: u8,
    dspec: u16,
    format: u8,
    timeout_ms: u32,
}

impl<'a, 'r> View for Copy<'a, 'r> {
    type V = CopyRequest;

    closed spec fn view(&self) -> CopyRequest {
        CopyRequest {
            nsid: self.ns.id(),
            sdlba: self.sdlba,
            ranges: self.ranges@,
            ilbrt: self.ilbrt,
            ilbrt_u64: self.ilbrt_u64,
            lbat: self.lbat,
            lbatm: self.lbatm,
            prinfor: self.prinfor,
            prinfow: self.prinfow,
            fua: self.fua,
            lr: self.lr,
            dtype: self.dtype,
            dspec: self.dspec,
            format: self.format,
            timeout_ms: self.timeout_ms,
        }
    }
}

impl<'a, 'r> Copy<'a, 'r> {
    /// The namespace that the command is for.
    pub closed spec fn target(self) -> Namespace<'r> {
        *self.ns
    }

    /// A copy of `ranges` to the blocks from `sdlba` on, with no option set.
    pub(crate) fn new(ns: &'a Namespace<'r>, sdlba: u64, ranges: &'a [CopyRange]) -> (b: Self)
        ensures
            b@ == CopyRequest::new(ns.id(), sdlba, ranges@),
            b.target() == *ns,
    {
        Copy {
            ns,
            sdlba,
            ranges,
            ilbrt: 0,
            ilbrt_u64: 0,
            lbat: 0,
            lbatm: 0,
            prinfor: 0,
            prinfow: 0,
            fua: false,
            lr: false,
            dtype: 0,
            dspec: 0,
            format: 0,
            timeout_ms: 0,
        }
    }

    /// Force Unit Access for the destination writes.
    pub fn fua(self) -> (r: Self)
        ensures
            r@ == (CopyRequest { fua: true, ..self@ }),
            r.target() == self.target(),
    {
        Copy { fua: true, ..self }
    }

    /// Limited Retry for the destination writes.
    pub fn limited_retry(self) -> (r: Self)
        ensures
            r@ == (CopyRequest { lr: true, ..self@ }),
            r.target() == self.target(),
    {
        Copy { lr: true, ..self }
    }

    /// Destination initial logical block reference tag (32-bit).
    pub fn dest_ref_tag(self, tag: u32) -> (r: Self)
        ensures
            r@ == (CopyRequest { ilbrt: tag, ..self@ }),
            r.target() == self.target(),
    {
        Copy { ilbrt: tag, ..self }
    }

    /// Destination initial logical block reference tag (64-bit, enhanced PI).
    pub fn dest_ref_tag_u64(self, tag: u64) -> (r: Self)
        ensures
            r@ == (CopyRequest { ilbrt_u64: tag, ..self@ }),
            r.target() == self.target(),
    {
        Copy { ilbrt_u64: tag, ..self }
    }

    /// Destination logical-block application tag + mask.
    pub fn dest_app_tag(self, tag: u16, mask: u16) -> (r: Self)
        ensures
            r@ == (CopyRequest { lbat: tag, lbatm: mask, ..self@ }),
            r.target() == self.target(),
    {
        Copy { lbat: tag, lbatm: mask, ..self }
    }

    /// PI field for reads from the source.
    pub fn prinfo_read(self, prinfo: u8) -> (r: Self)
        ensures
            r@ == (CopyRequest { prinfor: prinfo, ..self@ }),
            r.target() == self.target(),
    {
        Copy { prinfor: prinfo, ..self }
    }

    /// PI field for writes to the destination.
    pub fn prinfo_write(self, prinfo: u8) -> (r: Self)
        ensures
            r@ == (CopyRequest { prinfow: prinfo, ..self@ }),
            r.target() == self.target(),
    {
        Copy { prinfow: prinfo, ..self }
    }

    /// Source-range descriptor format. `0` (default) selects the 32-byte
    /// format; `1` selects the 40-byte enhanced-PI format. Must match the
    /// `CopyRange` shape you provided.
    pub fn descriptor_format(self, format: u8) -> (r: Self)
        ensures
            r@ == (CopyRequest { format, ..self@ }),
            r.target() == self.target(),
    {
        Copy { format, ..self }
    }

    /// Directive type + specifier (e.g. streams).
    pub fn directive(self, dtype: u8, dspec: u16) -> (r: Self)
        ensures
            r@ == (CopyRequest { dtype, dspec, ..self@ }),
            r.target() == self.target(),
    {
        Copy { dtype, dspec, ..self }
    }

    /// Per-command timeout in milliseconds. `0` lets libnvme use the default.
    pub fn timeout_ms(self, ms: u32) -> (r: Self)
        ensures
            r@ == (CopyRequest { timeout_ms: ms, ..self@ }),
            r.target() == self.target(),
    {
        Copy { timeout_ms: ms, ..self }
    }

    /// The namespace that the command is for.
    pub fn namespace(&self) -> (ns: &'a Namespace<'r>)
        ensures
            *ns == self.target(),
    {
        self.ns
    }

    /// Check the request and encode the Copy command, ready to be issued.
    pub fn execute(self) -> (r: Result<CopyCommand>)
        ensures
            match self@.refusal() {
                Some(msg) => r matches Err(e) && e.rejects_with(msg),
                None => r matches Ok(c) && c.encodes(self@),
            },
    {
        let ranges: &[CopyRange] = self.ranges;
        let n: usize = ranges.len();
        if n == 0 {
            return Err(invalid(Cow::Borrowed("Copy requires at least one source range")));
        }
        if n > 128 {
            let mut msg = String::from_str("Copy supports at most 128 ranges, got ");
            push_decimal(&mut msg, n as u64);
            return Err(invalid(Cow::Owned(msg)));
        }
        let ghost parts = copy_parts(ranges@);
        let mut raw: Vec<u8> = Vec::new();
        let mut i: usize = 0;
        while i < n
            invariant
                i <= n,
                n == ranges@.len(),
                parts == copy_parts(ranges@),
                raw@ == wire::joined(parts.take(i as int)),
            decreases n - i,
        {
            proof {
                assert(parts.take(i + 1).drop_last() =~= parts.take(i as int));
            }
            ranges[i].encode(&mut raw);
            i = i + 1;
        }
        assert(parts.take(n as int) =~= parts);
        Ok(
            CopyCommand {
                sdlba: self.sdlba,
                copy: raw,
                timeout: self.timeout_ms,
                nsid: self.ns.nsid(),
                ilbrt: self.ilbrt,
                lr: encode_flag(self.lr),
                fua: encode_flag(self.fua),
                nr: (n - 1) as u16,
                dspec: self.dspec,
                lbatm: self.lbatm,
                lbat: self.lbat,
                prinfor: self.prinfor,
                prinfow: self.prinfow,
                dtype: self.dtype,
                format: self.format,
                ilbrt_u64: self.ilbrt_u64,
            },
        )
    }
}

/// Whether `c` is the Flush command for the namespace `nsid`: an I/O command
/// that carries the opcode and the namespace and nothing else.
pub open spec fn is_flush(c: PassthruCommand<'static>, nsid: u32) -> bool {
    &&& c.set == CommandSet::Io
    &&& c.opcode == OPC_FLUSH
    &&& c.nsid == nsid
    &&& c.data is None
    &&& c.metadata is None
    &&& c.flags == 0
    &&& c.rsvd == 0
    &&& c.cdw2 == 0
    &&& c.cdw3 == 0
    &&& c.cdw10 == 0
    &&& c.cdw11 == 0
    &&& c.cdw12 == 0
    &&& c.cdw13 == 0
    &&& c.cdw14 == 0
    &&& c.cdw15 == 0
    &&& c.data_len == 0
    &&& c.metadata_len == 0
    &&& c.timeout == 0
}

/// The Flush command for this namespace. No options - see [`Namespace::flush`].
pub(crate) fn flush(ns: &Namespace<'_>) -> (c: PassthruCommand<'static>)
    ensures
        is_flush(c, ns.id()),
{
    let args: PassthruArgs<'static> = PassthruArgs {
        opcode: OPC_FLUSH,
        nsid: ns.nsid(),
        ..PassthruArgs::default()
    };
    PassthruCommand::new(CommandSet::Io, args)
}

} // verus!
