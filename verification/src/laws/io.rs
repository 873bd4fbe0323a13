//! What the I/O builders encode.

use super::{exclusive, field_len, say_the_same, says, shared, unsigned};
use crate::error::{Error, Result};
use crate::io::{
    base_args, check_buf_len, encode_flag, encode_nlb, invalid, Compare, IoArgs, IoControl, IoOpts,
    IoRequest, NoDataCommand, Read, ReadCommand, Verify, Write, WriteCommand, WriteUncorrectable,
    WriteZeroes,
};
use crate::commands::{CommandSet, PassthruCommand};
use crate::namespace::{Namespace, NamespaceAttrs};
use crate::text;
use std::borrow::Cow;
use vstd::prelude::*;

verus! {

/// Whether `nlb` blocks can be named in one command and `data`, where there is
/// any, holds exactly as many.
pub open spec fn fits(attrs: NamespaceAttrs<'_>, nlb: u32, data: Option<Seq<u8>>) -> bool {
    &&& 1 <= nlb <= 65_536
    &&& data matches Some(d) ==> d.len() == nlb * unsigned(attrs.lba_size)
}

/// Whether `e` says why `nlb` blocks and `data` do not fit. A buffer of the wrong
/// length is named first.
pub open spec fn misfit(e: Error, attrs: NamespaceAttrs<'_>, nlb: u32, data: Option<Seq<u8>>) -> bool {
    let size = unsigned(attrs.lba_size);
    if data matches Some(d) && d.len() != nlb * size {
        says(
            e,
            "buffer length "@ + text::decimal(data->0.len())
                + " bytes does not match nlb*lba_size = "@ + text::decimal(nlb as nat) + "*"@
                + text::decimal(size as nat) + " = "@ + text::decimal((nlb * size) as nat),
        )
    } else {
        says(e, "nlb must be 1..=65536, got "@ + text::decimal(nlb as nat))
    }
}

/// Whether `a` names the blocks and the data, with no metadata and no option.
pub open spec fn names(
    a: IoArgs,
    attrs: NamespaceAttrs<'_>,
    slba: u64,
    nlb: u32,
    data: Option<Seq<u8>>,
) -> bool {
    &&& a.slba == slba
    &&& a.nsid == unsigned(attrs.nsid)
    &&& a.nlb + 1 == nlb
    &&& a.data_len == field_len(data)
    &&& a.metadata_len == 0
    &&& a.control == 0
    &&& a.dsm == 0
    &&& a.dspec == 0
    &&& a.apptag == 0
    &&& a.appmask == 0
    &&& a.reftag == 0
    &&& a.reftag_u64 == 0
    &&& a.storage_tag == 0
    &&& a.sts == 0
    &&& a.pif == 0
    &&& a.timeout == 0
}

/// Whether two reads differ by `f` in their arguments and in nothing else.
pub open spec fn read_differs(
    p: Result<ReadCommand<'_>>,
    q: Result<ReadCommand<'_>>,
    f: spec_fn(IoArgs) -> IoArgs,
) -> bool {
    match (p, q) {
        (Ok(c), Ok(d)) => d.opcode == c.opcode && d.args == f(c.args) && d.data@ == c.data@
            && exclusive(d.metadata) == exclusive(c.metadata),
        (Err(x), Err(y)) => say_the_same(x, y),
        _ => false,
    }
}

/// Whether two writes differ by `f` in their arguments and in nothing else.
pub open spec fn write_differs(
    p: Result<WriteCommand<'_>>,
    q: Result<WriteCommand<'_>>,
    f: spec_fn(IoArgs) -> IoArgs,
) -> bool {
    match (p, q) {
        (Ok(c), Ok(d)) => d.opcode == c.opcode && d.args == f(c.args) && d.data@ == c.data@
            && shared(d.metadata) == shared(c.metadata),
        (Err(x), Err(y)) => say_the_same(x, y),
        _ => false,
    }
}

/// Whether two commands without buffers differ by `f` in their arguments and in
/// nothing else.
pub open spec fn block_differs(
    p: Result<NoDataCommand>,
    q: Result<NoDataCommand>,
    f: spec_fn(IoArgs) -> IoArgs,
) -> bool {
    match (p, q) {
        (Ok(c), Ok(d)) => d.opcode == c.opcode && d.args == f(c.args),
        (Err(x), Err(y)) => say_the_same(x, y),
        _ => false,
    }
}

impl IoControl {
    /// The bits of the control flags.
    pub proof fn bits_are_those_of_the_command()
        ensures
            Self::DTYPE_STREAMS == 0x0010,
            Self::NSZ == 0x0080,
            Self::STC == 0x0100,
            Self::DEAC == 0x0200,
            Self::PRINFO_PRCHK_REF == 0x0400,
            Self::PRINFO_PRCHK_APP == 0x0800,
            Self::PRINFO_PRCHK_GUARD == 0x1000,
            Self::PRINFO_PRACT == 0x2000,
            Self::FUA == 0x4000,
            Self::LR == 0x8000,
    {
    }
}

impl IoRequest {
    /// The arguments of a request carry every option as it was set, and name the
    /// blocks and the buffers as they were given.
    pub proof fn arguments_carry_the_request(self)
        requires
            self.refusal() is None,
        ensures
            self.args().control == self.opts.control,
            self.args().dsm == self.opts.dsm_hint,
            self.args().dspec == self.opts.dspec,
            self.args().apptag == self.opts.apptag,
            self.args().appmask == self.opts.appmask,
            self.args().reftag == self.opts.reftag,
            self.args().reftag_u64 == self.opts.reftag_u64,
            self.args().storage_tag == self.opts.storage_tag,
            self.args().sts == self.opts.sts,
            self.args().pif == self.opts.pif,
            self.args().timeout == self.opts.timeout_ms,
            self.args().slba == self.slba,
            self.args().nsid == self.nsid,
            self.args().nlb + 1 == self.nlb,
            self.args().data_len == field_len(self.data),
            self.args().metadata_len == field_len(self.metadata),
    {
    }

    /// A request is accepted exactly where it names 1 to 65536 blocks and its data
    /// buffer, where it has one, holds exactly as many.
    pub proof fn accepted_exactly_where_it_fits(self)
        ensures
            self.refusal() is None <==> 1 <= self.nlb <= 65_536 && (self.data matches Some(d)
                ==> d.len() == self.nlb * self.lba_size),
    {
    }

    /// Adding a control flag changes the flags and nothing else of a request: the
    /// new flags are the old ones and the added bits.
    pub proof fn flag_joins_the_others(self, bit: u16)
        ensures
            self.with_flag(bit).opts.control == self.opts.control | bit,
            self.with_flag(bit) == (IoRequest {
                opts: IoOpts { control: self.opts.control | bit, ..self.opts },
                ..self
            }),
    {
    }
}

/// No option is set by default.
pub proof fn default_options(opts: IoOpts)
    requires
        call_ensures(<IoOpts as Default>::default, (), opts),
    ensures
        opts.control == 0,
        opts.dsm_hint == 0,
        opts.dspec == 0,
        opts.apptag == 0,
        opts.appmask == 0,
        opts.reftag == 0,
        opts.reftag_u64 == 0,
        opts.storage_tag == 0,
        opts.sts == 0,
        opts.pif == 0,
        opts.timeout_ms == 0,
{
}

/// Applying options copies each of them into its argument and leaves the blocks
/// and the lengths as they were.
pub proof fn options_are_copied(opts: IoOpts, args: &mut IoArgs)
    requires
        call_ensures(IoOpts::apply_to, (&opts, args), ()),
    ensures
        final(args).control == opts.control,
        final(args).dsm == opts.dsm_hint,
        final(args).dspec == opts.dspec,
        final(args).apptag == opts.apptag,
        final(args).appmask == opts.appmask,
        final(args).reftag == opts.reftag,
        final(args).reftag_u64 == opts.reftag_u64,
        final(args).storage_tag == opts.storage_tag,
        final(args).sts == opts.sts,
        final(args).pif == opts.pif,
        final(args).timeout == opts.timeout_ms,
        final(args).slba == old(args).slba,
        final(args).nsid == old(args).nsid,
        final(args).nlb == old(args).nlb,
        final(args).data_len == old(args).data_len,
        final(args).metadata_len == old(args).metadata_len,
{
}

/// Base arguments hold the four values that are given, and zero everywhere else.
pub proof fn base_arguments(nsid: u32, slba: u64, nlb_enc: u16, data_len: u32, a: IoArgs)
    requires
        call_ensures(base_args, (nsid, slba, nlb_enc, data_len), a),
    ensures
        a.nsid == nsid,
        a.slba == slba,
        a.nlb == nlb_enc,
        a.data_len == data_len,
        a.metadata_len == 0,
        a.control == 0,
        a.dsm == 0,
        a.dspec == 0,
        a.apptag == 0,
        a.appmask == 0,
        a.reftag == 0,
        a.reftag_u64 == 0,
        a.storage_tag == 0,
        a.sts == 0,
        a.pif == 0,
        a.timeout == 0,
{
}

/// A block count is encoded exactly where it is 1 to 65536, as one less, and
/// refused by name otherwise.
pub proof fn block_counts(nlb: u32, r: Result<u16>)
    requires
        call_ensures(encode_nlb, (nlb,), r),
    ensures
        r is Ok <==> 1 <= nlb <= 65_536,
        r matches Ok(f) ==> f + 1 == nlb,
        r matches Err(e) ==> says(e, "nlb must be 1..=65536, got "@ + text::decimal(nlb as nat)),
{
}

/// A buffer is accepted exactly where it holds the blocks, and the refusal names
/// its length, the block count, the block size and their product.
pub proof fn buffer_lengths(len: usize, nlb: u32, lba_size: u32, r: Result<()>)
    requires
        call_ensures(check_buf_len, (len, nlb, lba_size), r),
    ensures
        r is Ok <==> len == nlb * lba_size,
        r matches Err(e) ==> says(
            e,
            "buffer length "@ + text::decimal(len as nat)
                + " bytes does not match nlb*lba_size = "@ + text::decimal(nlb as nat) + "*"@
                + text::decimal(lba_size as nat) + " = "@ + text::decimal((nlb * lba_size) as nat),
        ),
{
}

/// A rejected argument keeps its message.
pub proof fn refusals(msg: Cow<'static, str>, e: Error)
    requires
        call_ensures(invalid, (msg,), e),
    ensures
        says(e, msg@),
{
}

/// A yes/no field is one where it is set and zero where it is not.
pub proof fn flags_as_ints(b: bool, r: i32)
    requires
        call_ensures(encode_flag, (b,), r),
    ensures
        b ==> r == 1,
        !b ==> r == 0,
{
}

/// A Read is accepted exactly where the blocks fit the buffer. It then carries the
/// opcode, the blocks and the buffer, and what the device writes stands in the
/// buffer; a refused one leaves the buffer as it was.
#[verifier::spinoff_prover]
pub proof fn read_encodes<'a, 'r>(
    attrs: NamespaceAttrs<'r>,
    ns: &'a Namespace<'r>,
    slba: u64,
    nlb: u32,
    buf: &'a mut [u8],
    b: Read<'a, 'r>,
    n: &'a Namespace<'r>,
    r: Result<ReadCommand<'a>>,
)
    requires
        call_ensures(Namespace::from_raw, (attrs,), *ns),
        call_ensures(Namespace::read, (ns, slba, nlb, buf), b),
        call_ensures(Read::namespace, (&b,), n),
        call_ensures(Read::execute, (b,), r),
    ensures
        *n == *ns,
        r is Ok <==> fits(attrs, nlb, Some(old(buf)@)),
        r matches Ok(c) ==> c.opcode == 0x02 && names(c.args, attrs, slba, nlb, Some(old(buf)@))
            && c.data@ == old(buf)@ && c.metadata is None && final(c.data)@ == final(buf)@,
        r matches Err(e) ==> misfit(e, attrs, nlb, Some(old(buf)@)) && final(buf)@ == old(buf)@,
{
}

/// Metadata attached to a Read stands in the command with its length, and nothing
/// else changes. What the device writes stands in the buffer that was attached, and
/// a buffer that was attached before stays as it was.
#[verifier::spinoff_prover]
pub proof fn read_metadata<'a, 'r>(
    before: Read<'a, 'r>,
    md: &'a mut [u8],
    after: Read<'a, 'r>,
    plain: Result<ReadCommand<'a>>,
    r: Result<ReadCommand<'a>>,
)
    requires
        call_ensures(Read::execute, (before,), plain),
        call_ensures(Read::metadata, (before, md), after),
        call_ensures(Read::execute, (after,), r),
    ensures
        after.target() == before.target(),
        after.data_buf() == before.data_buf(),
        before.metadata_buf() matches Some(m) ==> final(m)@ == m@,
        match (plain, r) {
            (Ok(c), Ok(d)) => d.opcode == c.opcode && d.args == (IoArgs {
                metadata_len: (old(md)@.len() as int % 0x1_0000_0000) as u32,
                ..c.args
            }) && d.data@ == c.data@ && (d.metadata matches Some(m) && m@ == old(md)@ && final(m)@
                == final(md)@),
            (Err(x), Err(y)) => say_the_same(x, y) && final(md)@ == old(md)@,
            _ => false,
        },
{
}

/// A Read into a fresh buffer is accepted exactly where the blocks can be named and
/// the buffer can be as long. It then reads into the buffer, which is all zero, and
/// carries no option; a refused one leaves the buffer as it was.
#[verifier::spinoff_prover]
pub proof fn read_to_vec_encodes<'a, 'r>(
    attrs: NamespaceAttrs<'r>,
    ns: &'a Namespace<'r>,
    slba: u64,
    nlb: u32,
    buf: &'a mut Vec<u8>,
    r: Result<ReadCommand<'a>>,
)
    requires
        call_ensures(Namespace::from_raw, (attrs,), *ns),
        call_ensures(Namespace::read_to_vec, (ns, slba, nlb, buf), r),
    ensures
        r is Ok <==> 1 <= nlb <= 65_536 && nlb * unsigned(attrs.lba_size) <= usize::MAX,
        r matches Ok(c) ==> c.opcode == 0x02 && names(c.args, attrs, slba, nlb, Some(c.data@))
            && c.data@.len() == nlb * unsigned(attrs.lba_size) && (forall|i: int|
            0 <= i < c.data@.len() ==> #[trigger] c.data@[i] == 0) && c.metadata is None
            && final(c.data)@ == final(buf)@,
        r matches Err(e) ==> final(buf)@ == old(buf)@ && (if nlb * unsigned(attrs.lba_size)
            > usize::MAX {
            says(e, "nlb * lba_size overflows usize"@)
        } else {
            says(e, "nlb must be 1..=65536, got "@ + text::decimal(nlb as nat))
        }),
{
}

/// Each option of a Read changes its own field of the command and nothing else:
/// a flag adds its bit to the control flags, every other option sets its field, and
/// no option decides whether the request is refused or which namespace it is for.
/// The buffers stay the same too.
#[verifier::spinoff_prover]
pub proof fn read_options<'a, 'r>(before: Read<'a, 'r>, plain: Result<ReadCommand<'a>>)
    requires
        call_ensures(Read::execute, (before,), plain),
    ensures
        forall|after: Read<'a, 'r>, r: Result<ReadCommand<'a>>|
            #[trigger] call_ensures(Read::fua, (before,), after)
                && #[trigger] call_ensures(Read::execute, (after,), r)
                ==> after.target() == before.target() && after.data_buf() == before.data_buf()
                && after.metadata_buf() == before.metadata_buf()
                && read_differs(plain, r, |a: IoArgs| (IoArgs { control: a.control | 0x4000u16, ..a })),
        forall|after: Read<'a, 'r>, r: Result<ReadCommand<'a>>|
            #[trigger] call_ensures(Read::limited_retry, (before,), after)
                && #[trigger] call_ensures(Read::execute, (after,), r)
                ==> after.target() == before.target() && after.data_buf() == before.data_buf()
                && after.metadata_buf() == before.metadata_buf()
                && read_differs(plain, r, |a: IoArgs| (IoArgs { control: a.control | 0x8000u16, ..a })),
        forall|after: Read<'a, 'r>, r: Result<ReadCommand<'a>>|
            #[trigger] call_ensures(Read::protection_action, (before,), after)
                && #[trigger] call_ensures(Read::execute, (after,), r)
                ==> after.target() == before.target() && after.data_buf() == before.data_buf()
                && after.metadata_buf() == before.metadata_buf()
                && read_differs(plain, r, |a: IoArgs| (IoArgs { control: a.control | 0x2000u16, ..a })),
        forall|after: Read<'a, 'r>, r: Result<ReadCommand<'a>>|
            #[trigger] call_ensures(Read::check_reftag, (before,), after)
                && #[trigger] call_ensures(Read::execute, (after,), r)
                ==> after.target() == before.target() && after.data_buf() == before.data_buf()
                && after.metadata_buf() == before.metadata_buf()
                && read_differs(plain, r, |a: IoArgs| (IoArgs { control: a.control | 0x0400u16, ..a })),
        forall|after: Read<'a, 'r>, r: Result<ReadCommand<'a>>|
            #[trigger] call_ensures(Read::check_apptag, (before,), after)
                && #[trigger] call_ensures(Read::execute, (after,), r)
                ==> after.target() == before.target() && after.data_buf() == before.data_buf()
                && after.metadata_buf() == before.metadata_buf()
                && read_differs(plain, r, |a: IoArgs| (IoArgs { control: a.control | 0x0800u16, ..a })),
        forall|after: Read<'a, 'r>, r: Result<ReadCommand<'a>>|
            #[trigger] call_ensures(Read::check_guard, (before,), after)
                && #[trigger] call_ensures(Read::execute, (after,), r)
                ==> after.target() == before.target() && after.data_buf() == before.data_buf()
                && after.metadata_buf() == before.metadata_buf()
                && read_differs(plain, r, |a: IoArgs| (IoArgs { control: a.control | 0x1000u16, ..a })),
        forall|after: Read<'a, 'r>, r: Result<ReadCommand<'a>>, tag: u32|
            #[trigger] call_ensures(Read::ref_tag, (before, tag), after)
                && #[trigger] call_ensures(Read::execute, (after,), r)
                ==> after.target() == before.target() && after.data_buf() == before.data_buf()
                && after.metadata_buf() == before.metadata_buf()
                && read_differs(plain, r, |a: IoArgs| (IoArgs { reftag: tag, ..a })),
        forall|after: Read<'a, 'r>, r: Result<ReadCommand<'a>>, tag: u16|
            #[trigger] call_ensures(Read::app_tag, (before, tag), after)
                && #[trigger] call_ensures(Read::execute, (after,), r)
                ==> after.target() == before.target() && after.data_buf() == before.data_buf()
                && after.metadata_buf() == before.metadata_buf()
                && read_differs(plain, r, |a: IoArgs| (IoArgs { apptag: tag, ..a })),
        forall|after: Read<'a, 'r>, r: Result<ReadCommand<'a>>, mask: u16|
            #[trigger] call_ensures(Read::app_mask, (before, mask), after)
                && #[trigger] call_ensures(Read::execute, (after,), r)
                ==> after.target() == before.target() && after.data_buf() == before.data_buf()
                && after.metadata_buf() == before.metadata_buf()
                && read_differs(plain, r, |a: IoArgs| (IoArgs { appmask: mask, ..a })),
        forall|after: Read<'a, 'r>, r: Result<ReadCommand<'a>>, tag: u64|
            #[trigger] call_ensures(Read::ref_tag_u64, (before, tag), after)
                && #[trigger] call_ensures(Read::execute, (after,), r)
                ==> after.target() == before.target() && after.data_buf() == before.data_buf()
                && after.metadata_buf() == before.metadata_buf()
                && read_differs(plain, r, |a: IoArgs| (IoArgs { reftag_u64: tag, ..a })),
        forall|after: Read<'a, 'r>, r: Result<ReadCommand<'a>>, dsm: u8|
            #[trigger] call_ensures(Read::dataset_mgmt, (before, dsm), after)
                && #[trigger] call_ensures(Read::execute, (after,), r)
                ==> after.target() == before.target() && after.data_buf() == before.data_buf()
                && after.metadata_buf() == before.metadata_buf()
                && read_differs(plain, r, |a: IoArgs| (IoArgs { dsm, ..a })),
        forall|after: Read<'a, 'r>, r: Result<ReadCommand<'a>>, dspec: u16|
            #[trigger] call_ensures(Read::directive, (before, dspec), after)
                && #[trigger] call_ensures(Read::execute, (after,), r)
                ==> after.target() == before.target() && after.data_buf() == before.data_buf()
                && after.metadata_buf() == before.metadata_buf()
                && read_differs(plain, r, |a: IoArgs| (IoArgs { dspec, ..a })),
        forall|after: Read<'a, 'r>, r: Result<ReadCommand<'a>>|
            #[trigger] call_ensures(Read::streams, (before,), after)
                && #[trigger] call_ensures(Read::execute, (after,), r)
                ==> after.target() == before.target() && after.data_buf() == before.data_buf()
                && after.metadata_buf() == before.metadata_buf()
                && read_differs(plain, r, |a: IoArgs| (IoArgs { control: a.control | 0x0010u16, ..a })),
        forall|after: Read<'a, 'r>, r: Result<ReadCommand<'a>>, tag: u64|
            #[trigger] call_ensures(Read::storage_tag, (before, tag), after)
                && #[trigger] call_ensures(Read::execute, (after,), r)
                ==> after.target() == before.target() && after.data_buf() == before.data_buf()
                && after.metadata_buf() == before.metadata_buf()
                && read_differs(plain, r, |a: IoArgs| (IoArgs { storage_tag: tag, ..a })),
        forall|after: Read<'a, 'r>, r: Result<ReadCommand<'a>>|
            #[trigger] call_ensures(Read::check_storage_tag, (before,), after)
                && #[trigger] call_ensures(Read::execute, (after,), r)
                ==> after.target() == before.target() && after.data_buf() == before.data_buf()
                && after.metadata_buf() == before.metadata_buf()
                && read_differs(plain, r, |a: IoArgs| (IoArgs { control: a.control | 0x0100u16, ..a })),
        forall|after: Read<'a, 'r>, r: Result<ReadCommand<'a>>, sts: u8|
            #[trigger] call_ensures(Read::storage_tag_size, (before, sts), after)
                && #[trigger] call_ensures(Read::execute, (after,), r)
                ==> after.target() == before.target() && after.data_buf() == before.data_buf()
                && after.metadata_buf() == before.metadata_buf()
                && read_differs(plain, r, |a: IoArgs| (IoArgs { sts, ..a })),
        forall|after: Read<'a, 'r>, r: Result<ReadCommand<'a>>, pif: u8|
            #[trigger] call_ensures(Read::pi_format, (before, pif), after)
                && #[trigger] call_ensures(Read::execute, (after,), r)
                ==> after.target() == before.target() && after.data_buf() == before.data_buf()
                && after.metadata_buf() == before.metadata_buf()
                && read_differs(plain, r, |a: IoArgs| (IoArgs { pif, ..a })),
        forall|after: Read<'a, 'r>, r: Result<ReadCommand<'a>>, ms: u32|
            #[trigger] call_ensures(Read::timeout_ms, (before, ms), after)
                && #[trigger] call_ensures(Read::execute, (after,), r)
                ==> after.target() == before.target() && after.data_buf() == before.data_buf()
                && after.metadata_buf() == before.metadata_buf()
                && read_differs(plain, r, |a: IoArgs| (IoArgs { timeout: ms, ..a })),
{
}

/// A Write is accepted exactly where the blocks fit the buffer, and then carries the
/// opcode, the blocks and the buffer.
#[verifier::spinoff_prover]
pub proof fn write_encodes<'a, 'r>(
    attrs: NamespaceAttrs<'r>,
    ns: &'a Namespace<'r>,
    slba: u64,
    nlb: u32,
    buf: &'a [u8],
    b: Write<'a, 'r>,
    n: &'a Namespace<'r>,
    r: Result<WriteCommand<'a>>,
)
    requires
        call_ensures(Namespace::from_raw, (attrs,), *ns),
        call_ensures(Namespace::write, (ns, slba, nlb, buf), b),
        call_ensures(Write::namespace, (&b,), n),
        call_ensures(Write::execute, (b,), r),
    ensures
        *n == *ns,
        r is Ok <==> fits(attrs, nlb, Some(buf@)),
        r matches Ok(c) ==> c.opcode == 0x01 && names(c.args, attrs, slba, nlb, Some(buf@))
            && c.data@ == buf@ && c.metadata is None,
        r matches Err(e) ==> misfit(e, attrs, nlb, Some(buf@)),
{
}

/// Metadata attached to a Write stands in the command with its length, and nothing
/// else changes.
#[verifier::spinoff_prover]
pub proof fn write_metadata<'a, 'r>(
    before: Write<'a, 'r>,
    md: &'a [u8],
    after: Write<'a, 'r>,
    plain: Result<WriteCommand<'a>>,
    r: Result<WriteCommand<'a>>,
)
    requires
        call_ensures(Write::execute, (before,), plain),
        call_ensures(Write::metadata, (before, md), after),
        call_ensures(Write::execute, (after,), r),
    ensures
        after.target() == before.target(),
        match (plain, r) {
            (Ok(c), Ok(d)) => d.opcode == c.opcode && d.args == (IoArgs {
                metadata_len: (md@.len() as int % 0x1_0000_0000) as u32,
                ..c.args
            }) && d.data@ == c.data@ && shared(d.metadata) == Some(md@),
            (Err(x), Err(y)) => say_the_same(x, y),
            _ => false,
        },
{
}

/// Each option of a Write changes its own field of the command and nothing else:
/// a flag adds its bit to the control flags, every other option sets its field, and
/// no option decides whether the request is refused or which namespace it is for.
#[verifier::spinoff_prover]
pub proof fn write_options<'a, 'r>(before: Write<'a, 'r>, plain: Result<WriteCommand<'a>>)
    requires
        call_ensures(Write::execute, (before,), plain),
    ensures
        forall|after: Write<'a, 'r>, r: Result<WriteCommand<'a>>|
            #[trigger] call_ensures(Write::fua, (before,), after)
                && #[trigger] call_ensures(Write::execute, (after,), r)
                ==> after.target() == before.target()
                && write_differs(plain, r, |a: IoArgs| (IoArgs { control: a.control | 0x4000u16, ..a })),
        forall|after: Write<'a, 'r>, r: Result<WriteCommand<'a>>|
            #[trigger] call_ensures(Write::limited_retry, (before,), after)
                && #[trigger] call_ensures(Write::execute, (after,), r)
                ==> after.target() == before.target()
                && write_differs(plain, r, |a: IoArgs| (IoArgs { control: a.control | 0x8000u16, ..a })),
        forall|after: Write<'a, 'r>, r: Result<WriteCommand<'a>>|
            #[trigger] call_ensures(Write::protection_action, (before,), after)
                && #[trigger] call_ensures(Write::execute, (after,), r)
                ==> after.target() == before.target()
                && write_differs(plain, r, |a: IoArgs| (IoArgs { control: a.control | 0x2000u16, ..a })),
        forall|after: Write<'a, 'r>, r: Result<WriteCommand<'a>>|
            #[trigger] call_ensures(Write::check_reftag, (before,), after)
                && #[trigger] call_ensures(Write::execute, (after,), r)
                ==> after.target() == before.target()
                && write_differs(plain, r, |a: IoArgs| (IoArgs { control: a.control | 0x0400u16, ..a })),
        forall|after: Write<'a, 'r>, r: Result<WriteCommand<'a>>|
            #[trigger] call_ensures(Write::check_apptag, (before,), after)
                && #[trigger] call_ensures(Write::execute, (after,), r)
                ==> after.target() == before.target()
                && write_differs(plain, r, |a: IoArgs| (IoArgs { control: a.control | 0x0800u16, ..a })),
        forall|after: Write<'a, 'r>, r: Result<WriteCommand<'a>>|
            #[trigger] call_ensures(Write::check_guard, (before,), after)
                && #[trigger] call_ensures(Write::execute, (after,), r)
                ==> after.target() == before.target()
                && write_differs(plain, r, |a: IoArgs| (IoArgs { control: a.control | 0x1000u16, ..a })),
        forall|after: Write<'a, 'r>, r: Result<WriteCommand<'a>>, tag: u32|
            #[trigger] call_ensures(Write::ref_tag, (before, tag), after)
                && #[trigger] call_ensures(Write::execute, (after,), r)
                ==> after.target() == before.target()
                && write_differs(plain, r, |a: IoArgs| (IoArgs { reftag: tag, ..a })),
        forall|after: Write<'a, 'r>, r: Result<WriteCommand<'a>>, tag: u16|
            #[trigger] call_ensures(Write::app_tag, (before, tag), after)
                && #[trigger] call_ensures(Write::execute, (after,), r)
                ==> after.target() == before.target()
                && write_differs(plain, r, |a: IoArgs| (IoArgs { apptag: tag, ..a })),
        forall|after: Write<'a, 'r>, r: Result<WriteCommand<'a>>, mask: u16|
            #[trigger] call_ensures(Write::app_mask, (before, mask), after)
                && #[trigger] call_ensures(Write::execute, (after,), r)
                ==> after.target() == before.target()
                && write_differs(plain, r, |a: IoArgs| (IoArgs { appmask: mask, ..a })),
        forall|after: Write<'a, 'r>, r: Result<WriteCommand<'a>>, tag: u64|
            #[trigger] call_ensures(Write::ref_tag_u64, (before, tag), after)
                && #[trigger] call_ensures(Write::execute, (after,), r)
                ==> after.target() == before.target()
                && write_differs(plain, r, |a: IoArgs| (IoArgs { reftag_u64: tag, ..a })),
        forall|after: Write<'a, 'r>, r: Result<WriteCommand<'a>>, dsm: u8|
            #[trigger] call_ensures(Write::dataset_mgmt, (before, dsm), after)
                && #[trigger] call_ensures(Write::execute, (after,), r)
                ==> after.target() == before.target()
                && write_differs(plain, r, |a: IoArgs| (IoArgs { dsm, ..a })),
        forall|after: Write<'a, 'r>, r: Result<WriteCommand<'a>>, dspec: u16|
            #[trigger] call_ensures(Write::directive, (before, dspec), after)
                && #[trigger] call_ensures(Write::execute, (after,), r)
                ==> after.target() == before.target()
                && write_differs(plain, r, |a: IoArgs| (IoArgs { dspec, ..a })),
        forall|after: Write<'a, 'r>, r: Result<WriteCommand<'a>>|
            #[trigger] call_ensures(Write::streams, (before,), after)
                && #[trigger] call_ensures(Write::execute, (after,), r)
                ==> after.target() == before.target()
                && write_differs(plain, r, |a: IoArgs| (IoArgs { control: a.control | 0x0010u16, ..a })),
        forall|after: Write<'a, 'r>, r: Result<WriteCommand<'a>>, tag: u64|
            #[trigger] call_ensures(Write::storage_tag, (before, tag), after)
                && #[trigger] call_ensures(Write::execute, (after,), r)
                ==> after.target() == before.target()
                && write_differs(plain, r, |a: IoArgs| (IoArgs { storage_tag: tag, ..a })),
        forall|after: Write<'a, 'r>, r: Result<WriteCommand<'a>>|
            #[trigger] call_ensures(Write::check_storage_tag, (before,), after)
                && #[trigger] call_ensures(Write::execute, (after,), r)
                ==> after.target() == before.target()
                && write_differs(plain, r, |a: IoArgs| (IoArgs { control: a.control | 0x0100u16, ..a })),
        forall|after: Write<'a, 'r>, r: Result<WriteCommand<'a>>, sts: u8|
            #[trigger] call_ensures(Write::storage_tag_size, (before, sts), after)
                && #[trigger] call_ensures(Write::execute, (after,), r)
                ==> after.target() == before.target()
                && write_differs(plain, r, |a: IoArgs| (IoArgs { sts, ..a })),
        forall|after: Write<'a, 'r>, r: Result<WriteCommand<'a>>, pif: u8|
            #[trigger] call_ensures(Write::pi_format, (before, pif), after)
                && #[trigger] call_ensures(Write::execute, (after,), r)
                ==> after.target() == before.target()
                && write_differs(plain, r, |a: IoArgs| (IoArgs { pif, ..a })),
        forall|after: Write<'a, 'r>, r: Result<WriteCommand<'a>>, ms: u32|
            #[trigger] call_ensures(Write::timeout_ms, (before, ms), after)
                && #[trigger] call_ensures(Write::execute, (after,), r)
                ==> after.target() == before.target()
                && write_differs(plain, r, |a: IoArgs| (IoArgs { timeout: ms, ..a })),
{
}

/// A Compare is accepted exactly where the blocks fit the buffer, and then carries the
/// opcode, the blocks and the buffer.
#[verifier::spinoff_prover]
pub proof fn compare_encodes<'a, 'r>(
    attrs: NamespaceAttrs<'r>,
    ns: &'a Namespace<'r>,
    slba: u64,
    nlb: u32,
    buf: &'a [u8],
    b: Compare<'a, 'r>,
    n: &'a Namespace<'r>,
    r: Result<WriteCommand<'a>>,
)
    requires
        call_ensures(Namespace::from_raw, (attrs,), *ns),
        call_ensures(Namespace::compare, (ns, slba, nlb, buf), b),
        call_ensures(Compare::namespace, (&b,), n),
        call_ensures(Compare::execute, (b,), r),
    ensures
        *n == *ns,
        r is Ok <==> fits(attrs, nlb, Some(buf@)),
        r matches Ok(c) ==> c.opcode == 0x05 && names(c.args, attrs, slba, nlb, Some(buf@))
            && c.data@ == buf@ && c.metadata is None,
        r matches Err(e) ==> misfit(e, attrs, nlb, Some(buf@)),
{
}

/// Metadata attached to a Compare stands in the command with its length, and nothing
/// else changes.
#[verifier::spinoff_prover]
pub proof fn compare_metadata<'a, 'r>(
    before: Compare<'a, 'r>,
    md: &'a [u8],
    after: Compare<'a, 'r>,
    plain: Result<WriteCommand<'a>>,
    r: Result<WriteCommand<'a>>,
)
    requires
        call_ensures(Compare::execute, (before,), plain),
        call_ensures(Compare::metadata, (before, md), after),
        call_ensures(Compare::execute, (after,), r),
    ensures
        after.target() == before.target(),
        match (plain, r) {
            (Ok(c), Ok(d)) => d.opcode == c.opcode && d.args == (IoArgs {
                metadata_len: (md@.len() as int % 0x1_0000_0000) as u32,
                ..c.args
            }) && d.data@ == c.data@ && shared(d.metadata) == Some(md@),
            (Err(x), Err(y)) => say_the_same(x, y),
            _ => false,
        },
{
}

/// Each option of a Compare changes its own field of the command and nothing else:
/// a flag adds its bit to the control flags, every other option sets its field, and
/// no option decides whether the request is refused or which namespace it is for.
#[verifier::spinoff_prover]
pub proof fn compare_options<'a, 'r>(before: Compare<'a, 'r>, plain: Result<WriteCommand<'a>>)
    requires
        call_ensures(Compare::execute, (before,), plain),
    ensures
        forall|after: Compare<'a, 'r>, r: Result<WriteCommand<'a>>|
            #[trigger] call_ensures(Compare::fua, (before,), after)
                && #[trigger] call_ensures(Compare::execute, (after,), r)
                ==> after.target() == before.target()
                && write_differs(plain, r, |a: IoArgs| (IoArgs { control: a.control | 0x4000u16, ..a })),
        forall|after: Compare<'a, 'r>, r: Result<WriteCommand<'a>>|
            #[trigger] call_ensures(Compare::limited_retry, (before,), after)
                && #[trigger] call_ensures(Compare::execute, (after,), r)
                ==> after.target() == before.target()
                && write_differs(plain, r, |a: IoArgs| (IoArgs { control: a.control | 0x8000u16, ..a })),
        forall|after: Compare<'a, 'r>, r: Result<WriteCommand<'a>>|
            #[trigger] call_ensures(Compare::protection_action, (before,), after)
                && #[trigger] call_ensures(Compare::execute, (after,), r)
                ==> after.target() == before.target()
                && write_differs(plain, r, |a: IoArgs| (IoArgs { control: a.control | 0x2000u16, ..a })),
        forall|after: Compare<'a, 'r>, r: Result<WriteCommand<'a>>|
            #[trigger] call_ensures(Compare::check_reftag, (before,), after)
                && #[trigger] call_ensures(Compare::execute, (after,), r)
                ==> after.target() == before.target()
                && write_differs(plain, r, |a: IoArgs| (IoArgs { control: a.control | 0x0400u16, ..a })),
        forall|after: Compare<'a, 'r>, r: Result<WriteCommand<'a>>|
            #[trigger] call_ensures(Compare::check_apptag, (before,), after)
                && #[trigger] call_ensures(Compare::execute, (after,), r)
                ==> after.target() == before.target()
                && write_differs(plain, r, |a: IoArgs| (IoArgs { control: a.control | 0x0800u16, ..a })),
        forall|after: Compare<'a, 'r>, r: Result<WriteCommand<'a>>|
            #[trigger] call_ensures(Compare::check_guard, (before,), after)
                && #[trigger] call_ensures(Compare::execute, (after,), r)
                ==> after.target() == before.target()
                && write_differs(plain, r, |a: IoArgs| (IoArgs { control: a.control | 0x1000u16, ..a })),
        forall|after: Compare<'a, 'r>, r: Result<WriteCommand<'a>>, tag: u32|
            #[trigger] call_ensures(Compare::ref_tag, (before, tag), after)
                && #[trigger] call_ensures(Compare::execute, (after,), r)
                ==> after.target() == before.target()
                && write_differs(plain, r, |a: IoArgs| (IoArgs { reftag: tag, ..a })),
        forall|after: Compare<'a, 'r>, r: Result<WriteCommand<'a>>, tag: u16|
            #[trigger] call_ensures(Compare::app_tag, (before, tag), after)
                && #[trigger] call_ensures(Compare::execute, (after,), r)
                ==> after.target() == before.target()
                && write_differs(plain, r, |a: IoArgs| (IoArgs { apptag: tag, ..a })),
        forall|after: Compare<'a, 'r>, r: Result<WriteCommand<'a>>, mask: u16|
            #[trigger] call_ensures(Compare::app_mask, (before, mask), after)
                && #[trigger] call_ensures(Compare::execute, (after,), r)
                ==> after.target() == before.target()
                && write_differs(plain, r, |a: IoArgs| (IoArgs { appmask: mask, ..a })),
        forall|after: Compare<'a, 'r>, r: Result<WriteCommand<'a>>, tag: u64|
            #[trigger] call_ensures(Compare::ref_tag_u64, (before, tag), after)
                && #[trigger] call_ensures(Compare::execute, (after,), r)
                ==> after.target() == before.target()
                && write_differs(plain, r, |a: IoArgs| (IoArgs { reftag_u64: tag, ..a })),
        forall|after: Compare<'a, 'r>, r: Result<WriteCommand<'a>>, dsm: u8|
            #[trigger] call_ensures(Compare::dataset_mgmt, (before, dsm), after)
                && #[trigger] call_ensures(Compare::execute, (after,), r)
                ==> after.target() == before.target()
                && write_differs(plain, r, |a: IoArgs| (IoArgs { dsm, ..a })),
        forall|after: Compare<'a, 'r>, r: Result<WriteCommand<'a>>, dspec: u16|
            #[trigger] call_ensures(Compare::directive, (before, dspec), after)
                && #[trigger] call_ensures(Compare::execute, (after,), r)
                ==> after.target() == before.target()
                && write_differs(plain, r, |a: IoArgs| (IoArgs { dspec, ..a })),
        forall|after: Compare<'a, 'r>, r: Result<WriteCommand<'a>>|
            #[trigger] call_ensures(Compare::streams, (before,), after)
                && #[trigger] call_ensures(Compare::execute, (after,), r)
                ==> after.target() == before.target()
                && write_differs(plain, r, |a: IoArgs| (IoArgs { control: a.control | 0x0010u16, ..a })),
        forall|after: Compare<'a, 'r>, r: Result<WriteCommand<'a>>, tag: u64|
            #[trigger] call_ensures(Compare::storage_tag, (before, tag), after)
                && #[trigger] call_ensures(Compare::execute, (after,), r)
                ==> after.target() == before.target()
                && write_differs(plain, r, |a: IoArgs| (IoArgs { storage_tag: tag, ..a })),
        forall|after: Compare<'a, 'r>, r: Result<WriteCommand<'a>>|
            #[trigger] call_ensures(Compare::check_storage_tag, (before,), after)
                && #[trigger] call_ensures(Compare::execute, (after,), r)
                ==> after.target() == before.target()
                && write_differs(plain, r, |a: IoArgs| (IoArgs { control: a.control | 0x0100u16, ..a })),
        forall|after: Compare<'a, 'r>, r: Result<WriteCommand<'a>>, sts: u8|
            #[trigger] call_ensures(Compare::storage_tag_size, (before, sts), after)
                && #[trigger] call_ensures(Compare::execute, (after,), r)
                ==> after.target() == before.target()
                && write_differs(plain, r, |a: IoArgs| (IoArgs { sts, ..a })),
        forall|after: Compare<'a, 'r>, r: Result<WriteCommand<'a>>, pif: u8|
            #[trigger] call_ensures(Compare::pi_format, (before, pif), after)
                && #[trigger] call_ensures(Compare::execute, (after,), r)
                ==> after.target() == before.target()
                && write_differs(plain, r, |a: IoArgs| (IoArgs { pif, ..a })),
        forall|after: Compare<'a, 'r>, r: Result<WriteCommand<'a>>, ms: u32|
            #[trigger] call_ensures(Compare::timeout_ms, (before, ms), after)
                && #[trigger] call_ensures(Compare::execute, (after,), r)
                ==> after.target() == before.target()
                && write_differs(plain, r, |a: IoArgs| (IoArgs { timeout: ms, ..a })),
{
}

/// A Verify is accepted exactly where the blocks can be named, and then carries
/// the opcode and the blocks.
#[verifier::spinoff_prover]
pub proof fn verify_encodes<'a, 'r>(
    attrs: NamespaceAttrs<'r>,
    ns: &'a Namespace<'r>,
    slba: u64,
    nlb: u32,
    b: Verify<'a, 'r>,
    n: &'a Namespace<'r>,
    r: Result<NoDataCommand>,
)
    requires
        call_ensures(Namespace::from_raw, (attrs,), *ns),
        call_ensures(Namespace::verify, (ns, slba, nlb), b),
        call_ensures(Verify::namespace, (&b,), n),
        call_ensures(Verify::execute, (b,), r),
    ensures
        *n == *ns,
        r is Ok <==> fits(attrs, nlb, None),
        r matches Ok(c) ==> c.opcode == 0x0c && names(c.args, attrs, slba, nlb, None),
        r matches Err(e) ==> misfit(e, attrs, nlb, None),
{
}

/// Each option of a Verify changes its own field of the command and nothing else:
/// a flag adds its bit to the control flags, every other option sets its field, and
/// no option decides whether the request is refused or which namespace it is for.
#[verifier::spinoff_prover]
pub proof fn verify_options<'a, 'r>(before: Verify<'a, 'r>, plain: Result<NoDataCommand>)
    requires
        call_ensures(Verify::execute, (before,), plain),
    ensures
        forall|after: Verify<'a, 'r>, r: Result<NoDataCommand>|
            #[trigger] call_ensures(Verify::fua, (before,), after)
                && #[trigger] call_ensures(Verify::execute, (after,), r)
                ==> after.target() == before.target()
                && block_differs(plain, r, |a: IoArgs| (IoArgs { control: a.control | 0x4000u16, ..a })),
        forall|after: Verify<'a, 'r>, r: Result<NoDataCommand>|
            #[trigger] call_ensures(Verify::limited_retry, (before,), after)
                && #[trigger] call_ensures(Verify::execute, (after,), r)
                ==> after.target() == before.target()
                && block_differs(plain, r, |a: IoArgs| (IoArgs { control: a.control | 0x8000u16, ..a })),
        forall|after: Verify<'a, 'r>, r: Result<NoDataCommand>|
            #[trigger] call_ensures(Verify::protection_action, (before,), after)
                && #[trigger] call_ensures(Verify::execute, (after,), r)
                ==> after.target() == before.target()
                && block_differs(plain, r, |a: IoArgs| (IoArgs { control: a.control | 0x2000u16, ..a })),
        forall|after: Verify<'a, 'r>, r: Result<NoDataCommand>|
            #[trigger] call_ensures(Verify::check_reftag, (before,), after)
                && #[trigger] call_ensures(Verify::execute, (after,), r)
                ==> after.target() == before.target()
                && block_differs(plain, r, |a: IoArgs| (IoArgs { control: a.control | 0x0400u16, ..a })),
        forall|after: Verify<'a, 'r>, r: Result<NoDataCommand>|
            #[trigger] call_ensures(Verify::check_apptag, (before,), after)
                && #[trigger] call_ensures(Verify::execute, (after,), r)
                ==> after.target() == before.target()
                && block_differs(plain, r, |a: IoArgs| (IoArgs { control: a.control | 0x0800u16, ..a })),
        forall|after: Verify<'a, 'r>, r: Result<NoDataCommand>|
            #[trigger] call_ensures(Verify::check_guard, (before,), after)
                && #[trigger] call_ensures(Verify::execute, (after,), r)
                ==> after.target() == before.target()
                && block_differs(plain, r, |a: IoArgs| (IoArgs { control: a.control | 0x1000u16, ..a })),
        forall|after: Verify<'a, 'r>, r: Result<NoDataCommand>, tag: u32|
            #[trigger] call_ensures(Verify::ref_tag, (before, tag), after)
                && #[trigger] call_ensures(Verify::execute, (after,), r)
                ==> after.target() == before.target()
                && block_differs(plain, r, |a: IoArgs| (IoArgs { reftag: tag, ..a })),
        forall|after: Verify<'a, 'r>, r: Result<NoDataCommand>, tag: u16|
            #[trigger] call_ensures(Verify::app_tag, (before, tag), after)
                && #[trigger] call_ensures(Verify::execute, (after,), r)
                ==> after.target() == before.target()
                && block_differs(plain, r, |a: IoArgs| (IoArgs { apptag: tag, ..a })),
        forall|after: Verify<'a, 'r>, r: Result<NoDataCommand>, mask: u16|
            #[trigger] call_ensures(Verify::app_mask, (before, mask), after)
                && #[trigger] call_ensures(Verify::execute, (after,), r)
                ==> after.target() == before.target()
                && block_differs(plain, r, |a: IoArgs| (IoArgs { appmask: mask, ..a })),
        forall|after: Verify<'a, 'r>, r: Result<NoDataCommand>, ms: u32|
            #[trigger] call_ensures(Verify::timeout_ms, (before, ms), after)
                && #[trigger] call_ensures(Verify::execute, (after,), r)
                ==> after.target() == before.target()
                && block_differs(plain, r, |a: IoArgs| (IoArgs { timeout: ms, ..a })),
{
}

/// A Write Zeroes is accepted exactly where the blocks can be named, and then carries
/// the opcode and the blocks.
#[verifier::spinoff_prover]
pub proof fn write_zeroes_encodes<'a, 'r>(
    attrs: NamespaceAttrs<'r>,
    ns: &'a Namespace<'r>,
    slba: u64,
    nlb: u32,
    b: WriteZeroes<'a, 'r>,
    n: &'a Namespace<'r>,
    r: Result<NoDataCommand>,
)
    requires
        call_ensures(Namespace::from_raw, (attrs,), *ns),
        call_ensures(Namespace::write_zeroes, (ns, slba, nlb), b),
        call_ensures(WriteZeroes::namespace, (&b,), n),
        call_ensures(WriteZeroes::execute, (b,), r),
    ensures
        *n == *ns,
        r is Ok <==> fits(attrs, nlb, None),
        r matches Ok(c) ==> c.opcode == 0x08 && names(c.args, attrs, slba, nlb, None),
        r matches Err(e) ==> misfit(e, attrs, nlb, None),
{
}

/// Each option of a Write Zeroes changes its own field of the command and nothing else:
/// a flag adds its bit to the control flags, every other option sets its field, and
/// no option decides whether the request is refused or which namespace it is for.
#[verifier::spinoff_prover]
pub proof fn write_zeroes_options<'a, 'r>(before: WriteZeroes<'a, 'r>, plain: Result<NoDataCommand>)
    requires
        call_ensures(WriteZeroes::execute, (before,), plain),
    ensures
        forall|after: WriteZeroes<'a, 'r>, r: Result<NoDataCommand>|
            #[trigger] call_ensures(WriteZeroes::fua, (before,), after)
                && #[trigger] call_ensures(WriteZeroes::execute, (after,), r)
                ==> after.target() == before.target()
                && block_differs(plain, r, |a: IoArgs| (IoArgs { control: a.control | 0x4000u16, ..a })),
        forall|after: WriteZeroes<'a, 'r>, r: Result<NoDataCommand>|
            #[trigger] call_ensures(WriteZeroes::limited_retry, (before,), after)
                && #[trigger] call_ensures(WriteZeroes::execute, (after,), r)
                ==> after.target() == before.target()
                && block_differs(plain, r, |a: IoArgs| (IoArgs { control: a.control | 0x8000u16, ..a })),
        forall|after: WriteZeroes<'a, 'r>, r: Result<NoDataCommand>|
            #[trigger] call_ensures(WriteZeroes::protection_action, (before,), after)
                && #[trigger] call_ensures(WriteZeroes::execute, (after,), r)
                ==> after.target() == before.target()
                && block_differs(plain, r, |a: IoArgs| (IoArgs { control: a.control | 0x2000u16, ..a })),
        forall|after: WriteZeroes<'a, 'r>, r: Result<NoDataCommand>|
            #[trigger] call_ensures(WriteZeroes::check_reftag, (before,), after)
                && #[trigger] call_ensures(WriteZeroes::execute, (after,), r)
                ==> after.target() == before.target()
                && block_differs(plain, r, |a: IoArgs| (IoArgs { control: a.control | 0x0400u16, ..a })),
        forall|after: WriteZeroes<'a, 'r>, r: Result<NoDataCommand>|
            #[trigger] call_ensures(WriteZeroes::check_apptag, (before,), after)
                && #[trigger] call_ensures(WriteZeroes::execute, (after,), r)
                ==> after.target() == before.target()
                && block_differs(plain, r, |a: IoArgs| (IoArgs { control: a.control | 0x0800u16, ..a })),
        forall|after: WriteZeroes<'a, 'r>, r: Result<NoDataCommand>|
            #[trigger] call_ensures(WriteZeroes::check_guard, (before,), after)
                && #[trigger] call_ensures(WriteZeroes::execute, (after,), r)
                ==> after.target() == before.target()
                && block_differs(plain, r, |a: IoArgs| (IoArgs { control: a.control | 0x1000u16, ..a })),
        forall|after: WriteZeroes<'a, 'r>, r: Result<NoDataCommand>, tag: u32|
            #[trigger] call_ensures(WriteZeroes::ref_tag, (before, tag), after)
                && #[trigger] call_ensures(WriteZeroes::execute, (after,), r)
                ==> after.target() == before.target()
                && block_differs(plain, r, |a: IoArgs| (IoArgs { reftag: tag, ..a })),
        forall|after: WriteZeroes<'a, 'r>, r: Result<NoDataCommand>, tag: u16|
            #[trigger] call_ensures(WriteZeroes::app_tag, (before, tag), after)
                && #[trigger] call_ensures(WriteZeroes::execute, (after,), r)
                ==> after.target() == before.target()
                && block_differs(plain, r, |a: IoArgs| (IoArgs { apptag: tag, ..a })),
        forall|after: WriteZeroes<'a, 'r>, r: Result<NoDataCommand>, mask: u16|
            #[trigger] call_ensures(WriteZeroes::app_mask, (before, mask), after)
                && #[trigger] call_ensures(WriteZeroes::execute, (after,), r)
                ==> after.target() == before.target()
                && block_differs(plain, r, |a: IoArgs| (IoArgs { appmask: mask, ..a })),
        forall|after: WriteZeroes<'a, 'r>, r: Result<NoDataCommand>, ms: u32|
            #[trigger] call_ensures(WriteZeroes::timeout_ms, (before, ms), after)
                && #[trigger] call_ensures(WriteZeroes::execute, (after,), r)
                ==> after.target() == before.target()
                && block_differs(plain, r, |a: IoArgs| (IoArgs { timeout: ms, ..a })),
        forall|after: WriteZeroes<'a, 'r>, r: Result<NoDataCommand>|
            #[trigger] call_ensures(WriteZeroes::deallocate, (before,), after)
                && #[trigger] call_ensures(WriteZeroes::execute, (after,), r)
                ==> after.target() == before.target()
                && block_differs(plain, r, |a: IoArgs| (IoArgs { control: a.control | 0x0200u16, ..a })),
        forall|after: WriteZeroes<'a, 'r>, r: Result<NoDataCommand>|
            #[trigger] call_ensures(WriteZeroes::no_deallocate_after_zero, (before,), after)
                && #[trigger] call_ensures(WriteZeroes::execute, (after,), r)
                ==> after.target() == before.target()
                && block_differs(plain, r, |a: IoArgs| (IoArgs { control: a.control | 0x0080u16, ..a })),
{
}

/// A Write Uncorrectable is accepted exactly where the blocks can be named, and then carries
/// the opcode and the blocks.
#[verifier::spinoff_prover]
pub proof fn write_uncorrectable_encodes<'a, 'r>(
    attrs: NamespaceAttrs<'r>,
    ns: &'a Namespace<'r>,
    slba: u64,
    nlb: u32,
    b: WriteUncorrectable<'a, 'r>,
    n: &'a Namespace<'r>,
    r: Result<NoDataCommand>,
)
    requires
        call_ensures(Namespace::from_raw, (attrs,), *ns),
        call_ensures(Namespace::write_uncorrectable, (ns, slba, nlb), b),
        call_ensures(WriteUncorrectable::namespace, (&b,), n),
        call_ensures(WriteUncorrectable::execute, (b,), r),
    ensures
        *n == *ns,
        r is Ok <==> fits(attrs, nlb, None),
        r matches Ok(c) ==> c.opcode == 0x04 && names(c.args, attrs, slba, nlb, None),
        r matches Err(e) ==> misfit(e, attrs, nlb, None),
{
}

/// Each option of a Write Uncorrectable changes its own field of the command and nothing else:
/// a flag adds its bit to the control flags, every other option sets its field, and
/// no option decides whether the request is refused or which namespace it is for.
#[verifier::spinoff_prover]
pub proof fn write_uncorrectable_options<'a, 'r>(before: WriteUncorrectable<'a, 'r>, plain: Result<NoDataCommand>)
    requires
        call_ensures(WriteUncorrectable::execute, (before,), plain),
    ensures
        forall|after: WriteUncorrectable<'a, 'r>, r: Result<NoDataCommand>, ms: u32|
            #[trigger] call_ensures(WriteUncorrectable::timeout_ms, (before, ms), after)
                && #[trigger] call_ensures(WriteUncorrectable::execute, (after,), r)
                ==> after.target() == before.target()
                && block_differs(plain, r, |a: IoArgs| (IoArgs { timeout: ms, ..a })),
{
}

/// A Flush is an I/O command that carries its opcode and the namespace, and zero
/// everywhere else.
pub proof fn flush_encodes<'r>(
    attrs: NamespaceAttrs<'r>,
    ns: Namespace<'r>,
    c: PassthruCommand<'static>,
)
    requires
        call_ensures(Namespace::from_raw, (attrs,), ns),
        call_ensures(Namespace::flush, (&ns,), c),
    ensures
        c.set == CommandSet::Io,
        c.opcode == 0x00,
        c.nsid == unsigned(attrs.nsid),
        c.flags == 0,
        c.rsvd == 0,
        c.cdw2 == 0,
        c.cdw3 == 0,
        c.cdw10 == 0,
        c.cdw11 == 0,
        c.cdw12 == 0,
        c.cdw13 == 0,
        c.cdw14 == 0,
        c.cdw15 == 0,
        c.data is None,
        c.data_len == 0,
        c.metadata is None,
        c.metadata_len == 0,
        c.timeout == 0,
{
}

} // verus!
