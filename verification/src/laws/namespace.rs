//! What a namespace reports, and what formatting it encodes.

use super::fields::trimmed_is_the_core;
use super::{core_of, reads_c, reads_c_core, unsigned};
use crate::admin::{MetadataSettings, ProtectionInfo, ProtectionLocation, SecureErase};
use crate::error::Result;
use crate::namespace::{Format, FormatCommand, Namespace, NamespaceAttrs};
use vstd::prelude::*;

verus! {

/// A new Format NVM carries the namespace, and for everything else the value that
/// stands for nothing asked for.
#[verifier::spinoff_prover]
pub proof fn format_encodes<'a, 'r>(
    attrs: NamespaceAttrs<'r>,
    ns: &'a Namespace<'r>,
    b: Format<'a, 'r>,
    n: &'a Namespace<'r>,
    c: FormatCommand,
)
    requires
        call_ensures(Namespace::from_raw, (attrs,), *ns),
        call_ensures(Namespace::format, (ns,), b),
        call_ensures(Format::namespace, (&b,), n),
        call_ensures(Format::execute, (b,), c),
    ensures
        *n == *ns,
        c.nsid == unsigned(attrs.nsid),
        c.lbaf == 0,
        c.lbafu == 0,
        c.ses == 0,
        c.pi == 0,
        c.pil == 0,
        c.mset == 0,
        c.timeout == 0,
{
}

/// Each option of a Format NVM changes its own field of the command and nothing
/// else.
#[verifier::spinoff_prover]
pub proof fn format_options<'a, 'r>(before: Format<'a, 'r>, plain: FormatCommand)
    requires
        call_ensures(Format::execute, (before,), plain),
    ensures
        forall|after: Format<'a, 'r>, r: FormatCommand, index: u8|
            #[trigger] call_ensures(Format::lba_format, (before, index), after)
                && #[trigger] call_ensures(Format::execute, (after,), r)
                ==> after.target() == before.target()
                && r == (FormatCommand { lbaf: index, ..plain }),
        forall|after: Format<'a, 'r>, r: FormatCommand, upper: u8|
            #[trigger] call_ensures(Format::lba_format_upper, (before, upper), after)
                && #[trigger] call_ensures(Format::execute, (after,), r)
                ==> after.target() == before.target()
                && r == (FormatCommand { lbafu: upper, ..plain }),
        forall|after: Format<'a, 'r>, r: FormatCommand, mode: SecureErase, code: u32|
            #[trigger] call_ensures(SecureErase::as_raw, (mode,), code)
                && #[trigger] call_ensures(Format::secure_erase, (before, mode), after)
                && #[trigger] call_ensures(Format::execute, (after,), r)
                ==> after.target() == before.target()
                && r == (FormatCommand { ses: code, ..plain }),
        forall|after: Format<'a, 'r>, r: FormatCommand, info: ProtectionInfo, code: u32|
            #[trigger] call_ensures(ProtectionInfo::as_raw, (info,), code)
                && #[trigger] call_ensures(Format::protection_info, (before, info), after)
                && #[trigger] call_ensures(Format::execute, (after,), r)
                ==> after.target() == before.target() && r == (FormatCommand { pi: code, ..plain }),
        forall|after: Format<'a, 'r>, r: FormatCommand, location: ProtectionLocation, code: u32|
            #[trigger] call_ensures(ProtectionLocation::as_raw, (location,), code)
                && #[trigger] call_ensures(Format::protection_location, (before, location), after)
                && #[trigger] call_ensures(Format::execute, (after,), r)
                ==> after.target() == before.target()
                && r == (FormatCommand { pil: code, ..plain }),
        forall|after: Format<'a, 'r>, r: FormatCommand, settings: MetadataSettings, code: u32|
            #[trigger] call_ensures(MetadataSettings::as_raw, (settings,), code)
                && #[trigger] call_ensures(Format::metadata, (before, settings), after)
                && #[trigger] call_ensures(Format::execute, (after,), r)
                ==> after.target() == before.target()
                && r == (FormatCommand { mset: code, ..plain }),
        forall|after: Format<'a, 'r>, r: FormatCommand, ms: u32|
            #[trigger] call_ensures(Format::timeout_ms, (before, ms), after)
                && #[trigger] call_ensures(Format::execute, (after,), r)
                ==> after.target() == before.target()
                && r == (FormatCommand { timeout: ms, ..plain }),
{
}

/// The numbers that a namespace reports are those that libnvme gave: C `int`s by
/// their bits, the command set by its low byte, an identifier that is not given as
/// zero, and the size as the product of count and block size, capped at the largest
/// 64-bit number.
pub proof fn numbers<'r>(attrs: NamespaceAttrs<'r>, x: Namespace<'r>)
    requires
        call_ensures(Namespace::from_raw, (attrs,), x),
    ensures
        forall|r: u32|
            #[trigger] call_ensures(Namespace::nsid, (&x,), r) ==> r == unsigned(attrs.nsid),
        forall|r: u32|
            #[trigger] call_ensures(Namespace::lba_size, (&x,), r)
                ==> r == unsigned(attrs.lba_size),
        forall|r: u32|
            #[trigger] call_ensures(Namespace::meta_size, (&x,), r)
                ==> r == unsigned(attrs.meta_size),
        forall|r: u64|
            #[trigger] call_ensures(Namespace::lba_count, (&x,), r) ==> r == attrs.lba_count,
        forall|r: u64|
            #[trigger] call_ensures(Namespace::lba_utilization, (&x,), r) ==> r == attrs.lba_util,
        forall|r: u8|
            #[trigger] call_ensures(Namespace::csi, (&x,), r)
                ==> r as int == attrs.csi as int % 256,
        forall|r: [u8; 16]|
            #[trigger] call_ensures(Namespace::uuid, (&x,), r) ==> r@ == attrs.uuid@,
        forall|r: [u8; 16]|
            #[trigger] call_ensures(Namespace::nguid, (&x,), r)
                ==> (match attrs.nguid { Some(id) => r@ == id@, None => forall|i: int| 0 <= i < 16 ==> #[trigger] r@[i] == 0 }),
        forall|r: [u8; 8]|
            #[trigger] call_ensures(Namespace::eui64, (&x,), r)
                ==> (match attrs.eui64 { Some(id) => r@ == id@, None => forall|i: int| 0 <= i < 8 ==> #[trigger] r@[i] == 0 }),
        forall|r: u64|
            #[trigger] call_ensures(Namespace::size_bytes, (&x,), r)
                ==> r as int == (if attrs.lba_count * unsigned(attrs.lba_size) < 0x1_0000_0000_0000_0000 { attrs.lba_count * unsigned(attrs.lba_size) } else { 0xffff_ffff_ffff_ffff }),
{
}

/// The texts that a namespace reports are those that libnvme gave: its names as they
/// are, and what its controller says without the blanks at the ends.
pub proof fn texts<'r>(attrs: NamespaceAttrs<'r>, x: Namespace<'r>)
    requires
        call_ensures(Namespace::from_raw, (attrs,), x),
    ensures
        forall|r: Result<&'r str>|
            #[trigger] call_ensures(Namespace::name, (&x,), r) ==> reads_c(r, attrs.name),
        forall|r: Result<&'r str>|
            #[trigger] call_ensures(Namespace::generic_name, (&x,), r)
                ==> reads_c(r, attrs.generic_name),
        forall|r: Result<&'r str>|
            #[trigger] call_ensures(Namespace::model, (&x,), r) ==> reads_c_core(r, attrs.model),
        forall|r: Result<&'r str>|
            #[trigger] call_ensures(Namespace::serial, (&x,), r) ==> reads_c_core(r, attrs.serial),
        forall|r: Result<&'r str>|
            #[trigger] call_ensures(Namespace::firmware, (&x,), r)
                ==> reads_c_core(r, attrs.firmware),
{
    if let Some(b) = attrs.model {
        let (i, j) = trimmed_is_the_core(b@);
        assert(core_of(b@, i, j));
    }
    if let Some(b) = attrs.serial {
        let (i, j) = trimmed_is_the_core(b@);
        assert(core_of(b@, i, j));
    }
    if let Some(b) = attrs.firmware {
        let (i, j) = trimmed_is_the_core(b@);
        assert(core_of(b@, i, j));
    }
}

} // verus!
