//! Standalone admin commands.
//!
//! Sanitize, Device Self-Test, Security Send/Receive, Lockdown, Get LBA Status,
//! Set/Get Property (Fabrics), and the generic Admin/IO Passthru escape hatches.
//! Each command is a method on [`Controller`] that returns the command to hand
//! to libnvme.

use crate::admin::{SanitizeAction, SelfTestAction};
use crate::util;
use crate::util::len_u32;
use vstd::prelude::*;

verus! {

/// An NVMe controller, known by a handle of type `H`.
#[derive(Debug)]
pub struct Controller<H> {
    inner: H,
}

impl<H> View for Controller<H> {
    type V = H;

    closed spec fn view(&self) -> H {
        self.inner
    }
}

/// A Sanitize NVM command, ready to be issued: also the view of [`Sanitize`].
#[derive(Debug, Clone, Copy, PartialEq, Eq, Structural)]
pub struct SanitizeCommand {
    /// Timeout in milliseconds.
    pub timeout: u32,
    /// Sanitize action.
    pub sanact: u32,
    /// Overwrite pattern.
    pub ovrpat: u32,
    /// Allow Unrestricted Sanitize Exit.
    pub ause: bool,
    /// Number of overwrite passes.
    pub owpass: u8,
    /// Overwrite Invert Between Passes.
    pub oipbp: bool,
    /// No Deallocate After Sanitize.
    pub nodas: bool,
    /// Emulated Media Verify.
    pub emvs: bool,
}

/// Builder for the Sanitize NVM admin command.
///
/// Created by [`Controller::sanitize`]. Defaults to `BlockErase` with no
/// AUSE, no overwrite passes, no invert, allow deallocation. Tune via the
/// chainable setters then call [`Sanitize::execute`].
#[must_use]
pub struct Sanitize<'a, H> {
    ctrl: &'a Controller<H>,
    action: SanitizeAction,
    ause: bool,
    owpass: u8,
    oipbp: bool,
    nodas: bool,
    emvs: bool,
    ovrpat: u32,
    timeout_ms: u32,
}

impl<'a, H> View for Sanitize<'a, H> {
    type V = SanitizeCommand;

    closed spec fn view(&self) -> SanitizeCommand {
        SanitizeCommand {
            timeout: self.timeout_ms,
            sanact: self.action.code(),
            ovrpat: self.ovrpat,
            ause: self.ause,
            owpass: self.owpass,
            oipbp: self.oipbp,
            nodas: self.nodas,
            emvs: self.emvs,
        }
    }
}

impl<'a, H> Sanitize<'a, H> {
    /// The controller that the command is for.
    pub closed spec fn target(self) -> Controller<H> {
        *self.ctrl
    }

    /// A block erase with no option set.
    pub(crate) fn new(ctrl: &'a Controller<H>) -> (b: Self)
        ensures
            b.target() == *ctrl,
            b@ == (SanitizeCommand {
                timeout: 0,
                sanact: SanitizeAction::BlockErase.code(),
                ovrpat: 0,
                ause: false,
                owpass: 0,
                oipbp: false,
                nodas: false,
                emvs: false,
            }),
    {
        Sanitize {
            ctrl,
            action: SanitizeAction::BlockErase,
            ause: false,
            owpass: 0,
            oipbp: false,
            nodas: false,
            emvs: false,
            ovrpat: 0,
            timeout_ms: 0,
        }
    }

    /// Select which sanitize action to perform.
    pub fn action(self, action: SanitizeAction) -> (r: Self)
        ensures
            r@ == (SanitizeCommand { sanact: action.code(), ..self@ }),
            r.target() == self.target(),
    {
        Sanitize { action, ..self }
    }

    /// Allow Unrestricted Sanitize Exit (AUSE) - permits operations on the
    /// drive between Sanitize start and completion.
    pub fn ause(self, ause: bool) -> (r: Self)
        ensures
            r@ == (SanitizeCommand { ause, ..self@ }),
            r.target() == self.target(),
    {
        Sanitize { ause, ..self }
    }

    /// Number of overwrite passes (only meaningful for `Overwrite` action).
    /// `0` lets the drive choose; values 1-15 are explicit.
    pub fn overwrite_pass_count(self, n: u8) -> (r: Self)
        ensures
            r@ == (SanitizeCommand { owpass: n, ..self@ }),
            r.target() == self.target(),
    {
        Sanitize { owpass: n, ..self }
    }

    /// Overwrite Invert Between Passes - flip the pattern every other pass.
    pub fn overwrite_invert(self, oipbp: bool) -> (r: Self)
        ensures
            r@ == (SanitizeCommand { oipbp, ..self@ }),
            r.target() == self.target(),
    {
        Sanitize { oipbp, ..self }
    }

    /// No Deallocate After Sanitize - when true, post-sanitize LBAs report
    /// the configured pattern instead of being deallocated.
    pub fn no_deallocate_after(self, nodas: bool) -> (r: Self)
        ensures
            r@ == (SanitizeCommand { nodas, ..self@ }),
            r.target() == self.target(),
    {
        Sanitize { nodas, ..self }
    }

    /// Emulated Media Verify (NVMe 2.0+).
    pub fn emulated_media_verify(self, emvs: bool) -> (r: Self)
        ensures
            r@ == (SanitizeCommand { emvs, ..self@ }),
            r.target() == self.target(),
    {
        Sanitize { emvs, ..self }
    }

    /// 32-bit overwrite pattern. Only used when action is `Overwrite`.
    pub fn overwrite_pattern(self, pattern: u32) -> (r: Self)
        ensures
            r@ == (SanitizeCommand { ovrpat: pattern, ..self@ }),
            r.target() == self.target(),
    {
        Sanitize { ovrpat: pattern, ..self }
    }

    /// Per-command timeout in milliseconds. `0` uses libnvme's default
    /// (already very long for sanitize - overwrites can take hours on big
    /// drives).
    pub fn timeout_ms(self, ms: u32) -> (r: Self)
        ensures
            r@ == (SanitizeCommand { timeout: ms, ..self@ }),
            r.target() == self.target(),
    {
        Sanitize { timeout_ms: ms, ..self }
    }

    /// The Sanitize NVM command, ready to be issued to the controller that is
    /// returned beside it.
    pub fn execute(self) -> (r: (&'a Controller<H>, SanitizeCommand))
        ensures
            *r.0 == self.target(),
            r.1 == self@,
    {
        (
            self.ctrl,
            SanitizeCommand {
                timeout: self.timeout_ms,
                sanact: self.action.as_raw(),
                ovrpat: self.ovrpat,
                ause: self.ause,
                owpass: self.owpass,
                oipbp: self.oipbp,
                nodas: self.nodas,
                emvs: self.emvs,
            },
        )
    }
}

/// Parameters for the Lockdown admin command (NVMe 2.0+).
///
/// In short: `scope` is the scope class (commands / features / log pages /
/// etc.), `prohibit` toggles between prohibit and allow, `interface` is the
/// interface mask, `opcode_or_fid` is the opcode/feature id, and `uuid_index`
/// is the UUID index for vendor-specific lockdown scopes.
#[derive(Debug, Clone, Copy, PartialEq, Eq, Structural)]
pub struct LockdownArgs {
    /// Scope (SCP) - lockdown scope class (commands / features / log pages).
    pub scope: u8,
    /// Prohibit (PRHBT) - `1` prohibits, `0` allows the scoped capability.
    pub prohibit: u8,
    /// Interface (IFC) - interface mask the lockdown applies to.
    pub interface: u8,
    /// Opcode/Feature Identifier (OFI) - the opcode or feature id in scope.
    pub opcode_or_fid: u8,
    /// UUID Index (UUIDX) - UUID index for vendor-specific lockdown scopes.
    pub uuid_index: u8,
    /// Per-command timeout in milliseconds. `0` uses libnvme's default.
    pub timeout_ms: u32,
}

impl Default for LockdownArgs {
    fn default() -> (r: Self)
        ensures
            r == (LockdownArgs {
                scope: 0,
                prohibit: 0,
                interface: 0,
                opcode_or_fid: 0,
                uuid_index: 0,
                timeout_ms: 0,
            }),
    {
        LockdownArgs {
            scope: 0,
            prohibit: 0,
            interface: 0,
            opcode_or_fid: 0,
            uuid_index: 0,
            timeout_ms: 0,
        }
    }
}

/// A Lockdown command, ready to be issued.
#[derive(Debug, Clone, Copy, PartialEq, Eq, Structural)]
pub struct LockdownCommand {
    /// Timeout in milliseconds.
    pub timeout: u32,
    /// Scope.
    pub scp: u8,
    /// Prohibit.
    pub prhbt: u8,
    /// Interface.
    pub ifc: u8,
    /// Opcode or feature identifier.
    pub ofi: u8,
    /// UUID index.
    pub uuidx: u8,
}

/// Parameters for Get LBA Status (NVMe 1.4+).
#[derive(Debug, Clone, Copy, PartialEq, Eq, Structural)]
pub struct GetLbaStatusArgs {
    /// Namespace Identifier (NSID) to query.
    pub nsid: u32,
    /// Starting LBA (SLBA) of the range to report on.
    pub slba: u64,
    /// Maximum Number of Dwords (MNDW) the response buffer can hold.
    pub mndw: u32,
    /// Action Type (ATYPE) - selects which LBA status is reported.
    pub atype: u32,
    /// Range Length (RL) in logical blocks.
    pub rl: u16,
    /// Per-command timeout in milliseconds. `0` uses libnvme's default.
    pub timeout_ms: u32,
}

impl Default for GetLbaStatusArgs {
    fn default() -> (r: Self)
        ensures
            r == (GetLbaStatusArgs { nsid: 0, slba: 0, mndw: 0, atype: 0, rl: 0, timeout_ms: 0 }),
    {
        GetLbaStatusArgs { nsid: 0, slba: 0, mndw: 0, atype: 0, rl: 0, timeout_ms: 0 }
    }
}

/// A Get LBA Status command, ready to be issued.
#[derive(Debug)]
pub struct GetLbaStatusCommand<'a> {
    /// What is asked for.
    pub args: GetLbaStatusArgs,
    /// The buffer that the device fills.
    pub lbas: &'a mut [u8],
}

/// A Device Self-Test command, ready to be issued.
#[derive(Debug, Clone, Copy, PartialEq, Eq, Structural)]
pub struct SelfTestCommand {
    /// Timeout in milliseconds.
    pub timeout: u32,
    /// Namespace identifier.
    pub nsid: u32,
    /// Self-test code.
    pub stc: u32,
}

/// A Security Send command, ready to be issued.
#[derive(Debug)]
pub struct SecuritySendCommand<'a> {
    /// Namespace identifier.
    pub nsid: u32,
    /// Security protocol identifier.
    pub secp: u8,
    /// Protocol-specific parameter, byte 0.
    pub spsp0: u8,
    /// Protocol-specific parameter, byte 1.
    pub spsp1: u8,
    /// Security-protocol-specific field.
    pub nssf: u8,
    /// Transfer length.
    pub tl: u32,
    /// Length of the buffer in bytes.
    pub data_len: u32,
    /// Timeout in milliseconds.
    pub timeout: u32,
    /// The bytes that the device reads.
    pub data: &'a mut [u8],
}

/// A Security Receive command, ready to be issued.
#[derive(Debug)]
pub struct SecurityReceiveCommand<'a> {
    /// Namespace identifier.
    pub nsid: u32,
    /// Security protocol identifier.
    pub secp: u8,
    /// Protocol-specific parameter, byte 0.
    pub spsp0: u8,
    /// Protocol-specific parameter, byte 1.
    pub spsp1: u8,
    /// Security-protocol-specific field.
    pub nssf: u8,
    /// Allocation length.
    pub al: u32,
    /// Length of the buffer in bytes.
    pub data_len: u32,
    /// Timeout in milliseconds.
    pub timeout: u32,
    /// The buffer that the device fills.
    pub data: &'a mut [u8],
}

/// A Set Property command, ready to be issued.
#[derive(Debug, Clone, Copy, PartialEq, Eq, Structural)]
pub struct SetPropertyCommand {
    /// Timeout in milliseconds.
    pub timeout: u32,
    /// Register byte offset.
    pub offset: i32,
    /// Value to write.
    pub value: u64,
}

/// A Get Property command, ready to be issued.
#[derive(Debug, Clone, Copy, PartialEq, Eq, Structural)]
pub struct GetPropertyCommand {
    /// Timeout in milliseconds.
    pub timeout: u32,
    /// Register byte offset.
    pub offset: i32,
}

/// Which command set a passthru command goes to.
#[derive(Debug, Clone, Copy, PartialEq, Eq, Structural)]
pub enum CommandSet {
    /// The admin command set.
    Admin,
    /// The I/O command set.
    Io,
}

/// Parameters for [`Controller::admin_passthru`] / [`Controller::io_passthru`].
///
/// Every command-dword is exposed verbatim. Use [`PassthruArgs::default`] then
/// set only the dwords you need.
///
/// `data` and `metadata` are byte buffers; the transfer lengths are derived
/// from the slice lengths.
#[derive(Debug)]
pub struct PassthruArgs<'a> {
    /// Command opcode (OPC).
    pub opcode: u8,
    /// Command flags (FLAGS) - the command-dword-0 flags field.
    pub flags: u8,
    /// Reserved field (RSVD).
    pub rsvd: u16,
    /// Namespace Identifier (NSID).
    pub nsid: u32,
    /// Command Dword 2 (CDW2).
    pub cdw2: u32,
    /// Command Dword 3 (CDW3).
    pub cdw3: u32,
    /// Command Dword 10 (CDW10).
    pub cdw10: u32,
    /// Command Dword 11 (CDW11).
    pub cdw11: u32,
    /// Command Dword 12 (CDW12).
    pub cdw12: u32,
    /// Command Dword 13 (CDW13).
    pub cdw13: u32,
    /// Command Dword 14 (CDW14).
    pub cdw14: u32,
    /// Command Dword 15 (CDW15).
    pub cdw15: u32,
    /// Data buffer; its length supplies the data transfer length.
    pub data: Option<&'a mut [u8]>,
    /// Metadata buffer; its length supplies the metadata transfer length.
    pub metadata: Option<&'a mut [u8]>,
    /// Per-command timeout in milliseconds. `0` uses libnvme's default.
    pub timeout_ms: u32,
}

impl<'a> Default for PassthruArgs<'a> {
    fn default() -> (r: Self)
        ensures
            r.opcode == 0,
            r.flags == 0,
            r.rsvd == 0,
            r.nsid == 0,
            r.cdw2 == 0,
            r.cdw3 == 0,
            r.cdw10 == 0,
            r.cdw11 == 0,
            r.cdw12 == 0,
            r.cdw13 == 0,
            r.cdw14 == 0,
            r.cdw15 == 0,
            r.data is None,
            r.metadata is None,
            r.timeout_ms == 0,
    {
        PassthruArgs {
            opcode: 0,
            flags: 0,
            rsvd: 0,
            nsid: 0,
            cdw2: 0,
            cdw3: 0,
            cdw10: 0,
            cdw11: 0,
            cdw12: 0,
            cdw13: 0,
            cdw14: 0,
            cdw15: 0,
            data: None,
            metadata: None,
            timeout_ms: 0,
        }
    }
}

/// A passthru command, ready to be issued.
#[derive(Debug)]
pub struct PassthruCommand<'a> {
    /// Command set.
    pub set: CommandSet,
    /// Command opcode.
    pub opcode: u8,
    /// Command flags.
    pub flags: u8,
    /// Reserved field.
    pub rsvd: u16,
    /// Namespace identifier.
    pub nsid: u32,
    /// Command Dword 2 (CDW2).
    pub cdw2: u32,
    /// Command Dword 3 (CDW3).
    pub cdw3: u32,
    /// Command Dword 10 (CDW10).
    pub cdw10: u32,
    /// Command Dword 11 (CDW11).
    pub cdw11: u32,
    /// Command Dword 12 (CDW12).
    pub cdw12: u32,
    /// Command Dword 13 (CDW13).
    pub cdw13: u32,
    /// Command Dword 14 (CDW14).
    pub cdw14: u32,
    /// Command Dword 15 (CDW15).
    pub cdw15: u32,
    /// Data transfer length, `0` where there is no buffer.
    pub data_len: u32,
    /// Data buffer.
    pub data: Option<&'a mut [u8]>,
    /// Metadata transfer length, `0` where there is no buffer.
    pub metadata_len: u32,
    /// Metadata buffer.
    pub metadata: Option<&'a mut [u8]>,
    /// Timeout in milliseconds.
    pub timeout: u32,
}

impl<'a> PassthruCommand<'a> {
    /// Whether this command carries `args` verbatim to the command set `set`,
    /// with the transfer lengths of its buffers.
    pub open spec fn encodes(self, args: PassthruArgs<'a>, set: CommandSet) -> bool {
        &&& self.set == set
        &&& self.opcode == args.opcode
        &&& self.flags == args.flags
        &&& self.rsvd == args.rsvd
        &&& self.nsid == args.nsid
        &&& self.cdw2 == args.cdw2
        &&& self.cdw3 == args.cdw3
        &&& self.cdw10 == args.cdw10
        &&& self.cdw11 == args.cdw11
        &&& self.cdw12 == args.cdw12
        &&& self.cdw13 == args.cdw13
        &&& self.cdw14 == args.cdw14
        &&& self.cdw15 == args.cdw15
        &&& util::mut_bytes(self.data) == util::mut_bytes(args.data)
        &&& util::mut_bytes(self.metadata) == util::mut_bytes(args.metadata)
        &&& self.data_len == util::buffer_len(util::mut_bytes(args.data))
        &&& self.metadata_len == util::buffer_len(util::mut_bytes(args.metadata))
        &&& self.timeout == args.timeout_ms
    }

    /// The command that carries `args` to the command set `set`. It holds the very
    /// buffers: what is written through it stands in them.
    pub fn new(set: CommandSet, args: PassthruArgs<'a>) -> (c: Self)
        ensures
            c.encodes(args, set),
            args.data matches Some(b) ==> (c.data matches Some(d) && final(d)@ == final(b)@),
            args.metadata matches Some(b) ==> (c.metadata matches Some(d) && final(d)@
                == final(b)@),
    {
        let data_len: u32 = match &args.data {
            Some(buf) => len_u32(buf.len()),
            None => 0,
        };
        let metadata_len: u32 = match &args.metadata {
            Some(buf) => len_u32(buf.len()),
            None => 0,
        };
        PassthruCommand {
            set,
            opcode: args.opcode,
            flags: args.flags,
            rsvd: args.rsvd,
            nsid: args.nsid,
            cdw2: args.cdw2,
            cdw3: args.cdw3,
            cdw10: args.cdw10,
            cdw11: args.cdw11,
            cdw12: args.cdw12,
            cdw13: args.cdw13,
            cdw14: args.cdw14,
            cdw15: args.cdw15,
            data_len,
            data: args.data,
            metadata_len,
            metadata: args.metadata,
            timeout: args.timeout_ms,
        }
    }
}

impl<H> Controller<H> {
    /// A controller known by `inner`.
    pub fn from_raw(inner: H) -> (c: Self)
        ensures
            c@ == inner,
    {
        Controller { inner }
    }

    /// The handle of this controller.
    pub fn raw_handle(&self) -> (h: &H)
        ensures
            *h == self@,
    {
        &self.inner
    }

    /// Begin building a Sanitize NVM command.
    ///
    /// # Warning
    ///
    /// **Destructive and irreversible.** Sanitize erases all user data on
    /// the drive. Cannot be aborted once started; runs asynchronously
    /// (the command returns immediately and the operation continues in
    /// the background). The drive remains in a sanitize-in-progress state
    /// until completion - most operations are rejected during this time.
    pub fn sanitize(&self) -> (b: Sanitize<'_, H>)
        ensures
            b.target() == *self,
            b@ == (SanitizeCommand {
                timeout: 0,
                sanact: SanitizeAction::BlockErase.code(),
                ovrpat: 0,
                ause: false,
                owpass: 0,
                oipbp: false,
                nodas: false,
                emvs: false,
            }),
    {
        Sanitize::new(self)
    }

    /// A Device Self-Test admin command.
    ///
    /// `nsid` of `0xFFFFFFFF` runs the test on all namespaces. Use
    /// [`SelfTestAction::Abort`] with any `nsid` to abort a running test.
    pub fn self_test(&self, nsid: u32, action: SelfTestAction) -> (c: SelfTestCommand)
        ensures
            c == (SelfTestCommand { timeout: 0, nsid, stc: action.code() }),
    {
        SelfTestCommand { timeout: 0, nsid, stc: action.as_raw() }
    }

    /// A Lockdown admin command (NVMe 2.0+).
    ///
    /// Restricts or unlocks specific NVMe interface capabilities - see
    /// [`LockdownArgs`] for the parameter encoding.
    ///
    /// # Warning
    ///
    /// **Potentially destructive.** Lockdown can disable management
    /// interfaces (out-of-band MI, debug paths) or restrict specific
    /// opcodes; some lockdown scopes are persistent across resets and
    /// cannot be undone without a full controller reset or vendor unlock.
    pub fn lockdown(&self, args: LockdownArgs) -> (c: LockdownCommand)
        ensures
            c == (LockdownCommand {
                timeout: args.timeout_ms,
                scp: args.scope,
                prhbt: args.prohibit,
                ifc: args.interface,
                ofi: args.opcode_or_fid,
                uuidx: args.uuid_index,
            }),
    {
        LockdownCommand {
            timeout: args.timeout_ms,
            scp: args.scope,
            prhbt: args.prohibit,
            ifc: args.interface,
            ofi: args.opcode_or_fid,
            uuidx: args.uuid_index,
        }
    }

    /// A Security Send command - transport-encapsulated bytes go to the
    /// controller's security protocol handler (TCG Opal, TCG Pyrite, etc.).
    ///
    /// `secp` is the security protocol identifier (0x01 = TCG, 0x02 = TCG
    /// Storage, etc.). `spsp0` and `spsp1` are protocol-specific parameter
    /// bytes. `nssf` is the security-protocol-specific field.
    #[allow(clippy::too_many_arguments)]
    pub fn security_send<'a>(
        &self,
        nsid: u32,
        secp: u8,
        spsp0: u8,
        spsp1: u8,
        nssf: u8,
        tl: u32,
        data: &'a mut [u8],
    ) -> (c: SecuritySendCommand<'a>)
        ensures
            c.nsid == nsid,
            c.secp == secp,
            c.spsp0 == spsp0,
            c.spsp1 == spsp1,
            c.nssf == nssf,
            c.tl == tl,
            c.timeout == 0,
            c.data@ == old(data)@,
            final(c.data)@ == final(data)@,
            c.data_len == util::low32(old(data)@.len()),
    {
        let data_len: u32 = len_u32(data.len());
        SecuritySendCommand { nsid, secp, spsp0, spsp1, nssf, tl, data_len, timeout: 0, data }
    }

    /// A Security Receive command - pulls security-protocol data back from
    /// the controller into `data`.
    #[allow(clippy::too_many_arguments)]
    pub fn security_receive<'a>(
        &self,
        nsid: u32,
        secp: u8,
        spsp0: u8,
        spsp1: u8,
        nssf: u8,
        al: u32,
        data: &'a mut [u8],
    ) -> (c: SecurityReceiveCommand<'a>)
        ensures
            c.nsid == nsid,
            c.secp == secp,
            c.spsp0 == spsp0,
            c.spsp1 == spsp1,
            c.nssf == nssf,
            c.al == al,
            c.timeout == 0,
            c.data@ == old(data)@,
            final(c.data)@ == final(data)@,
            c.data_len == util::low32(old(data)@.len()),
    {
        let data_len: u32 = len_u32(data.len());
        SecurityReceiveCommand { nsid, secp, spsp0, spsp1, nssf, al, data_len, timeout: 0, data }
    }

    /// A Get LBA Status admin command (NVMe 1.4+).
    ///
    /// The device fills `buf` with the raw response; parsing the LBA Status
    /// Descriptor list is up to the caller. The buffer must be sized for at
    /// least `mndw * 4` bytes.
    pub fn get_lba_status<'a>(&self, args: GetLbaStatusArgs, buf: &'a mut [u8]) -> (c:
        GetLbaStatusCommand<'a>)
        requires
            args.mndw * 4 <= old(buf)@.len(),
        ensures
            c.args == args,
            c.lbas@ == old(buf)@,
            final(c.lbas)@ == final(buf)@,
    {
        GetLbaStatusCommand { args, lbas: buf }
    }

    /// Set a Fabrics controller property - writes to a controller
    /// register (CC, CSTS, NSSR, AQA, ASQ, ACQ, etc.).
    ///
    /// Only valid on fabrics controllers. `offset` is the register byte
    /// offset, `value` is the 64-bit value to write.
    pub fn set_property(&self, offset: i32, value: u64) -> (c: SetPropertyCommand)
        ensures
            c == (SetPropertyCommand { timeout: 0, offset, value }),
    {
        SetPropertyCommand { timeout: 0, offset, value }
    }

    /// Get a Fabrics controller property - reads a controller register.
    ///
    /// Only valid on fabrics controllers.
    pub fn get_property(&self, offset: i32) -> (c: GetPropertyCommand)
        ensures
            c == (GetPropertyCommand { timeout: 0, offset }),
    {
        GetPropertyCommand { timeout: 0, offset }
    }

    /// An arbitrary admin-class command (Admin Passthru).
    ///
    /// Escape hatch for admin commands not exposed by typed helpers - pass
    /// the opcode and command-dwords, optionally with data/metadata buffers.
    pub fn admin_passthru<'a>(&self, args: PassthruArgs<'a>) -> (c: PassthruCommand<'a>)
        ensures
            c.encodes(args, CommandSet::Admin),
            args.data matches Some(b) ==> (c.data matches Some(d) && final(d)@ == final(b)@),
            args.metadata matches Some(b) ==> (c.metadata matches Some(d) && final(d)@
                == final(b)@),
    {
        PassthruCommand::new(CommandSet::Admin, args)
    }

    /// An arbitrary I/O-class command (I/O Passthru).
    ///
    /// Escape hatch for I/O commands. Same shape as
    /// [`Self::admin_passthru`] but goes to the I/O command set.
    pub fn io_passthru<'a>(&self, args: PassthruArgs<'a>) -> (c: PassthruCommand<'a>)
        ensures
            c.encodes(args, CommandSet::Io),
            args.data matches Some(b) ==> (c.data matches Some(d) && final(d)@ == final(b)@),
            args.metadata matches Some(b) ==> (c.metadata matches Some(d) && final(d)@
                == final(b)@),
    {
        PassthruCommand::new(CommandSet::Io, args)
    }
}

} // verus!
