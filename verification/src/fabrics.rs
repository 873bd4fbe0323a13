//! NVMe over Fabrics - Connect, Disconnect, Discover.
//!
//! Fabrics workflow:
//! 1. Get or create a [`Host`].
//! 2. Build a connection with [`Host::connect`], chaining setters for
//!    transport-specific options.
//! 3. Call [`Connect::execute`], which checks the parameters and returns a
//!    [`ConnectPlan`]. The plan says how to create the controller, which
//!    properties to set on it, and with which configuration to add it.
//! 4. (Optional) Decode the discovery log with [`DiscoveryLog`] when connected
//!    to a discovery controller.

use crate::commands::Controller;
use crate::error;
use crate::error::{check_ret, non_null, Error, Result};
use crate::host::Host;
use crate::util;
use crate::util::{c_field, decode_text, has_nul};
use std::borrow::Cow;
use vstd::prelude::*;
use vstd::string::StringExecFns;

verus! {

/// NVMe-oF transport selector. The `Other` variant is an escape hatch for
/// transports that are not named here.
#[derive(Debug, Clone, Copy, PartialEq, Eq)]
pub enum Transport<'a> {
    /// TCP/IP transport (the most common).
    Tcp,
    /// RDMA (RoCE, iWARP, InfiniBand).
    Rdma,
    /// Fibre Channel.
    Fc,
    /// Intra-host loopback (the `nvme_loop` kernel driver).
    Loop,
    /// Anything else libnvme accepts as a transport string.
    Other(&'a str),
}

impl<'a> Transport<'a> {
    /// The transport string that libnvme knows.
    pub open spec fn text(self) -> Seq<char> {
        match self {
            Transport::Tcp => "tcp"@,
            Transport::Rdma => "rdma"@,
            Transport::Fc => "fc"@,
            Transport::Loop => "loop"@,
            Transport::Other(s) => s@,
        }
    }

    /// The transport string that libnvme knows.
    pub fn as_str(&self) -> (r: &str)
        ensures
            r@ == self.text(),
    {
        match self {
            Transport::Tcp => "tcp",
            Transport::Rdma => "rdma",
            Transport::Fc => "fc",
            Transport::Loop => "loop",
            Transport::Other(s) => s,
        }
    }
}

/// The text of an optional string.
pub open spec fn opt_text(s: Option<String>) -> Option<Seq<char>> {
    match s {
        Some(s) => Some(s@),
        None => None,
    }
}

/// Whether an optional text holds a NUL character.
pub open spec fn opt_has_nul(s: Option<Seq<char>>) -> bool {
    s matches Some(t) && t.contains('\0')
}

/// What a [`Connect`] builder asks for.
#[verifier::ext_equal]
pub struct ConnectRequest {
    /// Transport string.
    pub transport: Seq<char>,
    /// Subsystem NQN.
    pub subsysnqn: Seq<char>,
    /// Transport target address.
    pub traddr: Option<Seq<char>>,
    /// Transport service identifier.
    pub trsvcid: Option<Seq<char>>,
    /// Host-side transport address.
    pub host_traddr: Option<Seq<char>>,
    /// Host network interface.
    pub host_iface: Option<Seq<char>>,
    /// Per-queue depth for I/O queues.
    pub queue_size: Option<i32>,
    /// Number of I/O queues to establish.
    pub nr_io_queues: Option<i32>,
    /// Keep-alive timeout in seconds.
    pub keep_alive_tmo: Option<i32>,
    /// Delay between reconnect attempts, in seconds.
    pub reconnect_delay: Option<i32>,
    /// Total timeout for controller-loss reconnect, in seconds.
    pub ctrl_loss_tmo: Option<i32>,
    /// Enable PDU header digest (TCP only).
    pub hdr_digest: Option<bool>,
    /// Enable PDU data digest (TCP only).
    pub data_digest: Option<bool>,
    /// Enable TLS on the connection (TCP only).
    pub tls: Option<bool>,
    /// Allow multiple connections to the same target.
    pub duplicate_connect: Option<bool>,
    /// Disable submission-queue flow control.
    pub disable_sqflow: Option<bool>,
    /// Mark the controller as persistent.
    pub persistent: bool,
    /// Mark the controller as a discovery controller.
    pub discovery: bool,
    /// Mark the controller as a unique discovery controller.
    pub unique_discovery: bool,
}

impl ConnectRequest {
    /// A request on which no option is set.
    pub open spec fn new(transport: Seq<char>, subsysnqn: Seq<char>) -> Self {
        ConnectRequest {
            transport,
            subsysnqn,
            traddr: None,
            trsvcid: None,
            host_traddr: None,
            host_iface: None,
            queue_size: None,
            nr_io_queues: None,
            keep_alive_tmo: None,
            reconnect_delay: None,
            ctrl_loss_tmo: None,
            hdr_digest: None,
            data_digest: None,
            tls: None,
            duplicate_connect: None,
            disable_sqflow: None,
            persistent: false,
            discovery: false,
            unique_discovery: false,
        }
    }

    /// Whether some parameter holds a NUL character, so that it cannot be a C
    /// string.
    pub open spec fn holds_nul(self) -> bool {
        ||| self.transport.contains('\0')
        ||| self.subsysnqn.contains('\0')
        ||| opt_has_nul(self.traddr)
        ||| opt_has_nul(self.trsvcid)
        ||| opt_has_nul(self.host_traddr)
        ||| opt_has_nul(self.host_iface)
    }

    /// Why the request is refused, if it is.
    pub open spec fn refusal(self) -> Option<Seq<char>> {
        if self.holds_nul() {
            Some("interior NUL byte in fabrics parameter"@)
        } else {
            None
        }
    }

    /// The properties to set on the new controller, in order.
    pub open spec fn settings(self) -> Seq<CtrlSetting> {
        let first = if self.discovery {
            seq![CtrlSetting::Discovery]
        } else {
            Seq::empty()
        };
        let second = if self.unique_discovery {
            first.push(CtrlSetting::UniqueDiscovery)
        } else {
            first
        };
        if self.persistent {
            second.push(CtrlSetting::Persistent)
        } else {
            second
        }
    }

    /// The configuration to add the controller with: what was set, and libnvme's
    /// default for everything else.
    pub open spec fn config(self, defaults: FabricsOptions) -> FabricsOptions {
        FabricsOptions {
            host_traddr: if self.host_traddr is Some {
                self.host_traddr
            } else {
                defaults.host_traddr
            },
            host_iface: if self.host_iface is Some {
                self.host_iface
            } else {
                defaults.host_iface
            },
            queue_size: or_default(self.queue_size, defaults.queue_size),
            nr_io_queues: or_default(self.nr_io_queues, defaults.nr_io_queues),
            keep_alive_tmo: or_default(self.keep_alive_tmo, defaults.keep_alive_tmo),
            reconnect_delay: or_default(self.reconnect_delay, defaults.reconnect_delay),
            ctrl_loss_tmo: or_default(self.ctrl_loss_tmo, defaults.ctrl_loss_tmo),
            hdr_digest: or_default(self.hdr_digest, defaults.hdr_digest),
            data_digest: or_default(self.data_digest, defaults.data_digest),
            tls: or_default(self.tls, defaults.tls),
            duplicate_connect: or_default(self.duplicate_connect, defaults.duplicate_connect),
            disable_sqflow: or_default(self.disable_sqflow, defaults.disable_sqflow),
        }
    }

    /// A request on which no option is set leaves libnvme's defaults as they are.
    pub proof fn unset_options_keep_defaults(
        transport: Seq<char>,
        subsysnqn: Seq<char>,
        defaults: FabricsOptions,
    )
        ensures
            Self::new(transport, subsysnqn).config(defaults) == defaults,
            Self::new(transport, subsysnqn).settings() == Seq::<CtrlSetting>::empty(),
    {
    }

    /// Configuring what is configured already changes nothing.
    pub proof fn config_is_idempotent(self, defaults: FabricsOptions)
        ensures
            self.config(self.config(defaults)) == self.config(defaults),
    {
    }

    /// Each property is set at most once, exactly where it was asked for, and
    /// being a discovery controller before being a unique one.
    pub proof fn settings_are_those_asked_for(self)
        ensures
            self.settings().contains(CtrlSetting::Discovery) <==> self.discovery,
            self.settings().contains(CtrlSetting::UniqueDiscovery) <==> self.unique_discovery,
            self.settings().contains(CtrlSetting::Persistent) <==> self.persistent,
            self.settings().no_duplicates(),
            self.discovery ==> self.settings()[0] == CtrlSetting::Discovery,
    {
        let s = self.settings();
        if self.discovery {
            assert(s[0] == CtrlSetting::Discovery);
        }
        if self.unique_discovery {
            let at = if self.discovery {
                1int
            } else {
                0int
            };
            assert(s[at] == CtrlSetting::UniqueDiscovery);
        }
        if self.persistent {
            assert(s[s.len() - 1] == CtrlSetting::Persistent);
        }
    }
}

/// The value, or the default where there is none.
pub open spec fn or_default<T>(value: Option<T>, default: T) -> T {
    match value {
        Some(v) => v,
        None => default,
    }
}

/// A property that is set on a controller between creating and adding it.
#[derive(Debug, Clone, Copy, PartialEq, Eq, Structural)]
pub enum CtrlSetting {
    /// Mark as a discovery controller.
    Discovery,
    /// Mark as a unique discovery controller.
    UniqueDiscovery,
    /// Mark as persistent.
    Persistent,
}

/// The fabrics configuration fields that a connection can set: the view of
/// [`FabricsConfig`].
#[verifier::ext_equal]
pub struct FabricsOptions {
    /// Host-side transport address, `None` where libnvme's own stands.
    pub host_traddr: Option<Seq<char>>,
    /// Host network interface, `None` where libnvme's own stands.
    pub host_iface: Option<Seq<char>>,
    /// Per-queue depth for I/O queues.
    pub queue_size: i32,
    /// Number of I/O queues to establish.
    pub nr_io_queues: i32,
    /// Keep-alive timeout in seconds.
    pub keep_alive_tmo: i32,
    /// Delay between reconnect attempts, in seconds.
    pub reconnect_delay: i32,
    /// Total timeout for controller-loss reconnect, in seconds.
    pub ctrl_loss_tmo: i32,
    /// Enable PDU header digest (TCP only).
    pub hdr_digest: bool,
    /// Enable PDU data digest (TCP only).
    pub data_digest: bool,
    /// Enable TLS on the connection (TCP only).
    pub tls: bool,
    /// Allow multiple connections to the same target.
    pub duplicate_connect: bool,
    /// Disable submission-queue flow control.
    pub disable_sqflow: bool,
}

/// The fabrics configuration fields that a connection can set.
#[derive(Debug)]
pub struct FabricsConfig {
    /// Host-side transport address, `None` where libnvme's own stands.
    pub host_traddr: Option<String>,
    /// Host network interface, `None` where libnvme's own stands.
    pub host_iface: Option<String>,
    /// Per-queue depth for I/O queues.
    pub queue_size: i32,
    /// Number of I/O queues to establish.
    pub nr_io_queues: i32,
    /// Keep-alive timeout in seconds.
    pub keep_alive_tmo: i32,
    /// Delay between reconnect attempts, in seconds.
    pub reconnect_delay: i32,
    /// Total timeout for controller-loss reconnect, in seconds.
    pub ctrl_loss_tmo: i32,
    /// Enable PDU header digest (TCP only).
    pub hdr_digest: bool,
    /// Enable PDU data digest (TCP only).
    pub data_digest: bool,
    /// Enable TLS on the connection (TCP only).
    pub tls: bool,
    /// Allow multiple connections to the same target.
    pub duplicate_connect: bool,
    /// Disable submission-queue flow control.
    pub disable_sqflow: bool,
}

impl View for FabricsConfig {
    type V = FabricsOptions;

    open spec fn view(&self) -> FabricsOptions {
        FabricsOptions {
            host_traddr: opt_text(self.host_traddr),
            host_iface: opt_text(self.host_iface),
            queue_size: self.queue_size,
            nr_io_queues: self.nr_io_queues,
            keep_alive_tmo: self.keep_alive_tmo,
            reconnect_delay: self.reconnect_delay,
            ctrl_loss_tmo: self.ctrl_loss_tmo,
            hdr_digest: self.hdr_digest,
            data_digest: self.data_digest,
            tls: self.tls,
            duplicate_connect: self.duplicate_connect,
            disable_sqflow: self.disable_sqflow,
        }
    }
}

/// A checked connection request: every string in it can be a C string.
#[derive(Debug)]
pub struct ConnectPlan {
    /// Transport string.
    pub transport: String,
    /// Subsystem NQN.
    pub subsysnqn: String,
    /// Transport target address.
    pub traddr: Option<String>,
    /// Transport service identifier.
    pub trsvcid: Option<String>,
    /// Host-side transport address.
    pub host_traddr: Option<String>,
    /// Host network interface.
    pub host_iface: Option<String>,
    /// Per-queue depth for I/O queues.
    pub queue_size: Option<i32>,
    /// Number of I/O queues to establish.
    pub nr_io_queues: Option<i32>,
    /// Keep-alive timeout in seconds.
    pub keep_alive_tmo: Option<i32>,
    /// Delay between reconnect attempts, in seconds.
    pub reconnect_delay: Option<i32>,
    /// Total timeout for controller-loss reconnect, in seconds.
    pub ctrl_loss_tmo: Option<i32>,
    /// Enable PDU header digest (TCP only).
    pub hdr_digest: Option<bool>,
    /// Enable PDU data digest (TCP only).
    pub data_digest: Option<bool>,
    /// Enable TLS on the connection (TCP only).
    pub tls: Option<bool>,
    /// Allow multiple connections to the same target.
    pub duplicate_connect: Option<bool>,
    /// Disable submission-queue flow control.
    pub disable_sqflow: Option<bool>,
    /// Mark the controller as persistent.
    pub persistent: bool,
    /// Mark the controller as a discovery controller.
    pub discovery: bool,
    /// Mark the controller as a unique discovery controller.
    pub unique_discovery: bool,
}

impl View for ConnectPlan {
    type V = ConnectRequest;

    open spec fn view(&self) -> ConnectRequest {
        ConnectRequest {
            transport: self.transport@,
            subsysnqn: self.subsysnqn@,
            traddr: opt_text(self.traddr),
            trsvcid: opt_text(self.trsvcid),
            host_traddr: opt_text(self.host_traddr),
            host_iface: opt_text(self.host_iface),
            queue_size: self.queue_size,
            nr_io_queues: self.nr_io_queues,
            keep_alive_tmo: self.keep_alive_tmo,
            reconnect_delay: self.reconnect_delay,
            ctrl_loss_tmo: self.ctrl_loss_tmo,
            hdr_digest: self.hdr_digest,
            data_digest: self.data_digest,
            tls: self.tls,
            duplicate_connect: self.duplicate_connect,
            disable_sqflow: self.disable_sqflow,
            persistent: self.persistent,
            discovery: self.discovery,
            unique_discovery: self.unique_discovery,
        }
    }
}

impl ConnectPlan {
    /// The controller handle that creating it returned; NULL is a failed
    /// operation.
    pub fn created<H>(&self, ctrl: Option<H>) -> (r: Result<H>)
        ensures
            match ctrl {
                Some(h) => r == Ok::<H, Error>(h),
                None => r matches Err(e) && error::is_os_failure(e),
            },
    {
        non_null(ctrl)
    }

    /// The properties to set on the new controller, in order.
    pub fn settings(&self) -> (r: Vec<CtrlSetting>)
        ensures
            r@ == self@.settings(),
    {
        let mut out: Vec<CtrlSetting> = Vec::new();
        if self.discovery {
            out.push(CtrlSetting::Discovery);
        }
        if self.unique_discovery {
            out.push(CtrlSetting::UniqueDiscovery);
        }
        if self.persistent {
            out.push(CtrlSetting::Persistent);
        }
        assert(out@ =~= self@.settings());
        out
    }

    /// The configuration to add the controller with, from libnvme's defaults.
    pub fn fabrics_config(&self, defaults: FabricsConfig) -> (r: FabricsConfig)
        ensures
            r@ == self@.config(defaults@),
    {
        FabricsConfig {
            host_traddr: text_or(&self.host_traddr, defaults.host_traddr),
            host_iface: text_or(&self.host_iface, defaults.host_iface),
            queue_size: number_or(self.queue_size, defaults.queue_size),
            nr_io_queues: number_or(self.nr_io_queues, defaults.nr_io_queues),
            keep_alive_tmo: number_or(self.keep_alive_tmo, defaults.keep_alive_tmo),
            reconnect_delay: number_or(self.reconnect_delay, defaults.reconnect_delay),
            ctrl_loss_tmo: number_or(self.ctrl_loss_tmo, defaults.ctrl_loss_tmo),
            hdr_digest: flag_or(self.hdr_digest, defaults.hdr_digest),
            data_digest: flag_or(self.data_digest, defaults.data_digest),
            tls: flag_or(self.tls, defaults.tls),
            duplicate_connect: flag_or(self.duplicate_connect, defaults.duplicate_connect),
            disable_sqflow: flag_or(self.disable_sqflow, defaults.disable_sqflow),
        }
    }

    /// The live controller, once adding it returned `ret`.
    pub fn added<H>(&self, ctrl: H, ret: i32) -> (r: Result<Controller<H>>)
        ensures
            if ret == 0 {
                r matches Ok(c) && c@ == ctrl
            } else {
                r matches Err(e) && error::ret_failure(ret, e)
            },
    {
        check_ret(ret)?;
        Ok(Controller::from_raw(ctrl))
    }
}

/// The number, or the default where there is none.
fn number_or(value: Option<i32>, default: i32) -> (r: i32)
    ensures
        r == or_default(value, default),
{
    match value {
        Some(n) => n,
        None => default,
    }
}

/// The flag, or the default where there is none.
fn flag_or(value: Option<bool>, default: bool) -> (r: bool)
    ensures
        r == or_default(value, default),
{
    match value {
        Some(enabled) => enabled,
        None => default,
    }
}

/// A copy of the text, or the default where there is none.
fn text_or(value: &Option<String>, default: Option<String>) -> (r: Option<String>)
    ensures
        opt_text(r) == if value is Some {
            opt_text(*value)
        } else {
            opt_text(default)
        },
{
    match value {
        Some(s) => Some(String::from_str(s.as_str())),
        None => default,
    }
}

/// Whether an optional string holds a NUL character.
fn opt_string_has_nul(s: &Option<String>) -> (r: bool)
    ensures
        r == opt_has_nul(opt_text(*s)),
{
    match s {
        Some(s) => has_nul(s.as_str()),
        None => false,
    }
}

/// Builder for an NVMe-oF Connect operation.
///
/// Created by [`Host::connect`]. Required parameters (`transport`, `subsysnqn`)
/// are taken at construction; everything else is chained on as optional setters
/// and defaults to libnvme's `nvmf_default_config` values.
#[must_use]
pub struct Connect<'a, 'r> {
    host: &'a Host<'r>,
    transport: String,
    subsysnqn: String,
    traddr: Option<String>,
    trsvcid: Option<String>,
    host_traddr: Option<String>,
    host_iface: Option<String>,
    queue_size: Option<i32>,
    nr_io_queues: Option<i32>,
    keep_alive_tmo: Option<i32>,
    reconnect_delay: Option<i32>,
    ctrl_loss_tmo: Option<i32>,
    hdr_digest: Option<bool>,
    data_digest: Option<bool>,
    tls: Option<bool>,
    duplicate_connect: Option<bool>,
    disable_sqflow: Option<bool>,
    persistent: bool,
    discovery: bool,
    unique_discovery: bool,
}

impl<'a, 'r> View for Connect<'a, 'r> {
    type V = ConnectRequest;

    closed spec fn view(&self) -> ConnectRequest {
        ConnectRequest {
            transport: self.transport@,
            subsysnqn: self.subsysnqn@,
            traddr: opt_text(self.traddr),
            trsvcid: opt_text(self.trsvcid),
            host_traddr: opt_text(self.host_traddr),
            host_iface: opt_text(self.host_iface),
            queue_size: self.queue_size,
            nr_io_queues: self.nr_io_queues,
            keep_alive_tmo: self.keep_alive_tmo,
            reconnect_delay: self.reconnect_delay,
            ctrl_loss_tmo: self.ctrl_loss_tmo,
            hdr_digest: self.hdr_digest,
            data_digest: self.data_digest,
            tls: self.tls,
            duplicate_connect: self.duplicate_connect,
            disable_sqflow: self.disable_sqflow,
            persistent: self.persistent,
            discovery: self.discovery,
            unique_discovery: self.unique_discovery,
        }
    }
}

impl<'a, 'r> Connect<'a, 'r> {
    /// A unique discovery controller is a discovery controller.
    #[verifier::type_invariant]
    spec fn unique_is_discovery(self) -> bool {
        self.unique_discovery ==> self.discovery
    }

    /// The host that the connection is for.
    pub closed spec fn target(self) -> Host<'r> {
        *self.host
    }

    /// A connection to `subsysnqn` with no option set.
    pub(crate) fn new(host: &'a Host<'r>, transport: Transport<'_>, subsysnqn: &str) -> (b: Self)
        ensures
            b@ == ConnectRequest::new(transport.text(), subsysnqn@),
            b.target() == *host,
    {
        Connect {
            host,
            transport: String::from_str(transport.as_str()),
            subsysnqn: String::from_str(subsysnqn),
            traddr: None,
            trsvcid: None,
            host_traddr: None,
            host_iface: None,
            queue_size: None,
            nr_io_queues: None,
            keep_alive_tmo: None,
            reconnect_delay: None,
            ctrl_loss_tmo: None,
            hdr_digest: None,
            data_digest: None,
            tls: None,
            duplicate_connect: None,
            disable_sqflow: None,
            persistent: false,
            discovery: false,
            unique_discovery: false,
        }
    }

    /// Transport target address - IP/hostname for TCP/RDMA, WWNN/WWPN for FC.
    pub fn traddr(self, addr: &str) -> (r: Self)
        ensures
            r@ == (ConnectRequest { traddr: Some(addr@), ..self@ }),
            r.target() == self.target(),
    {
        proof {
            use_type_invariant(&self);
        }
        Connect { traddr: Some(String::from_str(addr)), ..self }
    }

    /// Transport service identifier - TCP/RDMA port number, FC service id.
    pub fn trsvcid(self, svcid: &str) -> (r: Self)
        ensures
            r@ == (ConnectRequest { trsvcid: Some(svcid@), ..self@ }),
            r.target() == self.target(),
    {
        proof {
            use_type_invariant(&self);
        }
        Connect { trsvcid: Some(String::from_str(svcid)), ..self }
    }

    /// Host-side transport address (Fabrics `host_traddr`).
    pub fn host_traddr(self, addr: &str) -> (r: Self)
        ensures
            r@ == (ConnectRequest { host_traddr: Some(addr@), ..self@ }),
            r.target() == self.target(),
    {
        proof {
            use_type_invariant(&self);
        }
        Connect { host_traddr: Some(String::from_str(addr)), ..self }
    }

    /// Host network interface (Fabrics `host_iface`).
    pub fn host_iface(self, iface: &str) -> (r: Self)
        ensures
            r@ == (ConnectRequest { host_iface: Some(iface@), ..self@ }),
            r.target() == self.target(),
    {
        proof {
            use_type_invariant(&self);
        }
        Connect { host_iface: Some(String::from_str(iface)), ..self }
    }

    /// Per-queue depth for I/O queues.
    pub fn queue_size(self, n: i32) -> (r: Self)
        ensures
            r@ == (ConnectRequest { queue_size: Some(n), ..self@ }),
            r.target() == self.target(),
    {
        proof {
            use_type_invariant(&self);
        }
        Connect { queue_size: Some(n), ..self }
    }

    /// Number of I/O queues to establish.
    pub fn nr_io_queues(self, n: i32) -> (r: Self)
        ensures
            r@ == (ConnectRequest { nr_io_queues: Some(n), ..self@ }),
            r.target() == self.target(),
    {
        proof {
            use_type_invariant(&self);
        }
        Connect { nr_io_queues: Some(n), ..self }
    }

    /// Keep-alive timeout in seconds.
    pub fn keep_alive_tmo(self, seconds: i32) -> (r: Self)
        ensures
            r@ == (ConnectRequest { keep_alive_tmo: Some(seconds), ..self@ }),
            r.target() == self.target(),
    {
        proof {
            use_type_invariant(&self);
        }
        Connect { keep_alive_tmo: Some(seconds), ..self }
    }

    /// Delay between reconnect attempts, in seconds.
    pub fn reconnect_delay(self, seconds: i32) -> (r: Self)
        ensures
            r@ == (ConnectRequest { reconnect_delay: Some(seconds), ..self@ }),
            r.target() == self.target(),
    {
        proof {
            use_type_invariant(&self);
        }
        Connect { reconnect_delay: Some(seconds), ..self }
    }

    /// Total timeout for controller-loss reconnect, in seconds.
    pub fn ctrl_loss_tmo(self, seconds: i32) -> (r: Self)
        ensures
            r@ == (ConnectRequest { ctrl_loss_tmo: Some(seconds), ..self@ }),
            r.target() == self.target(),
    {
        proof {
            use_type_invariant(&self);
        }
        Connect { ctrl_loss_tmo: Some(seconds), ..self }
    }

    /// Enable PDU header digest (TCP only).
    pub fn hdr_digest(self, enabled: bool) -> (r: Self)
        ensures
            r@ == (ConnectRequest { hdr_digest: Some(enabled), ..self@ }),
            r.target() == self.target(),
    {
        proof {
            use_type_invariant(&self);
        }
        Connect { hdr_digest: Some(enabled), ..self }
    }

    /// Enable PDU data digest (TCP only).
    pub fn data_digest(self, enabled: bool) -> (r: Self)
        ensures
            r@ == (ConnectRequest { data_digest: Some(enabled), ..self@ }),
            r.target() == self.target(),
    {
        proof {
            use_type_invariant(&self);
        }
        Connect { data_digest: Some(enabled), ..self }
    }

    /// Enable TLS on the connection (TCP only).
    pub fn tls(self, enabled: bool) -> (r: Self)
        ensures
            r@ == (ConnectRequest { tls: Some(enabled), ..self@ }),
            r.target() == self.target(),
    {
        proof {
            use_type_invariant(&self);
        }
        Connect { tls: Some(enabled), ..self }
    }

    /// Allow multiple connections to the same target.
    pub fn duplicate_connect(self, enabled: bool) -> (r: Self)
        ensures
            r@ == (ConnectRequest { duplicate_connect: Some(enabled), ..self@ }),
            r.target() == self.target(),
    {
        proof {
            use_type_invariant(&self);
        }
        Connect { duplicate_connect: Some(enabled), ..self }
    }

    /// Disable submission-queue flow control.
    pub fn disable_sqflow(self, enabled: bool) -> (r: Self)
        ensures
            r@ == (ConnectRequest { disable_sqflow: Some(enabled), ..self@ }),
            r.target() == self.target(),
    {
        proof {
            use_type_invariant(&self);
        }
        Connect { disable_sqflow: Some(enabled), ..self }
    }

    /// Mark the resulting controller as persistent (kernel-side keep-alive).
    pub fn persistent(self, enabled: bool) -> (r: Self)
        ensures
            r@ == (ConnectRequest { persistent: enabled, ..self@ }),
            r.target() == self.target(),
    {
        proof {
            use_type_invariant(&self);
        }
        Connect { persistent: enabled, ..self }
    }

    /// Mark the controller as a discovery controller. Set this when connecting
    /// to a discovery service (subsysnqn = `nqn.2014-08.org.nvmexpress.discovery`).
    pub fn discovery(self) -> (r: Self)
        ensures
            r@ == (ConnectRequest { discovery: true, ..self@ }),
            r.target() == self.target(),
    {
        Connect { discovery: true, ..self }
    }

    /// Mark as a unique discovery controller (NVMe 2.0 or later), which is a
    /// discovery controller too.
    pub fn unique_discovery(self) -> (r: Self)
        ensures
            r@ == (ConnectRequest { discovery: true, unique_discovery: true, ..self@ }),
            r.target() == self.target(),
    {
        Connect { discovery: true, unique_discovery: true, ..self }
    }

    /// The host that the connection is for.
    pub fn host(&self) -> (r: &'a Host<'r>)
        ensures
            *r == self.target(),
    {
        self.host
    }

    /// Check the parameters and return the plan to connect by.
    pub fn execute(self) -> (r: Result<ConnectPlan>)
        ensures
            match self@.refusal() {
                Some(msg) => r matches Err(e) && e.rejects_with(msg),
                None => r matches Ok(p) && p@ == self@,
            },
            r matches Ok(p) ==> (p@.unique_discovery ==> p@.discovery),
    {
        proof {
            use_type_invariant(&self);
        }
        if has_nul(self.subsysnqn.as_str()) || has_nul(self.transport.as_str())
            || opt_string_has_nul(&self.traddr) || opt_string_has_nul(&self.trsvcid)
            || opt_string_has_nul(&self.host_traddr) || opt_string_has_nul(&self.host_iface) {
            return Err(
                Error::invalid_argument(Cow::Borrowed("interior NUL byte in fabrics parameter")),
            );
        }
        Ok(
            ConnectPlan {
                transport: self.transport,
                subsysnqn: self.subsysnqn,
                traddr: self.traddr,
                trsvcid: self.trsvcid,
                host_traddr: self.host_traddr,
                host_iface: self.host_iface,
                queue_size: self.queue_size,
                nr_io_queues: self.nr_io_queues,
                keep_alive_tmo: self.keep_alive_tmo,
                reconnect_delay: self.reconnect_delay,
                ctrl_loss_tmo: self.ctrl_loss_tmo,
                hdr_digest: self.hdr_digest,
                data_digest: self.data_digest,
                tls: self.tls,
                duplicate_connect: self.duplicate_connect,
                disable_sqflow: self.disable_sqflow,
                persistent: self.persistent,
                discovery: self.discovery,
                unique_discovery: self.unique_discovery,
            },
        )
    }
}

/// One raw entry of the discovery log page.
#[derive(Debug, Clone, Copy)]
pub struct DiscLogEntry {
    /// Transport type.
    pub trtype: u8,
    /// Address family.
    pub adrfam: u8,
    /// Subsystem type.
    pub subtype: u8,
    /// Transport requirements.
    pub treq: u8,
    /// Port identifier.
    pub portid: u16,
    /// Controller identifier.
    pub cntlid: u16,
    /// Admin Submission Queue size.
    pub asqsz: u16,
    /// Entry flags.
    pub eflags: u16,
    /// Transport service identifier, NUL-padded.
    pub trsvcid: [u8; 32],
    /// Subsystem NQN, NUL-padded.
    pub subnqn: [u8; 256],
    /// Transport address, NUL-padded.
    pub traddr: [u8; 256],
}

/// A discovery log page as libnvme returns it.
#[derive(Debug)]
pub struct DiscoveryLogPage {
    /// Generation counter.
    pub genctr: u64,
    /// Number of records.
    pub numrec: u64,
    /// The records.
    pub entries: Vec<DiscLogEntry>,
}

/// Discovery-log header + entries returned by a discovery controller's
/// log page (LID 0x70).
pub struct DiscoveryLog {
    inner: DiscoveryLogPage,
}

impl View for DiscoveryLog {
    type V = DiscoveryLogPage;

    closed spec fn view(&self) -> DiscoveryLogPage {
        self.inner
    }
}

impl DiscoveryLog {
    /// The log holds as many records as its header says.
    #[verifier::type_invariant]
    spec fn counts_its_records(self) -> bool {
        self.inner.entries@.len() == self.inner.numrec
    }

    /// Wrap the page that libnvme returned, where `None` stands for NULL: a
    /// failed operation whose reason is in `errno`.
    pub fn from_raw(raw: Option<DiscoveryLogPage>) -> (r: Result<Self>)
        requires
            raw matches Some(page) ==> page.entries@.len() == page.numrec,
        ensures
            match raw {
                Some(page) => r matches Ok(log) && log@ == page,
                None => r matches Err(e) && error::is_os_failure(e),
            },
    {
        match non_null(raw) {
            Ok(inner) => Ok(DiscoveryLog { inner }),
            Err(e) => Err(e),
        }
    }

    /// Discovery generation counter - increments whenever the discovery
    /// service's record set changes. Clients use this to detect updates.
    pub fn generation_counter(&self) -> (r: u64)
        ensures
            r == self@.genctr,
    {
        self.inner.genctr
    }

    /// Number of entries in this discovery log.
    pub fn num_records(&self) -> (r: u64)
        ensures
            r == self@.numrec,
    {
        self.inner.numrec
    }

    /// The entries (as typed wrappers), in order.
    pub fn entries(&self) -> (r: Vec<DiscoveryLogEntry<'_>>)
        ensures
            r@.len() == self@.numrec,
            r@.len() == self@.entries@.len(),
            forall|i: int| 0 <= i < r@.len() ==> (#[trigger] r@[i])@ == self@.entries@[i],
    {
        proof {
            use_type_invariant(self);
        }
        let mut out: Vec<DiscoveryLogEntry<'_>> = Vec::new();
        let n: usize = self.inner.entries.len();
        let mut i: usize = 0;
        while i < n
            invariant
                i <= n,
                n == self@.entries@.len(),
                out@.len() == i,
                forall|k: int| 0 <= k < i ==> (#[trigger] out@[k])@ == self@.entries@[k],
            decreases n - i,
        {
            out.push(DiscoveryLogEntry { raw: &self.inner.entries[i] });
            i = i + 1;
        }
        out
    }
}

/// One entry from the discovery log page.
pub struct DiscoveryLogEntry<'log> {
    raw: &'log DiscLogEntry,
}

impl<'log> View for DiscoveryLogEntry<'log> {
    type V = DiscLogEntry;

    closed spec fn view(&self) -> DiscLogEntry {
        *self.raw
    }
}

impl<'log> DiscoveryLogEntry<'log> {
    /// Raw transport type byte (`nvmf_trtype` values: 1=RDMA, 2=FC, 3=TCP,
    /// 254=loop, ...).
    pub fn transport_type(&self) -> (r: u8)
        ensures
            r == self@.trtype,
    {
        self.raw.trtype
    }

    /// Address family for the `traddr` field (1=IPv4, 2=IPv6, ...).
    pub fn address_family(&self) -> (r: u8)
        ensures
            r == self@.adrfam,
    {
        self.raw.adrfam
    }

    /// Subsystem type (1=discovery, 2=NVM, ...).
    pub fn subsystem_type(&self) -> (r: u8)
        ensures
            r == self@.subtype,
    {
        self.raw.subtype
    }

    /// Transport requirements byte.
    pub fn transport_requirements(&self) -> (r: u8)
        ensures
            r == self@.treq,
    {
        self.raw.treq
    }

    /// Port identifier within the discovery service.
    pub fn port_id(&self) -> (r: u16)
        ensures
            r == self@.portid,
    {
        self.raw.portid
    }

    /// Controller ID assigned to the discovered controller (`0xFFFF` =
    /// dynamic).
    pub fn controller_id(&self) -> (r: u16)
        ensures
            r == self@.cntlid,
    {
        self.raw.cntlid
    }

    /// Admin Submission Queue size for the discovered controller.
    pub fn asq_size(&self) -> (r: u16)
        ensures
            r == self@.asqsz,
    {
        self.raw.asqsz
    }

    /// Discovery-log entry flags.
    pub fn entry_flags(&self) -> (r: u16)
        ensures
            r == self@.eflags,
    {
        self.raw.eflags
    }

    /// Transport service identifier (port number for TCP/RDMA).
    pub fn transport_service_id(&self) -> (r: Result<&'log str>)
        ensures
            util::decodes_to(r, util::before_nul(self@.trsvcid@)),
    {
        decode_text(c_field(self.raw.trsvcid.as_slice()))
    }

    /// Subsystem NQN of the discovered target.
    pub fn subnqn(&self) -> (r: Result<&'log str>)
        ensures
            util::decodes_to(r, util::before_nul(self@.subnqn@)),
    {
        decode_text(c_field(self.raw.subnqn.as_slice()))
    }

    /// Transport address (IP, WWPN, ...) of the discovered target.
    pub fn traddr(&self) -> (r: Result<&'log str>)
        ensures
            util::decodes_to(r, util::before_nul(self@.traddr@)),
    {
        decode_text(c_field(self.raw.traddr.as_slice()))
    }
}

/// The discovery log of a connected discovery controller, once reading it
/// returned `ret` and the page `raw`.
pub fn fetch_discovery_log(ret: i32, raw: Option<DiscoveryLogPage>) -> (r: Result<DiscoveryLog>)
    requires
        raw matches Some(page) ==> page.entries@.len() == page.numrec,
    ensures
        if ret != 0 {
            r matches Err(e) && error::ret_failure(ret, e)
        } else {
            match raw {
                Some(page) => r matches Ok(log) && log@ == page,
                None => r matches Err(e) && error::is_os_failure(e),
            }
        },
{
    check_ret(ret)?;
    DiscoveryLog::from_raw(raw)
}

} // verus!
