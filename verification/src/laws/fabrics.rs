//! What a fabrics connection asks for, and what discovery reports.

use super::fields::c_field_is_the_prefix;
use super::{c_prefix, is_errno, reads_padded, say_the_same, says};
use crate::commands::Controller;
use crate::error::{os_code, Error, Result};
use crate::fabrics::{
    fetch_discovery_log, Connect, ConnectPlan, ConnectRequest, CtrlSetting, DiscLogEntry,
    DiscoveryLog, DiscoveryLogEntry, DiscoveryLogPage, FabricsConfig, FabricsOptions, Transport,
};
use crate::host::Host;
use vstd::prelude::*;

verus! {

/// The text of an optional string.
pub open spec fn maybe(s: Option<String>) -> Option<Seq<char>> {
    match s {
        Some(s) => Some(s@),
        None => None,
    }
}

/// Whether one of the characters is NUL.
pub open spec fn nul_in(s: Seq<char>) -> bool {
    exists|i: int| 0 <= i < s.len() && #[trigger] s[i] == '\0'
}

/// The fields of a plan.
#[verifier::ext_equal]
pub struct PlanFields {
    /// Transport string.
    pub transport: Seq<char>,
    /// Subsystem NQN.
    pub subsysnqn: Seq<char>,
    /// Transport target address.
    pub traddr: Option<Seq<char>>,
    /// Transport service identifier.
    pub trsvcid: Option<Seq<char>>,
    /// Host-side transport address.
    pub host_traddr: Option<Seq<char>>,
    /// Host network interface.
    pub host_iface: Option<Seq<char>>,
    /// Per-queue depth for I/O queues.
    pub queue_size: Option<i32>,
    /// Number of I/O queues.
    pub nr_io_queues: Option<i32>,
    /// Keep-alive timeout.
    pub keep_alive_tmo: Option<i32>,
    /// Delay between reconnect attempts.
    pub reconnect_delay: Option<i32>,
    /// Timeout for controller-loss reconnect.
    pub ctrl_loss_tmo: Option<i32>,
    /// PDU header digest.
    pub hdr_digest: Option<bool>,
    /// PDU data digest.
    pub data_digest: Option<bool>,
    /// TLS.
    pub tls: Option<bool>,
    /// Multiple connections to the same target.
    pub duplicate_connect: Option<bool>,
    /// No submission-queue flow control.
    pub disable_sqflow: Option<bool>,
    /// Persistent.
    pub persistent: bool,
    /// Discovery controller.
    pub discovery: bool,
    /// Unique discovery controller.
    pub unique_discovery: bool,
}

/// The fields of `p`.
pub open spec fn plan_fields(p: ConnectPlan) -> PlanFields {
    PlanFields {
        transport: p.transport@,
        subsysnqn: p.subsysnqn@,
        traddr: maybe(p.traddr),
        trsvcid: maybe(p.trsvcid),
        host_traddr: maybe(p.host_traddr),
        host_iface: maybe(p.host_iface),
        queue_size: p.queue_size,
        nr_io_queues: p.nr_io_queues,
        keep_alive_tmo: p.keep_alive_tmo,
        reconnect_delay: p.reconnect_delay,
        ctrl_loss_tmo: p.ctrl_loss_tmo,
        hdr_digest: p.hdr_digest,
        data_digest: p.data_digest,
        tls: p.tls,
        duplicate_connect: p.duplicate_connect,
        disable_sqflow: p.disable_sqflow,
        persistent: p.persistent,
        discovery: p.discovery,
        unique_discovery: p.unique_discovery,
    }
}

/// Whether two plans differ by `f` and in nothing else.
pub open spec fn plan_differs(
    p: Result<ConnectPlan>,
    q: Result<ConnectPlan>,
    f: spec_fn(PlanFields) -> PlanFields,
) -> bool {
    match (p, q) {
        (Ok(c), Ok(d)) => plan_fields(d) == f(plan_fields(c)),
        (Err(x), Err(y)) => say_the_same(x, y),
        _ => false,
    }
}

/// Whether `e` refuses a parameter that cannot be a C string.
pub open spec fn refuses_nul(e: Error) -> bool {
    says(e, "interior NUL byte in fabrics parameter"@)
}

impl ConnectRequest {
    /// Each field of the configuration is what the setter of the same name was given,
    /// and libnvme's default where it was not called.
    pub proof fn config_has_what_was_set(self, defaults: FabricsOptions)
        ensures
            self.host_traddr is Some ==> self.config(defaults).host_traddr == self.host_traddr,
            self.host_traddr is None ==> self.config(defaults).host_traddr == defaults.host_traddr,
            self.host_iface is Some ==> self.config(defaults).host_iface == self.host_iface,
            self.host_iface is None ==> self.config(defaults).host_iface == defaults.host_iface,
            self.queue_size matches Some(v) ==> self.config(defaults).queue_size == v,
            self.queue_size is None ==> self.config(defaults).queue_size == defaults.queue_size,
            self.nr_io_queues matches Some(v) ==> self.config(defaults).nr_io_queues == v,
            self.nr_io_queues is None
                ==> self.config(defaults).nr_io_queues == defaults.nr_io_queues,
            self.keep_alive_tmo matches Some(v) ==> self.config(defaults).keep_alive_tmo == v,
            self.keep_alive_tmo is None
                ==> self.config(defaults).keep_alive_tmo == defaults.keep_alive_tmo,
            self.reconnect_delay matches Some(v) ==> self.config(defaults).reconnect_delay == v,
            self.reconnect_delay is None
                ==> self.config(defaults).reconnect_delay == defaults.reconnect_delay,
            self.ctrl_loss_tmo matches Some(v) ==> self.config(defaults).ctrl_loss_tmo == v,
            self.ctrl_loss_tmo is None
                ==> self.config(defaults).ctrl_loss_tmo == defaults.ctrl_loss_tmo,
            self.hdr_digest matches Some(v) ==> self.config(defaults).hdr_digest == v,
            self.hdr_digest is None ==> self.config(defaults).hdr_digest == defaults.hdr_digest,
            self.data_digest matches Some(v) ==> self.config(defaults).data_digest == v,
            self.data_digest is None ==> self.config(defaults).data_digest == defaults.data_digest,
            self.tls matches Some(v) ==> self.config(defaults).tls == v,
            self.tls is None ==> self.config(defaults).tls == defaults.tls,
            self.duplicate_connect matches Some(v) ==> self.config(defaults).duplicate_connect == v,
            self.duplicate_connect is None
                ==> self.config(defaults).duplicate_connect == defaults.duplicate_connect,
            self.disable_sqflow matches Some(v) ==> self.config(defaults).disable_sqflow == v,
            self.disable_sqflow is None
                ==> self.config(defaults).disable_sqflow == defaults.disable_sqflow,
    {
    }

    /// Changing one option changes no field of the configuration but its own.
    pub proof fn option_changes_only_its_field(
        self,
        defaults: FabricsOptions,
        text: Option<Seq<char>>,
        number: Option<i32>,
        flag: Option<bool>,
    )
        ensures
            ({
                let changed = (ConnectRequest { host_traddr: text, ..self }).config(defaults);
                changed == (FabricsOptions { host_traddr: changed.host_traddr, ..self.config(defaults) })
            }),
            ({
                let changed = (ConnectRequest { host_iface: text, ..self }).config(defaults);
                changed == (FabricsOptions { host_iface: changed.host_iface, ..self.config(defaults) })
            }),
            ({
                let changed = (ConnectRequest { queue_size: number, ..self }).config(defaults);
                changed == (FabricsOptions { queue_size: changed.queue_size, ..self.config(defaults) })
            }),
            ({
                let changed = (ConnectRequest { nr_io_queues: number, ..self }).config(defaults);
                changed == (FabricsOptions { nr_io_queues: changed.nr_io_queues, ..self.config(defaults) })
            }),
            ({
                let changed = (ConnectRequest { keep_alive_tmo: number, ..self }).config(defaults);
                changed == (FabricsOptions { keep_alive_tmo: changed.keep_alive_tmo, ..self.config(defaults) })
            }),
            ({
                let changed = (ConnectRequest { reconnect_delay: number, ..self }).config(defaults);
                changed == (FabricsOptions { reconnect_delay: changed.reconnect_delay, ..self.config(defaults) })
            }),
            ({
                let changed = (ConnectRequest { ctrl_loss_tmo: number, ..self }).config(defaults);
                changed == (FabricsOptions { ctrl_loss_tmo: changed.ctrl_loss_tmo, ..self.config(defaults) })
            }),
            ({
                let changed = (ConnectRequest { hdr_digest: flag, ..self }).config(defaults);
                changed == (FabricsOptions { hdr_digest: changed.hdr_digest, ..self.config(defaults) })
            }),
            ({
                let changed = (ConnectRequest { data_digest: flag, ..self }).config(defaults);
                changed == (FabricsOptions { data_digest: changed.data_digest, ..self.config(defaults) })
            }),
            ({
                let changed = (ConnectRequest { tls: flag, ..self }).config(defaults);
                changed == (FabricsOptions { tls: changed.tls, ..self.config(defaults) })
            }),
            ({
                let changed = (ConnectRequest { duplicate_connect: flag, ..self }).config(defaults);
                changed == (FabricsOptions { duplicate_connect: changed.duplicate_connect, ..self.config(defaults) })
            }),
            ({
                let changed = (ConnectRequest { disable_sqflow: flag, ..self }).config(defaults);
                changed == (FabricsOptions { disable_sqflow: changed.disable_sqflow, ..self.config(defaults) })
            }),
    {
    }

    /// A request is refused exactly where one of its six texts holds a NUL.
    pub proof fn refused_exactly_where_a_text_has_a_nul(self)
        ensures
            self.refusal() is Some <==> nul_in(self.transport) || nul_in(self.subsysnqn) || (
            self.traddr matches Some(t) && nul_in(t)) || (self.trsvcid matches Some(t) && nul_in(t))
                || (self.host_traddr matches Some(t) && nul_in(t)) || (
            self.host_iface matches Some(t) && nul_in(t)),
    {
    }
}

/// The transport strings.
pub proof fn transports(t: Transport<'_>, r: &str)
    requires
        call_ensures(Transport::as_str, (&t,), r),
    ensures
        t is Tcp ==> r@ == seq!['t', 'c', 'p'],
        t is Rdma ==> r@ == seq!['r', 'd', 'm', 'a'],
        t is Fc ==> r@ == seq!['f', 'c'],
        t is Loop ==> r@ == seq!['l', 'o', 'o', 'p'],
        t matches Transport::Other(s) ==> r@ == s@,
{
    reveal_strlit("tcp");
    reveal_strlit("rdma");
    reveal_strlit("fc");
    reveal_strlit("loop");
    assert("tcp"@ =~= seq!['t', 'c', 'p']);
    assert("rdma"@ =~= seq!['r', 'd', 'm', 'a']);
    assert("fc"@ =~= seq!['f', 'c']);
    assert("loop"@ =~= seq!['l', 'o', 'o', 'p']);
}

/// A connection on which nothing is set is accepted exactly where neither the
/// transport nor the subsystem NQN holds a NUL, and its plan has the two and nothing
/// else.
#[verifier::spinoff_prover]
pub proof fn connect_encodes<'a, 'r>(
    host: &'a Host<'r>,
    transport: Transport<'a>,
    name: &'a str,
    subsysnqn: &'a str,
    b: Connect<'a, 'r>,
    h: &'a Host<'r>,
    r: Result<ConnectPlan>,
)
    requires
        call_ensures(Transport::as_str, (&transport,), name),
        call_ensures(Host::connect, (host, transport, subsysnqn), b),
        call_ensures(Connect::host, (&b,), h),
        call_ensures(Connect::execute, (b,), r),
    ensures
        *h == *host,
        r is Ok <==> !nul_in(name@) && !nul_in(subsysnqn@),
        r matches Ok(p) ==> plan_fields(p) == (PlanFields {
            transport: name@,
            subsysnqn: subsysnqn@,
            traddr: None,
            trsvcid: None,
            host_traddr: None,
            host_iface: None,
            queue_size: None,
            nr_io_queues: None,
            keep_alive_tmo: None,
            reconnect_delay: None,
            ctrl_loss_tmo: None,
            hdr_digest: None,
            data_digest: None,
            tls: None,
            duplicate_connect: None,
            disable_sqflow: None,
            persistent: false,
            discovery: false,
            unique_discovery: false,
        }),
        r matches Err(e) ==> refuses_nul(e),
{
    assert(nul_in(name@) <==> name@.contains('\0'));
    assert(nul_in(subsysnqn@) <==> subsysnqn@.contains('\0'));
}

/// Each address of a connection stands in the plan as it was given, and nothing else
/// changes. An address with a NUL is refused, and one without a NUL never turns
/// acceptance into refusal.
#[verifier::spinoff_prover]
pub proof fn connect_addresses<'a, 'r>(
    before: Connect<'a, 'r>,
    plain: Result<ConnectPlan>,
    addr: &'a str,
)
    requires
        call_ensures(Connect::execute, (before,), plain),
    ensures
        forall|after: Connect<'a, 'r>, r: Result<ConnectPlan>|
            #[trigger] call_ensures(Connect::traddr, (before, addr), after)
                && #[trigger] call_ensures(Connect::execute, (after,), r)
                ==> after.target() == before.target() && (r matches Err(e) ==> refuses_nul(e))
                && (nul_in(addr@) ==> r is Err)
                && (plain is Ok && !nul_in(addr@) ==> plan_differs(plain, r, |a: PlanFields| (PlanFields { traddr: Some(addr@), ..a }))),
        forall|after: Connect<'a, 'r>, r: Result<ConnectPlan>|
            #[trigger] call_ensures(Connect::trsvcid, (before, addr), after)
                && #[trigger] call_ensures(Connect::execute, (after,), r)
                ==> after.target() == before.target() && (r matches Err(e) ==> refuses_nul(e))
                && (nul_in(addr@) ==> r is Err)
                && (plain is Ok && !nul_in(addr@) ==> plan_differs(plain, r, |a: PlanFields| (PlanFields { trsvcid: Some(addr@), ..a }))),
        forall|after: Connect<'a, 'r>, r: Result<ConnectPlan>|
            #[trigger] call_ensures(Connect::host_traddr, (before, addr), after)
                && #[trigger] call_ensures(Connect::execute, (after,), r)
                ==> after.target() == before.target() && (r matches Err(e) ==> refuses_nul(e))
                && (nul_in(addr@) ==> r is Err)
                && (plain is Ok && !nul_in(addr@) ==> plan_differs(plain, r, |a: PlanFields| (PlanFields { host_traddr: Some(addr@), ..a }))),
        forall|after: Connect<'a, 'r>, r: Result<ConnectPlan>|
            #[trigger] call_ensures(Connect::host_iface, (before, addr), after)
                && #[trigger] call_ensures(Connect::execute, (after,), r)
                ==> after.target() == before.target() && (r matches Err(e) ==> refuses_nul(e))
                && (nul_in(addr@) ==> r is Err)
                && (plain is Ok && !nul_in(addr@) ==> plan_differs(plain, r, |a: PlanFields| (PlanFields { host_iface: Some(addr@), ..a }))),
{
    assert(nul_in(addr@) <==> addr@.contains('\0'));
}

/// Each option of a connection stands in the plan as it was given, and nothing else
/// changes. A unique discovery controller is a discovery controller too. No option
/// decides whether the request is refused or which host it is for.
#[verifier::spinoff_prover]
pub proof fn connect_options<'a, 'r>(before: Connect<'a, 'r>, plain: Result<ConnectPlan>)
    requires
        call_ensures(Connect::execute, (before,), plain),
    ensures
        forall|after: Connect<'a, 'r>, r: Result<ConnectPlan>, v: i32|
            #[trigger] call_ensures(Connect::queue_size, (before, v), after)
                && #[trigger] call_ensures(Connect::execute, (after,), r)
                ==> after.target() == before.target()
                && plan_differs(plain, r, |a: PlanFields| (PlanFields { queue_size: Some(v), ..a })),
        forall|after: Connect<'a, 'r>, r: Result<ConnectPlan>, v: i32|
            #[trigger] call_ensures(Connect::nr_io_queues, (before, v), after)
                && #[trigger] call_ensures(Connect::execute, (after,), r)
                ==> after.target() == before.target()
                && plan_differs(plain, r, |a: PlanFields| (PlanFields { nr_io_queues: Some(v), ..a })),
        forall|after: Connect<'a, 'r>, r: Result<ConnectPlan>, v: i32|
            #[trigger] call_ensures(Connect::keep_alive_tmo, (before, v), after)
                && #[trigger] call_ensures(Connect::execute, (after,), r)
                ==> after.target() == before.target()
                && plan_differs(plain, r, |a: PlanFields| (PlanFields { keep_alive_tmo: Some(v), ..a })),
        forall|after: Connect<'a, 'r>, r: Result<ConnectPlan>, v: i32|
            #[trigger] call_ensures(Connect::reconnect_delay, (before, v), after)
                && #[trigger] call_ensures(Connect::execute, (after,), r)
                ==> after.target() == before.target()
                && plan_differs(plain, r, |a: PlanFields| (PlanFields { reconnect_delay: Some(v), ..a })),
        forall|after: Connect<'a, 'r>, r: Result<ConnectPlan>, v: i32|
            #[trigger] call_ensures(Connect::ctrl_loss_tmo, (before, v), after)
                && #[trigger] call_ensures(Connect::execute, (after,), r)
                ==> after.target() == before.target()
                && plan_differs(plain, r, |a: PlanFields| (PlanFields { ctrl_loss_tmo: Some(v), ..a })),
        forall|after: Connect<'a, 'r>, r: Result<ConnectPlan>, v: bool|
            #[trigger] call_ensures(Connect::hdr_digest, (before, v), after)
                && #[trigger] call_ensures(Connect::execute, (after,), r)
                ==> after.target() == before.target()
                && plan_differs(plain, r, |a: PlanFields| (PlanFields { hdr_digest: Some(v), ..a })),
        forall|after: Connect<'a, 'r>, r: Result<ConnectPlan>, v: bool|
            #[trigger] call_ensures(Connect::data_digest, (before, v), after)
                && #[trigger] call_ensures(Connect::execute, (after,), r)
                ==> after.target() == before.target()
                && plan_differs(plain, r, |a: PlanFields| (PlanFields { data_digest: Some(v), ..a })),
        forall|after: Connect<'a, 'r>, r: Result<ConnectPlan>, v: bool|
            #[trigger] call_ensures(Connect::tls, (before, v), after)
                && #[trigger] call_ensures(Connect::execute, (after,), r)
                ==> after.target() == before.target()
                && plan_differs(plain, r, |a: PlanFields| (PlanFields { tls: Some(v), ..a })),
        forall|after: Connect<'a, 'r>, r: Result<ConnectPlan>, v: bool|
            #[trigger] call_ensures(Connect::duplicate_connect, (before, v), after)
                && #[trigger] call_ensures(Connect::execute, (after,), r)
                ==> after.target() == before.target()
                && plan_differs(plain, r, |a: PlanFields| (PlanFields { duplicate_connect: Some(v), ..a })),
        forall|after: Connect<'a, 'r>, r: Result<ConnectPlan>, v: bool|
            #[trigger] call_ensures(Connect::disable_sqflow, (before, v), after)
                && #[trigger] call_ensures(Connect::execute, (after,), r)
                ==> after.target() == before.target()
                && plan_differs(plain, r, |a: PlanFields| (PlanFields { disable_sqflow: Some(v), ..a })),
        forall|after: Connect<'a, 'r>, r: Result<ConnectPlan>, v: bool|
            #[trigger] call_ensures(Connect::persistent, (before, v), after)
                && #[trigger] call_ensures(Connect::execute, (after,), r)
                ==> after.target() == before.target()
                && plan_differs(plain, r, |a: PlanFields| (PlanFields { persistent: v, ..a })),
        forall|after: Connect<'a, 'r>, r: Result<ConnectPlan>|
            #[trigger] call_ensures(Connect::discovery, (before,), after)
                && #[trigger] call_ensures(Connect::execute, (after,), r)
                ==> after.target() == before.target()
                && plan_differs(plain, r, |a: PlanFields| (PlanFields { discovery: true, ..a })),
        forall|after: Connect<'a, 'r>, r: Result<ConnectPlan>|
            #[trigger] call_ensures(Connect::unique_discovery, (before,), after)
                && #[trigger] call_ensures(Connect::execute, (after,), r)
                ==> after.target() == before.target()
                && plan_differs(plain, r, |a: PlanFields| (PlanFields { discovery: true, unique_discovery: true, ..a })),
{
}

/// Every plan of a unique discovery controller is one of a discovery controller, and
/// no text of a plan holds a NUL.
#[verifier::spinoff_prover]
pub proof fn plans_are_sound<'a, 'r>(b: Connect<'a, 'r>, r: Result<ConnectPlan>)
    requires
        call_ensures(Connect::execute, (b,), r),
    ensures
        r matches Ok(p) ==> (p.unique_discovery ==> p.discovery),
        r matches Ok(p) ==> !nul_in(p.transport@) && !nul_in(p.subsysnqn@) && (
        p.traddr matches Some(s) ==> !nul_in(s@)) && (p.trsvcid matches Some(s) ==> !nul_in(s@))
            && (p.host_traddr matches Some(s) ==> !nul_in(s@)) && (
        p.host_iface matches Some(s) ==> !nul_in(s@)),
{
    if let Ok(p) = r {
        assert(p@.transport == p.transport@);
    }
}

/// Each field of the configuration is what the plan has under the same name, and
/// libnvme's default where the plan has nothing.
#[verifier::spinoff_prover]
pub proof fn configurations(p: ConnectPlan, defaults: FabricsConfig, c: FabricsConfig)
    requires
        call_ensures(ConnectPlan::fabrics_config, (&p, defaults), c),
    ensures
        maybe(c.host_traddr) == (if p.host_traddr is Some { maybe(p.host_traddr) } else { maybe(defaults.host_traddr) }),
        maybe(c.host_iface) == (if p.host_iface is Some { maybe(p.host_iface) } else { maybe(defaults.host_iface) }),
        c.queue_size == (match p.queue_size { Some(v) => v, None => defaults.queue_size }),
        c.nr_io_queues == (match p.nr_io_queues { Some(v) => v, None => defaults.nr_io_queues }),
        c.keep_alive_tmo == (match p.keep_alive_tmo { Some(v) => v, None => defaults.keep_alive_tmo }),
        c.reconnect_delay == (match p.reconnect_delay { Some(v) => v, None => defaults.reconnect_delay }),
        c.ctrl_loss_tmo == (match p.ctrl_loss_tmo { Some(v) => v, None => defaults.ctrl_loss_tmo }),
        c.hdr_digest == (match p.hdr_digest { Some(v) => v, None => defaults.hdr_digest }),
        c.data_digest == (match p.data_digest { Some(v) => v, None => defaults.data_digest }),
        c.tls == (match p.tls { Some(v) => v, None => defaults.tls }),
        c.duplicate_connect == (match p.duplicate_connect { Some(v) => v, None => defaults.duplicate_connect }),
        c.disable_sqflow == (match p.disable_sqflow { Some(v) => v, None => defaults.disable_sqflow }),
{
}

/// The fields of a configuration.
#[verifier::ext_equal]
pub struct ConfigFields {
    /// Host-side transport address.
    pub host_traddr: Option<Seq<char>>,
    /// Host network interface.
    pub host_iface: Option<Seq<char>>,
    /// Per-queue depth for I/O queues.
    pub queue_size: i32,
    /// Number of I/O queues.
    pub nr_io_queues: i32,
    /// Keep-alive timeout.
    pub keep_alive_tmo: i32,
    /// Delay between reconnect attempts.
    pub reconnect_delay: i32,
    /// Timeout for controller-loss reconnect.
    pub ctrl_loss_tmo: i32,
    /// PDU header digest.
    pub hdr_digest: bool,
    /// PDU data digest.
    pub data_digest: bool,
    /// TLS.
    pub tls: bool,
    /// Multiple connections to the same target.
    pub duplicate_connect: bool,
    /// No submission-queue flow control.
    pub disable_sqflow: bool,
}

/// The fields of `c`.
pub open spec fn config_fields(c: FabricsConfig) -> ConfigFields {
    ConfigFields {
        host_traddr: maybe(c.host_traddr),
        host_iface: maybe(c.host_iface),
        queue_size: c.queue_size,
        nr_io_queues: c.nr_io_queues,
        keep_alive_tmo: c.keep_alive_tmo,
        reconnect_delay: c.reconnect_delay,
        ctrl_loss_tmo: c.ctrl_loss_tmo,
        hdr_digest: c.hdr_digest,
        data_digest: c.data_digest,
        tls: c.tls,
        duplicate_connect: c.duplicate_connect,
        disable_sqflow: c.disable_sqflow,
    }
}

/// Each number that a connection is given reaches the field of the configuration of
/// the same name, and no other field changes.
#[verifier::spinoff_prover]
#[verifier::rlimit(60)]
pub proof fn numbers_reach_the_configuration<'a, 'r>(
    before: Connect<'a, 'r>,
    plain: ConnectPlan,
    defaults: FabricsConfig,
    c: FabricsConfig,
)
    requires
        call_ensures(Connect::execute, (before,), Ok::<ConnectPlan, Error>(plain)),
        call_ensures(ConnectPlan::fabrics_config, (&plain, defaults), c),
    ensures
        forall|after: Connect<'a, 'r>, p: ConnectPlan, d: FabricsConfig, v: i32|
            #[trigger] call_ensures(Connect::queue_size, (before, v), after)
                && #[trigger] call_ensures(Connect::execute, (after,), Ok::<ConnectPlan, Error>(p))
                && #[trigger] call_ensures(ConnectPlan::fabrics_config, (&p, defaults), d)
                ==> config_fields(d) == (ConfigFields { queue_size: v, ..config_fields(c) }),
        forall|after: Connect<'a, 'r>, p: ConnectPlan, d: FabricsConfig, v: i32|
            #[trigger] call_ensures(Connect::nr_io_queues, (before, v), after)
                && #[trigger] call_ensures(Connect::execute, (after,), Ok::<ConnectPlan, Error>(p))
                && #[trigger] call_ensures(ConnectPlan::fabrics_config, (&p, defaults), d)
                ==> config_fields(d) == (ConfigFields { nr_io_queues: v, ..config_fields(c) }),
        forall|after: Connect<'a, 'r>, p: ConnectPlan, d: FabricsConfig, v: i32|
            #[trigger] call_ensures(Connect::keep_alive_tmo, (before, v), after)
                && #[trigger] call_ensures(Connect::execute, (after,), Ok::<ConnectPlan, Error>(p))
                && #[trigger] call_ensures(ConnectPlan::fabrics_config, (&p, defaults), d)
                ==> config_fields(d) == (ConfigFields { keep_alive_tmo: v, ..config_fields(c) }),
        forall|after: Connect<'a, 'r>, p: ConnectPlan, d: FabricsConfig, v: i32|
            #[trigger] call_ensures(Connect::reconnect_delay, (before, v), after)
                && #[trigger] call_ensures(Connect::execute, (after,), Ok::<ConnectPlan, Error>(p))
                && #[trigger] call_ensures(ConnectPlan::fabrics_config, (&p, defaults), d)
                ==> config_fields(d) == (ConfigFields { reconnect_delay: v, ..config_fields(c) }),
        forall|after: Connect<'a, 'r>, p: ConnectPlan, d: FabricsConfig, v: i32|
            #[trigger] call_ensures(Connect::ctrl_loss_tmo, (before, v), after)
                && #[trigger] call_ensures(Connect::execute, (after,), Ok::<ConnectPlan, Error>(p))
                && #[trigger] call_ensures(ConnectPlan::fabrics_config, (&p, defaults), d)
                ==> config_fields(d) == (ConfigFields { ctrl_loss_tmo: v, ..config_fields(c) }),
{
}

/// Each yes/no option that a connection is given reaches the field of the
/// configuration of the same name, and no other field changes.
#[verifier::spinoff_prover]
#[verifier::rlimit(60)]
pub proof fn flags_reach_the_configuration<'a, 'r>(
    before: Connect<'a, 'r>,
    plain: ConnectPlan,
    defaults: FabricsConfig,
    c: FabricsConfig,
)
    requires
        call_ensures(Connect::execute, (before,), Ok::<ConnectPlan, Error>(plain)),
        call_ensures(ConnectPlan::fabrics_config, (&plain, defaults), c),
    ensures
        forall|after: Connect<'a, 'r>, p: ConnectPlan, d: FabricsConfig, v: bool|
            #[trigger] call_ensures(Connect::hdr_digest, (before, v), after)
                && #[trigger] call_ensures(Connect::execute, (after,), Ok::<ConnectPlan, Error>(p))
                && #[trigger] call_ensures(ConnectPlan::fabrics_config, (&p, defaults), d)
                ==> config_fields(d) == (ConfigFields { hdr_digest: v, ..config_fields(c) }),
        forall|after: Connect<'a, 'r>, p: ConnectPlan, d: FabricsConfig, v: bool|
            #[trigger] call_ensures(Connect::data_digest, (before, v), after)
                && #[trigger] call_ensures(Connect::execute, (after,), Ok::<ConnectPlan, Error>(p))
                && #[trigger] call_ensures(ConnectPlan::fabrics_config, (&p, defaults), d)
                ==> config_fields(d) == (ConfigFields { data_digest: v, ..config_fields(c) }),
        forall|after: Connect<'a, 'r>, p: ConnectPlan, d: FabricsConfig, v: bool|
            #[trigger] call_ensures(Connect::tls, (before, v), after)
                && #[trigger] call_ensures(Connect::execute, (after,), Ok::<ConnectPlan, Error>(p))
                && #[trigger] call_ensures(ConnectPlan::fabrics_config, (&p, defaults), d)
                ==> config_fields(d) == (ConfigFields { tls: v, ..config_fields(c) }),
        forall|after: Connect<'a, 'r>, p: ConnectPlan, d: FabricsConfig, v: bool|
            #[trigger] call_ensures(Connect::duplicate_connect, (before, v), after)
                && #[trigger] call_ensures(Connect::execute, (after,), Ok::<ConnectPlan, Error>(p))
                && #[trigger] call_ensures(ConnectPlan::fabrics_config, (&p, defaults), d)
                ==> config_fields(d) == (ConfigFields { duplicate_connect: v, ..config_fields(c) }),
        forall|after: Connect<'a, 'r>, p: ConnectPlan, d: FabricsConfig, v: bool|
            #[trigger] call_ensures(Connect::disable_sqflow, (before, v), after)
                && #[trigger] call_ensures(Connect::execute, (after,), Ok::<ConnectPlan, Error>(p))
                && #[trigger] call_ensures(ConnectPlan::fabrics_config, (&p, defaults), d)
                ==> config_fields(d) == (ConfigFields { disable_sqflow: v, ..config_fields(c) }),
{
}

/// Each host-side address that a connection is given reaches the field of the
/// configuration of the same name, and no other field changes.
#[verifier::spinoff_prover]
#[verifier::rlimit(60)]
pub proof fn addresses_reach_the_configuration<'a, 'r>(
    before: Connect<'a, 'r>,
    plain: ConnectPlan,
    defaults: FabricsConfig,
    c: FabricsConfig,
)
    requires
        call_ensures(Connect::execute, (before,), Ok::<ConnectPlan, Error>(plain)),
        call_ensures(ConnectPlan::fabrics_config, (&plain, defaults), c),
    ensures
        forall|after: Connect<'a, 'r>, p: ConnectPlan, d: FabricsConfig, v: &str|
            #[trigger] call_ensures(Connect::host_traddr, (before, v), after)
                && #[trigger] call_ensures(Connect::execute, (after,), Ok::<ConnectPlan, Error>(p))
                && #[trigger] call_ensures(ConnectPlan::fabrics_config, (&p, defaults), d)
                ==> config_fields(d) == (ConfigFields { host_traddr: Some(v@), ..config_fields(c) }),
        forall|after: Connect<'a, 'r>, p: ConnectPlan, d: FabricsConfig, v: &str|
            #[trigger] call_ensures(Connect::host_iface, (before, v), after)
                && #[trigger] call_ensures(Connect::execute, (after,), Ok::<ConnectPlan, Error>(p))
                && #[trigger] call_ensures(ConnectPlan::fabrics_config, (&p, defaults), d)
                ==> config_fields(d) == (ConfigFields { host_iface: Some(v@), ..config_fields(c) }),
{
}

/// The properties to set are exactly those that the plan has, each once: a discovery
/// controller first, then a unique one, and persistent last.
pub proof fn settings(p: ConnectPlan, r: Vec<CtrlSetting>)
    requires
        call_ensures(ConnectPlan::settings, (&p,), r),
    ensures
        r@.no_duplicates(),
        r@.contains(CtrlSetting::Discovery) <==> p.discovery,
        r@.contains(CtrlSetting::UniqueDiscovery) <==> p.unique_discovery,
        r@.contains(CtrlSetting::Persistent) <==> p.persistent,
        p.discovery ==> r@[0] == CtrlSetting::Discovery,
        p.persistent ==> r@.last() == CtrlSetting::Persistent,
        forall|i: int, j: int|
            0 <= i < r@.len() && 0 <= j < r@.len() && #[trigger] r@[i]
                == CtrlSetting::UniqueDiscovery && #[trigger] r@[j] == CtrlSetting::Discovery ==> j
                < i,
{
    p@.settings_are_those_asked_for();
}

/// A created controller is handed on as it is, and NULL is what `errno` held.
pub proof fn created<H>(p: ConnectPlan, raw: Option<H>, r: Result<H>)
    requires
        call_ensures(ConnectPlan::created::<H>, (&p, raw), r),
    ensures
        raw matches Some(h) ==> r == Ok::<H, Error>(h),
        raw is None ==> (r matches Err(e) && is_errno(e)),
{
}

/// Adding a controller succeeds exactly where the return value is zero, with the
/// controller of the handle, and fails as the return value says otherwise.
pub proof fn added<H>(p: ConnectPlan, ctrl: H, ret: i32, r: Result<Controller<H>>)
    requires
        call_ensures(ConnectPlan::added::<H>, (&p, ctrl, ret), r),
    ensures
        r is Ok <==> ret == 0,
        r matches Ok(c) ==> forall|h: &H| #[trigger]
            call_ensures(Controller::<H>::raw_handle, (&c,), h) ==> *h == ctrl,
        ret > 0 ==> (r matches Err(e) && e == Error::Nvme(ret as u32)),
        ret == -1 ==> (r matches Err(e) && is_errno(e)),
        i32::MIN < ret < -1 ==> (r matches Err(Error::Os(os)) && (os_code(os) matches Some(code)
            && code + ret == 0)),
        ret == i32::MIN ==> (r matches Err(Error::Os(os)) && os_code(os) == Some(i32::MIN)),
{
}

/// A page becomes a log that reports the page's counter and record count, and NULL is
/// what `errno` held.
pub proof fn logs(raw: Option<DiscoveryLogPage>, r: Result<DiscoveryLog>)
    requires
        raw matches Some(page) ==> page.entries@.len() == page.numrec,
        call_ensures(DiscoveryLog::from_raw, (raw,), r),
    ensures
        r is Ok <==> raw is Some,
        r matches Err(e) ==> is_errno(e),
        r matches Ok(log) ==> log_reports(log, raw->0),
{
    if let (Ok(log), Some(page)) = (r, raw) {
        log_is_its_page(log, page);
    }
}

/// Whether a log reports what the page has: its counter, its record count, and its
/// entries in order.
pub open spec fn log_reports(log: DiscoveryLog, page: DiscoveryLogPage) -> bool {
    &&& forall|x: u64| #[trigger]
        call_ensures(DiscoveryLog::generation_counter, (&log,), x) ==> x == page.genctr
    &&& forall|x: u64| #[trigger]
        call_ensures(DiscoveryLog::num_records, (&log,), x) ==> x == page.numrec
    &&& forall|es: Vec<DiscoveryLogEntry<'_>>| #[trigger]
        call_ensures(DiscoveryLog::entries, (&log,), es) ==> es@.len() == page.entries@.len() && (
        forall|i: int| 0 <= i < es@.len() ==> entry_reports(#[trigger] es@[i], page.entries@[i]))
}

/// Whether an entry reports what the record has, field by field.
pub open spec fn entry_reports(x: DiscoveryLogEntry<'_>, raw: DiscLogEntry) -> bool {
    &&& forall|r: u8| #[trigger] call_ensures(DiscoveryLogEntry::transport_type, (&x,), r)
    ==> r == raw.trtype
    &&& forall|r: u8| #[trigger] call_ensures(DiscoveryLogEntry::address_family, (&x,), r)
    ==> r == raw.adrfam
    &&& forall|r: u8| #[trigger] call_ensures(DiscoveryLogEntry::subsystem_type, (&x,), r)
    ==> r == raw.subtype
    &&& forall|r: u8| #[trigger] call_ensures(DiscoveryLogEntry::transport_requirements, (&x,), r)
    ==> r == raw.treq
    &&& forall|r: u16| #[trigger] call_ensures(DiscoveryLogEntry::port_id, (&x,), r)
    ==> r == raw.portid
    &&& forall|r: u16| #[trigger] call_ensures(DiscoveryLogEntry::controller_id, (&x,), r)
    ==> r == raw.cntlid
    &&& forall|r: u16| #[trigger] call_ensures(DiscoveryLogEntry::asq_size, (&x,), r)
    ==> r == raw.asqsz
    &&& forall|r: u16| #[trigger] call_ensures(DiscoveryLogEntry::entry_flags, (&x,), r)
    ==> r == raw.eflags
    &&& forall|r: Result<&str>| #[trigger] call_ensures(DiscoveryLogEntry::transport_service_id, (&x,), r)
    ==> reads_padded(r, raw.trsvcid@)
    &&& forall|r: Result<&str>| #[trigger] call_ensures(DiscoveryLogEntry::subnqn, (&x,), r)
    ==> reads_padded(r, raw.subnqn@)
    &&& forall|r: Result<&str>| #[trigger] call_ensures(DiscoveryLogEntry::traddr, (&x,), r)
    ==> reads_padded(r, raw.traddr@)
}

/// An entry that wraps a record reports what the record has.
proof fn entry_is_its_record(x: DiscoveryLogEntry<'_>, raw: DiscLogEntry)
    requires
        x@ == raw,
    ensures
        entry_reports(x, raw),
{
    c_field_is_the_prefix(raw.trsvcid@);
    c_field_is_the_prefix(raw.subnqn@);
    c_field_is_the_prefix(raw.traddr@);
    assert(c_prefix(raw.trsvcid@, crate::util::before_nul(raw.trsvcid@).len() as int));
    assert(c_prefix(raw.subnqn@, crate::util::before_nul(raw.subnqn@).len() as int));
    assert(c_prefix(raw.traddr@, crate::util::before_nul(raw.traddr@).len() as int));
}

/// A log that wraps a page reports what the page has.
proof fn log_is_its_page(log: DiscoveryLog, page: DiscoveryLogPage)
    requires
        log@ == page,
    ensures
        log_reports(log, page),
{
    assert forall|es: Vec<DiscoveryLogEntry<'_>>| #[trigger]
        call_ensures(DiscoveryLog::entries, (&log,), es) implies es@.len() == page.entries@.len()
        && (forall|i: int|
        0 <= i < es@.len() ==> entry_reports(#[trigger] es@[i], page.entries@[i])) by {
        assert forall|i: int| 0 <= i < es@.len() implies entry_reports(
            #[trigger] es@[i],
            page.entries@[i],
        ) by {
            entry_is_its_record(es@[i], page.entries@[i]);
        }
    }
}

/// Fetching the log gives the log of the page where the return value is zero and
/// there is a page, and fails as the return value says, or as `errno` says of NULL.
pub proof fn fetched_logs(ret: i32, raw: Option<DiscoveryLogPage>, r: Result<DiscoveryLog>)
    requires
        raw matches Some(page) ==> page.entries@.len() == page.numrec,
        call_ensures(fetch_discovery_log, (ret, raw), r),
    ensures
        r is Ok <==> ret == 0 && raw is Some,
        r matches Ok(log) ==> log_reports(log, raw->0),
        ret == 0 && raw is None ==> (r matches Err(e) && is_errno(e)),
        ret > 0 ==> (r matches Err(e) && e == Error::Nvme(ret as u32)),
        ret == -1 ==> (r matches Err(e) && is_errno(e)),
        i32::MIN < ret < -1 ==> (r matches Err(Error::Os(os)) && (os_code(os) matches Some(code)
            && code + ret == 0)),
        ret == i32::MIN ==> (r matches Err(Error::Os(os)) && os_code(os) == Some(i32::MIN)),
{
    if let (Ok(log), Some(page)) = (r, raw) {
        log_is_its_page(log, page);
    }
}

/// Each setter changes its own part of what is asked for and nothing else, whether
/// or not the request could be accepted before.
#[verifier::spinoff_prover]
pub proof fn connect_requests<'a, 'r>(before: Connect<'a, 'r>)
    ensures
        forall|after: Connect<'a, 'r>, v: &str|
            #[trigger] call_ensures(Connect::traddr, (before, v), after)
                ==> after@ == (ConnectRequest { traddr: Some(v@), ..before@ }),
        forall|after: Connect<'a, 'r>, v: &str|
            #[trigger] call_ensures(Connect::trsvcid, (before, v), after)
                ==> after@ == (ConnectRequest { trsvcid: Some(v@), ..before@ }),
        forall|after: Connect<'a, 'r>, v: &str|
            #[trigger] call_ensures(Connect::host_traddr, (before, v), after)
                ==> after@ == (ConnectRequest { host_traddr: Some(v@), ..before@ }),
        forall|after: Connect<'a, 'r>, v: &str|
            #[trigger] call_ensures(Connect::host_iface, (before, v), after)
                ==> after@ == (ConnectRequest { host_iface: Some(v@), ..before@ }),
        forall|after: Connect<'a, 'r>, v: i32|
            #[trigger] call_ensures(Connect::queue_size, (before, v), after)
                ==> after@ == (ConnectRequest { queue_size: Some(v), ..before@ }),
        forall|after: Connect<'a, 'r>, v: i32|
            #[trigger] call_ensures(Connect::nr_io_queues, (before, v), after)
                ==> after@ == (ConnectRequest { nr_io_queues: Some(v), ..before@ }),
        forall|after: Connect<'a, 'r>, v: i32|
            #[trigger] call_ensures(Connect::keep_alive_tmo, (before, v), after)
                ==> after@ == (ConnectRequest { keep_alive_tmo: Some(v), ..before@ }),
        forall|after: Connect<'a, 'r>, v: i32|
            #[trigger] call_ensures(Connect::reconnect_delay, (before, v), after)
                ==> after@ == (ConnectRequest { reconnect_delay: Some(v), ..before@ }),
        forall|after: Connect<'a, 'r>, v: i32|
            #[trigger] call_ensures(Connect::ctrl_loss_tmo, (before, v), after)
                ==> after@ == (ConnectRequest { ctrl_loss_tmo: Some(v), ..before@ }),
        forall|after: Connect<'a, 'r>, v: bool|
            #[trigger] call_ensures(Connect::hdr_digest, (before, v), after)
                ==> after@ == (ConnectRequest { hdr_digest: Some(v), ..before@ }),
        forall|after: Connect<'a, 'r>, v: bool|
            #[trigger] call_ensures(Connect::data_digest, (before, v), after)
                ==> after@ == (ConnectRequest { data_digest: Some(v), ..before@ }),
        forall|after: Connect<'a, 'r>, v: bool|
            #[trigger] call_ensures(Connect::tls, (before, v), after)
                ==> after@ == (ConnectRequest { tls: Some(v), ..before@ }),
        forall|after: Connect<'a, 'r>, v: bool|
            #[trigger] call_ensures(Connect::duplicate_connect, (before, v), after)
                ==> after@ == (ConnectRequest { duplicate_connect: Some(v), ..before@ }),
        forall|after: Connect<'a, 'r>, v: bool|
            #[trigger] call_ensures(Connect::disable_sqflow, (before, v), after)
                ==> after@ == (ConnectRequest { disable_sqflow: Some(v), ..before@ }),
        forall|after: Connect<'a, 'r>, v: bool|
            #[trigger] call_ensures(Connect::persistent, (before, v), after)
                ==> after@ == (ConnectRequest { persistent: v, ..before@ }),
        forall|after: Connect<'a, 'r>|
            #[trigger] call_ensures(Connect::discovery, (before,), after)
                ==> after@ == (ConnectRequest { discovery: true, ..before@ }),
        forall|after: Connect<'a, 'r>|
            #[trigger] call_ensures(Connect::unique_discovery, (before,), after)
                ==> after@ == (ConnectRequest { discovery: true, unique_discovery: true, ..before@ }),
{
}

/// A connection is refused exactly where one of the six texts that are asked for holds
/// a NUL, and its plan otherwise has what is asked for field by field.
#[verifier::spinoff_prover]
pub proof fn connect_carries<'a, 'r>(b: Connect<'a, 'r>, r: Result<ConnectPlan>)
    requires
        call_ensures(Connect::execute, (b,), r),
    ensures
        r is Err <==> nul_in(b@.transport) || nul_in(b@.subsysnqn) || (b@.traddr matches Some(t)
            && nul_in(t)) || (b@.trsvcid matches Some(t) && nul_in(t)) || (
        b@.host_traddr matches Some(t) && nul_in(t)) || (b@.host_iface matches Some(t) && nul_in(t)),
        r matches Err(e) ==> refuses_nul(e),
        r matches Ok(p) ==> p.transport@ == b@.transport,
        r matches Ok(p) ==> p.subsysnqn@ == b@.subsysnqn,
        r matches Ok(p) ==> maybe(p.traddr) == b@.traddr,
        r matches Ok(p) ==> maybe(p.trsvcid) == b@.trsvcid,
        r matches Ok(p) ==> maybe(p.host_traddr) == b@.host_traddr,
        r matches Ok(p) ==> maybe(p.host_iface) == b@.host_iface,
        r matches Ok(p) ==> p.queue_size == b@.queue_size,
        r matches Ok(p) ==> p.nr_io_queues == b@.nr_io_queues,
        r matches Ok(p) ==> p.keep_alive_tmo == b@.keep_alive_tmo,
        r matches Ok(p) ==> p.reconnect_delay == b@.reconnect_delay,
        r matches Ok(p) ==> p.ctrl_loss_tmo == b@.ctrl_loss_tmo,
        r matches Ok(p) ==> p.hdr_digest == b@.hdr_digest,
        r matches Ok(p) ==> p.data_digest == b@.data_digest,
        r matches Ok(p) ==> p.tls == b@.tls,
        r matches Ok(p) ==> p.duplicate_connect == b@.duplicate_connect,
        r matches Ok(p) ==> p.disable_sqflow == b@.disable_sqflow,
        r matches Ok(p) ==> p.persistent == b@.persistent,
        r matches Ok(p) ==> p.discovery == b@.discovery,
        r matches Ok(p) ==> p.unique_discovery == b@.unique_discovery,
{
    b@.refused_exactly_where_a_text_has_a_nul();
}

} // verus!
