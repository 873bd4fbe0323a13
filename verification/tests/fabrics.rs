use libnvme::fabrics::{
    fetch_discovery_log, CtrlSetting, DiscLogEntry, DiscoveryLogPage, FabricsConfig,
};
use libnvme::host::HostAttrs;
use libnvme::{DiscoveryLog, Error, Host, Transport};

fn host() -> Host<'static> {
    Host::from_raw(HostAttrs { hostnqn: Some(b"nqn.host"), hostid: None })
}

fn defaults() -> FabricsConfig {
    FabricsConfig {
        host_traddr: None,
        host_iface: None,
        queue_size: 1,
        nr_io_queues: 2,
        keep_alive_tmo: 3,
        reconnect_delay: 4,
        ctrl_loss_tmo: 600,
        hdr_digest: false,
        data_digest: true,
        tls: false,
        duplicate_connect: false,
        disable_sqflow: false,
    }
}

#[test]
fn transports_have_names() {
    assert_eq!(Transport::Tcp.as_str(), "tcp");
    assert_eq!(Transport::Rdma.as_str(), "rdma");
    assert_eq!(Transport::Fc.as_str(), "fc");
    assert_eq!(Transport::Loop.as_str(), "loop");
    assert_eq!(Transport::Other("pcie").as_str(), "pcie");
}

#[test]
fn unset_options_keep_the_defaults() {
    let host = host();
    let plan = host.connect(Transport::Tcp, "nqn.target").execute().expect("accepted");
    assert_eq!(plan.transport, "tcp");
    assert_eq!(plan.subsysnqn, "nqn.target");
    assert!(plan.traddr.is_none());
    assert!(plan.settings().is_empty());
    let cfg = plan.fabrics_config(defaults());
    assert!(cfg.host_traddr.is_none());
    assert!(cfg.host_iface.is_none());
    assert_eq!((cfg.queue_size, cfg.nr_io_queues, cfg.keep_alive_tmo), (1, 2, 3));
    assert_eq!((cfg.reconnect_delay, cfg.ctrl_loss_tmo), (4, 600));
    assert!(!cfg.hdr_digest && cfg.data_digest && !cfg.tls);
    assert!(!cfg.duplicate_connect && !cfg.disable_sqflow);
}

#[test]
fn set_options_override_the_defaults() {
    let host = host();
    let plan = host
        .connect(Transport::Rdma, "nqn.target")
        .traddr("10.0.0.1")
        .trsvcid("4420")
        .host_traddr("10.0.0.2")
        .host_iface("eth0")
        .queue_size(11)
        .nr_io_queues(12)
        .keep_alive_tmo(120)
        .reconnect_delay(14)
        .ctrl_loss_tmo(-1)
        .hdr_digest(true)
        .data_digest(false)
        .tls(true)
        .duplicate_connect(true)
        .disable_sqflow(true)
        .persistent(true)
        .discovery()
        .execute()
        .expect("accepted");
    assert_eq!(plan.traddr.as_deref(), Some("10.0.0.1"));
    assert_eq!(plan.trsvcid.as_deref(), Some("4420"));
    assert_eq!(plan.settings(), vec![CtrlSetting::Discovery, CtrlSetting::Persistent]);
    let cfg = plan.fabrics_config(defaults());
    assert_eq!(cfg.host_traddr.as_deref(), Some("10.0.0.2"));
    assert_eq!(cfg.host_iface.as_deref(), Some("eth0"));
    assert_eq!((cfg.queue_size, cfg.nr_io_queues, cfg.keep_alive_tmo), (11, 12, 120));
    assert_eq!((cfg.reconnect_delay, cfg.ctrl_loss_tmo), (14, -1));
    assert!(cfg.hdr_digest && !cfg.data_digest && cfg.tls);
    assert!(cfg.duplicate_connect && cfg.disable_sqflow);
    let again = plan.fabrics_config(plan.fabrics_config(defaults()));
    assert_eq!(again.queue_size, 11);
    assert_eq!(again.host_iface.as_deref(), Some("eth0"));
}

#[test]
fn unique_discovery_is_discovery() {
    let host = host();
    let plan = host
        .connect(Transport::Loop, "nqn.discovery")
        .persistent(true)
        .unique_discovery()
        .execute()
        .expect("accepted");
    assert_eq!(
        plan.settings(),
        vec![CtrlSetting::Discovery, CtrlSetting::UniqueDiscovery, CtrlSetting::Persistent]
    );
    let host2 = Host::from_raw(HostAttrs { hostnqn: None, hostid: None });
    assert!(host2.connect(Transport::Tcp, "x").host().hostnqn().is_err());
}

fn is_nul_refusal<T>(r: Result<T, Error>) -> bool {
    match r {
        Err(Error::InvalidArgument(msg)) => msg == "interior NUL byte in fabrics parameter",
        _ => false,
    }
}

#[test]
fn nul_is_refused_in_every_string() {
    let host = host();
    let c = || host.connect(Transport::Tcp, "nqn");
    assert!(is_nul_refusal(host.connect(Transport::Other("a\0b"), "nqn").execute()));
    assert!(is_nul_refusal(host.connect(Transport::Tcp, "\0").execute()));
    assert!(is_nul_refusal(c().traddr("a\0").execute()));
    assert!(is_nul_refusal(c().trsvcid("\0a").execute()));
    assert!(is_nul_refusal(c().host_traddr("\0").execute()));
    assert!(is_nul_refusal(c().host_iface("a\0a").execute()));
    assert!(c().traddr("").execute().is_ok());
}

#[test]
fn the_controller_comes_from_the_calls() {
    let host = host();
    let plan = host.connect(Transport::Tcp, "nqn").execute().expect("accepted");
    assert_eq!(plan.created(Some(5u16)).expect("created"), 5);
    assert!(matches!(plan.created::<u16>(None), Err(Error::Os(_))));
    assert_eq!(*plan.added(5u16, 0).expect("added").raw_handle(), 5);
    assert!(matches!(plan.added(5u16, 3), Err(Error::Nvme(3))));
    match plan.added(5u16, -13) {
        Err(Error::Os(e)) => assert_eq!(e.raw_os_error(), Some(13)),
        _ => panic!("expected an OS error"),
    }
}

fn field<const N: usize>(text: &[u8]) -> [u8; N] {
    let mut out = [0u8; N];
    out[..text.len()].copy_from_slice(text);
    out
}

fn entry(portid: u16) -> DiscLogEntry {
    DiscLogEntry {
        trtype: 3,
        adrfam: 1,
        subtype: 2,
        treq: 4,
        portid,
        cntlid: 0xffff,
        asqsz: 32,
        eflags: 5,
        trsvcid: field(b"4420"),
        subnqn: field(b"nqn.sub"),
        traddr: field(b"10.0.0.9"),
    }
}

#[test]
fn discovery_log_is_decoded() {
    let mut odd = entry(8);
    odd.trsvcid = [b'9'; 32];
    odd.subnqn = field(&[0xff]);
    odd.traddr = field(b"");
    let page = DiscoveryLogPage { genctr: 77, numrec: 2, entries: vec![entry(7), odd] };
    let log = fetch_discovery_log(0, Some(page)).expect("log");
    assert_eq!(log.generation_counter(), 77);
    assert_eq!(log.num_records(), 2);
    let entries = log.entries();
    assert_eq!(entries.len(), 2);
    let e = &entries[0];
    assert_eq!((e.transport_type(), e.address_family(), e.subsystem_type()), (3, 1, 2));
    assert_eq!((e.transport_requirements(), e.port_id(), e.controller_id()), (4, 7, 0xffff));
    assert_eq!((e.asq_size(), e.entry_flags()), (32, 5));
    assert_eq!(e.transport_service_id().expect("trsvcid"), "4420");
    assert_eq!(e.subnqn().expect("subnqn"), "nqn.sub");
    assert_eq!(e.traddr().expect("traddr"), "10.0.0.9");
    let e = &entries[1];
    assert_eq!(e.port_id(), 8);
    assert_eq!(e.transport_service_id().expect("trsvcid").len(), 32);
    assert!(matches!(e.subnqn(), Err(Error::Utf8(_))));
    assert_eq!(e.traddr().expect("traddr"), "");
}

#[test]
fn discovery_log_failures() {
    assert!(matches!(fetch_discovery_log(0, None), Err(Error::Os(_))));
    assert!(matches!(fetch_discovery_log(6, None), Err(Error::Nvme(6))));
    assert!(matches!(DiscoveryLog::from_raw(None), Err(Error::Os(_))));
}
