use libnvme::host::HostAttrs;
use libnvme::path::{PathAttrs, PathParent};
use libnvme::root::take_owned_cstr;
use libnvme::subsystem::SubsystemAttrs;
use libnvme::tree::Walk;
use libnvme::{Error, Host, Path, Paths, Root, Subsystem};

#[test]
fn walk_visits_every_child_in_order() {
    let children = [3u32, 5, 8];
    let successor = |h: u32| match h {
        3 => Some(5),
        5 => Some(8),
        _ => None,
    };
    let mut walk = Walk::new("parent", Some(3u32));
    let mut seen: Vec<u32> = Vec::new();
    while let Some(h) = walk.next(successor) {
        seen.push(h);
    }
    assert_eq!(seen, children);
    assert_eq!(walk.next(successor), None);
    assert_eq!(*walk.parent(), "parent");
}

#[test]
fn walk_over_nothing_asks_for_nothing() {
    let mut walk: Walk<(), u32> = Walk::new((), None);
    assert_eq!(walk.next(|_| panic!("no child to follow")), None);
}

#[test]
fn paths_know_their_parent() {
    let mut paths: Paths<u8, u16, u32> = Walk::from_controller(1, Some(9));
    assert!(matches!(paths.parent(), PathParent::Controller(1)));
    assert_eq!(paths.next(|_| None), Some(9));
    assert_eq!(paths.next(|_| None), None);
    let paths: Paths<u8, u16, u32> = Walk::from_namespace(2, None);
    assert!(matches!(paths.parent(), PathParent::Namespace(2)));
}

#[test]
fn root_handles_come_from_non_null() {
    let root = Root::scan(Some(4u8)).expect("root");
    assert_eq!(*root.raw_handle(), 4);
    assert!(matches!(Root::<u8>::scan(None), Err(Error::Os(_))));
    assert_eq!(root.default_host(Some('h')).expect("host"), 'h');
    assert!(matches!(root.default_host::<char>(None), Err(Error::Os(_))));
    let mut hosts = root.hosts(Some('a'));
    assert_eq!(**hosts.parent(), 4);
    assert_eq!(hosts.next(|_| None), Some('a'));
    assert_eq!(hosts.next(|_| None), None);
}

#[test]
fn host_lookup_refuses_nul() {
    let root = Root::scan(Some(())).expect("root");
    let found = root.lookup_host("nqn", Some("id")).expect("accepted");
    assert_eq!((found.hostnqn, found.hostid), ("nqn", Some("id")));
    assert_eq!(found.found(Some(1u8)).expect("host"), 1);
    assert!(matches!(found.found::<u8>(None), Err(Error::Os(_))));
    assert!(root.lookup_host("nqn", None).expect("accepted").hostid.is_none());
    match root.lookup_host("n\0", Some("\0")) {
        Err(Error::InvalidArgument(msg)) => assert_eq!(msg, "interior NUL byte in hostnqn"),
        _ => panic!("expected a refusal"),
    }
    match root.lookup_host("nqn", Some("i\0d")) {
        Err(Error::InvalidArgument(msg)) => assert_eq!(msg, "interior NUL byte in hostid"),
        _ => panic!("expected a refusal"),
    }
}

#[test]
fn owned_strings_are_decoded() {
    assert_eq!(take_owned_cstr(Some(b"nqn.2014-08".to_vec())).expect("text"), "nqn.2014-08");
    let errno = std::io::Error::last_os_error().raw_os_error();
    match take_owned_cstr(None) {
        Err(Error::Os(e)) => assert_eq!(e.raw_os_error(), errno),
        _ => panic!("expected an OS error"),
    }
    match take_owned_cstr(Some(vec![b'a', 0xff])) {
        Err(Error::Utf8(e)) => assert_eq!(e.valid_up_to(), 1),
        _ => panic!("expected the UTF-8 error"),
    }
}

#[test]
fn host_names_are_read() {
    let host = Host::from_raw(HostAttrs { hostnqn: Some(b"nqn.host"), hostid: None });
    assert_eq!(host.hostnqn().expect("hostnqn"), "nqn.host");
    assert!(matches!(host.hostid(), Err(Error::NotAvailable)));
}

#[test]
fn subsystem_names_are_read() {
    let attrs = SubsystemAttrs {
        name: Some(b"nvme-subsys0"),
        nqn: Some(b"nqn.sub"),
        subsystem_type: Some(b"nvm"),
        serial: Some(b"S"),
        model: Some(b"M"),
        firmware: Some(b"F"),
        iopolicy: Some(b"numa"),
        application: Some(b"app"),
    };
    let s = Subsystem::from_raw(attrs);
    assert_eq!(s.name().expect("name"), "nvme-subsys0");
    assert_eq!(s.nqn().expect("nqn"), "nqn.sub");
    assert_eq!(s.subsystem_type().expect("type"), "nvm");
    assert_eq!(s.serial().expect("serial"), "S");
    assert_eq!(s.model().expect("model"), "M");
    assert_eq!(s.firmware().expect("firmware"), "F");
    assert_eq!(s.iopolicy().expect("iopolicy"), "numa");
    assert_eq!(s.application().expect("application"), "app");
    let s = Subsystem::from_raw(SubsystemAttrs { application: None, model: None, ..attrs });
    assert_eq!(s.application().expect("application"), "");
    assert!(matches!(s.model(), Err(Error::NotAvailable)));
}

#[test]
fn path_attributes_are_read() {
    let p = Path::from_raw(PathAttrs {
        name: Some(b"nvme0c0n1"),
        ana_state: Some(b"optimized"),
        numa_nodes: None,
        queue_depth: -3,
    });
    assert_eq!(p.name().expect("name"), "nvme0c0n1");
    assert_eq!(p.ana_state().expect("ana state"), "optimized");
    assert!(matches!(p.numa_nodes(), Err(Error::NotAvailable)));
    assert_eq!(p.queue_depth(), -3);
}
