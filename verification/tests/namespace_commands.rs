use libnvme::namespace::NamespaceAttrs;
use libnvme::reservations::{
    ReservationAcquireCommand, ReservationRegisterCommand, ReservationReleaseCommand,
};
use libnvme::{
    DirectiveRecvOp, DirectiveSendOp, DirectiveType, Error, Namespace, PtplChange,
    ReservationAcquireAction, ReservationRegisterAction, ReservationReleaseAction, ReservationType,
    ZoneRecvAction, ZoneReportFilter, ZoneSendAction,
};

fn ns() -> Namespace<'static> {
    Namespace::from_raw(NamespaceAttrs {
        name: None,
        generic_name: None,
        model: None,
        serial: None,
        firmware: None,
        nsid: 2,
        lba_size: 512,
        meta_size: 0,
        lba_count: 0,
        lba_util: 0,
        csi: 2,
        uuid: [0; 16],
        nguid: None,
        eui64: None,
    })
}

fn message<T>(r: Result<T, Error>) -> String {
    match r {
        Err(Error::InvalidArgument(msg)) => msg.into_owned(),
        _ => panic!("expected a rejected argument"),
    }
}

#[test]
fn reservation_codes() {
    assert_eq!(ReservationType::WriteExclusive.as_raw(), 1);
    assert_eq!(ReservationType::ExclusiveAccess.as_raw(), 2);
    assert_eq!(ReservationType::WriteExclusiveRegistrantsOnly.as_raw(), 3);
    assert_eq!(ReservationType::ExclusiveAccessRegistrantsOnly.as_raw(), 4);
    assert_eq!(ReservationType::WriteExclusiveAllRegistrants.as_raw(), 5);
    assert_eq!(ReservationType::ExclusiveAccessAllRegistrants.as_raw(), 6);
    assert_eq!(ReservationAcquireAction::default().as_raw(), 0);
    assert_eq!(ReservationAcquireAction::Preempt.as_raw(), 1);
    assert_eq!(ReservationAcquireAction::PreemptAndAbort.as_raw(), 2);
    assert_eq!(ReservationRegisterAction::default().as_raw(), 0);
    assert_eq!(ReservationRegisterAction::Unregister.as_raw(), 1);
    assert_eq!(ReservationRegisterAction::Replace.as_raw(), 2);
    assert_eq!(ReservationReleaseAction::default().as_raw(), 0);
    assert_eq!(ReservationReleaseAction::Clear.as_raw(), 1);
    assert_eq!(PtplChange::default().as_raw(), 0);
    assert_eq!(PtplChange::Clear.as_raw(), 2);
    assert_eq!(PtplChange::Persist.as_raw(), 3);
}

#[test]
fn reservation_acquire_is_encoded() {
    let ns = ns();
    assert_eq!(
        ns.reservation_acquire().execute(),
        ReservationAcquireCommand {
            crkey: 0,
            nrkey: 0,
            timeout: 0,
            nsid: 2,
            rtype: 1,
            racqa: 0,
            iekey: false,
        }
    );
    let cmd = ns
        .reservation_acquire()
        .key(1)
        .new_key(2)
        .rtype(ReservationType::ExclusiveAccess)
        .action(ReservationAcquireAction::PreemptAndAbort)
        .ignore_existing_key()
        .timeout_ms(3)
        .execute();
    assert_eq!(
        cmd,
        ReservationAcquireCommand {
            crkey: 1,
            nrkey: 2,
            timeout: 3,
            nsid: 2,
            rtype: 2,
            racqa: 2,
            iekey: true,
        }
    );
}

#[test]
fn reservation_register_is_encoded() {
    let ns = ns();
    let cmd = ns
        .reservation_register()
        .key(1)
        .new_key(2)
        .action(ReservationRegisterAction::Replace)
        .ptpl(PtplChange::Persist)
        .ignore_existing_key()
        .timeout_ms(3)
        .execute();
    assert_eq!(
        cmd,
        ReservationRegisterCommand {
            crkey: 1,
            nrkey: 2,
            timeout: 3,
            nsid: 2,
            rrega: 2,
            cptpl: 3,
            iekey: true,
        }
    );
}

#[test]
fn reservation_release_is_encoded() {
    let ns = ns();
    let cmd = ns
        .reservation_release()
        .key(1)
        .rtype(ReservationType::ExclusiveAccessAllRegistrants)
        .action(ReservationReleaseAction::Clear)
        .ignore_existing_key()
        .timeout_ms(3)
        .execute();
    assert_eq!(
        cmd,
        ReservationReleaseCommand {
            crkey: 1,
            timeout: 3,
            nsid: 2,
            rtype: 6,
            rrela: 1,
            iekey: true,
        }
    );
}

#[test]
fn reservation_report_needs_a_buffer_for_the_header() {
    let ns = ns();
    assert_eq!(
        message(ns.reservation_report().execute(24)),
        "ReservationReport requires a buffer via .buffer()"
    );
    let mut small = [0u8; 23];
    assert_eq!(
        message(ns.reservation_report().buffer(&mut small).execute(24)),
        "ReservationReport buffer smaller than nvme_resv_status header"
    );
    let mut buf = [0u8; 24];
    let cmd = ns
        .reservation_report()
        .buffer(&mut buf)
        .extended()
        .timeout_ms(9)
        .execute(24)
        .expect("accepted");
    assert_eq!((cmd.nsid, cmd.len, cmd.timeout), (2, 24, 9));
    assert!(cmd.eds);
    assert_eq!(cmd.report.len(), 24);
}

#[test]
fn reservation_report_makes_4096_bytes() {
    let ns = ns();
    let mut buf = vec![1u8; 5];
    let cmd = ns
        .reservation_report()
        .extended()
        .timeout_ms(9)
        .execute_to_vec(&mut buf, 64)
        .expect("accepted");
    assert_eq!((cmd.nsid, cmd.len, cmd.timeout), (2, 4096, 9));
    assert!(cmd.eds);
    assert!(cmd.report.iter().all(|b| *b == 0));
    assert_eq!(buf.len(), 4096);
    let mut buf = Vec::new();
    assert_eq!(
        message(ns.reservation_report().execute_to_vec(&mut buf, 4097)),
        "ReservationReport buffer smaller than nvme_resv_status header"
    );
}

#[test]
fn directive_codes() {
    assert_eq!(DirectiveType::Identify.as_raw(), 0);
    assert_eq!(DirectiveType::Streams.as_raw(), 1);
    assert_eq!(DirectiveType::Raw(0x80).as_raw(), 0x80);
    assert_eq!(DirectiveSendOp::IdentifyEnable.as_raw(), 1);
    assert_eq!(DirectiveSendOp::StreamsReleaseIdentifier.as_raw(), 1);
    assert_eq!(DirectiveSendOp::StreamsReleaseResource.as_raw(), 2);
    assert_eq!(DirectiveSendOp::Raw(0xff).as_raw(), 0xff);
    assert_eq!(DirectiveRecvOp::IdentifyReturnParameters.as_raw(), 1);
    assert_eq!(DirectiveRecvOp::StreamsReturnParameters.as_raw(), 1);
    assert_eq!(DirectiveRecvOp::StreamsGetStatus.as_raw(), 2);
    assert_eq!(DirectiveRecvOp::StreamsAllocateResources.as_raw(), 3);
    assert_eq!(DirectiveRecvOp::Raw(7).as_raw(), 7);
}

#[test]
fn directives_are_encoded() {
    let ns = ns();
    let data = [1u8; 6];
    let send = ns
        .directive_send(DirectiveType::Streams, DirectiveSendOp::StreamsReleaseResource)
        .data(&data)
        .dspec(4)
        .cdw12(5)
        .timeout_ms(6)
        .execute();
    assert_eq!((send.nsid, send.dtype, send.doper, send.dspec), (2, 1, 2, 4));
    assert_eq!((send.cdw12, send.timeout, send.data_len), (5, 6, 6));
    assert_eq!(send.data, Some(&data[..]));
    let mut buf = [0u8; 4];
    let recv = ns
        .directive_recv(DirectiveType::Identify, DirectiveRecvOp::StreamsGetStatus)
        .buffer(&mut buf)
        .dspec(4)
        .cdw12(5)
        .timeout_ms(6)
        .execute();
    assert_eq!((recv.nsid, recv.dtype, recv.doper, recv.dspec), (2, 0, 2, 4));
    assert_eq!((recv.cdw12, recv.timeout, recv.data_len), (5, 6, 4));
    assert_eq!(recv.data.expect("buffer").len(), 4);
    let bare = ns
        .directive_send(DirectiveType::Identify, DirectiveSendOp::IdentifyEnable)
        .execute();
    assert_eq!(bare.data_len, 0);
    assert!(bare.data.is_none());
}

#[test]
fn zone_codes() {
    assert_eq!(ZoneSendAction::Close.as_raw(), 1);
    assert_eq!(ZoneSendAction::Finish.as_raw(), 2);
    assert_eq!(ZoneSendAction::Open.as_raw(), 3);
    assert_eq!(ZoneSendAction::Reset.as_raw(), 4);
    assert_eq!(ZoneSendAction::Offline.as_raw(), 5);
    assert_eq!(ZoneSendAction::SetDescriptorExtension.as_raw(), 0x10);
    assert_eq!(ZoneSendAction::ZrwaFlush.as_raw(), 0x11);
    assert_eq!(ZoneRecvAction::default().as_raw(), 0);
    assert_eq!(ZoneRecvAction::ExtendedReport.as_raw(), 1);
    assert_eq!(ZoneReportFilter::default().as_raw(), 0);
    assert_eq!(ZoneReportFilter::Empty.as_raw(), 1);
    assert_eq!(ZoneReportFilter::ImplicitlyOpened.as_raw(), 2);
    assert_eq!(ZoneReportFilter::ExplicitlyOpened.as_raw(), 3);
    assert_eq!(ZoneReportFilter::Closed.as_raw(), 4);
    assert_eq!(ZoneReportFilter::Full.as_raw(), 5);
    assert_eq!(ZoneReportFilter::ReadOnly.as_raw(), 6);
    assert_eq!(ZoneReportFilter::Offline.as_raw(), 7);
}

#[test]
fn zone_management_is_encoded() {
    let ns = ns();
    let data = [3u8; 64];
    let send = ns
        .zns_mgmt_send(8, ZoneSendAction::SetDescriptorExtension)
        .data(&data)
        .select_all()
        .zsaso(1)
        .timeout_ms(2)
        .execute();
    assert_eq!((send.slba, send.nsid, send.zsa, send.data_len), (8, 2, 0x10, 64));
    assert_eq!((send.zsaso, send.timeout), (1, 2));
    assert!(send.select_all);
    assert_eq!(send.data, Some(&data[..]));
    assert_eq!(
        message(ns.zns_mgmt_recv(8).execute()),
        "zns_mgmt_recv requires a buffer via .buffer()"
    );
    let mut buf = [0u8; 128];
    let recv = ns
        .zns_mgmt_recv(8)
        .extended_report()
        .filter(ZoneReportFilter::Full)
        .partial()
        .buffer(&mut buf)
        .timeout_ms(2)
        .execute()
        .expect("accepted");
    assert_eq!((recv.slba, recv.nsid, recv.zra, recv.zrasf), (8, 2, 1, 5));
    assert_eq!((recv.data_len, recv.timeout), (128, 2));
    assert!(recv.zras_feat);
}

#[test]
fn zone_append_is_encoded() {
    let ns = ns();
    let data = [1u8; 1024];
    let md = [2u8; 16];
    let cmd = ns
        .zns_append(5, 2, &data)
        .metadata(&md)
        .fua()
        .limited_retry()
        .protection_action()
        .check_guard()
        .check_apptag()
        .check_reftag()
        .ref_tag(3)
        .ref_tag_u64(4)
        .app_tag(5, 6)
        .timeout_ms(7)
        .execute()
        .expect("accepted");
    assert_eq!((cmd.zslba, cmd.nsid, cmd.nlb), (5, 2, 1));
    assert_eq!(cmd.control, 0xfc00);
    assert_eq!((cmd.ilbrt, cmd.ilbrt_u64, cmd.lbat, cmd.lbatm), (3, 4, 5, 6));
    assert_eq!((cmd.data_len, cmd.metadata_len, cmd.timeout), (1024, 16, 7));
    assert_eq!(cmd.data, &data[..]);
    assert_eq!(cmd.metadata, Some(&md[..]));
}

#[test]
fn zone_append_checks_the_count_first() {
    let ns = ns();
    assert_eq!(message(ns.zns_append(0, 0, &[1]).execute()), "nlb must be 1..=65536, got 0");
    assert_eq!(
        message(ns.zns_append(0, 65_537, &[1]).execute()),
        "nlb must be 1..=65536, got 65537"
    );
    assert_eq!(
        message(ns.zns_append(0, 2, &[1]).execute()),
        "buffer length 1 doesn't match nlb * lba_size = 1024"
    );
}

#[test]
fn report_buffers_are_filled_or_left() {
    let ns = ns();
    let mut small = [5u8; 3];
    let mut replaced = [6u8; 64];
    let r = ns.reservation_report().buffer(&mut replaced).buffer(&mut small).execute(24);
    assert!(r.is_err());
    assert_eq!(small, [5u8; 3]);
    assert_eq!(replaced, [6u8; 64]);
    let mut vec = Vec::new();
    let cmd = ns.reservation_report().buffer(&mut replaced).execute_to_vec(&mut vec, 24);
    cmd.expect("accepted").report[0] = 9;
    assert_eq!(replaced, [6u8; 64]);
    assert_eq!(vec[0], 9);
    let cmd = ns.reservation_report().buffer(&mut replaced).extended().execute(24);
    cmd.expect("accepted").report[1] = 7;
    assert_eq!((replaced[0], replaced[1]), (6, 7));
}

#[test]
fn receive_buffers_are_filled() {
    let ns = ns();
    let mut a = [0u8; 4];
    let cmd = ns
        .directive_recv(DirectiveType::Streams, DirectiveRecvOp::StreamsGetStatus)
        .buffer(&mut a)
        .dspec(1)
        .execute();
    cmd.data.expect("buffer")[3] = 1;
    assert_eq!(a, [0, 0, 0, 1]);
    let cmd = ns.zns_mgmt_recv(0).buffer(&mut a).partial().execute().expect("accepted");
    cmd.data[0] = 2;
    assert_eq!(a, [2, 0, 0, 1]);
}

#[test]
fn builders_know_their_namespace() {
    let a = ns();
    let b = ns();
    let data = [0u8; 512];
    let mut buf = [0u8; 512];
    assert!(std::ptr::eq(a.write(0, 1, &data).fua().namespace(), &a));
    assert!(!std::ptr::eq(a.write(0, 1, &data).fua().namespace(), &b));
    assert!(std::ptr::eq(b.read(0, 1, &mut buf).limited_retry().namespace(), &b));
    assert!(std::ptr::eq(b.format().lba_format(1).namespace(), &b));
    assert!(std::ptr::eq(a.reservation_report().extended().namespace(), &a));
    assert!(std::ptr::eq(a.zns_append(0, 1, &data).fua().namespace(), &a));
}
