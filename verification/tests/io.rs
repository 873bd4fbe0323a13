use libnvme::io::{
    base_args, check_buf_len, encode_nlb, IoArgs, IoControl, IoOpts, OPC_COMPARE, OPC_READ,
    OPC_VERIFY, OPC_WRITE, OPC_WRITE_UNCOR, OPC_WRITE_ZEROES,
};
use libnvme::namespace::NamespaceAttrs;
use libnvme::{CopyRange, DsmAttr, DsmRange, Error, Namespace};

fn ns(lba_size: i32) -> Namespace<'static> {
    Namespace::from_raw(NamespaceAttrs {
        name: Some(b"nvme0n1"),
        generic_name: None,
        model: None,
        serial: None,
        firmware: None,
        nsid: 7,
        lba_size,
        meta_size: 0,
        lba_count: 1000,
        lba_util: 10,
        csi: 0,
        uuid: [0; 16],
        nguid: None,
        eui64: None,
    })
}

fn message<T>(r: Result<T, Error>) -> String {
    match r {
        Err(Error::InvalidArgument(msg)) => msg.into_owned(),
        _ => panic!("expected a rejected argument"),
    }
}

#[test]
fn encode_nlb_is_one_based() {
    assert_eq!(encode_nlb(1).unwrap(), 0);
    assert_eq!(encode_nlb(2).unwrap(), 1);
    assert_eq!(encode_nlb(65_536).unwrap(), 65_535);
}

#[test]
fn encode_nlb_rejects_zero_and_overflow() {
    assert!(matches!(encode_nlb(0), Err(Error::InvalidArgument(_))));
    assert!(matches!(encode_nlb(65_537), Err(Error::InvalidArgument(_))));
    assert!(matches!(encode_nlb(u32::MAX), Err(Error::InvalidArgument(_))));
}

#[test]
fn io_control_bits_match_spec() {
    assert_eq!(IoControl::DTYPE_STREAMS, 1 << 4);
    assert_eq!(IoControl::NSZ, 1 << 7);
    assert_eq!(IoControl::STC, 1 << 8);
    assert_eq!(IoControl::DEAC, 1 << 9);
    assert_eq!(IoControl::PRINFO_PRCHK_REF, 1 << 10);
    assert_eq!(IoControl::PRINFO_PRCHK_APP, 1 << 11);
    assert_eq!(IoControl::PRINFO_PRCHK_GUARD, 1 << 12);
    assert_eq!(IoControl::PRINFO_PRACT, 1 << 13);
    assert_eq!(IoControl::FUA, 1 << 14);
    assert_eq!(IoControl::LR, 1 << 15);
}

#[test]
fn dsm_attr_bits_and_combination() {
    assert_eq!(DsmAttr::integral_read().bits(), 1 << 0);
    assert_eq!(DsmAttr::integral_write().bits(), 1 << 1);
    assert_eq!(DsmAttr::deallocate().bits(), 1 << 2);

    let combined = DsmAttr::deallocate() | DsmAttr::integral_write();
    assert_eq!(combined.bits(), 0b110);

    let mut acc = DsmAttr::integral_read();
    acc |= DsmAttr::deallocate();
    assert_eq!(acc.bits(), 0b101);

    assert_eq!(DsmAttr::from_bits(0b111).bits(), 0b111);
}

#[test]
fn dsm_range_length_is_one_based() {
    let r = DsmRange::new(0x1000, 1);
    assert_eq!(r.slba(), 0x1000);
    assert_eq!(r.length(), 0);
    assert_eq!(r.context(), 0);

    assert_eq!(DsmRange::new(0, 8).length(), 7);
    assert_eq!(DsmRange::new(0, 0).length(), 0);

    let r = DsmRange::new(0, 4).with_context(0xABCD);
    assert_eq!(r.context(), 0xABCD);
    assert_eq!(r.length(), 3);
}

#[test]
fn dsm_range_wire_encoding_is_little_endian() {
    let r = DsmRange::new(0x1122_3344_5566_7788, 0x10).with_context(0xDEAD_BEEF);
    let mut raw: Vec<u8> = Vec::new();
    r.encode(&mut raw);
    assert_eq!(raw.len(), 16);
    assert_eq!(u32::from_le_bytes(raw[0..4].try_into().unwrap()), 0xDEAD_BEEF);
    assert_eq!(u32::from_le_bytes(raw[4..8].try_into().unwrap()), 0x0F);
    assert_eq!(u64::from_le_bytes(raw[8..16].try_into().unwrap()), 0x1122_3344_5566_7788);
}

#[test]
fn copy_range_builder() {
    let r = CopyRange::new(0x2000, 4).ref_tag(0x55).app_tag(0x1234, 0xFF00);
    assert_eq!(r.slba, 0x2000);
    assert_eq!(r.nlb, 4);
    assert_eq!(r.eilbrt, 0x55);
    assert_eq!(r.elbat, 0x1234);
    assert_eq!(r.elbatm, 0xFF00);
}

#[test]
fn copy_range_wire_encoding_decrements_nlb() {
    let r = CopyRange::new(0, 16);
    let mut raw: Vec<u8> = Vec::new();
    r.encode(&mut raw);
    let nlb_enc = u16::from_le_bytes(raw[16..18].try_into().unwrap());
    assert_eq!(nlb_enc, 15);
}

#[test]
fn check_buf_len_matches_nlb_times_lba_size() {
    assert!(check_buf_len(4096, 8, 512).is_ok());
    assert!(matches!(check_buf_len(4095, 8, 512), Err(Error::InvalidArgument(_))));
    assert!(matches!(check_buf_len(8192, 8, 512), Err(Error::InvalidArgument(_))));
}

#[test]
fn refusals_say_what_is_wrong() {
    assert_eq!(message(encode_nlb(0)), "nlb must be 1..=65536, got 0");
    assert_eq!(message(encode_nlb(65_537)), "nlb must be 1..=65536, got 65537");
    assert_eq!(
        message(check_buf_len(4095, 8, 512)),
        "buffer length 4095 bytes does not match nlb*lba_size = 8*512 = 4096"
    );
    let product = "4294967295*4294967295 = 18446744065119617025";
    assert_eq!(
        message(check_buf_len(1, u32::MAX, u32::MAX)),
        format!("buffer length 1 bytes does not match nlb*lba_size = {product}")
    );
}

#[test]
fn read_is_encoded() {
    let ns = ns(512);
    let mut buf = [0x5au8; 1024];
    let cmd = ns.read(99, 2, &mut buf).execute().expect("accepted");
    assert_eq!(cmd.opcode, OPC_READ);
    assert_eq!(OPC_READ, 0x02);
    assert_eq!(cmd.args, base_args(7, 99, 1, 1024));
    assert_eq!(cmd.data.len(), 1024);
    assert!(cmd.metadata.is_none());
    cmd.data[0] = 1;
    assert_eq!(buf[0], 1);
    assert_eq!(buf[1], 0x5a);
}

#[test]
fn every_data_option_lands_in_its_field() {
    let ns = ns(512);
    let data = [1u8; 512];
    let md = [2u8; 8];
    let cmd = ns
        .write(3, 1, &data)
        .metadata(&md)
        .fua()
        .limited_retry()
        .protection_action()
        .check_reftag()
        .check_apptag()
        .check_guard()
        .ref_tag(11)
        .ref_tag_u64(12)
        .app_tag(13)
        .app_mask(14)
        .dataset_mgmt(15)
        .directive(16)
        .streams()
        .storage_tag(17)
        .check_storage_tag()
        .storage_tag_size(18)
        .pi_format(19)
        .timeout_ms(20)
        .execute()
        .expect("accepted");
    assert_eq!(cmd.opcode, OPC_WRITE);
    assert_eq!(
        cmd.args,
        IoArgs {
            slba: 3,
            storage_tag: 17,
            reftag_u64: 12,
            timeout: 20,
            nsid: 7,
            reftag: 11,
            data_len: 512,
            metadata_len: 8,
            nlb: 0,
            control: 0xfd10,
            apptag: 13,
            appmask: 14,
            dspec: 16,
            dsm: 15,
            sts: 18,
            pif: 19,
        }
    );
    assert_eq!(cmd.data, &data);
    assert_eq!(cmd.metadata, Some(&md[..]));
}

#[test]
fn read_and_compare_take_the_same_options() {
    let ns = ns(512);
    let mut data = [1u8; 512];
    let mut md = [2u8; 8];
    let read = ns
        .read(3, 1, &mut data)
        .metadata(&mut md)
        .check_guard()
        .ref_tag(11)
        .pi_format(19)
        .execute()
        .expect("accepted");
    let mut expected = base_args(7, 3, 0, 512);
    expected.metadata_len = 8;
    expected.control = IoControl::PRINFO_PRCHK_GUARD;
    expected.reftag = 11;
    expected.pif = 19;
    assert_eq!(read.args, expected);
    assert_eq!(read.metadata.expect("metadata").len(), 8);

    let data = [1u8; 512];
    let md = [2u8; 8];
    let compare = ns
        .compare(3, 1, &data)
        .metadata(&md)
        .check_guard()
        .ref_tag(11)
        .pi_format(19)
        .execute()
        .expect("accepted");
    assert_eq!(compare.opcode, OPC_COMPARE);
    assert_eq!(compare.args, expected);
}

#[test]
fn flags_accumulate_in_any_order() {
    let ns = ns(512);
    let a = ns.write_zeroes(0, 1).fua().deallocate().no_deallocate_after_zero().execute();
    let b = ns
        .write_zeroes(0, 1)
        .no_deallocate_after_zero()
        .fua()
        .deallocate()
        .fua()
        .execute();
    let a = a.expect("accepted");
    assert_eq!(a.args.control, 0x4280);
    assert_eq!(a, b.expect("accepted"));
}

#[test]
fn commands_without_data_are_encoded() {
    let ns = ns(512);
    let v = ns
        .verify(5, 65_536)
        .limited_retry()
        .protection_action()
        .check_reftag()
        .check_apptag()
        .check_guard()
        .ref_tag(1)
        .app_tag(2)
        .app_mask(3)
        .timeout_ms(4)
        .execute()
        .expect("accepted");
    assert_eq!(v.opcode, OPC_VERIFY);
    let mut expected = base_args(7, 5, 65_535, 0);
    expected.control = 0xbc00;
    expected.reftag = 1;
    expected.apptag = 2;
    expected.appmask = 3;
    expected.timeout = 4;
    assert_eq!(v.args, expected);
    assert_eq!(ns.write_zeroes(0, 1).execute().expect("accepted").opcode, OPC_WRITE_ZEROES);
    let u = ns.write_uncorrectable(6, 2).timeout_ms(9).execute().expect("accepted");
    assert_eq!(u.opcode, OPC_WRITE_UNCOR);
    let mut expected = base_args(7, 6, 1, 0);
    expected.timeout = 9;
    assert_eq!(u.args, expected);
}

#[test]
fn buffer_length_is_checked_before_the_count() {
    let ns = ns(512);
    let data = [0u8; 1];
    assert_eq!(
        message(ns.write(0, 0, &data).execute()),
        "buffer length 1 bytes does not match nlb*lba_size = 0*512 = 0"
    );
    assert_eq!(message(ns.write(0, 0, &[]).execute()), "nlb must be 1..=65536, got 0");
    assert_eq!(message(ns.verify(0, 0).execute()), "nlb must be 1..=65536, got 0");
    assert_eq!(message(ns.write_zeroes(0, 70_000).execute()), "nlb must be 1..=65536, got 70000");
    assert_eq!(
        message(ns.write_uncorrectable(0, 65_537).execute()),
        "nlb must be 1..=65536, got 65537"
    );
    let mut one = [0u8; 1];
    assert_eq!(
        message(ns.read(0, 1, &mut one).execute()),
        "buffer length 1 bytes does not match nlb*lba_size = 1*512 = 512"
    );
    assert_eq!(
        message(ns.compare(0, 1, &data).execute()),
        "buffer length 1 bytes does not match nlb*lba_size = 1*512 = 512"
    );
}

#[test]
fn read_to_vec_makes_the_buffer() {
    let ns512 = ns(512);
    let mut buf = vec![9u8; 3];
    let cmd = ns512.read_to_vec(4, 3, &mut buf).expect("accepted");
    assert_eq!(cmd.args, base_args(7, 4, 2, 1536));
    assert!(cmd.data.iter().all(|b| *b == 0));
    assert_eq!(buf.len(), 1536);
    let mut buf = vec![9u8; 3];
    assert_eq!(message(ns512.read_to_vec(4, 0, &mut buf)), "nlb must be 1..=65536, got 0");
    assert_eq!(buf, vec![9u8; 3]);
}

#[test]
fn options_default_to_nothing() {
    let opts = IoOpts::default();
    let mut args = base_args(1, 2, 3, 4);
    opts.apply_to(&mut args);
    assert_eq!(args, base_args(1, 2, 3, 4));
}

#[test]
fn dsm_is_encoded() {
    let ns = ns(512);
    let ranges = [DsmRange::new(0, 16_384), DsmRange::new(0x0102_0304, 1).with_context(5)];
    let cmd = ns
        .dsm(DsmAttr::deallocate())
        .ranges(&ranges)
        .timeout_ms(12)
        .execute()
        .expect("accepted");
    assert_eq!(cmd.nsid, 7);
    assert_eq!(cmd.attrs, 4);
    assert_eq!(cmd.nr_ranges, 2);
    assert_eq!(cmd.timeout, 12);
    assert_eq!(
        cmd.ranges,
        vec![
            0, 0, 0, 0, 0xff, 0x3f, 0, 0, 0, 0, 0, 0, 0, 0, 0, 0, 5, 0, 0, 0, 0, 0, 0, 0, 4, 3, 2,
            1, 0, 0, 0, 0
        ]
    );
}

#[test]
fn dsm_needs_1_to_256_ranges() {
    let ns = ns(512);
    assert_eq!(message(ns.dsm(DsmAttr::deallocate()).execute()), "DSM requires at least one range");
    assert_eq!(
        message(ns.dsm(DsmAttr::deallocate()).ranges(&[]).execute()),
        "DSM requires at least one range"
    );
    let many = vec![DsmRange::new(0, 1); 257];
    assert_eq!(
        message(ns.dsm(DsmAttr::deallocate()).ranges(&many).execute()),
        "DSM supports at most 256 ranges, got 257"
    );
    let most = ns.dsm(DsmAttr::deallocate()).ranges(&many[..256]).execute().expect("accepted");
    assert_eq!(most.nr_ranges, 256);
    assert_eq!(most.ranges.len(), 4096);
}

#[test]
fn copy_is_encoded() {
    let ns = ns(512);
    let ranges = [
        CopyRange::new(0x10, 16).ref_tag(0x0a0b_0c0d).app_tag(0x0102, 0x0304),
        CopyRange::new(0x20, 0),
    ];
    let cmd = ns
        .copy(1000, &ranges)
        .fua()
        .limited_retry()
        .dest_ref_tag(1)
        .dest_ref_tag_u64(2)
        .dest_app_tag(3, 4)
        .prinfo_read(5)
        .prinfo_write(6)
        .descriptor_format(7)
        .directive(8, 9)
        .timeout_ms(10)
        .execute()
        .expect("accepted");
    assert_eq!(cmd.sdlba, 1000);
    assert_eq!(cmd.nsid, 7);
    assert_eq!(cmd.fua, 1);
    assert_eq!(cmd.lr, 1);
    assert_eq!(cmd.ilbrt, 1);
    assert_eq!(cmd.ilbrt_u64, 2);
    assert_eq!(cmd.lbat, 3);
    assert_eq!(cmd.lbatm, 4);
    assert_eq!(cmd.prinfor, 5);
    assert_eq!(cmd.prinfow, 6);
    assert_eq!(cmd.format, 7);
    assert_eq!(cmd.dtype, 8);
    assert_eq!(cmd.dspec, 9);
    assert_eq!(cmd.timeout, 10);
    assert_eq!(cmd.nr, 1);
    let mut expected = vec![0u8; 64];
    expected[8] = 0x10;
    expected[16] = 15;
    expected[24..28].copy_from_slice(&[0x0d, 0x0c, 0x0b, 0x0a]);
    expected[28..30].copy_from_slice(&[2, 1]);
    expected[30..32].copy_from_slice(&[4, 3]);
    expected[40] = 0x20;
    assert_eq!(cmd.copy, expected);
}

#[test]
fn copy_needs_1_to_128_ranges() {
    let ns = ns(512);
    assert_eq!(message(ns.copy(0, &[]).execute()), "Copy requires at least one source range");
    let many = vec![CopyRange::default(); 129];
    assert_eq!(
        message(ns.copy(0, &many).execute()),
        "Copy supports at most 128 ranges, got 129"
    );
    let cmd = ns.copy(0, &many[..128]).execute().expect("accepted");
    assert_eq!(cmd.nr, 127);
    assert_eq!(cmd.copy.len(), 4096);
    assert_eq!(cmd.fua, 0);
    assert_eq!(cmd.lr, 0);
}

#[test]
fn flush_carries_only_the_namespace() {
    let cmd = ns(512).flush();
    assert!(matches!(cmd.set, libnvme::commands::CommandSet::Io));
    assert_eq!(cmd.opcode, 0);
    assert_eq!(cmd.nsid, 7);
    assert_eq!(cmd.cdw10, 0);
    assert_eq!(cmd.data_len, 0);
    assert_eq!(cmd.timeout, 0);
    assert!(cmd.data.is_none());
    assert!(cmd.metadata.is_none());
}

#[test]
fn refused_read_leaves_its_buffers() {
    let ns = ns(512);
    let mut data = [3u8; 4];
    let mut md = [4u8; 2];
    assert!(ns.read(0, 0, &mut data).metadata(&mut md).fua().execute().is_err());
    assert_eq!(data, [3u8; 4]);
    assert_eq!(md, [4u8; 2]);
}

#[test]
fn read_fills_the_buffers_it_was_given() {
    let ns = ns(512);
    let mut data = [0u8; 512];
    let mut md = [0u8; 512];
    let cmd = ns.read(0, 1, &mut data).metadata(&mut md).fua().execute().expect("accepted");
    cmd.data[1] = 5;
    cmd.metadata.expect("metadata")[2] = 6;
    assert_eq!((data[1], data[2]), (5, 0));
    assert_eq!((md[1], md[2]), (0, 6));
}
