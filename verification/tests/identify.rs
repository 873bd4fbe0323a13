use libnvme::identify::{IdCtrl, IdNs, Lbaf};
use libnvme::{IdentifyController, IdentifyNamespace, LbaFormat, NvmeVersion};

#[test]
fn version_decodes_bit_layout() {
    let v = NvmeVersion::from_raw(0x00010402);
    assert_eq!(v.major, 1);
    assert_eq!(v.minor, 4);
    assert_eq!(v.tertiary, 2);
    assert_eq!(v.to_string(), "1.4.2");
}

#[test]
fn version_decodes_nvme_2_0() {
    let v = NvmeVersion::from_raw(0x00020000);
    assert_eq!(v.major, 2);
    assert_eq!(v.minor, 0);
    assert_eq!(v.tertiary, 0);
}

#[test]
fn lba_format_decodes_exponent() {
    let raw = Lbaf { ms: 0, ds: 12, rp: 0 };
    let f = LbaFormat::from_raw(raw);
    assert_eq!(f.data_size_bytes, 4096);
    assert_eq!(f.relative_performance, 0);
}

#[test]
fn lba_format_zero_ds_yields_zero_size() {
    let raw = Lbaf { ms: 0, ds: 0, rp: 0 };
    assert_eq!(LbaFormat::from_raw(raw).data_size_bytes, 0);
}

#[test]
fn lba_format_masks_relative_performance() {
    let raw = Lbaf { ms: 0, ds: 9, rp: 0xFB };
    assert_eq!(LbaFormat::from_raw(raw).relative_performance, 0x03);
}

#[test]
fn version_packs_back() {
    for ver in [0u32, 0x00010402, 0xffff_ffff, 0x1234_5678] {
        let v = NvmeVersion::from_raw(ver);
        let packed = (u32::from(v.major) << 16) | (u32::from(v.minor) << 8) | u32::from(v.tertiary);
        assert_eq!(packed, ver);
    }
    assert_eq!(NvmeVersion::from_raw(0xffff_ffff).to_string(), "65535.255.255");
}

#[test]
fn lba_format_sizes_are_powers_of_two() {
    for ds in 1u8..32 {
        let f = LbaFormat::from_raw(Lbaf { ms: 8, ds, rp: 1 });
        assert_eq!(f.data_size_bytes, 1u32 << ds);
        assert_eq!(f.metadata_size, 8);
        assert_eq!(f.relative_performance, 1);
    }
}

fn id_ns() -> IdNs {
    let mut lbaf = [Lbaf { ms: 0, ds: 0, rp: 0 }; 64];
    lbaf[0] = Lbaf { ms: 0, ds: 9, rp: 2 };
    lbaf[3] = Lbaf { ms: 8, ds: 12, rp: 0 };
    lbaf[63] = Lbaf { ms: 64, ds: 31, rp: 3 };
    let mut nvmcap = [0u8; 16];
    nvmcap[0] = 0x34;
    nvmcap[1] = 0x12;
    nvmcap[15] = 0x80;
    IdNs {
        nsze: 100,
        ncap: 90,
        nuse: 80,
        nsfeat: 1,
        nlbaf: 2,
        flbas: 0x13,
        mc: 3,
        dpc: 4,
        dps: 5,
        nmic: 6,
        rescap: 7,
        nvmcap,
        nawun: 9,
        nguid: [1; 16],
        eui64: [2; 8],
        lbaf,
    }
}

#[test]
fn namespace_fields_are_decoded() {
    let id = IdentifyNamespace::from_raw(id_ns());
    assert_eq!(id.size_lbas(), 100);
    assert_eq!(id.capacity_lbas(), 90);
    assert_eq!(id.utilization_lbas(), 80);
    assert_eq!(id.features(), 1);
    assert_eq!(id.num_lba_formats(), 2);
    assert_eq!(id.formatted_lba_size(), 0x13);
    assert_eq!(id.metadata_capabilities(), 3);
    assert_eq!(id.data_protection_capabilities(), 4);
    assert_eq!(id.data_protection_setting(), 5);
    assert_eq!(id.multipath_capabilities(), 6);
    assert_eq!(id.reservation_capabilities(), 7);
    assert_eq!(id.nvm_capacity_bytes(), (0x80u128 << 120) + 0x1234);
    assert_eq!(id.atomic_write_unit_normal(), 9);
    assert_eq!(id.nguid(), [1; 16]);
    assert_eq!(id.eui64(), [2; 8]);
}

#[test]
fn lba_formats_are_looked_up() {
    let id = IdentifyNamespace::from_raw(id_ns());
    assert_eq!(id.lba_format(0).expect("format 0").data_size_bytes, 512);
    assert_eq!(id.lba_format(63).expect("format 63").data_size_bytes, 0x8000_0000);
    assert!(id.lba_format(1).is_none());
    assert!(id.lba_format(64).is_none());
    assert!(id.lba_format(255).is_none());
    let current = id.current_lba_format().expect("current format");
    assert_eq!(
        current,
        LbaFormat { metadata_size: 8, data_size_bytes: 4096, relative_performance: 0 }
    );
}

fn ascii<const N: usize>(text: &str) -> [u8; N] {
    let mut out = [b' '; N];
    for (i, b) in text.bytes().enumerate() {
        out[i] = b;
    }
    out
}

fn id_ctrl() -> IdCtrl {
    let mut tnvmcap = [0u8; 16];
    tnvmcap[8] = 1;
    IdCtrl {
        vid: 0x1b36,
        ssvid: 0x1af4,
        sn: ascii("  SERIAL-1"),
        mn: ascii("QEMU NVMe Ctrl"),
        fr: ascii("8.2.0"),
        ieee: [0, 0x54, 0x52],
        mdts: 7,
        cntlid: 5,
        ver: 0x0001_0400,
        cntrltype: 1,
        fguid: [9; 16],
        oacs: 10,
        acl: 11,
        aerl: 12,
        frmw: 13,
        lpa: 14,
        elpe: 15,
        npss: 16,
        wctemp: 17,
        cctemp: 18,
        hmpre: 19,
        hmmin: 20,
        tnvmcap,
        unvmcap: [0xff; 16],
        sqes: 0x66,
        cqes: 0x44,
        maxcmd: 23,
        nn: 24,
    }
}

#[test]
fn controller_fields_are_decoded() {
    let id = IdentifyController::from_raw(id_ctrl());
    assert_eq!(id.vendor_id(), 0x1b36);
    assert_eq!(id.subsystem_vendor_id(), 0x1af4);
    assert_eq!(id.serial_number().expect("serial"), "SERIAL-1");
    assert_eq!(id.model_number().expect("model"), "QEMU NVMe Ctrl");
    assert_eq!(id.firmware_revision().expect("firmware"), "8.2.0");
    assert_eq!(id.ieee_oui(), [0, 0x54, 0x52]);
    assert_eq!(id.max_data_transfer_size_exp(), 7);
    assert_eq!(id.controller_id(), 5);
    assert_eq!(id.nvme_version(), NvmeVersion { major: 1, minor: 4, tertiary: 0 });
    assert_eq!(id.controller_type(), 1);
    assert_eq!(id.fru_guid(), [9; 16]);
    assert_eq!(id.optional_admin_command_support(), 10);
    assert_eq!(id.abort_command_limit(), 11);
    assert_eq!(id.async_event_request_limit(), 12);
    assert_eq!(id.firmware_updates(), 13);
    assert_eq!(id.log_page_attributes(), 14);
    assert_eq!(id.error_log_page_entries(), 15);
    assert_eq!(id.num_power_states(), 16);
    assert_eq!(id.warning_temp_threshold_kelvin(), 17);
    assert_eq!(id.critical_temp_threshold_kelvin(), 18);
    assert_eq!(id.host_memory_buffer_preferred_size(), 19);
    assert_eq!(id.host_memory_buffer_min_size(), 20);
    assert_eq!(id.total_nvm_capacity_bytes(), 1u128 << 64);
    assert_eq!(id.unallocated_nvm_capacity_bytes(), u128::MAX);
    assert_eq!(id.submission_queue_entry_size(), 0x66);
    assert_eq!(id.completion_queue_entry_size(), 0x44);
    assert_eq!(id.max_commands_outstanding(), 23);
    assert_eq!(id.num_namespaces(), 24);
}

#[test]
fn fixed_fields_must_be_utf8() {
    let mut raw = id_ctrl();
    raw.fr = [0xff; 8];
    let id = IdentifyController::from_raw(raw);
    assert!(matches!(id.firmware_revision(), Err(libnvme::Error::Utf8(_))));
}

#[test]
fn oversized_formats_are_told_apart() {
    let mut raw = id_ns();
    raw.lbaf[5] = Lbaf { ms: 0, ds: 32, rp: 0 };
    let id = IdentifyNamespace::from_raw(raw);
    assert!(!id.lba_size_fits(5));
    assert!(id.lba_size_fits(63));
    assert!(id.lba_size_fits(1));
    assert!(id.lba_size_fits(64));
}
