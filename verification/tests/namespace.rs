use libnvme::namespace::{FormatCommand, NamespaceAttrs};
use libnvme::{
    Error, MetadataSettings, Namespace, ProtectionInfo, ProtectionLocation, SecureErase,
};

fn attrs() -> NamespaceAttrs<'static> {
    NamespaceAttrs {
        name: Some(b"nvme0n1"),
        generic_name: Some(b"ng0n1"),
        model: Some(b" Disk of  glass\t "),
        serial: Some(b"S1   "),
        firmware: None,
        nsid: 1,
        lba_size: 4096,
        meta_size: 8,
        lba_count: 10,
        lba_util: 4,
        csi: 0x102,
        uuid: [3; 16],
        nguid: Some([4; 16]),
        eui64: Some([5; 8]),
    }
}

#[test]
fn accessors_report_the_attributes() {
    let ns = Namespace::from_raw(attrs());
    assert_eq!(ns.name().expect("name"), "nvme0n1");
    assert_eq!(ns.generic_name().expect("generic name"), "ng0n1");
    assert_eq!(ns.nsid(), 1);
    assert_eq!(ns.lba_size(), 4096);
    assert_eq!(ns.meta_size(), 8);
    assert_eq!(ns.lba_count(), 10);
    assert_eq!(ns.lba_utilization(), 4);
    assert_eq!(ns.size_bytes(), 40_960);
    assert_eq!(ns.csi(), 2);
    assert_eq!(ns.uuid(), [3; 16]);
    assert_eq!(ns.nguid(), [4; 16]);
    assert_eq!(ns.eui64(), [5; 8]);
}

#[test]
fn identity_strings_are_trimmed() {
    let ns = Namespace::from_raw(attrs());
    assert_eq!(ns.model().expect("model"), "Disk of  glass");
    assert_eq!(ns.serial().expect("serial"), "S1");
    assert!(matches!(ns.firmware(), Err(Error::NotAvailable)));
}

#[test]
fn missing_identifiers_are_zero() {
    let ns = Namespace::from_raw(NamespaceAttrs { nguid: None, eui64: None, ..attrs() });
    assert_eq!(ns.nguid(), [0; 16]);
    assert_eq!(ns.eui64(), [0; 8]);
}

#[test]
fn missing_and_broken_names_are_errors() {
    let ns = Namespace::from_raw(NamespaceAttrs {
        name: None,
        generic_name: Some(&[0xc3, 0x28]),
        ..attrs()
    });
    assert!(matches!(ns.name(), Err(Error::NotAvailable)));
    assert!(matches!(ns.generic_name(), Err(Error::Utf8(_))));
}

#[test]
fn size_is_capped() {
    let ns = Namespace::from_raw(NamespaceAttrs { lba_count: u64::MAX / 2, ..attrs() });
    assert_eq!(ns.size_bytes(), u64::MAX);
    let ns = Namespace::from_raw(NamespaceAttrs { lba_count: u64::MAX / 4096, ..attrs() });
    assert_eq!(ns.size_bytes(), u64::MAX - 4095);
}

#[test]
fn negative_numbers_wrap() {
    let ns = Namespace::from_raw(NamespaceAttrs { nsid: -1, lba_size: i32::MIN, ..attrs() });
    assert_eq!(ns.nsid(), u32::MAX);
    assert_eq!(ns.lba_size(), 0x8000_0000);
}

#[test]
fn format_defaults_are_conservative() {
    let ns = Namespace::from_raw(attrs());
    assert_eq!(
        ns.format().execute(),
        FormatCommand { timeout: 0, nsid: 1, mset: 0, pi: 0, pil: 0, ses: 0, lbaf: 0, lbafu: 0 }
    );
}

#[test]
fn format_is_encoded() {
    let ns = Namespace::from_raw(attrs());
    let cmd = ns
        .format()
        .lba_format(2)
        .lba_format_upper(1)
        .secure_erase(SecureErase::Cryptographic)
        .protection_info(ProtectionInfo::Type3)
        .protection_location(ProtectionLocation::First)
        .metadata(MetadataSettings::Extended)
        .timeout_ms(77)
        .execute();
    assert_eq!(
        cmd,
        FormatCommand { timeout: 77, nsid: 1, mset: 1, pi: 3, pil: 1, ses: 2, lbaf: 2, lbafu: 1 }
    );
}
