use libnvme::commands::{
    CommandSet, GetPropertyCommand, LockdownCommand, SanitizeCommand, SelfTestCommand,
    SetPropertyCommand,
};
use libnvme::{
    Controller, GetLbaStatusArgs, LockdownArgs, PassthruArgs, SanitizeAction, SelfTestAction,
};

#[test]
fn sanitize_defaults_to_a_block_erase() {
    let ctrl = Controller::from_raw(3u8);
    let (target, cmd) = ctrl.sanitize().execute();
    assert_eq!(*target.raw_handle(), 3);
    assert_eq!(
        cmd,
        SanitizeCommand {
            timeout: 0,
            sanact: 2,
            ovrpat: 0,
            ause: false,
            owpass: 0,
            oipbp: false,
            nodas: false,
            emvs: false,
        }
    );
}

#[test]
fn sanitize_is_encoded() {
    let ctrl = Controller::from_raw(3u8);
    let (_, cmd) = ctrl
        .sanitize()
        .action(SanitizeAction::Overwrite)
        .ause(true)
        .overwrite_pass_count(5)
        .overwrite_invert(true)
        .no_deallocate_after(true)
        .emulated_media_verify(true)
        .overwrite_pattern(0xdead_beef)
        .timeout_ms(6)
        .execute();
    assert_eq!(
        cmd,
        SanitizeCommand {
            timeout: 6,
            sanact: 3,
            ovrpat: 0xdead_beef,
            ause: true,
            owpass: 5,
            oipbp: true,
            nodas: true,
            emvs: true,
        }
    );
}

#[test]
fn self_test_is_encoded() {
    let ctrl = Controller::from_raw(());
    assert_eq!(
        ctrl.self_test(0xffff_ffff, SelfTestAction::Abort),
        SelfTestCommand { timeout: 0, nsid: 0xffff_ffff, stc: 15 }
    );
}

#[test]
fn lockdown_is_encoded() {
    let ctrl = Controller::from_raw(());
    let args = LockdownArgs {
        scope: 1,
        prohibit: 2,
        interface: 3,
        opcode_or_fid: 4,
        uuid_index: 5,
        timeout_ms: 6,
    };
    assert_eq!(
        ctrl.lockdown(args),
        LockdownCommand { timeout: 6, scp: 1, prhbt: 2, ifc: 3, ofi: 4, uuidx: 5 }
    );
    assert_eq!(
        ctrl.lockdown(LockdownArgs::default()),
        LockdownCommand { timeout: 0, scp: 0, prhbt: 0, ifc: 0, ofi: 0, uuidx: 0 }
    );
}

#[test]
fn security_commands_carry_the_buffer() {
    let ctrl = Controller::from_raw(());
    let mut data = [1u8, 2, 3];
    let send = ctrl.security_send(1, 2, 3, 4, 5, 6, &mut data);
    assert_eq!((send.nsid, send.secp, send.spsp0, send.spsp1), (1, 2, 3, 4));
    assert_eq!((send.nssf, send.tl, send.data_len, send.timeout), (5, 6, 3, 0));
    assert_eq!(send.data, &[1u8, 2, 3]);
    let receive = ctrl.security_receive(1, 2, 3, 4, 5, 6, &mut data);
    assert_eq!((receive.nsid, receive.secp, receive.spsp0, receive.spsp1), (1, 2, 3, 4));
    assert_eq!((receive.nssf, receive.al, receive.data_len, receive.timeout), (5, 6, 3, 0));
    receive.data[2] = 9;
    assert_eq!(data, [1, 2, 9]);
}

#[test]
fn get_lba_status_carries_the_buffer() {
    let ctrl = Controller::from_raw(());
    let args = GetLbaStatusArgs { nsid: 1, slba: 2, mndw: 2, atype: 4, rl: 5, timeout_ms: 6 };
    let mut buf = [7u8; 8];
    let cmd = ctrl.get_lba_status(args, &mut buf);
    assert_eq!(cmd.args, args);
    assert_eq!(cmd.lbas, &[7u8; 8]);
    assert_eq!(GetLbaStatusArgs::default().mndw, 0);
}

#[test]
fn properties_are_encoded() {
    let ctrl = Controller::from_raw(());
    assert_eq!(
        ctrl.set_property(0x14, 1),
        SetPropertyCommand { timeout: 0, offset: 0x14, value: 1 }
    );
    assert_eq!(ctrl.get_property(0x1c), GetPropertyCommand { timeout: 0, offset: 0x1c });
}

#[test]
fn passthru_is_verbatim() {
    let ctrl = Controller::from_raw(());
    let mut data = [0u8; 16];
    let mut md = [0u8; 4];
    let args = PassthruArgs {
        opcode: 1,
        flags: 2,
        rsvd: 3,
        nsid: 4,
        cdw2: 5,
        cdw3: 6,
        cdw10: 7,
        cdw11: 8,
        cdw12: 9,
        cdw13: 10,
        cdw14: 11,
        cdw15: 12,
        data: Some(&mut data),
        metadata: Some(&mut md),
        timeout_ms: 13,
    };
    let cmd = ctrl.admin_passthru(args);
    assert_eq!(cmd.set, CommandSet::Admin);
    assert_eq!((cmd.opcode, cmd.flags, cmd.rsvd, cmd.nsid), (1, 2, 3, 4));
    assert_eq!((cmd.cdw2, cmd.cdw3, cmd.cdw10, cmd.cdw11), (5, 6, 7, 8));
    assert_eq!((cmd.cdw12, cmd.cdw13, cmd.cdw14, cmd.cdw15), (9, 10, 11, 12));
    assert_eq!((cmd.data_len, cmd.metadata_len, cmd.timeout), (16, 4, 13));
    assert_eq!(cmd.data.expect("data").len(), 16);
    assert_eq!(cmd.metadata.expect("metadata").len(), 4);
}

#[test]
fn passthru_without_buffers_has_no_lengths() {
    let ctrl = Controller::from_raw(());
    let cmd = ctrl.io_passthru(PassthruArgs { opcode: 2, ..PassthruArgs::default() });
    assert_eq!(cmd.set, CommandSet::Io);
    assert_eq!(cmd.opcode, 2);
    assert_eq!((cmd.data_len, cmd.metadata_len, cmd.timeout, cmd.cdw10), (0, 0, 0, 0));
    assert!(cmd.data.is_none());
    assert!(cmd.metadata.is_none());
}

#[test]
fn passthru_keeps_data_and_metadata_apart() {
    let ctrl = Controller::from_raw(());
    let mut data = [0u8; 4];
    let mut md = [0u8; 4];
    let cmd = ctrl.io_passthru(PassthruArgs {
        data: Some(&mut data),
        metadata: Some(&mut md),
        ..PassthruArgs::default()
    });
    cmd.data.expect("data")[0] = 1;
    cmd.metadata.expect("metadata")[3] = 2;
    assert_eq!(data, [1, 0, 0, 0]);
    assert_eq!(md, [0, 0, 0, 2]);
}
