use caliptra_emu_doe::bus::Bus;
use caliptra_emu_doe::clock::Clock;
use caliptra_emu_doe::control::{Cmd, Control};
use caliptra_emu_doe::doe::Doe;
use caliptra_emu_doe::key_vault::KeyVault;
use caliptra_emu_doe::model::DOE_IV_SIZE;
use caliptra_emu_doe::register::InMemoryRegister;
use caliptra_emu_doe::soc_reg::SocRegisters;
use caliptra_emu_doe::types::{RvAddr, RvData, RvSize};

const OFFSET_IV: RvAddr = 0;
const OFFSET_CONTROL: RvAddr = 0x10;

fn make_word(idx: usize, arr: &[u8]) -> RvData {
    let mut res: RvData = 0;
    for i in 0..4 {
        res = res | ((arr[idx + i] as RvData) << i * 8);
    }
    res
}

#[test]
fn test_deobfuscate_uds() {
    const IV: [u8; 16] = [
        0x00, 0x01, 0x02, 0x03, 0x04, 0x05, 0x06, 0x07, 0x08, 0x09, 0x0a, 0x0b, 0x0c, 0x0d,
        0x0e, 0x0f,
    ];

    const PLAIN_TEXT_UDS: [u8; 48] = [
        0x6B, 0xC1, 0xBE, 0xE2, 0x2E, 0x40, 0x9F, 0x96, 0xE9, 0x3D, 0x7E, 0x11, 0x73, 0x93,
        0x17, 0x2A, 0xAE, 0x2D, 0x8A, 0x57, 0x1E, 0x3, 0xAC, 0x9C, 0x9E, 0xB7, 0x6F, 0xAC,
        0x45, 0xAF, 0x8E, 0x51, 0x30, 0xC8, 0x1C, 0x46, 0xA3, 0x5C, 0xE4, 0x11, 0xE5, 0xFB,
        0xC1, 0x19, 0x1A, 0xA, 0x52, 0xEF,
    ];

    let mut clock = Clock::new();
    let key_vault = KeyVault::new();
    let soc_reg = SocRegisters::new();
    let mut doe = Doe::new(key_vault.clone(), soc_reg.clone());

    for i in (0..IV.len()).step_by(4) {
        assert_eq!(
            clock
                .write(&mut doe, RvSize::Word, OFFSET_IV + i as RvAddr, make_word(i, &IV))
                .ok(),
            Some(())
        );
    }

    assert_eq!(
        clock.write(
            &mut doe,
            RvSize::Word,
            OFFSET_CONTROL,
            Control::cmd_value(Cmd::DeobfuscateUds)
                .combine(Control::dest().val(2))
                .value()
        )
        .ok(),
        Some(())
    );

    loop {
        let status = InMemoryRegister::new(doe.read(RvSize::Word, OFFSET_CONTROL).unwrap());

        if status.is_set(Control::flow_done()) {
            break;
        }

        clock.increment_and_poll(1, &mut doe);
    }

    assert_eq!(doe.key_vault().read_key(2)[..48], PLAIN_TEXT_UDS);
}

#[test]
fn test_deobfuscate_fe() {
    const PLAIN_TEXT_FE: [u8; 64] = [
        0xC6, 0x10, 0x65, 0x4D, 0xB4, 0xED, 0xA8, 0x53, 0xCF, 0x54, 0x6D, 0xEF, 0x52, 0x4E,
        0xC1, 0x5F, 0x39, 0xEF, 0x9A, 0xB2, 0x4B, 0x12, 0x57, 0xAC, 0x30, 0xAB, 0x92, 0x10,
        0xAD, 0xB1, 0x3E, 0xA0, 0x39, 0xEF, 0x9A, 0xB2, 0x4B, 0x12, 0x57, 0xAC, 0x30, 0xAB,
        0x92, 0x10, 0xAD, 0xB1, 0x3E, 0xA0, 0x39, 0xEF, 0x9A, 0xB2, 0x4B, 0x12, 0x57, 0xAC,
        0x30, 0xAB, 0x92, 0x10, 0xAD, 0xB1, 0x3E, 0xA0,
    ];

    let mut clock = Clock::new();
    let key_vault = KeyVault::new();
    let soc_reg = SocRegisters::new();
    let mut doe = Doe::new(key_vault.clone(), soc_reg.clone());

    let iv = [0u8; DOE_IV_SIZE];
    for i in (0..iv.len()).step_by(4) {
        assert_eq!(
            clock
                .write(&mut doe, RvSize::Word, OFFSET_IV + i as RvAddr, make_word(i, &iv))
                .ok(),
            Some(())
        );
    }

    assert_eq!(
        clock.write(
            &mut doe,
            RvSize::Word,
            OFFSET_CONTROL,
            Control::cmd_value(Cmd::DeobfuscateFe)
                .combine(Control::dest().val(3))
                .value()
        )
        .ok(),
        Some(())
    );

    loop {
        let status = InMemoryRegister::new(doe.read(RvSize::Word, OFFSET_CONTROL).unwrap());

        if status.is_set(Control::flow_done()) {
            break;
        }

        clock.increment_and_poll(1, &mut doe);
    }

    assert_eq!(doe.key_vault().read_key(3), PLAIN_TEXT_FE);
}

#[test]
fn test_clear_secrets() {
    let expected_uds = [0u8; 48];
    let expected_doe_key = [0u8; 32];
    let expected_fe = [0u8; 128];
    let mut clock = Clock::new();
    let key_vault = KeyVault::new();
    let soc_reg = SocRegisters::new();
    let mut doe = Doe::new(key_vault.clone(), soc_reg.clone());
    assert_ne!(soc_reg.uds(), expected_uds);
    assert_ne!(soc_reg.doe_key(), expected_doe_key);
    assert_ne!(soc_reg.field_entropy(), expected_fe);

    assert_eq!(
        clock.write(
            &mut doe,
            RvSize::Word,
            OFFSET_CONTROL,
            Control::cmd_value(Cmd::ClearSecrets)
                .combine(Control::dest().val(0))
                .value()
        )
        .ok(),
        Some(())
    );

    loop {
        let status = InMemoryRegister::new(doe.read(RvSize::Word, OFFSET_CONTROL).unwrap());

        if status.is_set(Control::flow_done()) {
            break;
        }

        clock.increment_and_poll(1, &mut doe);
    }

    assert_eq!(doe.soc_reg().uds(), expected_uds);
    assert_eq!(doe.soc_reg().doe_key(), expected_doe_key);
    assert_eq!(doe.soc_reg().field_entropy(), expected_fe);
}
