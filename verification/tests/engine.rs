use caliptra_emu_doe::bus::Bus;
use caliptra_emu_doe::clock::Clock;
use caliptra_emu_doe::control::{Cmd, Control};
use caliptra_emu_doe::doe::Doe;
use caliptra_emu_doe::key_vault::KeyVault;
use caliptra_emu_doe::memory::ReadWriteMemory;
use caliptra_emu_doe::model::{DOE_CONTROL_OFFSET, DOE_IV_OFFSET, DOE_IV_SIZE, DOE_OP_TICKS};
use caliptra_emu_doe::soc_reg::{SocRegisters, DEFAULT_DOE_KEY, DEFAULT_UDS};
use caliptra_emu_doe::types::{BusError, RvAddr, RvData, RvSize};

const CONTROL: RvAddr = 0x10;

const IV: [u8; 16] = [
    0x00, 0x01, 0x02, 0x03, 0x04, 0x05, 0x06, 0x07, 0x08, 0x09, 0x0a, 0x0b, 0x0c, 0x0d, 0x0e, 0x0f,
];

const KEY: [u8; 32] = [
    0x60, 0x3d, 0xeb, 0x10, 0x15, 0xca, 0x71, 0xbe, 0x2b, 0x73, 0xae, 0xf0, 0x85, 0x7d, 0x77, 0x81,
    0x1f, 0x35, 0x2c, 0x07, 0x3b, 0x61, 0x08, 0xd7, 0x2d, 0x98, 0x10, 0xa3, 0x09, 0x14, 0xdf, 0xf4,
];

const CIPHER_TEXT: [u8; 64] = [
    0xf5, 0x8c, 0x4c, 0x04, 0xd6, 0xe5, 0xf1, 0xba, 0x77, 0x9e, 0xab, 0xfb, 0x5f, 0x7b, 0xfb, 0xd6,
    0x9c, 0xfc, 0x4e, 0x96, 0x7e, 0xdb, 0x80, 0x8d, 0x67, 0x9f, 0x77, 0x7b, 0xc6, 0x70, 0x2c, 0x7d,
    0x39, 0xf2, 0x33, 0x69, 0xa9, 0xd9, 0xba, 0xcf, 0xa5, 0x30, 0xe2, 0x63, 0x04, 0x23, 0x14, 0x61,
    0xb2, 0xeb, 0x05, 0xe2, 0xc3, 0x9b, 0xe9, 0xfc, 0xda, 0x6c, 0x19, 0x07, 0x8c, 0x6a, 0x9d, 0x1b,
];

const PLAIN_TEXT: [u8; 64] = [
    0x6b, 0xc1, 0xbe, 0xe2, 0x2e, 0x40, 0x9f, 0x96, 0xe9, 0x3d, 0x7e, 0x11, 0x73, 0x93, 0x17, 0x2a,
    0xae, 0x2d, 0x8a, 0x57, 0x1e, 0x03, 0xac, 0x9c, 0x9e, 0xb7, 0x6f, 0xac, 0x45, 0xaf, 0x8e, 0x51,
    0x30, 0xc8, 0x1c, 0x46, 0xa3, 0x5c, 0xe4, 0x11, 0xe5, 0xfb, 0xc1, 0x19, 0x1a, 0x0a, 0x52, 0xef,
    0xf6, 0x9f, 0x24, 0x45, 0xdf, 0x4f, 0x9b, 0x17, 0xad, 0x2b, 0x41, 0x7b, 0xe6, 0x6c, 0x37, 0x10,
];

const PLAIN_TEXT_FE: [u8; 64] = [
    0xC6, 0x10, 0x65, 0x4D, 0xB4, 0xED, 0xA8, 0x53, 0xCF, 0x54, 0x6D, 0xEF, 0x52, 0x4E, 0xC1, 0x5F,
    0x39, 0xEF, 0x9A, 0xB2, 0x4B, 0x12, 0x57, 0xAC, 0x30, 0xAB, 0x92, 0x10, 0xAD, 0xB1, 0x3E, 0xA0,
    0x39, 0xEF, 0x9A, 0xB2, 0x4B, 0x12, 0x57, 0xAC, 0x30, 0xAB, 0x92, 0x10, 0xAD, 0xB1, 0x3E, 0xA0,
    0x39, 0xEF, 0x9A, 0xB2, 0x4B, 0x12, 0x57, 0xAC, 0x30, 0xAB, 0x92, 0x10, 0xAD, 0xB1, 0x3E, 0xA0,
];

fn word(idx: usize, arr: &[u8]) -> RvData {
    u32::from_le_bytes([arr[idx], arr[idx + 1], arr[idx + 2], arr[idx + 3]])
}

fn new_doe() -> (Clock, Doe) {
    (Clock::new(), Doe::new(KeyVault::new(), SocRegisters::new()))
}

fn write_iv(clock: &Clock, doe: &mut Doe, iv: &[u8; 16]) {
    for i in (0..16).step_by(4) {
        assert_eq!(clock.write(doe, RvSize::Word, i as RvAddr, word(i, iv)), Ok(()));
    }
}

fn control(doe: &mut Doe) -> RvData {
    doe.read(RvSize::Word, CONTROL).unwrap()
}

fn flow_done(doe: &mut Doe) -> bool {
    control(doe) & 0x20 != 0
}

fn slot_of(plain_text: &[u8]) -> [u8; 64] {
    let mut slot = [0u8; 64];
    slot[..plain_text.len()].copy_from_slice(plain_text);
    slot
}

#[test]
fn register_map() {
    assert_eq!(DOE_IV_OFFSET, 0x0);
    assert_eq!(DOE_IV_SIZE, 16);
    assert_eq!(DOE_CONTROL_OFFSET, 0x10);
    assert_eq!(DOE_OP_TICKS, 1000);
}

#[test]
fn new_engine_is_idle_and_empty() {
    let (clock, mut doe) = new_doe();
    assert_eq!(control(&mut doe), 0);
    assert_eq!(doe.iv(), &[0u8; 16]);
    for i in (0..16).step_by(4) {
        assert_eq!(doe.read(RvSize::Word, i), Ok(0));
    }
    for key_id in 0..8 {
        assert_eq!(doe.key_vault().read_key(key_id), [0u8; 64]);
    }
    assert_eq!(doe.soc_reg().uds(), DEFAULT_UDS);
    assert_eq!(doe.soc_reg().doe_key(), DEFAULT_DOE_KEY);
    assert_eq!(doe.soc_reg().field_entropy(), [0xffu8; 128]);
}

#[test]
fn new_engine_holds_what_it_was_given() {
    let clock = Clock::new();
    let mut vault = KeyVault::new();
    vault.write_key(6, &[0x77u8; 64]);
    let soc_reg = SocRegisters::with_secrets([1u8; 48], [2u8; 128], [3u8; 32]);
    let doe = Doe::new(vault, soc_reg);
    assert_eq!(doe.key_vault().read_key(6), [0x77u8; 64]);
    assert_eq!(doe.key_vault().read_key(5), [0u8; 64]);
    assert_eq!(doe.soc_reg().uds(), [1u8; 48]);
    assert_eq!(doe.soc_reg().field_entropy(), [2u8; 128]);
    assert_eq!(doe.soc_reg().doe_key(), [3u8; 32]);
}

#[test]
fn control_write_of_another_width_fails_and_changes_nothing() {
    let (mut clock, mut doe) = new_doe();
    let before = Control::command(Cmd::Idle, 5);
    assert_eq!(clock.write(&mut doe, RvSize::Word, CONTROL, before), Ok(()));
    let command = Control::command(Cmd::ClearSecrets, 0);
    for size in [RvSize::Byte, RvSize::HalfWord, RvSize::Invalid] {
        assert_eq!(clock.write(&mut doe, size, CONTROL, command), Err(BusError::StoreAccessFault));
        assert_eq!(control(&mut doe), before);
        assert_eq!(doe.on_write_control(clock.now(), size, command), Err(BusError::StoreAccessFault));
        assert_eq!(control(&mut doe), before);
    }
    clock.increment_and_poll(5000, &mut doe);
    assert_eq!(control(&mut doe), before);
    assert_eq!(doe.soc_reg().uds(), DEFAULT_UDS);
}

#[test]
fn control_write_of_another_width_does_not_stop_a_command() {
    let (mut clock, mut doe) = new_doe();
    assert_eq!(clock.write(&mut doe, RvSize::Word, CONTROL, Control::command(Cmd::ClearSecrets, 0)), Ok(()));
    clock.increment_and_poll(999, &mut doe);
    assert_eq!(
        clock.write(&mut doe, RvSize::Byte, CONTROL, Control::command(Cmd::DeobfuscateUds, 1)),
        Err(BusError::StoreAccessFault)
    );
    assert_eq!(control(&mut doe), Control::command(Cmd::ClearSecrets, 0));
    clock.increment_and_poll(1, &mut doe);
    assert!(flow_done(&mut doe));
    assert_eq!(doe.soc_reg().uds(), [0u8; 48]);
    assert_eq!(doe.key_vault().read_key(1), [0u8; 64]);
}

#[test]
fn on_write_control_of_a_word() {
    let (clock, mut doe) = new_doe();
    assert_eq!(doe.on_write_control(clock.now(), RvSize::Word, 0xffff_ff00), Ok(()));
    assert_eq!(control(&mut doe), 0xffff_ff00);
    assert_eq!(doe.on_write_control(clock.now(), RvSize::Word, 0xffff_ffff), Ok(()));
    assert_eq!(control(&mut doe), 0xffff_ffdf);
}

#[test]
fn command_clears_flow_done_when_it_is_accepted() {
    let (mut clock, mut doe) = new_doe();
    assert_eq!(clock.write(&mut doe, RvSize::Word, CONTROL, Control::command(Cmd::ClearSecrets, 3)), Ok(()));
    clock.increment_and_poll(1000, &mut doe);
    assert_eq!(control(&mut doe), 0x20);
    assert_eq!(clock.write(&mut doe, RvSize::Word, CONTROL, 0x20 | Control::command(Cmd::DeobfuscateFe, 1)), Ok(()));
    assert_eq!(control(&mut doe), Control::command(Cmd::DeobfuscateFe, 1));
    assert!(!flow_done(&mut doe));
}

#[test]
fn flow_done_after_1000_ticks_one_at_a_time() {
    let (mut clock, mut doe) = new_doe();
    let command = Control::command(Cmd::DeobfuscateUds, 2);
    assert_eq!(clock.write(&mut doe, RvSize::Word, CONTROL, command), Ok(()));
    for _ in 0..999 {
        clock.increment_and_poll(1, &mut doe);
        assert_eq!(control(&mut doe), command);
    }
    assert_eq!(clock.now(), 999);
    assert_eq!(doe.key_vault().read_key(2), [0u8; 64]);
    clock.increment_and_poll(1, &mut doe);
    assert_eq!(control(&mut doe), 0x20);
    assert_ne!(doe.key_vault().read_key(2), [0u8; 64]);
}

#[test]
fn flow_done_after_1000_ticks_in_uneven_steps() {
    for step in [2u64, 3, 7, 10, 250, 333, 499, 500, 999, 1000, 1001, 5000] {
        let (mut clock, mut doe) = new_doe();
        assert_eq!(
            clock.write(&mut doe, RvSize::Word, CONTROL, Control::command(Cmd::ClearSecrets, 0)),
            Ok(())
        );
        let mut total = 0u64;
        while total + step < 1000 {
            clock.increment_and_poll(step, &mut doe);
            total += step;
            assert!(!flow_done(&mut doe), "step {} total {}", step, total);
            assert_eq!(doe.soc_reg().uds(), DEFAULT_UDS);
        }
        clock.increment_and_poll(step, &mut doe);
        assert!(flow_done(&mut doe), "step {}", step);
        assert_eq!(doe.soc_reg().uds(), [0u8; 48]);
        clock.increment_and_poll(step, &mut doe);
        assert_eq!(control(&mut doe), 0x20);
    }
}

#[test]
fn flow_done_is_not_set_by_polls_without_ticks() {
    let (mut clock, mut doe) = new_doe();
    assert_eq!(clock.write(&mut doe, RvSize::Word, CONTROL, Control::command(Cmd::ClearSecrets, 0)), Ok(()));
    clock.increment_and_poll(999, &mut doe);
    for _ in 0..2000 {
        clock.increment_and_poll(0, &mut doe);
    }
    assert!(!flow_done(&mut doe));
    clock.increment_and_poll(1, &mut doe);
    assert!(flow_done(&mut doe));
}

#[test]
fn engine_counts_from_the_time_of_the_write() {
    let mut clock = Clock::new();
    let mut doe = Doe::new(KeyVault::new(), SocRegisters::new());
    clock.increment_and_poll(750, &mut doe);
    assert_eq!(clock.write(&mut doe, RvSize::Word, CONTROL, Control::command(Cmd::ClearSecrets, 0)), Ok(()));
    clock.increment_and_poll(999, &mut doe);
    assert_eq!(clock.now(), 1749);
    assert!(!flow_done(&mut doe));
    clock.increment_and_poll(1, &mut doe);
    assert!(flow_done(&mut doe));
}

#[test]
fn engine_counts_from_the_write_when_the_clock_polled_another_peripheral() {
    let mut clock = Clock::new();
    let mut mem = ReadWriteMemory::<4>::new();
    let mut doe = Doe::new(KeyVault::new(), SocRegisters::new());
    // The clock moves on while the engine is not polled.
    clock.increment_and_poll(500, &mut mem);
    assert_eq!(clock.write(&mut doe, RvSize::Word, CONTROL, 0x03), Ok(()));
    clock.increment_and_poll(500, &mut doe);
    assert_eq!(clock.now(), 1000);
    assert_eq!(control(&mut doe), 0x03);
    assert_eq!(doe.soc_reg().uds(), DEFAULT_UDS);
    clock.increment_and_poll(499, &mut doe);
    assert_eq!(control(&mut doe), 0x03);
    clock.increment_and_poll(1, &mut doe);
    assert_eq!(clock.now(), 1500);
    assert_eq!(control(&mut doe), 0x20);
    assert_eq!(doe.soc_reg().uds(), [0u8; 48]);
}

#[test]
fn engine_that_is_seldom_polled_completes_at_its_first_poll_past_the_deadline() {
    let mut clock = Clock::new();
    let mut mem = ReadWriteMemory::<4>::new();
    let mut doe = Doe::new(KeyVault::new(), SocRegisters::new());
    clock.increment_and_poll(123, &mut mem);
    assert_eq!(clock.write(&mut doe, RvSize::Word, CONTROL, Control::command(Cmd::ClearSecrets, 0)), Ok(()));
    // Ticks that only the other peripheral sees count all the same.
    clock.increment_and_poll(600, &mut mem);
    clock.increment_and_poll(399, &mut doe);
    assert_eq!(clock.now(), 1122);
    assert!(!flow_done(&mut doe));
    clock.increment_and_poll(1, &mut mem);
    assert!(!flow_done(&mut doe));
    assert_eq!(doe.soc_reg().uds(), DEFAULT_UDS);
    clock.increment_and_poll(0, &mut doe);
    assert_eq!(clock.now(), 1123);
    assert!(flow_done(&mut doe));
    assert_eq!(doe.soc_reg().uds(), [0u8; 48]);
}

#[test]
fn second_command_counts_from_its_own_write_when_the_clock_polled_another_peripheral() {
    let mut clock = Clock::new();
    let mut mem = ReadWriteMemory::<4>::new();
    let mut doe = Doe::new(KeyVault::new(), SocRegisters::new());
    assert_eq!(clock.write(&mut doe, RvSize::Word, CONTROL, Control::command(Cmd::ClearSecrets, 0)), Ok(()));
    clock.increment_and_poll(700, &mut mem);
    assert_eq!(clock.write(&mut doe, RvSize::Word, CONTROL, Control::command(Cmd::DeobfuscateFe, 6)), Ok(()));
    // Nothing fires at the first deadline, tick 1000.
    clock.increment_and_poll(300, &mut doe);
    assert_eq!(control(&mut doe), Control::command(Cmd::DeobfuscateFe, 6));
    clock.increment_and_poll(699, &mut doe);
    assert_eq!(control(&mut doe), Control::command(Cmd::DeobfuscateFe, 6));
    assert_eq!(doe.key_vault().read_key(6), [0u8; 64]);
    clock.increment_and_poll(1, &mut doe);
    assert_eq!(clock.now(), 1700);
    assert_eq!(control(&mut doe), 0x20);
    assert_eq!(doe.key_vault().read_key(6), PLAIN_TEXT_FE);
    assert_eq!(doe.soc_reg().uds(), DEFAULT_UDS);
}

#[test]
fn write_at_a_given_time() {
    let mut doe = Doe::new(KeyVault::new(), SocRegisters::new());
    assert_eq!(doe.write(40, RvSize::Word, CONTROL, Control::command(Cmd::ClearSecrets, 0)), Ok(()));
    doe.poll(1039);
    assert!(!flow_done(&mut doe));
    doe.poll(1040);
    assert!(flow_done(&mut doe));
    assert_eq!(doe.on_write_control(u64::MAX, RvSize::Word, Control::command(Cmd::ClearSecrets, 0)), Ok(()));
    doe.poll(u64::MAX);
    assert!(!flow_done(&mut doe));
}

#[test]
fn poll_at_a_given_time() {
    let (clock, mut doe) = new_doe();
    assert_eq!(clock.write(&mut doe, RvSize::Word, CONTROL, Control::command(Cmd::ClearSecrets, 0)), Ok(()));
    doe.poll(999);
    assert!(!flow_done(&mut doe));
    doe.poll(999);
    assert!(!flow_done(&mut doe));
    doe.poll(1000);
    assert!(flow_done(&mut doe));
    doe.poll(1000);
    assert_eq!(control(&mut doe), 0x20);
}

#[test]
fn completed_command_does_not_run_again() {
    let (mut clock, mut doe) = new_doe();
    write_iv(&clock, &mut doe, &IV);
    assert_eq!(clock.write(&mut doe, RvSize::Word, CONTROL, Control::command(Cmd::DeobfuscateUds, 2)), Ok(()));
    clock.increment_and_poll(1000, &mut doe);
    assert_eq!(doe.key_vault().read_key(2), slot_of(&PLAIN_TEXT[..48]));
    // With another initialization vector a second run would store another plain text.
    write_iv(&clock, &mut doe, &[0u8; 16]);
    clock.increment_and_poll(1000, &mut doe);
    clock.increment_and_poll(1, &mut doe);
    assert_eq!(doe.key_vault().read_key(2), slot_of(&PLAIN_TEXT[..48]));
    assert_eq!(control(&mut doe), 0x20);
}

#[test]
fn idle_command_while_another_is_under_way() {
    let (mut clock, mut doe) = new_doe();
    assert_eq!(clock.write(&mut doe, RvSize::Word, CONTROL, Control::command(Cmd::DeobfuscateUds, 1)), Ok(()));
    clock.increment_and_poll(400, &mut doe);
    assert_eq!(clock.write(&mut doe, RvSize::Word, CONTROL, Control::command(Cmd::Idle, 1)), Ok(()));
    clock.increment_and_poll(599, &mut doe);
    assert!(!flow_done(&mut doe));
    clock.increment_and_poll(1, &mut doe);
    assert_eq!(control(&mut doe), 0x20);
    for key_id in 0..8 {
        assert_eq!(doe.key_vault().read_key(key_id), [0u8; 64]);
    }
    assert_eq!(doe.soc_reg().uds(), DEFAULT_UDS);
    assert_eq!(doe.soc_reg().doe_key(), DEFAULT_DOE_KEY);
    assert_eq!(doe.soc_reg().field_entropy(), [0xffu8; 128]);
}

#[test]
fn idle_command_alone_starts_nothing() {
    let (mut clock, mut doe) = new_doe();
    let idle = Control::command(Cmd::Idle, 6);
    assert_eq!(clock.write(&mut doe, RvSize::Word, CONTROL, idle), Ok(()));
    for _ in 0..3 {
        clock.increment_and_poll(1000, &mut doe);
        assert_eq!(control(&mut doe), idle);
    }
    assert_eq!(doe.key_vault().read_key(6), [0u8; 64]);
    assert_eq!(doe.soc_reg().uds(), DEFAULT_UDS);
}

#[test]
fn idle_command_keeps_the_flag_that_was_written() {
    let (mut clock, mut doe) = new_doe();
    assert_eq!(clock.write(&mut doe, RvSize::Word, CONTROL, 0x20), Ok(()));
    assert!(flow_done(&mut doe));
    clock.increment_and_poll(1000, &mut doe);
    assert_eq!(control(&mut doe), 0x20);
}

#[test]
fn second_command_takes_the_place_of_the_first() {
    let (mut clock, mut doe) = new_doe();
    assert_eq!(clock.write(&mut doe, RvSize::Word, CONTROL, Control::command(Cmd::ClearSecrets, 0)), Ok(()));
    clock.increment_and_poll(999, &mut doe);
    assert_eq!(clock.write(&mut doe, RvSize::Word, CONTROL, Control::command(Cmd::DeobfuscateUds, 4)), Ok(()));
    clock.increment_and_poll(999, &mut doe);
    assert!(!flow_done(&mut doe));
    assert_eq!(doe.soc_reg().uds(), DEFAULT_UDS);
    assert_eq!(doe.key_vault().read_key(4), [0u8; 64]);
    clock.increment_and_poll(1, &mut doe);
    assert!(flow_done(&mut doe));
    // The secrets were never cleared, and the first block was decrypted with a zero vector.
    assert_eq!(doe.soc_reg().uds(), DEFAULT_UDS);
    let mut expected = slot_of(&PLAIN_TEXT[..48]);
    for i in 0..16 {
        expected[i] ^= IV[i];
    }
    assert_eq!(doe.key_vault().read_key(4), expected);
}

#[test]
fn initialization_vector_is_read_when_the_command_completes() {
    let (mut clock, mut doe) = new_doe();
    write_iv(&clock, &mut doe, &IV);
    assert_eq!(clock.write(&mut doe, RvSize::Word, CONTROL, Control::command(Cmd::DeobfuscateUds, 2)), Ok(()));
    clock.increment_and_poll(500, &mut doe);
    assert_eq!(clock.write(&mut doe, RvSize::Word, 4, 0), Ok(()));
    clock.increment_and_poll(500, &mut doe);
    assert!(flow_done(&mut doe));
    let mut expected = slot_of(&PLAIN_TEXT[..48]);
    for i in 4..8 {
        expected[i] ^= IV[i];
    }
    assert_eq!(doe.key_vault().read_key(2), expected);
}

#[test]
fn unique_device_secret_goes_to_one_slot_with_zeros_behind() {
    for dest in 0..8u32 {
        let (mut clock, mut doe) = new_doe();
        write_iv(&clock, &mut doe, &IV);
        assert_eq!(
            clock.write(&mut doe, RvSize::Word, CONTROL, Control::command(Cmd::DeobfuscateUds, dest)),
            Ok(())
        );
        clock.increment_and_poll(1000, &mut doe);
        for key_id in 0..8 {
            let key = doe.key_vault().read_key(key_id);
            if key_id == dest {
                assert_eq!(key[..48], PLAIN_TEXT[..48]);
                assert_eq!(key[48..], [0u8; 16]);
            } else {
                assert_eq!(key, [0u8; 64]);
            }
        }
        assert_eq!(doe.soc_reg().uds(), DEFAULT_UDS);
        assert_eq!(doe.soc_reg().doe_key(), DEFAULT_DOE_KEY);
    }
}

#[test]
fn unique_device_secret_overwrites_the_whole_slot() {
    let (mut clock, mut doe) = new_doe();
    assert_eq!(clock.write(&mut doe, RvSize::Word, CONTROL, Control::command(Cmd::DeobfuscateFe, 5)), Ok(()));
    clock.increment_and_poll(1000, &mut doe);
    assert_eq!(doe.key_vault().read_key(5), PLAIN_TEXT_FE);
    write_iv(&clock, &mut doe, &IV);
    assert_eq!(clock.write(&mut doe, RvSize::Word, CONTROL, Control::command(Cmd::DeobfuscateUds, 5)), Ok(()));
    clock.increment_and_poll(1000, &mut doe);
    assert_eq!(doe.key_vault().read_key(5), slot_of(&PLAIN_TEXT[..48]));
}

#[test]
fn field_entropy_is_the_first_64_bytes() {
    let mut field_entropy = [0x5au8; 128];
    field_entropy[..64].copy_from_slice(&CIPHER_TEXT);
    let soc_reg = SocRegisters::with_secrets([0u8; 48], field_entropy, KEY);
    let mut clock = Clock::new();
    let mut doe = Doe::new(KeyVault::new(), soc_reg);
    write_iv(&clock, &mut doe, &IV);
    assert_eq!(clock.write(&mut doe, RvSize::Word, CONTROL, Control::command(Cmd::DeobfuscateFe, 7)), Ok(()));
    clock.increment_and_poll(1000, &mut doe);
    assert_eq!(doe.key_vault().read_key(7), PLAIN_TEXT);
    for key_id in 0..7 {
        assert_eq!(doe.key_vault().read_key(key_id), [0u8; 64]);
    }
    assert_eq!(doe.soc_reg().field_entropy(), field_entropy);
}

#[test]
fn unique_device_secret_of_given_secrets() {
    let mut uds = [0u8; 48];
    uds.copy_from_slice(&CIPHER_TEXT[16..]);
    let mut iv = [0u8; 16];
    iv.copy_from_slice(&CIPHER_TEXT[..16]);
    let soc_reg = SocRegisters::with_secrets(uds, [0u8; 128], KEY);
    let mut clock = Clock::new();
    let mut doe = Doe::new(KeyVault::new(), soc_reg);
    write_iv(&clock, &mut doe, &iv);
    assert_eq!(clock.write(&mut doe, RvSize::Word, CONTROL, Control::command(Cmd::DeobfuscateUds, 0)), Ok(()));
    clock.increment_and_poll(1000, &mut doe);
    assert_eq!(doe.key_vault().read_key(0), slot_of(&PLAIN_TEXT[16..]));
}

#[test]
fn clear_secrets_ignores_the_destination() {
    let (mut clock, mut doe) = new_doe();
    assert_eq!(clock.write(&mut doe, RvSize::Word, CONTROL, Control::command(Cmd::ClearSecrets, 5)), Ok(()));
    clock.increment_and_poll(1000, &mut doe);
    assert!(flow_done(&mut doe));
    for key_id in 0..8 {
        assert_eq!(doe.key_vault().read_key(key_id), [0u8; 64]);
    }
    assert_eq!(doe.soc_reg().uds(), [0u8; 48]);
    assert_eq!(doe.soc_reg().doe_key(), [0u8; 32]);
    assert_eq!(doe.soc_reg().field_entropy(), [0u8; 128]);
}

#[test]
fn clear_secrets_twice_in_a_row() {
    let soc_reg = SocRegisters::with_secrets([0x11u8; 48], [0x22u8; 128], [0x33u8; 32]);
    let mut clock = Clock::new();
    let mut doe = Doe::new(KeyVault::new(), soc_reg);
    for _ in 0..2 {
        assert_eq!(
            clock.write(&mut doe, RvSize::Word, CONTROL, Control::command(Cmd::ClearSecrets, 0)),
            Ok(())
        );
        assert!(!flow_done(&mut doe));
        clock.increment_and_poll(1000, &mut doe);
        assert!(flow_done(&mut doe));
        assert_eq!(doe.soc_reg().uds(), [0u8; 48]);
        assert_eq!(doe.soc_reg().doe_key(), [0u8; 32]);
        assert_eq!(doe.soc_reg().field_entropy(), [0u8; 128]);
    }
}

#[test]
fn initialization_vector_reads_back() {
    let (clock, mut doe) = new_doe();
    write_iv(&clock, &mut doe, &IV);
    assert_eq!(doe.iv(), &IV);
    assert_eq!(doe.read(RvSize::Word, 0x0), Ok(0x0302_0100));
    assert_eq!(doe.read(RvSize::Word, 0x4), Ok(0x0706_0504));
    assert_eq!(doe.read(RvSize::Word, 0x8), Ok(0x0b0a_0908));
    assert_eq!(doe.read(RvSize::Word, 0xc), Ok(0x0f0e_0d0c));
    assert_eq!(control(&mut doe), 0);
}

#[test]
fn initialization_vector_takes_aligned_words_only() {
    let (clock, mut doe) = new_doe();
    write_iv(&clock, &mut doe, &IV);
    for addr in 0..16u32 {
        for size in [RvSize::Byte, RvSize::HalfWord, RvSize::Invalid] {
            assert_eq!(clock.write(&mut doe, size, addr, 0xffff_ffff), Err(BusError::StoreAddrMisaligned));
            assert_eq!(doe.read(size, addr), Err(BusError::LoadAddrMisaligned));
        }
        if addr % 4 != 0 {
            assert_eq!(
                clock.write(&mut doe, RvSize::Word, addr, 0xffff_ffff),
                Err(BusError::StoreAddrMisaligned)
            );
            assert_eq!(doe.read(RvSize::Word, addr), Err(BusError::LoadAddrMisaligned));
        }
    }
    assert_eq!(doe.iv(), &IV);
    assert_eq!(control(&mut doe), 0);
}

#[test]
fn control_register_is_one_word_at_0x10() {
    let (clock, mut doe) = new_doe();
    assert_eq!(clock.write(&mut doe, RvSize::Word, CONTROL, 0x4), Ok(()));
    for addr in [0x11u32, 0x12, 0x13] {
        assert_eq!(clock.write(&mut doe, RvSize::Word, addr, 0x3), Err(BusError::StoreAddrMisaligned));
        assert_eq!(doe.read(RvSize::Word, addr), Err(BusError::LoadAddrMisaligned));
        assert_eq!(clock.write(&mut doe, RvSize::Byte, addr, 0x3), Err(BusError::StoreAccessFault));
        assert_eq!(doe.read(RvSize::Byte, addr), Err(BusError::LoadAccessFault));
        assert_eq!(clock.write(&mut doe, RvSize::Invalid, addr, 0x3), Err(BusError::StoreAccessFault));
        assert_eq!(doe.read(RvSize::Invalid, addr), Err(BusError::LoadAccessFault));
    }
    assert_eq!(clock.write(&mut doe, RvSize::HalfWord, 0x11, 0x3), Err(BusError::StoreAddrMisaligned));
    assert_eq!(doe.read(RvSize::HalfWord, 0x13), Err(BusError::LoadAddrMisaligned));
    assert_eq!(clock.write(&mut doe, RvSize::HalfWord, 0x12, 0x3), Err(BusError::StoreAccessFault));
    assert_eq!(doe.read(RvSize::HalfWord, 0x12), Err(BusError::LoadAccessFault));
    for size in [RvSize::Byte, RvSize::HalfWord, RvSize::Invalid] {
        assert_eq!(doe.read(size, CONTROL), Err(BusError::LoadAccessFault));
    }
    assert_eq!(doe.read(RvSize::Word, CONTROL), Ok(0x4));
}

#[test]
fn addresses_beyond_the_control_register_are_unowned() {
    let (clock, mut doe) = new_doe();
    for addr in [0x14u32, 0x15, 0x18, 0x20, 0x100, 0x8000_0000, 0xffff_fffc, 0xffff_ffff] {
        for size in [RvSize::Byte, RvSize::HalfWord, RvSize::Word, RvSize::Invalid] {
            assert_eq!(clock.write(&mut doe, size, addr, 0x3), Err(BusError::StoreAccessFault));
            assert_eq!(doe.read(size, addr), Err(BusError::LoadAccessFault));
        }
    }
    assert_eq!(control(&mut doe), 0);
    assert_eq!(doe.iv(), &[0u8; 16]);
}

#[test]
fn write_to_the_initialization_vector_changes_that_word_only() {
    let (mut clock, mut doe) = new_doe();
    write_iv(&clock, &mut doe, &IV);
    assert_eq!(clock.write(&mut doe, RvSize::Word, CONTROL, Control::command(Cmd::Idle, 3)), Ok(()));
    assert_eq!(clock.write(&mut doe, RvSize::Word, 0x8, 0xa1b2_c3d4), Ok(()));
    let mut expected = IV;
    expected[8..12].copy_from_slice(&[0xd4, 0xc3, 0xb2, 0xa1]);
    assert_eq!(doe.iv(), &expected);
    assert_eq!(control(&mut doe), Control::command(Cmd::Idle, 3));
    clock.increment_and_poll(2000, &mut doe);
    assert_eq!(control(&mut doe), Control::command(Cmd::Idle, 3));
}

#[test]
fn upper_bits_of_the_control_value_are_kept_until_completion() {
    let (mut clock, mut doe) = new_doe();
    assert_eq!(clock.write(&mut doe, RvSize::Word, CONTROL, 0xffff_ffff), Ok(()));
    assert_eq!(control(&mut doe), 0xffff_ffdf);
    clock.increment_and_poll(1000, &mut doe);
    assert_eq!(control(&mut doe), 0x20);
    assert_eq!(doe.soc_reg().uds(), [0u8; 48]);
}

#[test]
fn key_vault_can_be_written_from_outside() {
    let (mut clock, mut doe) = new_doe();
    doe.key_vault_mut().write_key(2, &[0xeeu8; 64]);
    doe.key_vault_mut().write_key(3, &[0xddu8; 64]);
    assert_eq!(control(&mut doe), 0);
    write_iv(&clock, &mut doe, &IV);
    assert_eq!(clock.write(&mut doe, RvSize::Word, CONTROL, Control::command(Cmd::DeobfuscateUds, 2)), Ok(()));
    clock.increment_and_poll(1000, &mut doe);
    assert_eq!(doe.key_vault().read_key(2), slot_of(&PLAIN_TEXT[..48]));
    assert_eq!(doe.key_vault().read_key(3), [0xddu8; 64]);
}

#[test]
fn secrets_can_be_cleared_from_outside() {
    let (mut clock, mut doe) = new_doe();
    assert_eq!(clock.write(&mut doe, RvSize::Word, CONTROL, Control::command(Cmd::DeobfuscateFe, 1)), Ok(()));
    doe.soc_reg_mut().clear_secrets();
    assert_eq!(control(&mut doe), Control::command(Cmd::DeobfuscateFe, 1));
    assert_eq!(doe.soc_reg().field_entropy(), [0u8; 128]);
    clock.increment_and_poll(1000, &mut doe);
    assert!(flow_done(&mut doe));
    // What is stored is the plain text of zero bytes under a zero key, not that of the defaults.
    assert_ne!(doe.key_vault().read_key(1), PLAIN_TEXT_FE);
    let key = doe.key_vault().read_key(1);
    assert_eq!(key[16..32], key[..16]);
    assert_eq!(key[32..48], key[..16]);
    assert_eq!(key[48..], key[..16]);
}

#[test]
fn one_clock_polls_every_engine_of_a_list() {
    let mut clock = Clock::new();
    let mut engines = vec![
        Doe::new(KeyVault::new(), SocRegisters::new()),
        Doe::new(KeyVault::new(), SocRegisters::new()),
        Doe::new(KeyVault::new(), SocRegisters::new()),
    ];
    assert_eq!(
        clock.write(&mut engines[0], RvSize::Word, CONTROL, Control::command(Cmd::ClearSecrets, 0)),
        Ok(())
    );
    clock.increment_and_poll_all(400, &mut engines);
    assert_eq!(
        clock.write(&mut engines[2], RvSize::Word, CONTROL, Control::command(Cmd::DeobfuscateFe, 1)),
        Ok(())
    );
    clock.increment_and_poll_all(599, &mut engines);
    assert_eq!(clock.now(), 999);
    assert!(!flow_done(&mut engines[0]));
    assert!(!flow_done(&mut engines[1]));
    assert!(!flow_done(&mut engines[2]));
    clock.increment_and_poll_all(1, &mut engines);
    assert_eq!(control(&mut engines[0]), 0x20);
    assert_eq!(control(&mut engines[1]), 0);
    assert!(!flow_done(&mut engines[2]));
    assert_eq!(engines[0].soc_reg().uds(), [0u8; 48]);
    assert_eq!(engines[1].soc_reg().uds(), DEFAULT_UDS);
    clock.increment_and_poll_all(399, &mut engines);
    assert!(!flow_done(&mut engines[2]));
    clock.increment_and_poll_all(1, &mut engines);
    assert_eq!(control(&mut engines[2]), 0x20);
    assert_eq!(engines[2].key_vault().read_key(1), PLAIN_TEXT_FE);
    assert_eq!(engines.len(), 3);
    let mut none: Vec<Doe> = Vec::new();
    clock.increment_and_poll_all(5, &mut none);
    assert_eq!(clock.now(), 1405);
}
