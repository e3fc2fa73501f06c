use dac_timer::irq::QUADSPI;
use dac_timer::mydac::{
    data_register, Ch1, Ch2, DACInstance, DACState, Dac, DacAlign, DacHW, DacTrigger, LockType,
    STATUStype, OUTPUT_BUF,
};
use dac_timer::registers::{
    clear_bit, set_bit, DacRegister, DacRegisters, RccRegisters, RegisterWrite,
};

fn fresh_ch1() -> Dac<Ch1> {
    let mut rcc = RccRegisters { apb1enr: 0, ahb1enr: 0 };
    Dac::new(DacRegisters::reset(), &mut rcc, Ch1)
}

fn fresh_ch2() -> Dac<Ch2> {
    let mut rcc = RccRegisters { apb1enr: 0, ahb1enr: 0 };
    Dac::new(DacRegisters::reset(), &mut rcc, Ch2)
}

#[test]
fn new_enables_both_clocks_and_keeps_other_bits() {
    let mut rcc = RccRegisters { apb1enr: 0x0000_0102, ahb1enr: 0x8000_0010 };
    let dac: Dac<Ch1> = Dac::new(DacRegisters::reset(), &mut rcc, Ch1);
    assert_eq!(rcc.apb1enr, 0x2000_0102);
    assert_eq!(rcc.ahb1enr, 0x8000_0011);
    assert_eq!(dac.channel(), 0);
    assert_eq!(dac.state(), DACState::Reset);
    assert_eq!(dac.lock_state(), LockType::UNLOCKED);
    assert_eq!(dac.trigger(), DacTrigger::NoTrigger);
    assert_eq!(dac.align(), DacAlign::DacAlign12bR);
    assert_eq!(dac.buffer_mode(), OUTPUT_BUF::Disabled);
    assert_eq!(dac.registers(), DacRegisters::reset());
}

#[test]
fn new_with_clocks_already_on_changes_nothing() {
    let mut rcc = RccRegisters { apb1enr: 0x2000_0000, ahb1enr: 0x0000_0001 };
    let mut dac: Dac<Ch2> = Dac::new(DacRegisters::reset(), &mut rcc, Ch2);
    assert_eq!(rcc, RccRegisters { apb1enr: 0x2000_0000, ahb1enr: 0x0000_0001 });
    assert!(dac.take_writes().is_empty());
}

#[test]
fn pin_roles_carry_their_constants() {
    assert_eq!(Ch1::channel(), 1);
    assert_eq!(Ch1::en_bit(), 0);
    assert_eq!(Ch1::swtrig_bit(), 0);
    assert_eq!(Ch2::channel(), 2);
    assert_eq!(Ch2::en_bit(), 16);
    assert_eq!(Ch2::swtrig_bit(), 1);
}

#[test]
fn write_before_start_is_an_error_and_writes_nothing() {
    let mut dac = fresh_ch1();
    assert_eq!(dac.write(0x0123), STATUStype::HAL_ERROR);
    assert_eq!(dac.registers(), DacRegisters::reset());
    assert_eq!(dac.take_writes().len(), 0);
}

#[test]
fn write_on_unknown_channel_is_an_error_and_writes_nothing() {
    let mut dac = fresh_ch1();
    assert_eq!(dac.start(3), STATUStype::HAL_OK);
    let before = dac.registers();
    dac.take_writes();
    assert_eq!(dac.write(0x0fff), STATUStype::HAL_ERROR);
    assert_eq!(dac.write(0xffff), STATUStype::HAL_ERROR);
    assert_eq!(dac.registers(), before);
    assert_eq!(dac.take_writes().len(), 0);
}

fn written_to(ch: u8, align: DacAlign, value: u16) -> (DacRegisters, Vec<RegisterWrite>) {
    let mut dac = fresh_ch1();
    dac.start(ch);
    dac.set_align(align);
    dac.take_writes();
    assert_eq!(dac.write(value), STATUStype::HAL_OK);
    (dac.registers(), dac.take_writes())
}

fn started_image() -> DacRegisters {
    let mut regs = DacRegisters::reset();
    regs.cr = 1;
    regs.swtrigr = 1;
    regs
}

#[test]
fn write_channel_1_right_aligned_12_bits() {
    let (regs, writes) = written_to(1, DacAlign::DacAlign12bR, 0x0abc);
    let mut expected = started_image();
    expected.dhr12r1 = 0x0abc;
    assert_eq!(regs, expected);
    assert_eq!(writes, vec![RegisterWrite { reg: DacRegister::Dhr12r1, bits: 0x0abc }]);
}

#[test]
fn write_channel_1_left_aligned_12_bits() {
    let (regs, writes) = written_to(1, DacAlign::DacAlign12bL, 0x0abc);
    let mut expected = started_image();
    expected.dhr12l1 = 0xabc0;
    assert_eq!(regs, expected);
    assert_eq!(writes, vec![RegisterWrite { reg: DacRegister::Dhr12l1, bits: 0xabc0 }]);
}

#[test]
fn write_channel_1_right_aligned_8_bits() {
    let (regs, writes) = written_to(1, DacAlign::DacAlign8bR, 0xfe);
    let mut expected = started_image();
    expected.dhr8r1 = 0xfe;
    assert_eq!(regs, expected);
    assert_eq!(writes, vec![RegisterWrite { reg: DacRegister::Dhr8r1, bits: 0xfe }]);
}

#[test]
fn write_channel_2_right_aligned_12_bits() {
    let (regs, writes) = written_to(2, DacAlign::DacAlign12bR, 0x0fff);
    let mut expected = started_image();
    expected.dhr12r2 = 0x0fff;
    assert_eq!(regs, expected);
    assert_eq!(writes, vec![RegisterWrite { reg: DacRegister::Dhr12r2, bits: 0x0fff }]);
}

#[test]
fn write_channel_2_left_aligned_12_bits() {
    let (regs, writes) = written_to(2, DacAlign::DacAlign12bL, 0x0fff);
    let mut expected = started_image();
    expected.dhr12l2 = 0xfff0;
    assert_eq!(regs, expected);
    assert_eq!(writes, vec![RegisterWrite { reg: DacRegister::Dhr12l2, bits: 0xfff0 }]);
}

#[test]
fn write_channel_2_right_aligned_8_bits() {
    let (regs, writes) = written_to(2, DacAlign::DacAlign8bR, 0);
    assert_eq!(regs, started_image());
    assert_eq!(writes, vec![RegisterWrite { reg: DacRegister::Dhr8r2, bits: 0 }]);
}

#[test]
fn write_replaces_the_word_of_one_register_only() {
    let mut image = DacRegisters::reset();
    image.dhr12r1 = 0x0111;
    image.dhr12r2 = 0x0222;
    image.dhr12l1 = 0x3330;
    let mut rcc = RccRegisters { apb1enr: 0, ahb1enr: 0 };
    let mut dac: Dac<Ch2> = Dac::new(image, &mut rcc, Ch2);
    dac.start(2);
    assert_eq!(dac.write(0x0444), STATUStype::HAL_OK);
    let regs = dac.registers();
    assert_eq!(regs.dhr12r2, 0x0444);
    assert_eq!(regs.dhr12r1, 0x0111);
    assert_eq!(regs.dhr12l1, 0x3330);
    assert_eq!(regs.dhr12l2, 0);
}

#[test]
fn data_register_routes_six_ways_and_rejects_the_rest() {
    assert_eq!(data_register(1, DacAlign::DacAlign12bR), Some(DacRegister::Dhr12r1));
    assert_eq!(data_register(1, DacAlign::DacAlign12bL), Some(DacRegister::Dhr12l1));
    assert_eq!(data_register(1, DacAlign::DacAlign8bR), Some(DacRegister::Dhr8r1));
    assert_eq!(data_register(2, DacAlign::DacAlign12bR), Some(DacRegister::Dhr12r2));
    assert_eq!(data_register(2, DacAlign::DacAlign12bL), Some(DacRegister::Dhr12l2));
    assert_eq!(data_register(2, DacAlign::DacAlign8bR), Some(DacRegister::Dhr8r2));
    assert_eq!(data_register(0, DacAlign::DacAlign12bR), None);
    assert_eq!(data_register(3, DacAlign::DacAlign8bR), None);
    assert_eq!(data_register(255, DacAlign::DacAlign12bL), None);
}

#[test]
fn alignment_widths_and_encoding() {
    assert_eq!(DacAlign::DacAlign12bR.max_value(), 0x0fff);
    assert_eq!(DacAlign::DacAlign12bL.max_value(), 0x0fff);
    assert_eq!(DacAlign::DacAlign8bR.max_value(), 0x00ff);
    assert_eq!(DacAlign::DacAlign12bR.encode(0x0fff), 0x0fff);
    assert_eq!(DacAlign::DacAlign12bL.encode(0x0001), 0x0010);
    assert_eq!(DacAlign::DacAlign12bL.encode(0x0fff), 0xfff0);
    assert_eq!(DacAlign::DacAlign8bR.encode(0x00ff), 0x00ff);
}

#[test]
fn lock_twice_is_ok_then_busy_and_unlock_frees() {
    let mut dac = fresh_ch1();
    assert_eq!(dac.lock(), STATUStype::HAL_OK);
    assert_eq!(dac.lock(), STATUStype::HAL_BUSY);
    assert_eq!(dac.lock_state(), LockType::LOCKED);
    assert_eq!(dac.unlock(), STATUStype::HAL_OK);
    assert_eq!(dac.lock_state(), LockType::UNLOCKED);
    assert_eq!(dac.lock(), STATUStype::HAL_OK);
}

#[test]
fn unlock_of_a_free_lock_is_ok() {
    let mut dac = fresh_ch2();
    assert_eq!(dac.unlock(), STATUStype::HAL_OK);
    assert_eq!(dac.lock_state(), LockType::UNLOCKED);
}

#[test]
fn start_on_channel_1_enables_triggers_and_allows_writes() {
    let mut dac = fresh_ch1();
    assert_eq!(dac.start(1), STATUStype::HAL_OK);
    assert_eq!(dac.channel(), 1);
    assert_eq!(dac.state(), DACState::Ready);
    assert_eq!(dac.lock_state(), LockType::UNLOCKED);
    assert_eq!(dac.registers().cr & 1, 1);
    assert_eq!(dac.registers().swtrigr, 1);
    assert_eq!(
        dac.take_writes(),
        vec![
            RegisterWrite { reg: DacRegister::Cr, bits: 1 },
            RegisterWrite { reg: DacRegister::Swtrigr, bits: 1 },
        ]
    );
    assert_eq!(dac.write(100), STATUStype::HAL_OK);
    assert_eq!(dac.registers().dhr12r1, 100);
}

#[test]
fn start_on_channel_2_uses_the_second_channel_bits() {
    let mut dac = fresh_ch2();
    assert_eq!(dac.start(2), STATUStype::HAL_OK);
    assert_eq!(dac.registers().cr, 0x0001_0000);
    assert_eq!(dac.registers().swtrigr, 2);
    assert_eq!(dac.write(0x0800), STATUStype::HAL_OK);
    assert_eq!(dac.registers().dhr12r2, 0x0800);
    assert_eq!(dac.registers().dhr12r1, 0);
}

#[test]
fn start_proceeds_when_locked_and_leaves_the_lock_free() {
    let mut dac = fresh_ch1();
    assert_eq!(dac.lock(), STATUStype::HAL_OK);
    assert_eq!(dac.start(1), STATUStype::HAL_OK);
    assert_eq!(dac.lock_state(), LockType::UNLOCKED);
    assert_eq!(dac.state(), DACState::Ready);
    assert_eq!(dac.registers().cr, 1);
}

#[test]
fn enable_and_disable_touch_one_bit() {
    let mut image = DacRegisters::reset();
    image.cr = 0x0004_1002;
    let mut rcc = RccRegisters { apb1enr: 0, ahb1enr: 0 };
    let mut dac: Dac<Ch2> = Dac::new(image, &mut rcc, Ch2);
    assert_eq!(dac.enable(), STATUStype::HAL_OK);
    assert_eq!(dac.registers().cr, 0x0005_1002);
    assert_eq!(dac.disable(), STATUStype::HAL_OK);
    assert_eq!(dac.registers().cr, 0x0004_1002);
    assert_eq!(
        dac.take_writes(),
        vec![
            RegisterWrite { reg: DacRegister::Cr, bits: 0x0005_1002 },
            RegisterWrite { reg: DacRegister::Cr, bits: 0x0004_1002 },
        ]
    );
}

#[test]
fn disable_on_channel_1_clears_bit_zero() {
    let mut image = DacRegisters::reset();
    image.cr = 0x0001_0001;
    let mut rcc = RccRegisters { apb1enr: 0, ahb1enr: 0 };
    let mut dac: Dac<Ch1> = Dac::new(image, &mut rcc, Ch1);
    assert_eq!(dac.disable(), STATUStype::HAL_OK);
    assert_eq!(dac.registers().cr, 0x0001_0000);
}

#[test]
fn trigger_and_buffer_are_recorded_without_register_writes() {
    let mut dac = fresh_ch1();
    assert_eq!(dac.set_trigger(DacTrigger::Software), STATUStype::HAL_OK);
    assert_eq!(dac.buffer(OUTPUT_BUF::Enabled), STATUStype::HAL_OK);
    assert_eq!(dac.set_align(DacAlign::DacAlign8bR), STATUStype::HAL_OK);
    assert_eq!(dac.trigger(), DacTrigger::Software);
    assert_eq!(dac.buffer_mode(), OUTPUT_BUF::Enabled);
    assert_eq!(dac.align(), DacAlign::DacAlign8bR);
    assert_eq!(dac.registers(), DacRegisters::reset());
    assert!(dac.take_writes().is_empty());
}

#[test]
fn logged_writes_rebuild_the_image_on_a_sink() {
    let mut image = DacRegisters::reset();
    image.cr = 0x0000_0400;
    let mut sink = image;
    let mut rcc = RccRegisters { apb1enr: 0, ahb1enr: 0 };
    let mut dac: Dac<Ch2> = Dac::new(image, &mut rcc, Ch2);
    dac.start(2);
    dac.write(0x0123);
    dac.set_align(DacAlign::DacAlign12bL);
    dac.write(0x0456);
    dac.start(1);
    dac.write(0x0789);
    dac.disable();
    let writes = dac.take_writes();
    assert_eq!(writes.len(), 8);
    sink.apply_all(&writes);
    assert_eq!(sink, dac.registers());
    assert_eq!(sink.dhr12r2, 0x0123);
    assert_eq!(sink.dhr12l2, 0x4560);
    assert_eq!(sink.dhr12l1, 0x7890);
    assert_eq!(sink.cr, 0x0000_0400);
    assert!(dac.take_writes().is_empty());
}

#[test]
fn register_image_reads_back_what_was_stored() {
    let mut regs = DacRegisters::reset();
    regs.store(RegisterWrite { reg: DacRegister::Dhr8r2, bits: 0x7f });
    assert_eq!(regs.read(DacRegister::Dhr8r2), 0x7f);
    assert_eq!(regs.read(DacRegister::Dhr8r1), 0);
    assert_eq!(regs.dhr8r2, 0x7f);
}

#[test]
fn bit_helpers_set_and_clear_one_bit() {
    assert_eq!(set_bit(0, 29), 0x2000_0000);
    assert_eq!(set_bit(0x2000_0000, 29), 0x2000_0000);
    assert_eq!(set_bit(0x8000_0000, 0), 0x8000_0001);
    assert_eq!(clear_bit(0xffff_ffff, 16), 0xfffe_ffff);
    assert_eq!(clear_bit(0, 31), 0);
}

#[test]
fn interrupt_handler_returns() {
    QUADSPI();
}
