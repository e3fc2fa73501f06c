//! The converter driver: its channel markers, its state and its operations.

use crate::registers::{
    bit_is_set, clear_bit, lemma_replay_push, lemma_set_bit, set_bit, with_bit_cleared, with_bit_set, DacRegister,
    DacRegisters, RccRegisters, RegisterWrite, DACEN_BIT, GPIOAEN_BIT,
};
use vstd::prelude::*;

verus! {

/// Marker of the pin role that drives channel 1.
pub struct Ch1;

/// Marker of the pin role that drives channel 2.
pub struct Ch2;

/// Lifecycle state of the driver.
#[derive(Copy, Clone, Debug, PartialEq, Eq, Structural)]
pub enum DACState {
    /// Not yet started.
    Reset,
    /// Started and ready for use.
    Ready,
    /// A start sequence is under way.
    Busy,
    /// Reserved for a timed-out start; no operation produces it.
    Timeout,
    /// Reserved for a failed start; no operation produces it.
    Error,
}

/// The re-entrancy guard of the driver.
#[derive(Copy, Clone, Debug, PartialEq, Eq, Structural)]
pub enum LockType {
    UNLOCKED,
    LOCKED,
}

/// How a value is packed into the data register.
#[derive(Copy, Clone, Debug, PartialEq, Eq, Structural)]
pub enum DacAlign {
    /// 12 bits, right-aligned.
    DacAlign12bR,
    /// 12 bits, left-aligned.
    DacAlign12bL,
    /// 8 bits, right-aligned.
    DacAlign8bR,
}

/// Outcome of a driver operation.
#[allow(non_camel_case_types)]
#[derive(Copy, Clone, Debug, PartialEq, Eq, Structural)]
pub enum STATUStype {
    HAL_OK,
    HAL_ERROR,
    HAL_BUSY,
    HAL_TIMEOUT,
}

/// Event that makes the converter latch a new value.
#[derive(Copy, Clone, Debug, PartialEq, Eq, Structural)]
pub enum DacTrigger {
    /// No trigger: a written value is latched at once.
    NoTrigger,
    Timer2,
    Timer4,
    Timer5,
    Timer6,
    Timer7,
    Timer8,
    ExtTrig,
    Software,
}

/// Whether the output buffer is in use.
#[allow(non_camel_case_types)]
#[derive(Copy, Clone, Debug, PartialEq, Eq, Structural)]
pub enum OUTPUT_BUF {
    Disabled,
    Enabled,
}

impl DacAlign {
    /// Largest value that fits the alignment's width.
    pub open spec fn max_value_spec(self) -> u16 {
        match self {
            DacAlign::DacAlign12bR => 0x0fff,
            DacAlign::DacAlign12bL => 0x0fff,
            DacAlign::DacAlign8bR => 0x00ff,
        }
    }

    /// The register word for `value`: the value itself, moved four bits up
    /// where the alignment is to the left.
    pub open spec fn encode_spec(self, value: u16) -> u32 {
        match self {
            DacAlign::DacAlign12bR => value as u32,
            DacAlign::DacAlign12bL => (value as u32) << 4u32,
            DacAlign::DacAlign8bR => value as u32,
        }
    }

    pub fn max_value(self) -> (max: u16)
        ensures
            max == self.max_value_spec(),
    {
        match self {
            DacAlign::DacAlign12bR => 0x0fff,
            DacAlign::DacAlign12bL => 0x0fff,
            DacAlign::DacAlign8bR => 0x00ff,
        }
    }

    pub fn encode(self, value: u16) -> (bits: u32)
        ensures
            bits == self.encode_spec(value),
    {
        let word: u32 = value as u32;
        match self {
            DacAlign::DacAlign12bR => word,
            DacAlign::DacAlign12bL => word << 4u32,
            DacAlign::DacAlign8bR => word,
        }
    }
}

/// The data register that a write on channel `ch` with alignment `align`
/// goes to; none for a channel other than 1 and 2.
pub open spec fn data_register_spec(ch: u8, align: DacAlign) -> Option<DacRegister> {
    if ch == 1 {
        Some(
            match align {
                DacAlign::DacAlign12bR => DacRegister::Dhr12r1,
                DacAlign::DacAlign12bL => DacRegister::Dhr12l1,
                DacAlign::DacAlign8bR => DacRegister::Dhr8r1,
            },
        )
    } else if ch == 2 {
        Some(
            match align {
                DacAlign::DacAlign12bR => DacRegister::Dhr12r2,
                DacAlign::DacAlign12bL => DacRegister::Dhr12l2,
                DacAlign::DacAlign8bR => DacRegister::Dhr8r2,
            },
        )
    } else {
        None
    }
}

pub fn data_register(ch: u8, align: DacAlign) -> (target: Option<DacRegister>)
    ensures
        target == data_register_spec(ch, align),
{
    if ch == 1 {
        Some(
            match align {
                DacAlign::DacAlign12bR => DacRegister::Dhr12r1,
                DacAlign::DacAlign12bL => DacRegister::Dhr12l1,
                DacAlign::DacAlign8bR => DacRegister::Dhr8r1,
            },
        )
    } else if ch == 2 {
        Some(
            match align {
                DacAlign::DacAlign12bR => DacRegister::Dhr12r2,
                DacAlign::DacAlign12bL => DacRegister::Dhr12l2,
                DacAlign::DacAlign8bR => DacRegister::Dhr8r2,
            },
        )
    } else {
        None
    }
}

/// What a pin role fixes: the channel it drives and where that channel's bits
/// sit in the control and software-trigger registers.
pub trait DACInstance {
    spec fn channel_spec() -> u8;

    spec fn en_bit_spec() -> u32;

    spec fn swtrig_bit_spec() -> u32;

    /// Both bit positions lie within a register word.
    proof fn lemma_bits_in_word()
        ensures
            Self::en_bit_spec() < 32,
            Self::swtrig_bit_spec() < 32,
    ;

    /// Number of the channel.
    fn channel() -> (ch: u8)
        ensures
            ch == Self::channel_spec(),
    ;

    /// Position of the channel's enable bit in the control register.
    fn en_bit() -> (bit: u32)
        ensures
            bit == Self::en_bit_spec(),
            bit < 32,
    ;

    /// Position of the channel's bit in the software-trigger register.
    fn swtrig_bit() -> (bit: u32)
        ensures
            bit == Self::swtrig_bit_spec(),
            bit < 32,
    ;
}

impl DACInstance for Ch1 {
    open spec fn channel_spec() -> u8 {
        1
    }

    open spec fn en_bit_spec() -> u32 {
        0
    }

    open spec fn swtrig_bit_spec() -> u32 {
        0
    }

    proof fn lemma_bits_in_word() {
    }

    fn channel() -> (ch: u8) {
        1
    }

    fn en_bit() -> (bit: u32) {
        0
    }

    fn swtrig_bit() -> (bit: u32) {
        0
    }
}

impl DACInstance for Ch2 {
    open spec fn channel_spec() -> u8 {
        2
    }

    open spec fn en_bit_spec() -> u32 {
        16
    }

    open spec fn swtrig_bit_spec() -> u32 {
        1
    }

    proof fn lemma_bits_in_word() {
    }

    fn channel() -> (ch: u8) {
        2
    }

    fn en_bit() -> (bit: u32) {
        16
    }

    fn swtrig_bit() -> (bit: u32) {
        1
    }
}

/// What a driver is: the register image, the writes decided on and not yet
/// collected, and the recorded configuration.
pub ghost struct DacView {
    pub regs: DacRegisters,
    pub writes: Seq<RegisterWrite>,
    pub ch: u8,
    pub state: DACState,
    pub locked: LockType,
    pub trigger: DacTrigger,
    pub align: DacAlign,
    pub buffer: OUTPUT_BUF,
}

impl DacView {
    /// A driver fresh from construction over the registers `regs`.
    pub open spec fn initial(regs: DacRegisters) -> DacView {
        DacView {
            regs,
            writes: Seq::empty(),
            ch: 0,
            state: DACState::Reset,
            locked: LockType::UNLOCKED,
            trigger: DacTrigger::NoTrigger,
            align: DacAlign::DacAlign12bR,
            buffer: OUTPUT_BUF::Disabled,
        }
    }

    /// The driver after one register write: the image holds the word and the
    /// write is last in the log.
    pub open spec fn stored(self, reg: DacRegister, bits: u32) -> DacView {
        DacView {
            regs: self.regs.with(reg, bits),
            writes: self.writes.push(RegisterWrite { reg, bits }),
            ..self
        }
    }

    pub open spec fn enabled(self, en_bit: u32) -> DacView {
        self.stored(DacRegister::Cr, with_bit_set(self.regs.cr, en_bit))
    }

    pub open spec fn disabled(self, en_bit: u32) -> DacView {
        self.stored(DacRegister::Cr, with_bit_cleared(self.regs.cr, en_bit))
    }

    /// The driver after a start on channel `ch`: enabled, triggered once by
    /// software, ready and unlocked, whatever the lock was before.
    pub open spec fn started(self, ch: u8, en_bit: u32, swtrig_bit: u32) -> DacView {
        DacView {
            ch,
            state: DACState::Ready,
            locked: LockType::UNLOCKED,
            ..self.enabled(en_bit).stored(DacRegister::Swtrigr, 1u32 << swtrig_bit)
        }
    }

    /// Whether `value` may be written: on channel 1 or 2 it has to fit the
    /// width of the alignment.
    pub open spec fn accepts(self, value: u16) -> bool {
        (self.ch == 1 || self.ch == 2) ==> value <= self.align.max_value_spec()
    }

    pub open spec fn write_status(self) -> STATUStype {
        if self.ch == 1 || self.ch == 2 {
            STATUStype::HAL_OK
        } else {
            STATUStype::HAL_ERROR
        }
    }

    /// The driver after a write of `value`: one register write to the data
    /// register of the active channel and alignment, or no change where the
    /// channel is neither 1 nor 2.
    pub open spec fn written(self, value: u16) -> DacView {
        match data_register_spec(self.ch, self.align) {
            Some(reg) => self.stored(reg, self.align.encode_spec(value)),
            None => self,
        }
    }

    pub open spec fn lock_status(self) -> STATUStype {
        if self.locked == LockType::LOCKED {
            STATUStype::HAL_BUSY
        } else {
            STATUStype::HAL_OK
        }
    }

    pub open spec fn with_lock(self, locked: LockType) -> DacView {
        DacView { locked, ..self }
    }

    pub open spec fn with_trigger(self, trigger: DacTrigger) -> DacView {
        DacView { trigger, ..self }
    }

    pub open spec fn with_buffer(self, buffer: OUTPUT_BUF) -> DacView {
        DacView { buffer, ..self }
    }

    pub open spec fn with_align(self, align: DacAlign) -> DacView {
        DacView { align, ..self }
    }

    pub open spec fn with_writes(self, writes: Seq<RegisterWrite>) -> DacView {
        DacView { writes, ..self }
    }
}

/// The operations of a converter driver bound to the pin role `PIN`.
pub trait DacHW<PIN: DACInstance>: Sized {
    /// The driver as a plain value.
    spec fn model(&self) -> DacView;

    /// Takes over the converter, whose registers hold `dac`, and switches on
    /// the clocks of the converter and of the pins' port in `rcc`, leaving
    /// every other bit of the two enable registers as it was.
    fn new(dac: DacRegisters, rcc: &mut RccRegisters, pin: PIN) -> (driver: Self)
        ensures
            driver.model() == DacView::initial(dac),
            final(rcc).apb1enr == with_bit_set(old(rcc).apb1enr, DACEN_BIT),
            final(rcc).ahb1enr == with_bit_set(old(rcc).ahb1enr, GPIOAEN_BIT),
    ;

    /// Sets the channel's enable bit in the control register.
    fn enable(&mut self) -> (status: STATUStype)
        ensures
            status == STATUStype::HAL_OK,
            final(self).model() == old(self).model().enabled(PIN::en_bit_spec()),
    ;

    /// Clears the channel's enable bit in the control register.
    fn disable(&mut self) -> (status: STATUStype)
        ensures
            status == STATUStype::HAL_OK,
            final(self).model() == old(self).model().disabled(PIN::en_bit_spec()),
    ;

    /// Records `ch` as the active channel, enables the channel and issues one
    /// software trigger. The lock is taken for the sequence without regard to
    /// whether it was held, and is free afterwards.
    fn start(&mut self, ch: u8) -> (status: STATUStype)
        ensures
            status == STATUStype::HAL_OK,
            final(self).model() == old(self).model().started(
                ch,
                PIN::en_bit_spec(),
                PIN::swtrig_bit_spec(),
            ),
    ;

    /// Writes `value` to the data register of the active channel and
    /// alignment. With an active channel other than 1 and 2 it reports an
    /// error and writes nothing.
    fn write(&mut self, value: u16) -> (status: STATUStype)
        requires
            old(self).model().accepts(value),
        ensures
            status == old(self).model().write_status(),
            final(self).model() == old(self).model().written(value),
    ;

    /// Records the trigger source. No register is written.
    fn set_trigger(&mut self, trigger: DacTrigger) -> (status: STATUStype)
        ensures
            status == STATUStype::HAL_OK,
            final(self).model() == old(self).model().with_trigger(trigger),
    ;

    /// Records the buffer mode. No register is written.
    fn buffer(&mut self, buf: OUTPUT_BUF) -> (status: STATUStype)
        ensures
            status == STATUStype::HAL_OK,
            final(self).model() == old(self).model().with_buffer(buf),
    ;

    /// Takes the lock if it is free, and reports busy without a change if it
    /// is held.
    fn lock(&mut self) -> (status: STATUStype)
        ensures
            status == old(self).model().lock_status(),
            final(self).model() == old(self).model().with_lock(LockType::LOCKED),
    ;

    /// Frees the lock, held or not.
    fn unlock(&mut self) -> (status: STATUStype)
        ensures
            status == STATUStype::HAL_OK,
            final(self).model() == old(self).model().with_lock(LockType::UNLOCKED),
    ;
}

/// Driver of one converter channel, bound to the pin role `PIN`.
pub struct Dac<PIN: DACInstance> {
    dac: DacRegisters,
    writes: Vec<RegisterWrite>,
    pin: PIN,
    ch: u8,
    state: DACState,
    locked: LockType,
    trigger: DacTrigger,
    align: DacAlign,
    buffer: OUTPUT_BUF,
}

impl<PIN: DACInstance> Dac<PIN> {
    fn store(&mut self, reg: DacRegister, bits: u32)
        ensures
            final(self).model() == old(self).model().stored(reg, bits),
    {
        let write = RegisterWrite { reg, bits };
        self.dac.store(write);
        self.writes.push(write);
    }

    /// Sets the alignment of the values written from now on.
    pub fn set_align(&mut self, align: DacAlign) -> (status: STATUStype)
        ensures
            status == STATUStype::HAL_OK,
            final(self).model() == old(self).model().with_align(align),
    {
        self.align = align;
        STATUStype::HAL_OK
    }

    /// The active channel: 0 until a start records one.
    pub fn channel(&self) -> (ch: u8)
        ensures
            ch == self.model().ch,
    {
        self.ch
    }

    pub fn state(&self) -> (state: DACState)
        ensures
            state == self.model().state,
    {
        self.state
    }

    pub fn lock_state(&self) -> (locked: LockType)
        ensures
            locked == self.model().locked,
    {
        self.locked
    }

    pub fn trigger(&self) -> (trigger: DacTrigger)
        ensures
            trigger == self.model().trigger,
    {
        self.trigger
    }

    pub fn align(&self) -> (align: DacAlign)
        ensures
            align == self.model().align,
    {
        self.align
    }

    pub fn buffer_mode(&self) -> (buffer: OUTPUT_BUF)
        ensures
            buffer == self.model().buffer,
    {
        self.buffer
    }

    /// The register image.
    pub fn registers(&self) -> (regs: DacRegisters)
        ensures
            regs == self.model().regs,
    {
        self.dac
    }

    /// Hands out the writes decided on since the last collection, oldest
    /// first, and empties the log. The register image stays.
    pub fn take_writes(&mut self) -> (writes: Vec<RegisterWrite>)
        ensures
            writes@ == old(self).model().writes,
            final(self).model() == old(self).model().with_writes(Seq::empty()),
    {
        let mut writes: Vec<RegisterWrite> = Vec::new();
        core::mem::swap(&mut self.writes, &mut writes);
        writes
    }
}

impl<PIN: DACInstance> DacHW<PIN> for Dac<PIN> {
    closed spec fn model(&self) -> DacView {
        DacView {
            regs: self.dac,
            writes: self.writes@,
            ch: self.ch,
            state: self.state,
            locked: self.locked,
            trigger: self.trigger,
            align: self.align,
            buffer: self.buffer,
        }
    }

    fn new(dac: DacRegisters, rcc: &mut RccRegisters, pin: PIN) -> (driver: Self) {
        rcc.apb1enr = set_bit(rcc.apb1enr, DACEN_BIT);
        rcc.ahb1enr = set_bit(rcc.ahb1enr, GPIOAEN_BIT);
        Dac {
            dac,
            writes: Vec::new(),
            pin,
            ch: 0,
            state: DACState::Reset,
            locked: LockType::UNLOCKED,
            trigger: DacTrigger::NoTrigger,
            align: DacAlign::DacAlign12bR,
            buffer: OUTPUT_BUF::Disabled,
        }
    }

    fn enable(&mut self) -> (status: STATUStype) {
        let bits = set_bit(self.dac.cr, PIN::en_bit());
        self.store(DacRegister::Cr, bits);
        STATUStype::HAL_OK
    }

    fn disable(&mut self) -> (status: STATUStype) {
        let bits = clear_bit(self.dac.cr, PIN::en_bit());
        self.store(DacRegister::Cr, bits);
        STATUStype::HAL_OK
    }

    fn start(&mut self, ch: u8) -> (status: STATUStype) {
        self.ch = ch;
        self.lock();
        self.state = DACState::Busy;
        self.enable();
        self.store(DacRegister::Swtrigr, 1u32 << PIN::swtrig_bit());
        self.state = DACState::Ready;
        self.unlock();
        STATUStype::HAL_OK
    }

    fn write(&mut self, value: u16) -> (status: STATUStype) {
        match data_register(self.ch, self.align) {
            Some(reg) => {
                let bits = self.align.encode(value);
                self.store(reg, bits);
                STATUStype::HAL_OK
            },
            None => STATUStype::HAL_ERROR,
        }
    }

    fn set_trigger(&mut self, trigger: DacTrigger) -> (status: STATUStype) {
        self.trigger = trigger;
        STATUStype::HAL_OK
    }

    fn buffer(&mut self, buf: OUTPUT_BUF) -> (status: STATUStype) {
        self.buffer = buf;
        STATUStype::HAL_OK
    }

    fn lock(&mut self) -> (status: STATUStype) {
        if self.locked == LockType::LOCKED {
            STATUStype::HAL_BUSY
        } else {
            self.locked = LockType::LOCKED;
            STATUStype::HAL_OK
        }
    }

    fn unlock(&mut self) -> (status: STATUStype) {
        self.locked = LockType::UNLOCKED;
        STATUStype::HAL_OK
    }
}

/// On channel 1 or 2 a write succeeds, puts the encoded value into the one
/// data register that the channel and the alignment select, logs that write
/// and leaves every other register as it was. With the alignment to the left
/// the word is sixteen times the value, that is, the value four bits up.
pub proof fn lemma_write_routes_to_one_register(v: DacView, value: u16, other: DacRegister)
    requires
        v.ch == 1 || v.ch == 2,
    ensures
        v.write_status() == STATUStype::HAL_OK,
        data_register_spec(v.ch, v.align) is Some,
        v.written(value).regs.get(data_register_spec(v.ch, v.align).unwrap())
            == v.align.encode_spec(value),
        other != data_register_spec(v.ch, v.align).unwrap() ==> v.written(value).regs.get(other)
            == v.regs.get(other),
        v.written(value).writes == v.writes.push(
            RegisterWrite {
                reg: data_register_spec(v.ch, v.align).unwrap(),
                bits: v.align.encode_spec(value),
            },
        ),
        v.align == DacAlign::DacAlign12bL ==> v.align.encode_spec(value) == value as u32 * 16,
        v.align != DacAlign::DacAlign12bL ==> v.align.encode_spec(value) == value as u32,
{
    let word: u32 = value as u32;
    assert(word << 4u32 == word * 16) by (bit_vector)
        requires
            word <= 0xffff,
    ;
}

/// With an active channel other than 1 and 2 a write reports an error and
/// changes nothing: no register of the image, and no write is logged.
pub proof fn lemma_write_without_channel_changes_nothing(v: DacView, value: u16)
    requires
        v.ch != 1,
        v.ch != 2,
    ensures
        v.write_status() == STATUStype::HAL_ERROR,
        v.written(value) == v,
{
}

/// Taking a free lock succeeds and a second attempt reports busy; freeing the
/// lock after that makes the next attempt succeed again.
pub proof fn lemma_lock_is_exclusive_until_unlock(v: DacView)
    requires
        v.locked == LockType::UNLOCKED,
    ensures
        v.lock_status() == STATUStype::HAL_OK,
        v.with_lock(LockType::LOCKED).lock_status() == STATUStype::HAL_BUSY,
        v.with_lock(LockType::LOCKED).with_lock(LockType::LOCKED).with_lock(
            LockType::UNLOCKED,
        ).locked == LockType::UNLOCKED,
        v.with_lock(LockType::LOCKED).with_lock(LockType::LOCKED).with_lock(
            LockType::UNLOCKED,
        ).lock_status() == STATUStype::HAL_OK,
{
}

/// After a start on channel 1 or 2 the channel's enable bit is set in the
/// control register, the lock is free, and a write succeeds and goes to a
/// data register of that channel.
pub proof fn lemma_start_makes_channel_writable<PIN: DACInstance>(v: DacView, ch: u8)
    requires
        ch == 1 || ch == 2,
    ensures
        bit_is_set(
            v.started(ch, PIN::en_bit_spec(), PIN::swtrig_bit_spec()).regs.cr,
            PIN::en_bit_spec(),
        ),
        v.started(ch, PIN::en_bit_spec(), PIN::swtrig_bit_spec()).ch == ch,
        v.started(ch, PIN::en_bit_spec(), PIN::swtrig_bit_spec()).locked == LockType::UNLOCKED,
        v.started(ch, PIN::en_bit_spec(), PIN::swtrig_bit_spec()).write_status()
            == STATUStype::HAL_OK,
        data_register_spec(ch, v.align) is Some,
{
    PIN::lemma_bits_in_word();
    lemma_set_bit(v.regs.cr, PIN::en_bit_spec(), PIN::en_bit_spec());
}

/// The log keeps pace with the image. Where the image is what replaying the
/// log on some base registers gives, it still is after any operation that
/// writes a register: whoever performs the logged writes, in order, on
/// registers that held the base ends with the image.
pub proof fn lemma_log_mirrors_image(
    base: DacRegisters,
    v: DacView,
    ch: u8,
    en_bit: u32,
    swtrig_bit: u32,
    value: u16,
)
    requires
        v.regs == base.replay(v.writes),
    ensures
        v.enabled(en_bit).regs == base.replay(v.enabled(en_bit).writes),
        v.disabled(en_bit).regs == base.replay(v.disabled(en_bit).writes),
        v.written(value).regs == base.replay(v.written(value).writes),
        v.started(ch, en_bit, swtrig_bit).regs == base.replay(
            v.started(ch, en_bit, swtrig_bit).writes,
        ),
{
    lemma_replay_push(
        base,
        v.writes,
        RegisterWrite { reg: DacRegister::Cr, bits: with_bit_set(v.regs.cr, en_bit) },
    );
    lemma_replay_push(
        base,
        v.writes,
        RegisterWrite { reg: DacRegister::Cr, bits: with_bit_cleared(v.regs.cr, en_bit) },
    );
    lemma_replay_push(
        base,
        v.enabled(en_bit).writes,
        RegisterWrite { reg: DacRegister::Swtrigr, bits: 1u32 << swtrig_bit },
    );
    match data_register_spec(v.ch, v.align) {
        Some(reg) => {
            lemma_replay_push(
                base,
                v.writes,
                RegisterWrite { reg, bits: v.align.encode_spec(value) },
            );
        },
        None => {},
    }
}

} // verus!
