//! Plain-value images of the memory-mapped registers that the driver works
//! on, and the record of a single register write.

use vstd::prelude::*;

verus! {

/// A register of the converter that the driver writes.
#[derive(Copy, Clone, Debug, PartialEq, Eq, Structural)]
pub enum DacRegister {
    /// Control register.
    Cr,
    /// Software trigger register.
    Swtrigr,
    /// Channel 1, 12-bit right-aligned data.
    Dhr12r1,
    /// Channel 1, 12-bit left-aligned data.
    Dhr12l1,
    /// Channel 1, 8-bit right-aligned data.
    Dhr8r1,
    /// Channel 2, 12-bit right-aligned data.
    Dhr12r2,
    /// Channel 2, 12-bit left-aligned data.
    Dhr12l2,
    /// Channel 2, 8-bit right-aligned data.
    Dhr8r2,
}

/// One write of a full register word.
#[derive(Copy, Clone, Debug, PartialEq, Eq, Structural)]
pub struct RegisterWrite {
    pub reg: DacRegister,
    pub bits: u32,
}

/// The converter's registers, one word each.
#[derive(Copy, Clone, Debug, PartialEq, Eq, Structural)]
pub struct DacRegisters {
    pub cr: u32,
    pub swtrigr: u32,
    pub dhr12r1: u32,
    pub dhr12l1: u32,
    pub dhr8r1: u32,
    pub dhr12r2: u32,
    pub dhr12l2: u32,
    pub dhr8r2: u32,
}

impl DacRegisters {
    /// The word held in `reg`.
    pub open spec fn get(self, reg: DacRegister) -> u32 {
        match reg {
            DacRegister::Cr => self.cr,
            DacRegister::Swtrigr => self.swtrigr,
            DacRegister::Dhr12r1 => self.dhr12r1,
            DacRegister::Dhr12l1 => self.dhr12l1,
            DacRegister::Dhr8r1 => self.dhr8r1,
            DacRegister::Dhr12r2 => self.dhr12r2,
            DacRegister::Dhr12l2 => self.dhr12l2,
            DacRegister::Dhr8r2 => self.dhr8r2,
        }
    }

    /// The registers with `bits` in `reg` and every other word as it was.
    pub open spec fn with(self, reg: DacRegister, bits: u32) -> DacRegisters {
        match reg {
            DacRegister::Cr => DacRegisters { cr: bits, ..self },
            DacRegister::Swtrigr => DacRegisters { swtrigr: bits, ..self },
            DacRegister::Dhr12r1 => DacRegisters { dhr12r1: bits, ..self },
            DacRegister::Dhr12l1 => DacRegisters { dhr12l1: bits, ..self },
            DacRegister::Dhr8r1 => DacRegisters { dhr8r1: bits, ..self },
            DacRegister::Dhr12r2 => DacRegisters { dhr12r2: bits, ..self },
            DacRegister::Dhr12l2 => DacRegisters { dhr12l2: bits, ..self },
            DacRegister::Dhr8r2 => DacRegisters { dhr8r2: bits, ..self },
        }
    }

    /// The registers after the writes of `writes`, first to last.
    pub open spec fn replay(self, writes: Seq<RegisterWrite>) -> DacRegisters
        decreases writes.len(),
    {
        if writes.len() == 0 {
            self
        } else {
            self.replay(writes.drop_last()).with(writes.last().reg, writes.last().bits)
        }
    }

    /// Performs the writes of `writes` on the image, first to last.
    pub fn apply_all(&mut self, writes: &Vec<RegisterWrite>)
        ensures
            *final(self) == old(self).replay(writes@),
    {
        let mut done: usize = 0;
        while done < writes.len()
            invariant
                done <= writes.len(),
                *self == old(self).replay(writes@.take(done as int)),
            decreases writes.len() - done,
        {
            proof {
                let next = writes@.take(done + 1);
                assert(next.drop_last() =~= writes@.take(done as int));
                assert(next.last() == writes@[done as int]);
            }
            self.store(writes[done]);
            done = done + 1;
        }
        proof {
            assert(writes@.take(done as int) =~= writes@);
        }
    }

    /// All registers zero, as the converter leaves reset.
    pub fn reset() -> (regs: Self)
        ensures
            regs == (DacRegisters {
                cr: 0,
                swtrigr: 0,
                dhr12r1: 0,
                dhr12l1: 0,
                dhr8r1: 0,
                dhr12r2: 0,
                dhr12l2: 0,
                dhr8r2: 0,
            }),
    {
        DacRegisters {
            cr: 0,
            swtrigr: 0,
            dhr12r1: 0,
            dhr12l1: 0,
            dhr8r1: 0,
            dhr12r2: 0,
            dhr12l2: 0,
            dhr8r2: 0,
        }
    }

    pub fn read(&self, reg: DacRegister) -> (bits: u32)
        ensures
            bits == self.get(reg),
    {
        match reg {
            DacRegister::Cr => self.cr,
            DacRegister::Swtrigr => self.swtrigr,
            DacRegister::Dhr12r1 => self.dhr12r1,
            DacRegister::Dhr12l1 => self.dhr12l1,
            DacRegister::Dhr8r1 => self.dhr8r1,
            DacRegister::Dhr12r2 => self.dhr12r2,
            DacRegister::Dhr12l2 => self.dhr12l2,
            DacRegister::Dhr8r2 => self.dhr8r2,
        }
    }

    /// Performs one write on the image.
    pub fn store(&mut self, write: RegisterWrite)
        ensures
            *final(self) == old(self).with(write.reg, write.bits),
    {
        match write.reg {
            DacRegister::Cr => self.cr = write.bits,
            DacRegister::Swtrigr => self.swtrigr = write.bits,
            DacRegister::Dhr12r1 => self.dhr12r1 = write.bits,
            DacRegister::Dhr12l1 => self.dhr12l1 = write.bits,
            DacRegister::Dhr8r1 => self.dhr8r1 = write.bits,
            DacRegister::Dhr12r2 => self.dhr12r2 = write.bits,
            DacRegister::Dhr12l2 => self.dhr12l2 = write.bits,
            DacRegister::Dhr8r2 => self.dhr8r2 = write.bits,
        }
    }
}

/// A write touches the register it names and no other.
pub proof fn lemma_write_touches_one_register(
    regs: DacRegisters,
    reg: DacRegister,
    bits: u32,
    other: DacRegister,
)
    ensures
        regs.with(reg, bits).get(reg) == bits,
        other != reg ==> regs.with(reg, bits).get(other) == regs.get(other),
{
}

/// Replaying a log that ends in one more write gives the registers of the
/// shorter log with that write performed.
pub proof fn lemma_replay_push(base: DacRegisters, writes: Seq<RegisterWrite>, write: RegisterWrite)
    ensures
        base.replay(writes.push(write)) == base.replay(writes).with(write.reg, write.bits),
{
    assert(writes.push(write).drop_last() =~= writes);
}

/// The two clock-enable registers of the reset and clock controller that the
/// driver sets bits in.
#[derive(Copy, Clone, Debug, PartialEq, Eq, Structural)]
pub struct RccRegisters {
    /// Peripheral clock enables of the first peripheral bus.
    pub apb1enr: u32,
    /// Peripheral clock enables of the first high-speed bus.
    pub ahb1enr: u32,
}

/// Bit of `apb1enr` that gates the converter's clock.
pub const DACEN_BIT: u32 = 29;

/// Bit of `ahb1enr` that gates the clock of the port that holds the pins.
pub const GPIOAEN_BIT: u32 = 0;

/// Whether bit `index` of `word` is set.
pub open spec fn bit_is_set(word: u32, index: u32) -> bool {
    word & (1u32 << index) != 0
}

/// `word` with bit `index` set.
pub open spec fn with_bit_set(word: u32, index: u32) -> u32 {
    word | (1u32 << index)
}

/// `word` with bit `index` cleared.
pub open spec fn with_bit_cleared(word: u32, index: u32) -> u32 {
    word & !(1u32 << index)
}

/// Setting a bit sets it and leaves every other bit as it was.
pub proof fn lemma_set_bit(word: u32, index: u32, other: u32)
    requires
        index < 32,
        other < 32,
    ensures
        bit_is_set(with_bit_set(word, index), index),
        other != index ==> bit_is_set(with_bit_set(word, index), other) == bit_is_set(word, other),
{
    assert(((word | (1u32 << index)) & (1u32 << index)) != 0) by (bit_vector)
        requires
            index < 32,
    ;
    assert(other != index ==> (((word | (1u32 << index)) & (1u32 << other)) != 0) == ((word & (1u32
        << other)) != 0)) by (bit_vector)
        requires
            index < 32,
            other < 32,
    ;
}

/// Clearing a bit clears it and leaves every other bit as it was.
pub proof fn lemma_clear_bit(word: u32, index: u32, other: u32)
    requires
        index < 32,
        other < 32,
    ensures
        !bit_is_set(with_bit_cleared(word, index), index),
        other != index ==> bit_is_set(with_bit_cleared(word, index), other) == bit_is_set(
            word,
            other,
        ),
{
    assert(((word & !(1u32 << index)) & (1u32 << index)) == 0) by (bit_vector)
        requires
            index < 32,
    ;
    assert(other != index ==> (((word & !(1u32 << index)) & (1u32 << other)) != 0) == ((word & (1u32
        << other)) != 0)) by (bit_vector)
        requires
            index < 32,
            other < 32,
    ;
}

/// `word` with bit `index` set.
pub fn set_bit(word: u32, index: u32) -> (out: u32)
    requires
        index < 32,
    ensures
        out == with_bit_set(word, index),
{
    word | (1u32 << index)
}

/// `word` with bit `index` cleared.
pub fn clear_bit(word: u32, index: u32) -> (out: u32)
    requires
        index < 32,
    ensures
        out == with_bit_cleared(word, index),
{
    word & !(1u32 << index)
}

} // verus!
