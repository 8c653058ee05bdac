//! A model of one decoder instance's register block: sixteen-bit words whose
//! reads and writes carry the side effects that the peripheral gives them.
use crate::bitfield::{field_mask, put_bits, well_placed};
use vstd::prelude::*;

verus! {

/// The registers of one decoder instance.
#[derive(Clone, Copy, PartialEq, Eq, Structural, Debug)]
pub enum Reg {
    Ctrl,
    Ctrl2,
    Filt,
    Wtr,
    Tst,
    Uinit,
    Linit,
    Ucomp,
    Lcomp,
    Upos,
    Lpos,
    Uposh,
    Lposh,
    Posd,
    Posdh,
    Rev,
    Revh,
    Imr,
    /// The filter clock prescaler: a word of its own, so that every value from 1 to 128
    /// is stored as it is.
    Fprsc,
    /// The test signal period: a word of its own, so that every value from 0 to 32 is
    /// stored as it is.
    Tper,
}

/// Number of registers in the block.
pub const REG_COUNT: usize = 20;

/// The software-initialize bit of CTRL: it reads as zero, and writing one to it loads
/// the position counter from the initialization registers.
pub const SWIP_BIT: u16 = 0x0800;

impl Reg {
    /// Position of the register in the block.
    pub open spec fn index(self) -> int {
        match self {
            Reg::Ctrl => 0,
            Reg::Ctrl2 => 1,
            Reg::Filt => 2,
            Reg::Wtr => 3,
            Reg::Tst => 4,
            Reg::Uinit => 5,
            Reg::Linit => 6,
            Reg::Ucomp => 7,
            Reg::Lcomp => 8,
            Reg::Upos => 9,
            Reg::Lpos => 10,
            Reg::Uposh => 11,
            Reg::Lposh => 12,
            Reg::Posd => 13,
            Reg::Posdh => 14,
            Reg::Rev => 15,
            Reg::Revh => 16,
            Reg::Imr => 17,
            Reg::Fprsc => 18,
            Reg::Tper => 19,
        }
    }

    pub fn idx(self) -> (i: usize)
        ensures
            i as int == self.index(),
            i < REG_COUNT,
    {
        match self {
            Reg::Ctrl => 0,
            Reg::Ctrl2 => 1,
            Reg::Filt => 2,
            Reg::Wtr => 3,
            Reg::Tst => 4,
            Reg::Uinit => 5,
            Reg::Linit => 6,
            Reg::Ucomp => 7,
            Reg::Lcomp => 8,
            Reg::Upos => 9,
            Reg::Lpos => 10,
            Reg::Uposh => 11,
            Reg::Lposh => 12,
            Reg::Posd => 13,
            Reg::Posdh => 14,
            Reg::Rev => 15,
            Reg::Revh => 16,
            Reg::Imr => 17,
            Reg::Fprsc => 18,
            Reg::Tper => 19,
        }
    }

    /// Bits that a write of one clears and a write of zero leaves alone (sticky flags).
    pub open spec fn clear_on_write(self) -> u16 {
        match self {
            Reg::Ctrl => 0x8112,
            Reg::Ctrl2 => 0x00a0,
            _ => 0,
        }
    }

    /// Bits that only the peripheral changes.
    pub open spec fn read_only(self) -> u16 {
        match self {
            Reg::Ctrl2 => 0x0008,
            Reg::Uposh | Reg::Lposh | Reg::Posdh | Reg::Revh | Reg::Imr => 0xffff,
            _ => 0,
        }
    }

    /// Bits that act when written and always read as zero.
    pub open spec fn self_clearing(self) -> u16 {
        match self {
            Reg::Ctrl => SWIP_BIT,
            _ => 0,
        }
    }

    pub(crate) fn masks(self) -> (m: (u16, u16, u16))
        ensures
            m == (self.clear_on_write(), self.read_only(), self.self_clearing()),
    {
        match self {
            Reg::Ctrl => (0x8112, 0, SWIP_BIT),
            Reg::Ctrl2 => (0x00a0, 0x0008, 0),
            Reg::Uposh | Reg::Lposh | Reg::Posdh | Reg::Revh | Reg::Imr => (0, 0xffff, 0),
            _ => (0, 0, 0),
        }
    }

    /// Registers that latch into a hold register and clear when read.
    pub open spec fn is_counter(self) -> bool {
        self == Reg::Upos || self == Reg::Lpos || self == Reg::Posd || self == Reg::Rev
    }

    /// The hold register that takes a counter's value when the counter is read.
    pub open spec fn hold(self) -> Reg {
        match self {
            Reg::Upos => Reg::Uposh,
            Reg::Lpos => Reg::Lposh,
            Reg::Posd => Reg::Posdh,
            _ => Reg::Revh,
        }
    }

    fn hold_idx(self) -> (i: usize)
        requires
            self.is_counter(),
        ensures
            i as int == self.hold().index(),
            i < REG_COUNT,
    {
        match self {
            Reg::Upos => 11,
            Reg::Lpos => 12,
            Reg::Posd => 14,
            _ => 16,
        }
    }
}

/// What the peripheral keeps of a write of `value` to `r`, whose bits read `cur` before.
pub open spec fn stored(r: Reg, cur: u16, value: u16) -> u16 {
    (value & !(r.clear_on_write() | r.read_only() | r.self_clearing())) | (cur & r.read_only()) | (
    cur & r.clear_on_write() & !value)
}

/// The register contents after a write of `value` to `r`.
pub open spec fn after_write(regs: Seq<u16>, r: Reg, value: u16) -> Seq<u16> {
    let s = regs.update(r.index(), stored(r, regs[r.index()], value));
    if value & r.self_clearing() != 0 {
        s.update(Reg::Upos.index(), regs[Reg::Uinit.index()]).update(
            Reg::Lpos.index(),
            regs[Reg::Linit.index()],
        )
    } else {
        s
    }
}

/// The register contents after a read of the counter `r`.
pub open spec fn after_counter_read(regs: Seq<u16>, r: Reg) -> Seq<u16> {
    regs.update(r.hold().index(), regs[r.index()]).update(r.index(), 0)
}

/// One write that the driver made to the register block.
#[derive(Clone, Copy, PartialEq, Eq, Structural, Debug)]
pub struct RegWrite {
    pub reg: Reg,
    pub value: u16,
}

/// The register block of decoder instance `N`, with the log of the writes made to it.
pub struct Instance<const N: u8> {
    words: [u16; 20],
    log: Vec<RegWrite>,
}

proof fn lemma_ctrl_store(cur: u16, value: u16)
    ensures
        stored(Reg::Ctrl, cur, value) & !SWIP_BIT == stored(Reg::Ctrl, cur & !SWIP_BIT, value),
        stored(Reg::Ctrl, cur, value) & !SWIP_BIT == stored(Reg::Ctrl, cur, value),
{
    let s = stored(Reg::Ctrl, cur, value);
    let t = stored(Reg::Ctrl, cur & !SWIP_BIT, value);
    assert(s & !0x0800u16 == t && s & !0x0800u16 == s) by (bit_vector)
        requires
            s == (value & !(0x8112u16 | 0u16 | 0x0800u16)) | (cur & 0u16) | (cur & 0x8112u16 & !value),
            t == (value & !(0x8112u16 | 0u16 | 0x0800u16)) | ((cur & !0x0800u16) & 0u16) | ((cur
                & !0x0800u16) & 0x8112u16 & !value),
    ;
}

impl<const N: u8> Instance<N> {
    /// What each register reads as, in block order.
    pub closed spec fn regs(&self) -> Seq<u16> {
        self.words@.update(0, self.words@[0] & !SWIP_BIT)
    }

    /// The block always holds one word per register.
    pub proof fn lemma_regs_len(&self)
        ensures
            self.regs().len() == REG_COUNT,
    {
    }

    /// The writes made to the block, oldest first.
    pub closed spec fn writes(&self) -> Seq<RegWrite> {
        self.log@
    }

    /// A block whose registers all read zero and to which nothing has been written.
    pub fn new() -> (r: Self)
        ensures
            r.regs() == Seq::new(REG_COUNT as nat, |i: int| 0u16),
            r.writes() == Seq::<RegWrite>::empty(),
    {
        let r = Instance { words: [0u16; 20], log: Vec::new() };
        assert(0u16 & !0x0800u16 == 0u16) by (bit_vector);
        assert(r.regs() =~= Seq::new(REG_COUNT as nat, |i: int| 0u16));
        r
    }

    /// The register as it reads now, without any side effect.
    pub fn peek(&self, r: Reg) -> (v: u16)
        ensures
            v == self.regs()[r.index()],
    {
        let i = r.idx();
        if i == 0 {
            self.words[0] & !SWIP_BIT
        } else {
            self.words[i]
        }
    }

    /// The writes made to the block, oldest first.
    pub fn write_log(&self) -> (l: &Vec<RegWrite>)
        ensures
            l@ == self.writes(),
    {
        &self.log
    }

    /// The peripheral itself sets register `r` (a count, a raised flag, an input level);
    /// bits that always read zero stay zero. Nothing is logged.
    pub fn hardware_update(&mut self, r: Reg, value: u16)
        ensures
            final(self).regs() == old(self).regs().update(r.index(), value & !r.self_clearing()),
            final(self).writes() == old(self).writes(),
    {
        let i = r.idx();
        let (_c, _ro, sc) = r.masks();
        let v = value & !sc;
        self.words[i] = v;
        proof {
            if i == 0 {
                assert((value & !0x0800u16) & !0x0800u16 == value & !0x0800u16) by (bit_vector);
            }
            assert(final(self).regs() =~= old(self).regs().update(r.index(), value & !r.self_clearing()));
        }
    }

    /// Reads a register that has no side effect on read.
    pub(crate) fn read(&self, r: Reg) -> (v: u16)
        requires
            !r.is_counter(),
        ensures
            v == self.regs()[r.index()],
            v & r.self_clearing() == 0,
    {
        let v = self.peek(r);
        if r.idx() == 0 {
            let x = self.words[0];
            assert((x & !0x0800u16) & 0x0800u16 == 0u16) by (bit_vector);
        } else {
            assert(v & 0u16 == 0u16) by (bit_vector);
        }
        v
    }

    /// Reads a counter: its value goes to its hold register and the counter clears.
    pub(crate) fn read_counter(&mut self, r: Reg) -> (v: u16)
        requires
            r.is_counter(),
        ensures
            v == old(self).regs()[r.index()],
            final(self).regs() == after_counter_read(old(self).regs(), r),
            final(self).writes() == old(self).writes(),
    {
        let i = r.idx();
        let h = r.hold_idx();
        let v = self.words[i];
        self.words[h] = v;
        self.words[i] = 0;
        assert(final(self).regs() =~= after_counter_read(old(self).regs(), r));
        v
    }

    /// Writes `value` to register `r` with the peripheral's write semantics.
    pub(crate) fn write(&mut self, r: Reg, value: u16)
        ensures
            final(self).regs() == after_write(old(self).regs(), r, value),
            final(self).writes() == old(self).writes().push(RegWrite { reg: r, value }),
    {
        let i = r.idx();
        let (c, ro, sc) = r.masks();
        let cur = self.words[i];
        let s = (value & !(c | ro | sc)) | (cur & ro) | (cur & c & !value);
        let ui = self.peek(Reg::Uinit);
        let li = self.peek(Reg::Linit);
        self.words[i] = s;
        if value & sc != 0 {
            self.words[9] = ui;
            self.words[10] = li;
        }
        self.log.push(RegWrite { reg: r, value });
        proof {
            if i == 0 {
                lemma_ctrl_store(cur, value);
            }
            assert(final(self).regs() =~= after_write(old(self).regs(), r, value));
        }
    }
}


/// How a bit group behaves under writes.
#[derive(Clone, Copy, PartialEq, Eq, Structural, Debug)]
pub enum Access {
    /// Holds what was last written.
    Plain,
    /// Set by the peripheral; writing one clears it.
    Sticky,
    /// Acts when one is written; reads as zero.
    Pulse,
    /// Set by the peripheral only.
    Status,
}

/// The named bit groups of the register block.
#[derive(Clone, Copy, PartialEq, Eq, Structural, Debug)]
pub enum Field {
    /// Compare interrupt enable.
    Cmpie,
    /// Compare interrupt flag.
    Cmpirq,
    /// Watchdog enable.
    Wde,
    /// Watchdog timeout interrupt enable.
    Die,
    /// Watchdog timeout flag.
    Dirq,
    /// INDEX triggers on its negative edge.
    Xne,
    /// INDEX initializes the position counter.
    Xip,
    /// INDEX interrupt enable.
    Xie,
    /// INDEX interrupt flag.
    Xirq,
    /// Single phase counting.
    Ph1,
    /// Reverse counting.
    Rev,
    /// Software initialize of the position counter.
    Swip,
    /// HOME triggers on its negative edge.
    Hne,
    /// HOME initializes the position counter.
    Hip,
    /// HOME interrupt enable.
    Hie,
    /// HOME interrupt flag.
    Hirq,
    /// TRIGGER updates the hold registers.
    Updhld,
    /// TRIGGER clears the counters.
    Updpos,
    /// Direction of the last count.
    Dir,
    /// Modulus rollunder interrupt enable.
    Ruie,
    /// Modulus rollunder interrupt flag.
    Ruirq,
    /// Modulus rollover interrupt enable.
    Roie,
    /// Modulus rollover interrupt flag.
    Roirq,
    /// Input filter sampling period.
    FiltPer,
    /// Input filter sample count, less three.
    FiltCnt,
    /// Filter clock prescaler, in a register of its own.
    FiltPrsc,
    /// Watchdog timeout in clock cycles.
    Wdog,
    /// Test pulse count.
    TestCount,
    /// Test pulse period, in a register of its own.
    TestPeriod,
    /// Test signal counts down.
    Qdn,
    /// Test counter enable.
    Tce,
    /// Test mode enable.
    Ten,
    /// Upper half of the initialization value.
    Uinit,
    /// Lower half of the initialization value.
    Linit,
    /// Upper half of the compare value.
    Ucomp,
    /// Lower half of the compare value.
    Lcomp,
}

impl Field {
    /// The register that holds the group.
    pub open spec fn reg(self) -> Reg {
        match self {
            Field::Cmpie => Reg::Ctrl,
            Field::Cmpirq => Reg::Ctrl,
            Field::Wde => Reg::Ctrl,
            Field::Die => Reg::Ctrl,
            Field::Dirq => Reg::Ctrl,
            Field::Xne => Reg::Ctrl,
            Field::Xip => Reg::Ctrl,
            Field::Xie => Reg::Ctrl,
            Field::Xirq => Reg::Ctrl,
            Field::Ph1 => Reg::Ctrl,
            Field::Rev => Reg::Ctrl,
            Field::Swip => Reg::Ctrl,
            Field::Hne => Reg::Ctrl,
            Field::Hip => Reg::Ctrl,
            Field::Hie => Reg::Ctrl,
            Field::Hirq => Reg::Ctrl,
            Field::Updhld => Reg::Ctrl2,
            Field::Updpos => Reg::Ctrl2,
            Field::Dir => Reg::Ctrl2,
            Field::Ruie => Reg::Ctrl2,
            Field::Ruirq => Reg::Ctrl2,
            Field::Roie => Reg::Ctrl2,
            Field::Roirq => Reg::Ctrl2,
            Field::FiltPer => Reg::Filt,
            Field::FiltCnt => Reg::Filt,
            Field::FiltPrsc => Reg::Fprsc,
            Field::Wdog => Reg::Wtr,
            Field::TestCount => Reg::Tst,
            Field::TestPeriod => Reg::Tper,
            Field::Qdn => Reg::Tst,
            Field::Tce => Reg::Tst,
            Field::Ten => Reg::Tst,
            Field::Uinit => Reg::Uinit,
            Field::Linit => Reg::Linit,
            Field::Ucomp => Reg::Ucomp,
            Field::Lcomp => Reg::Lcomp,
        }
    }

    /// The group's lowest bit.
    pub open spec fn offset(self) -> u16 {
        match self {
            Field::Cmpie => 0,
            Field::Cmpirq => 1,
            Field::Wde => 2,
            Field::Die => 3,
            Field::Dirq => 4,
            Field::Xne => 5,
            Field::Xip => 6,
            Field::Xie => 7,
            Field::Xirq => 8,
            Field::Ph1 => 9,
            Field::Rev => 10,
            Field::Swip => 11,
            Field::Hne => 12,
            Field::Hip => 13,
            Field::Hie => 14,
            Field::Hirq => 15,
            Field::Updhld => 0,
            Field::Updpos => 1,
            Field::Dir => 3,
            Field::Ruie => 4,
            Field::Ruirq => 5,
            Field::Roie => 6,
            Field::Roirq => 7,
            Field::FiltPer => 0,
            Field::FiltCnt => 8,
            Field::FiltPrsc => 0,
            Field::Wdog => 0,
            Field::TestCount => 0,
            Field::TestPeriod => 0,
            Field::Qdn => 13,
            Field::Tce => 14,
            Field::Ten => 15,
            Field::Uinit => 0,
            Field::Linit => 0,
            Field::Ucomp => 0,
            Field::Lcomp => 0,
        }
    }

    /// The group's number of bits.
    pub open spec fn width(self) -> u16 {
        match self {
            Field::Cmpie => 1,
            Field::Cmpirq => 1,
            Field::Wde => 1,
            Field::Die => 1,
            Field::Dirq => 1,
            Field::Xne => 1,
            Field::Xip => 1,
            Field::Xie => 1,
            Field::Xirq => 1,
            Field::Ph1 => 1,
            Field::Rev => 1,
            Field::Swip => 1,
            Field::Hne => 1,
            Field::Hip => 1,
            Field::Hie => 1,
            Field::Hirq => 1,
            Field::Updhld => 1,
            Field::Updpos => 1,
            Field::Dir => 1,
            Field::Ruie => 1,
            Field::Ruirq => 1,
            Field::Roie => 1,
            Field::Roirq => 1,
            Field::FiltPer => 8,
            Field::FiltCnt => 3,
            Field::FiltPrsc => 8,
            Field::Wdog => 16,
            Field::TestCount => 8,
            Field::TestPeriod => 6,
            Field::Qdn => 1,
            Field::Tce => 1,
            Field::Ten => 1,
            Field::Uinit => 16,
            Field::Linit => 16,
            Field::Ucomp => 16,
            Field::Lcomp => 16,
        }
    }

    /// How the group behaves under writes.
    pub open spec fn access(self) -> Access {
        match self {
            Field::Cmpie => Access::Plain,
            Field::Cmpirq => Access::Sticky,
            Field::Wde => Access::Plain,
            Field::Die => Access::Plain,
            Field::Dirq => Access::Sticky,
            Field::Xne => Access::Plain,
            Field::Xip => Access::Plain,
            Field::Xie => Access::Plain,
            Field::Xirq => Access::Sticky,
            Field::Ph1 => Access::Plain,
            Field::Rev => Access::Plain,
            Field::Swip => Access::Pulse,
            Field::Hne => Access::Plain,
            Field::Hip => Access::Plain,
            Field::Hie => Access::Plain,
            Field::Hirq => Access::Sticky,
            Field::Updhld => Access::Plain,
            Field::Updpos => Access::Plain,
            Field::Dir => Access::Status,
            Field::Ruie => Access::Plain,
            Field::Ruirq => Access::Sticky,
            Field::Roie => Access::Plain,
            Field::Roirq => Access::Sticky,
            Field::FiltPer => Access::Plain,
            Field::FiltCnt => Access::Plain,
            Field::FiltPrsc => Access::Plain,
            Field::Wdog => Access::Plain,
            Field::TestCount => Access::Plain,
            Field::TestPeriod => Access::Plain,
            Field::Qdn => Access::Plain,
            Field::Tce => Access::Plain,
            Field::Ten => Access::Plain,
            Field::Uinit => Access::Plain,
            Field::Linit => Access::Plain,
            Field::Ucomp => Access::Plain,
            Field::Lcomp => Access::Plain,
        }
    }

    pub(crate) fn place(self) -> (p: (Reg, u16, u16))
        ensures
            p == (self.reg(), self.offset(), self.width()),
    {
        match self {
            Field::Cmpie => (Reg::Ctrl, 0, 1),
            Field::Cmpirq => (Reg::Ctrl, 1, 1),
            Field::Wde => (Reg::Ctrl, 2, 1),
            Field::Die => (Reg::Ctrl, 3, 1),
            Field::Dirq => (Reg::Ctrl, 4, 1),
            Field::Xne => (Reg::Ctrl, 5, 1),
            Field::Xip => (Reg::Ctrl, 6, 1),
            Field::Xie => (Reg::Ctrl, 7, 1),
            Field::Xirq => (Reg::Ctrl, 8, 1),
            Field::Ph1 => (Reg::Ctrl, 9, 1),
            Field::Rev => (Reg::Ctrl, 10, 1),
            Field::Swip => (Reg::Ctrl, 11, 1),
            Field::Hne => (Reg::Ctrl, 12, 1),
            Field::Hip => (Reg::Ctrl, 13, 1),
            Field::Hie => (Reg::Ctrl, 14, 1),
            Field::Hirq => (Reg::Ctrl, 15, 1),
            Field::Updhld => (Reg::Ctrl2, 0, 1),
            Field::Updpos => (Reg::Ctrl2, 1, 1),
            Field::Dir => (Reg::Ctrl2, 3, 1),
            Field::Ruie => (Reg::Ctrl2, 4, 1),
            Field::Ruirq => (Reg::Ctrl2, 5, 1),
            Field::Roie => (Reg::Ctrl2, 6, 1),
            Field::Roirq => (Reg::Ctrl2, 7, 1),
            Field::FiltPer => (Reg::Filt, 0, 8),
            Field::FiltCnt => (Reg::Filt, 8, 3),
            Field::FiltPrsc => (Reg::Fprsc, 0, 8),
            Field::Wdog => (Reg::Wtr, 0, 16),
            Field::TestCount => (Reg::Tst, 0, 8),
            Field::TestPeriod => (Reg::Tper, 0, 6),
            Field::Qdn => (Reg::Tst, 13, 1),
            Field::Tce => (Reg::Tst, 14, 1),
            Field::Ten => (Reg::Tst, 15, 1),
            Field::Uinit => (Reg::Uinit, 0, 16),
            Field::Linit => (Reg::Linit, 0, 16),
            Field::Ucomp => (Reg::Ucomp, 0, 16),
            Field::Lcomp => (Reg::Lcomp, 0, 16),
        }
    }

    /// The group lies inside its register, is no counter, and shares no bit with the
    /// register's bits of another behaviour.
    pub open spec fn well_laid_out(self) -> bool {
        let m = field_mask(self.offset(), self.width());
        let r = self.reg();
        &&& well_placed(self.offset(), self.width())
        &&& !r.is_counter()
        &&& match self.access() {
            Access::Plain => m & r.clear_on_write() == 0 && m & r.read_only() == 0 && m
                & r.self_clearing() == 0,
            Access::Sticky => m & r.clear_on_write() == m && m & r.read_only() == 0 && m
                & r.self_clearing() == 0,
            Access::Pulse => m & r.self_clearing() == m && m & r.clear_on_write() == 0 && m
                & r.read_only() == 0,
            Access::Status => true,
        }
    }
}

/// Every bit group of the block is well laid out.
pub proof fn lemma_layout(f: Field)
    ensures
        f.well_laid_out(),
{
    assert(field_mask(0u16, 1u16) & 0x8112u16 == 0u16
        && field_mask(0u16, 1u16) & 0x0u16 == 0u16
        && field_mask(0u16, 1u16) & 0x800u16 == 0u16
        && field_mask(1u16, 1u16) & 0x8112u16 == field_mask(1u16, 1u16)
        && field_mask(1u16, 1u16) & 0x0u16 == 0u16
        && field_mask(1u16, 1u16) & 0x800u16 == 0u16
        && field_mask(2u16, 1u16) & 0x8112u16 == 0u16
        && field_mask(2u16, 1u16) & 0x0u16 == 0u16
        && field_mask(2u16, 1u16) & 0x800u16 == 0u16
        && field_mask(3u16, 1u16) & 0x8112u16 == 0u16
        && field_mask(3u16, 1u16) & 0x0u16 == 0u16
        && field_mask(3u16, 1u16) & 0x800u16 == 0u16
        && field_mask(4u16, 1u16) & 0x8112u16 == field_mask(4u16, 1u16)
        && field_mask(4u16, 1u16) & 0x0u16 == 0u16
        && field_mask(4u16, 1u16) & 0x800u16 == 0u16
        && field_mask(5u16, 1u16) & 0x8112u16 == 0u16
        && field_mask(5u16, 1u16) & 0x0u16 == 0u16
        && field_mask(5u16, 1u16) & 0x800u16 == 0u16
        && field_mask(6u16, 1u16) & 0x8112u16 == 0u16
        && field_mask(6u16, 1u16) & 0x0u16 == 0u16
        && field_mask(6u16, 1u16) & 0x800u16 == 0u16
        && field_mask(7u16, 1u16) & 0x8112u16 == 0u16
        && field_mask(7u16, 1u16) & 0x0u16 == 0u16
        && field_mask(7u16, 1u16) & 0x800u16 == 0u16
        && field_mask(8u16, 1u16) & 0x8112u16 == field_mask(8u16, 1u16)
        && field_mask(8u16, 1u16) & 0x0u16 == 0u16
        && field_mask(8u16, 1u16) & 0x800u16 == 0u16
        && field_mask(9u16, 1u16) & 0x8112u16 == 0u16
        && field_mask(9u16, 1u16) & 0x0u16 == 0u16
        && field_mask(9u16, 1u16) & 0x800u16 == 0u16
        && field_mask(10u16, 1u16) & 0x8112u16 == 0u16
        && field_mask(10u16, 1u16) & 0x0u16 == 0u16
        && field_mask(10u16, 1u16) & 0x800u16 == 0u16
        && field_mask(11u16, 1u16) & 0x800u16 == field_mask(11u16, 1u16)
        && field_mask(11u16, 1u16) & 0x8112u16 == 0u16
        && field_mask(11u16, 1u16) & 0x0u16 == 0u16
        && field_mask(12u16, 1u16) & 0x8112u16 == 0u16
        && field_mask(12u16, 1u16) & 0x0u16 == 0u16
        && field_mask(12u16, 1u16) & 0x800u16 == 0u16
        && field_mask(13u16, 1u16) & 0x8112u16 == 0u16
        && field_mask(13u16, 1u16) & 0x0u16 == 0u16
        && field_mask(13u16, 1u16) & 0x800u16 == 0u16
        && field_mask(14u16, 1u16) & 0x8112u16 == 0u16
        && field_mask(14u16, 1u16) & 0x0u16 == 0u16
        && field_mask(14u16, 1u16) & 0x800u16 == 0u16
        && field_mask(15u16, 1u16) & 0x8112u16 == field_mask(15u16, 1u16)
        && field_mask(15u16, 1u16) & 0x0u16 == 0u16
        && field_mask(15u16, 1u16) & 0x800u16 == 0u16
        && field_mask(0u16, 1u16) & 0xa0u16 == 0u16
        && field_mask(0u16, 1u16) & 0x8u16 == 0u16
        && field_mask(1u16, 1u16) & 0xa0u16 == 0u16
        && field_mask(1u16, 1u16) & 0x8u16 == 0u16
        && field_mask(4u16, 1u16) & 0xa0u16 == 0u16
        && field_mask(4u16, 1u16) & 0x8u16 == 0u16
        && field_mask(5u16, 1u16) & 0xa0u16 == field_mask(5u16, 1u16)
        && field_mask(5u16, 1u16) & 0x8u16 == 0u16
        && field_mask(6u16, 1u16) & 0xa0u16 == 0u16
        && field_mask(6u16, 1u16) & 0x8u16 == 0u16
        && field_mask(7u16, 1u16) & 0xa0u16 == field_mask(7u16, 1u16)
        && field_mask(7u16, 1u16) & 0x8u16 == 0u16
        && field_mask(0u16, 8u16) & 0x0u16 == 0u16
        && field_mask(8u16, 3u16) & 0x0u16 == 0u16
        && field_mask(0u16, 16u16) & 0x0u16 == 0u16
        && field_mask(0u16, 6u16) & 0x0u16 == 0u16
    ) by (bit_vector);
}


/// Writing a plain group over what a register reads, with its sticky flags written as
/// zero, leaves the register with only that group changed and triggers no action.
pub proof fn lemma_plain_write(r: Reg, cur: u16, offset: u16, width: u16, value: u16)
    requires
        well_placed(offset, width),
        field_mask(offset, width) & r.clear_on_write() == 0,
        field_mask(offset, width) & r.read_only() == 0,
        field_mask(offset, width) & r.self_clearing() == 0,
        cur & r.self_clearing() == 0,
    ensures
        stored(r, cur, put_bits(cur & !r.clear_on_write(), offset, width, value)) == put_bits(
            cur,
            offset,
            width,
            value,
        ),
        put_bits(cur & !r.clear_on_write(), offset, width, value) & r.self_clearing() == 0,
{
    let (c, ro, sc) = (r.clear_on_write(), r.read_only(), r.self_clearing());
    let m = field_mask(offset, width);
    let w = put_bits(cur & !c, offset, width, value);
    let p = put_bits(cur, offset, width, value);
    assert((w & !(c | ro | sc)) | (cur & ro) | (cur & c & !w) == p && w & sc == 0u16)
        by (bit_vector)
        requires
            m & c == 0u16,
            m & ro == 0u16,
            m & sc == 0u16,
            cur & sc == 0u16,
            w == ((cur & !c) & !m) | (((value << offset) as u16) & m),
            p == (cur & !m) | (((value << offset) as u16) & m),
    ;
}

/// Writing one to a sticky flag clears that flag alone.
pub proof fn lemma_sticky_write(r: Reg, cur: u16, offset: u16)
    requires
        well_placed(offset, 1),
        field_mask(offset, 1) & r.clear_on_write() == field_mask(offset, 1),
        field_mask(offset, 1) & r.read_only() == 0,
        field_mask(offset, 1) & r.self_clearing() == 0,
        cur & r.self_clearing() == 0,
    ensures
        stored(r, cur, put_bits(cur & !r.clear_on_write(), offset, 1, 1)) == cur & !field_mask(
            offset,
            1,
        ),
        put_bits(cur & !r.clear_on_write(), offset, 1, 1) & r.self_clearing() == 0,
{
    let (c, ro, sc) = (r.clear_on_write(), r.read_only(), r.self_clearing());
    let m = field_mask(offset, 1);
    let w = put_bits(cur & !c, offset, 1, 1);
    assert((w & !(c | ro | sc)) | (cur & ro) | (cur & c & !w) == cur & !m && w & sc == 0u16)
        by (bit_vector)
        requires
            offset < 16u16,
            m == field_mask(offset, 1u16),
            m & c == m,
            m & ro == 0u16,
            m & sc == 0u16,
            cur & sc == 0u16,
            w == ((cur & !c) & !m) | (((1u16 << offset) as u16) & m),
    ;
}

/// Writing one to a self-clearing bit changes no stored bit and triggers its action.
pub proof fn lemma_pulse_write(r: Reg, cur: u16, offset: u16)
    requires
        well_placed(offset, 1),
        field_mask(offset, 1) & r.self_clearing() == field_mask(offset, 1),
        field_mask(offset, 1) & r.clear_on_write() == 0,
        field_mask(offset, 1) & r.read_only() == 0,
        cur & r.self_clearing() == 0,
    ensures
        stored(r, cur, put_bits(cur & !r.clear_on_write(), offset, 1, 1)) == cur,
        put_bits(cur & !r.clear_on_write(), offset, 1, 1) & r.self_clearing() != 0,
{
    let (c, ro, sc) = (r.clear_on_write(), r.read_only(), r.self_clearing());
    let m = field_mask(offset, 1);
    let w = put_bits(cur & !c, offset, 1, 1);
    assert((w & !(c | ro | sc)) | (cur & ro) | (cur & c & !w) == cur && w & sc != 0u16)
        by (bit_vector)
        requires
            offset < 16u16,
            m == field_mask(offset, 1u16),
            m & sc == m,
            m & c == 0u16,
            m & ro == 0u16,
            cur & sc == 0u16,
            w == ((cur & !c) & !m) | (((1u16 << offset) as u16) & m),
    ;
}

} // verus!
