//! The decoder's controller: configuration, status flags and counters over the register
//! block of one instance.
use crate::bitfield::{
    extract_bits, field_mask, get_bits, insert_bits, lemma_cleared_bit, lemma_fits,
    lemma_get_put_same, lemma_low_masks, lemma_put_put, lemma_whole_word, put_bits,
};
use crate::regs::{
    after_counter_read, lemma_layout, lemma_plain_write, lemma_pulse_write, lemma_sticky_write,
    Access, Field, Instance, Reg, RegWrite,
};
use vstd::prelude::*;

verus! {

/// The value of bit group `f` in the register contents `regs`.
pub open spec fn field_value(regs: Seq<u16>, f: Field) -> u16 {
    get_bits(regs[f.reg().index()], f.offset(), f.width())
}

/// The register contents with bit group `f` holding the low bits of `value`.
pub open spec fn with_field(regs: Seq<u16>, f: Field, value: u16) -> Seq<u16> {
    regs.update(f.reg().index(), put_bits(regs[f.reg().index()], f.offset(), f.width(), value))
}

/// The word written to change bit group `f` to `value`: the register as read, sticky flags
/// written as zero so that none is cleared by accident.
pub open spec fn field_write(regs: Seq<u16>, f: Field, value: u16) -> RegWrite {
    RegWrite {
        reg: f.reg(),
        value: put_bits(
            regs[f.reg().index()] & !f.reg().clear_on_write(),
            f.offset(),
            f.width(),
            value,
        ),
    }
}

/// The register contents with the one-bit flag `f` cleared.
pub open spec fn with_flag_cleared(regs: Seq<u16>, f: Field) -> Seq<u16> {
    regs.update(f.reg().index(), regs[f.reg().index()] & !field_mask(f.offset(), f.width()))
}

/// A 32-bit quantity from its upper and lower halves.
pub open spec fn compose(upper: u16, lower: u16) -> int {
    upper as int * 0x10000 + lower as int
}

/// `v` limited to the range `lo..=hi`.
pub open spec fn clamp(v: int, lo: int, hi: int) -> int {
    if v < lo {
        lo
    } else if v > hi {
        hi
    } else {
        v
    }
}

/// The register contents after the two halves of `value` are written to `upper` and `lower`.
pub open spec fn with_split(regs: Seq<u16>, upper: Field, lower: Field, value: u32) -> Seq<u16> {
    with_field(
        with_field(regs, upper, (value as int / 0x10000) as u16),
        lower,
        (value as int % 0x10000) as u16,
    )
}

/// The writes that store the two halves of `value` in `upper` and `lower`.
pub open spec fn split_writes(regs: Seq<u16>, upper: Field, lower: Field, value: u32) -> Seq<
    RegWrite,
> {
    let hi = (value as int / 0x10000) as u16;
    seq![
        field_write(regs, upper, hi),
        field_write(with_field(regs, upper, hi), lower, (value as int % 0x10000) as u16),
    ]
}

/// The writes that program the filter sampling period to `value`: a write of zero first
/// where the period is not zero already.
pub open spec fn sampling_period_writes(regs: Seq<u16>, value: u8) -> Seq<RegWrite> {
    if field_value(regs, Field::FiltPer) != 0 {
        seq![
            field_write(regs, Field::FiltPer, 0),
            field_write(with_field(regs, Field::FiltPer, 0), Field::FiltPer, value as u16),
        ]
    } else {
        seq![field_write(regs, Field::FiltPer, value as u16)]
    }
}

/// The register contents after the position is read: both halves go to the hold
/// registers and the counter clears.
pub open spec fn after_position_read(regs: Seq<u16>) -> Seq<u16> {
    after_counter_read(after_counter_read(regs, Reg::Upos), Reg::Lpos)
}

/// What `set_prescaler` stores for `prescaler`.
pub open spec fn clamped_prescaler(prescaler: u16) -> u16 {
    clamp(prescaler as int, 1, 128) as u16
}

/// What `set_input_filter_count` stores for `count`: the count, limited to 3..=10, less three.
pub open spec fn filter_count_code(count: u16) -> u16 {
    (clamp(count as int, 3, 10) - 3) as u16
}

/// A writable one-bit group that holds what was last written.
pub open spec fn is_enable_bit(f: Field) -> bool {
    f.access() == Access::Plain && f.width() == 1
}

/// A quadrature decoder counter that owns the register block of instance `N`.
pub struct Qdc<const N: u8> {
    qdc: Instance<N>,
}

/// The controller of instance 1.
pub type Qdc1 = Qdc<1>;

/// The controller of instance 2.
pub type Qdc2 = Qdc<2>;

/// The controller of instance 3.
pub type Qdc3 = Qdc<3>;

/// The controller of instance 4.
pub type Qdc4 = Qdc<4>;

impl<const N: u8> Qdc<N> {
    /// What each register of the owned block reads as.
    pub closed spec fn regs(&self) -> Seq<u16> {
        self.qdc.regs()
    }

    /// The writes made to the owned block, oldest first.
    pub closed spec fn writes(&self) -> Seq<RegWrite> {
        self.qdc.writes()
    }

    /// The controller's block always holds one word per register.
    pub proof fn lemma_len(&self)
        ensures
            self.regs().len() == crate::regs::REG_COUNT,
    {
        self.qdc.lemma_regs_len();
    }

    fn field(&self, f: Field) -> (v: u16)
        ensures
            v == field_value(self.regs(), f),
    {
        proof {
            lemma_layout(f);
        }
        let (r, offset, width) = f.place();
        extract_bits(self.qdc.read(r), offset, width)
    }

    fn flag(&self, f: Field) -> (b: bool)
        ensures
            b == (field_value(self.regs(), f) == 1),
    {
        self.field(f) == 1
    }

    fn modify(&mut self, f: Field, value: u16)
        requires
            f.access() == Access::Plain,
        ensures
            final(self).regs() == with_field(old(self).regs(), f, value),
            final(self).writes() == old(self).writes().push(field_write(old(self).regs(), f, value)),
    {
        proof {
            lemma_layout(f);
        }
        let (r, offset, width) = f.place();
        let cur = self.qdc.read(r);
        let (c, _ro, _sc) = r.masks();
        let w = insert_bits(cur & !c, offset, width, value);
        proof {
            lemma_plain_write(r, cur, offset, width, value);
        }
        self.qdc.write(r, w);
        proof {
            assert(final(self).regs() =~= with_field(old(self).regs(), f, value));
        }
    }

    fn set_bit(&mut self, f: Field, enable: bool)
        requires
            is_enable_bit(f),
        ensures
            final(self).regs() == with_field(old(self).regs(), f, enable as u16),
            final(self).writes() == old(self).writes().push(
                field_write(old(self).regs(), f, enable as u16),
            ),
            field_value(final(self).regs(), f) == enable as u16,
    {
        proof {
            self.lemma_len();
            lemma_enable_bit_round_trip(old(self).regs(), f, enable);
        }
        self.modify(f, enable as u16);
    }

    fn clear_flag(&mut self, f: Field)
        requires
            f.access() == Access::Sticky,
            f.width() == 1,
        ensures
            final(self).regs() == with_flag_cleared(old(self).regs(), f),
            final(self).writes() == old(self).writes().push(field_write(old(self).regs(), f, 1)),
            field_value(final(self).regs(), f) == 0,
    {
        proof {
            lemma_layout(f);
            self.lemma_len();
        }
        let (r, offset, width) = f.place();
        let cur = self.qdc.read(r);
        let (c, _ro, _sc) = r.masks();
        let w = insert_bits(cur & !c, offset, width, 1);
        proof {
            lemma_sticky_write(r, cur, offset);
            lemma_cleared_bit(cur, offset);
        }
        self.qdc.write(r, w);
        proof {
            assert(final(self).regs() =~= with_flag_cleared(old(self).regs(), f));
        }
    }

    /// Takes ownership of the register block of instance `N`. Nothing is written: the
    /// peripheral keeps whatever state it had.
    pub fn new(qdc: Instance<N>) -> (r: Self)
        ensures
            r.regs() == qdc.regs(),
            r.writes() == qdc.writes(),
    {
        Qdc { qdc }
    }

    /// Enables or disables the watchdog that watches for motion; two successive counts
    /// restart its timer.
    pub fn set_watchdog_enable(&mut self, enable: bool)
        ensures
            final(self).regs() == with_field(old(self).regs(), Field::Wde, enable as u16),
            final(self).writes() == old(self).writes().push(
                field_write(old(self).regs(), Field::Wde, enable as u16),
            ),
            field_value(final(self).regs(), Field::Wde) == enable as u16,
    {
        self.set_bit(Field::Wde, enable);
    }

    /// Whether the watchdog is enabled.
    pub fn is_watchdog_enabled(&self) -> (r: bool)
        ensures
            r == (field_value(self.regs(), Field::Wde) == 1),
    {
        self.flag(Field::Wde)
    }

    /// Enables or disables the interrupt raised when the watchdog times out.
    pub fn set_watchdog_interrupt_on_timeout_enable(&mut self, enable: bool)
        ensures
            final(self).regs() == with_field(old(self).regs(), Field::Die, enable as u16),
            final(self).writes() == old(self).writes().push(
                field_write(old(self).regs(), Field::Die, enable as u16),
            ),
            field_value(final(self).regs(), Field::Die) == enable as u16,
    {
        self.set_bit(Field::Die, enable);
    }

    /// Whether the watchdog timeout interrupt is enabled.
    pub fn is_watchdog_interrupt_on_timeout_enabled(&self) -> (r: bool)
        ensures
            r == (field_value(self.regs(), Field::Die) == 1),
    {
        self.flag(Field::Die)
    }

    /// Clears the watchdog timeout flag, and no other flag.
    pub fn clear_watchdog_timeout(&mut self)
        ensures
            final(self).regs() == with_flag_cleared(old(self).regs(), Field::Dirq),
            final(self).writes() == old(self).writes().push(
                field_write(old(self).regs(), Field::Dirq, 1),
            ),
            field_value(final(self).regs(), Field::Dirq) == 0,
    {
        self.clear_flag(Field::Dirq);
    }

    /// Whether the watchdog timeout flag is set; it stays set until cleared.
    pub fn is_watchdog_timeout(&self) -> (r: bool)
        ensures
            r == (field_value(self.regs(), Field::Dirq) == 1),
    {
        self.flag(Field::Dirq)
    }

    /// Sets the number of clock cycles before the watchdog times out.
    pub fn set_watchdog_timeout_cycles(&mut self, cycles: u16)
        ensures
            final(self).regs() == with_field(old(self).regs(), Field::Wdog, cycles),
            final(self).writes() == old(self).writes().push(
                field_write(old(self).regs(), Field::Wdog, cycles),
            ),
            field_value(final(self).regs(), Field::Wdog) == cycles,
    {
        proof {
            self.lemma_len();
            lemma_whole_word(self.regs()[Reg::Wtr.index()], cycles);
            lemma_whole_word(cycles, cycles);
        }
        self.modify(Field::Wdog, cycles);
    }

    /// The number of clock cycles before the watchdog times out.
    pub fn watchdog_timeout_cycles(&self) -> (r: u16)
        ensures
            r == field_value(self.regs(), Field::Wdog),
    {
        self.field(Field::Wdog)
    }

    /// Enables or disables counting in the reverse direction.
    pub fn set_reverse_counting_enable(&mut self, enable: bool)
        ensures
            final(self).regs() == with_field(old(self).regs(), Field::Rev, enable as u16),
            final(self).writes() == old(self).writes().push(
                field_write(old(self).regs(), Field::Rev, enable as u16),
            ),
            field_value(final(self).regs(), Field::Rev) == enable as u16,
    {
        self.set_bit(Field::Rev, enable);
    }

    /// Whether reverse counting is enabled.
    pub fn is_reverse_counting_enabled(&self) -> (r: bool)
        ensures
            r == (field_value(self.regs(), Field::Rev) == 1),
    {
        self.flag(Field::Rev)
    }

    /// Enables or disables single phase counting. Disabled, PHASEA and PHASEB form a two
    /// phase quadrature input; enabled, a rising edge on PHASEA counts, up or down by PHASEB
    /// and the reverse setting.
    pub fn set_single_phase_counting_enable(&mut self, enable: bool)
        ensures
            final(self).regs() == with_field(old(self).regs(), Field::Ph1, enable as u16),
            final(self).writes() == old(self).writes().push(
                field_write(old(self).regs(), Field::Ph1, enable as u16),
            ),
            field_value(final(self).regs(), Field::Ph1) == enable as u16,
    {
        self.set_bit(Field::Ph1, enable);
    }

    /// Whether single phase counting is enabled.
    pub fn is_single_phase_counting_enabled(&self) -> (r: bool)
        ensures
            r == (field_value(self.regs(), Field::Ph1) == 1),
    {
        self.flag(Field::Ph1)
    }

    /// Enables or disables the HOME signal interrupt.
    pub fn set_home_signal_interrupt_enable(&mut self, enable: bool)
        ensures
            final(self).regs() == with_field(old(self).regs(), Field::Hie, enable as u16),
            final(self).writes() == old(self).writes().push(
                field_write(old(self).regs(), Field::Hie, enable as u16),
            ),
            field_value(final(self).regs(), Field::Hie) == enable as u16,
    {
        self.set_bit(Field::Hie, enable);
    }

    /// Whether the HOME signal interrupt is enabled.
    pub fn is_home_signal_interrupt_enabled(&self) -> (r: bool)
        ensures
            r == (field_value(self.regs(), Field::Hie) == 1),
    {
        self.flag(Field::Hie)
    }

    /// Clears the HOME signal flag, and no other flag.
    pub fn clear_home_signal_interrupt(&mut self)
        ensures
            final(self).regs() == with_flag_cleared(old(self).regs(), Field::Hirq),
            final(self).writes() == old(self).writes().push(
                field_write(old(self).regs(), Field::Hirq, 1),
            ),
            field_value(final(self).regs(), Field::Hirq) == 0,
    {
        self.clear_flag(Field::Hirq);
    }

    /// Whether the HOME signal flag is set; it stays set until cleared.
    pub fn is_home_signal_interrupt_set(&self) -> (r: bool)
        ensures
            r == (field_value(self.regs(), Field::Hirq) == 1),
    {
        self.flag(Field::Hirq)
    }

    /// Selects the edge of HOME that triggers: the negative edge when enabled, else the
    /// positive one. One bit selects, so it is never both.
    pub fn set_home_signal_negative_edge_enable(&mut self, enable: bool)
        ensures
            final(self).regs() == with_field(old(self).regs(), Field::Hne, enable as u16),
            final(self).writes() == old(self).writes().push(
                field_write(old(self).regs(), Field::Hne, enable as u16),
            ),
            field_value(final(self).regs(), Field::Hne) == enable as u16,
    {
        self.set_bit(Field::Hne, enable);
    }

    /// Whether HOME triggers on its negative edge.
    pub fn is_home_signal_negative_edge_enabled(&self) -> (r: bool)
        ensures
            r == (field_value(self.regs(), Field::Hne) == 1),
    {
        self.flag(Field::Hne)
    }

    /// Enables or disables loading the position counter from the initialization value on HOME.
    pub fn set_home_initialize_position_counter_enable(&mut self, enable: bool)
        ensures
            final(self).regs() == with_field(old(self).regs(), Field::Hip, enable as u16),
            final(self).writes() == old(self).writes().push(
                field_write(old(self).regs(), Field::Hip, enable as u16),
            ),
            field_value(final(self).regs(), Field::Hip) == enable as u16,
    {
        self.set_bit(Field::Hip, enable);
    }

    /// Whether HOME loads the position counter.
    pub fn is_home_initialize_position_counter_enabled(&self) -> (r: bool)
        ensures
            r == (field_value(self.regs(), Field::Hip) == 1),
    {
        self.flag(Field::Hip)
    }

    /// Enables or disables the INDEX signal interrupt.
    pub fn set_index_signal_interrupt_enable(&mut self, enable: bool)
        ensures
            final(self).regs() == with_field(old(self).regs(), Field::Xie, enable as u16),
            final(self).writes() == old(self).writes().push(
                field_write(old(self).regs(), Field::Xie, enable as u16),
            ),
            field_value(final(self).regs(), Field::Xie) == enable as u16,
    {
        self.set_bit(Field::Xie, enable);
    }

    /// Whether the INDEX signal interrupt is enabled.
    pub fn is_index_signal_interrupt_enabled(&self) -> (r: bool)
        ensures
            r == (field_value(self.regs(), Field::Xie) == 1),
    {
        self.flag(Field::Xie)
    }

    /// Clears the INDEX signal flag, and no other flag.
    pub fn clear_index_signal_interrupt(&mut self)
        ensures
            final(self).regs() == with_flag_cleared(old(self).regs(), Field::Xirq),
            final(self).writes() == old(self).writes().push(
                field_write(old(self).regs(), Field::Xirq, 1),
            ),
            field_value(final(self).regs(), Field::Xirq) == 0,
    {
        self.clear_flag(Field::Xirq);
    }

    /// Whether the INDEX signal flag is set; it stays set until cleared.
    pub fn is_index_signal_interrupt_set(&self) -> (r: bool)
        ensures
            r == (field_value(self.regs(), Field::Xirq) == 1),
    {
        self.flag(Field::Xirq)
    }

    /// Selects the edge of INDEX that triggers: the negative edge when enabled, else the
    /// positive one. INDEX counts revolutions.
    pub fn set_index_signal_negative_edge_enable(&mut self, enable: bool)
        ensures
            final(self).regs() == with_field(old(self).regs(), Field::Xne, enable as u16),
            final(self).writes() == old(self).writes().push(
                field_write(old(self).regs(), Field::Xne, enable as u16),
            ),
            field_value(final(self).regs(), Field::Xne) == enable as u16,
    {
        self.set_bit(Field::Xne, enable);
    }

    /// Whether INDEX triggers on its negative edge.
    pub fn is_index_signal_negative_edge_enabled(&self) -> (r: bool)
        ensures
            r == (field_value(self.regs(), Field::Xne) == 1),
    {
        self.flag(Field::Xne)
    }

    /// Enables or disables loading the position counter from the initialization value on INDEX.
    pub fn set_index_initialize_position_counter_enable(&mut self, enable: bool)
        ensures
            final(self).regs() == with_field(old(self).regs(), Field::Xip, enable as u16),
            final(self).writes() == old(self).writes().push(
                field_write(old(self).regs(), Field::Xip, enable as u16),
            ),
            field_value(final(self).regs(), Field::Xip) == enable as u16,
    {
        self.set_bit(Field::Xip, enable);
    }

    /// Whether INDEX loads the position counter.
    pub fn is_index_initialize_position_counter_enabled(&self) -> (r: bool)
        ensures
            r == (field_value(self.regs(), Field::Xip) == 1),
    {
        self.flag(Field::Xip)
    }

    /// Enables or disables the compare interrupt.
    pub fn set_compare_interrupt_enable(&mut self, enable: bool)
        ensures
            final(self).regs() == with_field(old(self).regs(), Field::Cmpie, enable as u16),
            final(self).writes() == old(self).writes().push(
                field_write(old(self).regs(), Field::Cmpie, enable as u16),
            ),
            field_value(final(self).regs(), Field::Cmpie) == enable as u16,
    {
        self.set_bit(Field::Cmpie, enable);
    }

    /// Whether the compare interrupt is enabled.
    pub fn is_compare_interrupt_enabled(&self) -> (r: bool)
        ensures
            r == (field_value(self.regs(), Field::Cmpie) == 1),
    {
        self.flag(Field::Cmpie)
    }

    /// Clears the compare flag, and no other flag.
    pub fn clear_compare_interrupt(&mut self)
        ensures
            final(self).regs() == with_flag_cleared(old(self).regs(), Field::Cmpirq),
            final(self).writes() == old(self).writes().push(
                field_write(old(self).regs(), Field::Cmpirq, 1),
            ),
            field_value(final(self).regs(), Field::Cmpirq) == 0,
    {
        self.clear_flag(Field::Cmpirq);
    }

    /// Whether the compare flag is set; it stays set until cleared.
    pub fn is_compare_interrupt_set(&self) -> (r: bool)
        ensures
            r == (field_value(self.regs(), Field::Cmpirq) == 1),
    {
        self.flag(Field::Cmpirq)
    }

    /// Enables or disables clearing the position, revolution and difference counters on the
    /// rising edge of TRIGGER.
    pub fn set_trigger_clear_primary_enable(&mut self, enable: bool)
        ensures
            final(self).regs() == with_field(old(self).regs(), Field::Updpos, enable as u16),
            final(self).writes() == old(self).writes().push(
                field_write(old(self).regs(), Field::Updpos, enable as u16),
            ),
            field_value(final(self).regs(), Field::Updpos) == enable as u16,
    {
        self.set_bit(Field::Updpos, enable);
    }

    /// Whether TRIGGER clears the counters.
    pub fn is_trigger_clear_primary_enabled(&self) -> (r: bool)
        ensures
            r == (field_value(self.regs(), Field::Updpos) == 1),
    {
        self.flag(Field::Updpos)
    }

    /// Enables or disables copying the counters to their hold registers on the rising edge of
    /// TRIGGER.
    pub fn set_trigger_update_previous_enable(&mut self, enable: bool)
        ensures
            final(self).regs() == with_field(old(self).regs(), Field::Updhld, enable as u16),
            final(self).writes() == old(self).writes().push(
                field_write(old(self).regs(), Field::Updhld, enable as u16),
            ),
            field_value(final(self).regs(), Field::Updhld) == enable as u16,
    {
        self.set_bit(Field::Updhld, enable);
    }

    /// Whether TRIGGER updates the hold registers.
    pub fn is_trigger_update_previous_enabled(&self) -> (r: bool)
        ensures
            r == (field_value(self.regs(), Field::Updhld) == 1),
    {
        self.flag(Field::Updhld)
    }

    /// Enables or disables test mode, in which a generated quadrature signal drives the counter.
    pub fn set_test_mode_enable(&mut self, enable: bool)
        ensures
            final(self).regs() == with_field(old(self).regs(), Field::Ten, enable as u16),
            final(self).writes() == old(self).writes().push(
                field_write(old(self).regs(), Field::Ten, enable as u16),
            ),
            field_value(final(self).regs(), Field::Ten) == enable as u16,
    {
        self.set_bit(Field::Ten, enable);
    }

    /// Whether test mode is enabled.
    pub fn is_test_mode_enabled(&self) -> (r: bool)
        ensures
            r == (field_value(self.regs(), Field::Ten) == 1),
    {
        self.flag(Field::Ten)
    }

    /// Enables or disables the test signal generator; it sends nothing until enabled.
    pub fn set_test_counter_enable(&mut self, enable: bool)
        ensures
            final(self).regs() == with_field(old(self).regs(), Field::Tce, enable as u16),
            final(self).writes() == old(self).writes().push(
                field_write(old(self).regs(), Field::Tce, enable as u16),
            ),
            field_value(final(self).regs(), Field::Tce) == enable as u16,
    {
        self.set_bit(Field::Tce, enable);
    }

    /// Whether the test signal generator is enabled.
    pub fn is_test_counter_enabled(&self) -> (r: bool)
        ensures
            r == (field_value(self.regs(), Field::Tce) == 1),
    {
        self.flag(Field::Tce)
    }

    /// Makes the test signal count down when enabled, up otherwise.
    pub fn set_test_reverse_mode_enable(&mut self, enable: bool)
        ensures
            final(self).regs() == with_field(old(self).regs(), Field::Qdn, enable as u16),
            final(self).writes() == old(self).writes().push(
                field_write(old(self).regs(), Field::Qdn, enable as u16),
            ),
            field_value(final(self).regs(), Field::Qdn) == enable as u16,
    {
        self.set_bit(Field::Qdn, enable);
    }

    /// Whether the test signal counts down.
    pub fn is_test_reverse_mode_enabled(&self) -> (r: bool)
        ensures
            r == (field_value(self.regs(), Field::Qdn) == 1),
    {
        self.flag(Field::Qdn)
    }

    /// Enables or disables the modulus rollunder interrupt.
    pub fn set_modulus_rollunder_interrupt_enable(&mut self, enable: bool)
        ensures
            final(self).regs() == with_field(old(self).regs(), Field::Ruie, enable as u16),
            final(self).writes() == old(self).writes().push(
                field_write(old(self).regs(), Field::Ruie, enable as u16),
            ),
            field_value(final(self).regs(), Field::Ruie) == enable as u16,
    {
        self.set_bit(Field::Ruie, enable);
    }

    /// Whether the modulus rollunder interrupt is enabled.
    pub fn is_modulus_rollunder_interrupt_enabled(&self) -> (r: bool)
        ensures
            r == (field_value(self.regs(), Field::Ruie) == 1),
    {
        self.flag(Field::Ruie)
    }

    /// Clears the modulus rollunder flag, and no other flag.
    pub fn clear_modulus_rollunder_interrupt(&mut self)
        ensures
            final(self).regs() == with_flag_cleared(old(self).regs(), Field::Ruirq),
            final(self).writes() == old(self).writes().push(
                field_write(old(self).regs(), Field::Ruirq, 1),
            ),
            field_value(final(self).regs(), Field::Ruirq) == 0,
    {
        self.clear_flag(Field::Ruirq);
    }

    /// Whether the modulus rollunder flag is set; it stays set until cleared.
    pub fn is_modulus_rollunder_interrupt_set(&self) -> (r: bool)
        ensures
            r == (field_value(self.regs(), Field::Ruirq) == 1),
    {
        self.flag(Field::Ruirq)
    }

    /// Enables or disables the modulus rollover interrupt.
    pub fn set_modulus_rollover_interrupt_enable(&mut self, enable: bool)
        ensures
            final(self).regs() == with_field(old(self).regs(), Field::Roie, enable as u16),
            final(self).writes() == old(self).writes().push(
                field_write(old(self).regs(), Field::Roie, enable as u16),
            ),
            field_value(final(self).regs(), Field::Roie) == enable as u16,
    {
        self.set_bit(Field::Roie, enable);
    }

    /// Whether the modulus rollover interrupt is enabled.
    pub fn is_modulus_rollover_interrupt_enabled(&self) -> (r: bool)
        ensures
            r == (field_value(self.regs(), Field::Roie) == 1),
    {
        self.flag(Field::Roie)
    }

    /// Clears the modulus rollover flag, and no other flag.
    pub fn clear_modulus_rollover_interrupt(&mut self)
        ensures
            final(self).regs() == with_flag_cleared(old(self).regs(), Field::Roirq),
            final(self).writes() == old(self).writes().push(
                field_write(old(self).regs(), Field::Roirq, 1),
            ),
            field_value(final(self).regs(), Field::Roirq) == 0,
    {
        self.clear_flag(Field::Roirq);
    }

    /// Whether the modulus rollover flag is set; it stays set until cleared.
    pub fn is_modulus_rollover_interrupt_set(&self) -> (r: bool)
        ensures
            r == (field_value(self.regs(), Field::Roirq) == 1),
    {
        self.flag(Field::Roirq)
    }

    fn set_split(&mut self, upper: Field, lower: Field, value: u32)
        requires
            upper.access() == Access::Plain,
            lower.access() == Access::Plain,
            upper.offset() == 0 && upper.width() == 16,
            lower.offset() == 0 && lower.width() == 16,
            upper.reg() != lower.reg(),
        ensures
            final(self).regs() == with_split(old(self).regs(), upper, lower, value),
            final(self).writes() == old(self).writes() + split_writes(
                old(self).regs(),
                upper,
                lower,
                value,
            ),
            final(self).regs()[upper.reg().index()] as int == value as int / 0x10000,
            final(self).regs()[lower.reg().index()] as int == value as int % 0x10000,
    {
        proof {
            self.lemma_len();
        }
        let hi = (value / 0x10000) as u16;
        let lo = (value % 0x10000) as u16;
        self.modify(upper, hi);
        self.modify(lower, lo);
        proof {
            let r0 = old(self).regs();
            let r1 = with_field(r0, upper, hi);
            lemma_whole_word(r0[upper.reg().index()], hi);
            lemma_whole_word(r1[lower.reg().index()], lo);
            assert(final(self).writes() =~= old(self).writes() + split_writes(r0, upper, lower, value));
        }
    }

    fn get_split(&self, upper: Field, lower: Field) -> (v: u32)
        requires
            upper.offset() == 0 && upper.width() == 16,
            lower.offset() == 0 && lower.width() == 16,
        ensures
            v as int == compose(self.regs()[upper.reg().index()], self.regs()[lower.reg().index()]),
    {
        let hi = self.field(upper);
        let lo = self.field(lower);
        proof {
            lemma_whole_word(self.regs()[upper.reg().index()], 0);
            lemma_whole_word(self.regs()[lower.reg().index()], 0);
        }
        (hi as u32) * 0x10000 + (lo as u32)
    }

    /// Loads the position counter with `value`: the initialization registers are set first,
    /// then the software-initialize bit copies them into the counter.
    pub fn initialize_position_counter_to_value(&mut self, value: u32)
        ensures
            final(self).regs() == ({
                let s = with_split(old(self).regs(), Field::Uinit, Field::Linit, value);
                s.update(Reg::Upos.index(), s[Reg::Uinit.index()]).update(
                    Reg::Lpos.index(),
                    s[Reg::Linit.index()],
                )
            }),
            final(self).writes() == old(self).writes() + split_writes(
                old(self).regs(),
                Field::Uinit,
                Field::Linit,
                value,
            ).push(
                field_write(
                    with_split(old(self).regs(), Field::Uinit, Field::Linit, value),
                    Field::Swip,
                    1,
                ),
            ),
            compose(final(self).regs()[Reg::Upos.index()], final(self).regs()[Reg::Lpos.index()])
                == value as int,
    {
        self.set_position_initialization_value(value);
        proof {
            self.lemma_len();
            lemma_layout(Field::Swip);
        }
        let (r, offset, width) = Field::Swip.place();
        let cur = self.qdc.read(r);
        let (c, _ro, _sc) = r.masks();
        let w = insert_bits(cur & !c, offset, width, 1);
        proof {
            lemma_pulse_write(r, cur, offset);
        }
        self.qdc.write(r, w);
        proof {
            let s = with_split(old(self).regs(), Field::Uinit, Field::Linit, value);
            assert(final(self).regs() =~= s.update(Reg::Upos.index(), s[Reg::Uinit.index()]).update(
                Reg::Lpos.index(),
                s[Reg::Linit.index()],
            ));
        }
    }

    /// Sets the initialization value of the position counter without loading the counter:
    /// the upper half is written, then the lower half.
    pub fn set_position_initialization_value(&mut self, value: u32)
        ensures
            final(self).regs() == with_split(old(self).regs(), Field::Uinit, Field::Linit, value),
            final(self).writes() == old(self).writes() + split_writes(
                old(self).regs(),
                Field::Uinit,
                Field::Linit,
                value,
            ),
            compose(final(self).regs()[Reg::Uinit.index()], final(self).regs()[Reg::Linit.index()])
                == value as int,
    {
        self.set_split(Field::Uinit, Field::Linit, value);
    }

    /// The initialization value of the position counter.
    pub fn position_initialization_value(&mut self) -> (r: u32)
        ensures
            r as int == compose(
                old(self).regs()[Reg::Uinit.index()],
                old(self).regs()[Reg::Linit.index()],
            ),
            final(self).regs() == old(self).regs(),
            final(self).writes() == old(self).writes(),
    {
        self.get_split(Field::Uinit, Field::Linit)
    }

    /// Sets the value that the position is compared against: the upper half is written,
    /// then the lower half.
    pub fn set_compare_value(&mut self, value: u32)
        ensures
            final(self).regs() == with_split(old(self).regs(), Field::Ucomp, Field::Lcomp, value),
            final(self).writes() == old(self).writes() + split_writes(
                old(self).regs(),
                Field::Ucomp,
                Field::Lcomp,
                value,
            ),
            compose(final(self).regs()[Reg::Ucomp.index()], final(self).regs()[Reg::Lcomp.index()])
                == value as int,
    {
        self.set_split(Field::Ucomp, Field::Lcomp, value);
    }

    /// The value that the position is compared against.
    pub fn compare_value(&mut self) -> (r: u32)
        ensures
            r as int == compose(
                old(self).regs()[Reg::Ucomp.index()],
                old(self).regs()[Reg::Lcomp.index()],
            ),
            final(self).regs() == old(self).regs(),
            final(self).writes() == old(self).writes(),
    {
        self.get_split(Field::Ucomp, Field::Lcomp)
    }

    /// The filter clock prescaler: the clock is divided by two to its power.
    pub fn prescaler(&self) -> (r: u16)
        ensures
            r == field_value(self.regs(), Field::FiltPrsc),
    {
        self.field(Field::FiltPrsc)
    }

    /// Sets the filter clock prescaler, limited to 1..=128 and stored as it is.
    pub fn set_prescaler(&mut self, prescaler: u16)
        ensures
            final(self).regs() == with_field(
                old(self).regs(),
                Field::FiltPrsc,
                clamped_prescaler(prescaler),
            ),
            final(self).writes() == old(self).writes().push(
                field_write(old(self).regs(), Field::FiltPrsc, clamped_prescaler(prescaler)),
            ),
            field_value(final(self).regs(), Field::FiltPrsc) == clamped_prescaler(prescaler),
            1 <= field_value(final(self).regs(), Field::FiltPrsc) <= 128,
    {
        let clamped: u16 = if prescaler < 1 {
            1
        } else if prescaler > 128 {
            128
        } else {
            prescaler
        };
        proof {
            self.lemma_len();
            lemma_low_masks();
            lemma_get_put_same(self.regs()[Reg::Fprsc.index()], 0, 8, clamped);
            lemma_fits(0, 0, 8, clamped);
        }
        self.modify(Field::FiltPrsc, clamped);
    }

    /// The number of consecutive samples that must agree before the input filter accepts a
    /// transition, between 3 and 10.
    pub fn input_filter_count(&self) -> (r: u16)
        ensures
            r as int == field_value(self.regs(), Field::FiltCnt) as int + 3,
            3 <= r <= 10,
    {
        let code = self.field(Field::FiltCnt);
        proof {
            lemma_layout(Field::FiltCnt);
            lemma_low_masks();
            lemma_fits(self.regs()[Reg::Filt.index()], 8, 3, 0);
        }
        code + 3
    }

    /// Sets the input filter's sample count, limited to 3..=10; the register holds the count
    /// less three.
    pub fn set_input_filter_count(&mut self, value: u16)
        ensures
            final(self).regs() == with_field(
                old(self).regs(),
                Field::FiltCnt,
                filter_count_code(value),
            ),
            final(self).writes() == old(self).writes().push(
                field_write(old(self).regs(), Field::FiltCnt, filter_count_code(value)),
            ),
            field_value(final(self).regs(), Field::FiltCnt) as int + 3 == clamp(value as int, 3, 10),
    {
        let clamped: u16 = if value < 3 {
            3
        } else if value > 10 {
            10
        } else {
            value
        };
        let code = clamped - 3;
        proof {
            self.lemma_len();
            lemma_layout(Field::FiltCnt);
            lemma_low_masks();
            lemma_get_put_same(self.regs()[Reg::Filt.index()], 8, 3, code);
            lemma_fits(0, 8, 3, code);
        }
        self.modify(Field::FiltCnt, code);
    }

    /// Disables the input filter by setting its sampling period to zero.
    pub fn disable_input_filter(&mut self)
        ensures
            final(self).regs() == with_field(old(self).regs(), Field::FiltPer, 0),
            final(self).writes() == old(self).writes().push(
                field_write(old(self).regs(), Field::FiltPer, 0),
            ),
    {
        self.modify(Field::FiltPer, 0);
    }

    /// The input filter's sampling period in clock cycles; zero when the filter is disabled.
    pub fn input_sampling_period(&self) -> (r: u16)
        ensures
            r == field_value(self.regs(), Field::FiltPer),
    {
        self.field(Field::FiltPer)
    }

    /// Sets the input filter's sampling period in clock cycles. A period in force is first
    /// set to zero: the filter is disabled before it is programmed again.
    pub fn set_input_sampling_period(&mut self, value: u8)
        ensures
            final(self).regs() == with_field(old(self).regs(), Field::FiltPer, value as u16),
            final(self).writes() == old(self).writes() + sampling_period_writes(
                old(self).regs(),
                value,
            ),
            field_value(final(self).regs(), Field::FiltPer) == value as u16,
    {
        proof {
            self.lemma_len();
            lemma_layout(Field::FiltPer);
            lemma_low_masks();
        }
        let ghost r0 = self.regs();
        let ghost w0 = self.writes();
        if self.field(Field::FiltPer) != 0 {
            self.modify(Field::FiltPer, 0);
        }
        let ghost r1 = self.regs();
        self.modify(Field::FiltPer, value as u16);
        proof {
            let i = Reg::Filt.index();
            lemma_put_put(r0[i], 0, 8, 0, value as u16);
            lemma_get_put_same(r1[i], 0, 8, value as u16);
            lemma_fits(0, 0, 8, value as u16);
            assert(final(self).regs() =~= with_field(r0, Field::FiltPer, value as u16));
            assert(final(self).writes() =~= w0 + sampling_period_writes(r0, value));
        }
    }

    /// The position difference counter: its value moves to the hold register and the
    /// counter clears.
    pub fn position_difference(&mut self) -> (r: u16)
        ensures
            r == old(self).regs()[Reg::Posd.index()],
            final(self).regs() == after_counter_read(old(self).regs(), Reg::Posd),
            final(self).writes() == old(self).writes(),
    {
        self.qdc.read_counter(Reg::Posd)
    }

    /// The position difference as it was last read; reading it has no side effect.
    pub fn previous_position_difference(&self) -> (r: u16)
        ensures
            r == self.regs()[Reg::Posdh.index()],
    {
        self.qdc.read(Reg::Posdh)
    }

    /// The revolution counter, stepped by INDEX: its value moves to the hold register and
    /// the counter clears.
    pub fn revolution_count(&mut self) -> (r: u16)
        ensures
            r == old(self).regs()[Reg::Rev.index()],
            final(self).regs() == after_counter_read(old(self).regs(), Reg::Rev),
            final(self).writes() == old(self).writes(),
    {
        self.qdc.read_counter(Reg::Rev)
    }

    /// The revolution count as it was last read; reading it has no side effect.
    pub fn previous_revolution_count(&self) -> (r: u16)
        ensures
            r == self.regs()[Reg::Revh.index()],
    {
        self.qdc.read(Reg::Revh)
    }

    /// The position counter: both halves move to the hold registers and the counter clears.
    pub fn position_count(&mut self) -> (r: u32)
        ensures
            r as int == compose(
                old(self).regs()[Reg::Upos.index()],
                old(self).regs()[Reg::Lpos.index()],
            ),
            final(self).regs() == after_position_read(old(self).regs()),
            final(self).writes() == old(self).writes(),
    {
        proof {
            self.lemma_len();
        }
        let upper = self.qdc.read_counter(Reg::Upos);
        let lower = self.qdc.read_counter(Reg::Lpos);
        (upper as u32) * 0x10000 + (lower as u32)
    }

    /// The position as it was last read; reading it has no side effect.
    pub fn previous_position_count(&mut self) -> (r: u32)
        ensures
            r as int == compose(
                old(self).regs()[Reg::Uposh.index()],
                old(self).regs()[Reg::Lposh.index()],
            ),
            final(self).regs() == old(self).regs(),
            final(self).writes() == old(self).writes(),
    {
        let upper = self.qdc.read(Reg::Uposh);
        let lower = self.qdc.read(Reg::Lposh);
        (upper as u32) * 0x10000 + (lower as u32)
    }

    /// The direction of the most recent count: true when it was up.
    pub fn count_direction(&self) -> (r: bool)
        ensures
            r == (field_value(self.regs(), Field::Dir) == 1),
    {
        self.flag(Field::Dir)
    }

    /// The input levels as one byte, from the most significant bit down: filtered PHASEA,
    /// PHASEB, INDEX and HOME, then raw PHASEA, PHASEB, INDEX and HOME.
    pub fn input_monitor(&self) -> (r: u8)
        ensures
            r as int == self.regs()[Reg::Imr.index()] as int % 0x100,
    {
        (self.qdc.read(Reg::Imr) % 0x100) as u8
    }

    /// The number of quadrature pulses the test generator makes once enabled.
    pub fn test_pulse_count(&self) -> (r: u16)
        ensures
            r == field_value(self.regs(), Field::TestCount),
    {
        self.field(Field::TestCount)
    }

    /// Sets the number of quadrature pulses the test generator makes, limited to 0..=255.
    pub fn set_test_pulse_count(&mut self, value: u16)
        ensures
            final(self).regs() == with_field(
                old(self).regs(),
                Field::TestCount,
                clamp(value as int, 0, 255) as u16,
            ),
            final(self).writes() == old(self).writes().push(
                field_write(old(self).regs(), Field::TestCount, clamp(value as int, 0, 255) as u16),
            ),
            field_value(final(self).regs(), Field::TestCount) as int == clamp(value as int, 0, 255),
    {
        let clamped: u16 = if value > 255 {
            255
        } else {
            value
        };
        proof {
            self.lemma_len();
            lemma_low_masks();
            lemma_get_put_same(self.regs()[Reg::Tst.index()], 0, 8, clamped);
            lemma_fits(0, 0, 8, clamped);
        }
        self.modify(Field::TestCount, clamped);
    }

    /// The period in clock cycles of the test generator's quadrature signal.
    pub fn test_pulse_period(&self) -> (r: u16)
        ensures
            r == field_value(self.regs(), Field::TestPeriod),
    {
        self.field(Field::TestPeriod)
    }

    /// Sets the period in clock cycles of the test generator's signal, limited to 0..=32.
    pub fn set_test_pulse_period(&mut self, value: u16)
        ensures
            final(self).regs() == with_field(
                old(self).regs(),
                Field::TestPeriod,
                clamp(value as int, 0, 32) as u16,
            ),
            final(self).writes() == old(self).writes().push(
                field_write(old(self).regs(), Field::TestPeriod, clamp(value as int, 0, 32) as u16),
            ),
            field_value(final(self).regs(), Field::TestPeriod) as int == clamp(value as int, 0, 32),
    {
        let clamped: u16 = if value > 32 {
            32
        } else {
            value
        };
        proof {
            self.lemma_len();
            lemma_low_masks();
            lemma_get_put_same(self.regs()[Reg::Tper.index()], 0, 6, clamped);
            lemma_fits(0, 0, 6, clamped);
        }
        self.modify(Field::TestPeriod, clamped);
    }

    /// Gives the register block back as it is: nothing is written.
    pub fn release(self) -> (r: Instance<N>)
        ensures
            r.regs() == self.regs(),
            r.writes() == self.writes(),
    {
        self.qdc
    }
}

/// Writing an enable bit and reading it back gives what was written; writing it again
/// with the same value changes nothing.
pub proof fn lemma_enable_bit_round_trip(regs: Seq<u16>, f: Field, enable: bool)
    requires
        regs.len() == crate::regs::REG_COUNT,
        is_enable_bit(f),
    ensures
        field_value(with_field(regs, f, enable as u16), f) == enable as u16,
        with_field(with_field(regs, f, enable as u16), f, enable as u16) == with_field(
            regs,
            f,
            enable as u16,
        ),
{
    lemma_layout(f);
    lemma_low_masks();
    let i = f.reg().index();
    lemma_get_put_same(regs[i], f.offset(), f.width(), enable as u16);
    lemma_put_put(regs[i], f.offset(), f.width(), enable as u16, enable as u16);
    assert(with_field(with_field(regs, f, enable as u16), f, enable as u16) =~= with_field(
        regs,
        f,
        enable as u16,
    ));
}

} // verus!
