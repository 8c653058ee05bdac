//! Properties that relate several operations of the controller.
use crate::bitfield::{
    disjoint, get_bits, lemma_cleared_bit, lemma_cleared_bit_other, lemma_fits, lemma_get_put_other,
    lemma_get_put_same, lemma_low_masks, lemma_whole_word,
};
use crate::qdc::{
    after_position_read, clamp, clamped_prescaler, compose, field_value, field_write,
    filter_count_code, is_enable_bit, sampling_period_writes, with_field, with_flag_cleared,
    with_split,
};
use crate::regs::{after_counter_read, lemma_layout, Access, Field, Reg, REG_COUNT};
use vstd::prelude::*;

verus! {

/// A sticky status flag and the enable bit of its interrupt.
pub open spec fn flag_and_enable(flag: Field, enable: Field) -> bool {
    ||| flag == Field::Dirq && enable == Field::Die
    ||| flag == Field::Hirq && enable == Field::Hie
    ||| flag == Field::Xirq && enable == Field::Xie
    ||| flag == Field::Cmpirq && enable == Field::Cmpie
    ||| flag == Field::Ruirq && enable == Field::Ruie
    ||| flag == Field::Roirq && enable == Field::Roie
}

/// A prescaler below one stores what one stores, and one above 128 what 128 stores; the
/// prescaler reads back as the value limited to 1..=128.
pub proof fn lemma_prescaler_clamps(regs: Seq<u16>, prescaler: u16)
    requires
        regs.len() == REG_COUNT,
    ensures
        field_value(with_field(regs, Field::FiltPrsc, clamped_prescaler(prescaler)), Field::FiltPrsc)
            as int == clamp(prescaler as int, 1, 128),
        prescaler <= 1 ==> with_field(regs, Field::FiltPrsc, clamped_prescaler(prescaler))
            == with_field(regs, Field::FiltPrsc, clamped_prescaler(1)) && field_write(
            regs,
            Field::FiltPrsc,
            clamped_prescaler(prescaler),
        ) == field_write(regs, Field::FiltPrsc, clamped_prescaler(1)),
        prescaler >= 128 ==> with_field(regs, Field::FiltPrsc, clamped_prescaler(prescaler))
            == with_field(regs, Field::FiltPrsc, clamped_prescaler(128)) && field_write(
            regs,
            Field::FiltPrsc,
            clamped_prescaler(prescaler),
        ) == field_write(regs, Field::FiltPrsc, clamped_prescaler(128)),
{
    lemma_low_masks();
    lemma_get_put_same(regs[Reg::Fprsc.index()], 0, 8, clamped_prescaler(prescaler));
    lemma_fits(0, 0, 8, clamped_prescaler(prescaler));
}

/// The sample count read back after it is set is the count asked for, limited to 3..=10.
pub proof fn lemma_filter_count_clamps(regs: Seq<u16>, count: u16)
    requires
        regs.len() == REG_COUNT,
    ensures
        field_value(with_field(regs, Field::FiltCnt, filter_count_code(count)), Field::FiltCnt)
            as int + 3 == clamp(count as int, 3, 10),
        count <= 3 ==> field_value(
            with_field(regs, Field::FiltCnt, filter_count_code(count)),
            Field::FiltCnt,
        ) as int + 3 == 3,
        count >= 10 ==> field_value(
            with_field(regs, Field::FiltCnt, filter_count_code(count)),
            Field::FiltCnt,
        ) as int + 3 == 10,
{
    lemma_low_masks();
    lemma_get_put_same(regs[Reg::Filt.index()], 8, 3, filter_count_code(count));
    lemma_fits(0, 8, 3, filter_count_code(count));
}

/// A 32-bit value written to a register pair reads back unchanged.
pub proof fn lemma_split_round_trip(regs: Seq<u16>, value: u32)
    requires
        regs.len() == REG_COUNT,
    ensures
        compose(
            with_split(regs, Field::Ucomp, Field::Lcomp, value)[Reg::Ucomp.index()],
            with_split(regs, Field::Ucomp, Field::Lcomp, value)[Reg::Lcomp.index()],
        ) == value as int,
        compose(
            with_split(regs, Field::Uinit, Field::Linit, value)[Reg::Uinit.index()],
            with_split(regs, Field::Uinit, Field::Linit, value)[Reg::Linit.index()],
        ) == value as int,
{
    let hi = (value as int / 0x10000) as u16;
    let lo = (value as int % 0x10000) as u16;
    lemma_whole_word(regs[Reg::Ucomp.index()], hi);
    lemma_whole_word(regs[Reg::Lcomp.index()], lo);
    lemma_whole_word(regs[Reg::Uinit.index()], hi);
    lemma_whole_word(regs[Reg::Linit.index()], lo);
}

/// A raised flag stays raised when its interrupt is enabled or disabled; clearing it
/// makes it read zero and leaves every other sticky flag as it was.
pub proof fn lemma_sticky_flag(regs: Seq<u16>, flag: Field, enable: Field, on: bool, other: Field)
    requires
        regs.len() == REG_COUNT,
        flag_and_enable(flag, enable),
        other.access() == Access::Sticky,
        other != flag,
    ensures
        field_value(with_field(regs, enable, on as u16), flag) == field_value(regs, flag),
        field_value(with_flag_cleared(regs, flag), flag) == 0,
        field_value(with_flag_cleared(regs, flag), other) == field_value(regs, other),
{
    lemma_layout(flag);
    lemma_layout(enable);
    lemma_layout(other);
    let i = flag.reg().index();
    lemma_get_put_other(regs[i], enable.offset(), 1, on as u16, flag.offset(), 1);
    lemma_cleared_bit(regs[i], flag.offset());
    if other.reg() == flag.reg() {
        assert(other.offset() != flag.offset());
        lemma_cleared_bit_other(regs[i], flag.offset(), other.offset());
    }
}

/// Reading the position leaves the value it had in the hold registers and clears the
/// counter.
pub proof fn lemma_position_snapshot(regs: Seq<u16>)
    requires
        regs.len() == REG_COUNT,
    ensures
        compose(
            after_position_read(regs)[Reg::Uposh.index()],
            after_position_read(regs)[Reg::Lposh.index()],
        ) == compose(regs[Reg::Upos.index()], regs[Reg::Lpos.index()]),
        compose(
            after_position_read(regs)[Reg::Upos.index()],
            after_position_read(regs)[Reg::Lpos.index()],
        ) == 0,
{
}

/// Changing a sampling period in force takes two writes: one that sets the period to
/// zero, then one that sets the new period.
pub proof fn lemma_sampling_period_rewrite(regs: Seq<u16>, value: u8)
    requires
        regs.len() == REG_COUNT,
        field_value(regs, Field::FiltPer) != 0,
    ensures
        sampling_period_writes(regs, value).len() == 2,
        sampling_period_writes(regs, value)[0].reg == Reg::Filt,
        get_bits(sampling_period_writes(regs, value)[0].value, 0, 8) == 0,
        sampling_period_writes(regs, value)[1].reg == Reg::Filt,
        get_bits(sampling_period_writes(regs, value)[1].value, 0, 8) == value as u16,
{
    let c = Reg::Filt.clear_on_write();
    let x = regs[Reg::Filt.index()];
    let y = with_field(regs, Field::FiltPer, 0)[Reg::Filt.index()];
    lemma_low_masks();
    lemma_get_put_same(x & !c, 0, 8, 0);
    lemma_get_put_same(y & !c, 0, 8, value as u16);
    lemma_fits(0, 0, 8, value as u16);
    lemma_fits(0, 0, 8, 0);
}

/// Two distinct bit groups of one register share no bit.
pub proof fn lemma_fields_disjoint(f: Field, g: Field)
    requires
        f != g,
        f.reg() == g.reg(),
    ensures
        disjoint(f.offset(), f.width(), g.offset(), g.width()),
{
}

/// An enable bit keeps its value through every change that is not a write of its own: a
/// write of another group, the clearing of a flag, a counter read, and the load of the
/// position counter.
pub proof fn lemma_enable_bit_kept(
    regs: Seq<u16>,
    f: Field,
    g: Field,
    value: u16,
    counter: Reg,
    upper: u16,
    lower: u16,
)
    requires
        regs.len() == REG_COUNT,
        is_enable_bit(f),
        g != f,
        counter.is_counter(),
    ensures
        g.access() == Access::Plain ==> field_value(with_field(regs, g, value), f) == field_value(
            regs,
            f,
        ),
        g.access() == Access::Sticky && g.width() == 1 ==> field_value(with_flag_cleared(regs, g), f)
            == field_value(regs, f),
        field_value(after_counter_read(regs, counter), f) == field_value(regs, f),
        field_value(
            regs.update(Reg::Upos.index(), upper).update(Reg::Lpos.index(), lower),
            f,
        ) == field_value(regs, f),
{
    lemma_layout(f);
    lemma_layout(g);
    if f.reg() == g.reg() {
        lemma_fields_disjoint(f, g);
        let x = regs[f.reg().index()];
        if g.access() == Access::Plain {
            lemma_get_put_other(x, g.offset(), g.width(), value, f.offset(), f.width());
        }
        if g.access() == Access::Sticky && g.width() == 1 {
            lemma_cleared_bit_other(x, g.offset(), f.offset());
        }
    }
}

} // verus!
