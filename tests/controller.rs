use qdc_driver::{Instance, Qdc1, Qdc2, Reg, RegWrite};

fn fresh() -> Qdc1 {
    Qdc1::new(Instance::new())
}

#[test]
fn enable_bits_round_trip() {
    let mut q = fresh();
    for &on in &[true, false, true, true, false, false] {
        q.set_watchdog_enable(on);
        assert_eq!(q.is_watchdog_enabled(), on);
        q.set_watchdog_interrupt_on_timeout_enable(on);
        assert_eq!(q.is_watchdog_interrupt_on_timeout_enabled(), on);
        q.set_reverse_counting_enable(on);
        assert_eq!(q.is_reverse_counting_enabled(), on);
        q.set_single_phase_counting_enable(on);
        assert_eq!(q.is_single_phase_counting_enabled(), on);
        q.set_home_signal_interrupt_enable(on);
        assert_eq!(q.is_home_signal_interrupt_enabled(), on);
        q.set_home_signal_negative_edge_enable(on);
        assert_eq!(q.is_home_signal_negative_edge_enabled(), on);
        q.set_home_initialize_position_counter_enable(on);
        assert_eq!(q.is_home_initialize_position_counter_enabled(), on);
        q.set_index_signal_interrupt_enable(on);
        assert_eq!(q.is_index_signal_interrupt_enabled(), on);
        q.set_index_signal_negative_edge_enable(on);
        assert_eq!(q.is_index_signal_negative_edge_enabled(), on);
        q.set_index_initialize_position_counter_enable(on);
        assert_eq!(q.is_index_initialize_position_counter_enabled(), on);
        q.set_compare_interrupt_enable(on);
        assert_eq!(q.is_compare_interrupt_enabled(), on);
        q.set_trigger_clear_primary_enable(on);
        assert_eq!(q.is_trigger_clear_primary_enabled(), on);
        q.set_trigger_update_previous_enable(on);
        assert_eq!(q.is_trigger_update_previous_enabled(), on);
        q.set_test_mode_enable(on);
        assert_eq!(q.is_test_mode_enabled(), on);
        q.set_test_counter_enable(on);
        assert_eq!(q.is_test_counter_enabled(), on);
        q.set_test_reverse_mode_enable(on);
        assert_eq!(q.is_test_reverse_mode_enabled(), on);
        q.set_modulus_rollunder_interrupt_enable(on);
        assert_eq!(q.is_modulus_rollunder_interrupt_enabled(), on);
        q.set_modulus_rollover_interrupt_enable(on);
        assert_eq!(q.is_modulus_rollover_interrupt_enabled(), on);
    }
}

#[test]
fn enable_bit_touches_one_bit() {
    let mut q = fresh();
    q.set_watchdog_enable(true);
    assert_eq!(q.release().peek(Reg::Ctrl), 0x0004);
    let mut q = fresh();
    q.set_home_signal_negative_edge_enable(true);
    q.set_index_signal_negative_edge_enable(true);
    assert!(q.is_home_signal_negative_edge_enabled());
    q.clear_home_signal_interrupt();
    q.set_home_signal_interrupt_enable(true);
    q.set_home_initialize_position_counter_enable(true);
    q.initialize_position_counter_to_value(42);
    let _ = q.position_count();
    assert!(q.is_home_signal_negative_edge_enabled());
    q.set_home_signal_negative_edge_enable(false);
    assert!(!q.is_home_signal_negative_edge_enabled());
    assert!(q.is_index_signal_negative_edge_enabled());
}

#[test]
fn prescaler_clamps() {
    let mut a = fresh();
    let mut b = fresh();
    a.set_prescaler(0);
    b.set_prescaler(1);
    assert_eq!(a.prescaler(), 1);
    assert_eq!(a.prescaler(), b.prescaler());
    let (ia, ib) = (a.release(), b.release());
    assert_eq!(ia.peek(Reg::Filt), ib.peek(Reg::Filt));
    assert_eq!(ia.write_log(), ib.write_log());

    let mut a = fresh();
    let mut b = fresh();
    a.set_prescaler(200);
    b.set_prescaler(128);
    assert_eq!(a.prescaler(), 128);
    assert_eq!(b.prescaler(), 128);
    let (ia, ib) = (a.release(), b.release());
    assert_eq!(ia.peek(Reg::Filt), ib.peek(Reg::Filt));
    assert_eq!(ia.write_log(), ib.write_log());

    let mut q = fresh();
    q.set_prescaler(5);
    assert_eq!(q.prescaler(), 5);
    q.set_prescaler(9);
    assert_eq!(q.prescaler(), 9);
    q.set_prescaler(u16::MAX);
    assert_eq!(q.prescaler(), 128);
    q.set_prescaler(127);
    assert_eq!(q.prescaler(), 127);
}

#[test]
fn filter_count_clamps() {
    let mut q = fresh();
    q.set_input_filter_count(1);
    assert_eq!(q.input_filter_count(), 3);
    q.set_input_filter_count(15);
    assert_eq!(q.input_filter_count(), 10);
    q.set_input_filter_count(6);
    assert_eq!(q.input_filter_count(), 6);
    assert_eq!(q.release().peek(Reg::Filt), 3 << 8);
}

#[test]
fn fresh_filter_count_reads_three() {
    let q = fresh();
    assert_eq!(q.input_filter_count(), 3);
}

#[test]
fn compare_value_round_trip() {
    let mut q = fresh();
    for &v in &[0u32, 1, 0xffff, 0x1_0000, 0x1234_5678, 0xdead_beef, u32::MAX] {
        q.set_compare_value(v);
        assert_eq!(q.compare_value(), v);
    }
    q.set_compare_value(0x1234_5678);
    let i = q.release();
    assert_eq!(i.peek(Reg::Ucomp), 0x1234);
    assert_eq!(i.peek(Reg::Lcomp), 0x5678);
    let log = i.write_log();
    let n = log.len();
    assert_eq!(log[n - 2], RegWrite { reg: Reg::Ucomp, value: 0x1234 });
    assert_eq!(log[n - 1], RegWrite { reg: Reg::Lcomp, value: 0x5678 });
}

#[test]
fn initialization_value_round_trip() {
    let mut q = fresh();
    q.set_position_initialization_value(0x00ab_cdef);
    assert_eq!(q.position_initialization_value(), 0x00ab_cdef);
    assert_eq!(q.position_count(), 0);
}

#[test]
fn initialize_position_counter_loads_value() {
    let mut q = fresh();
    q.initialize_position_counter_to_value(0x8000_0001);
    assert_eq!(q.position_initialization_value(), 0x8000_0001);
    assert_eq!(q.position_count(), 0x8000_0001);
    let i = q.release();
    assert_eq!(i.peek(Reg::Ctrl) & 0x0800, 0);
    let log = i.write_log();
    assert_eq!(log.len(), 3);
    assert_eq!(log[2], RegWrite { reg: Reg::Ctrl, value: 0x0800 });
}

#[test]
fn sticky_flags_stay_until_cleared() {
    let mut inst: Instance<1> = Instance::new();
    inst.hardware_update(Reg::Ctrl, 0x8112);
    inst.hardware_update(Reg::Ctrl2, 0x00a0);
    let mut q = Qdc1::new(inst);
    q.set_watchdog_interrupt_on_timeout_enable(true);
    q.set_watchdog_interrupt_on_timeout_enable(false);
    q.set_home_signal_interrupt_enable(false);
    q.set_index_signal_interrupt_enable(false);
    q.set_compare_interrupt_enable(false);
    q.set_modulus_rollunder_interrupt_enable(false);
    q.set_modulus_rollover_interrupt_enable(false);
    assert!(q.is_watchdog_timeout());
    assert!(q.is_home_signal_interrupt_set());
    assert!(q.is_index_signal_interrupt_set());
    assert!(q.is_compare_interrupt_set());
    assert!(q.is_modulus_rollunder_interrupt_set());
    assert!(q.is_modulus_rollover_interrupt_set());

    q.clear_watchdog_timeout();
    assert!(!q.is_watchdog_timeout());
    assert!(q.is_home_signal_interrupt_set());
    assert!(q.is_index_signal_interrupt_set());
    assert!(q.is_compare_interrupt_set());
    q.clear_home_signal_interrupt();
    assert!(!q.is_home_signal_interrupt_set());
    assert!(q.is_index_signal_interrupt_set());
    q.clear_index_signal_interrupt();
    assert!(!q.is_index_signal_interrupt_set());
    assert!(q.is_compare_interrupt_set());
    q.clear_compare_interrupt();
    assert!(!q.is_compare_interrupt_set());
    q.clear_modulus_rollunder_interrupt();
    assert!(!q.is_modulus_rollunder_interrupt_set());
    assert!(q.is_modulus_rollover_interrupt_set());
    q.clear_modulus_rollover_interrupt();
    assert!(!q.is_modulus_rollover_interrupt_set());
    let i = q.release();
    assert_eq!(i.peek(Reg::Ctrl), 0);
    assert_eq!(i.peek(Reg::Ctrl2), 0);
}

#[test]
fn position_read_snapshots_and_clears() {
    let mut inst: Instance<1> = Instance::new();
    inst.hardware_update(Reg::Upos, 0x0001);
    inst.hardware_update(Reg::Lpos, 0x0002);
    let mut q = Qdc1::new(inst);
    assert_eq!(q.position_count(), 0x0001_0002);
    assert_eq!(q.previous_position_count(), 0x0001_0002);
    assert_eq!(q.previous_position_count(), 0x0001_0002);
    assert_eq!(q.position_count(), 0);
    assert_eq!(q.previous_position_count(), 0);
}

#[test]
fn revolution_and_difference_hold() {
    let mut inst: Instance<1> = Instance::new();
    inst.hardware_update(Reg::Rev, 7);
    inst.hardware_update(Reg::Posd, 0xfffe);
    let mut q = Qdc1::new(inst);
    assert_eq!(q.revolution_count(), 7);
    assert_eq!(q.previous_revolution_count(), 7);
    assert_eq!(q.revolution_count(), 0);
    assert_eq!(q.previous_revolution_count(), 0);
    assert_eq!(q.position_difference(), 0xfffe);
    assert_eq!(q.previous_position_difference(), 0xfffe);
    assert_eq!(q.previous_position_difference(), 0xfffe);
    assert_eq!(q.position_difference(), 0);
}

#[test]
fn sampling_period_rewrite_writes_zero_first() {
    let mut q = fresh();
    q.set_input_sampling_period(5);
    assert_eq!(q.input_sampling_period(), 5);
    q.set_input_sampling_period(9);
    assert_eq!(q.input_sampling_period(), 9);
    let i = q.release();
    let log = i.write_log();
    assert_eq!(
        log.as_slice(),
        &[
            RegWrite { reg: Reg::Filt, value: 5 },
            RegWrite { reg: Reg::Filt, value: 0 },
            RegWrite { reg: Reg::Filt, value: 9 },
        ]
    );
}

#[test]
fn disable_input_filter_zeroes_period() {
    let mut q = fresh();
    q.set_input_filter_count(7);
    q.set_input_sampling_period(200);
    q.disable_input_filter();
    assert_eq!(q.input_sampling_period(), 0);
    assert_eq!(q.input_filter_count(), 7);
}

#[test]
fn release_changes_nothing() {
    let mut q = fresh();
    q.set_watchdog_enable(true);
    q.set_watchdog_timeout_cycles(0xbeef);
    q.set_test_pulse_count(12);
    q.set_compare_value(0xcafe_f00d);
    let before: Vec<u16> = {
        let i = q.release();
        let v = all_regs(&i);
        q = Qdc1::new(i);
        v
    };
    let log_len = {
        let i = q.release();
        let n = i.write_log().len();
        q = Qdc1::new(i);
        n
    };
    let i = q.release();
    assert_eq!(all_regs(&i), before);
    assert_eq!(i.write_log().len(), log_len);
}

fn all_regs(i: &Instance<1>) -> Vec<u16> {
    [
        Reg::Ctrl, Reg::Ctrl2, Reg::Filt, Reg::Wtr, Reg::Tst, Reg::Uinit, Reg::Linit, Reg::Ucomp,
        Reg::Lcomp, Reg::Upos, Reg::Lpos, Reg::Uposh, Reg::Lposh, Reg::Posd, Reg::Posdh, Reg::Rev,
        Reg::Revh, Reg::Imr, Reg::Fprsc, Reg::Tper,
    ]
    .iter()
    .map(|&r| i.peek(r))
    .collect()
}

#[test]
fn new_writes_nothing() {
    let mut inst: Instance<2> = Instance::new();
    inst.hardware_update(Reg::Wtr, 0x1234);
    let q = Qdc2::new(inst);
    assert_eq!(q.watchdog_timeout_cycles(), 0x1234);
    assert!(q.release().write_log().is_empty());
}

#[test]
fn watchdog_cycles_full_range() {
    let mut q = fresh();
    q.set_watchdog_timeout_cycles(0xffff);
    assert_eq!(q.watchdog_timeout_cycles(), 0xffff);
    q.set_watchdog_timeout_cycles(0);
    assert_eq!(q.watchdog_timeout_cycles(), 0);
    q.set_watchdog_timeout_cycles(0xbeef);
    assert_eq!(q.watchdog_timeout_cycles(), 0xbeef);
}

#[test]
fn test_pulse_settings_clamp() {
    let mut q = fresh();
    q.set_test_pulse_count(300);
    assert_eq!(q.test_pulse_count(), 255);
    q.set_test_pulse_count(0);
    assert_eq!(q.test_pulse_count(), 0);
    q.set_test_pulse_count(17);
    assert_eq!(q.test_pulse_count(), 17);
    q.set_test_pulse_period(20);
    assert_eq!(q.test_pulse_period(), 20);
    q.set_test_pulse_period(32);
    assert_eq!(q.test_pulse_period(), 32);
    q.set_test_pulse_period(100);
    assert_eq!(q.test_pulse_period(), 32);
    q.set_test_pulse_period(0);
    assert_eq!(q.test_pulse_period(), 0);
    let mut a = fresh();
    let mut b = fresh();
    a.set_test_mode_enable(true);
    a.set_test_counter_enable(true);
    a.set_test_reverse_mode_enable(true);
    a.set_test_pulse_count(200);
    a.set_test_pulse_period(40);
    b.set_test_pulse_period(32);
    assert!(a.is_test_mode_enabled() && a.is_test_counter_enabled() && a.is_test_reverse_mode_enabled());
    assert_eq!(a.test_pulse_count(), 200);
    assert_eq!(a.test_pulse_period(), 32);
    assert_eq!(a.release().peek(Reg::Tper), b.release().peek(Reg::Tper));
}

#[test]
fn direction_and_input_monitor() {
    let mut inst: Instance<1> = Instance::new();
    inst.hardware_update(Reg::Ctrl2, 0x0008);
    inst.hardware_update(Reg::Imr, 0x00a5);
    let mut q = Qdc1::new(inst);
    assert!(q.count_direction());
    assert_eq!(q.input_monitor(), 0xa5);
    q.set_trigger_update_previous_enable(true);
    assert!(q.count_direction());
}

#[test]
fn setting_enable_keeps_pending_flags() {
    let mut inst: Instance<1> = Instance::new();
    inst.hardware_update(Reg::Ctrl, 0x0010);
    let mut q = Qdc1::new(inst);
    q.set_compare_interrupt_enable(true);
    assert!(q.is_watchdog_timeout());
    let log = q.release();
    assert_eq!(log.write_log()[0], RegWrite { reg: Reg::Ctrl, value: 0x0001 });
}
