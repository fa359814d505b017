use qa7_timer::qa7_control::{CoreInterruptSource, QA7Control, N_CORES};
use qa7_timer::timer::{
    core_of_mpidr, countdown_condition, countdown_ticks, delay_elapsed, ticks_to_us, GenericTimer,
    MAX_COUNTDOWN, TIMER_IRQ_WORD,
};
use qa7_timer::DevError;

#[test]
fn new_bank_is_all_zero() {
    let bank = QA7Control::new();
    for core in 0..N_CORES {
        assert_eq!(bank.core_mask(core), Ok(0));
    }
}

#[test]
fn mask_write_then_read_back() {
    let sources = [
        CoreInterruptSource::SecurePhysicalTimer,
        CoreInterruptSource::NonSecurePhysicalTimer,
        CoreInterruptSource::HypervisorTimer,
        CoreInterruptSource::VirtualTimer,
    ];
    for core in 0..N_CORES {
        for source in sources {
            let mut bank = QA7Control::new();
            let mask = source.mask();
            assert_eq!(bank.set_core_mask(core, mask), Ok(()));
            assert_eq!(bank.core_mask(core), Ok(mask));
            for other in 0..N_CORES {
                if other != core {
                    assert_eq!(bank.core_mask(other), Ok(0));
                }
            }
        }
    }
}

#[test]
fn mask_write_replaces_whole_word() {
    let mut bank = QA7Control::new();
    assert_eq!(bank.set_core_mask(2, 0b1011), Ok(()));
    assert_eq!(bank.set_core_mask(2, 0b0100), Ok(()));
    assert_eq!(bank.core_mask(2), Ok(0b0100));
}

#[test]
fn out_of_range_core_is_invalid_param() {
    let mut bank = QA7Control::new();
    assert_eq!(bank.set_core_mask(4, 1), Err(DevError::InvalidParam));
    assert_eq!(bank.core_mask(4), Err(DevError::InvalidParam));
    assert_eq!(
        bank.is_irq_pending(7, CoreInterruptSource::VirtualTimer, true),
        Err(DevError::InvalidParam)
    );
    let mut timer = GenericTimer::new(QA7Control::new());
    assert_eq!(timer.route_timer_irq(4), Err(DevError::InvalidParam));
    assert_eq!(timer.mask_all_irqs(usize::MAX), Err(DevError::InvalidParam));
    assert_eq!(timer.timer_irq_pending_on(4, true), Err(DevError::InvalidParam));
}

#[test]
fn source_bits_and_masks() {
    assert_eq!(CoreInterruptSource::SecurePhysicalTimer.bit(), 0);
    assert_eq!(CoreInterruptSource::NonSecurePhysicalTimer.bit(), 1);
    assert_eq!(CoreInterruptSource::HypervisorTimer.bit(), 2);
    assert_eq!(CoreInterruptSource::VirtualTimer.bit(), 3);
    assert_eq!(CoreInterruptSource::SecurePhysicalTimer.mask(), 1);
    assert_eq!(CoreInterruptSource::NonSecurePhysicalTimer.mask(), 2);
    assert_eq!(CoreInterruptSource::HypervisorTimer.mask(), 4);
    assert_eq!(CoreInterruptSource::VirtualTimer.mask(), 8);
}

#[test]
fn pending_needs_line_and_enable() {
    let mut bank = QA7Control::new();
    bank.set_core_mask(0, 0b0010).unwrap();
    let ns = CoreInterruptSource::NonSecurePhysicalTimer;
    assert_eq!(bank.is_irq_pending(0, ns, true), Ok(true));
    assert_eq!(bank.is_irq_pending(0, ns, false), Ok(false));
    assert_eq!(bank.is_irq_pending(0, CoreInterruptSource::VirtualTimer, true), Ok(false));
    assert_eq!(bank.is_irq_pending(1, ns, true), Ok(false));
}

#[test]
fn route_timer_irq_writes_timer_word() {
    let mut timer = GenericTimer::new(QA7Control::new());
    assert_eq!(timer.route_timer_irq(3), Ok(()));
    assert_eq!(TIMER_IRQ_WORD, 2);
    assert_eq!(timer.timer_irq_pending_on(3, true), Ok(true));
    assert_eq!(timer.timer_irq_pending_on(2, true), Ok(false));
}

#[test]
fn stopped_core_not_pending_after_expiry() {
    let mut timer = GenericTimer::new(QA7Control::new());
    timer.route_timer_irq(1).unwrap();
    let count = countdown_ticks(1_000_000, 100).unwrap();
    let expired = countdown_condition(0, count, 1_000);
    assert!(expired);
    assert_eq!(timer.timer_irq_pending_on(1, expired), Ok(true));
    assert_eq!(timer.mask_all_irqs(1), Ok(()));
    assert_eq!(timer.timer_irq_pending_on(1, expired), Ok(false));
}

#[test]
fn countdown_ticks_exact_values() {
    assert_eq!(countdown_ticks(1_000_000, 500), Ok(500));
    assert_eq!(countdown_ticks(62_500_000, 1_000), Ok(62_500));
    assert_eq!(countdown_ticks(19_200_000, 3), Ok(57));
    assert_eq!(countdown_ticks(1_000_000, 0), Ok(0));
    assert_eq!(countdown_ticks(0, 1_000), Ok(0));
}

#[test]
fn countdown_ticks_range_limit() {
    // 4_294_967_295 ticks at 1 MHz is the largest delay that fits.
    assert_eq!(countdown_ticks(1_000_000, 4_294_967_295), Ok(u32::MAX));
    assert_eq!(
        countdown_ticks(1_000_000, 4_294_967_296),
        Err(DevError::InvalidParam)
    );
    assert_eq!(
        countdown_ticks(62_500_000, 68_719_477),
        Err(DevError::InvalidParam)
    );
    assert_eq!(countdown_ticks(62_500_000, 68_719_476), Ok(4_294_967_250));
    assert_eq!(MAX_COUNTDOWN, u32::MAX as u64);
}

#[test]
fn armed_countdown_fires_after_its_duration() {
    for (freq, us) in [(1_000_000u64, 500usize), (62_500_000, 1_234), (19_200_000, 7)] {
        let count = countdown_ticks(freq, us).unwrap();
        let start: u64 = 10_000;
        let mut now = start;
        while ticks_to_us(now - start, freq).unwrap() < us as u64 {
            now += 1;
        }
        assert!(countdown_condition(start, count, now));
        let mut timer = GenericTimer::new(QA7Control::new());
        timer.route_timer_irq(0).unwrap();
        assert_eq!(
            timer.timer_irq_pending_on(0, countdown_condition(start, count, now)),
            Ok(true)
        );
    }
}

#[test]
fn scenario_five_hundred_us_at_one_megahertz() {
    let count = countdown_ticks(1_000_000, 500).unwrap();
    assert_eq!(count, 500);
    let mut timer = GenericTimer::new(QA7Control::new());
    timer.route_timer_irq(0).unwrap();
    assert_eq!(
        timer.timer_irq_pending_on(0, countdown_condition(0, count, 499)),
        Ok(false)
    );
    assert_eq!(
        timer.timer_irq_pending_on(0, countdown_condition(0, count, 500)),
        Ok(true)
    );
}

#[test]
fn ticks_to_us_values_and_errors() {
    assert_eq!(ticks_to_us(62_500_000, 62_500_000), Ok(1_000_000));
    assert_eq!(ticks_to_us(19_199_999, 19_200_000), Ok(999_999));
    assert_eq!(ticks_to_us(0, 1_000_000), Ok(0));
    assert_eq!(ticks_to_us(1_000, 0), Err(DevError::BadState));
    assert_eq!(ticks_to_us(u64::MAX, 1), Err(DevError::InvalidParam));
    assert_eq!(ticks_to_us(u64::MAX, 1_000_000), Ok(u64::MAX));
}

#[test]
fn clock_reading_is_monotonic() {
    let freq = 19_200_000;
    let mut last = 0;
    for ticks in (0..200_000u64).step_by(7) {
        let us = ticks_to_us(ticks, freq).unwrap();
        assert!(us >= last);
        last = us;
    }
}

#[test]
fn round_trip_within_one_microsecond() {
    for freq in [1_000_000u64, 19_200_000, 62_500_000, 54_000_001] {
        for us in [0usize, 1, 3, 500, 999, 12_345, 68_000_000] {
            let v = countdown_ticks(freq, us).unwrap();
            let back = ticks_to_us(v as u64, freq).unwrap();
            assert!(back <= us as u64);
            assert!(back + 1 >= us as u64);
        }
    }
}

#[test]
fn delay_never_ends_early() {
    let freq = 1_000_000;
    let start = ticks_to_us(5_000, freq).unwrap();
    let mut ticks = 5_000u64;
    loop {
        let now = ticks_to_us(ticks, freq).unwrap();
        if delay_elapsed(start, now, 1_000) {
            break;
        }
        ticks += 1;
    }
    assert_eq!(ticks - 5_000, 1_000);
    assert!(!delay_elapsed(start, start + 999, 1_000));
    assert!(delay_elapsed(start, start + 1_000, 1_000));
    assert!(!delay_elapsed(start, start - 1, 0));
}

#[test]
fn core_number_from_affinity() {
    assert_eq!(core_of_mpidr(0x8000_0000), 0);
    assert_eq!(core_of_mpidr(0x8000_0003), 3);
    assert_eq!(core_of_mpidr(0x8000_0106), 2);
}

#[test]
fn countdown_condition_edges() {
    assert!(!countdown_condition(100, 50, 149));
    assert!(countdown_condition(100, 50, 150));
    assert!(!countdown_condition(100, 0, 99));
    assert!(countdown_condition(100, 0, 100));
}

#[test]
fn new_timer_keeps_bank_words() {
    let mut bank = QA7Control::new();
    bank.set_core_mask(0, 0b1000).unwrap();
    bank.set_core_mask(3, 0b0010).unwrap();
    let mut timer = GenericTimer::new(bank);
    assert_eq!(timer.control().core_mask(0), Ok(0b1000));
    assert_eq!(timer.control().core_mask(3), Ok(0b0010));
    assert_eq!(timer.timer_irq_pending_on(3, true), Ok(true));
    timer.mask_all_irqs(0).unwrap();
    let bank = timer.into_control();
    assert_eq!(bank.core_mask(0), Ok(0));
    assert_eq!(bank.core_mask(3), Ok(0b0010));
    let second = GenericTimer::new(bank);
    assert_eq!(second.control().core_mask(3), Ok(0b0010));
}
