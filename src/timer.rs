//! The per-core ARM generic timer: a microsecond clock read from the
//! free-running counter, and a one-shot countdown whose interrupt is gated
//! through the local interrupt controller.
//!
//! The system registers are reached through aarch64_cpu, whose accessors
//! exist on aarch64 targets only: elsewhere they panic. The conversions and
//! decisions below take plain values and run anywhere.
use vstd::prelude::*;

use aarch64_cpu::registers::{CNTFRQ_EL0, CNTPCT_EL0, CNTP_CTL_EL0, CNTP_TVAL_EL0, MPIDR_EL1};
use tock_registers::interfaces::{Readable, Writeable};
use vstd::arithmetic::div_mod::{
    lemma_div_is_ordered, lemma_div_multiples_vanish, lemma_fundamental_div_mod,
    lemma_mod_pos_bound,
};

use crate::qa7_control::{irq_pending, source_enabled, CoreInterruptSource, QA7Control, N_CORES};
use crate::{DevError, DevResult};

verus! {

/// Microseconds in one second.
pub const US_PER_SEC: u64 = 1_000_000;

/// Largest tick count the 32-bit countdown register can hold.
pub const MAX_COUNTDOWN: u64 = 0xFFFF_FFFF;

/// The control word that `init` writes: the non-secure physical timer alone.
pub const TIMER_IRQ_WORD: u32 = 2;

/// Counter ticks in `us` microseconds at `freq` Hz, truncated.
pub open spec fn ticks_for(freq: nat, us: nat) -> nat {
    freq * us / 1_000_000
}

/// Whole microseconds in `ticks` counter ticks at `freq` Hz.
pub open spec fn us_for(ticks: nat, freq: nat) -> nat
    recommends
        freq > 0,
{
    ticks * 1_000_000 / freq
}

/// The architectural timer condition: a countdown of `count` ticks has run
/// out once `elapsed` ticks have passed since it was programmed. On hardware
/// the timer itself evaluates it (its ISTATUS bit); here it models that
/// condition for the laws below and for simulating the timer.
pub open spec fn countdown_expired(count: nat, elapsed: nat) -> bool {
    elapsed >= count
}

/// Relies on `Readable::get` of aarch64_cpu's `CNTFRQ_EL0`: the counter
/// frequency in Hz as the platform configured it. Nothing is known of the
/// value.
#[verifier::external_body]
fn read_cntfrq() -> u64 {
    CNTFRQ_EL0.get()
}

/// Relies on `Readable::get` of aarch64_cpu's `CNTPCT_EL0`: the physical
/// free-running counter.
#[verifier::external_body]
fn read_cntpct() -> u64 {
    CNTPCT_EL0.get()
}

/// Relies on `Readable::get` of aarch64_cpu's `MPIDR_EL1`: the affinity
/// register of the executing core.
#[verifier::external_body]
fn read_mpidr() -> u64 {
    MPIDR_EL1.get()
}

/// Relies on `Writeable::set` of aarch64_cpu's `CNTP_TVAL_EL0`: programs the
/// physical countdown with a tick count.
#[verifier::external_body]
fn write_cntp_tval(count: u64) {
    CNTP_TVAL_EL0.set(count)
}

/// Relies on `Writeable::write` of aarch64_cpu's `CNTP_CTL_EL0` with
/// `ENABLE::SET`: turns the physical timer on, interrupt unmasked.
#[verifier::external_body]
fn enable_cntp() {
    CNTP_CTL_EL0.write(CNTP_CTL_EL0::ENABLE::SET)
}

/// Relies on `Readable::is_set` of aarch64_cpu's `CNTP_CTL_EL0` with
/// `ISTATUS`: whether the physical timer condition is met.
#[verifier::external_body]
fn read_cntp_istatus() -> bool {
    CNTP_CTL_EL0.is_set(CNTP_CTL_EL0::ISTATUS)
}

/// The countdown value for `us` microseconds at `freq` Hz, or
/// `InvalidParam` where it does not fit the 32-bit countdown register.
pub fn countdown_ticks(freq: u64, us: usize) -> (r: DevResult<u32>)
    ensures
        ticks_for(freq as nat, us as nat) <= MAX_COUNTDOWN ==> r == Ok::<u32, DevError>(
            ticks_for(freq as nat, us as nat) as u32,
        ),
        ticks_for(freq as nat, us as nat) > MAX_COUNTDOWN ==> r == Err::<u32, DevError>(
            DevError::InvalidParam,
        ),
{
    assert(freq as int * us as int <= 0xFFFF_FFFF_FFFF_FFFFint * 0xFFFF_FFFF_FFFF_FFFFint)
        by (nonlinear_arith)
        requires
            freq <= 0xFFFF_FFFF_FFFF_FFFFu64,
            us as int <= 0xFFFF_FFFF_FFFF_FFFFint,
    ;
    let product: u128 = (freq as u128) * (us as u128);
    let count: u128 = product / (US_PER_SEC as u128);
    if count > MAX_COUNTDOWN as u128 {
        Err(DevError::InvalidParam)
    } else {
        Ok(count as u32)
    }
}

/// Converts a counter value to whole microseconds at `freq` Hz.
/// `BadState` where the frequency is zero (the counter is not set up), and
/// `InvalidParam` where the result does not fit in 64 bits.
pub fn ticks_to_us(ticks: u64, freq: u64) -> (r: DevResult<u64>)
    ensures
        freq == 0 ==> r == Err::<u64, DevError>(DevError::BadState),
        freq > 0 && us_for(ticks as nat, freq as nat) <= u64::MAX ==> r == Ok::<u64, DevError>(
            us_for(ticks as nat, freq as nat) as u64,
        ),
        freq > 0 && us_for(ticks as nat, freq as nat) > u64::MAX ==> r == Err::<u64, DevError>(
            DevError::InvalidParam,
        ),
{
    if freq == 0 {
        return Err(DevError::BadState);
    }
    assert(ticks as int * 1_000_000 <= 0xFFFF_FFFF_FFFF_FFFFint * 1_000_000) by (nonlinear_arith)
        requires
            ticks <= 0xFFFF_FFFF_FFFF_FFFFu64,
    ;
    let scaled: u128 = (ticks as u128) * (US_PER_SEC as u128);
    let us: u128 = scaled / (freq as u128);
    if us > u64::MAX as u128 {
        Err(DevError::InvalidParam)
    } else {
        Ok(us as u64)
    }
}

/// The core number held in the low bits of an affinity register value.
pub fn core_of_mpidr(mpidr: u64) -> (r: usize)
    ensures
        r == mpidr % 4,
        r < N_CORES,
{
    assert(mpidr & 3 == mpidr % 4) by (bit_vector);
    (mpidr & 3) as usize
}

/// The number of the core that executes the call.
pub fn cpuid() -> (r: usize)
    ensures
        r < N_CORES,
{
    core_of_mpidr(read_mpidr())
}

/// Whether a busy wait of `us` microseconds that began at clock reading
/// `start` is over at clock reading `now`.
pub fn delay_elapsed(start: u64, now: u64, us: u64) -> (r: bool)
    ensures
        r == (now >= start && now - start >= us),
{
    now >= start && now - start >= us
}

/// Whether a countdown of `count` ticks programmed at counter value
/// `programmed_at` has run out at counter value `now`: a software model of
/// the hardware timer condition, for driving the timer without the hardware.
pub fn countdown_condition(programmed_at: u64, count: u32, now: u64) -> (r: bool)
    ensures
        r == (now >= programmed_at && countdown_expired(count as nat, (now - programmed_at) as nat)),
{
    now >= programmed_at && now - programmed_at >= count as u64
}


/// The operations of a per-core timer whose interrupt is gated through the
/// per-core control words of a `QA7Control` bank.
pub trait BasicTimer: Sized {
    /// The instance's own well-formedness: one control word per core.
    spec fn inv(&self) -> bool;

    /// The per-core interrupt control words of the bank the timer holds.
    spec fn irq_words(&self) -> Seq<u32>;

    /// The timer frequency (Hz).
    fn freq() -> u64;

    /// Returns a new instance wired to `control`, leaving its words as they
    /// are.
    fn new(control: QA7Control) -> (r: Self)
        requires
            control.wf(),
        ensures
            r.inv(),
            r.irq_words() == control@,
    ;

    /// Initialises the timer: the executing core's control word becomes the
    /// one that enables the non-secure physical timer alone.
    fn init(&mut self)
        requires
            old(self).inv(),
        ensures
            final(self).inv(),
            exists|c: int|
                0 <= c < N_CORES && final(self).irq_words() == old(self).irq_words().update(
                    c,
                    TIMER_IRQ_WORD,
                ),
    ;

    /// Stops the timer: the executing core's control word becomes zero.
    fn stop(&mut self)
        requires
            old(self).inv(),
        ensures
            final(self).inv(),
            exists|c: int|
                0 <= c < N_CORES && final(self).irq_words() == old(self).irq_words().update(
                    c,
                    0u32,
                ),
    ;

    /// The number of elapsed microseconds.
    fn read(&self) -> (r: DevResult<u64>)
        requires
            self.inv(),
        ensures
            r is Ok || r == Err::<u64, DevError>(DevError::BadState) || r == Err::<u64, DevError>(
                DevError::InvalidParam,
            ),
    ;

    /// Arms a match `us` microseconds from now.
    fn tick_in(&mut self, us: usize) -> (r: DevResult)
        requires
            old(self).inv(),
        ensures
            final(self).inv(),
            final(self).irq_words() == old(self).irq_words(),
            us == 0 ==> r == Ok::<(), DevError>(()),
            r is Ok || r == Err::<(), DevError>(DevError::InvalidParam),
    ;

    /// Whether the timer interrupt is pending on the executing core.
    fn is_pending(&self) -> (r: bool)
        requires
            self.inv(),
        ensures
            r ==> exists|c: int|
                0 <= c < N_CORES && source_enabled(
                    #[trigger] self.irq_words()[c],
                    CoreInterruptSource::NonSecurePhysicalTimer,
                ),
    ;
}

/// The ARM generic timer of the executing core.
pub struct GenericTimer {
    control: QA7Control,
}

impl View for GenericTimer {
    type V = Seq<u32>;

    /// The per-core interrupt control words.
    closed spec fn view(&self) -> Seq<u32> {
        self.control@
    }
}

impl GenericTimer {
    pub open spec fn wf(&self) -> bool {
        self@.len() == N_CORES
    }

    /// The counter frequency in Hz, read afresh on every call.
    pub fn freq() -> u64 {
        read_cntfrq()
    }

    /// A timer wired to the interrupt control bank `control`. Nothing is
    /// written: the bank's words stay as they are.
    pub fn new(control: QA7Control) -> (r: Self)
        requires
            control.wf(),
        ensures
            r.wf(),
            r@ == control@,
    {
        GenericTimer { control }
    }

    /// The interrupt control bank the timer is wired to.
    pub fn control(&self) -> (r: &QA7Control)
        ensures
            r@ == self@,
    {
        &self.control
    }

    /// Gives the interrupt control bank back, with every word the timer
    /// wrote to it.
    pub fn into_control(self) -> (r: QA7Control)
        requires
            self.wf(),
        ensures
            r.wf(),
            r@ == self@,
    {
        self.control
    }

    /// Replaces the control word of `core` with the one that enables the
    /// non-secure physical timer alone.
    pub fn route_timer_irq(&mut self, core: usize) -> (r: DevResult)
        requires
            old(self).wf(),
        ensures
            final(self).wf(),
            core < N_CORES ==> r == Ok::<(), DevError>(()) && final(self)@ == old(self)@.update(
                core as int,
                TIMER_IRQ_WORD,
            ),
            core >= N_CORES ==> r == Err::<(), DevError>(DevError::InvalidParam) && final(self)@
                == old(self)@,
    {
        let word = CoreInterruptSource::NonSecurePhysicalTimer.mask();
        self.control.set_core_mask(core, word)
    }

    /// Replaces the control word of `core` with zero, disabling every source.
    pub fn mask_all_irqs(&mut self, core: usize) -> (r: DevResult)
        requires
            old(self).wf(),
        ensures
            final(self).wf(),
            core < N_CORES ==> r == Ok::<(), DevError>(()) && final(self)@ == old(self)@.update(
                core as int,
                0u32,
            ),
            core >= N_CORES ==> r == Err::<(), DevError>(DevError::InvalidParam) && final(self)@
                == old(self)@,
    {
        self.control.set_core_mask(core, 0)
    }

    /// Whether the non-secure physical timer is pending on `core`, given
    /// whether its timer condition is met.
    pub fn timer_irq_pending_on(&self, core: usize, condition_met: bool) -> (r: DevResult<bool>)
        requires
            self.wf(),
        ensures
            core < N_CORES ==> r == Ok::<bool, DevError>(
                irq_pending(self@[core as int], CoreInterruptSource::NonSecurePhysicalTimer, condition_met),
            ),
            core >= N_CORES ==> r == Err::<bool, DevError>(DevError::InvalidParam),
    {
        self.control.is_irq_pending(core, CoreInterruptSource::NonSecurePhysicalTimer, condition_met)
    }

    /// Sets the executing core's word in the wired bank to the one that
    /// enables the non-secure physical timer alone, replacing the whole word,
    /// and enables the physical countdown.
    pub fn init(&mut self)
        requires
            old(self).wf(),
        ensures
            final(self).wf(),
            exists|c: int|
                0 <= c < N_CORES && final(self)@ == old(self)@.update(c, TIMER_IRQ_WORD),
    {
        let core = cpuid();
        let _ = self.route_timer_irq(core);
        enable_cntp();
    }

    /// Clears the executing core's whole control word. The countdown itself
    /// keeps running.
    pub fn stop(&mut self)
        requires
            old(self).wf(),
        ensures
            final(self).wf(),
            exists|c: int| 0 <= c < N_CORES && final(self)@ == old(self)@.update(c, 0u32),
    {
        let core = cpuid();
        let _ = self.mask_all_irqs(core);
    }

    /// Microseconds since the counter was reset.
    pub fn read(&self) -> (r: DevResult<u64>)
        ensures
            r is Ok || r == Err::<u64, DevError>(DevError::BadState) || r == Err::<u64, DevError>(
                DevError::InvalidParam,
            ),
    {
        let ticks = read_cntpct();
        let freq = read_cntfrq();
        ticks_to_us(ticks, freq)
    }

    /// Arms the countdown to fire `us` microseconds from now; fails with
    /// `InvalidParam`, programming nothing, where the tick count exceeds
    /// the 32-bit countdown register.
    pub fn tick_in(&mut self, us: usize) -> (r: DevResult)
        requires
            old(self).wf(),
        ensures
            final(self).wf(),
            final(self)@ == old(self)@,
            us == 0 ==> r == Ok::<(), DevError>(()),
            r is Ok || r == Err::<(), DevError>(DevError::InvalidParam),
    {
        let freq = read_cntfrq();
        assert(freq as nat * 0 == 0);
        match countdown_ticks(freq, us) {
            Ok(count) => {
                write_cntp_tval(count as u64);
                Ok(())
            },
            Err(e) => Err(e),
        }
    }

    /// Whether the timer interrupt is pending on the executing core: the
    /// timer condition gated by that core's control word. The condition bit
    /// is only defined while the countdown is enabled, so the answer means
    /// something only after `init`.
    pub fn is_pending(&self) -> (r: bool)
        requires
            self.wf(),
        ensures
            r ==> exists|c: int|
                0 <= c < N_CORES && source_enabled(
                    #[trigger] self@[c],
                    CoreInterruptSource::NonSecurePhysicalTimer,
                ),
    {
        let core = cpuid();
        let condition_met = read_cntp_istatus();
        match self.timer_irq_pending_on(core, condition_met) {
            Ok(p) => p,
            Err(_) => false,
        }
    }
}

impl BasicTimer for GenericTimer {
    open spec fn inv(&self) -> bool {
        self.wf()
    }

    fn freq() -> u64 {
        GenericTimer::freq()
    }

    open spec fn irq_words(&self) -> Seq<u32> {
        self@
    }

    fn new(control: QA7Control) -> (r: Self) {
        GenericTimer::new(control)
    }

    fn init(&mut self) {
        GenericTimer::init(self);
        assert(self.irq_words() == self@ && old(self).irq_words() == old(self)@);
    }

    fn stop(&mut self) {
        GenericTimer::stop(self);
        assert(self.irq_words() == self@ && old(self).irq_words() == old(self)@);
    }

    fn read(&self) -> (r: DevResult<u64>) {
        GenericTimer::read(self)
    }

    fn tick_in(&mut self, us: usize) -> (r: DevResult) {
        GenericTimer::tick_in(self, us)
    }

    fn is_pending(&self) -> (r: bool) {
        assert(self.irq_words() == self@);
        GenericTimer::is_pending(self)
    }
}

/// The timer of this SoC.
pub type Timer = GenericTimer;


/// The microsecond clock never runs backwards while the counter moves
/// forward at a fixed frequency.
pub proof fn lemma_read_monotonic(earlier: nat, later: nat, freq: nat)
    requires
        freq > 0,
        earlier <= later,
    ensures
        us_for(earlier, freq) <= us_for(later, freq),
{
    let a = earlier as int * 1_000_000;
    let b = later as int * 1_000_000;
    lemma_div_is_ordered(a, b, freq as int);
}

/// Once the counter has advanced by at least `us` microseconds' worth of
/// ticks, a countdown armed for `us` microseconds has run out, and with the
/// control word that `init` writes its interrupt is pending.
pub proof fn lemma_countdown_fires(freq: nat, us: nat, elapsed: nat)
    requires
        freq > 0,
        ticks_for(freq, us) <= MAX_COUNTDOWN,
        us_for(elapsed, freq) >= us,
    ensures
        countdown_expired(ticks_for(freq, us), elapsed),
        irq_pending(
            TIMER_IRQ_WORD,
            CoreInterruptSource::NonSecurePhysicalTimer,
            countdown_expired(ticks_for(freq, us), elapsed),
        ),
{
    let f = freq as int;
    let u = us as int;
    let e = elapsed as int;
    let scaled = e * 1_000_000;
    let q = scaled / f;
    assert(q == us_for(elapsed, freq));
    lemma_fundamental_div_mod(scaled, f);
    lemma_mod_pos_bound(scaled, f);
    assert(f * u <= scaled) by (nonlinear_arith)
        requires
            q >= u,
            scaled == f * q + scaled % f,
            scaled % f >= 0,
            f > 0,
    ;
    lemma_div_is_ordered(f * u, scaled, 1_000_000);
    lemma_div_multiples_vanish(e, 1_000_000);
    assert(scaled == 1_000_000 * e);
    assert(ticks_for(freq, us) == (f * u) / 1_000_000);
    assert(TIMER_IRQ_WORD & 2u32 != 0) by (bit_vector);
}

/// A core whose control word was cleared has no timer interrupt pending,
/// even where the countdown has run out.
pub proof fn lemma_stopped_not_pending(words: Seq<u32>, core: int, condition_met: bool)
    requires
        words.len() == N_CORES,
        0 <= core < N_CORES,
    ensures
        !irq_pending(
            words.update(core, 0u32)[core],
            CoreInterruptSource::NonSecurePhysicalTimer,
            condition_met,
        ),
{
    assert(0u32 & 2u32 == 0) by (bit_vector);
}

/// Converting a duration to countdown ticks and back loses at most one
/// microsecond, for counters of at least one megahertz; it never gains.
pub proof fn lemma_countdown_round_trip(freq: nat, us: nat)
    requires
        freq >= 1_000_000,
    ensures
        us_for(ticks_for(freq, us), freq) <= us,
        us_for(ticks_for(freq, us), freq) + 1 >= us,
{
    let f = freq as int;
    let u = us as int;
    let p = f * u;
    let v = p / 1_000_000;
    assert(v == ticks_for(freq, us));
    lemma_fundamental_div_mod(p, 1_000_000);
    lemma_mod_pos_bound(p, 1_000_000);
    let back = v * 1_000_000;
    assert(back / f == us_for(ticks_for(freq, us), freq));
    assert(back <= p && back + 1_000_000 > p) by (nonlinear_arith)
        requires
            p == 1_000_000 * v + p % 1_000_000,
            0 <= p % 1_000_000 < 1_000_000,
            back == v * 1_000_000,
    ;
    lemma_div_is_ordered(back, p, f);
    lemma_div_multiples_vanish(u, f);
    if u > 0 {
        let lower = f * (u - 1);
        assert(lower <= back) by (nonlinear_arith)
            requires
                lower == f * (u - 1),
                back + 1_000_000 > f * u,
                f >= 1_000_000,
        ;
        lemma_div_is_ordered(lower, back, f);
        lemma_div_multiples_vanish(u - 1, f);
    }
}

} // verus!
