//! The local interrupt controller: one control word per core, bit `n` of
//! which enables delivery of interrupt source `n` to that core.
use vstd::prelude::*;

use crate::{DevError, DevResult};

verus! {

/// Number of application cores on the SoC.
pub const N_CORES: usize = 4;

/// The core-local interrupt sources that the timer layer deals with.
#[derive(Clone, Copy, Debug, PartialEq, Eq, Structural)]
pub enum CoreInterruptSource {
    /// Secure physical timer.
    SecurePhysicalTimer,
    /// Non-secure physical timer.
    NonSecurePhysicalTimer,
    /// Hypervisor physical timer.
    HypervisorTimer,
    /// Virtual timer.
    VirtualTimer,
}

impl CoreInterruptSource {
    /// Bit position of this source within a core's control word.
    pub open spec fn spec_bit(self) -> u32 {
        match self {
            CoreInterruptSource::SecurePhysicalTimer => 0,
            CoreInterruptSource::NonSecurePhysicalTimer => 1,
            CoreInterruptSource::HypervisorTimer => 2,
            CoreInterruptSource::VirtualTimer => 3,
        }
    }

    /// The control word that enables this source alone.
    pub open spec fn spec_mask(self) -> u32 {
        match self {
            CoreInterruptSource::SecurePhysicalTimer => 1,
            CoreInterruptSource::NonSecurePhysicalTimer => 2,
            CoreInterruptSource::HypervisorTimer => 4,
            CoreInterruptSource::VirtualTimer => 8,
        }
    }

    pub fn bit(self) -> (r: u32)
        ensures
            r == self.spec_bit(),
    {
        match self {
            CoreInterruptSource::SecurePhysicalTimer => 0,
            CoreInterruptSource::NonSecurePhysicalTimer => 1,
            CoreInterruptSource::HypervisorTimer => 2,
            CoreInterruptSource::VirtualTimer => 3,
        }
    }

    pub fn mask(self) -> (r: u32)
        ensures
            r == self.spec_mask(),
            r == 1u32 << self.spec_bit(),
    {
        let b = self.bit();
        assert(b < 4 ==> (1u32 << b) == (if b == 0 { 1u32 } else if b == 1 { 2u32 } else if b == 2 {
            4u32 } else { 8u32 })) by (bit_vector);
        1u32 << b
    }
}

/// Whether `word` enables delivery of `source`.
pub open spec fn source_enabled(word: u32, source: CoreInterruptSource) -> bool {
    word & source.spec_mask() != 0
}

/// A source is pending for a core when its line is asserted and the core's
/// control word lets it through.
pub open spec fn irq_pending(word: u32, source: CoreInterruptSource, line_asserted: bool) -> bool {
    line_asserted && source_enabled(word, source)
}

/// The register bank of per-core interrupt control words.
pub struct QA7Control {
    core_timer_irqcntl: Vec<u32>,
}

impl View for QA7Control {
    type V = Seq<u32>;

    closed spec fn view(&self) -> Seq<u32> {
        self.core_timer_irqcntl@
    }
}

impl QA7Control {
    /// One control word per core.
    pub open spec fn wf(&self) -> bool {
        self@.len() == N_CORES
    }

    /// A bank with every source disabled on every core.
    pub fn new() -> (r: Self)
        ensures
            r.wf(),
            forall|c: int| 0 <= c < N_CORES ==> r@[c] == 0,
    {
        let r = QA7Control { core_timer_irqcntl: vec![0u32; N_CORES] };
        r
    }

    /// Replaces the whole control word of `core` with `mask`.
    pub fn set_core_mask(&mut self, core: usize, mask: u32) -> (r: DevResult)
        requires
            old(self).wf(),
        ensures
            final(self).wf(),
            core < N_CORES ==> r == Ok::<(), DevError>(()) && final(self)@ == old(self)@.update(
                core as int,
                mask,
            ),
            core >= N_CORES ==> r == Err::<(), DevError>(DevError::InvalidParam) && final(self)@
                == old(self)@,
    {
        if core >= N_CORES {
            return Err(DevError::InvalidParam);
        }
        self.core_timer_irqcntl.set(core, mask);
        Ok(())
    }

    /// Reads back the control word of `core`.
    pub fn core_mask(&self, core: usize) -> (r: DevResult<u32>)
        requires
            self.wf(),
        ensures
            core < N_CORES ==> r == Ok::<u32, DevError>(self@[core as int]),
            core >= N_CORES ==> r == Err::<u32, DevError>(DevError::InvalidParam),
    {
        if core >= N_CORES {
            return Err(DevError::InvalidParam);
        }
        Ok(self.core_timer_irqcntl[core])
    }

    /// Whether `source` is pending on `core`, given whether its line is
    /// currently asserted.
    pub fn is_irq_pending(&self, core: usize, source: CoreInterruptSource, line_asserted: bool) -> (r:
        DevResult<bool>)
        requires
            self.wf(),
        ensures
            core < N_CORES ==> r == Ok::<bool, DevError>(
                irq_pending(self@[core as int], source, line_asserted),
            ),
            core >= N_CORES ==> r == Err::<bool, DevError>(DevError::InvalidParam),
    {
        if core >= N_CORES {
            return Err(DevError::InvalidParam);
        }
        let word = self.core_timer_irqcntl[core];
        Ok(line_asserted && (word & source.mask()) != 0)
    }
}

/// A control word written to a core reads back unchanged, and the other
/// cores' words are untouched.
pub proof fn lemma_mask_write_read(words: Seq<u32>, core: int, mask: u32)
    requires
        words.len() == N_CORES,
        0 <= core < N_CORES,
    ensures
        words.update(core, mask)[core] == mask,
        forall|c: int| 0 <= c < N_CORES && c != core ==> words.update(core, mask)[c] == words[c],
{
}

} // verus!
