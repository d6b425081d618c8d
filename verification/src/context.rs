//! The single-slot lifecycle a host drives: at most one live processor,
//! created or replaced by an explicit configuration call, cleared by an
//! explicit delete, and queried speculatively — operations on an empty
//! slot are benign no-ops rather than errors.
//!
//! The slot is an explicit context handle the host owns and passes into
//! every call, with at most one call in flight at a time; there is no
//! hidden process-wide state.

use vstd::prelude::*;

use crate::processor::FftError;
use crate::processor::SetWindowEffect;
use crate::processor::WindowedFFT;
use crate::processor::spec_new_state;
use crate::processor::spec_set_window;
use crate::processor::spec_set_window_effect;
use crate::window::WindowType;

verus! {

/// What the pipeline will do with a sample block of a given length.
#[derive(Clone, Copy, Debug, PartialEq, Eq, Structural)]
pub enum BlockDecision {
    /// No processor is configured: the block is ignored.
    NoProcessor,
    /// The block length differs from the transform length: the block is
    /// rejected as a size mismatch and no buffer changes.
    WrongLength,
    /// The block is transformed, after the active window's coefficients
    /// are applied when `windowed` holds.
    Accepted {
        /// Whether a window is active for this processor.
        windowed: bool,
    },
}

/// The slot holding the current processor's control state, if one is
/// configured.
pub struct FftContext {
    /// The live processor's control state, or nothing.
    pub slot: Option<WindowedFFT>,
}

/// The decision [`FftContext::accept_block`] returns for a block length.
pub open spec fn spec_accept_block(c: FftContext, len: usize) -> BlockDecision {
    match c.slot {
        None => BlockDecision::NoProcessor,
        Some(p) => if len == p.fft_len {
            BlockDecision::Accepted { windowed: p.window.is_some() }
        } else {
            BlockDecision::WrongLength
        },
    }
}

impl FftContext {
    /// Whatever processor the slot holds is in a reachable state.
    pub open spec fn wf(self) -> bool {
        match self.slot {
            Some(p) => p.wf(),
            None => true,
        }
    }

    /// A fresh context holds no processor.
    pub fn new() -> (r: FftContext)
        ensures
            r.slot.is_none(),
            r.wf(),
    {
        FftContext { slot: None }
    }

    /// Configures a processor of `fft_size` slots with the given window,
    /// replacing whatever the slot held. A transform length below two is
    /// rejected and the slot — prior processor included — is untouched.
    pub fn set_fft(&mut self, fft_size: usize, window: Option<WindowType>) -> (r: Result<
        (),
        FftError,
    >)
        requires
            old(self).wf(),
        ensures
            final(self).wf(),
            fft_size >= 2 ==> r == Ok::<(), FftError>(()) && final(self).slot == Some(
                spec_new_state(fft_size, window),
            ),
            fft_size < 2 ==> r == Err::<(), FftError>(FftError::InvalidLength) && final(self).slot
                == old(self).slot,
    {
        match WindowedFFT::new(fft_size, window) {
            Ok(p) => {
                self.slot = Some(p);
                Ok(())
            },
            Err(e) => Err(e),
        }
    }

    /// Forwards a window change to the processor in the slot; with no
    /// processor configured the call is a benign no-op.
    pub fn set_fft_window(&mut self, window: Option<WindowType>) -> (e: SetWindowEffect)
        requires
            old(self).wf(),
        ensures
            final(self).wf(),
            old(self).slot.is_none() ==> final(self).slot == old(self).slot && e
                == SetWindowEffect::Unchanged,
            old(self).slot.is_some() ==> final(self).slot == Some(
                spec_set_window(old(self).slot->Some_0, window),
            ) && e == spec_set_window_effect(old(self).slot->Some_0, window),
    {
        match &mut self.slot {
            Some(p) => p.set_window(window),
            None => SetWindowEffect::Unchanged,
        }
    }

    /// Empties the slot, dropping any processor; calling it again on an
    /// already empty slot changes nothing.
    pub fn delete_fft(&mut self)
        ensures
            final(self).wf(),
            final(self).slot.is_none(),
    {
        self.slot = None;
    }

    /// Decides what the pipeline does with a block of `len` samples:
    /// ignored with no processor, rejected when `len` differs from the
    /// transform length, and otherwise transformed — windowed exactly
    /// when a window is active.
    pub fn accept_block(&self, len: usize) -> (d: BlockDecision)
        ensures
            d == spec_accept_block(*self, len),
    {
        match &self.slot {
            None => BlockDecision::NoProcessor,
            Some(p) => {
                match p.check_block_len(len) {
                    Ok(()) => BlockDecision::Accepted { windowed: p.window.is_some() },
                    Err(_) => BlockDecision::WrongLength,
                }
            },
        }
    }

    /// The length of the output buffer a host may read, or nothing while
    /// no processor is configured: the host checks for an output before
    /// reading one.
    pub fn buffer_len(&self) -> (r: Option<usize>)
        ensures
            r == match self.slot {
                Some(p) => Some(p.fft_len),
                None => None::<usize>,
            },
    {
        match &self.slot {
            Some(p) => Some(p.fft_len),
            None => None,
        }
    }
}

/// The control-plane slice of the host's standard sequence: after a
/// successful configuration for `n` slots, a context accepts exactly the
/// blocks of `n` samples — windowed exactly when a window was chosen —
/// rejects every other length as a size mismatch, and offers an output
/// of `n` values.
pub proof fn lemma_configured_context_accepts_its_length(
    n: usize,
    window: Option<WindowType>,
    len: usize,
)
    requires
        n >= 2,
    ensures
        len == n ==> spec_accept_block(FftContext { slot: Some(spec_new_state(n, window)) }, len)
            == (BlockDecision::Accepted { windowed: window.is_some() }),
        len != n ==> spec_accept_block(FftContext { slot: Some(spec_new_state(n, window)) }, len)
            == BlockDecision::WrongLength,
{
}

} // verus!
