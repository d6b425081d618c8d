//! Per-processor control state: the transform length fixed at
//! construction, the active window, and the length of the coefficient
//! buffer, with the exact reconfiguration policy a window change follows.
//!
//! The floating-point side of a processor — the complex working buffer,
//! the scratch area the transform engine asks for, the coefficient values
//! themselves and the real output buffer — lives with the host, sized and
//! steered by the contracts here: the coefficient buffer always holds
//! exactly `fft_len` values while a window is active and is empty while
//! none is, and [`WindowedFFT::set_window`] reports which of four effects
//! the host must mirror onto its buffers.

use vstd::prelude::*;

use crate::window::WindowType;

verus! {

/// What a pipeline operation can report to the caller.
#[derive(Clone, Copy, Debug, PartialEq, Eq, Structural)]
pub enum FftError {
    /// A transform length below two was requested at configuration time.
    InvalidLength,
    /// A sample block whose length differs from the configured transform
    /// length was handed in.
    SizeMismatch,
}

/// What a window change did to the coefficient buffer.
#[derive(Clone, Copy, Debug, PartialEq, Eq, Structural)]
pub enum SetWindowEffect {
    /// The request named the window already active: nothing changed.
    Unchanged,
    /// The window was switched off: the coefficient buffer is now empty.
    Cleared,
    /// The coefficient buffer was grown to the transform length and must
    /// be refilled from the new window's formula.
    Recomputed,
    /// Only the active-window field changed: the coefficient buffer was
    /// already long enough and keeps its old values.
    KeptCoefficients,
}

/// Control state of one windowed-transform processor.
///
/// `fft_len` is fixed for the processor's lifetime; only the window
/// choice and the coefficient-buffer length change after construction.
#[derive(Clone, Copy, Debug, PartialEq, Eq, Structural)]
pub struct WindowedFFT {
    /// The currently active window, or none.
    pub window: Option<WindowType>,
    /// The transform length: the number of samples per block, of complex
    /// working-buffer slots, and of output values.
    pub fft_len: usize,
    /// The length of the window-coefficient buffer.
    pub coeff_len: usize,
}

impl WindowedFFT {
    /// Every state reachable through this module keeps the coefficient
    /// buffer at exactly the transform length while a window is active,
    /// and empty while none is.
    pub open spec fn wf(self) -> bool {
        &&& self.fft_len >= 2
        &&& self.window.is_some() ==> self.coeff_len == self.fft_len
        &&& self.window.is_none() ==> self.coeff_len == 0
    }
}

/// The state a freshly constructed processor starts in.
pub open spec fn spec_new_state(fft_size: usize, window: Option<WindowType>) -> WindowedFFT {
    WindowedFFT {
        window,
        fft_len: fft_size,
        coeff_len: if window.is_some() { fft_size } else { 0 },
    }
}

/// The state after a window change: a request equal to the active window
/// changes nothing; switching the window off empties the coefficient
/// buffer; switching a window on grows the buffer to the transform length
/// only when it is shorter, and otherwise keeps its values and updates
/// the active-window field alone.
pub open spec fn spec_set_window(s: WindowedFFT, window: Option<WindowType>) -> WindowedFFT {
    if s.window == window {
        s
    } else if window.is_none() {
        WindowedFFT { window: None, fft_len: s.fft_len, coeff_len: 0 }
    } else if s.coeff_len < s.fft_len {
        WindowedFFT { window, fft_len: s.fft_len, coeff_len: s.fft_len }
    } else {
        WindowedFFT { window, fft_len: s.fft_len, coeff_len: s.coeff_len }
    }
}

/// Which effect the window change of [`spec_set_window`] has.
pub open spec fn spec_set_window_effect(
    s: WindowedFFT,
    window: Option<WindowType>,
) -> SetWindowEffect {
    if s.window == window {
        SetWindowEffect::Unchanged
    } else if window.is_none() {
        SetWindowEffect::Cleared
    } else if s.coeff_len < s.fft_len {
        SetWindowEffect::Recomputed
    } else {
        SetWindowEffect::KeptCoefficients
    }
}

impl WindowedFFT {
    /// Constructs the control state for a processor of `fft_size` slots.
    /// A length below two is rejected: the window formulas divide by
    /// `fft_size - 1`, and a one-point transform has no spectral content.
    pub fn new(fft_size: usize, window: Option<WindowType>) -> (r: Result<WindowedFFT, FftError>)
        ensures
            fft_size < 2 ==> r == Err::<WindowedFFT, FftError>(FftError::InvalidLength),
            fft_size >= 2 ==> r == Ok::<WindowedFFT, FftError>(spec_new_state(fft_size, window)),
            fft_size >= 2 ==> spec_new_state(fft_size, window).wf(),
    {
        if fft_size < 2 {
            Err(FftError::InvalidLength)
        } else {
            Ok(WindowedFFT {
                window,
                fft_len: fft_size,
                coeff_len: if window.is_some() { fft_size } else { 0 },
            })
        }
    }

    /// Changes the active window following the policy of
    /// [`spec_set_window`], and reports what the host must do to its
    /// coefficient buffer. The transform length never changes.
    pub fn set_window(&mut self, window: Option<WindowType>) -> (e: SetWindowEffect)
        requires
            old(self).wf(),
        ensures
            final(self).wf(),
            *final(self) == spec_set_window(*old(self), window),
            e == spec_set_window_effect(*old(self), window),
    {
        let same = match (self.window, window) {
            (None, None) => true,
            (Some(a), Some(b)) => a == b,
            _ => false,
        };
        if same {
            return SetWindowEffect::Unchanged;
        }
        if window.is_none() {
            self.coeff_len = 0;
            self.window = None;
            return SetWindowEffect::Cleared;
        }
        if self.coeff_len < self.fft_len {
            self.coeff_len = self.fft_len;
            self.window = window;
            SetWindowEffect::Recomputed
        } else {
            self.window = window;
            SetWindowEffect::KeptCoefficients
        }
    }

    /// Accepts a block length only when it equals the transform length;
    /// anything else is a size mismatch the caller must surface instead
    /// of touching any buffer.
    pub fn check_block_len(&self, len: usize) -> (r: Result<(), FftError>)
        ensures
            len == self.fft_len ==> r == Ok::<(), FftError>(()),
            len != self.fft_len ==> r == Err::<(), FftError>(FftError::SizeMismatch),
    {
        if len == self.fft_len {
            Ok(())
        } else {
            Err(FftError::SizeMismatch)
        }
    }
}

/// Requesting the same window twice in a row is observably a no-op: the
/// second transition leaves the state untouched and reports so, whatever
/// the window request and whatever state the first transition started
/// from.
pub proof fn lemma_set_window_idempotent(s: WindowedFFT, window: Option<WindowType>)
    ensures
        spec_set_window(spec_set_window(s, window), window) == spec_set_window(s, window),
        spec_set_window_effect(spec_set_window(s, window), window) == SetWindowEffect::Unchanged,
{
}

} // verus!
