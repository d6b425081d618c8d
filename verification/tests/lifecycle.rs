use windowed_fft::BlockDecision;
use windowed_fft::FftContext;
use windowed_fft::FftError;
use windowed_fft::SetWindowEffect;
use windowed_fft::WindowType;
use windowed_fft::WindowedFFT;

#[test]
fn fresh_context_is_benign() {
    let mut ctx = FftContext::new();
    assert_eq!(ctx.buffer_len(), None);
    assert_eq!(ctx.accept_block(4), BlockDecision::NoProcessor);
    assert_eq!(
        ctx.set_fft_window(Some(WindowType::Hanning)),
        SetWindowEffect::Unchanged
    );
    ctx.delete_fft();
    ctx.delete_fft();
    assert_eq!(ctx.buffer_len(), None);
}

#[test]
fn invalid_length_leaves_prior_processor_untouched() {
    let mut ctx = FftContext::new();
    assert_eq!(ctx.set_fft(8, Some(WindowType::Hanning)), Ok(()));
    assert_eq!(ctx.buffer_len(), Some(8));

    assert_eq!(ctx.set_fft(0, None), Err(FftError::InvalidLength));
    assert_eq!(ctx.buffer_len(), Some(8));
    assert_eq!(
        ctx.accept_block(8),
        BlockDecision::Accepted { windowed: true }
    );

    assert_eq!(
        ctx.set_fft(1, Some(WindowType::Welch)),
        Err(FftError::InvalidLength)
    );
    assert_eq!(ctx.buffer_len(), Some(8));
}

#[test]
fn invalid_length_on_empty_context() {
    let mut ctx = FftContext::new();
    assert_eq!(ctx.set_fft(0, None), Err(FftError::InvalidLength));
    assert_eq!(ctx.buffer_len(), None);
    assert_eq!(ctx.set_fft(1, None), Err(FftError::InvalidLength));
    assert_eq!(ctx.buffer_len(), None);
}

#[test]
fn configure_replaces_processor() {
    let mut ctx = FftContext::new();
    assert_eq!(ctx.set_fft(4, None), Ok(()));
    assert_eq!(ctx.buffer_len(), Some(4));
    assert_eq!(ctx.set_fft(16, Some(WindowType::Parzen)), Ok(()));
    assert_eq!(ctx.buffer_len(), Some(16));
    assert_eq!(ctx.accept_block(4), BlockDecision::WrongLength);
    assert_eq!(
        ctx.accept_block(16),
        BlockDecision::Accepted { windowed: true }
    );
}

#[test]
fn wrong_block_length_is_rejected() {
    let mut ctx = FftContext::new();
    assert_eq!(ctx.set_fft(8, None), Ok(()));
    assert_eq!(ctx.accept_block(7), BlockDecision::WrongLength);
    assert_eq!(ctx.accept_block(9), BlockDecision::WrongLength);
    assert_eq!(ctx.accept_block(0), BlockDecision::WrongLength);
    assert_eq!(
        ctx.accept_block(8),
        BlockDecision::Accepted { windowed: false }
    );
}

#[test]
fn set_window_twice_is_a_no_op() {
    let mut ctx = FftContext::new();
    assert_eq!(ctx.set_fft(8, None), Ok(()));
    assert_eq!(
        ctx.set_fft_window(Some(WindowType::Hanning)),
        SetWindowEffect::Recomputed
    );
    assert_eq!(
        ctx.set_fft_window(Some(WindowType::Hanning)),
        SetWindowEffect::Unchanged
    );
    assert_eq!(ctx.set_fft_window(None), SetWindowEffect::Cleared);
    assert_eq!(ctx.set_fft_window(None), SetWindowEffect::Unchanged);
}

#[test]
fn switching_windows_keeps_full_length_coefficients() {
    let mut ctx = FftContext::new();
    assert_eq!(ctx.set_fft(8, Some(WindowType::Hanning)), Ok(()));
    // The coefficient buffer already spans the transform length, so a
    // different window only relabels it; the values are not recomputed.
    assert_eq!(
        ctx.set_fft_window(Some(WindowType::Hamming)),
        SetWindowEffect::KeptCoefficients
    );
    // After clearing, a window request grows the buffer again.
    assert_eq!(ctx.set_fft_window(None), SetWindowEffect::Cleared);
    assert_eq!(
        ctx.set_fft_window(Some(WindowType::Hamming)),
        SetWindowEffect::Recomputed
    );
}

#[test]
fn processor_state_tracks_coefficient_length() {
    let with_window = WindowedFFT::new(4, Some(WindowType::Welch)).unwrap();
    assert_eq!(with_window.fft_len, 4);
    assert_eq!(with_window.coeff_len, 4);
    assert_eq!(with_window.window, Some(WindowType::Welch));

    let mut bare = WindowedFFT::new(4, None).unwrap();
    assert_eq!(bare.coeff_len, 0);
    assert_eq!(bare.window, None);
    assert_eq!(
        bare.set_window(Some(WindowType::Welch)),
        SetWindowEffect::Recomputed
    );
    assert_eq!(bare.coeff_len, 4);
    assert_eq!(bare.set_window(None), SetWindowEffect::Cleared);
    assert_eq!(bare.coeff_len, 0);

    assert_eq!(
        WindowedFFT::new(1, None),
        Err(FftError::InvalidLength)
    );
    assert_eq!(
        WindowedFFT::new(0, Some(WindowType::Hanning)),
        Err(FftError::InvalidLength)
    );
}

#[test]
fn block_length_check_is_exact() {
    let p = WindowedFFT::new(8, None).unwrap();
    assert_eq!(p.check_block_len(8), Ok(()));
    assert_eq!(p.check_block_len(7), Err(FftError::SizeMismatch));
    assert_eq!(p.check_block_len(0), Err(FftError::SizeMismatch));
}
