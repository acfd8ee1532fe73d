use noise_rings::rings::{Config, OffsetRule, RingAnimator};
use noise_rings::tween::{Mode, Tween, NUM_TWEEN_FRAMES};

#[test]
fn new_tween_is_idle_circles() {
    let t = Tween::new();
    assert_eq!(t.frames, 0);
    assert_eq!(t.mode_to, Mode::Circles);
}

#[test]
fn request_from_idle_starts_countdown() {
    let mut t = Tween::new();
    t.request_mode(Mode::Noise);
    assert_eq!(t.frames, NUM_TWEEN_FRAMES);
    assert_eq!(t.frames, 50);
    assert_eq!(t.mode_to, Mode::Noise);
}

#[test]
fn request_does_not_change_geometry_instantly() {
    // Right after an accepted request the frame is still mid-transition:
    // the offset rule is a blend, not the target mode's terminal rule.
    let cfg = Config::default_config();
    let mut a = RingAnimator::new(cfg);
    a.request_mode(Mode::Noise);
    let fp = a.update(0);
    assert_eq!(fp.rule, OffsetRule::Blend { step: 0 });
}

#[test]
fn request_while_transitioning_is_ignored() {
    let mut t = Tween::new();
    t.request_mode(Mode::Noise);
    assert_eq!(t.frames, 50);
    t.request_mode(Mode::Circles);
    assert_eq!(t.frames, 50);
    assert_eq!(t.mode_to, Mode::Noise);
    t.advance();
    t.request_mode(Mode::Circles);
    assert_eq!(t.frames, 49);
    assert_eq!(t.mode_to, Mode::Noise);
}

#[test]
fn request_for_active_mode_is_ignored() {
    let mut t = Tween::new();
    t.request_mode(Mode::Circles);
    assert_eq!(t.frames, 0);
    assert_eq!(t.mode_to, Mode::Circles);
}

#[test]
fn advance_while_idle_is_a_no_op() {
    let mut t = Tween::new();
    t.advance();
    assert_eq!(t.frames, 0);
    assert_eq!(t.mode_to, Mode::Circles);
}

#[test]
fn transition_completes_after_fifty_updates() {
    let cfg = Config::default_config();
    let mut a = RingAnimator::new(cfg);
    a.request_mode(Mode::Noise);
    for frame in 0..50u64 {
        assert!(a.tween.frames > 0, "still transitioning before update {frame}");
        a.update(frame);
    }
    assert_eq!(a.tween.frames, 0);
    assert_eq!(a.tween.mode_to, Mode::Noise);
    // The next frame is idle noise: the raw offset applies undamped.
    let fp = a.update(50);
    assert_eq!(fp.rule, OffsetRule::Raw);
}

#[test]
fn blend_step_counts_up_toward_noise_and_down_toward_circles() {
    let cfg = Config::default_config();
    let mut a = RingAnimator::new(cfg);
    a.request_mode(Mode::Noise);
    for k in 0..50u32 {
        let fp = a.update(k as u64);
        assert_eq!(fp.rule, OffsetRule::Blend { step: k });
    }
    assert_eq!(a.update(50).rule, OffsetRule::Raw);
    a.request_mode(Mode::Circles);
    for k in 0..50u32 {
        let fp = a.update(51 + k as u64);
        assert_eq!(fp.rule, OffsetRule::Blend { step: 50 - k });
    }
    assert_eq!(a.update(101).rule, OffsetRule::Zero);
}
