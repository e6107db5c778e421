use hub75::{
    Animation, AnimationData, AnimationEffect, AnimationError, AnimationState, Hub75Color,
    Hub75Error, Hub75FrameBuffer,
};

fn filled(width: usize, height: usize, bits: usize, color: Hub75Color) -> Hub75FrameBuffer {
    let mut fb = Hub75FrameBuffer::new(width, height, bits);
    fb.fill(color);
    fb
}

#[test]
fn test_animation_creation() {
    let frames = vec![
        Hub75FrameBuffer::new(32, 16, 6),
        Hub75FrameBuffer::new(32, 16, 6),
    ];

    let animation = Animation::new(
        AnimationData::Frames(frames),
        AnimationEffect::Direct,
        60, // 60 frames total
        32,
        16,
        6,
    );

    assert!(animation.is_ok());
    let animation = animation.unwrap();
    assert!(!animation.is_done());
}

#[test]
fn test_animation_data_frame_count() {
    let frames = vec![
        Hub75FrameBuffer::new(32, 16, 6),
        Hub75FrameBuffer::new(32, 16, 6),
        Hub75FrameBuffer::new(32, 16, 6),
    ];

    let data = AnimationData::Frames(frames);
    assert_eq!(data.frame_count(32, 16), 3);

    let text_data = AnimationData::Text(b"Hello".to_vec());
    assert_eq!(text_data.frame_count(32, 16), 5);

    // RGB data: 32 * 16 * 3 = 1536 bytes per frame
    let rgb_data = vec![0u8; 1536 * 2]; // 2 frames
    let rgb_animation_data = AnimationData::RgbData(rgb_data);
    assert_eq!(rgb_animation_data.frame_count(32, 16), 2);
}

#[test]
fn test_animation_effects() {
    let frames = vec![Hub75FrameBuffer::new(32, 16, 6)];
    let frames2 = vec![Hub75FrameBuffer::new(32, 16, 6)];

    // Test different effects create different step counts
    let none_anim = Animation::new(
        AnimationData::Frames(frames),
        AnimationEffect::Direct,
        60, // 60 frames total
        32,
        16,
        6,
    )
    .unwrap();

    let slide_anim = Animation::new(
        AnimationData::Frames(frames2),
        AnimationEffect::Slide,
        60, // 60 frames total
        32,
        16,
        6,
    )
    .unwrap();

    assert!(slide_anim.total_steps() > none_anim.total_steps());
}

#[test]
fn test_animation_empty_data() {
    let animation = Animation::new(
        AnimationData::Frames(Vec::new()),
        AnimationEffect::Direct,
        60,
        32,
        16,
        6,
    );
    assert_eq!(animation.err().unwrap(), AnimationError::InvalidData);
}

#[test]
fn test_animation_exhaustion() {
    // One frame, no effect, one tick per step: exactly one Apply, then
    // Done, and Done stays.
    let frames = vec![filled(8, 8, 4, Hub75Color::red(4))];
    let mut animation =
        Animation::new(AnimationData::Frames(frames), AnimationEffect::Direct, 1, 8, 8, 4).unwrap();

    match animation.next() {
        AnimationState::Apply(frame) => {
            assert_eq!(frame.get_pixel(0, 0).unwrap(), Hub75Color::red(4));
        }
        _ => panic!("expected one applied frame"),
    }
    assert!(animation.is_done());
    assert!(matches!(animation.next(), AnimationState::Done));
    assert!(matches!(animation.next(), AnimationState::Done));
}

#[test]
fn test_animation_waits_between_steps() {
    let frames = vec![filled(8, 8, 4, Hub75Color::red(4))];
    let mut animation =
        Animation::new(AnimationData::Frames(frames), AnimationEffect::Direct, 4, 8, 8, 4).unwrap();

    // frames_per_step is 4: three waits before the step fires.
    assert!(matches!(animation.next(), AnimationState::Wait));
    assert!(matches!(animation.next(), AnimationState::Wait));
    assert!(matches!(animation.next(), AnimationState::Wait));
    assert!(matches!(animation.next(), AnimationState::Apply(_)));
    assert!(matches!(animation.next(), AnimationState::Done));
}

#[test]
fn test_animation_reset() {
    let frames = vec![filled(8, 8, 4, Hub75Color::red(4))];
    let mut animation =
        Animation::new(AnimationData::Frames(frames), AnimationEffect::Direct, 1, 8, 8, 4).unwrap();
    assert!(matches!(animation.next(), AnimationState::Apply(_)));
    assert!(animation.is_done());

    animation.reset();
    assert!(!animation.is_done());
    assert!(matches!(animation.next(), AnimationState::Apply(_)));
}

#[test]
fn test_slide_boundaries() {
    // Two 4x4 frames: the current all red, the next all blue.
    let red_frame = filled(4, 4, 6, Hub75Color::red(6));
    let blue_frame = filled(4, 4, 6, Hub75Color::blue(6));

    // At sub-step 0 the output equals the current frame.
    let out = AnimationEffect::Slide
        .apply_slide_effect(&red_frame, Some(&blue_frame), 0)
        .unwrap();
    for x in 0..4 {
        for y in 0..4 {
            assert_eq!(out.get_pixel(x, y).unwrap(), Hub75Color::red(6));
        }
    }

    // Half way: the left half shows the current frame, the right half
    // the next one.
    let out = AnimationEffect::Slide
        .apply_slide_effect(&red_frame, Some(&blue_frame), 2)
        .unwrap();
    for y in 0..4 {
        assert_eq!(out.get_pixel(0, y).unwrap(), Hub75Color::red(6));
        assert_eq!(out.get_pixel(1, y).unwrap(), Hub75Color::red(6));
        assert_eq!(out.get_pixel(2, y).unwrap(), Hub75Color::blue(6));
        assert_eq!(out.get_pixel(3, y).unwrap(), Hub75Color::blue(6));
    }

    // At sub-step width - 1 only column 0 still shows the current frame.
    let out = AnimationEffect::Slide
        .apply_slide_effect(&red_frame, Some(&blue_frame), 3)
        .unwrap();
    for y in 0..4 {
        assert_eq!(out.get_pixel(0, y).unwrap(), Hub75Color::red(6));
        assert_eq!(out.get_pixel(1, y).unwrap(), Hub75Color::blue(6));
        assert_eq!(out.get_pixel(2, y).unwrap(), Hub75Color::blue(6));
        assert_eq!(out.get_pixel(3, y).unwrap(), Hub75Color::blue(6));
    }

    // Without a next frame the wrapped columns are black.
    let out = AnimationEffect::Slide
        .apply_slide_effect(&red_frame, None, 3)
        .unwrap();
    for y in 0..4 {
        assert_eq!(out.get_pixel(0, y).unwrap(), Hub75Color::red(6));
        assert_eq!(out.get_pixel(1, y).unwrap(), Hub75Color::black(6));
    }
}

#[test]
fn test_wipe_reveals_columns() {
    // A white diagonal on a 4x4 frame.
    let mut frame = Hub75FrameBuffer::new(4, 4, 6);
    for i in 0..4 {
        frame.set_pixel(i, i, Hub75Color::white(6)).unwrap();
    }

    for s in 0..4usize {
        let out = AnimationEffect::Wipe.apply_wipe_effect(&frame, s).unwrap();
        for x in 0..4usize {
            for y in 0..4usize {
                let expected = if x <= s {
                    frame.get_pixel(x, y).unwrap()
                } else {
                    Hub75Color::black(6)
                };
                assert_eq!(out.get_pixel(x, y).unwrap(), expected);
            }
        }
    }

    // At the last sub-step the output equals the frame.
    let out = AnimationEffect::Wipe.apply_wipe_effect(&frame, 3).unwrap();
    assert_eq!(out.to_rgb_data(), frame.to_rgb_data());
}

#[test]
fn test_fade_envelope() {
    let frame = filled(4, 4, 6, Hub75Color::new(6, 60, 30, 15));

    // Sub-step 0: all black.
    let out = AnimationEffect::Fade.apply_fade_effect(&frame, 0).unwrap();
    assert_eq!(out.get_pixel(0, 0).unwrap(), Hub75Color::black(6));

    // Sub-step 7: factor 7/15 on every channel.
    let out = AnimationEffect::Fade.apply_fade_effect(&frame, 7).unwrap();
    assert_eq!(
        out.get_pixel(0, 0).unwrap(),
        Hub75Color::new(6, (60 * 7 / 15) as u8, (30 * 7 / 15) as u8, (15 * 7 / 15) as u8)
    );

    // Sub-step 8 still carries the peak factor 7/15.
    let out = AnimationEffect::Fade.apply_fade_effect(&frame, 8).unwrap();
    assert_eq!(
        out.get_pixel(0, 0).unwrap(),
        Hub75Color::new(6, 28, 14, 7)
    );

    // Sub-step 15: all black again.
    let out = AnimationEffect::Fade.apply_fade_effect(&frame, 15).unwrap();
    assert_eq!(out.get_pixel(0, 0).unwrap(), Hub75Color::black(6));
}

#[test]
fn test_text_frames() {
    let data = AnimationData::Text(b"A".to_vec());
    let frame = data.get_frame(0, 8, 8, 4).unwrap();
    // The glyph starts at (1, 1) on an 8x8 panel; row 0 of 'A' is 01110.
    assert_eq!(frame.get_pixel(1, 1).unwrap(), Hub75Color::black(4));
    assert_eq!(frame.get_pixel(2, 1).unwrap(), Hub75Color::white(4));
    assert_eq!(frame.get_pixel(3, 1).unwrap(), Hub75Color::white(4));
    assert_eq!(frame.get_pixel(4, 1).unwrap(), Hub75Color::white(4));
    assert_eq!(frame.get_pixel(5, 1).unwrap(), Hub75Color::black(4));
    // Row 3 of 'A' is 11111.
    for x in 1..6 {
        assert_eq!(frame.get_pixel(x, 4).unwrap(), Hub75Color::white(4));
    }
}

#[test]
fn test_rgb_data_frames() {
    // Two 2x2 frames: the first red, the second blue.
    let mut bytes = vec![0u8; 2 * 2 * 3 * 2];
    for p in 0..4 {
        bytes[p * 3] = 255;
        bytes[12 + p * 3 + 2] = 255;
    }
    let data = AnimationData::RgbData(bytes);
    let f0 = data.get_frame(0, 2, 2, 8).unwrap();
    let f1 = data.get_frame(1, 2, 2, 8).unwrap();
    assert_eq!(f0.get_pixel(1, 1).unwrap(), Hub75Color::new(8, 255, 0, 0));
    assert_eq!(f1.get_pixel(0, 0).unwrap(), Hub75Color::new(8, 0, 0, 255));
    assert_eq!(
        data.get_frame(2, 2, 2, 8).unwrap_err(),
        Hub75Error::AnimationError(AnimationError::InvalidData)
    );
}

#[test]
fn test_error_conversion() {
    let err: Hub75Error = Hub75Error::from(AnimationError::TooFast);
    assert_eq!(err, Hub75Error::AnimationError(AnimationError::TooFast));
    let err: Hub75Error = AnimationError::InvalidDuration.into();
    assert_eq!(err, Hub75Error::AnimationError(AnimationError::InvalidDuration));
}

#[test]
fn test_slide_animation_over_two_frames() {
    // A full slide over two 4x4 frames, one tick per step.
    let frames = vec![
        filled(4, 4, 6, Hub75Color::red(6)),
        filled(4, 4, 6, Hub75Color::blue(6)),
    ];
    let mut animation =
        Animation::new(AnimationData::Frames(frames), AnimationEffect::Slide, 8, 4, 4, 6).unwrap();
    assert_eq!(animation.total_steps(), 8);

    // Step 0 shows the first frame untouched.
    match animation.next() {
        AnimationState::Apply(f) => {
            assert_eq!(f.get_pixel(3, 0).unwrap(), Hub75Color::red(6));
        }
        _ => panic!("expected an applied frame"),
    }
    // Step 1: the rightmost column already shows the next frame.
    match animation.next() {
        AnimationState::Apply(f) => {
            assert_eq!(f.get_pixel(0, 0).unwrap(), Hub75Color::red(6));
            assert_eq!(f.get_pixel(3, 0).unwrap(), Hub75Color::blue(6));
        }
        _ => panic!("expected an applied frame"),
    }
}
