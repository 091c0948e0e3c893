use meru::audio::AudioBuffer;
use meru::audio::AudioSample;
use meru::color::Color;
use meru::frame_buffer::FrameBuffer;
use meru::rewinding::AutoSavedState;

#[test]
fn new_picture_is_black() {
    let fb = FrameBuffer::new(3, 2);
    assert_eq!((fb.width, fb.height), (3, 2));
    assert_eq!(fb.buffer, vec![Color::new(0, 0, 0); 6]);
    let empty = FrameBuffer::new(0, 5);
    assert!(empty.buffer.is_empty());
}

#[test]
fn pixels_are_addressed_row_by_row() {
    let mut fb = FrameBuffer::new(3, 2);
    *fb.pixel_mut(1, 0) = Color::new(1, 2, 3);
    *fb.pixel_mut(2, 1) = Color::new(4, 5, 6);
    assert_eq!(fb.buffer[1], Color::new(1, 2, 3));
    assert_eq!(fb.buffer[5], Color::new(4, 5, 6));
    assert_eq!(*fb.pixel(1, 0), Color::new(1, 2, 3));
    assert_eq!(*fb.pixel(2, 1), Color::new(4, 5, 6));
    assert_eq!(*fb.pixel(0, 1), Color::new(0, 0, 0));
}

#[test]
fn resize_keeps_the_run_of_pixels() {
    let mut fb = FrameBuffer::new(2, 2);
    for (i, c) in fb.buffer.iter_mut().enumerate() {
        *c = Color::new(i as u8 + 1, 0, 0);
    }
    fb.resize(2, 2);
    assert_eq!(fb.buffer.len(), 4);
    assert_eq!(fb.buffer[3], Color::new(4, 0, 0));
    fb.resize(3, 2);
    assert_eq!((fb.width, fb.height), (3, 2));
    assert_eq!(
        fb.buffer,
        vec![
            Color::new(1, 0, 0),
            Color::new(2, 0, 0),
            Color::new(3, 0, 0),
            Color::new(4, 0, 0),
            Color::new(0, 0, 0),
            Color::new(0, 0, 0),
        ]
    );
    fb.resize(1, 2);
    assert_eq!(fb.buffer, vec![Color::new(1, 0, 0), Color::new(2, 0, 0)]);
}

#[test]
fn picture_as_bytes() {
    let mut fb = FrameBuffer::new(2, 1);
    *fb.pixel_mut(0, 0) = Color::new(10, 20, 30);
    *fb.pixel_mut(1, 0) = Color::new(40, 50, 60);
    assert_eq!(fb.to_rgba(), vec![10, 20, 30, 255, 40, 50, 60, 255]);
    assert_eq!(FrameBuffer::new(0, 0).to_rgba(), Vec::<u8>::new());
}

#[test]
fn record_of_state_and_picture() {
    let fb = FrameBuffer::new(2, 2);
    let record = AutoSavedState::try_new(fb.to_rgba(), vec![9; 5]).unwrap();
    assert_eq!(record.size(), 21);
    assert_eq!(record.thumbnail().len(), 16);
    assert_eq!(record.data(), &vec![9u8; 5]);
    let plain = AutoSavedState::new(vec![], vec![]);
    assert_eq!(plain.size(), 0);
}

#[test]
fn sound_buffers() {
    let buffer = AudioBuffer::default();
    assert_eq!((buffer.sample_rate, buffer.channels, buffer.samples.len()), (48000, 2, 0));
    let buffer = AudioBuffer::new(44100, 1);
    assert_eq!((buffer.sample_rate, buffer.channels, buffer.samples.len()), (44100, 1, 0));
    assert_eq!(AudioSample::new(-3, 7), AudioSample { left: -3, right: 7 });
    assert_eq!(AudioSample::default(), AudioSample::new(0, 0));
}
