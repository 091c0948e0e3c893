use vstd::prelude::*;

verus! {

/// One sample of stereo sound.
#[derive(Default, Clone, Copy, Debug, PartialEq, Eq, Structural)]
pub struct AudioSample {
    pub left: i16,
    pub right: i16,
}

impl AudioSample {
    pub fn new(left: i16, right: i16) -> (r: Self)
        ensures
            r == (AudioSample { left, right }),
    {
        AudioSample { left, right }
    }
}

/// The sound of one frame.
pub struct AudioBuffer {
    pub sample_rate: u32,
    pub channels: u16,
    pub samples: Vec<AudioSample>,
}

impl AudioBuffer {
    /// An empty buffer of a given format.
    pub fn new(sample_rate: u32, channels: u16) -> (r: Self)
        ensures
            r.sample_rate == sample_rate,
            r.channels == channels,
            r.samples@.len() == 0,
    {
        AudioBuffer { sample_rate, channels, samples: Vec::new() }
    }
}

impl Default for AudioBuffer {
    /// An empty buffer of stereo sound at 48 kHz.
    fn default() -> (r: Self)
        ensures
            r.sample_rate == 48000,
            r.channels == 2,
            r.samples@.len() == 0,
    {
        AudioBuffer { sample_rate: 48000, channels: 2, samples: Vec::new() }
    }
}

} // verus!
