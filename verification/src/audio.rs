//! Audio playback surface.
//!
//! Playback is outside this renderer core and not wired up: the sink methods
//! are placeholders that keep the call surface stable for the hosting
//! application.  A sound's encoded bytes are read from disk by the host and
//! handed over whole.

use vstd::prelude::*;

verus! {

/// Handle to the audio output device.
pub struct Instance {}

impl Instance {
    pub fn new() -> (inst: Instance) {
        Instance {  }
    }

    /// A fresh playback sink on this output device.
    pub fn create_sink(&self) -> (sink: Sink) {
        Sink {  }
    }
}

/// One playback channel.
pub struct Sink {}

impl Sink {
    /// Queues a sound for playback.  Placeholder: playback is not wired up,
    /// so the sink does not retain the sound.
    pub fn queue_sound(&self, sound: &Sound) {
    }

    /// Stops whatever this sink is playing.  Placeholder, as above.
    pub fn stop_sound(&self) {
    }
}

/// One loaded sound: the encoded bytes of an audio file, read by the host.
#[derive(Debug)]
pub struct Sound {
    pub data: Vec<u8>,
}

impl Sound {
    /// Wraps the encoded bytes of one audio file.
    pub fn new(data: Vec<u8>) -> (s: Sound)
        ensures
            s.data@ == data@,
    {
        Sound { data }
    }
}

} // verus!
