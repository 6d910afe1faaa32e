use vstd::prelude::*;

verus! {

/// Everything the wrapper rejects before a call crosses into the engine.
#[derive(Clone, Copy, Debug, PartialEq, Eq, Structural)]
pub enum Error {
    /// The engine (or playlist) allocation handed back a null handle.
    NullHandle,
    /// A string holds a zero byte, which cannot cross as a C string.
    /// `entry` is the index of the string in its list (0 for a lone string),
    /// `position` the byte offset of the first zero byte in it.
    InteriorNul { entry: usize, position: usize },
    /// A string handed back by the engine is not valid UTF-8.
    InvalidUtf8,
    /// A frame rate that the engine's signed integer cannot represent.
    FpsOutOfRange,
    /// A touch kind that the engine's signed integer cannot represent.
    TouchTypeOutOfRange,
    /// More samples than the engine accepts in one call.
    TooManySamples { samples: usize, max: u32 },
    /// A PCM buffer over no channel at all.
    InvalidChannels { channels: u32 },
    /// The operating system's random source could not seed a generator.
    RandomSource,
    /// A playlist operation that needs at least one entry, on an empty playlist.
    EmptyPlaylist,
    /// A playlist position at or past the end of the playlist.
    PositionOutOfRange { index: u32, size: u32 },
}

} // verus!
