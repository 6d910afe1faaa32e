//! A preset playlist bound to one engine.
use vstd::prelude::*;
use vstd::string::StringSliceAdditionalSpecFns;

use rand::{Rng, SeedableRng};

use crate::ctext::{c_string_of, has_nul, is_first_nul, to_c_string};
use crate::engine::ProjectM;
use crate::error::Error;
use crate::native::{calls_view, CallView, NativeCall};

verus! {

#[verifier::external_type_specification]
#[verifier::external_body]
pub struct ExStdRng(rand::rngs::StdRng);

/// Relies on `StdRng::from_rng` with `OsRng`: a generator seeded from the
/// operating system's random source, or `None` when that source fails (the
/// seeding reports the failure instead of panicking). Whether it succeeds
/// depends on the machine, so nothing is promised of it.
#[verifier::external_body]
fn seed_generator() -> (r: Option<rand::rngs::StdRng>) {
    match rand::rngs::StdRng::from_rng(rand::rngs::OsRng) {
        Ok(g) => Some(g),
        Err(_) => None,
    }
}

/// Relies on `Rng::gen_range` over `0..len`: a value in that range (the
/// range is not empty, where `gen_range` would panic). A seeded `StdRng`
/// draws without touching the operating system again.
#[verifier::external_body]
fn draw_below(rng: &mut rand::rngs::StdRng, len: u32) -> (r: u32)
    requires
        len > 0,
    ensures
        r < len,
{
    rng.gen_range(0..len)
}

/// The state of a playlist as a mathematical value.
pub struct PlaylistView {
    /// Address of the engine the playlist is bound to.
    pub engine: usize,
    /// Address of the native playlist; never zero.
    pub handle: usize,
    /// Number of entries.
    pub size: u32,
    pub shuffle: bool,
    /// Native calls recorded and not yet taken.
    pub pending: Seq<CallView>,
}

impl PlaylistView {
    pub open spec fn record(self, call: CallView) -> PlaylistView {
        PlaylistView { pending: self.pending.push(call), ..self }
    }

    pub open spec fn set_shuffle(self, shuffle: bool) -> PlaylistView {
        PlaylistView { shuffle, ..self }.record(CallView::PlaylistSetShuffle { shuffle })
    }

    pub open spec fn play_at(self, index: u32) -> PlaylistView {
        self.record(CallView::PlaylistSetPosition { index, hard_cut: true })
    }
}

/// Setting the shuffle mode and reading it back gives the mode set.
pub proof fn shuffle_round_trip(p: PlaylistView, shuffle: bool)
    ensures
        p.set_shuffle(shuffle).shuffle == shuffle,
{
}

/// A native playlist bound to a [`ProjectM`] engine.
///
/// Binding counts on the engine, and the engine cannot be destroyed while
/// that count is above zero; destroying the playlist needs the engine it is
/// bound to. So no playlist call can follow the destruction of its engine.
pub struct Playlist {
    engine: usize,
    handle: usize,
    size: u32,
    shuffle: bool,
    pending: Vec<NativeCall>,
    rng: rand::rngs::StdRng,
}

impl View for Playlist {
    type V = PlaylistView;

    closed spec fn view(&self) -> PlaylistView {
        PlaylistView {
            engine: self.engine,
            handle: self.handle,
            size: self.size,
            shuffle: self.shuffle,
            pending: calls_view(self.pending@),
        }
    }
}

impl Playlist {
    /// Takes ownership of the native playlist at `handle`, created for
    /// `projectm`, and binds it to that engine. A new playlist is empty, and
    /// its shuffle mode is switched off so that wrapper and engine agree. A
    /// null handle means the playlist could not be allocated. The playlist's
    /// generator is seeded from the operating system, and a failure there is
    /// reported as `RandomSource`.
    pub fn create(projectm: &mut ProjectM, handle: usize) -> (r: Result<Playlist, Error>)
        requires
            old(projectm)@.playlists < u32::MAX,
        ensures
            handle == 0 ==> r == Err::<Playlist, Error>(Error::NullHandle),
            r is Err ==> final(projectm)@ == old(projectm)@,
            handle != 0 ==> r is Ok || r == Err::<Playlist, Error>(Error::RandomSource),
            r is Ok ==> final(projectm)@ == old(projectm)@.bind_playlist(),
            r matches Ok(p) ==> p@ == (PlaylistView {
                engine: old(projectm)@.handle,
                handle,
                size: 0,
                shuffle: false,
                pending: seq![CallView::PlaylistSetShuffle { shuffle: false }],
            }),
    {
        if handle == 0 {
            return Err(Error::NullHandle);
        }
        let rng = match seed_generator() {
            Some(g) => g,
            None => return Err(Error::RandomSource),
        };
        projectm.bind_playlist();
        let mut pending: Vec<NativeCall> = Vec::new();
        pending.push(NativeCall::PlaylistSetShuffle { shuffle: false });
        let p = Playlist {
            engine: projectm.get_instance(),
            handle,
            size: 0,
            shuffle: false,
            pending,
            rng,
        };
        proof {
            assert(calls_view(p.pending@) =~= seq![CallView::PlaylistSetShuffle { shuffle: false }]);
        }
        Ok(p)
    }

    /// Releases the playlist: the calls still pending, then the one that
    /// destroys it. Unbinds it from its engine.
    pub fn destroy(self, projectm: &mut ProjectM) -> (r: Vec<NativeCall>)
        requires
            old(projectm)@.handle == self@.engine,
            old(projectm)@.playlists > 0,
        ensures
            calls_view(r@) == self@.pending.push(CallView::PlaylistDestroy),
            final(projectm)@ == old(projectm)@.unbind_playlist(),
    {
        projectm.unbind_playlist();
        let mut calls = self.pending;
        calls.push(NativeCall::PlaylistDestroy);
        proof {
            assert(calls_view(calls@) =~= self@.pending.push(CallView::PlaylistDestroy));
        }
        calls
    }

    fn record(&mut self, call: NativeCall)
        ensures
            final(self)@ == old(self)@.record(call@),
    {
        self.pending.push(call);
        proof {
            assert(calls_view(self.pending@) =~= calls_view(old(self).pending@).push(call@));
        }
    }

    /// Hands out the recorded native calls, oldest first, and forgets them.
    pub fn take_pending(&mut self) -> (r: Vec<NativeCall>)
        ensures
            calls_view(r@) == old(self)@.pending,
            final(self)@ == (PlaylistView { pending: Seq::empty(), ..old(self)@ }),
    {
        let mut r: Vec<NativeCall> = Vec::new();
        std::mem::swap(&mut r, &mut self.pending);
        proof {
            assert(calls_view(self.pending@) =~= Seq::<CallView>::empty());
        }
        r
    }

    /// Address of the engine this playlist is bound to.
    pub fn engine(&self) -> (r: usize)
        ensures
            r == self@.engine,
    {
        self.engine
    }

    /// Address of the native playlist.
    pub fn handle(&self) -> (r: usize)
        ensures
            r == self@.handle,
    {
        self.handle
    }

    /// Number of entries.
    pub fn len(&self) -> (r: u32)
        ensures
            r == self@.size,
    {
        self.size
    }

    pub fn is_empty(&self) -> (r: bool)
        ensures
            r == (self@.size == 0),
    {
        self.len() == 0
    }

    /// Scans the directory `path` (and, when `recursive`, those below it) for
    /// presets and appends them. The engine reports how many it added, which
    /// the embedding program hands to [`Playlist::paths_added`].
    pub fn add_path(&mut self, path: &str, recursive: bool) -> (r: Result<(), Error>)
        ensures
            r.is_ok() == !has_nul(path.spec_bytes()),
            r.is_ok() ==> final(self)@ == old(self)@.record(
                CallView::PlaylistAddPath { path: c_string_of(path.spec_bytes()), recursive, allow_duplicates: false },
            ),
            r matches Err(e) ==> final(self)@ == old(self)@ && (e matches Error::InteriorNul { entry, position }
                && entry == 0 && is_first_nul(path.spec_bytes(), position as int)),
    {
        let path = to_c_string(path)?;
        self.record(NativeCall::PlaylistAddPath { path, recursive, allow_duplicates: false });
        Ok(())
    }

    /// The engine added `added` entries in a scan.
    pub fn paths_added(&mut self, added: u32)
        requires
            old(self)@.size + added <= u32::MAX,
        ensures
            final(self)@ == (PlaylistView { size: (old(self)@.size + added) as u32, ..old(self)@ }),
    {
        self.size = self.size + added;
    }

    /// Goes to the next entry, with a hard cut. An empty playlist is refused.
    pub fn play_next(&mut self) -> (r: Result<(), Error>)
        ensures
            old(self)@.size == 0 ==> r == Err::<(), Error>(Error::EmptyPlaylist) && final(self)@ == old(self)@,
            old(self)@.size > 0 ==> r.is_ok() && final(self)@ == old(self)@.record(
                CallView::PlaylistPlayNext { hard_cut: true },
            ),
    {
        if self.size == 0 {
            return Err(Error::EmptyPlaylist);
        }
        self.record(NativeCall::PlaylistPlayNext { hard_cut: true });
        Ok(())
    }

    /// Goes to the previous entry, with a hard cut. An empty playlist is
    /// refused.
    pub fn play_prev(&mut self) -> (r: Result<(), Error>)
        ensures
            old(self)@.size == 0 ==> r == Err::<(), Error>(Error::EmptyPlaylist) && final(self)@ == old(self)@,
            old(self)@.size > 0 ==> r.is_ok() && final(self)@ == old(self)@.record(
                CallView::PlaylistPlayPrevious { hard_cut: true },
            ),
    {
        if self.size == 0 {
            return Err(Error::EmptyPlaylist);
        }
        self.record(NativeCall::PlaylistPlayPrevious { hard_cut: true });
        Ok(())
    }

    /// Goes to entry `index`, with a hard cut. An empty playlist, or an
    /// index past its end, is refused.
    pub fn play_at(&mut self, index: u32) -> (r: Result<(), Error>)
        ensures
            old(self)@.size == 0 ==> r == Err::<(), Error>(Error::EmptyPlaylist),
            old(self)@.size > 0 && index >= old(self)@.size ==> r == Err::<(), Error>(
                Error::PositionOutOfRange { index, size: old(self)@.size },
            ),
            r.is_err() ==> final(self)@ == old(self)@,
            index < old(self)@.size ==> r.is_ok() && final(self)@ == old(self)@.play_at(index),
    {
        if self.size == 0 {
            return Err(Error::EmptyPlaylist);
        }
        if index >= self.size {
            return Err(Error::PositionOutOfRange { index, size: self.size });
        }
        self.record(NativeCall::PlaylistSetPosition { index, hard_cut: true });
        Ok(())
    }

    /// Goes to an entry drawn uniformly from the playlist by the wrapper's own
    /// generator, with a hard cut. An empty playlist is refused before any
    /// draw.
    pub fn play_random(&mut self) -> (r: Result<(), Error>)
        ensures
            old(self)@.size == 0 ==> r == Err::<(), Error>(Error::EmptyPlaylist) && final(self)@ == old(self)@,
            old(self)@.size > 0 ==> r.is_ok() && exists|i: u32| i < old(self)@.size && final(self)@ == old(self)@.play_at(i),
    {
        if self.size == 0 {
            return Err(Error::EmptyPlaylist);
        }
        let index = draw_below(&mut self.rng, self.size);
        self.play_at(index)
    }

    /// Sets the engine's shuffle mode, which orders `play_next` and
    /// `play_prev`.
    pub fn set_shuffle(&mut self, shuffle: bool)
        ensures
            final(self)@ == old(self)@.set_shuffle(shuffle),
    {
        self.shuffle = shuffle;
        self.record(NativeCall::PlaylistSetShuffle { shuffle });
    }

    pub fn get_shuffle(&self) -> (r: bool)
        ensures
            r == self@.shuffle,
    {
        self.shuffle
    }
}

} // verus!
