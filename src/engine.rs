//! The handle wrapper: one engine instance, owned.
use vstd::prelude::*;
use vstd::string::StringSliceAdditionalSpecFns;
use vstd::utf8::{decode_utf8, encode_utf8, valid_utf8};

use crate::ctext::{c_prefix, c_string_of, from_c_bytes, has_nul, is_first_nul, to_c_string, to_c_string_entry};
use crate::error::Error;
use crate::native::{calls_view, CallView, NativeCall};

verus! {

/// Number of interleaved channels in a PCM buffer.
pub type ProjectMChannels = u32;

pub const MONO: ProjectMChannels = 1;

pub const STEREO: ProjectMChannels = 2;

/// The shape drawn where the user touches the visualization.
pub type ProjectMTouchType = u32;

pub const TOUCH_TYPE_RANDOM: ProjectMTouchType = 0;

pub const TOUCH_TYPE_CIRCLE: ProjectMTouchType = 1;

pub const TOUCH_TYPE_RADIAL_BLOB: ProjectMTouchType = 2;

pub const TOUCH_TYPE_BLOB2: ProjectMTouchType = 3;

pub const TOUCH_TYPE_BLOB3: ProjectMTouchType = 4;

pub const TOUCH_TYPE_DERIVATIVE_LINE: ProjectMTouchType = 5;

pub const TOUCH_TYPE_BLOB5: ProjectMTouchType = 6;

pub const TOUCH_TYPE_LINE: ProjectMTouchType = 7;

pub const TOUCH_TYPE_DOUBLE_LINE: ProjectMTouchType = 8;

/// What a freshly created engine reports, in the engine's own types.
#[derive(Clone, Copy, Debug, PartialEq, Eq, Structural)]
pub struct EngineReadout {
    pub hard_cut_enabled: bool,
    pub mesh_x: usize,
    pub mesh_y: usize,
    pub fps: i32,
    pub aspect_correction: bool,
    pub preset_locked: bool,
    pub window_width: usize,
    pub window_height: usize,
    /// The most samples one PCM call accepts.
    pub max_samples: u32,
}

/// The engine parameters that the wrapper reads and writes, as the wrapper
/// exposes them.
#[derive(Clone, Copy, Debug, PartialEq, Eq, Structural)]
pub struct Parameters {
    pub hard_cut_enabled: bool,
    pub mesh_x: usize,
    pub mesh_y: usize,
    pub fps: u32,
    pub aspect_correction: bool,
    pub preset_locked: bool,
    pub window_width: usize,
    pub window_height: usize,
}

/// One of the engine's two callback slots.
///
/// Every registration gets the next number; only the latest is active, and an
/// event that arrives carrying any other number is not delivered, so a
/// replaced callback is never run after its replacement.
#[derive(Clone, Copy, Debug, PartialEq, Eq, Structural)]
pub struct CallbackSlot {
    /// How many registrations were made; the next one gets this number.
    pub issued: u64,
    /// The registration that events are delivered to.
    pub active: Option<u64>,
    /// How many events were delivered to the active registration
    /// (saturating at `u64::MAX`).
    pub invocations: u64,
}

impl CallbackSlot {
    pub open spec fn register(self) -> CallbackSlot {
        CallbackSlot { issued: (self.issued + 1) as u64, active: Some(self.issued), invocations: 0 }
    }

    /// Whether an event carrying `registration` reaches a callback.
    pub open spec fn delivers(self, registration: u64) -> bool {
        self.active == Some(registration)
    }

    pub open spec fn deliver(self) -> CallbackSlot {
        CallbackSlot {
            invocations: if self.invocations < u64::MAX {
                (self.invocations + 1) as u64
            } else {
                self.invocations
            },
            ..self
        }
    }
}

/// What installing a callback hands back to the embedding program.
#[derive(Clone, Copy, Debug, PartialEq, Eq, Structural)]
pub struct Registration {
    /// The number that the engine passes back with each event; the program
    /// keeps the callback under it.
    pub registration: u64,
    /// The registration this one replaced, whose callback can now be freed.
    pub replaced: Option<u64>,
}

/// The state of an engine handle as a mathematical value.
pub struct EngineView {
    /// Address of the native instance; never zero.
    pub handle: usize,
    pub max_samples: u32,
    pub params: Parameters,
    pub requested: CallbackSlot,
    pub failed: CallbackSlot,
    /// Playlists bound to this engine and not yet destroyed.
    pub playlists: u32,
    /// Native calls recorded and not yet taken.
    pub pending: Seq<CallView>,
}

impl EngineView {
    pub open spec fn record(self, call: CallView) -> EngineView {
        EngineView { pending: self.pending.push(call), ..self }
    }

    pub open spec fn with_params(self, params: Parameters) -> EngineView {
        EngineView { params, ..self }
    }

    pub open spec fn set_hard_cut_enabled(self, enabled: bool) -> EngineView {
        self.with_params(Parameters { hard_cut_enabled: enabled, ..self.params }).record(
            CallView::SetHardCutEnabled { enabled },
        )
    }

    pub open spec fn set_mesh_size(self, mesh_x: usize, mesh_y: usize) -> EngineView {
        self.with_params(Parameters { mesh_x, mesh_y, ..self.params }).record(
            CallView::SetMeshSize { mesh_x, mesh_y },
        )
    }

    /// Defined for frame rates the engine can represent.
    pub open spec fn set_fps(self, fps: u32) -> EngineView {
        self.with_params(Parameters { fps, ..self.params }).record(
            CallView::SetFps { fps: fps as i32 },
        )
    }

    pub open spec fn set_aspect_correction(self, enabled: bool) -> EngineView {
        self.with_params(Parameters { aspect_correction: enabled, ..self.params }).record(
            CallView::SetAspectCorrection { enabled },
        )
    }

    pub open spec fn set_preset_locked(self, lock: bool) -> EngineView {
        self.with_params(Parameters { preset_locked: lock, ..self.params }).record(
            CallView::SetPresetLocked { lock },
        )
    }

    pub open spec fn set_window_size(self, width: usize, height: usize) -> EngineView {
        self.with_params(Parameters { window_width: width, window_height: height, ..self.params }).record(
            CallView::SetWindowSize { width, height },
        )
    }

    pub open spec fn mesh_size(self) -> (usize, usize) {
        (self.params.mesh_x, self.params.mesh_y)
    }

    pub open spec fn window_size(self) -> (usize, usize) {
        (self.params.window_width, self.params.window_height)
    }

    pub open spec fn register_requested(self) -> EngineView {
        EngineView { requested: self.requested.register(), ..self }.record(
            CallView::SetPresetSwitchRequestedCallback { registration: self.requested.issued },
        )
    }

    pub open spec fn register_failed(self) -> EngineView {
        EngineView { failed: self.failed.register(), ..self }.record(
            CallView::SetPresetSwitchFailedCallback { registration: self.failed.issued },
        )
    }

    /// The engine's preset-switch-requested event, carrying `registration`:
    /// the state after it, and the flag handed to the callback, if any.
    pub open spec fn switch_requested(self, registration: u64, is_hard_cut: bool) -> (EngineView, Option<bool>) {
        if self.requested.delivers(registration) {
            (EngineView { requested: self.requested.deliver(), ..self }, Some(is_hard_cut))
        } else {
            (self, None)
        }
    }

    /// The engine may be destroyed only once no playlist is bound to it.
    pub open spec fn may_destroy(self) -> bool {
        self.playlists == 0
    }

    pub open spec fn bind_playlist(self) -> EngineView {
        EngineView { playlists: (self.playlists + 1) as u32, ..self }
    }

    pub open spec fn unbind_playlist(self) -> EngineView {
        EngineView { playlists: (self.playlists - 1) as u32, ..self }
    }
}

/// Setting a parameter and reading it back gives the value set, for every
/// parameter the wrapper holds (a frame rate within the engine's range).
pub proof fn parameter_round_trip(
    e: EngineView,
    enabled: bool,
    mesh_x: usize,
    mesh_y: usize,
    fps: u32,
    width: usize,
    height: usize,
)
    requires
        fps <= i32::MAX,
    ensures
        e.set_hard_cut_enabled(enabled).params.hard_cut_enabled == enabled,
        e.set_mesh_size(mesh_x, mesh_y).mesh_size() == (mesh_x, mesh_y),
        e.set_fps(fps).params.fps == fps,
        e.set_aspect_correction(enabled).params.aspect_correction == enabled,
        e.set_preset_locked(enabled).params.preset_locked == enabled,
        e.set_window_size(width, height).window_size() == (width, height),
{
}

/// Once a playlist is bound to an engine, the engine cannot be destroyed;
/// destroying that playlist again allows it.
pub proof fn bound_playlist_blocks_destroy(e: EngineView)
    requires
        e.playlists < u32::MAX,
    ensures
        !e.bind_playlist().may_destroy(),
        e.bind_playlist().unbind_playlist() == e,
{
}

/// After a callback is registered, one preset-switch-requested event that
/// carries its registration reaches it exactly once, with the event's
/// hard-cut flag; an event carrying a replaced registration reaches nothing.
pub proof fn requested_callback_runs_once(e: EngineView, is_hard_cut: bool, replaced: u64)
    requires
        e.requested.issued < u64::MAX,
        replaced < e.requested.issued,
    ensures
        e.register_requested().switch_requested(e.requested.issued, is_hard_cut).1 == Some(is_hard_cut),
        e.register_requested().switch_requested(e.requested.issued, is_hard_cut).0.requested.invocations == 1,
        e.register_requested().switch_requested(replaced, is_hard_cut).1.is_none(),
        e.register_requested().switch_requested(replaced, is_hard_cut).0 == e.register_requested(),
{
}

/// The parameters a readout describes, or `None` when its frame rate is
/// negative and so has no unsigned form.
pub open spec fn parameters_of(r: EngineReadout) -> Option<Parameters> {
    if r.fps < 0 {
        None
    } else {
        Some(
            Parameters {
                hard_cut_enabled: r.hard_cut_enabled,
                mesh_x: r.mesh_x,
                mesh_y: r.mesh_y,
                fps: r.fps as u32,
                aspect_correction: r.aspect_correction,
                preset_locked: r.preset_locked,
                window_width: r.window_width,
                window_height: r.window_height,
            },
        )
    }
}

/// An empty callback slot.
pub open spec fn empty_slot() -> CallbackSlot {
    CallbackSlot { issued: 0, active: None, invocations: 0 }
}

/// The samples per channel for a PCM buffer of `samples` values over
/// `channels` channels, or the reason the buffer is refused.
pub open spec fn pcm_count(samples: usize, channels: u32, max: u32) -> Result<u32, Error> {
    if samples > max {
        Err(Error::TooManySamples { samples, max })
    } else if channels == 0 {
        Err(Error::InvalidChannels { channels })
    } else {
        Ok((samples / (channels as usize)) as u32)
    }
}

fn copy_samples<T: Copy>(s: &[T]) -> (r: Vec<T>)
    ensures
        r@ == s@,
{
    let mut out: Vec<T> = Vec::new();
    let mut i: usize = 0;
    while i < s.len()
        invariant
            i <= s@.len(),
            out@ == s@.subrange(0, i as int),
        decreases s@.len() - i,
    {
        out.push(s[i]);
        i = i + 1;
    }
    assert(s@.subrange(0, s@.len() as int) == s@);
    out
}

/// Owns one native engine instance.
///
/// Every parameter change and every other operation records the matching
/// native call, in order; the embedding program takes them with
/// [`ProjectM::take_pending`] and performs them against the instance. The
/// engine validates what it is given and may adjust it, so the parameters
/// held here are those last reported by the engine through
/// [`ProjectM::observe`], or set since then; the embedding program observes
/// the engine before reading them.
pub struct ProjectM {
    handle: usize,
    max_samples: u32,
    params: Parameters,
    requested: CallbackSlot,
    failed: CallbackSlot,
    playlists: u32,
    pending: Vec<NativeCall>,
}

impl View for ProjectM {
    type V = EngineView;

    closed spec fn view(&self) -> EngineView {
        EngineView {
            handle: self.handle,
            max_samples: self.max_samples,
            params: self.params,
            requested: self.requested,
            failed: self.failed,
            playlists: self.playlists,
            pending: calls_view(self.pending@),
        }
    }
}

impl ProjectM {
    /// Takes what the engine reports of its parameters as the current ones.
    /// A negative frame rate has no unsigned form and is refused, changing
    /// nothing.
    pub fn observe(&mut self, readout: EngineReadout) -> (r: Result<(), Error>)
        ensures
            readout.fps < 0 ==> r == Err::<(), Error>(Error::FpsOutOfRange) && final(self)@ == old(self)@,
            readout.fps >= 0 ==> r.is_ok() && Some(final(self)@.params) == parameters_of(readout)
                && final(self)@ == (EngineView {
                    params: final(self)@.params,
                    max_samples: readout.max_samples,
                    ..old(self)@
                }),
    {
        if readout.fps < 0 {
            return Err(Error::FpsOutOfRange);
        }
        self.params = Parameters {
            hard_cut_enabled: readout.hard_cut_enabled,
            mesh_x: readout.mesh_x,
            mesh_y: readout.mesh_y,
            fps: readout.fps as u32,
            aspect_correction: readout.aspect_correction,
            preset_locked: readout.preset_locked,
            window_width: readout.window_width,
            window_height: readout.window_height,
        };
        self.max_samples = readout.max_samples;
        Ok(())
    }

    /// Takes ownership of the native instance at `handle`, whose state is
    /// `readout`. A null handle means the engine could not be allocated.
    pub fn create(handle: usize, readout: EngineReadout) -> (r: Result<ProjectM, Error>)
        ensures
            handle == 0 ==> r == Err::<ProjectM, Error>(Error::NullHandle),
            handle != 0 && readout.fps < 0 ==> r == Err::<ProjectM, Error>(Error::FpsOutOfRange),
            r matches Ok(p) ==> {
                &&& handle != 0
                &&& parameters_of(readout) == Some(p@.params)
                &&& p@.handle == handle
                &&& p@.max_samples == readout.max_samples
                &&& p@.requested == empty_slot()
                &&& p@.failed == empty_slot()
                &&& p@.playlists == 0
                &&& p@.pending == Seq::<CallView>::empty()
            },
            handle != 0 && readout.fps >= 0 ==> r.is_ok(),
    {
        if handle == 0 {
            return Err(Error::NullHandle);
        }
        if readout.fps < 0 {
            return Err(Error::FpsOutOfRange);
        }
        let params = Parameters {
            hard_cut_enabled: readout.hard_cut_enabled,
            mesh_x: readout.mesh_x,
            mesh_y: readout.mesh_y,
            fps: readout.fps as u32,
            aspect_correction: readout.aspect_correction,
            preset_locked: readout.preset_locked,
            window_width: readout.window_width,
            window_height: readout.window_height,
        };
        let empty = CallbackSlot { issued: 0, active: None, invocations: 0 };
        let p = ProjectM {
            handle,
            max_samples: readout.max_samples,
            params,
            requested: empty,
            failed: empty,
            playlists: 0,
            pending: Vec::new(),
        };
        proof {
            assert(calls_view(p.pending@) =~= Seq::<CallView>::empty());
        }
        Ok(p)
    }

    fn record(&mut self, call: NativeCall)
        ensures
            final(self)@ == old(self)@.record(call@),
    {
        self.pending.push(call);
        proof {
            assert(calls_view(self.pending@) =~= calls_view(old(self).pending@).push(call@));
        }
    }

    /// Hands out the recorded native calls, oldest first, and forgets them.
    pub fn take_pending(&mut self) -> (r: Vec<NativeCall>)
        ensures
            calls_view(r@) == old(self)@.pending,
            final(self)@ == (EngineView { pending: Seq::empty(), ..old(self)@ }),
    {
        let mut r: Vec<NativeCall> = Vec::new();
        std::mem::swap(&mut r, &mut self.pending);
        proof {
            assert(calls_view(self.pending@) =~= Seq::<CallView>::empty());
        }
        r
    }

    /// Releases the engine: the calls still pending, then the one that
    /// destroys the instance. Consuming the value makes a second release, or
    /// any use after it, impossible; no playlist may still be bound.
    pub fn destroy(self) -> (r: Vec<NativeCall>)
        requires
            self@.may_destroy(),
        ensures
            calls_view(r@) == self@.pending.push(CallView::Destroy),
    {
        let mut calls = self.pending;
        calls.push(NativeCall::Destroy);
        proof {
            assert(calls_view(calls@) =~= self@.pending.push(CallView::Destroy));
        }
        calls
    }

    /// Address of the native instance.
    pub fn get_instance(&self) -> (r: usize)
        ensures
            r == self@.handle,
    {
        self.handle
    }

    /// Number of playlists bound to this engine and not yet destroyed.
    pub fn bound_playlists(&self) -> (r: u32)
        ensures
            r == self@.playlists,
    {
        self.playlists
    }

    /// Number of preset-switch-requested registrations made so far.
    pub fn requested_registrations(&self) -> (r: u64)
        ensures
            r == self@.requested.issued,
    {
        self.requested.issued
    }

    /// Number of preset-switch-failed registrations made so far.
    pub fn failed_registrations(&self) -> (r: u64)
        ensures
            r == self@.failed.issued,
    {
        self.failed.issued
    }

    /// Events delivered to the active preset-switch-requested callback.
    pub fn requested_invocations(&self) -> (r: u64)
        ensures
            r == self@.requested.invocations,
    {
        self.requested.invocations
    }

    /// Events delivered to the active preset-switch-failed callback.
    pub fn failed_invocations(&self) -> (r: u64)
        ensures
            r == self@.failed.invocations,
    {
        self.failed.invocations
    }

    pub(crate) fn bind_playlist(&mut self)
        requires
            old(self)@.playlists < u32::MAX,
        ensures
            final(self)@ == old(self)@.bind_playlist(),
    {
        self.playlists = self.playlists + 1;
    }

    pub(crate) fn unbind_playlist(&mut self)
        requires
            old(self)@.playlists > 0,
        ensures
            final(self)@ == old(self)@.unbind_playlist(),
    {
        self.playlists = self.playlists - 1;
    }

    /// Loads a preset from a file; `smooth_transition` blends into it rather
    /// than cutting. A load that fails in the engine is reported later, to
    /// the preset-switch-failed callback.
    pub fn load_preset_file(&mut self, filename: &str, smooth_transition: bool) -> (r: Result<(), Error>)
        ensures
            r.is_ok() == !has_nul(filename.spec_bytes()),
            r.is_ok() ==> final(self)@ == old(self)@.record(
                CallView::LoadPresetFile { path: c_string_of(filename.spec_bytes()), smooth_transition },
            ),
            r matches Err(e) ==> final(self)@ == old(self)@ && (e matches Error::InteriorNul { entry, position }
                && entry == 0 && is_first_nul(filename.spec_bytes(), position as int)),
    {
        let path = to_c_string(filename)?;
        self.record(NativeCall::LoadPresetFile { path, smooth_transition });
        Ok(())
    }

    /// Loads a preset from its text.
    pub fn load_preset_data(&mut self, data: &str, smooth_transition: bool) -> (r: Result<(), Error>)
        ensures
            r.is_ok() == !has_nul(data.spec_bytes()),
            r.is_ok() ==> final(self)@ == old(self)@.record(
                CallView::LoadPresetData { data: c_string_of(data.spec_bytes()), smooth_transition },
            ),
            r matches Err(e) ==> final(self)@ == old(self)@ && (e matches Error::InteriorNul { entry, position }
                && entry == 0 && is_first_nul(data.spec_bytes(), position as int)),
    {
        let data = to_c_string(data)?;
        self.record(NativeCall::LoadPresetData { data, smooth_transition });
        Ok(())
    }

    pub fn reset_textures(&mut self)
        ensures
            final(self)@ == old(self)@.record(CallView::ResetTextures),
    {
        self.record(NativeCall::ResetTextures);
    }

    /// The engine's version string, copied out of the buffer it returned.
    pub fn get_version_string(raw: &[u8]) -> (r: Result<String, Error>)
        ensures
            r.is_ok() == valid_utf8(c_prefix(raw@)),
            r matches Ok(s) ==> s@ == decode_utf8(c_prefix(raw@)),
            r matches Err(e) ==> e == Error::InvalidUtf8,
    {
        from_c_bytes(raw)
    }

    /// The revision the engine was built from, copied out of the buffer it
    /// returned.
    pub fn get_vcs_version_string(raw: &[u8]) -> (r: Result<String, Error>)
        ensures
            r.is_ok() == valid_utf8(c_prefix(raw@)),
            r matches Ok(s) ==> s@ == decode_utf8(c_prefix(raw@)),
            r matches Err(e) ==> e == Error::InvalidUtf8,
    {
        from_c_bytes(raw)
    }
    /// Installs a new preset-switch-requested callback, replacing the one
    /// before it. The embedding program keeps the callback under the
    /// returned number and frees the replaced one.
    pub fn set_preset_switch_requested_event_callback(&mut self) -> (r: Registration)
        requires
            old(self)@.requested.issued < u64::MAX,
        ensures
            r == (Registration { registration: old(self)@.requested.issued, replaced: old(self)@.requested.active }),
            final(self)@ == old(self)@.register_requested(),
    {
        let registration = self.requested.issued;
        let replaced = self.requested.active;
        self.requested = CallbackSlot { issued: registration + 1, active: Some(registration), invocations: 0 };
        self.record(NativeCall::SetPresetSwitchRequestedCallback { registration });
        Registration { registration, replaced }
    }

    /// Installs a new preset-switch-failed callback, replacing the one before
    /// it, as [`ProjectM::set_preset_switch_requested_event_callback`] does.
    pub fn set_preset_switch_failed_event_callback(&mut self) -> (r: Registration)
        requires
            old(self)@.failed.issued < u64::MAX,
        ensures
            r == (Registration { registration: old(self)@.failed.issued, replaced: old(self)@.failed.active }),
            final(self)@ == old(self)@.register_failed(),
    {
        let registration = self.failed.issued;
        let replaced = self.failed.active;
        self.failed = CallbackSlot { issued: registration + 1, active: Some(registration), invocations: 0 };
        self.record(NativeCall::SetPresetSwitchFailedCallback { registration });
        Registration { registration, replaced }
    }

    /// The engine asked to switch presets, passing back `registration`.
    /// Returns the hard-cut flag to hand to the callback when that
    /// registration is the active one, and `None` when it was replaced.
    pub fn preset_switch_requested(&mut self, registration: u64, is_hard_cut: bool) -> (r: Option<bool>)
        ensures
            (final(self)@, r) == old(self)@.switch_requested(registration, is_hard_cut),
    {
        if self.requested.active == Some(registration) {
            if self.requested.invocations < u64::MAX {
                self.requested.invocations = self.requested.invocations + 1;
            }
            Some(is_hard_cut)
        } else {
            None
        }
    }

    /// The engine failed to switch to a preset, passing back `registration`
    /// and two C strings: the preset's file name and the engine's message.
    /// When that registration is the active one, returns what to hand to the
    /// callback: the two strings decoded, or `InvalidUtf8` when either is not
    /// UTF-8. Returns `None` when the registration was replaced.
    pub fn preset_switch_failed(&mut self, registration: u64, preset_filename: &[u8], message: &[u8]) -> (r:
        Option<Result<(String, String), Error>>)
        ensures
            !old(self)@.failed.delivers(registration) ==> r.is_none() && final(self)@ == old(self)@,
            old(self)@.failed.delivers(registration) ==> {
                let ok = valid_utf8(c_prefix(preset_filename@)) && valid_utf8(c_prefix(message@));
                &&& final(self)@ == (EngineView { failed: old(self)@.failed.deliver(), ..old(self)@ })
                &&& ok ==> (r matches Some(Ok(_)))
                &&& !ok ==> r == Some(Err::<(String, String), Error>(Error::InvalidUtf8))
            },
            r matches Some(Ok((f, m))) ==> f@ == decode_utf8(c_prefix(preset_filename@))
                && m@ == decode_utf8(c_prefix(message@)),
    {
        if self.failed.active != Some(registration) {
            return None;
        }
        if self.failed.invocations < u64::MAX {
            self.failed.invocations = self.failed.invocations + 1;
        }
        let f = match from_c_bytes(preset_filename) {
            Ok(f) => f,
            Err(e) => return Some(Err(e)),
        };
        let m = match from_c_bytes(message) {
            Ok(m) => m,
            Err(e) => return Some(Err(e)),
        };
        Some(Ok((f, m)))
    }

    /// Sets the directories searched for textures, in order. Each path
    /// crosses as a C string; the call fails, recording nothing, on the
    /// first path that holds a zero byte.
    pub fn set_texture_search_paths(&mut self, texture_search_paths: &[String]) -> (r: Result<(), Error>)
        ensures
            r.is_ok() == (forall|i: int| 0 <= i < texture_search_paths@.len()
                ==> !has_nul(#[trigger] encode_utf8(texture_search_paths@[i]@))),
            r.is_ok() ==> final(self)@ == old(self)@.record(
                CallView::SetTextureSearchPaths {
                    paths: Seq::new(texture_search_paths@.len(), |i: int| c_string_of(encode_utf8(texture_search_paths@[i]@))),
                    count: texture_search_paths@.len() as usize,
                },
            ),
            r matches Err(e) ==> final(self)@ == old(self)@ && (e matches Error::InteriorNul { entry, position }
                && entry < texture_search_paths@.len()
                && (forall|i: int| 0 <= i < entry ==> !has_nul(#[trigger] encode_utf8(texture_search_paths@[i]@)))
                && is_first_nul(encode_utf8(texture_search_paths@[entry as int]@), position as int)),
    {
        let mut paths: Vec<Vec<u8>> = Vec::new();
        let mut i: usize = 0;
        while i < texture_search_paths.len()
            invariant
                i <= texture_search_paths@.len(),
                paths@.len() == i,
                forall|j: int| 0 <= j < i ==> !has_nul(#[trigger] encode_utf8(texture_search_paths@[j]@)),
                forall|j: int| 0 <= j < i ==> (#[trigger] paths@[j])@ == c_string_of(encode_utf8(texture_search_paths@[j]@)),
            decreases texture_search_paths@.len() - i,
        {
            let c = to_c_string_entry(texture_search_paths[i].as_str(), i)?;
            paths.push(c);
            i = i + 1;
        }
        let count = paths.len();
        proof {
            assert(paths@.map_values(|p: Vec<u8>| p@) =~= Seq::new(texture_search_paths@.len(), |i: int| c_string_of(encode_utf8(texture_search_paths@[i]@))));
        }
        self.record(NativeCall::SetTextureSearchPaths { paths, count });
        Ok(())
    }

    /// The most samples one PCM call accepts.
    pub fn pcm_get_max_samples(&self) -> (r: u32)
        ensures
            r == self@.max_samples,
    {
        self.max_samples
    }

    /// The samples per channel of a buffer of `samples` values over
    /// `channels` channels. A buffer longer than the engine accepts, or no
    /// channel at all, is refused.
    pub fn pcm_samples_per_channel(&self, samples: usize, channels: ProjectMChannels) -> (r: Result<u32, Error>)
        ensures
            r == pcm_count(samples, channels, self@.max_samples),
    {
        if samples > self.max_samples as usize {
            Err(Error::TooManySamples { samples, max: self.max_samples })
        } else if channels == 0 {
            Err(Error::InvalidChannels { channels })
        } else {
            Ok((samples / (channels as usize)) as u32)
        }
    }

    /// Feeds 16-bit PCM audio, interleaved over `channels` channels. A
    /// refused buffer records nothing.
    pub fn pcm_add_int16(&mut self, samples: &[i16], channels: ProjectMChannels) -> (r: Result<(), Error>)
        ensures
            r == match pcm_count(samples@.len() as usize, channels, old(self)@.max_samples) {
                Ok(_) => Ok::<(), Error>(()),
                Err(e) => Err(e),
            },
            r.is_err() ==> final(self)@ == old(self)@,
            pcm_count(samples@.len() as usize, channels, old(self)@.max_samples) matches Ok(count)
                ==> final(self)@ == old(self)@.record(CallView::PcmAddInt16 { samples: samples@, count, channels }),
    {
        let count = self.pcm_samples_per_channel(samples.len(), channels)?;
        let samples = copy_samples(samples);
        self.record(NativeCall::PcmAddInt16 { samples, count, channels });
        Ok(())
    }

    /// Feeds unsigned 8-bit PCM audio, interleaved over `channels` channels.
    /// A refused buffer records nothing.
    pub fn pcm_add_uint8(&mut self, samples: &[u8], channels: ProjectMChannels) -> (r: Result<(), Error>)
        ensures
            r == match pcm_count(samples@.len() as usize, channels, old(self)@.max_samples) {
                Ok(_) => Ok::<(), Error>(()),
                Err(e) => Err(e),
            },
            r.is_err() ==> final(self)@ == old(self)@,
            pcm_count(samples@.len() as usize, channels, old(self)@.max_samples) matches Ok(count)
                ==> final(self)@ == old(self)@.record(CallView::PcmAddUint8 { samples: samples@, count, channels }),
    {
        let count = self.pcm_samples_per_channel(samples.len(), channels)?;
        let samples = copy_samples(samples);
        self.record(NativeCall::PcmAddUint8 { samples, count, channels });
        Ok(())
    }
    /// Schedules a capture of the next frame to `output_file`, or to a name
    /// the engine chooses when there is none.
    pub fn write_debug_image_on_next_frame(&mut self, output_file: Option<&String>) -> (r: Result<(), Error>)
        ensures
            output_file.is_none() ==> r.is_ok() && final(self)@ == old(self)@.record(
                CallView::WriteDebugImageOnNextFrame { output_file: None },
            ),
            output_file matches Some(f) ==> {
                &&& r.is_ok() == !has_nul(encode_utf8(f@))
                &&& r.is_ok() ==> final(self)@ == old(self)@.record(
                    CallView::WriteDebugImageOnNextFrame { output_file: Some(c_string_of(encode_utf8(f@))) },
                )
                &&& r matches Err(e) ==> final(self)@ == old(self)@ && (e matches Error::InteriorNul { entry, position }
                    && entry == 0 && is_first_nul(encode_utf8(f@), position as int))
            },
    {
        let path = match output_file {
            Some(f) => Some(to_c_string(f.as_str())?),
            None => None,
        };
        self.record(NativeCall::WriteDebugImageOnNextFrame { output_file: path });
        Ok(())
    }

    pub fn get_hard_cut_enabled(&self) -> (r: bool)
        ensures
            r == self@.params.hard_cut_enabled,
    {
        self.params.hard_cut_enabled
    }

    pub fn set_hard_cut_enabled(&mut self, enabled: bool)
        ensures
            final(self)@ == old(self)@.set_hard_cut_enabled(enabled),
    {
        self.params.hard_cut_enabled = enabled;
        self.record(NativeCall::SetHardCutEnabled { enabled });
    }

    /// The mesh size, both dimensions at once.
    pub fn get_mesh_size(&self) -> (r: (usize, usize))
        ensures
            r == self@.mesh_size(),
    {
        (self.params.mesh_x, self.params.mesh_y)
    }

    pub fn set_mesh_size(&mut self, mesh_x: usize, mesh_y: usize)
        ensures
            final(self)@ == old(self)@.set_mesh_size(mesh_x, mesh_y),
    {
        self.params.mesh_x = mesh_x;
        self.params.mesh_y = mesh_y;
        self.record(NativeCall::SetMeshSize { mesh_x, mesh_y });
    }

    pub fn get_fps(&self) -> (r: u32)
        ensures
            r == self@.params.fps,
    {
        self.params.fps
    }

    /// Sets the target frame rate. The engine holds it as a signed 32-bit
    /// integer: a rate above `i32::MAX` is refused and nothing is recorded.
    pub fn set_fps(&mut self, fps: u32) -> (r: Result<(), Error>)
        ensures
            fps <= i32::MAX ==> r.is_ok() && final(self)@ == old(self)@.set_fps(fps),
            fps > i32::MAX ==> r == Err::<(), Error>(Error::FpsOutOfRange) && final(self)@ == old(self)@,
    {
        if fps > i32::MAX as u32 {
            return Err(Error::FpsOutOfRange);
        }
        self.params.fps = fps;
        self.record(NativeCall::SetFps { fps: fps as i32 });
        Ok(())
    }

    pub fn get_aspect_correction(&self) -> (r: bool)
        ensures
            r == self@.params.aspect_correction,
    {
        self.params.aspect_correction
    }

    pub fn set_aspect_correction(&mut self, enabled: bool)
        ensures
            final(self)@ == old(self)@.set_aspect_correction(enabled),
    {
        self.params.aspect_correction = enabled;
        self.record(NativeCall::SetAspectCorrection { enabled });
    }

    pub fn get_preset_locked(&self) -> (r: bool)
        ensures
            r == self@.params.preset_locked,
    {
        self.params.preset_locked
    }

    pub fn set_preset_locked(&mut self, lock: bool)
        ensures
            final(self)@ == old(self)@.set_preset_locked(lock),
    {
        self.params.preset_locked = lock;
        self.record(NativeCall::SetPresetLocked { lock });
    }

    /// The window size, both dimensions at once.
    pub fn get_window_size(&self) -> (r: (usize, usize))
        ensures
            r == self@.window_size(),
    {
        (self.params.window_width, self.params.window_height)
    }

    pub fn set_window_size(&mut self, width: usize, height: usize)
        ensures
            final(self)@ == old(self)@.set_window_size(width, height),
    {
        self.params.window_width = width;
        self.params.window_height = height;
        self.record(NativeCall::SetWindowSize { width, height });
    }

    /// Renders one frame into the current graphics context.
    pub fn render_frame(&mut self)
        ensures
            final(self)@ == old(self)@.record(CallView::RenderFrame),
    {
        self.record(NativeCall::RenderFrame);
    }

    /// Ends every touch still in progress.
    pub fn touch_destroy_all(&mut self)
        ensures
            final(self)@ == old(self)@.record(CallView::TouchDestroyAll),
    {
        self.record(NativeCall::TouchDestroyAll);
    }

    /// The engine's form of a touch kind: its signed 32-bit integer, which
    /// cannot hold a kind above `i32::MAX`.
    pub fn touch_type_to_native(touch_type: ProjectMTouchType) -> (r: Result<i32, Error>)
        ensures
            touch_type <= i32::MAX ==> r == Ok::<i32, Error>(touch_type as i32),
            touch_type > i32::MAX ==> r == Err::<i32, Error>(Error::TouchTypeOutOfRange),
    {
        if touch_type > i32::MAX as u32 {
            Err(Error::TouchTypeOutOfRange)
        } else {
            Ok(touch_type as i32)
        }
    }
}

} // verus!
