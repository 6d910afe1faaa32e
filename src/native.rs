//! The calls the wrapper makes across the engine's C interface, with every
//! argument already in the form the interface takes.
use vstd::prelude::*;

verus! {

/// One call into the native engine. Strings are NUL-terminated bytes; the
/// engine handle (or, for the `Playlist*` calls, the playlist handle) is the
/// one of the object that recorded the call.
#[derive(Clone, Debug)]
pub enum NativeCall {
    Destroy,
    LoadPresetFile { path: Vec<u8>, smooth_transition: bool },
    LoadPresetData { data: Vec<u8>, smooth_transition: bool },
    ResetTextures,
    /// The paths, each NUL-terminated, and their number; the interface adds
    /// the terminating null pointer after the last of them.
    SetTextureSearchPaths { paths: Vec<Vec<u8>>, count: usize },
    SetHardCutEnabled { enabled: bool },
    SetMeshSize { mesh_x: usize, mesh_y: usize },
    SetFps { fps: i32 },
    SetAspectCorrection { enabled: bool },
    SetPresetLocked { lock: bool },
    SetWindowSize { width: usize, height: usize },
    /// Installs the preset-switch-requested trampoline, with the registration
    /// number as its user data.
    SetPresetSwitchRequestedCallback { registration: u64 },
    /// Installs the preset-switch-failed trampoline, with the registration
    /// number as its user data.
    SetPresetSwitchFailedCallback { registration: u64 },
    RenderFrame,
    TouchDestroyAll,
    /// `count` samples per channel, interleaved over `channels` channels.
    PcmAddInt16 { samples: Vec<i16>, count: u32, channels: u32 },
    PcmAddUint8 { samples: Vec<u8>, count: u32, channels: u32 },
    /// `None` lets the engine choose the file name.
    WriteDebugImageOnNextFrame { output_file: Option<Vec<u8>> },
    PlaylistDestroy,
    PlaylistAddPath { path: Vec<u8>, recursive: bool, allow_duplicates: bool },
    PlaylistPlayNext { hard_cut: bool },
    PlaylistPlayPrevious { hard_cut: bool },
    PlaylistSetPosition { index: u32, hard_cut: bool },
    PlaylistSetShuffle { shuffle: bool },
}

/// The mathematical content of a [`NativeCall`].
pub enum CallView {
    Destroy,
    LoadPresetFile { path: Seq<u8>, smooth_transition: bool },
    LoadPresetData { data: Seq<u8>, smooth_transition: bool },
    ResetTextures,
    SetTextureSearchPaths { paths: Seq<Seq<u8>>, count: usize },
    SetHardCutEnabled { enabled: bool },
    SetMeshSize { mesh_x: usize, mesh_y: usize },
    SetFps { fps: i32 },
    SetAspectCorrection { enabled: bool },
    SetPresetLocked { lock: bool },
    SetWindowSize { width: usize, height: usize },
    SetPresetSwitchRequestedCallback { registration: u64 },
    SetPresetSwitchFailedCallback { registration: u64 },
    RenderFrame,
    TouchDestroyAll,
    PcmAddInt16 { samples: Seq<i16>, count: u32, channels: u32 },
    PcmAddUint8 { samples: Seq<u8>, count: u32, channels: u32 },
    WriteDebugImageOnNextFrame { output_file: Option<Seq<u8>> },
    PlaylistDestroy,
    PlaylistAddPath { path: Seq<u8>, recursive: bool, allow_duplicates: bool },
    PlaylistPlayNext { hard_cut: bool },
    PlaylistPlayPrevious { hard_cut: bool },
    PlaylistSetPosition { index: u32, hard_cut: bool },
    PlaylistSetShuffle { shuffle: bool },
}

impl View for NativeCall {
    type V = CallView;

    open spec fn view(&self) -> CallView {
        match self {
            NativeCall::Destroy => CallView::Destroy,
            NativeCall::LoadPresetFile { path, smooth_transition } =>
                CallView::LoadPresetFile { path: path@, smooth_transition: *smooth_transition },
            NativeCall::LoadPresetData { data, smooth_transition } =>
                CallView::LoadPresetData { data: data@, smooth_transition: *smooth_transition },
            NativeCall::ResetTextures => CallView::ResetTextures,
            NativeCall::SetTextureSearchPaths { paths, count } =>
                CallView::SetTextureSearchPaths { paths: paths@.map_values(|p: Vec<u8>| p@), count: *count },
            NativeCall::SetHardCutEnabled { enabled } =>
                CallView::SetHardCutEnabled { enabled: *enabled },
            NativeCall::SetMeshSize { mesh_x, mesh_y } =>
                CallView::SetMeshSize { mesh_x: *mesh_x, mesh_y: *mesh_y },
            NativeCall::SetFps { fps } => CallView::SetFps { fps: *fps },
            NativeCall::SetAspectCorrection { enabled } =>
                CallView::SetAspectCorrection { enabled: *enabled },
            NativeCall::SetPresetLocked { lock } => CallView::SetPresetLocked { lock: *lock },
            NativeCall::SetWindowSize { width, height } =>
                CallView::SetWindowSize { width: *width, height: *height },
            NativeCall::SetPresetSwitchRequestedCallback { registration } =>
                CallView::SetPresetSwitchRequestedCallback { registration: *registration },
            NativeCall::SetPresetSwitchFailedCallback { registration } =>
                CallView::SetPresetSwitchFailedCallback { registration: *registration },
            NativeCall::RenderFrame => CallView::RenderFrame,
            NativeCall::TouchDestroyAll => CallView::TouchDestroyAll,
            NativeCall::PcmAddInt16 { samples, count, channels } =>
                CallView::PcmAddInt16 { samples: samples@, count: *count, channels: *channels },
            NativeCall::PcmAddUint8 { samples, count, channels } =>
                CallView::PcmAddUint8 { samples: samples@, count: *count, channels: *channels },
            NativeCall::WriteDebugImageOnNextFrame { output_file } =>
                CallView::WriteDebugImageOnNextFrame {
                    output_file: match output_file {
                        Some(f) => Some(f@),
                        None => None,
                    },
                },
            NativeCall::PlaylistDestroy => CallView::PlaylistDestroy,
            NativeCall::PlaylistAddPath { path, recursive, allow_duplicates } =>
                CallView::PlaylistAddPath {
                    path: path@,
                    recursive: *recursive,
                    allow_duplicates: *allow_duplicates,
                },
            NativeCall::PlaylistPlayNext { hard_cut } =>
                CallView::PlaylistPlayNext { hard_cut: *hard_cut },
            NativeCall::PlaylistPlayPrevious { hard_cut } =>
                CallView::PlaylistPlayPrevious { hard_cut: *hard_cut },
            NativeCall::PlaylistSetPosition { index, hard_cut } =>
                CallView::PlaylistSetPosition { index: *index, hard_cut: *hard_cut },
            NativeCall::PlaylistSetShuffle { shuffle } =>
                CallView::PlaylistSetShuffle { shuffle: *shuffle },
        }
    }
}

/// The views of a sequence of calls, in order.
pub open spec fn calls_view(calls: Seq<NativeCall>) -> Seq<CallView> {
    calls.map_values(|c: NativeCall| c@)
}

} // verus!
