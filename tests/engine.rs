use projectm::engine::{EngineReadout, ProjectM, Registration, MONO, STEREO, TOUCH_TYPE_DOUBLE_LINE};
use projectm::error::Error;
use projectm::native::NativeCall;

fn readout() -> EngineReadout {
    EngineReadout {
        hard_cut_enabled: false,
        mesh_x: 48,
        mesh_y: 32,
        fps: 60,
        aspect_correction: true,
        preset_locked: false,
        window_width: 0,
        window_height: 0,
        max_samples: 2048,
    }
}

fn engine() -> ProjectM {
    ProjectM::create(0x1000, readout()).unwrap()
}

#[test]
fn create_takes_readout() {
    let pm = engine();
    assert_eq!(pm.get_instance(), 0x1000);
    assert_eq!(pm.get_mesh_size(), (48, 32));
    assert_eq!(pm.get_fps(), 60);
    assert!(pm.get_aspect_correction());
    assert!(!pm.get_hard_cut_enabled());
    assert!(!pm.get_preset_locked());
    assert_eq!(pm.get_window_size(), (0, 0));
    assert_eq!(pm.pcm_get_max_samples(), 2048);
    assert_eq!(pm.bound_playlists(), 0);
}

#[test]
fn create_rejects_null_handle() {
    assert!(matches!(ProjectM::create(0, readout()), Err(Error::NullHandle)));
}

#[test]
fn create_rejects_negative_fps() {
    let mut r = readout();
    r.fps = -1;
    assert!(matches!(ProjectM::create(0x1000, r), Err(Error::FpsOutOfRange)));
}

#[test]
fn mesh_window_preset_and_frame_scenario() {
    let mut pm = engine();
    let failed = pm.set_preset_switch_failed_event_callback();
    pm.set_mesh_size(32, 24);
    assert_eq!(pm.get_mesh_size(), (32, 24));
    pm.set_window_size(640, 360);
    assert_eq!(pm.get_window_size(), (640, 360));
    pm.load_preset_file("presets/flexi.milk", false).unwrap();
    pm.render_frame();
    let calls = pm.take_pending();
    assert_eq!(calls.len(), 5);
    assert!(matches!(calls[0], NativeCall::SetPresetSwitchFailedCallback { registration } if registration == failed.registration));
    assert!(matches!(calls[1], NativeCall::SetMeshSize { mesh_x: 32, mesh_y: 24 }));
    assert!(matches!(calls[2], NativeCall::SetWindowSize { width: 640, height: 360 }));
    match &calls[3] {
        NativeCall::LoadPresetFile { path, smooth_transition } => {
            assert_eq!(path.as_slice(), b"presets/flexi.milk\0");
            assert!(!smooth_transition);
        }
        other => panic!("unexpected call {:?}", other),
    }
    assert!(matches!(calls[4], NativeCall::RenderFrame));
    assert!(pm.take_pending().is_empty());
    assert_eq!(pm.failed_invocations(), 0);
}

#[test]
fn parameters_read_back_as_set() {
    let mut pm = engine();
    pm.set_hard_cut_enabled(true);
    assert!(pm.get_hard_cut_enabled());
    pm.set_aspect_correction(false);
    assert!(!pm.get_aspect_correction());
    pm.set_preset_locked(true);
    assert!(pm.get_preset_locked());
    pm.set_fps(30).unwrap();
    assert_eq!(pm.get_fps(), 30);
    pm.set_fps(i32::MAX as u32).unwrap();
    assert_eq!(pm.get_fps(), i32::MAX as u32);
    pm.set_mesh_size(0, 0);
    assert_eq!(pm.get_mesh_size(), (0, 0));
    pm.set_window_size(usize::MAX, 1);
    assert_eq!(pm.get_window_size(), (usize::MAX, 1));
    let calls = pm.take_pending();
    assert_eq!(calls.len(), 7);
    assert!(matches!(calls[3], NativeCall::SetFps { fps: 30 }));
    assert!(matches!(calls[4], NativeCall::SetFps { fps: i32::MAX }));
}

#[test]
fn fps_beyond_signed_range_is_refused() {
    let mut pm = engine();
    assert_eq!(pm.set_fps(i32::MAX as u32 + 1), Err(Error::FpsOutOfRange));
    assert_eq!(pm.set_fps(u32::MAX), Err(Error::FpsOutOfRange));
    assert_eq!(pm.get_fps(), 60);
    assert!(pm.take_pending().is_empty());
}

#[test]
fn pcm_over_the_maximum_records_nothing() {
    let mut pm = engine();
    let samples = vec![0i16; 2049];
    assert_eq!(
        pm.pcm_add_int16(&samples, STEREO),
        Err(Error::TooManySamples { samples: 2049, max: 2048 })
    );
    let bytes = vec![128u8; 4096];
    assert_eq!(
        pm.pcm_add_uint8(&bytes, MONO),
        Err(Error::TooManySamples { samples: 4096, max: 2048 })
    );
    assert!(pm.take_pending().is_empty());
}

#[test]
fn pcm_at_the_maximum_is_accepted() {
    let mut pm = engine();
    let samples = vec![7i16; 2048];
    pm.pcm_add_int16(&samples, STEREO).unwrap();
    let calls = pm.take_pending();
    match &calls[0] {
        NativeCall::PcmAddInt16 { samples, count, channels } => {
            assert_eq!(samples.len(), 2048);
            assert_eq!(*count, 1024);
            assert_eq!(*channels, 2);
        }
        other => panic!("unexpected call {:?}", other),
    }
}

#[test]
fn pcm_samples_per_channel_values() {
    let pm = engine();
    assert_eq!(pm.pcm_samples_per_channel(8, STEREO), Ok(4));
    assert_eq!(pm.pcm_samples_per_channel(7, STEREO), Ok(3));
    assert_eq!(pm.pcm_samples_per_channel(7, MONO), Ok(7));
    assert_eq!(pm.pcm_samples_per_channel(0, MONO), Ok(0));
    assert_eq!(pm.pcm_samples_per_channel(8, 0), Err(Error::InvalidChannels { channels: 0 }));
    assert_eq!(pm.pcm_samples_per_channel(8, 3), Ok(2));
    assert_eq!(pm.pcm_samples_per_channel(2048, 6), Ok(341));
    assert_eq!(pm.pcm_samples_per_channel(2049, 0), Err(Error::TooManySamples { samples: 2049, max: 2048 }));
}

#[test]
fn pcm_uint8_counts_per_channel() {
    let mut pm = engine();
    pm.pcm_add_uint8(&[1, 2, 3, 4, 5, 6], STEREO).unwrap();
    let calls = pm.take_pending();
    match &calls[0] {
        NativeCall::PcmAddUint8 { samples, count, channels } => {
            assert_eq!(samples.as_slice(), &[1, 2, 3, 4, 5, 6]);
            assert_eq!(*count, 3);
            assert_eq!(*channels, 2);
        }
        other => panic!("unexpected call {:?}", other),
    }
}

#[test]
fn requested_callback_runs_once_per_event() {
    let mut pm = engine();
    let reg = pm.set_preset_switch_requested_event_callback();
    assert_eq!(reg, Registration { registration: 0, replaced: None });
    let mut runs = 0;
    let mut seen = None;
    let mut callback = |hard: bool| {
        runs += 1;
        seen = Some(hard);
    };
    if let Some(flag) = pm.preset_switch_requested(reg.registration, true) {
        callback(flag);
    }
    assert_eq!(runs, 1);
    assert_eq!(seen, Some(true));
    assert_eq!(pm.requested_invocations(), 1);
}

#[test]
fn replaced_callback_is_not_run() {
    let mut pm = engine();
    let first = pm.set_preset_switch_requested_event_callback();
    let second = pm.set_preset_switch_requested_event_callback();
    assert_eq!(second, Registration { registration: 1, replaced: Some(first.registration) });
    assert_eq!(pm.preset_switch_requested(first.registration, false), None);
    assert_eq!(pm.preset_switch_requested(second.registration, false), Some(false));
    assert_eq!(pm.requested_invocations(), 1);
    let third = pm.set_preset_switch_requested_event_callback();
    assert_eq!(third.replaced, Some(second.registration));
    assert_eq!(pm.requested_invocations(), 0);
}

#[test]
fn failed_callback_gets_decoded_strings() {
    let mut pm = engine();
    let reg = pm.set_preset_switch_failed_event_callback();
    let r = pm.preset_switch_failed(reg.registration, b"bad.milk\0junk", b"parse error\0");
    assert_eq!(r, Some(Ok((String::from("bad.milk"), String::from("parse error")))));
    assert_eq!(pm.failed_invocations(), 1);
    assert_eq!(pm.preset_switch_failed(reg.registration + 1, b"x\0", b"y\0"), None);
    assert_eq!(pm.failed_invocations(), 1);
    assert_eq!(pm.preset_switch_failed(reg.registration, b"\xff\0", b"y\0"), Some(Err(Error::InvalidUtf8)));
    assert_eq!(pm.failed_invocations(), 2);
}

#[test]
fn texture_search_paths_cross_as_c_strings() {
    let mut pm = engine();
    let paths = vec![String::from("/usr/share/textures"), String::from("tex")];
    pm.set_texture_search_paths(&paths).unwrap();
    let calls = pm.take_pending();
    match &calls[0] {
        NativeCall::SetTextureSearchPaths { paths, count } => {
            assert_eq!(*count, 2);
            assert_eq!(paths[0].as_slice(), b"/usr/share/textures\0");
            assert_eq!(paths[1].as_slice(), b"tex\0");
        }
        other => panic!("unexpected call {:?}", other),
    }
}

#[test]
fn texture_search_path_with_nul_is_refused() {
    let mut pm = engine();
    let paths = vec![String::from("ok"), String::from("ba\0d")];
    assert_eq!(
        pm.set_texture_search_paths(&paths),
        Err(Error::InteriorNul { entry: 1, position: 2 })
    );
    assert!(pm.take_pending().is_empty());
}

#[test]
fn empty_texture_search_paths() {
    let mut pm = engine();
    pm.set_texture_search_paths(&[]).unwrap();
    let calls = pm.take_pending();
    assert!(matches!(&calls[0], NativeCall::SetTextureSearchPaths { paths, count: 0 } if paths.is_empty()));
}

#[test]
fn preset_name_with_nul_is_refused() {
    let mut pm = engine();
    assert_eq!(
        pm.load_preset_file("a\0b", true),
        Err(Error::InteriorNul { entry: 0, position: 1 })
    );
    assert_eq!(
        pm.load_preset_data("\0", true),
        Err(Error::InteriorNul { entry: 0, position: 0 })
    );
    assert!(pm.take_pending().is_empty());
}

#[test]
fn preset_data_is_terminated() {
    let mut pm = engine();
    pm.load_preset_data("[preset00]", true).unwrap();
    let calls = pm.take_pending();
    match &calls[0] {
        NativeCall::LoadPresetData { data, smooth_transition } => {
            assert_eq!(data.as_slice(), b"[preset00]\0");
            assert!(*smooth_transition);
        }
        other => panic!("unexpected call {:?}", other),
    }
}

#[test]
fn debug_image_path() {
    let mut pm = engine();
    pm.write_debug_image_on_next_frame(None).unwrap();
    let name = String::from("frame.bmp");
    pm.write_debug_image_on_next_frame(Some(&name)).unwrap();
    let bad = String::from("x\0");
    assert_eq!(
        pm.write_debug_image_on_next_frame(Some(&bad)),
        Err(Error::InteriorNul { entry: 0, position: 1 })
    );
    let calls = pm.take_pending();
    assert_eq!(calls.len(), 2);
    assert!(matches!(calls[0], NativeCall::WriteDebugImageOnNextFrame { output_file: None }));
    match &calls[1] {
        NativeCall::WriteDebugImageOnNextFrame { output_file: Some(f) } => assert_eq!(f.as_slice(), b"frame.bmp\0"),
        other => panic!("unexpected call {:?}", other),
    }
}

#[test]
fn plain_calls_are_recorded_in_order() {
    let mut pm = engine();
    pm.reset_textures();
    pm.touch_destroy_all();
    pm.render_frame();
    let calls = pm.take_pending();
    assert!(matches!(calls[0], NativeCall::ResetTextures));
    assert!(matches!(calls[1], NativeCall::TouchDestroyAll));
    assert!(matches!(calls[2], NativeCall::RenderFrame));
}

#[test]
fn destroy_flushes_then_destroys() {
    let mut pm = engine();
    pm.render_frame();
    let calls = pm.destroy();
    assert_eq!(calls.len(), 2);
    assert!(matches!(calls[0], NativeCall::RenderFrame));
    assert!(matches!(calls[1], NativeCall::Destroy));
}

#[test]
fn touch_type_conversion() {
    assert_eq!(ProjectM::touch_type_to_native(TOUCH_TYPE_DOUBLE_LINE), Ok(8));
    assert_eq!(ProjectM::touch_type_to_native(i32::MAX as u32), Ok(i32::MAX));
    assert_eq!(ProjectM::touch_type_to_native(u32::MAX), Err(Error::TouchTypeOutOfRange));
}

#[test]
fn version_strings_from_buffers() {
    assert_eq!(ProjectM::get_version_string(b"4.0.0\0"), Ok(String::from("4.0.0")));
    assert_eq!(ProjectM::get_vcs_version_string(b"3fa1c2e\0\0"), Ok(String::from("3fa1c2e")));
    assert_eq!(ProjectM::get_version_string(b"no terminator"), Ok(String::from("no terminator")));
    assert_eq!(ProjectM::get_version_string(b"\0"), Ok(String::new()));
    assert_eq!(ProjectM::get_version_string(b"\xc3\x28\0"), Err(Error::InvalidUtf8));
    assert_eq!(ProjectM::get_version_string("é\0".as_bytes()), Ok(String::from("é")));
}

#[test]
fn pcm_over_more_than_two_channels() {
    let mut pm = engine();
    let samples = vec![3i16; 7];
    pm.pcm_add_int16(&samples, 3).unwrap();
    pm.pcm_add_uint8(&[0u8; 12], 4).unwrap();
    assert_eq!(pm.pcm_add_uint8(&[0u8; 12], 0), Err(Error::InvalidChannels { channels: 0 }));
    let calls = pm.take_pending();
    assert_eq!(calls.len(), 2);
    assert!(matches!(calls[0], NativeCall::PcmAddInt16 { count: 2, channels: 3, .. }));
    assert!(matches!(calls[1], NativeCall::PcmAddUint8 { count: 3, channels: 4, .. }));
}

#[test]
fn observe_takes_what_the_engine_reports() {
    let mut pm = engine();
    pm.set_mesh_size(1000, 1000);
    let mut adjusted = readout();
    adjusted.mesh_x = 300;
    adjusted.mesh_y = 300;
    adjusted.fps = 30;
    pm.observe(adjusted).unwrap();
    assert_eq!(pm.get_mesh_size(), (300, 300));
    assert_eq!(pm.get_fps(), 30);
    let mut negative = readout();
    negative.fps = -5;
    assert_eq!(pm.observe(negative), Err(Error::FpsOutOfRange));
    assert_eq!(pm.get_fps(), 30);
    assert_eq!(pm.get_mesh_size(), (300, 300));
}
