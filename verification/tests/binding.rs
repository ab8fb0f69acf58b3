use std::cell::Cell;

use allegro::blend::{BlendMode, BlendOperation};
use allegro::display::DisplayOptionImportance;
use allegro::flags::{BitmapDrawingFlags, FLIP_HORIZONTAL, FLIP_NONE, FLIP_VERTICAL};
use allegro::font::{font_ranges, text_draw_flags, Font, FontAlignment};
use allegro::init::{init_step, InitAction, InitEvent, InitPhase};
use allegro::status::{c_bool, status_result};
use allegro::system::{monitor_info_result, use_shader, Core, EventSource, MonitorInfo, ShaderRef};
use allegro::version::{
    binding_version, binding_version_int, decode_version, encode_version,
    version_mismatch_message, VersionInfo,
};

#[test]
fn c_bool_reads_any_nonzero_as_true() {
    assert!(!c_bool(0));
    assert!(c_bool(1));
    assert!(c_bool(-1));
    assert!(c_bool(i32::MAX));
}

#[test]
fn status_result_maps_zero_to_error() {
    assert_eq!(status_result(0), Err(()));
    assert_eq!(status_result(1), Ok(()));
    assert_eq!(status_result(-7), Ok(()));
}

#[test]
fn decode_version_splits_bytes() {
    let v = decode_version(0x0502_0001);
    assert_eq!(v, VersionInfo { major: 5, minor: 2, revision: 0, release: 1 });
    let w = decode_version(0xFFFF_FFFF);
    assert_eq!(w, VersionInfo { major: 255, minor: 255, revision: 255, release: 255 });
    let z = decode_version(0x0100_0A03);
    assert_eq!(z, VersionInfo { major: 1, minor: 0, revision: 10, release: 3 });
}

#[test]
fn encode_version_packs_bytes() {
    let v = VersionInfo { major: 5, minor: 0, revision: 10, release: 1 };
    assert_eq!(encode_version(v), 0x0500_0A01);
}

#[test]
fn version_round_trips() {
    for packed in [0u32, 1, 0x0502_0001, 0x1234_5678, 0xFFFF_FFFF, 0x8000_0000] {
        assert_eq!(encode_version(decode_version(packed)), packed);
    }
    let v = VersionInfo { major: 200, minor: 3, revision: 99, release: 0 };
    assert_eq!(decode_version(encode_version(v)), v);
}

#[test]
fn binding_version_is_the_header_version() {
    assert_eq!(binding_version(), VersionInfo { major: 5, minor: 2, revision: 0, release: 1 });
    assert_eq!(binding_version_int(), 0x0502_0001);
}

#[test]
fn mismatch_message_names_both_versions() {
    assert_eq!(
        version_mismatch_message(0x0500_0A01),
        "The system Allegro version (5.0.10.1) does not match the version of this binding (5.2.0.1)"
    );
    assert_eq!(
        version_mismatch_message(0),
        "The system Allegro version (0.0.0.0) does not match the version of this binding (5.2.0.1)"
    );
    assert_eq!(
        version_mismatch_message(0xFF64_0A09),
        "The system Allegro version (255.100.10.9) does not match the version of this binding (5.2.0.1)"
    );
}

#[test]
fn named_drawing_flags_reach_allegro_unshifted() {
    assert_eq!(FLIP_NONE().get(), 1);
    assert_eq!(FLIP_HORIZONTAL().get(), 2);
    assert_eq!(FLIP_VERTICAL().get(), 4);
    assert_eq!(FLIP_NONE().to_allegro_flags(), 0);
    assert_eq!(FLIP_HORIZONTAL().to_allegro_flags(), 1);
    assert_eq!(FLIP_VERTICAL().to_allegro_flags(), 2);
    assert_eq!(BitmapDrawingFlags::zero().get(), 0);
    assert_eq!(BitmapDrawingFlags::zero().to_allegro_flags(), 0);
}

#[test]
fn drawing_flags_union_and_test() {
    let both = FLIP_HORIZONTAL() | FLIP_VERTICAL();
    assert_eq!(both.get(), 6);
    assert_eq!(both.to_allegro_flags(), 3);
    assert!(both & FLIP_VERTICAL());
    assert!(both & FLIP_HORIZONTAL());
    assert!(!(both & FLIP_NONE()));
    assert!(!(FLIP_HORIZONTAL() & FLIP_VERTICAL()));
    let with_none = FLIP_NONE() | FLIP_HORIZONTAL();
    assert_eq!(with_none.to_allegro_flags(), FLIP_NONE().to_allegro_flags() | FLIP_HORIZONTAL().to_allegro_flags());
    assert_eq!((FLIP_VERTICAL() | FLIP_VERTICAL()).get(), FLIP_VERTICAL().get());
}

#[test]
fn blend_modes_use_allegro_constants() {
    let modes = [
        (BlendMode::Zero, 0),
        (BlendMode::One, 1),
        (BlendMode::Alpha, 2),
        (BlendMode::InverseAlpha, 3),
        (BlendMode::SrcColor, 4),
        (BlendMode::DestColor, 5),
        (BlendMode::InverseSrcColor, 6),
        (BlendMode::InverseDestColor, 7),
        (BlendMode::ConstColor, 8),
        (BlendMode::InverseConstColor, 9),
    ];
    for (m, code) in modes {
        assert_eq!(m.to_allegro(), code);
    }
    assert_eq!(BlendOperation::Add.to_allegro(), 0);
    assert_eq!(BlendOperation::SrcMinusDest.to_allegro(), 1);
    assert_eq!(BlendOperation::DestMinusSrc.to_allegro(), 2);
}

#[test]
fn font_alignment_flags() {
    assert_eq!(FontAlignment::AlignLeft.get_allegro_flags(), 0);
    assert_eq!(FontAlignment::AlignCentre.get_allegro_flags(), 1);
    assert_eq!(FontAlignment::AlignRight.get_allegro_flags(), 2);
}

#[test]
fn empty_text_is_not_drawn() {
    assert_eq!(text_draw_flags(FontAlignment::AlignRight, ""), None);
    assert_eq!(text_draw_flags(FontAlignment::AlignRight, "Hello"), Some(2));
    assert_eq!(text_draw_flags(FontAlignment::AlignCentre, "é"), Some(1));
}

#[test]
fn font_refuses_null() {
    assert!(Font::wrap_allegro_font(0).is_err());
    let f = Font::wrap_allegro_font(0x1000).ok().unwrap();
    assert_eq!(f.get_font(), 0x1000);
}

#[test]
fn font_ranges_are_flattened() {
    let (n, flat) = font_ranges(&[(32, 126), (160, 255)]);
    assert_eq!(n, 4);
    assert_eq!(flat, vec![32, 126, 160, 255]);
    let (n0, flat0) = font_ranges(&[]);
    assert_eq!(n0, 0);
    assert!(flat0.is_empty());
}

#[test]
fn monitor_info_follows_status() {
    let info = MonitorInfo { x1: 0, y1: 0, x2: 1920, y2: 1080 };
    assert_eq!(monitor_info_result(1, info), Ok((0, 0, 1920, 1080)));
    assert_eq!(monitor_info_result(0, info), Err(()));
}

#[test]
fn use_shader_cases() {
    let seen = Cell::new(None);
    let r = use_shader(None, |h| {
        seen.set(Some(h));
        0
    });
    assert_eq!(r, Ok(()));
    assert_eq!(seen.get(), Some(0));

    let called = Cell::new(false);
    let r = use_shader(Some(ShaderRef { handle: 77, valid: false }), |_| {
        called.set(true);
        1
    });
    assert_eq!(r, Err(()));
    assert!(!called.get());

    let seen = Cell::new(None);
    let r = use_shader(Some(ShaderRef { handle: 77, valid: true }), |h| {
        seen.set(Some(h));
        1
    });
    assert_eq!(r, Ok(()));
    assert_eq!(seen.get(), Some(77));

    let r = use_shader(Some(ShaderRef { handle: 77, valid: true }), |_| 0);
    assert_eq!(r, Err(()));
}

#[test]
fn event_source_is_fetched_once() {
    let mut core = Core::new();
    let fetches = Cell::new(0);

    let r = core.get_keyboard_event_source(|| false, || {
        fetches.set(fetches.get() + 1);
        EventSource::new(10)
    });
    assert_eq!(r, None);
    assert_eq!(fetches.get(), 0);
    assert!(core.keyboard_event_source().is_none());

    let r = core.get_keyboard_event_source(|| true, || {
        fetches.set(fetches.get() + 1);
        EventSource::new(10)
    });
    assert_eq!(r, Some(EventSource::new(10)));
    assert_eq!(fetches.get(), 1);

    let asked = Cell::new(false);
    let r = core.get_keyboard_event_source(|| {
        asked.set(true);
        false
    }, || {
        fetches.set(fetches.get() + 1);
        EventSource::new(99)
    });
    assert_eq!(r, Some(EventSource::new(10)));
    assert_eq!(fetches.get(), 1);
    assert!(!asked.get());
    assert_eq!(core.keyboard_event_source().map(|e| e.handle()), Some(10));
    assert!(core.mouse_event_source().is_none());
    assert!(core.joystick_event_source().is_none());

    let m = core.get_mouse_event_source(|| true, || EventSource::new(20));
    let j = core.get_joystick_event_source(|| true, || EventSource::new(30));
    assert_eq!(m.map(|e| e.handle()), Some(20));
    assert_eq!(j.map(|e| e.handle()), Some(30));
    assert_eq!(core.keyboard_event_source().map(|e| e.handle()), Some(10));
}

fn finish_of(action: InitAction) -> Result<(), String> {
    match action {
        InitAction::Finish(r) => r,
        other => panic!("expected the sequence to finish, got {:?}", other),
    }
}

#[test]
fn init_second_call_is_refused() {
    let (phase, action) = init_step(InitPhase::Ready, InitEvent::Begin { first_call: false });
    assert_eq!(phase, InitPhase::Finished);
    assert_eq!(finish_of(action), Err("Already initialized.".to_string()));
}

#[test]
fn init_success_path() {
    let (phase, action) = init_step(InitPhase::Ready, InitEvent::Begin { first_call: true });
    assert_eq!(phase, InitPhase::Installing);
    assert!(matches!(action, InitAction::InstallSystem { version: 0x0502_0001 }));

    let (phase, action) = init_step(phase, InitEvent::SystemInstalled { status: 1 });
    assert_eq!(phase, InitPhase::CreatingTarget);
    assert!(matches!(
        action,
        InitAction::CreateDummyTarget { new_bitmap_flags: 1, width: 1, height: 1, restored_flags: 0 }
    ));

    let (phase, action) = init_step(phase, InitEvent::TargetCreated { is_null: false });
    assert_eq!(phase, InitPhase::SettingTarget);
    assert!(matches!(action, InitAction::SetTarget));

    let (phase, action) = init_step(phase, InitEvent::TargetSet);
    assert_eq!(phase, InitPhase::Finished);
    assert_eq!(finish_of(action), Ok(()));
}

#[test]
fn init_version_refused() {
    let (phase, _) = init_step(InitPhase::Ready, InitEvent::Begin { first_call: true });
    let (phase, action) = init_step(phase, InitEvent::SystemInstalled { status: 0 });
    assert_eq!(phase, InitPhase::ReadingVersion);
    assert!(matches!(action, InitAction::ReadSystemVersion));
    let (phase, action) = init_step(phase, InitEvent::VersionRead { version: 0x0500_0A01 });
    assert_eq!(phase, InitPhase::Finished);
    assert_eq!(
        finish_of(action),
        Err("The system Allegro version (5.0.10.1) does not match the version of this binding (5.2.0.1)".to_string())
    );
}

#[test]
fn init_dummy_target_missing() {
    let (phase, _) = init_step(InitPhase::Ready, InitEvent::Begin { first_call: true });
    let (phase, _) = init_step(phase, InitEvent::SystemInstalled { status: 1 });
    let (phase, action) = init_step(phase, InitEvent::TargetCreated { is_null: true });
    assert_eq!(phase, InitPhase::Finished);
    assert_eq!(
        finish_of(action),
        Err("Failed to create the dummy target... something is very wrong!".to_string())
    );
}

#[test]
fn display_option_importance_codes() {
    for (i, code) in [
        (DisplayOptionImportance::DontCare, 0),
        (DisplayOptionImportance::Require, 1),
        (DisplayOptionImportance::Suggest, 2),
    ] {
        assert_eq!(i.to_allegro(), code);
        assert_eq!(DisplayOptionImportance::from_allegro(code), Some(i));
    }
    assert_eq!(DisplayOptionImportance::from_allegro(3), None);
    assert_eq!(DisplayOptionImportance::from_allegro(-1), None);
}

#[test]
fn font_ranges_single_range() {
    let (n, flat) = font_ranges(&[(-5, 7)]);
    assert_eq!(n, 2);
    assert_eq!(flat, vec![-5, 7]);
}
