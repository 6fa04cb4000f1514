use genuary::framework::{
    captured_frame_path, decimal_string, frame_file_name, label_or_default, projname, Key, RunController,
    RunMode,
};

fn controller(recording: bool) -> RunController {
    RunController::new(RunMode::Production, "sketch v1".to_string(), recording, 10)
}

#[test]
fn run_mode_toggles_both_ways() {
    assert_eq!(RunMode::Production.next(), RunMode::Debug);
    assert_eq!(RunMode::Debug.next(), RunMode::Production);
    let mut c = controller(false);
    c.next_run_mode();
    assert_eq!(c.run_mode, RunMode::Debug);
    c.next_run_mode();
    assert_eq!(c.run_mode, RunMode::Production);
}

#[test]
fn save_request_is_idempotent() {
    let mut c = controller(false);
    c.save_next_frame();
    c.save_next_frame();
    assert!(c.save_frame);
}

#[test]
fn save_then_render_exports_once() {
    let mut c = controller(false);
    assert!(c.frame_rendered("sketch", 0).is_none());
    c.save_next_frame();
    let exported = c.frame_rendered("sketch", 7);
    assert_eq!(exported, Some("sketch/007.png".to_string()));
    assert!(!c.save_frame);
    assert!(c.frame_rendered("sketch", 8).is_none());
}

#[test]
fn recording_exports_every_frame() {
    let mut c = controller(true);
    assert_eq!(c.frame_rendered("rec", 1), Some("rec/001.png".to_string()));
    assert_eq!(c.frame_rendered("rec", 2), Some("rec/002.png".to_string()));
    assert!(c.recording);
}

#[test]
fn recording_stops_after_threshold_for_good() {
    let mut c = controller(true);
    c.tick(5);
    assert!(c.recording);
    c.tick(10);
    assert!(c.recording);
    c.tick(11);
    assert!(!c.recording);
    c.tick(12);
    assert!(!c.recording);
    c.tick(3);
    assert!(!c.recording);
    assert!(c.frame_rendered("rec", 400).is_none());
}

#[test]
fn keys_dispatch_to_common_actions() {
    let mut c = controller(false);
    assert!(c.key_released(Key::S));
    assert!(c.save_frame);
    assert!(c.key_released(Key::M));
    assert_eq!(c.run_mode, RunMode::Debug);
    assert!(!c.key_released(Key::Space));
    assert!(!c.key_released(Key::Other));
    assert_eq!(c.run_mode, RunMode::Debug);
    assert!(c.save_frame);
}

#[test]
fn label_text_follows_mode() {
    let mut c = controller(false);
    assert_eq!(c.label_text(), "sketch v1");
    c.next_run_mode();
    assert_eq!(c.label_text(), "(DEBUG) sketch v1");
}

#[test]
fn frame_names_are_padded_to_three_digits() {
    assert_eq!(frame_file_name(0), "000.png");
    assert_eq!(frame_file_name(42), "042.png");
    assert_eq!(frame_file_name(999), "999.png");
    assert_eq!(frame_file_name(12345), "12345.png");
    assert_eq!(decimal_string(1024), "1024");
    assert_eq!(captured_frame_path("gen2024-07", 5), "gen2024-07/005.png");
}

#[test]
fn project_name_and_fallback() {
    assert_eq!(projname(Some("gen2024-01"), "v0.3"), Some("gen2024-01 v0.3".to_string()));
    assert_eq!(projname(None, "v0.3"), None);
    assert_eq!(label_or_default(projname(Some("a"), "b")), "a b");
    assert_eq!(label_or_default(None), "unlabeled");
}
