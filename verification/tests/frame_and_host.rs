use haze_wayland_ssd::frame::{HazeWindowFrame, PROP_IS_FOCUSED};
use haze_wayland_ssd::{haze_wayland_ssd_host_status, haze_wayland_ssd_supported, haze_wayland_ssd_version};

#[test]
fn frame_starts_unfocused() {
    let frame = HazeWindowFrame::new();
    assert!(!frame.is_focused);
    assert!(!frame.property(PROP_IS_FOCUSED));
}

#[test]
fn frame_reads_back_written_focus() {
    let mut frame = HazeWindowFrame::new();
    frame.set_property(1, Some(true));
    assert!(frame.property(1));
    frame.set_property(1, Some(false));
    assert!(!frame.property(1));
}

#[test]
fn frame_ignores_other_ids_and_non_booleans() {
    let mut frame = HazeWindowFrame::new();
    frame.set_property(1, Some(true));
    frame.set_property(2, Some(false));
    frame.set_property(1, None);
    assert!(frame.is_focused);
    assert!(!frame.property(2));
    assert!(!frame.property(0));
}

#[test]
fn frame_installs_is_focused() {
    let specs = HazeWindowFrame::properties();
    assert_eq!(specs.len(), 1);
    assert_eq!(specs[0].id, 1);
    assert_eq!(specs[0].name, "is-focused");
    assert_eq!(specs[0].nick, "Is focused");
    assert_eq!(specs[0].blurb, "Whether the unmanaged Haze frame tracks an active toplevel");
    assert!(!specs[0].default_value);
    assert!(specs[0].readable && specs[0].writable);
}

#[test]
fn host_reports_supported_version() {
    assert!(haze_wayland_ssd_supported());
    assert_eq!(haze_wayland_ssd_version(), "0.1.0");
    assert_eq!(haze_wayland_ssd_host_status(), "supported");
}
