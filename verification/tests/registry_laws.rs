use haze_wayland_ssd::protocol::{Reply, ERROR_ALREADY_CONSTRUCTED, ERROR_ORPHANED};
use haze_wayland_ssd::registry::{
    wants_manager_after_global, CreationOutcome, DecoratedToplevels, DecorationLink,
    DecorationRequest, InjectedDisplays,
};

#[test]
fn interposer_advertises_only_after_foreign_non_manager_globals() {
    assert!(wants_manager_after_global(false, true, false));
    assert!(!wants_manager_after_global(true, true, false));
    assert!(!wants_manager_after_global(false, false, false));
    assert!(!wants_manager_after_global(false, true, true));
}

#[test]
fn manager_is_advertised_once_per_display() {
    let mut displays = InjectedDisplays::new();
    assert!(displays.maybe_advertise(0x1000, false));
    assert!(!displays.maybe_advertise(0x1000, false));
    assert!(displays.maybe_advertise(0x2000, false));
    assert!(displays.is_injected(0x1000));
    assert!(displays.is_injected(0x2000));
}

#[test]
fn null_display_is_never_advertised_or_recorded() {
    let mut displays = InjectedDisplays::new();
    assert!(!displays.maybe_advertise(0, false));
    assert!(!displays.is_injected(0));
}

#[test]
fn display_seen_during_own_creation_is_recorded_without_advertising() {
    let mut displays = InjectedDisplays::new();
    assert!(!displays.maybe_advertise(0x1000, true));
    assert!(displays.is_injected(0x1000));
    assert!(!displays.maybe_advertise(0x1000, false));
}

#[test]
fn request_creates_at_clamped_version() {
    let mut toplevels = DecoratedToplevels::new();
    assert_eq!(toplevels.request_decoration(true, true, 0x10, 5), DecorationRequest::Create(2));
    assert!(toplevels.is_decorated(0x10));
    assert_eq!(
        toplevels.finish_decoration(0x10, true),
        CreationOutcome::Ready(Reply::Configure(2))
    );
    assert!(toplevels.is_decorated(0x10));
}

#[test]
fn second_decoration_for_a_toplevel_is_rejected() {
    let mut toplevels = DecoratedToplevels::new();
    assert_eq!(toplevels.request_decoration(true, true, 0x10, 1), DecorationRequest::Create(1));
    toplevels.finish_decoration(0x10, true);
    assert_eq!(
        toplevels.request_decoration(true, true, 0x10, 2),
        DecorationRequest::Reject(ERROR_ALREADY_CONSTRUCTED)
    );
    assert!(toplevels.is_decorated(0x10));
}

#[test]
fn null_toplevel_is_orphaned() {
    let mut toplevels = DecoratedToplevels::new();
    assert_eq!(
        toplevels.request_decoration(true, true, 0, 2),
        DecorationRequest::Reject(ERROR_ORPHANED)
    );
    assert!(!toplevels.is_decorated(0));
}

#[test]
fn request_without_client_or_manager_is_ignored() {
    let mut toplevels = DecoratedToplevels::new();
    assert_eq!(toplevels.request_decoration(false, true, 0x10, 2), DecorationRequest::Ignore);
    assert_eq!(toplevels.request_decoration(true, false, 0x10, 2), DecorationRequest::Ignore);
    assert_eq!(toplevels.request_decoration(false, false, 0, 2), DecorationRequest::Ignore);
    assert!(!toplevels.is_decorated(0x10));
}

#[test]
fn failed_creation_gives_the_toplevel_back() {
    let mut toplevels = DecoratedToplevels::new();
    assert_eq!(toplevels.request_decoration(true, true, 0x10, 2), DecorationRequest::Create(2));
    assert_eq!(toplevels.finish_decoration(0x10, false), CreationOutcome::NoMemory);
    assert!(!toplevels.is_decorated(0x10));
    assert_eq!(toplevels.request_decoration(true, true, 0x10, 2), DecorationRequest::Create(2));
}

#[test]
fn released_toplevel_can_be_decorated_again() {
    let mut toplevels = DecoratedToplevels::new();
    toplevels.request_decoration(true, true, 0x10, 2);
    toplevels.finish_decoration(0x10, true);
    toplevels.release(0x10);
    assert!(!toplevels.is_decorated(0x10));
    assert_eq!(toplevels.request_decoration(true, true, 0x10, 0), DecorationRequest::Create(1));
}

#[test]
fn other_toplevels_are_independent() {
    let mut toplevels = DecoratedToplevels::new();
    toplevels.request_decoration(true, true, 0x10, 2);
    toplevels.finish_decoration(0x10, true);
    assert_eq!(toplevels.request_decoration(true, true, 0x20, 2), DecorationRequest::Create(2));
    toplevels.release(0x20);
    assert!(toplevels.is_decorated(0x10));
}

#[test]
fn decoration_destroyed_unlinks_a_linked_listener() {
    let link = DecorationLink::new(0x10);
    assert_eq!(link.toplevel, 0x10);
    assert!(link.listener_linked);
    assert!(link.on_decoration_destroyed());
}

#[test]
fn toplevel_destroyed_first_orphans_the_decoration() {
    let mut link = DecorationLink::new(0x10);
    assert_eq!(link.on_toplevel_destroyed(true), Some(Reply::Error(ERROR_ORPHANED)));
    assert!(!link.listener_linked);
    assert_eq!(link.toplevel, 0x10);
    assert!(!link.on_decoration_destroyed());
}

#[test]
fn toplevel_destroyed_without_decoration_posts_nothing() {
    let mut link = DecorationLink::new(0x10);
    assert_eq!(link.on_toplevel_destroyed(false), None);
    assert!(!link.listener_linked);
}

#[test]
fn no_injection_where_compositor_provides_a_manager() {
    let mut displays = InjectedDisplays::new();
    assert!(!displays.on_global_created(0x1000, true, true, false));
    assert!(displays.is_compositor_managed(0x1000));
    assert!(!displays.on_global_created(0x1000, false, true, false));
    assert!(!displays.maybe_advertise(0x1000, false));
}

#[test]
fn injection_after_first_foreign_global() {
    let mut displays = InjectedDisplays::new();
    assert!(displays.on_global_created(0x1000, false, true, false));
    assert!(displays.is_injected(0x1000));
    assert!(!displays.on_global_created(0x1000, false, true, false));
    assert!(!displays.is_compositor_managed(0x1000));
}

#[test]
fn failed_or_own_globals_do_not_inject() {
    let mut displays = InjectedDisplays::new();
    assert!(!displays.on_global_created(0x1000, false, false, false));
    assert!(!displays.on_global_created(0x1000, false, true, true));
    assert!(!displays.is_injected(0x1000));
    assert!(!displays.on_global_created(0x2000, true, false, false));
    assert!(!displays.is_compositor_managed(0x2000));
    assert!(displays.on_global_created(0x2000, false, true, false));
}

#[test]
fn null_display_is_never_remembered() {
    let mut displays = InjectedDisplays::new();
    assert!(!displays.on_global_created(0, true, true, false));
    assert!(!displays.on_global_created(0, false, true, false));
    assert!(!displays.is_compositor_managed(0));
    assert!(!displays.is_injected(0));
}

#[test]
fn registry_follows_decoration_lifetimes() {
    let mut toplevels = DecoratedToplevels::new();
    assert_eq!(toplevels.request_decoration(true, true, 0x10, 2), DecorationRequest::Create(2));
    toplevels.finish_decoration(0x10, true);
    let mut link = DecorationLink::new(0x10);
    assert_eq!(link.on_toplevel_destroyed(true), Some(Reply::Error(ERROR_ORPHANED)));
    toplevels.release(link.toplevel);
    assert!(!toplevels.is_decorated(0x10));
    assert!(!link.on_decoration_destroyed());
    toplevels.release(link.toplevel);
    assert!(!toplevels.is_decorated(0x10));
}
