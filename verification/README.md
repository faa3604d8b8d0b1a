# haze-wayland-ssd

Decision logic of the Haze server-side decoration backend, verified with
Verus.

- `src/protocol.rs`: xdg-decoration constants, mode replies, version
  negotiation, recognition of the compositor's own decoration manager.
- `src/registry.rs`: displays that carry the injected manager global,
  toplevels that own a decoration object, and the lifetime of one
  decoration; laws on advertising once per display and one decoration per
  toplevel.
- `src/clip.rs`: property dispatch, paint planning and type registration
  of the rounded-corner clip effect, generic over the radius value.
- `src/frame.rs`: the replacement window frame's `is-focused` property.
- `app/`: the C ABI glue (libwayland handlers, the `wl_global_create`
  interposer, GObject and Clutter/Cogl calls) that performs what the
  library decides.
