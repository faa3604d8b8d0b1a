//! Constants and replies of the `xdg-decoration-unstable-v1` protocol.

use vstd::prelude::*;

verus! {

/// Highest version of `zxdg_decoration_manager_v1` this backend speaks.
pub const MANAGER_VERSION: i32 = 2;

/// Version of the `xdg_toplevel` interface referenced by the manager.
pub const XDG_TOPLEVEL_VERSION: i32 = 6;

/// `zxdg_toplevel_decoration_v1.mode.client_side`.
pub const MODE_CLIENT_SIDE: u32 = 1;

/// `zxdg_toplevel_decoration_v1.mode.server_side`.
pub const MODE_SERVER_SIDE: u32 = 2;

/// Opcode of the `configure` event.
pub const EVENT_CONFIGURE: u32 = 0;

/// `zxdg_toplevel_decoration_v1.error.already_constructed`.
pub const ERROR_ALREADY_CONSTRUCTED: u32 = 1;

/// `zxdg_toplevel_decoration_v1.error.orphaned`.
pub const ERROR_ORPHANED: u32 = 2;

/// `zxdg_toplevel_decoration_v1.error.invalid_mode`.
pub const ERROR_INVALID_MODE: u32 = 3;

/// What the backend sends back on a decoration object.
#[derive(PartialEq, Eq, Structural, Clone, Copy, Debug)]
pub enum Reply {
    /// Post a `configure` event carrying this mode.
    Configure(u32),
    /// Post a protocol error with this code.
    Error(u32),
}

/// A decoration mode the protocol defines.
pub open spec fn is_valid_mode(mode: u32) -> bool {
    mode == MODE_CLIENT_SIDE || mode == MODE_SERVER_SIDE
}

/// Answer to `set_mode`: an explicit client-side or server-side request is
/// honoured by configuring exactly that mode; any other value is a protocol
/// error.
pub fn set_mode_reply(mode: u32) -> (reply: Reply)
    ensures
        is_valid_mode(mode) ==> reply == Reply::Configure(mode),
        !is_valid_mode(mode) ==> reply == Reply::Error(ERROR_INVALID_MODE),
{
    if mode == MODE_CLIENT_SIDE {
        Reply::Configure(MODE_CLIENT_SIDE)
    } else if mode == MODE_SERVER_SIDE {
        Reply::Configure(MODE_SERVER_SIDE)
    } else {
        Reply::Error(ERROR_INVALID_MODE)
    }
}

/// Answer to `unset_mode`: a client that withdraws its preference is
/// configured for server-side decorations.
pub fn unset_mode_reply() -> (reply: Reply)
    ensures
        reply == Reply::Configure(MODE_SERVER_SIDE),
{
    Reply::Configure(MODE_SERVER_SIDE)
}

/// Mode announced in the first `configure` of a new decoration object: a
/// toplevel that has not decided yet defaults to server-side decorations;
/// an explicit client-side request later is honoured by [`set_mode_reply`].
pub fn initial_mode() -> (mode: u32)
    ensures
        mode == MODE_SERVER_SIDE,
{
    MODE_SERVER_SIDE
}

/// Version of a manager resource bound by a client that asked for
/// `requested`: the smaller of that and [`MANAGER_VERSION`].
pub fn bind_version(requested: u32) -> (version: i32)
    ensures
        version == (if requested < MANAGER_VERSION { requested as int } else { MANAGER_VERSION as int }),
        1 <= requested ==> 1 <= version,
        version <= MANAGER_VERSION,
{
    if requested < MANAGER_VERSION as u32 {
        requested as i32
    } else {
        MANAGER_VERSION
    }
}

/// `manager_version` clamped to `1..=MANAGER_VERSION`.
pub open spec fn clamped_version(manager_version: i32) -> i32 {
    if manager_version < 1 {
        1
    } else if manager_version > MANAGER_VERSION {
        MANAGER_VERSION
    } else {
        manager_version
    }
}

/// Version of a decoration object created through a manager resource of
/// version `manager_version`: that version clamped to `1..=MANAGER_VERSION`.
pub fn decoration_version(manager_version: i32) -> (version: i32)
    ensures
        version == clamped_version(manager_version),
        1 <= version <= MANAGER_VERSION,
{
    if manager_version < 1 {
        1
    } else if manager_version > MANAGER_VERSION {
        MANAGER_VERSION
    } else {
        manager_version
    }
}

/// Name of the decoration manager interface, as characters.
pub open spec fn manager_interface_name() -> Seq<char> {
    "zxdg_decoration_manager_v1"@
}

/// The bytes of an ASCII character sequence.
pub open spec fn ascii_bytes(s: Seq<char>) -> Seq<u8> {
    Seq::new(s.len(), |i: int| s[i] as u8)
}

/// Whether an interface name (the bytes before its terminating NUL) names
/// `zxdg_decoration_manager_v1`, that is, whether the compositor is
/// creating a decoration manager global of its own.
pub fn is_decoration_manager_name(name: &[u8]) -> (matches: bool)
    ensures
        matches == (name@ == ascii_bytes(manager_interface_name())),
{
    let expected_str = "zxdg_decoration_manager_v1";
    proof {
        reveal_strlit("zxdg_decoration_manager_v1");
        vstd::string::is_ascii_spec_bytes(expected_str);
    }
    let expected = expected_str.as_bytes();
    assert(expected@ =~= ascii_bytes(manager_interface_name()));
    if name.len() != expected.len() {
        return false;
    }
    let mut i: usize = 0;
    while i < name.len()
        invariant
            name@.len() == expected@.len(),
            expected@ == ascii_bytes(manager_interface_name()),
            0 <= i <= name@.len(),
            forall|j: int| 0 <= j < i ==> name@[j] == expected@[j],
        decreases name@.len() - i,
    {
        if name[i] != expected[i] {
            assert(name@[i as int] != expected@[i as int]);
            assert(name@ != ascii_bytes(manager_interface_name()));
            return false;
        }
        i = i + 1;
    }
    assert(name@ =~= expected@);
    true
}

} // verus!
