//! Bookkeeping of the decoration backend: which displays already carry the
//! injected decoration manager global, and which toplevels already own a
//! decoration object.
//!
//! Both registries key their entries by the address of the libwayland
//! object; the null address is never recorded.

use crate::protocol::{
    clamped_version, decoration_version, initial_mode, Reply, ERROR_ALREADY_CONSTRUCTED,
    ERROR_ORPHANED,
};
use std::collections::HashSet;
use vstd::prelude::*;

verus! {

broadcast use vstd::std_specs::hash::group_hash_axioms;

// ---------------------------------------------------------------------------
// Global creation and manager injection
// ---------------------------------------------------------------------------

/// Whether, after the compositor created a global, the backend goes on to
/// advertise its own decoration manager on that display: only when the
/// creation did not come from the backend itself, produced a global, and
/// was not the compositor's own decoration manager.
pub open spec fn follows_global_creation(
    compositor_manager: bool,
    global_created: bool,
    in_backend_creation: bool,
) -> bool {
    !in_backend_creation && global_created && !compositor_manager
}

/// Decision of the `wl_global_create` interposer once the real global
/// creation returned.
pub fn wants_manager_after_global(
    compositor_manager: bool,
    global_created: bool,
    in_backend_creation: bool,
) -> (advertise: bool)
    ensures
        advertise == follows_global_creation(compositor_manager, global_created, in_backend_creation),
{
    !in_backend_creation && global_created && !compositor_manager
}

/// Displays seen by the interposer: those on which the backend's decoration
/// manager global was injected, and those on which the compositor created
/// its own decoration manager.
pub struct InjectedDisplays {
    displays: HashSet<usize>,
    compositor_managed: HashSet<usize>,
}

/// Whether the backend creates the manager global for `display` now: the
/// display is non-null, carries neither the backend's manager nor the
/// compositor's own, and no creation of the backend is in progress.
pub open spec fn advertises(
    displays: Set<usize>,
    compositor_managed: Set<usize>,
    display: usize,
    in_backend_creation: bool,
) -> bool {
    display != 0 && !displays.contains(display) && !compositor_managed.contains(display)
        && !in_backend_creation
}

/// The displays recorded after an injection attempt for `display`: every
/// non-null display is recorded, even when a creation already in progress
/// on this thread suppresses the new global.
pub open spec fn displays_after(displays: Set<usize>, display: usize) -> Set<usize> {
    if display == 0 {
        displays
    } else {
        displays.insert(display)
    }
}

/// The displays known to carry the compositor's own decoration manager
/// after the compositor created a global on `display`.
pub open spec fn compositor_displays_after(
    compositor_managed: Set<usize>,
    display: usize,
    compositor_manager: bool,
    global_created: bool,
) -> Set<usize> {
    if compositor_manager && global_created && display != 0 {
        compositor_managed.insert(display)
    } else {
        compositor_managed
    }
}

impl InjectedDisplays {
    /// The displays on which an injection was attempted.
    pub closed spec fn view(&self) -> Set<usize> {
        self.displays@
    }

    /// The displays on which the compositor created its own decoration
    /// manager.
    pub closed spec fn compositor_view(&self) -> Set<usize> {
        self.compositor_managed@
    }

    /// The null display is never recorded.
    pub open spec fn wf(&self) -> bool {
        !self.view().contains(0) && !self.compositor_view().contains(0)
    }

    /// No display has been seen yet.
    pub fn new() -> (injected: Self)
        ensures
            injected.view() == Set::<usize>::empty(),
            injected.compositor_view() == Set::<usize>::empty(),
            injected.wf(),
    {
        InjectedDisplays { displays: HashSet::new(), compositor_managed: HashSet::new() }
    }

    /// Records `display` and says whether the decoration manager global
    /// must be created on it now: at most once per non-null display, never
    /// on a display where the compositor created its own manager, and never
    /// while the backend's own creation is in progress.
    pub fn maybe_advertise(&mut self, display: usize, in_backend_creation: bool) -> (advertise: bool)
        requires
            old(self).wf(),
        ensures
            advertise == advertises(
                old(self).view(),
                old(self).compositor_view(),
                display,
                in_backend_creation,
            ),
            final(self).view() == displays_after(old(self).view(), display),
            final(self).compositor_view() == old(self).compositor_view(),
            final(self).wf(),
    {
        if display == 0 {
            return false;
        }
        let inserted = self.displays.insert(display);
        inserted && !in_backend_creation && !self.compositor_managed.contains(&display)
    }

    /// Handles a global that the compositor just created on `display`
    /// through the interposer: a decoration manager of the compositor's own
    /// is remembered for its display, and the backend's manager is injected
    /// (see [`InjectedDisplays::maybe_advertise`]) only after a foreign,
    /// successfully created global that is not a decoration manager, on a
    /// display whose compositor has not provided one.  The result says
    /// whether the backend's manager global must be created now.
    pub fn on_global_created(
        &mut self,
        display: usize,
        compositor_manager: bool,
        global_created: bool,
        in_backend_creation: bool,
    ) -> (advertise: bool)
        requires
            old(self).wf(),
        ensures
            final(self).compositor_view() == compositor_displays_after(
                old(self).compositor_view(),
                display,
                compositor_manager,
                global_created,
            ),
            advertise == (follows_global_creation(compositor_manager, global_created, in_backend_creation)
                && advertises(old(self).view(), old(self).compositor_view(), display, in_backend_creation)),
            final(self).view() == (if follows_global_creation(
                compositor_manager,
                global_created,
                in_backend_creation,
            ) {
                displays_after(old(self).view(), display)
            } else {
                old(self).view()
            }),
            final(self).wf(),
    {
        if compositor_manager && global_created && display != 0 {
            self.compositor_managed.insert(display);
        }
        if wants_manager_after_global(compositor_manager, global_created, in_backend_creation) {
            self.maybe_advertise(display, in_backend_creation)
        } else {
            false
        }
    }

    /// Whether an injection was attempted on `display`.
    pub fn is_injected(&self, display: usize) -> (injected: bool)
        ensures
            injected == self.view().contains(display),
    {
        self.displays.contains(&display)
    }

    /// Whether the compositor created its own decoration manager on
    /// `display`.
    pub fn is_compositor_managed(&self, display: usize) -> (managed: bool)
        ensures
            managed == self.compositor_view().contains(display),
    {
        self.compositor_managed.contains(&display)
    }
}

// ---------------------------------------------------------------------------
// Decoration objects per toplevel
// ---------------------------------------------------------------------------

/// Toplevels that own a decoration object.
pub struct DecoratedToplevels {
    toplevels: HashSet<usize>,
}

/// First step of `get_toplevel_decoration`.
#[derive(PartialEq, Eq, Structural, Clone, Copy, Debug)]
pub enum DecorationRequest {
    /// The request came without a client or manager resource: nothing is done.
    Ignore,
    /// Post this protocol error on the manager resource.
    Reject(u32),
    /// Create the decoration resource with this version.
    Create(i32),
}

/// Second step of `get_toplevel_decoration`, once creation was attempted.
#[derive(PartialEq, Eq, Structural, Clone, Copy, Debug)]
pub enum CreationOutcome {
    /// The resource could not be created: report out-of-memory to the client.
    NoMemory,
    /// The resource exists: post this first reply on it.
    Ready(Reply),
}

/// What a `get_toplevel_decoration` request for `toplevel` leads to.
pub open spec fn request_step(
    toplevels: Set<usize>,
    client_present: bool,
    manager_present: bool,
    toplevel: usize,
    manager_version: i32,
) -> DecorationRequest {
    if !client_present || !manager_present {
        DecorationRequest::Ignore
    } else if toplevel == 0 {
        DecorationRequest::Reject(ERROR_ORPHANED)
    } else if toplevels.contains(toplevel) {
        DecorationRequest::Reject(ERROR_ALREADY_CONSTRUCTED)
    } else {
        DecorationRequest::Create(clamped_version(manager_version))
    }
}

/// The toplevels tracked after a `get_toplevel_decoration` request: the
/// toplevel is claimed exactly when the request leads to a creation.
pub open spec fn toplevels_after_request(
    toplevels: Set<usize>,
    client_present: bool,
    manager_present: bool,
    toplevel: usize,
    manager_version: i32,
) -> Set<usize> {
    if request_step(toplevels, client_present, manager_present, toplevel, manager_version) is Create {
        toplevels.insert(toplevel)
    } else {
        toplevels
    }
}

/// The toplevels tracked once creation was attempted: a failed creation
/// gives the claim back.
pub open spec fn toplevels_after_creation(toplevels: Set<usize>, toplevel: usize, created: bool) -> Set<usize> {
    if created {
        toplevels
    } else {
        toplevels.remove(toplevel)
    }
}

/// What follows a creation attempt.
pub open spec fn creation_outcome(created: bool) -> CreationOutcome {
    if created {
        CreationOutcome::Ready(Reply::Configure(crate::protocol::MODE_SERVER_SIDE))
    } else {
        CreationOutcome::NoMemory
    }
}

impl DecoratedToplevels {
    /// The toplevels that own a decoration object.
    pub closed spec fn view(&self) -> Set<usize> {
        self.toplevels@
    }

    /// The null toplevel is never tracked.
    pub open spec fn wf(&self) -> bool {
        !self.view().contains(0)
    }

    /// No toplevel owns a decoration yet.
    pub fn new() -> (decorated: Self)
        ensures
            decorated.view() == Set::<usize>::empty(),
            decorated.wf(),
    {
        DecoratedToplevels { toplevels: HashSet::new() }
    }

    /// First step of `get_toplevel_decoration`: a null toplevel is an
    /// orphaned decoration, a toplevel that already owns a decoration is
    /// rejected, and otherwise the toplevel is claimed and the decoration
    /// resource is to be created at the clamped version.
    pub fn request_decoration(
        &mut self,
        client_present: bool,
        manager_present: bool,
        toplevel: usize,
        manager_version: i32,
    ) -> (step: DecorationRequest)
        requires
            old(self).wf(),
        ensures
            step == request_step(old(self).view(), client_present, manager_present, toplevel, manager_version),
            final(self).view() == toplevels_after_request(
                old(self).view(),
                client_present,
                manager_present,
                toplevel,
                manager_version,
            ),
            final(self).wf(),
    {
        if !client_present || !manager_present {
            return DecorationRequest::Ignore;
        }
        if toplevel == 0 {
            return DecorationRequest::Reject(ERROR_ORPHANED);
        }
        if !self.toplevels.insert(toplevel) {
            return DecorationRequest::Reject(ERROR_ALREADY_CONSTRUCTED);
        }
        DecorationRequest::Create(decoration_version(manager_version))
    }

    /// Second step of `get_toplevel_decoration`: when the resource could
    /// not be created the claim on `toplevel` is dropped and the client is
    /// told it ran out of memory; otherwise the new decoration, whose
    /// toplevel has not chosen a mode yet, is configured for server-side
    /// decorations.
    pub fn finish_decoration(&mut self, toplevel: usize, created: bool) -> (outcome: CreationOutcome)
        requires
            old(self).wf(),
        ensures
            outcome == creation_outcome(created),
            final(self).view() == toplevels_after_creation(old(self).view(), toplevel, created),
            final(self).wf(),
    {
        if created {
            CreationOutcome::Ready(Reply::Configure(initial_mode()))
        } else {
            self.toplevels.remove(&toplevel);
            CreationOutcome::NoMemory
        }
    }

    /// Forgets `toplevel`: its decoration object or the toplevel itself was
    /// destroyed.
    pub fn release(&mut self, toplevel: usize)
        requires
            old(self).wf(),
        ensures
            final(self).view() == old(self).view().remove(toplevel),
            final(self).wf(),
    {
        self.toplevels.remove(&toplevel);
    }

    /// Whether `toplevel` owns a decoration object.
    pub fn is_decorated(&self, toplevel: usize) -> (decorated: bool)
        ensures
            decorated == self.view().contains(toplevel),
    {
        self.toplevels.contains(&toplevel)
    }
}

// ---------------------------------------------------------------------------
// Lifetime of one decoration object
// ---------------------------------------------------------------------------

/// What a decoration object remembers of its toplevel: the toplevel's
/// address and whether the listener on the toplevel's destruction is still
/// linked.
#[derive(PartialEq, Eq, Structural, Clone, Copy, Debug)]
pub struct DecorationLink {
    pub toplevel: usize,
    pub listener_linked: bool,
}

impl DecorationLink {
    /// A fresh decoration of `toplevel`, listening for the toplevel's
    /// destruction.
    pub fn new(toplevel: usize) -> (link: Self)
        ensures
            link == (DecorationLink { toplevel, listener_linked: true }),
    {
        DecorationLink { toplevel, listener_linked: true }
    }

    /// The link once its toplevel was destroyed: same toplevel, listener
    /// gone.
    pub open spec fn after_toplevel_destroyed(self) -> DecorationLink {
        DecorationLink { toplevel: self.toplevel, listener_linked: false }
    }

    /// The decoration object is being destroyed: says whether the listener
    /// on the toplevel must be unlinked first.  The caller then releases the
    /// toplevel from [`DecoratedToplevels`].
    pub fn on_decoration_destroyed(&self) -> (unlink: bool)
        ensures
            unlink == self.listener_linked,
    {
        self.listener_linked
    }

    /// The toplevel was destroyed while its decoration object lives on: the
    /// listener is gone, and the decoration, when there is one, receives the
    /// `orphaned` error.  The caller then releases the toplevel from
    /// [`DecoratedToplevels`].
    pub fn on_toplevel_destroyed(&mut self, decoration_present: bool) -> (error: Option<Reply>)
        ensures
            *final(self) == old(self).after_toplevel_destroyed(),
            error == (if decoration_present { Some(Reply::Error(ERROR_ORPHANED)) } else { None }),
    {
        self.listener_linked = false;
        if decoration_present {
            Some(Reply::Error(ERROR_ORPHANED))
        } else {
            None
        }
    }
}

// ---------------------------------------------------------------------------
// Laws
// ---------------------------------------------------------------------------

/// The decoration manager is advertised at most once per display: once an
/// injection attempt for `display` happened, no later attempt for the same
/// display advertises it again.
pub proof fn lemma_manager_advertised_once(
    displays: Set<usize>,
    compositor_managed: Set<usize>,
    display: usize,
    later_in_creation: bool,
)
    ensures
        !advertises(displays_after(displays, display), compositor_managed, display, later_in_creation),
{
}

/// The backend never injects its manager on a display where the compositor
/// created its own: once the compositor's manager global exists on
/// `display`, that display stays remembered and no later global on it
/// leads to an injection.
pub proof fn lemma_no_injection_beside_compositor_manager(
    displays: Set<usize>,
    compositor_managed: Set<usize>,
    display: usize,
    later_compositor_manager: bool,
    later_global_created: bool,
    later_in_creation: bool,
)
    requires
        display != 0,
    ensures
        ({
            let after = compositor_displays_after(compositor_managed, display, true, true);
            &&& after.contains(display)
            &&& after.subset_of(
                compositor_displays_after(after, display, later_compositor_manager, later_global_created),
            )
            &&& !advertises(displays, after, display, later_in_creation)
        }),
{
}

/// A toplevel owns at most one decoration object: after a request for a
/// non-null toplevel whose creation succeeded, every further request for
/// that toplevel is rejected with `already_constructed`.
pub proof fn lemma_one_decoration_per_toplevel(
    toplevels: Set<usize>,
    toplevel: usize,
    first_version: i32,
    later_version: i32,
)
    requires
        toplevel != 0,
    ensures
        request_step(
            toplevels_after_creation(
                toplevels_after_request(toplevels, true, true, toplevel, first_version),
                toplevel,
                true,
            ),
            true,
            true,
            toplevel,
            later_version,
        ) == DecorationRequest::Reject(ERROR_ALREADY_CONSTRUCTED),
{
}

/// A creation that fails leaves the registry as it was before the request.
pub proof fn lemma_failed_creation_rolls_back(
    toplevels: Set<usize>,
    client_present: bool,
    manager_present: bool,
    toplevel: usize,
    manager_version: i32,
)
    requires
        request_step(toplevels, client_present, manager_present, toplevel, manager_version) is Create,
    ensures
        toplevels_after_creation(
            toplevels_after_request(toplevels, client_present, manager_present, toplevel, manager_version),
            toplevel,
            false,
        ) == toplevels,
{
    assert(toplevels.insert(toplevel).remove(toplevel) =~= toplevels);
}

/// Once a toplevel is released, a new decoration can be requested for it
/// and is created at the clamped version.
pub proof fn lemma_release_allows_new_decoration(
    toplevels: Set<usize>,
    toplevel: usize,
    manager_version: i32,
)
    requires
        toplevel != 0,
    ensures
        request_step(toplevels.remove(toplevel), true, true, toplevel, manager_version)
            == DecorationRequest::Create(clamped_version(manager_version)),
{
}

/// A request that is ignored or rejected leaves the registry unchanged.
pub proof fn lemma_refused_request_keeps_registry(
    toplevels: Set<usize>,
    client_present: bool,
    manager_present: bool,
    toplevel: usize,
    manager_version: i32,
)
    requires
        !(request_step(toplevels, client_present, manager_present, toplevel, manager_version) is Create),
    ensures
        toplevels_after_request(toplevels, client_present, manager_present, toplevel, manager_version)
            == toplevels,
{
}

// ---------------------------------------------------------------------------
// The registry follows the live decoration objects
// ---------------------------------------------------------------------------

/// The toplevels whose decoration object is alive and still listens for the
/// toplevel's destruction, for live decorations keyed by an id.
pub open spec fn linked_toplevels(links: Map<int, DecorationLink>) -> Set<usize> {
    Set::new(
        |toplevel: usize|
            exists|id: int|
                #![trigger links[id]]
                links.contains_key(id) && links[id].listener_linked && links[id].toplevel == toplevel,
    )
}

/// Whether some live decoration was created for `toplevel`.
pub open spec fn has_live_decoration(links: Map<int, DecorationLink>, toplevel: usize) -> bool {
    exists|id: int| #![trigger links[id]] links.contains_key(id) && links[id].toplevel == toplevel
}

/// The registry tracks exactly the toplevels that have a live decoration
/// and were not destroyed; no two live decorations name the same toplevel,
/// and none names the null toplevel.
pub open spec fn registry_matches(toplevels: Set<usize>, links: Map<int, DecorationLink>) -> bool {
    &&& toplevels == linked_toplevels(links)
    &&& forall|a: int, b: int|
        #![trigger links[a], links[b]]
        links.contains_key(a) && links.contains_key(b) && a != b ==> links[a].toplevel != links[b].toplevel
    &&& forall|a: int| #![trigger links[a]] links.contains_key(a) ==> links[a].toplevel != 0
}

/// At start-up no decoration lives and none is tracked.
pub proof fn lemma_registry_matches_initially()
    ensures
        registry_matches(Set::<usize>::empty(), Map::<int, DecorationLink>::empty()),
{
    assert(linked_toplevels(Map::<int, DecorationLink>::empty()) =~= Set::<usize>::empty());
}

/// A request for a non-null toplevel that has no live decoration (its
/// address is not reused while an older decoration naming it lives) is
/// granted; when the resource is created, the new live decoration and the
/// registry still agree, and when creation fails nothing changed.
pub proof fn lemma_request_keeps_registry_matching(
    toplevels: Set<usize>,
    links: Map<int, DecorationLink>,
    id: int,
    toplevel: usize,
    manager_version: i32,
    created: bool,
)
    requires
        registry_matches(toplevels, links),
        !links.contains_key(id),
        toplevel != 0,
        !has_live_decoration(links, toplevel),
    ensures
        request_step(toplevels, true, true, toplevel, manager_version)
            == DecorationRequest::Create(clamped_version(manager_version)),
        ({
            let after = toplevels_after_creation(
                toplevels_after_request(toplevels, true, true, toplevel, manager_version),
                toplevel,
                created,
            );
            if created {
                registry_matches(after, links.insert(id, DecorationLink { toplevel, listener_linked: true }))
            } else {
                after == toplevels
            }
        }),
{
    if toplevels.contains(toplevel) {
        let w = choose|w: int|
            #![trigger links[w]]
            links.contains_key(w) && links[w].listener_linked && links[w].toplevel == toplevel;
        assert(links.contains_key(w) && links[w].toplevel == toplevel);
    }
    assert(!toplevels.contains(toplevel));
    let after_request = toplevels_after_request(toplevels, true, true, toplevel, manager_version);
    assert(after_request == toplevels.insert(toplevel));
    if created {
        let new_links = links.insert(id, DecorationLink { toplevel, listener_linked: true });
        assert forall|t: usize| #[trigger] linked_toplevels(new_links).contains(t) <==> after_request.contains(t) by {
            if after_request.contains(t) {
                if t == toplevel {
                    assert(new_links.contains_key(id) && new_links[id].listener_linked && new_links[id].toplevel == t);
                } else {
                    assert(linked_toplevels(links).contains(t));
                    let w = choose|w: int|
                        #![trigger links[w]]
                        links.contains_key(w) && links[w].listener_linked && links[w].toplevel == t;
                    assert(new_links.contains_key(w) && new_links[w] == links[w]);
                }
            }
            if linked_toplevels(new_links).contains(t) {
                let w = choose|w: int|
                    #![trigger new_links[w]]
                    new_links.contains_key(w) && new_links[w].listener_linked && new_links[w].toplevel == t;
                if w != id {
                    assert(links.contains_key(w) && links[w] == new_links[w]);
                    assert(linked_toplevels(links).contains(t));
                }
            }
        }
        assert(linked_toplevels(new_links) =~= after_request);
        assert forall|a: int, b: int|
            #![trigger new_links[a], new_links[b]]
            new_links.contains_key(a) && new_links.contains_key(b) && a != b implies new_links[a].toplevel
                != new_links[b].toplevel by {
            if a == id {
                assert(links.contains_key(b) && links[b] == new_links[b]);
            } else if b == id {
                assert(links.contains_key(a) && links[a] == new_links[a]);
            } else {
                assert(links[a] == new_links[a] && links[b] == new_links[b]);
            }
        }
        assert forall|a: int| #![trigger new_links[a]] new_links.contains_key(a) implies new_links[a].toplevel != 0 by {
            if a != id {
                assert(links[a] == new_links[a]);
            }
        }
    } else {
        assert(after_request.remove(toplevel) =~= toplevels);
    }
}

/// When a live decoration object is destroyed and its toplevel released,
/// the registry and the remaining live decorations still agree.
pub proof fn lemma_decoration_destroyed_keeps_registry_matching(
    toplevels: Set<usize>,
    links: Map<int, DecorationLink>,
    id: int,
)
    requires
        registry_matches(toplevels, links),
        links.contains_key(id),
    ensures
        registry_matches(toplevels.remove(links[id].toplevel), links.remove(id)),
{
    let gone = links[id].toplevel;
    let new_links = links.remove(id);
    assert forall|t: usize| #[trigger] linked_toplevels(new_links).contains(t) <==> toplevels.remove(gone).contains(t) by {
        if toplevels.remove(gone).contains(t) {
            let w = choose|w: int|
                #![trigger links[w]]
                links.contains_key(w) && links[w].listener_linked && links[w].toplevel == t;
            assert(w != id);
            assert(new_links.contains_key(w) && new_links[w] == links[w]);
        }
        if linked_toplevels(new_links).contains(t) {
            let w = choose|w: int|
                #![trigger new_links[w]]
                new_links.contains_key(w) && new_links[w].listener_linked && new_links[w].toplevel == t;
            assert(links.contains_key(w) && links[w] == new_links[w]);
            assert(linked_toplevels(links).contains(t));
            assert(t != gone);
        }
    }
    assert(linked_toplevels(new_links) =~= toplevels.remove(gone));
    assert forall|a: int, b: int|
        #![trigger new_links[a], new_links[b]]
        new_links.contains_key(a) && new_links.contains_key(b) && a != b implies new_links[a].toplevel
            != new_links[b].toplevel by {
        assert(links[a] == new_links[a] && links[b] == new_links[b]);
    }
    assert forall|a: int| #![trigger new_links[a]] new_links.contains_key(a) implies new_links[a].toplevel != 0 by {
        assert(links[a] == new_links[a]);
    }
}

/// When the toplevel of a live decoration is destroyed first, the link
/// stops listening and the toplevel is released; the registry and the live
/// decorations still agree.
pub proof fn lemma_toplevel_destroyed_keeps_registry_matching(
    toplevels: Set<usize>,
    links: Map<int, DecorationLink>,
    id: int,
)
    requires
        registry_matches(toplevels, links),
        links.contains_key(id),
    ensures
        registry_matches(
            toplevels.remove(links[id].toplevel),
            links.insert(id, links[id].after_toplevel_destroyed()),
        ),
{
    let gone = links[id].toplevel;
    let new_links = links.insert(id, links[id].after_toplevel_destroyed());
    assert forall|t: usize| #[trigger] linked_toplevels(new_links).contains(t) <==> toplevels.remove(gone).contains(t) by {
        if toplevels.remove(gone).contains(t) {
            let w = choose|w: int|
                #![trigger links[w]]
                links.contains_key(w) && links[w].listener_linked && links[w].toplevel == t;
            assert(w != id);
            assert(new_links.contains_key(w) && new_links[w] == links[w]);
        }
        if linked_toplevels(new_links).contains(t) {
            let w = choose|w: int|
                #![trigger new_links[w]]
                new_links.contains_key(w) && new_links[w].listener_linked && new_links[w].toplevel == t;
            assert(w != id);
            assert(links.contains_key(w) && links[w] == new_links[w]);
            assert(linked_toplevels(links).contains(t));
        }
    }
    assert(linked_toplevels(new_links) =~= toplevels.remove(gone));
    assert forall|a: int, b: int|
        #![trigger new_links[a], new_links[b]]
        new_links.contains_key(a) && new_links.contains_key(b) && a != b implies new_links[a].toplevel
            != new_links[b].toplevel by {
        assert(links.contains_key(a) && links.contains_key(b));
        assert(new_links[a].toplevel == links[a].toplevel);
        assert(new_links[b].toplevel == links[b].toplevel);
    }
    assert forall|a: int| #![trigger new_links[a]] new_links.contains_key(a) implies new_links[a].toplevel != 0 by {
        assert(links.contains_key(a));
        assert(new_links[a].toplevel == links[a].toplevel);
    }
}

/// No two live decorations name the same toplevel.
pub proof fn lemma_one_live_decoration_per_toplevel(
    toplevels: Set<usize>,
    links: Map<int, DecorationLink>,
    toplevel: usize,
    a: int,
    b: int,
)
    requires
        registry_matches(toplevels, links),
        links.contains_key(a),
        links.contains_key(b),
        links[a].toplevel == toplevel,
        links[b].toplevel == toplevel,
    ensures
        a == b,
{
}

} // verus!
