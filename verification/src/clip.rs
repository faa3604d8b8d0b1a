//! Decisions of the rounded-corner clip effect: which corner radii a
//! property touches, when a change is announced, which uniforms a paint
//! uploads, and how the effect type is registered.
//!
//! The radii themselves are floating-point values handled by the caller;
//! this module is generic over the value held in each corner.

use vstd::prelude::*;

verus! {

/// Property id of `top-left-radius`.
pub const PROP_TOP_LEFT_RADIUS: u32 = 1;
/// Property id of `top-right-radius`.
pub const PROP_TOP_RIGHT_RADIUS: u32 = 2;
/// Property id of `bottom-right-radius`.
pub const PROP_BOTTOM_RIGHT_RADIUS: u32 = 3;
/// Property id of `bottom-left-radius`.
pub const PROP_BOTTOM_LEFT_RADIUS: u32 = 4;
/// Property id of `radius`, which sets all four corners at once.
pub const PROP_RADIUS: u32 = 5;

/// A corner of the clipped actor.
#[derive(PartialEq, Eq, Structural, Clone, Copy, Debug)]
pub enum Corner {
    TopLeft,
    TopRight,
    BottomRight,
    BottomLeft,
}

/// One flag per corner.
#[derive(PartialEq, Eq, Structural, Clone, Copy, Debug)]
pub struct CornerMask {
    pub top_left: bool,
    pub top_right: bool,
    pub bottom_right: bool,
    pub bottom_left: bool,
}

impl CornerMask {
    /// The flag of `corner`.
    pub open spec fn has(self, corner: Corner) -> bool {
        match corner {
            Corner::TopLeft => self.top_left,
            Corner::TopRight => self.top_right,
            Corner::BottomRight => self.bottom_right,
            Corner::BottomLeft => self.bottom_left,
        }
    }

    /// Whether any flag is set.
    pub open spec fn any(self) -> bool {
        self.top_left || self.top_right || self.bottom_right || self.bottom_left
    }

    /// The corners flagged in both masks.
    pub open spec fn both(self, other: CornerMask) -> CornerMask {
        CornerMask {
            top_left: self.top_left && other.top_left,
            top_right: self.top_right && other.top_right,
            bottom_right: self.bottom_right && other.bottom_right,
            bottom_left: self.bottom_left && other.bottom_left,
        }
    }

    /// The same flag for every corner.
    pub open spec fn uniform(flag: bool) -> CornerMask {
        CornerMask { top_left: flag, top_right: flag, bottom_right: flag, bottom_left: flag }
    }
}

/// The corners a property writes: each corner property its own corner,
/// `radius` all four, any other id none.
pub open spec fn corners_of(property_id: u32) -> CornerMask {
    CornerMask {
        top_left: property_id == PROP_TOP_LEFT_RADIUS || property_id == PROP_RADIUS,
        top_right: property_id == PROP_TOP_RIGHT_RADIUS || property_id == PROP_RADIUS,
        bottom_right: property_id == PROP_BOTTOM_RIGHT_RADIUS || property_id == PROP_RADIUS,
        bottom_left: property_id == PROP_BOTTOM_LEFT_RADIUS || property_id == PROP_RADIUS,
    }
}

/// The corner a property reads: each corner property its own corner,
/// `radius` the top-left corner, any other id none.
pub open spec fn read_corner_of(property_id: u32) -> Option<Corner> {
    if property_id == PROP_TOP_LEFT_RADIUS || property_id == PROP_RADIUS {
        Some(Corner::TopLeft)
    } else if property_id == PROP_TOP_RIGHT_RADIUS {
        Some(Corner::TopRight)
    } else if property_id == PROP_BOTTOM_RIGHT_RADIUS {
        Some(Corner::BottomRight)
    } else if property_id == PROP_BOTTOM_LEFT_RADIUS {
        Some(Corner::BottomLeft)
    } else {
        None
    }
}

/// The corners property `property_id` writes.
pub fn property_corners(property_id: u32) -> (mask: CornerMask)
    ensures
        mask == corners_of(property_id),
        property_id == PROP_TOP_LEFT_RADIUS ==> forall|c: Corner| #[trigger] mask.has(c) == (c == Corner::TopLeft),
        property_id == PROP_TOP_RIGHT_RADIUS ==> forall|c: Corner| #[trigger] mask.has(c) == (c == Corner::TopRight),
        property_id == PROP_BOTTOM_RIGHT_RADIUS ==> forall|c: Corner|
            #[trigger] mask.has(c) == (c == Corner::BottomRight),
        property_id == PROP_BOTTOM_LEFT_RADIUS ==> forall|c: Corner|
            #[trigger] mask.has(c) == (c == Corner::BottomLeft),
        property_id == PROP_RADIUS ==> forall|c: Corner| #[trigger] mask.has(c),
        !(PROP_TOP_LEFT_RADIUS <= property_id <= PROP_RADIUS) ==> forall|c: Corner| !#[trigger] mask.has(c),
{
    let all = property_id == PROP_RADIUS;
    CornerMask {
        top_left: property_id == PROP_TOP_LEFT_RADIUS || all,
        top_right: property_id == PROP_TOP_RIGHT_RADIUS || all,
        bottom_right: property_id == PROP_BOTTOM_RIGHT_RADIUS || all,
        bottom_left: property_id == PROP_BOTTOM_LEFT_RADIUS || all,
    }
}

/// The corner property `property_id` reads, if it is a property of the
/// effect.
pub fn property_read_corner(property_id: u32) -> (corner: Option<Corner>)
    ensures
        corner == read_corner_of(property_id),
        property_id == PROP_TOP_LEFT_RADIUS ==> corner == Some(Corner::TopLeft),
        property_id == PROP_TOP_RIGHT_RADIUS ==> corner == Some(Corner::TopRight),
        property_id == PROP_BOTTOM_RIGHT_RADIUS ==> corner == Some(Corner::BottomRight),
        property_id == PROP_BOTTOM_LEFT_RADIUS ==> corner == Some(Corner::BottomLeft),
        property_id == PROP_RADIUS ==> corner == Some(Corner::TopLeft),
        !(PROP_TOP_LEFT_RADIUS <= property_id <= PROP_RADIUS) ==> corner is None,
{
    if property_id == PROP_TOP_LEFT_RADIUS || property_id == PROP_RADIUS {
        Some(Corner::TopLeft)
    } else if property_id == PROP_TOP_RIGHT_RADIUS {
        Some(Corner::TopRight)
    } else if property_id == PROP_BOTTOM_RIGHT_RADIUS {
        Some(Corner::BottomRight)
    } else if property_id == PROP_BOTTOM_LEFT_RADIUS {
        Some(Corner::BottomLeft)
    } else {
        None
    }
}

/// The four corner radii of one effect instance.
#[derive(PartialEq, Eq, Structural, Clone, Copy, Debug)]
pub struct CornerValues<T> {
    pub top_left: T,
    pub top_right: T,
    pub bottom_right: T,
    pub bottom_left: T,
}

impl<T: Copy> CornerValues<T> {
    /// The value held by `corner`.
    pub open spec fn at(self, corner: Corner) -> T {
        match corner {
            Corner::TopLeft => self.top_left,
            Corner::TopRight => self.top_right,
            Corner::BottomRight => self.bottom_right,
            Corner::BottomLeft => self.bottom_left,
        }
    }

    /// These values with `value` written into the corners of `mask`.
    pub open spec fn written(self, mask: CornerMask, value: T) -> CornerValues<T> {
        CornerValues {
            top_left: if mask.top_left { value } else { self.top_left },
            top_right: if mask.top_right { value } else { self.top_right },
            bottom_right: if mask.bottom_right { value } else { self.bottom_right },
            bottom_left: if mask.bottom_left { value } else { self.bottom_left },
        }
    }

    /// All four corners set to `value`.
    pub fn uniform(value: T) -> (values: Self)
        ensures
            values.top_left == value,
            values.top_right == value,
            values.bottom_right == value,
            values.bottom_left == value,
    {
        CornerValues { top_left: value, top_right: value, bottom_right: value, bottom_left: value }
    }

    /// The value held by `corner`.
    pub fn get(&self, corner: Corner) -> (value: T)
        ensures
            value == self.at(corner),
    {
        match corner {
            Corner::TopLeft => self.top_left,
            Corner::TopRight => self.top_right,
            Corner::BottomRight => self.bottom_right,
            Corner::BottomLeft => self.bottom_left,
        }
    }
}

/// Writes a property of the effect.  `next` is the sanitized new radius and
/// `differs` flags the corners whose current radius differs from `next`.
/// Every corner that the property covers and that differs takes `next`;
/// the result says whether any corner changed, in which case the caller
/// notifies the property and queues a repaint.
pub fn set_property<T: Copy>(
    values: &mut CornerValues<T>,
    property_id: u32,
    next: T,
    differs: CornerMask,
) -> (changed: bool)
    ensures
        *final(values) == old(values).written(corners_of(property_id).both(differs), next),
        changed == corners_of(property_id).both(differs).any(),
        forall|c: Corner|
            #[trigger] final(values).at(c) == if corners_of(property_id).has(c) && differs.has(c) {
                next
            } else {
                old(values).at(c)
            },
        changed == exists|c: Corner| #[trigger] corners_of(property_id).has(c) && differs.has(c),
{
    let covered = property_corners(property_id);
    let mut changed = false;
    if covered.top_left && differs.top_left {
        values.top_left = next;
        changed = true;
    }
    if covered.top_right && differs.top_right {
        values.top_right = next;
        changed = true;
    }
    if covered.bottom_right && differs.bottom_right {
        values.bottom_right = next;
        changed = true;
    }
    if covered.bottom_left && differs.bottom_left {
        values.bottom_left = next;
        changed = true;
    }
    assert(changed == ((corners_of(property_id).has(Corner::TopLeft) && differs.has(Corner::TopLeft))
        || (corners_of(property_id).has(Corner::TopRight) && differs.has(Corner::TopRight))
        || (corners_of(property_id).has(Corner::BottomRight) && differs.has(Corner::BottomRight))
        || (corners_of(property_id).has(Corner::BottomLeft) && differs.has(Corner::BottomLeft))));
    changed
}

/// Reads a property of the effect: the radius of the corner the property
/// reads, or `None` for an id the effect does not have (the caller then
/// reports zero).
pub fn get_property<T: Copy>(values: &CornerValues<T>, property_id: u32) -> (value: Option<T>)
    ensures
        value == (match read_corner_of(property_id) {
            Some(corner) => Some(values.at(corner)),
            None => None,
        }),
        property_id == PROP_TOP_LEFT_RADIUS ==> value == Some(values.top_left),
        property_id == PROP_TOP_RIGHT_RADIUS ==> value == Some(values.top_right),
        property_id == PROP_BOTTOM_RIGHT_RADIUS ==> value == Some(values.bottom_right),
        property_id == PROP_BOTTOM_LEFT_RADIUS ==> value == Some(values.bottom_left),
        property_id == PROP_RADIUS ==> value == Some(values.top_left),
        !(PROP_TOP_LEFT_RADIUS <= property_id <= PROP_RADIUS) ==> value is None,
{
    match property_read_corner(property_id) {
        Some(corner) => Some(values.get(corner)),
        None => None,
    }
}

/// Largest corner radius a property accepts; smaller radii are clamped at
/// zero.
pub const MAX_RADIUS: u32 = 256;

/// One property installed on the effect class: a radius in
/// `min_value..=max_value` with a default, its access and whether changes
/// are announced only explicitly.
#[derive(PartialEq, Eq, Clone, Copy, Debug)]
pub struct ClipPropertySpec {
    pub id: u32,
    pub name: &'static str,
    pub nick: &'static str,
    pub blurb: &'static str,
    pub min_value: u32,
    pub max_value: u32,
    pub default_value: u32,
    pub readable: bool,
    pub writable: bool,
    pub explicit_notify: bool,
}

/// The properties the effect class installs, in installation order: the
/// four corner radii, then the uniform radius, with ids `1..=5`; each is a
/// readable and writable radius from 0 to [`MAX_RADIUS`], 0 by default,
/// whose changes are announced explicitly (by [`set_property`]'s result).
pub fn property_table() -> (table: Vec<ClipPropertySpec>)
    ensures
        table@.len() == 5,
        forall|i: int| 0 <= i < 5 ==> #[trigger] table@[i].id == i + 1,
        forall|i: int|
            0 <= i < 5 ==> corners_of(#[trigger] table@[i].id).any() && read_corner_of(
                table@[i].id,
            ) is Some,
        forall|i: int|
            0 <= i < 5 ==> {
                &&& #[trigger] table@[i].min_value == 0
                &&& table@[i].max_value == MAX_RADIUS
                &&& table@[i].default_value == 0
                &&& table@[i].readable
                &&& table@[i].writable
                &&& table@[i].explicit_notify
            },
        table@[0].name@ == "top-left-radius"@,
        table@[1].name@ == "top-right-radius"@,
        table@[2].name@ == "bottom-right-radius"@,
        table@[3].name@ == "bottom-left-radius"@,
        table@[4].name@ == "radius"@,
        table@[0].nick@ == "Top Left Radius"@,
        table@[1].nick@ == "Top Right Radius"@,
        table@[2].nick@ == "Bottom Right Radius"@,
        table@[3].nick@ == "Bottom Left Radius"@,
        table@[4].nick@ == "Radius"@,
        table@[0].blurb@ == "Clip radius for the top-left app-content corner"@,
        table@[1].blurb@ == "Clip radius for the top-right app-content corner"@,
        table@[2].blurb@ == "Clip radius for the bottom-right app-content corner"@,
        table@[3].blurb@ == "Clip radius for the bottom-left app-content corner"@,
        table@[4].blurb@ == "Uniform app-content clip radius"@,
{
    let mut table: Vec<ClipPropertySpec> = Vec::new();
    table.push(
        ClipPropertySpec {
            id: PROP_TOP_LEFT_RADIUS,
            name: "top-left-radius",
            nick: "Top Left Radius",
            blurb: "Clip radius for the top-left app-content corner",
            min_value: 0,
            max_value: MAX_RADIUS,
            default_value: 0,
            readable: true,
            writable: true,
            explicit_notify: true,
        },
    );
    table.push(
        ClipPropertySpec {
            id: PROP_TOP_RIGHT_RADIUS,
            name: "top-right-radius",
            nick: "Top Right Radius",
            blurb: "Clip radius for the top-right app-content corner",
            min_value: 0,
            max_value: MAX_RADIUS,
            default_value: 0,
            readable: true,
            writable: true,
            explicit_notify: true,
        },
    );
    table.push(
        ClipPropertySpec {
            id: PROP_BOTTOM_RIGHT_RADIUS,
            name: "bottom-right-radius",
            nick: "Bottom Right Radius",
            blurb: "Clip radius for the bottom-right app-content corner",
            min_value: 0,
            max_value: MAX_RADIUS,
            default_value: 0,
            readable: true,
            writable: true,
            explicit_notify: true,
        },
    );
    table.push(
        ClipPropertySpec {
            id: PROP_BOTTOM_LEFT_RADIUS,
            name: "bottom-left-radius",
            nick: "Bottom Left Radius",
            blurb: "Clip radius for the bottom-left app-content corner",
            min_value: 0,
            max_value: MAX_RADIUS,
            default_value: 0,
            readable: true,
            writable: true,
            explicit_notify: true,
        },
    );
    table.push(
        ClipPropertySpec {
            id: PROP_RADIUS,
            name: "radius",
            nick: "Radius",
            blurb: "Uniform app-content clip radius",
            min_value: 0,
            max_value: MAX_RADIUS,
            default_value: 0,
            readable: true,
            writable: true,
            explicit_notify: true,
        },
    );
    table
}

/// Locations of the shader uniforms of an effect's pipeline; a negative
/// location means the uniform is not available.
#[derive(PartialEq, Eq, Structural, Clone, Copy, Debug)]
pub struct UniformLocations {
    pub radii: i32,
    pub size: i32,
}

impl UniformLocations {
    /// Locations of an effect whose pipeline has not been built: neither
    /// uniform is available.
    pub fn unresolved() -> (locations: Self)
        ensures
            locations.radii == -1,
            locations.size == -1,
    {
        UniformLocations { radii: -1, size: -1 }
    }
}

/// What one paint of the effect does before the offscreen target is drawn.
#[derive(PartialEq, Eq, Structural, Clone, Copy, Debug)]
pub struct PaintPlan {
    /// Upload the four corner radii.
    pub upload_radii: bool,
    /// Upload the actor size.
    pub upload_size: bool,
    /// Chain up to the parent class's paint.
    pub chain_parent: bool,
}

/// Plans a paint: uniforms are uploaded only when the instance data and its
/// pipeline exist and the uniform's location is valid; the parent class's
/// paint runs whenever there is one.
pub fn plan_paint(
    instance_present: bool,
    pipeline_present: bool,
    uniforms: UniformLocations,
    parent_present: bool,
) -> (plan: PaintPlan)
    ensures
        plan.upload_radii == (instance_present && pipeline_present && uniforms.radii >= 0),
        plan.upload_size == (instance_present && pipeline_present && uniforms.size >= 0),
        plan.chain_parent == parent_present,
{
    let ready = instance_present && pipeline_present;
    PaintPlan {
        upload_radii: ready && uniforms.radii >= 0,
        upload_size: ready && uniforms.size >= 0,
        chain_parent: parent_present,
    }
}

/// How the offscreen effect obtains the pipeline it draws with.
#[derive(PartialEq, Eq, Structural, Clone, Copy, Debug)]
pub enum PipelineAction {
    /// No instance data: no pipeline can be returned.
    Unavailable,
    /// Build the pipeline first, then use it if building succeeded.
    Build,
    /// Use the pipeline built earlier.
    Reuse,
}

/// Chooses how to obtain the pipeline: the pipeline is built lazily, once,
/// and reused afterwards.
pub fn pipeline_action(instance_present: bool, pipeline_present: bool) -> (action: PipelineAction)
    ensures
        !instance_present ==> action == PipelineAction::Unavailable,
        instance_present && !pipeline_present ==> action == PipelineAction::Build,
        instance_present && pipeline_present ==> action == PipelineAction::Reuse,
{
    if !instance_present {
        PipelineAction::Unavailable
    } else if !pipeline_present {
        PipelineAction::Build
    } else {
        PipelineAction::Reuse
    }
}

/// How the effect type is obtained.
#[derive(PartialEq, Eq, Structural, Clone, Copy, Debug)]
pub enum TypeRegistration {
    /// The type was registered before; this is its id.
    Registered(u64),
    /// The type must be registered now.
    RegisterNow,
}

/// Registers the effect type: a type registered before is reused, so the
/// registration with the type system happens once per process.
pub fn register_type(registered: Option<u64>) -> (step: TypeRegistration)
    ensures
        registered matches Some(id) ==> step == TypeRegistration::Registered(id),
        registered is None ==> step == TypeRegistration::RegisterNow,
{
    match registered {
        Some(id) => TypeRegistration::Registered(id),
        None => TypeRegistration::RegisterNow,
    }
}

/// Whether the effect is usable: its type registration yielded a valid
/// (non-zero) type id.
pub fn is_supported(effect_type: u64) -> (supported: bool)
    ensures
        supported == (effect_type != 0),
{
    effect_type != 0
}

/// The class and instance sizes recorded in the effect's type info: the
/// parent type's sizes truncated to 16 bits, as the type info stores them.
pub fn type_info_sizes(class_size: u32, instance_size: u32) -> (sizes: (u16, u16))
    ensures
        sizes.0 == class_size % 65536,
        sizes.1 == instance_size % 65536,
{
    ((class_size % 65536) as u16, (instance_size % 65536) as u16)
}

// ---------------------------------------------------------------------------
// Laws
// ---------------------------------------------------------------------------

/// Every property of the effect reads a corner that it also writes.
pub proof fn lemma_property_reads_a_written_corner(property_id: u32)
    requires
        PROP_TOP_LEFT_RADIUS <= property_id <= PROP_RADIUS,
    ensures
        read_corner_of(property_id) is Some,
        corners_of(property_id).has(read_corner_of(property_id)->0),
{
}

/// An id that is not a property of the effect neither writes nor reads a
/// corner.
pub proof fn lemma_unknown_property_is_inert(property_id: u32)
    requires
        !(PROP_TOP_LEFT_RADIUS <= property_id <= PROP_RADIUS),
    ensures
        !corners_of(property_id).any(),
        read_corner_of(property_id) is None,
{
}

/// Reading a property right after writing it gives back the written radius
/// for a corner that differed, and the kept radius for one that did not.
pub proof fn lemma_get_after_set<T: Copy>(
    values: CornerValues<T>,
    property_id: u32,
    next: T,
    differs: CornerMask,
)
    requires
        PROP_TOP_LEFT_RADIUS <= property_id <= PROP_RADIUS,
    ensures
        ({
            let corner = read_corner_of(property_id)->0;
            values.written(corners_of(property_id).both(differs), next).at(corner) == if differs.has(
                corner,
            ) {
                next
            } else {
                values.at(corner)
            }
        }),
{
}

/// Writing the uniform `radius` sets all four corners that differed; when
/// all differed, every corner property then reads the new radius.
pub proof fn lemma_uniform_radius_sets_every_corner<T: Copy>(values: CornerValues<T>, next: T)
    ensures
        ({
            let after = values.written(corners_of(PROP_RADIUS).both(CornerMask::uniform(true)), next);
            &&& after.at(Corner::TopLeft) == next
            &&& after.at(Corner::TopRight) == next
            &&& after.at(Corner::BottomRight) == next
            &&& after.at(Corner::BottomLeft) == next
        }),
{
}

/// A write that is not announced leaves every corner as it was.
pub proof fn lemma_unannounced_write_changes_nothing<T: Copy>(
    values: CornerValues<T>,
    property_id: u32,
    next: T,
    differs: CornerMask,
)
    ensures
        !corners_of(property_id).both(differs).any() ==> values.written(
            corners_of(property_id).both(differs),
            next,
        ) == values,
{
}

/// Each corner property writes its own corner and no other, and the
/// uniform `radius` writes all four: `top-left-radius` writes only the
/// top-left corner, `top-right-radius` only the top-right,
/// `bottom-right-radius` only the bottom-right, `bottom-left-radius` only
/// the bottom-left.
pub proof fn lemma_corner_property_writes_only_its_corner(corner: Corner)
    ensures
        corners_of(PROP_TOP_LEFT_RADIUS).has(corner) <==> corner == Corner::TopLeft,
        corners_of(PROP_TOP_RIGHT_RADIUS).has(corner) <==> corner == Corner::TopRight,
        corners_of(PROP_BOTTOM_RIGHT_RADIUS).has(corner) <==> corner == Corner::BottomRight,
        corners_of(PROP_BOTTOM_LEFT_RADIUS).has(corner) <==> corner == Corner::BottomLeft,
        corners_of(PROP_RADIUS).has(corner),
        read_corner_of(PROP_TOP_LEFT_RADIUS) == Some(Corner::TopLeft),
        read_corner_of(PROP_TOP_RIGHT_RADIUS) == Some(Corner::TopRight),
        read_corner_of(PROP_BOTTOM_RIGHT_RADIUS) == Some(Corner::BottomRight),
        read_corner_of(PROP_BOTTOM_LEFT_RADIUS) == Some(Corner::BottomLeft),
        read_corner_of(PROP_RADIUS) == Some(Corner::TopLeft),
{
}

/// For a single-corner property, the corners it writes are exactly the
/// corner it reads.
pub proof fn lemma_single_corner_property_reads_what_it_writes(property_id: u32, corner: Corner)
    requires
        PROP_TOP_LEFT_RADIUS <= property_id <= PROP_BOTTOM_LEFT_RADIUS,
    ensures
        corners_of(property_id).has(corner) <==> read_corner_of(property_id) == Some(corner),
{
}

/// A write touches a corner exactly when the mask flags it: that corner
/// then holds the written value, every other corner keeps its value.
pub proof fn lemma_write_touches_only_masked_corners<T: Copy>(
    values: CornerValues<T>,
    mask: CornerMask,
    value: T,
    corner: Corner,
)
    ensures
        values.written(mask, value).at(corner) == if mask.has(corner) {
            value
        } else {
            values.at(corner)
        },
        mask.both(CornerMask::uniform(true)) == mask,
{
}

/// Setting a single-corner property leaves every other corner at its old
/// radius, whatever the new radius and whichever corners differ from it.
pub proof fn lemma_corner_property_keeps_other_corners<T: Copy>(
    values: CornerValues<T>,
    property_id: u32,
    next: T,
    differs: CornerMask,
    corner: Corner,
)
    requires
        PROP_TOP_LEFT_RADIUS <= property_id <= PROP_BOTTOM_LEFT_RADIUS,
        read_corner_of(property_id) != Some(corner),
    ensures
        values.written(corners_of(property_id).both(differs), next).at(corner) == values.at(corner),
{
}

/// The two masks combine corner by corner, and a mask flags some corner
/// exactly when `any` holds.
pub proof fn lemma_mask_algebra(a: CornerMask, b: CornerMask, corner: Corner)
    ensures
        a.both(b).has(corner) == (a.has(corner) && b.has(corner)),
        a.any() == (a.has(Corner::TopLeft) || a.has(Corner::TopRight) || a.has(Corner::BottomRight)
            || a.has(Corner::BottomLeft)),
{
}

} // verus!
