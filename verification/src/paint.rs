//! The paint side of the adapter: the state of the host toolkit's paint
//! engine that a row touches while it draws, and the descriptions it hands
//! to the host's control renderers.
//!
//! The paint engine is shared by every row drawn onto the same surface, so
//! its system clip is the one piece of state outside the row's own
//! attributes that rendering mutates — and must restore. Two quirks of the
//! host toolkit shape this module:
//!
//! * the generic row-drawing routine unconditionally overwrites the system
//!   clip, so a row must narrow the clip itself before drawing and put it
//!   back afterwards; and
//! * installing a system clip wrongly rescales it by the device pixel
//!   ratio, so putting the old clip back may need a compensating rescale.
//!
//! Both quirks are part of the model here, and the rendering path is proved
//! to leave the system clip exactly as it found it in spite of them.

use vstd::arithmetic::div_mod::lemma_div_multiples_vanish;
use vstd::arithmetic::div_mod::lemma_div_nonincreasing;
use vstd::arithmetic::div_mod::lemma_fundamental_div_mod;
use vstd::arithmetic::mul::lemma_mul_upper_bound;
use vstd::prelude::*;
use crate::style::Alignment;
use crate::style::DecorationPosition;

verus! {

/// Largest coordinate or extent a clip region handed to the paint engine may
/// have; keeps every rescaling inside the machine's integer range.
pub const CLIP_COORD_MAX: u64 = 0x2000_0000_0000;

/// Largest device pixel ratio the paint-engine model admits.
pub const DPR_MAX: u32 = 0x8000;

/// Largest coordinate of a painter clip, which is still in logical space.
pub const PAINTER_COORD_MAX: u64 = 0x1000_0000;

/// Largest translation a painter transform may carry.
pub const TRANSFORM_OFFSET_MAX: u64 = 0x800_0000_0000;

/// Largest scale a painter transform may carry.
pub const TRANSFORM_SCALE_MAX: u32 = 0x8000;

/// An axis-aligned rectangle in device coordinates, with non-negative
/// position and extent.
#[derive(Clone, Copy, Debug, PartialEq, Eq, Structural)]
pub struct Rect {
    pub x: u64,
    pub y: u64,
    pub width: u64,
    pub height: u64,
}

/// A clip region: no clip at all, or one rectangular area. An empty area is
/// always normalized to `Null`.
#[derive(Clone, Copy, Debug, PartialEq, Eq, Structural)]
pub enum ClipRegion {
    Null,
    Area(Rect),
}

/// All coordinates of the region are small enough for rescaling by a device
/// pixel ratio to stay in range.
pub open spec fn clip_bounded(c: ClipRegion) -> bool {
    match c {
        ClipRegion::Null => true,
        ClipRegion::Area(r) => {
            &&& r.x <= CLIP_COORD_MAX
            &&& r.y <= CLIP_COORD_MAX
            &&& r.width <= CLIP_COORD_MAX
            &&& r.height <= CLIP_COORD_MAX
        },
    }
}

/// The rectangle scaled uniformly by `k` in both axes.
pub open spec fn rect_scaled(r: Rect, k: u64) -> Rect {
    Rect {
        x: (r.x * k) as u64,
        y: (r.y * k) as u64,
        width: (r.width * k) as u64,
        height: (r.height * k) as u64,
    }
}

/// The region scaled uniformly by `k` in both axes.
pub open spec fn region_scaled(c: ClipRegion, k: u64) -> ClipRegion {
    match c {
        ClipRegion::Null => ClipRegion::Null,
        ClipRegion::Area(r) => ClipRegion::Area(rect_scaled(r, k)),
    }
}

/// A painter transform from logical to device space: a uniform scale
/// followed by a translation.
#[derive(Clone, Copy, Debug, PartialEq, Eq, Structural)]
pub struct Transform {
    pub scale: u32,
    pub dx: u64,
    pub dy: u64,
}

/// A transform the paint model admits: a positive, bounded scale and a
/// bounded translation.
pub open spec fn transform_wf(t: Transform) -> bool {
    &&& 1 <= t.scale <= TRANSFORM_SCALE_MAX
    &&& t.dx <= TRANSFORM_OFFSET_MAX
    &&& t.dy <= TRANSFORM_OFFSET_MAX
}

/// The painter state a row reads while drawing: the painter's own clip, in
/// logical space, and the transform that carries it into device space.
#[derive(Clone, Copy, Debug, PartialEq, Eq, Structural)]
pub struct Painter {
    pub clip: ClipRegion,
    pub transform: Transform,
}

/// A painter whose clip and transform are within the model's bounds.
pub open spec fn painter_wf(p: Painter) -> bool {
    &&& transform_wf(p.transform)
    &&& match p.clip {
        ClipRegion::Null => true,
        ClipRegion::Area(r) => {
            &&& r.x <= PAINTER_COORD_MAX
            &&& r.y <= PAINTER_COORD_MAX
            &&& r.width <= PAINTER_COORD_MAX
            &&& r.height <= PAINTER_COORD_MAX
        },
    }
}

/// The rectangle carried into device space by a transform.
pub open spec fn rect_transformed(r: Rect, t: Transform) -> Rect {
    Rect {
        x: (r.x * t.scale + t.dx) as u64,
        y: (r.y * t.scale + t.dy) as u64,
        width: (r.width * t.scale) as u64,
        height: (r.height * t.scale) as u64,
    }
}

/// The region carried into device space by a transform.
pub open spec fn region_transformed(c: ClipRegion, t: Transform) -> ClipRegion {
    match c {
        ClipRegion::Null => ClipRegion::Null,
        ClipRegion::Area(r) => ClipRegion::Area(rect_transformed(r, t)),
    }
}

/// The intersection of two rectangles, normalized to `Null` when empty.
pub open spec fn rect_intersection(a: Rect, b: Rect) -> ClipRegion {
    let x1 = if a.x >= b.x { a.x } else { b.x };
    let y1 = if a.y >= b.y { a.y } else { b.y };
    let xr = if a.x + a.width <= b.x + b.width { a.x + a.width } else { b.x + b.width };
    let yb = if a.y + a.height <= b.y + b.height { a.y + a.height } else { b.y + b.height };
    if x1 < xr && y1 < yb {
        ClipRegion::Area(Rect { x: x1, y: y1, width: (xr - x1) as u64, height: (yb - y1) as u64 })
    } else {
        ClipRegion::Null
    }
}

/// The intersection of two clip regions; any empty operand makes it empty.
pub open spec fn region_intersection(a: ClipRegion, b: ClipRegion) -> ClipRegion {
    match (a, b) {
        (ClipRegion::Area(ra), ClipRegion::Area(rb)) => rect_intersection(ra, rb),
        _ => ClipRegion::Null,
    }
}

/// Carries a painter clip into device space.
pub fn transform_region(c: &ClipRegion, t: &Transform) -> (out: ClipRegion)
    requires
        transform_wf(*t),
        match *c {
            ClipRegion::Null => true,
            ClipRegion::Area(r) => {
                &&& r.x <= PAINTER_COORD_MAX
                &&& r.y <= PAINTER_COORD_MAX
                &&& r.width <= PAINTER_COORD_MAX
                &&& r.height <= PAINTER_COORD_MAX
            },
        },
    ensures
        out == region_transformed(*c, *t),
        clip_bounded(out),
{
    match c {
        ClipRegion::Null => ClipRegion::Null,
        ClipRegion::Area(r) => {
            proof {
                lemma_mul_upper_bound(
                    r.x as int,
                    PAINTER_COORD_MAX as int,
                    t.scale as int,
                    TRANSFORM_SCALE_MAX as int,
                );
                lemma_mul_upper_bound(
                    r.y as int,
                    PAINTER_COORD_MAX as int,
                    t.scale as int,
                    TRANSFORM_SCALE_MAX as int,
                );
                lemma_mul_upper_bound(
                    r.width as int,
                    PAINTER_COORD_MAX as int,
                    t.scale as int,
                    TRANSFORM_SCALE_MAX as int,
                );
                lemma_mul_upper_bound(
                    r.height as int,
                    PAINTER_COORD_MAX as int,
                    t.scale as int,
                    TRANSFORM_SCALE_MAX as int,
                );
            }
            let s = t.scale as u64;
            ClipRegion::Area(
                Rect {
                    x: r.x * s + t.dx,
                    y: r.y * s + t.dy,
                    width: r.width * s,
                    height: r.height * s,
                },
            )
        },
    }
}

/// Intersects two clip regions.
pub fn intersect_region(a: &ClipRegion, b: &ClipRegion) -> (out: ClipRegion)
    requires
        clip_bounded(*a),
        clip_bounded(*b),
    ensures
        out == region_intersection(*a, *b),
        clip_bounded(out),
{
    match (a, b) {
        (ClipRegion::Area(ra), ClipRegion::Area(rb)) => {
            let x1 = if ra.x >= rb.x {
                ra.x
            } else {
                rb.x
            };
            let y1 = if ra.y >= rb.y {
                ra.y
            } else {
                rb.y
            };
            let ar = ra.x + ra.width;
            let br = rb.x + rb.width;
            let xr = if ar <= br {
                ar
            } else {
                br
            };
            let ab = ra.y + ra.height;
            let bb = rb.y + rb.height;
            let yb = if ab <= bb {
                ab
            } else {
                bb
            };
            if x1 < xr && y1 < yb {
                ClipRegion::Area(Rect { x: x1, y: y1, width: xr - x1, height: yb - y1 })
            } else {
                ClipRegion::Null
            }
        },
        _ => ClipRegion::Null,
    }
}

/// The toolkit-side widget that stands behind one adapter instance. The
/// host creates it during the adapter's init so that style-driven
/// animations (for instance a hover fade) can poke the adapter's animation
/// tracker attribute and schedule repaints; the adapter owns it until
/// teardown. Its one piece of state the adapter touches is the scoped
/// popup-item marker consulted by the menu renderer.
#[derive(Clone, Copy, Debug, PartialEq, Eq, Structural)]
pub struct AnimatedWidget {
    /// The host's scoped "this widget is a combo-box popup entry" marker;
    /// set only for the duration of a popup-menu draw.
    pub popup_item_flag: bool,
}

/// The description handed to the host's menu-item control renderer.
#[derive(Clone, Debug)]
pub struct MenuItemOption {
    pub initial_state: u32,
    pub rect: Rect,
    pub menu_rect: Rect,
    pub enabled: bool,
    pub mouse_over: bool,
    pub selected: bool,
    pub checked: bool,
    pub text: String,
}

/// Mathematical image of a [`MenuItemOption`].
#[verifier::ext_equal]
pub struct MenuItemOptionV {
    pub initial_state: u32,
    pub rect: Rect,
    pub menu_rect: Rect,
    pub enabled: bool,
    pub mouse_over: bool,
    pub selected: bool,
    pub checked: bool,
    pub text: Seq<char>,
}

impl View for MenuItemOption {
    type V = MenuItemOptionV;

    open spec fn view(&self) -> MenuItemOptionV {
        MenuItemOptionV {
            initial_state: self.initial_state,
            rect: self.rect,
            menu_rect: self.menu_rect,
            enabled: self.enabled,
            mouse_over: self.mouse_over,
            selected: self.selected,
            checked: self.checked,
            text: self.text@,
        }
    }
}

/// The description handed to the host's item-view renderers (both the
/// background panel primitive and the row content control).
#[derive(Clone, Debug)]
pub struct ItemViewOption {
    pub initial_state: u32,
    pub rect: Rect,
    pub enabled: bool,
    pub selected: bool,
    pub mouse_over: bool,
    pub decoration_position: DecorationPosition,
    pub decoration_alignment: Alignment,
    pub display_alignment: Alignment,
    pub show_decoration_selected: bool,
    pub alternate: bool,
    pub has_display: bool,
    pub text: String,
}

/// Mathematical image of an [`ItemViewOption`].
#[verifier::ext_equal]
pub struct ItemViewOptionV {
    pub initial_state: u32,
    pub rect: Rect,
    pub enabled: bool,
    pub selected: bool,
    pub mouse_over: bool,
    pub decoration_position: DecorationPosition,
    pub decoration_alignment: Alignment,
    pub display_alignment: Alignment,
    pub show_decoration_selected: bool,
    pub alternate: bool,
    pub has_display: bool,
    pub text: Seq<char>,
}

impl View for ItemViewOption {
    type V = ItemViewOptionV;

    open spec fn view(&self) -> ItemViewOptionV {
        ItemViewOptionV {
            initial_state: self.initial_state,
            rect: self.rect,
            enabled: self.enabled,
            selected: self.selected,
            mouse_over: self.mouse_over,
            decoration_position: self.decoration_position,
            decoration_alignment: self.decoration_alignment,
            display_alignment: self.display_alignment,
            show_decoration_selected: self.show_decoration_selected,
            alternate: self.alternate,
            has_display: self.has_display,
            text: self.text@,
        }
    }
}

/// One call a row made into the host's paint delegate, in order.
#[derive(Clone, Debug)]
pub enum DrawCommand {
    /// The menu-item control renderer, with the popup-item marker the
    /// widget carried while the call was made.
    MenuItemControl { option: MenuItemOption, popup_item_flag: bool },
    /// The row background panel primitive.
    PanelRowPrimitive { option: ItemViewOption },
    /// The row content control renderer.
    ItemViewControl { option: ItemViewOption },
}

/// Mathematical image of a [`DrawCommand`].
#[verifier::ext_equal]
pub enum DrawCommandV {
    MenuItemControl { option: MenuItemOptionV, popup_item_flag: bool },
    PanelRowPrimitive { option: ItemViewOptionV },
    ItemViewControl { option: ItemViewOptionV },
}

impl View for DrawCommand {
    type V = DrawCommandV;

    open spec fn view(&self) -> DrawCommandV {
        match self {
            DrawCommand::MenuItemControl { option, popup_item_flag } => (
                DrawCommandV::MenuItemControl {
                    option: option@,
                    popup_item_flag: *popup_item_flag,
                }
            ),
            DrawCommand::PanelRowPrimitive { option } => (
                DrawCommandV::PanelRowPrimitive { option: option@ }
            ),
            DrawCommand::ItemViewControl { option } => (
                DrawCommandV::ItemViewControl { option: option@ }
            ),
        }
    }
}

/// Mathematical image of a [`PaintEngine`].
#[verifier::ext_equal]
pub struct PaintEngineV {
    pub dpr: u32,
    pub system_clip: ClipRegion,
    pub commands: Seq<DrawCommandV>,
}

/// A device pixel ratio the paint-engine model admits.
pub open spec fn dpr_wf(dpr: u32) -> bool {
    1 <= dpr <= DPR_MAX
}

/// A system clip as the engine's own clip installation leaves it: every
/// coordinate is a bounded multiple of the device pixel ratio, and the
/// unscaled area is at least one device pixel in each axis. Every region
/// that went through [`PaintEngine::set_system_clip`] with a bounded result
/// satisfies this, so it holds between rows of a well-behaved paint pass.
pub open spec fn engine_clip_ok(e: PaintEngineV) -> bool {
    match e.system_clip {
        ClipRegion::Null => true,
        ClipRegion::Area(r) => {
            let k = e.dpr as u64;
            &&& r.x % k == 0
            &&& r.y % k == 0
            &&& r.width % k == 0
            &&& r.height % k == 0
            &&& k <= r.width
            &&& k <= r.height
            &&& r.x <= CLIP_COORD_MAX
            &&& r.y <= CLIP_COORD_MAX
            &&& r.width <= CLIP_COORD_MAX
            &&& r.height <= CLIP_COORD_MAX
        },
    }
}

/// The host toolkit's paint engine, as one row sees it: the device pixel
/// ratio of the target surface, the shared system clip, and the sequence of
/// paint-delegate calls made against the surface so far.
pub struct PaintEngine {
    dpr: u32,
    system_clip: ClipRegion,
    commands: Vec<DrawCommand>,
}

impl View for PaintEngine {
    type V = PaintEngineV;

    closed spec fn view(&self) -> PaintEngineV {
        PaintEngineV {
            dpr: self.dpr,
            system_clip: self.system_clip,
            commands: self.commands@.map_values(|c: DrawCommand| c@),
        }
    }
}

impl PaintEngine {
    /// A fresh engine for a surface with the given device pixel ratio: no
    /// system clip, nothing drawn yet.
    pub fn new(dpr: u32) -> (e: PaintEngine)
        requires
            dpr_wf(dpr),
        ensures
            e@.dpr == dpr,
            e@.system_clip == ClipRegion::Null,
            e@.commands == Seq::<DrawCommandV>::empty(),
    {
        let e = PaintEngine { dpr, system_clip: ClipRegion::Null, commands: Vec::new() };
        proof {
            assert(e@.commands =~= Seq::<DrawCommandV>::empty());
        }
        e
    }

    /// The device pixel ratio of the target surface.
    pub fn dpr(&self) -> (k: u32)
        ensures
            k == self@.dpr,
    {
        self.dpr
    }

    /// The system clip currently installed.
    pub fn system_clip(&self) -> (c: ClipRegion)
        ensures
            c == self@.system_clip,
    {
        self.system_clip
    }

    /// The paint-delegate calls made against the surface so far.
    pub fn commands(&self) -> (v: &Vec<DrawCommand>)
        ensures
            v@.map_values(|c: DrawCommand| c@) == self@.commands,
    {
        &self.commands
    }

    /// Installs a system clip. Models the host defect: the region actually
    /// installed is the requested one scaled by the device pixel ratio.
    pub fn set_system_clip(&mut self, clip: ClipRegion)
        requires
            dpr_wf(old(self)@.dpr),
            clip_bounded(clip),
        ensures
            final(self)@.dpr == old(self)@.dpr,
            final(self)@.commands == old(self)@.commands,
            final(self)@.system_clip == region_scaled(clip, old(self)@.dpr as u64),
    {
        let k = self.dpr as u64;
        match clip {
            ClipRegion::Null => {
                self.system_clip = ClipRegion::Null;
            },
            ClipRegion::Area(r) => {
                proof {
                    lemma_mul_upper_bound(
                        r.x as int,
                        CLIP_COORD_MAX as int,
                        k as int,
                        DPR_MAX as int,
                    );
                    lemma_mul_upper_bound(
                        r.y as int,
                        CLIP_COORD_MAX as int,
                        k as int,
                        DPR_MAX as int,
                    );
                    lemma_mul_upper_bound(
                        r.width as int,
                        CLIP_COORD_MAX as int,
                        k as int,
                        DPR_MAX as int,
                    );
                    lemma_mul_upper_bound(
                        r.height as int,
                        CLIP_COORD_MAX as int,
                        k as int,
                        DPR_MAX as int,
                    );
                }
                self.system_clip = ClipRegion::Area(
                    Rect {
                        x: r.x * k,
                        y: r.y * k,
                        width: r.width * k,
                        height: r.height * k,
                    },
                );
            },
        }
    }

    /// Draws a menu-item control through the host's paint delegate. The
    /// menu renderer leaves the system clip alone; the widget's popup-item
    /// marker at the moment of the call is part of what the host sees.
    pub fn draw_menu_item(&mut self, option: MenuItemOption, widget: &AnimatedWidget)
        ensures
            final(self)@.dpr == old(self)@.dpr,
            final(self)@.system_clip == old(self)@.system_clip,
            final(self)@.commands == old(self)@.commands.push(
                (DrawCommandV::MenuItemControl {
                    option: option@,
                    popup_item_flag: widget.popup_item_flag,
                }),
            ),
    {
        let cmd = DrawCommand::MenuItemControl {
            option,
            popup_item_flag: widget.popup_item_flag,
        };
        let ghost pushed = self@.commands.push(cmd@);
        self.commands.push(cmd);
        proof {
            assert(self@.commands =~= pushed);
        }
    }

    /// Draws the row background panel primitive through the host's paint
    /// delegate; it leaves the system clip alone.
    pub fn draw_panel_row(&mut self, option: ItemViewOption, _widget: &AnimatedWidget)
        ensures
            final(self)@.dpr == old(self)@.dpr,
            final(self)@.system_clip == old(self)@.system_clip,
            final(self)@.commands == old(self)@.commands.push(
                (DrawCommandV::PanelRowPrimitive { option: option@ }),
            ),
    {
        let cmd = DrawCommand::PanelRowPrimitive { option };
        let ghost pushed = self@.commands.push(cmd@);
        self.commands.push(cmd);
        proof {
            assert(self@.commands =~= pushed);
        }
    }

    /// Draws the row content control through the host's paint delegate.
    /// Models the host quirk the rendering path must work around: this
    /// renderer unconditionally overwrites the system clip with the
    /// option's target rectangle (installed, as always, through the
    /// defective scaling).
    pub fn draw_item_view(&mut self, option: ItemViewOption, _widget: &AnimatedWidget)
        requires
            dpr_wf(old(self)@.dpr),
            option.rect.x <= CLIP_COORD_MAX,
            option.rect.y <= CLIP_COORD_MAX,
            option.rect.width <= CLIP_COORD_MAX,
            option.rect.height <= CLIP_COORD_MAX,
        ensures
            final(self)@.dpr == old(self)@.dpr,
            final(self)@.system_clip == region_scaled(
                region_of_rect(option.rect),
                old(self)@.dpr as u64,
            ),
            final(self)@.commands == old(self)@.commands.push(
                (DrawCommandV::ItemViewControl { option: option@ }),
            ),
    {
        let overwrite = if option.rect.width >= 1 && option.rect.height >= 1 {
            ClipRegion::Area(option.rect)
        } else {
            ClipRegion::Null
        };
        self.set_system_clip(overwrite);
        let cmd = DrawCommand::ItemViewControl { option };
        let ghost pushed = self@.commands.push(cmd@);
        self.commands.push(cmd);
        proof {
            assert(self@.commands =~= pushed);
        }
    }
}

/// A rectangle as a clip region, normalized to `Null` when it is empty.
pub open spec fn region_of_rect(r: Rect) -> ClipRegion {
    if r.width >= 1 && r.height >= 1 {
        ClipRegion::Area(r)
    } else {
        ClipRegion::Null
    }
}

} // verus!
