//! The native-widget list-row adapter itself.
//!
//! One [`NativeStandardListViewItem`] owns the reactive attributes of one
//! visible list row and implements the item contract towards the scene
//! graph: a one-time init that acquires the toolkit-side animated widget,
//! geometry on demand, layout measurement through the host's style engine,
//! input and focus routing (always declined — selection lives in the owning
//! list or combo box), and rendering through the host's paint delegate.
//!
//! Layout measurement is a two-step exchange with the host: the adapter
//! builds the measurement description with [`NativeStandardListViewItem::layout_query`],
//! the host's style engine measures it, and
//! [`NativeStandardListViewItem::layout_info`] turns the measured size into
//! the layout answer. Rendering drives the paint-engine model of
//! [`crate::paint`] directly and is proved to restore the engine's system
//! clip on every path.

use vstd::arithmetic::div_mod::lemma_div_multiples_vanish;
use vstd::arithmetic::div_mod::lemma_div_nonincreasing;
use vstd::arithmetic::div_mod::lemma_fundamental_div_mod;
use vstd::arithmetic::div_mod::lemma_fundamental_div_mod_converse;
use vstd::arithmetic::mul::lemma_mul_is_commutative;
use vstd::arithmetic::mul::lemma_mul_upper_bound;
use vstd::prelude::*;
use crate::events::FocusEvent;
use crate::events::FocusEventResult;
use crate::events::InputEventFilterResult;
use crate::events::InputEventResult;
use crate::events::KeyEvent;
use crate::events::KeyEventResult;
use crate::events::MouseEvent;
use crate::geometry::LogicalRect;
use crate::paint::AnimatedWidget;
use crate::paint::ClipRegion;
use crate::paint::DrawCommandV;
use crate::paint::ItemViewOption;
use crate::paint::ItemViewOptionV;
use crate::paint::MenuItemOption;
use crate::paint::MenuItemOptionV;
use crate::paint::PaintEngine;
use crate::paint::Painter;
use crate::paint::Rect;
use crate::paint::CLIP_COORD_MAX;
use crate::paint::DPR_MAX;
use crate::paint::dpr_wf;
use crate::paint::engine_clip_ok;
use crate::paint::intersect_region;
use crate::paint::painter_wf;
use crate::paint::rect_scaled;
use crate::paint::transform_region;
use crate::style::Alignment;
use crate::style::DecorationPosition;
use crate::style::HorizontalAlignment;
use crate::style::LayoutInfo;
use crate::style::Orientation;
use crate::style::RenderMode;
use crate::style::RowSizeQuery;
use crate::style::Size;
use crate::style::StyleHints;
use crate::style::StyleQuery;
use crate::style::StyleQueryV;
use crate::style::VerticalAlignment;
use crate::style::is_alternate_index;
use crate::style::layout_info_spec;
use crate::style::layout_query_spec;
use crate::style::mode_spec;
use crate::style::resolve_mode;
use crate::style::row_size_query_spec;
use crate::text::escape_ampersands;
use crate::text::escaped_amp;

verus! {

/// The displayed content of one list row, as the data model feeds it.
#[derive(Clone, Debug)]
pub struct StandardListViewItem {
    pub text: String,
}

/// The renderer's memoization handle for one row's prepared drawable. The
/// rendering subsystem owns and interprets it; the adapter only carries it.
#[derive(Clone, Copy, Debug, PartialEq, Eq, Structural)]
pub struct CachedRenderingData {
    pub cache_index: usize,
    pub cache_generation: usize,
}

/// Mathematical image of a row's reactive attributes (the toolkit-side
/// widget handle is lifecycle state, not an attribute, and is tracked by
/// [`NativeStandardListViewItem::initialized`] instead).
#[verifier::ext_equal]
pub struct NativeStandardListViewItemV {
    pub x: i64,
    pub y: i64,
    pub width: i64,
    pub height: i64,
    pub text: Seq<char>,
    pub index: i32,
    pub is_selected: bool,
    pub has_hover: bool,
    pub combobox: bool,
    pub cached_rendering_data: CachedRenderingData,
    pub animation_tracker: i32,
}

/// One native list-view row (or combo-box popup entry).
pub struct NativeStandardListViewItem {
    /// Logical left edge; owned by the layout system.
    pub x: i64,
    /// Logical top edge; owned by the layout system.
    pub y: i64,
    /// Logical width; owned by the layout system.
    pub width: i64,
    /// Logical height; owned by the layout system.
    pub height: i64,
    /// The row's displayed content; owned by the data model.
    pub item: StandardListViewItem,
    /// Position within the list; decides the alternating-row shading.
    pub index: i32,
    /// Selection state, written by the owning list or combo box.
    pub is_selected: bool,
    /// The renderer's memoization handle.
    pub cached_rendering_data: CachedRenderingData,
    /// Hover state, written by the owning list or combo box.
    pub has_hover: bool,
    /// Fixed at composition time: this row is an entry of a combo-box
    /// popup.
    pub combobox: bool,
    /// The toolkit-side widget created by init and owned until teardown.
    pub widget_ptr: Option<AnimatedWidget>,
    /// The attribute the toolkit-side widget pokes to schedule repaints
    /// when a style-driven animation ticks.
    pub animation_tracker: i32,
}

impl View for NativeStandardListViewItem {
    type V = NativeStandardListViewItemV;

    open spec fn view(&self) -> NativeStandardListViewItemV {
        NativeStandardListViewItemV {
            x: self.x,
            y: self.y,
            width: self.width,
            height: self.height,
            text: self.item.text@,
            index: self.index,
            is_selected: self.is_selected,
            has_hover: self.has_hover,
            combobox: self.combobox,
            cached_rendering_data: self.cached_rendering_data,
            animation_tracker: self.animation_tracker,
        }
    }
}

impl Default for NativeStandardListViewItem {
    /// A fresh row: zero geometry, empty content, index zero, no state
    /// bits, not yet initialized.
    fn default() -> (r: NativeStandardListViewItem)
        ensures
            !r.initialized(),
            r@ == (NativeStandardListViewItemV {
                x: 0,
                y: 0,
                width: 0,
                height: 0,
                text: Seq::<char>::empty(),
                index: 0,
                is_selected: false,
                has_hover: false,
                combobox: false,
                cached_rendering_data: (CachedRenderingData {
                    cache_index: 0,
                    cache_generation: 0,
                }),
                animation_tracker: 0,
            }),
    {
        let r = NativeStandardListViewItem {
            x: 0,
            y: 0,
            width: 0,
            height: 0,
            item: StandardListViewItem { text: String::new() },
            index: 0,
            is_selected: false,
            cached_rendering_data: CachedRenderingData { cache_index: 0, cache_generation: 0 },
            has_hover: false,
            combobox: false,
            widget_ptr: None,
            animation_tracker: 0,
        };
        proof {
            assert(r@.text =~= Seq::<char>::empty());
        }
        r
    }
}

impl NativeStandardListViewItem {
    /// Init has run and teardown has not: the toolkit-side animated widget
    /// exists.
    pub open spec fn initialized(&self) -> bool {
        self.widget_ptr is Some
    }

    /// The scoped popup-item marker on the toolkit-side widget is not set;
    /// it is only ever set for the duration of one popup-menu draw.
    pub open spec fn popup_marker_clear(&self) -> bool {
        match self.widget_ptr {
            Some(w) => !w.popup_item_flag,
            None => true,
        }
    }

    /// The one-time init hook: creates the toolkit-side animated widget
    /// that observes this row's animation tracker attribute and schedules
    /// repaints when a style-driven animation (for instance a hover fade)
    /// ticks. The host guarantees creation succeeds; the widget is owned by
    /// this row until teardown.
    pub fn init(&mut self)
        requires
            !old(self).initialized(),
        ensures
            final(self).initialized(),
            final(self).popup_marker_clear(),
            final(self)@ == old(self)@,
    {
        self.widget_ptr = Some(AnimatedWidget { popup_item_flag: false });
    }

    /// Releases the toolkit-side animated widget; called exactly once, when
    /// the scene graph removes or recycles the row.
    pub fn teardown(&mut self)
        requires
            old(self).initialized(),
        ensures
            !final(self).initialized(),
            final(self)@ == old(self)@,
    {
        self.widget_ptr = None;
    }

    /// The row's rectangle, packed fresh from the four geometry attributes
    /// on every call.
    pub fn geometry(&self) -> (r: LogicalRect)
        ensures
            r == (LogicalRect {
                x: self@.x,
                y: self@.y,
                width: self@.width,
                height: self@.height,
            }),
    {
        LogicalRect { x: self.x, y: self.y, width: self.width, height: self.height }
    }

    /// The measurement description this row sends to the host's style
    /// engine: menu-item semantics (text escaped) when the row is a
    /// combo-box popup entry and the host styles those as menus, item-view
    /// row semantics otherwise. The caller measures the query through the
    /// host and hands the answer to [`Self::layout_info`].
    pub fn layout_query(&self, hints: &StyleHints) -> (q: StyleQuery)
        ensures
            q@ == layout_query_spec(self@.index as int, self@.text, self@.combobox, *hints),
    {
        let mode = resolve_mode(self.combobox, hints);
        match mode {
            RenderMode::PopupMenu => {
                StyleQuery::MenuItem { text: escape_ampersands(self.item.text.as_str()) }
            },
            RenderMode::Row => {
                let alternate = is_odd_index(self.index);
                StyleQuery::ItemViewRow {
                    option: RowSizeQuery {
                        decoration_position: DecorationPosition::Left,
                        decoration_alignment: Alignment {
                            horizontal: HorizontalAlignment::Center,
                            vertical: VerticalAlignment::Center,
                        },
                        display_alignment: Alignment {
                            horizontal: HorizontalAlignment::Left,
                            vertical: VerticalAlignment::Center,
                        },
                        show_decoration_selected: hints.show_decoration_selected,
                        alternate,
                        has_display: true,
                        text: self.item.text.clone(),
                    },
                }
            },
        }
    }

    /// Turns the host's measured size into the layout answer for one axis:
    /// the relevant dimension becomes both minimum and preferred, because
    /// the host style gives a single "size from contents" answer.
    pub fn layout_info(&self, orientation: Orientation, measured: Size) -> (info: LayoutInfo)
        ensures
            info == layout_info_spec(orientation, measured),
    {
        let d = match orientation {
            Orientation::Horizontal => measured.width,
            Orientation::Vertical => measured.height,
        };
        LayoutInfo { min: d, preferred: d }
    }

    /// Pre-child pointer filtering: the row never intercepts pointer events
    /// meant for whatever is composed inside it.
    pub fn input_event_filter_before_children(&self, _event: &MouseEvent) -> (r:
        InputEventFilterResult)
        ensures
            r == InputEventFilterResult::ForwardAndIgnore,
    {
        InputEventFilterResult::ForwardAndIgnore
    }

    /// Pointer events are never consumed: click-to-select lives in the
    /// owning list or combo box, which translates its own events into
    /// attribute writes.
    pub fn input_event(&self, _event: &MouseEvent) -> (r: InputEventResult)
        ensures
            r == InputEventResult::EventIgnored,
    {
        InputEventResult::EventIgnored
    }

    /// Key events are never consumed: keyboard navigation lives in the
    /// owning container.
    pub fn key_event(&self, _event: &KeyEvent) -> (r: KeyEventResult)
        ensures
            r == KeyEventResult::EventIgnored,
    {
        KeyEventResult::EventIgnored
    }

    /// The row never becomes the focus target.
    pub fn focus_event(&self, _event: &FocusEvent) -> (r: FocusEventResult)
        ensures
            r == FocusEventResult::FocusIgnored,
    {
        FocusEventResult::FocusIgnored
    }
}

/// The rectangle a row draws into: the device-pixel target size carried
/// back to logical coordinates, anchored at the origin.
pub open spec fn target_rect_spec(size: Size, dpr: u32) -> Rect {
    Rect {
        x: 0,
        y: 0,
        width: (size.width / dpr) as u64,
        height: (size.height / dpr) as u64,
    }
}

/// The description a popup-menu draw hands to the host's menu-item control
/// renderer: the initial style-state bits carried through, the target
/// rectangle, enabled always, hover marking both mouse-over and selection
/// emphasis, the checked mark mirroring the row's selection, and the text
/// with ampersands escaped.
pub open spec fn menu_paint_option_spec(
    text: Seq<char>,
    is_selected: bool,
    has_hover: bool,
    size: Size,
    dpr: u32,
    initial_state: u32,
) -> MenuItemOptionV {
    MenuItemOptionV {
        initial_state: initial_state,
        rect: target_rect_spec(size, dpr),
        menu_rect: target_rect_spec(size, dpr),
        enabled: true,
        mouse_over: has_hover,
        selected: has_hover,
        checked: is_selected,
        text: escaped_amp(text),
    }
}

/// The description a row draw hands to the host's item-view renderers:
/// the initial style-state bits carried through, the target rectangle,
/// enabled always, the selection and hover bits as set, decoration on the
/// left and centered, text left-aligned and vertically centered,
/// decoration-on-selection as the host hints, alternate shading exactly on
/// odd indices, display content always present, and the text unescaped.
pub open spec fn row_paint_option_spec(
    index: int,
    text: Seq<char>,
    is_selected: bool,
    has_hover: bool,
    hints: StyleHints,
    size: Size,
    dpr: u32,
    initial_state: u32,
) -> ItemViewOptionV {
    ItemViewOptionV {
        initial_state: initial_state,
        rect: target_rect_spec(size, dpr),
        enabled: true,
        selected: is_selected,
        mouse_over: has_hover,
        decoration_position: DecorationPosition::Left,
        decoration_alignment: (Alignment {
            horizontal: HorizontalAlignment::Center,
            vertical: VerticalAlignment::Center,
        }),
        display_alignment: (Alignment {
            horizontal: HorizontalAlignment::Left,
            vertical: VerticalAlignment::Center,
        }),
        show_decoration_selected: hints.show_decoration_selected,
        alternate: is_alternate_index(index),
        has_display: true,
        text: text,
    }
}

/// The paint-delegate calls one render of a row makes, in order: a single
/// menu-item control draw (with the popup marker set for its duration) in
/// popup-menu mode, or the background panel primitive followed by the row
/// content control in row mode — the mode resolved by the same rule as
/// layout measurement.
pub open spec fn render_plan_spec(
    index: int,
    text: Seq<char>,
    is_selected: bool,
    has_hover: bool,
    combobox: bool,
    hints: StyleHints,
    size: Size,
    dpr: u32,
    initial_state: u32,
) -> Seq<DrawCommandV> {
    if mode_spec(combobox, hints.popup_as_menu) == RenderMode::PopupMenu {
        seq![
            DrawCommandV::MenuItemControl {
                option: menu_paint_option_spec(
                    text,
                    is_selected,
                    has_hover,
                    size,
                    dpr,
                    initial_state,
                ),
                popup_item_flag: true,
            },
        ]
    } else {
        let option = row_paint_option_spec(
            index,
            text,
            is_selected,
            has_hover,
            hints,
            size,
            dpr,
            initial_state,
        );
        seq![
            DrawCommandV::PanelRowPrimitive { option },
            DrawCommandV::ItemViewControl { option },
        ]
    }
}

impl NativeStandardListViewItem {
    /// Builds the menu-item paint description.
    fn build_menu_option(&self, size: Size, dpr: u32, initial_state: u32) -> (o: MenuItemOption)
        requires
            dpr >= 1,
        ensures
            o@ == menu_paint_option_spec(
                self@.text,
                self@.is_selected,
                self@.has_hover,
                size,
                dpr,
                initial_state,
            ),
    {
        let width = (size.width / dpr) as u64;
        let height = (size.height / dpr) as u64;
        let rect = Rect { x: 0, y: 0, width, height };
        MenuItemOption {
            initial_state,
            rect,
            menu_rect: rect,
            enabled: true,
            mouse_over: self.has_hover,
            selected: self.has_hover,
            checked: self.is_selected,
            text: escape_ampersands(self.item.text.as_str()),
        }
    }

    /// Builds the item-view paint description.
    fn build_row_option(&self, hints: &StyleHints, size: Size, dpr: u32, initial_state: u32) -> (o:
        ItemViewOption)
        requires
            dpr >= 1,
        ensures
            o@ == row_paint_option_spec(
                self@.index as int,
                self@.text,
                self@.is_selected,
                self@.has_hover,
                *hints,
                size,
                dpr,
                initial_state,
            ),
    {
        let width = (size.width / dpr) as u64;
        let height = (size.height / dpr) as u64;
        let alternate = is_odd_index(self.index);
        ItemViewOption {
            initial_state,
            rect: Rect { x: 0, y: 0, width, height },
            enabled: true,
            selected: self.is_selected,
            mouse_over: self.has_hover,
            decoration_position: DecorationPosition::Left,
            decoration_alignment: Alignment {
                horizontal: HorizontalAlignment::Center,
                vertical: VerticalAlignment::Center,
            },
            display_alignment: Alignment {
                horizontal: HorizontalAlignment::Left,
                vertical: VerticalAlignment::Center,
            },
            show_decoration_selected: hints.show_decoration_selected,
            alternate,
            has_display: true,
            text: self.item.text.clone(),
        }
    }

    /// Renders the row onto the target surface through the host's paint
    /// delegate.
    ///
    /// In popup-menu mode the toolkit-side widget carries the scoped
    /// popup-item marker for exactly the duration of the menu draw. In row
    /// mode the shared system clip is narrowed to the painter's clip
    /// (carried into device space, intersected with any pre-existing
    /// system clip) around the two draws, then restored — and, because
    /// installing a clip wrongly rescales it by the device pixel ratio,
    /// repaired by the compensating rescale when the restored clip does
    /// not match. On every path the paint engine's system clip ends
    /// exactly as it began, and the row's attributes are untouched.
    pub fn render(
        &mut self,
        painter: &Painter,
        engine: &mut PaintEngine,
        size: Size,
        initial_state: u32,
        hints: &StyleHints,
    )
        requires
            old(self).initialized(),
            old(self).popup_marker_clear(),
            dpr_wf(old(engine)@.dpr),
            engine_clip_ok(old(engine)@),
            painter_wf(*painter),
        ensures
            final(self)@ == old(self)@,
            final(self).initialized(),
            final(self).popup_marker_clear(),
            final(engine)@.dpr == old(engine)@.dpr,
            final(engine)@.system_clip == old(engine)@.system_clip,
            engine_clip_ok(final(engine)@),
            final(engine)@.commands == old(engine)@.commands + render_plan_spec(
                old(self)@.index as int,
                old(self)@.text,
                old(self)@.is_selected,
                old(self)@.has_hover,
                old(self)@.combobox,
                *hints,
                size,
                old(engine)@.dpr,
                initial_state,
            ),
    {
        let ghost plan = render_plan_spec(
            self@.index as int,
            self@.text,
            self@.is_selected,
            self@.has_hover,
            self@.combobox,
            *hints,
            size,
            engine@.dpr,
            initial_state,
        );
        let mode = resolve_mode(self.combobox, hints);
        match mode {
            RenderMode::PopupMenu => {
                self.widget_ptr = Some(AnimatedWidget { popup_item_flag: true });
                let option = self.build_menu_option(size, engine.dpr(), initial_state);
                match &self.widget_ptr {
                    Some(w) => {
                        engine.draw_menu_item(option, w);
                    },
                    None => {
                        proof {
                            assert(false);
                        }
                    },
                }
                self.widget_ptr = Some(AnimatedWidget { popup_item_flag: false });
                proof {
                    assert(engine@.commands =~= old(engine)@.commands + plan);
                }
            },
            RenderMode::Row => {
                // Both draws take the same description, but each paint call
                // consumes its own copy.
                let panel_option = self.build_row_option(hints, size, engine.dpr(), initial_state);
                let content_option = self.build_row_option(
                    hints,
                    size,
                    engine.dpr(),
                    initial_state,
                );
                let old_clip = engine.system_clip();
                let base = transform_region(&painter.clip, &painter.transform);
                let new_clip = match &old_clip {
                    ClipRegion::Null => base,
                    ClipRegion::Area(_) => intersect_region(&base, &old_clip),
                };
                engine.set_system_clip(new_clip);
                match &self.widget_ptr {
                    Some(w) => {
                        engine.draw_panel_row(panel_option, w);
                        engine.draw_item_view(content_option, w);
                    },
                    None => {
                        proof {
                            assert(false);
                        }
                    },
                }
                engine.set_system_clip(old_clip);
                let actual = engine.system_clip();
                if actual != old_clip {
                    let ghost k = engine@.dpr as u64;
                    match (old_clip, actual) {
                        (ClipRegion::Area(o), ClipRegion::Area(a)) => {
                            proof {
                                lemma_mul_upper_bound(
                                    o.x as int,
                                    CLIP_COORD_MAX as int,
                                    k as int,
                                    DPR_MAX as int,
                                );
                                lemma_mul_upper_bound(
                                    o.y as int,
                                    CLIP_COORD_MAX as int,
                                    k as int,
                                    DPR_MAX as int,
                                );
                                lemma_mul_upper_bound(
                                    o.width as int,
                                    CLIP_COORD_MAX as int,
                                    k as int,
                                    DPR_MAX as int,
                                );
                                lemma_mul_upper_bound(
                                    o.height as int,
                                    CLIP_COORD_MAX as int,
                                    k as int,
                                    DPR_MAX as int,
                                );
                                assert(a.width == o.width * k);
                                assert(a.height == o.height * k);
                                lemma_div_multiples_vanish(k as int, o.width as int);
                                lemma_div_multiples_vanish(k as int, o.height as int);
                            }
                            let fx = a.width / o.width;
                            let fy = a.height / o.height;
                            proof {
                                assert(fx == k);
                                assert(fy == k);
                                lemma_div_nonincreasing(o.x as int, k as int);
                                lemma_div_nonincreasing(o.y as int, k as int);
                                lemma_div_nonincreasing(o.width as int, k as int);
                                lemma_div_nonincreasing(o.height as int, k as int);
                            }
                            let corrected = Rect {
                                x: o.x / fx,
                                y: o.y / fy,
                                width: o.width / fx,
                                height: o.height / fy,
                            };
                            proof {
                                lemma_fundamental_div_mod(o.x as int, k as int);
                                lemma_fundamental_div_mod(o.y as int, k as int);
                                lemma_fundamental_div_mod(o.width as int, k as int);
                                lemma_fundamental_div_mod(o.height as int, k as int);
                                lemma_mul_is_commutative(corrected.x as int, k as int);
                                lemma_mul_is_commutative(corrected.y as int, k as int);
                                lemma_mul_is_commutative(corrected.width as int, k as int);
                                lemma_mul_is_commutative(corrected.height as int, k as int);
                                assert(corrected.x * k == o.x);
                                assert(corrected.y * k == o.y);
                                assert(corrected.width * k == o.width);
                                assert(corrected.height * k == o.height);
                            }
                            engine.set_system_clip(ClipRegion::Area(corrected));
                            proof {
                                assert(rect_scaled(corrected, k) == o);
                            }
                        },
                        _ => {
                            proof {
                                assert(false);
                            }
                        },
                    }
                }
                proof {
                    assert(engine@.commands =~= old(engine)@.commands + plan);
                }
            },
        }
    }
}

/// Alternating-row law: in row mode the measurement description marks
/// alternate coloring exactly for the odd row indices — negative and large
/// indices included — and always marks display content present.
pub proof fn lemma_row_query_alternate_iff_odd(
    index: int,
    text: Seq<char>,
    combobox: bool,
    hints: StyleHints,
)
    requires
        mode_spec(combobox, hints.popup_as_menu) == RenderMode::Row,
    ensures
        layout_query_spec(index, text, combobox, hints) == (StyleQueryV::ItemViewRow {
            option: row_size_query_spec(index, text, hints.show_decoration_selected),
        }),
        row_size_query_spec(index, text, hints.show_decoration_selected).alternate <==> index % 2
            == 1,
        row_size_query_spec(index, text, hints.show_decoration_selected).has_display,
{
}

/// Escaping law: whenever row text reaches menu-item measurement or
/// menu-item drawing, it is the text with every ampersand doubled, so the
/// host's menu renderer displays a literal ampersand instead of consuming
/// it as a mnemonic marker; the item-view path passes the text unchanged.
pub proof fn lemma_menu_text_escaped(
    index: int,
    text: Seq<char>,
    is_selected: bool,
    has_hover: bool,
    combobox: bool,
    hints: StyleHints,
    size: Size,
    dpr: u32,
    initial_state: u32,
)
    ensures
        mode_spec(combobox, hints.popup_as_menu) == RenderMode::PopupMenu ==> layout_query_spec(
            index,
            text,
            combobox,
            hints,
        )->MenuItem_text == escaped_amp(text),
        mode_spec(combobox, hints.popup_as_menu) == RenderMode::PopupMenu ==> render_plan_spec(
            index,
            text,
            is_selected,
            has_hover,
            combobox,
            hints,
            size,
            dpr,
            initial_state,
        )[0]->MenuItemControl_option.text == escaped_amp(text),
        mode_spec(combobox, hints.popup_as_menu) == RenderMode::Row ==> layout_query_spec(
            index,
            text,
            combobox,
            hints,
        )->ItemViewRow_option.text == text,
        mode_spec(combobox, hints.popup_as_menu) == RenderMode::Row ==> render_plan_spec(
            index,
            text,
            is_selected,
            has_hover,
            combobox,
            hints,
            size,
            dpr,
            initial_state,
        )[1]->ItemViewControl_option.text == text,
{
}

/// Mode-agreement law: for one and the same row state and host hints,
/// layout measurement asks with menu-item semantics exactly when rendering
/// draws the menu-item control, and asks with item-view semantics exactly
/// when rendering draws the row panel and row content — the two paths can
/// never disagree, because both resolve the mode through [`mode_spec`].
pub proof fn lemma_layout_and_render_agree(
    index: int,
    text: Seq<char>,
    is_selected: bool,
    has_hover: bool,
    combobox: bool,
    hints: StyleHints,
    size: Size,
    dpr: u32,
    initial_state: u32,
)
    ensures
        (layout_query_spec(index, text, combobox, hints) is MenuItem <==> mode_spec(
            combobox,
            hints.popup_as_menu,
        ) == RenderMode::PopupMenu),
        (layout_query_spec(index, text, combobox, hints) is MenuItem <==> {
            let plan = render_plan_spec(
                index,
                text,
                is_selected,
                has_hover,
                combobox,
                hints,
                size,
                dpr,
                initial_state,
            );
            plan.len() == 1 && plan[0] is MenuItemControl
        }),
        (layout_query_spec(index, text, combobox, hints) is ItemViewRow <==> {
            let plan = render_plan_spec(
                index,
                text,
                is_selected,
                has_hover,
                combobox,
                hints,
                size,
                dpr,
                initial_state,
            );
            plan.len() == 2 && plan[0] is PanelRowPrimitive && plan[1] is ItemViewControl
        }),
{
}

/// Determinism law for layout measurement: the query sent to the host's
/// style engine depends only on the row's index, its text and the combo-box
/// flag (under fixed host hints) — not on selection, hover or geometry. Two
/// measurements of an unchanged row therefore send the identical query, so
/// a pure style engine answers both with the same size, and
/// [`layout_info_spec`] turns equal sizes into equal layout answers.
pub proof fn lemma_layout_measurement_deterministic(
    a: NativeStandardListViewItemV,
    b: NativeStandardListViewItemV,
    hints: StyleHints,
)
    requires
        a.index == b.index,
        a.text == b.text,
        a.combobox == b.combobox,
    ensures
        layout_query_spec(a.index as int, a.text, a.combobox, hints) == layout_query_spec(
            b.index as int,
            b.text,
            b.combobox,
            hints,
        ),
{
}

/// Whether a row index is odd — the alternating-row rule, correct for
/// negative and large indices alike.
pub fn is_odd_index(index: i32) -> (odd: bool)
    ensures
        odd == is_alternate_index(index as int),
{
    let m: i64 = if index >= 0 {
        index as i64
    } else {
        -(index as i64)
    };
    let r: u64 = (m as u64) % 2;
    proof {
        if index < 0 {
            let mi = m as int;
            lemma_fundamental_div_mod(mi, 2);
            if mi % 2 == 0 {
                lemma_fundamental_div_mod_converse(index as int, 2, -(mi / 2), 0);
            } else {
                lemma_fundamental_div_mod_converse(index as int, 2, -(mi / 2) - 1, 1);
            }
        }
    }
    r == 1
}

} // verus!
