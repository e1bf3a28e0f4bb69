//! The style-query side of the adapter: how a row describes itself to the
//! host toolkit's style engine when asking for a preferred size.
//!
//! The host's style engine is an external collaborator: the adapter builds a
//! description of the row (a [`StyleQuery`]), the host measures it and
//! answers with a [`Size`], and the adapter turns that answer into a
//! [`LayoutInfo`]. The two descriptions — menu item and item-view row — and
//! the rule choosing between them are the adapter's own logic and are
//! specified exactly here.

use vstd::prelude::*;
use crate::text::escaped_amp;

verus! {

/// The axis a layout pass is asking about.
#[derive(Clone, Copy, Debug, PartialEq, Eq, Structural)]
pub enum Orientation {
    Horizontal,
    Vertical,
}

/// A size in logical pixels, as the host style engine reports it.
#[derive(Clone, Copy, Debug, PartialEq, Eq, Structural)]
pub struct Size {
    pub width: u32,
    pub height: u32,
}

/// The answer of a layout measurement: this adapter never distinguishes a
/// minimum from a preferred size, because the host style gives a single
/// "size from contents" answer.
#[derive(Clone, Copy, Debug, PartialEq, Eq, Structural)]
pub struct LayoutInfo {
    pub min: u32,
    pub preferred: u32,
}

/// The host style's answers to the two hint queries the adapter depends on:
/// whether combo-box popups are rendered as menus, and whether a selected
/// row shows its decoration highlighted.
#[derive(Clone, Copy, Debug, PartialEq, Eq, Structural)]
pub struct StyleHints {
    pub popup_as_menu: bool,
    pub show_decoration_selected: bool,
}

/// The two presentation modes of a row. Layout measurement and rendering
/// must resolve the mode the same way, so both go through [`mode_spec`] and
/// [`resolve_mode`].
#[derive(Clone, Copy, Debug, PartialEq, Eq, Structural)]
pub enum RenderMode {
    /// The row is an entry of a combo-box popup that the host styles as a
    /// menu: menu-item semantics, text only, no alternating shading.
    PopupMenu,
    /// An ordinary item-view row.
    Row,
}

/// The one rule deciding the presentation mode: popup-menu semantics exactly
/// when the row is composed into a combo box and the host styles combo-box
/// popups as menus.
pub open spec fn mode_spec(combobox: bool, popup_as_menu: bool) -> RenderMode {
    if combobox && popup_as_menu {
        RenderMode::PopupMenu
    } else {
        RenderMode::Row
    }
}

/// Resolves the presentation mode for one call; shared by layout measurement
/// and rendering so the two can never disagree.
pub fn resolve_mode(combobox: bool, hints: &StyleHints) -> (mode: RenderMode)
    ensures
        mode == mode_spec(combobox, hints.popup_as_menu),
{
    if combobox && hints.popup_as_menu {
        RenderMode::PopupMenu
    } else {
        RenderMode::Row
    }
}

/// Whether a row index selects the alternate shading of alternating-row
/// coloring: exactly the odd indices, whatever their sign or magnitude.
pub open spec fn is_alternate_index(index: int) -> bool {
    index % 2 == 1
}

/// Where a row's decoration (icon) is placed.
#[derive(Clone, Copy, Debug, PartialEq, Eq, Structural)]
pub enum DecorationPosition {
    Left,
    Right,
    Top,
    Bottom,
}

/// Horizontal part of an alignment.
#[derive(Clone, Copy, Debug, PartialEq, Eq, Structural)]
pub enum HorizontalAlignment {
    Left,
    Center,
    Right,
}

/// Vertical part of an alignment.
#[derive(Clone, Copy, Debug, PartialEq, Eq, Structural)]
pub enum VerticalAlignment {
    Top,
    Center,
    Bottom,
}

/// A two-axis alignment.
#[derive(Clone, Copy, Debug, PartialEq, Eq, Structural)]
pub struct Alignment {
    pub horizontal: HorizontalAlignment,
    pub vertical: VerticalAlignment,
}

/// The description a row sends to the style engine when it is measured with
/// item-view semantics.
#[derive(Clone, Debug)]
pub struct RowSizeQuery {
    pub decoration_position: DecorationPosition,
    pub decoration_alignment: Alignment,
    pub display_alignment: Alignment,
    pub show_decoration_selected: bool,
    pub alternate: bool,
    pub has_display: bool,
    pub text: String,
}

/// Mathematical image of a [`RowSizeQuery`].
#[verifier::ext_equal]
pub struct RowSizeQueryV {
    pub decoration_position: DecorationPosition,
    pub decoration_alignment: Alignment,
    pub display_alignment: Alignment,
    pub show_decoration_selected: bool,
    pub alternate: bool,
    pub has_display: bool,
    pub text: Seq<char>,
}

impl View for RowSizeQuery {
    type V = RowSizeQueryV;

    open spec fn view(&self) -> RowSizeQueryV {
        RowSizeQueryV {
            decoration_position: self.decoration_position,
            decoration_alignment: self.decoration_alignment,
            display_alignment: self.display_alignment,
            show_decoration_selected: self.show_decoration_selected,
            alternate: self.alternate,
            has_display: self.has_display,
            text: self.text@,
        }
    }
}

/// What a row asks the style engine to measure: a menu entry (text already
/// escaped) or an item-view row.
#[derive(Clone, Debug)]
pub enum StyleQuery {
    MenuItem { text: String },
    ItemViewRow { option: RowSizeQuery },
}

/// Mathematical image of a [`StyleQuery`].
#[verifier::ext_equal]
pub enum StyleQueryV {
    MenuItem { text: Seq<char> },
    ItemViewRow { option: RowSizeQueryV },
}

impl View for StyleQuery {
    type V = StyleQueryV;

    open spec fn view(&self) -> StyleQueryV {
        match self {
            StyleQuery::MenuItem { text } => (StyleQueryV::MenuItem { text: text@ }),
            StyleQuery::ItemViewRow { option } => (
                StyleQueryV::ItemViewRow { option: option@ }
            ),
        }
    }
}

/// The item-view measurement description for a row with the given index and
/// text: decoration on the left and centered, text left-aligned and
/// vertically centered, decoration-on-selection as the host hints, alternate
/// shading exactly on odd indices, and display content always present.
pub open spec fn row_size_query_spec(
    index: int,
    text: Seq<char>,
    show_decoration_selected: bool,
) -> RowSizeQueryV {
    RowSizeQueryV {
        decoration_position: DecorationPosition::Left,
        decoration_alignment: (Alignment {
            horizontal: HorizontalAlignment::Center,
            vertical: VerticalAlignment::Center,
        }),
        display_alignment: (Alignment {
            horizontal: HorizontalAlignment::Left,
            vertical: VerticalAlignment::Center,
        }),
        show_decoration_selected: show_decoration_selected,
        alternate: is_alternate_index(index),
        has_display: true,
        text: text,
    }
}

/// The measurement description a row with the given attributes sends to the
/// style engine: menu-item semantics (with the text escaped) exactly when
/// [`mode_spec`] resolves to popup-menu mode, item-view semantics otherwise.
pub open spec fn layout_query_spec(
    index: int,
    text: Seq<char>,
    combobox: bool,
    hints: StyleHints,
) -> StyleQueryV {
    if mode_spec(combobox, hints.popup_as_menu) == RenderMode::PopupMenu {
        StyleQueryV::MenuItem { text: escaped_amp(text) }
    } else {
        StyleQueryV::ItemViewRow {
            option: row_size_query_spec(index, text, hints.show_decoration_selected),
        }
    }
}

/// The dimension of a measured size that a layout pass along the given
/// orientation cares about.
pub open spec fn size_along_spec(orientation: Orientation, s: Size) -> u32 {
    match orientation {
        Orientation::Horizontal => s.width,
        Orientation::Vertical => s.height,
    }
}

/// The layout answer derived from the host's measured size: the relevant
/// dimension becomes both the minimum and the preferred extent.
pub open spec fn layout_info_spec(orientation: Orientation, s: Size) -> LayoutInfo {
    LayoutInfo {
        min: size_along_spec(orientation, s),
        preferred: size_along_spec(orientation, s),
    }
}

} // verus!
