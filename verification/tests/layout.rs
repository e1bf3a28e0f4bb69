use native_list_item::item::NativeStandardListViewItem;
use native_list_item::item::StandardListViewItem;
use native_list_item::style::LayoutInfo;
use native_list_item::style::Orientation;
use native_list_item::style::Size;
use native_list_item::style::StyleHints;
use native_list_item::style::StyleQuery;

fn row(index: i32, text: &str, combobox: bool) -> NativeStandardListViewItem {
    let mut it = NativeStandardListViewItem::default();
    it.index = index;
    it.item = StandardListViewItem { text: text.to_string() };
    it.combobox = combobox;
    it
}

const ROW_HINTS: StyleHints = StyleHints { popup_as_menu: false, show_decoration_selected: true };
const MENU_HINTS: StyleHints = StyleHints { popup_as_menu: true, show_decoration_selected: false };

fn row_alternate(index: i32) -> bool {
    match row(index, "x", false).layout_query(&ROW_HINTS) {
        StyleQuery::ItemViewRow { option } => {
            assert!(option.has_display);
            option.alternate
        }
        StyleQuery::MenuItem { .. } => panic!("row state must measure as an item-view row"),
    }
}

#[test]
fn alternate_shading_iff_odd_index() {
    assert!(!row_alternate(0));
    assert!(row_alternate(1));
    assert!(!row_alternate(2));
    assert!(row_alternate(3));
}

#[test]
fn alternate_shading_for_negative_and_large_indices() {
    assert!(row_alternate(-1));
    assert!(!row_alternate(-2));
    assert!(row_alternate(-3));
    assert!(row_alternate(i32::MAX));
    assert!(!row_alternate(i32::MIN));
    assert!(row_alternate(i32::MIN + 1));
}

#[test]
fn layout_info_picks_the_axis_and_equates_min_and_preferred() {
    let it = row(0, "x", false);
    let s = Size { width: 77, height: 21 };
    let h = it.layout_info(Orientation::Horizontal, s);
    assert_eq!(h, LayoutInfo { min: 77, preferred: 77 });
    let v = it.layout_info(Orientation::Vertical, s);
    assert_eq!(v, LayoutInfo { min: 21, preferred: 21 });
}

#[test]
fn repeated_measurement_is_deterministic() {
    // With unchanged attributes and hints, the adapter sends the identical
    // query both times, so a pure style engine answers identically.
    let it = row(5, "Banana", false);
    let q1 = it.layout_query(&ROW_HINTS);
    let q2 = it.layout_query(&ROW_HINTS);
    match (q1, q2) {
        (StyleQuery::ItemViewRow { option: a }, StyleQuery::ItemViewRow { option: b }) => {
            assert_eq!(a.text, b.text);
            assert_eq!(a.alternate, b.alternate);
            assert_eq!(a.has_display, b.has_display);
            assert_eq!(a.show_decoration_selected, b.show_decoration_selected);
            assert_eq!(a.decoration_position, b.decoration_position);
            assert_eq!(a.decoration_alignment, b.decoration_alignment);
            assert_eq!(a.display_alignment, b.display_alignment);
        }
        _ => panic!("both measurements must use the item-view row description"),
    }
    let s = Size { width: 42, height: 19 };
    assert_eq!(
        it.layout_info(Orientation::Vertical, s),
        it.layout_info(Orientation::Vertical, s)
    );
}

#[test]
fn measurement_ignores_selection_and_hover() {
    let plain = row(5, "Banana", false);
    let mut busy = row(5, "Banana", false);
    busy.is_selected = true;
    busy.has_hover = true;
    match (plain.layout_query(&ROW_HINTS), busy.layout_query(&ROW_HINTS)) {
        (StyleQuery::ItemViewRow { option: a }, StyleQuery::ItemViewRow { option: b }) => {
            assert_eq!(a.text, b.text);
            assert_eq!(a.alternate, b.alternate);
        }
        _ => panic!("both must use the item-view row description"),
    }
}

#[test]
fn combobox_with_popup_as_menu_measures_as_menu_item() {
    // The measured size is the menu-item answer, not the row answer.
    let it = row(0, "Apple", true);
    let q = it.layout_query(&MENU_HINTS);
    let menu_size = Size { width: 80, height: 22 };
    let row_size = Size { width: 120, height: 30 };
    // A stand-in for the host's style engine: it measures menu entries and
    // item-view rows differently.
    let measured = match q {
        StyleQuery::MenuItem { text } => {
            assert_eq!(text, "Apple");
            menu_size
        }
        StyleQuery::ItemViewRow { .. } => row_size,
    };
    assert_eq!(
        it.layout_info(Orientation::Horizontal, measured),
        LayoutInfo { min: 80, preferred: 80 }
    );
    assert_eq!(
        it.layout_info(Orientation::Vertical, measured),
        LayoutInfo { min: 22, preferred: 22 }
    );
}

#[test]
fn combobox_without_popup_as_menu_measures_as_row() {
    let it = row(2, "Apple", true);
    match it.layout_query(&ROW_HINTS) {
        StyleQuery::ItemViewRow { option } => {
            assert_eq!(option.text, "Apple");
            assert!(!option.alternate);
        }
        StyleQuery::MenuItem { .. } => {
            panic!("without the popup-as-menu hint the row description must be used")
        }
    }
}

#[test]
fn menu_query_escapes_ampersands_row_query_does_not() {
    let menu = row(0, "Fish & Chips", true);
    match menu.layout_query(&MENU_HINTS) {
        StyleQuery::MenuItem { text } => assert_eq!(text, "Fish && Chips"),
        StyleQuery::ItemViewRow { .. } => panic!("must measure as a menu item"),
    }
    let plain = row(0, "Fish & Chips", false);
    match plain.layout_query(&MENU_HINTS) {
        StyleQuery::ItemViewRow { option } => assert_eq!(option.text, "Fish & Chips"),
        StyleQuery::MenuItem { .. } => panic!("must measure as an item-view row"),
    }
}
