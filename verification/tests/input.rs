use native_list_item::events::FocusEvent;
use native_list_item::events::FocusEventResult;
use native_list_item::events::InputEventFilterResult;
use native_list_item::events::InputEventResult;
use native_list_item::events::KeyEvent;
use native_list_item::events::KeyEventResult;
use native_list_item::events::MouseEvent;
use native_list_item::item::NativeStandardListViewItem;

fn states() -> Vec<NativeStandardListViewItem> {
    let mut out = Vec::new();
    for &(sel, hov, combo) in
        &[(false, false, false), (true, false, false), (false, true, true), (true, true, true)]
    {
        let mut it = NativeStandardListViewItem::default();
        it.is_selected = sel;
        it.has_hover = hov;
        it.combobox = combo;
        it.index = 7;
        out.push(it);
    }
    out
}

#[test]
fn pointer_filter_always_forwards_and_ignores() {
    for it in states() {
        let events = [
            MouseEvent::Pressed { x: 1, y: 2 },
            MouseEvent::Released { x: 1, y: 2 },
            MouseEvent::Moved { x: 0, y: 0 },
            MouseEvent::Exit,
        ];
        for e in &events {
            assert_eq!(
                it.input_event_filter_before_children(e),
                InputEventFilterResult::ForwardAndIgnore
            );
        }
    }
}

#[test]
fn pointer_events_always_ignored() {
    for it in states() {
        assert_eq!(
            it.input_event(&MouseEvent::Pressed { x: 3, y: 4 }),
            InputEventResult::EventIgnored
        );
        assert_eq!(it.input_event(&MouseEvent::Exit), InputEventResult::EventIgnored);
    }
}

#[test]
fn key_events_always_ignored() {
    for it in states() {
        let e = KeyEvent { text: "a".to_string() };
        assert_eq!(it.key_event(&e), KeyEventResult::EventIgnored);
        let enter = KeyEvent { text: "\n".to_string() };
        assert_eq!(it.key_event(&enter), KeyEventResult::EventIgnored);
    }
}

#[test]
fn focus_events_always_ignored() {
    for it in states() {
        assert_eq!(it.focus_event(&FocusEvent::FocusIn), FocusEventResult::FocusIgnored);
        assert_eq!(it.focus_event(&FocusEvent::FocusOut), FocusEventResult::FocusIgnored);
    }
}
