//! The interface state layer: dialogs, the message table, clipboard commands
//! and identifier suggestions.

use roxy_dbc::dbc::{EditableDbcData, MessageOverride};
use roxy_dbc::ui::dbc_window::{MessageTable, SortDirection};
use roxy_dbc::ui::dialogs;
use roxy_dbc::ui::menu;
use roxy_dbc::ui::message_create_window::MessageCreateDialog;
use roxy_dbc::ui::state::{DbcWindowState, SignalWindowState, UiState};
use roxy_dbc::ui::view::MessageView;

fn custom(id: u32, name: &str, size: u8) -> MessageOverride {
    MessageOverride {
        message_id: id,
        message_name: name.to_string(),
        message_size: size,
        transmitter: None,
        comment: None,
        signals: vec![],
    }
}

fn one_window_state(msgs: Vec<MessageOverride>) -> UiState {
    let mut ed = EditableDbcData::new();
    for m in msgs {
        ed.add_message(m);
    }
    let mut ui = UiState::default();
    ui.dbc_windows.push(DbcWindowState::new(0, ed));
    ui.last_focused_dbc_index = Some(0);
    ui
}

#[test]
fn create_dialog_validates_and_parses() {
    let mut d = MessageCreateDialog::new();
    assert!(!d.is_valid());
    d.open(3, 0x640);
    assert_eq!(d.id_buffer, "0x640");
    assert_eq!(d.size_buffer, "8");
    assert_eq!(d.parse_id(), Some(0x640));
    assert_eq!(d.parse_size(), Some(8));
    assert!(!d.is_valid());

    d.name_buffer = "  NewOne  ".to_string();
    assert!(d.is_valid());

    d.id_buffer = "123".to_string();
    assert_eq!(d.parse_id(), Some(123));
    d.id_buffer = "FF".to_string();
    assert_eq!(d.parse_id(), Some(0xFF));
    d.id_buffer = " 0X1a ".to_string();
    assert_eq!(d.parse_id(), Some(0x1A));
    d.id_buffer = "0xZZ".to_string();
    assert_eq!(d.parse_id(), None);
    assert!(!d.is_valid());
    d.id_buffer = "4294967295".to_string();
    assert_eq!(d.parse_id(), Some(u32::MAX));
    d.id_buffer = "4294967296".to_string();
    // too large for an identifier in decimal and in hexadecimal
    assert_eq!(d.parse_id(), None);

    d.id_buffer = "0x7FF".to_string();
    d.size_buffer = "9".to_string();
    assert_eq!(d.parse_size(), None);
    assert!(!d.is_valid());
    d.size_buffer = " +8 ".to_string();
    assert_eq!(d.parse_size(), Some(8));
    d.size_buffer = "0".to_string();
    assert_eq!(d.parse_size(), Some(0));

    d.close();
    assert!(!d.show);
}

#[test]
fn create_message_through_dialog() {
    let mut ui = one_window_state(vec![custom(0x100, "Taken", 8)]);
    ui.message_create_dialog.open(0, 0x200);
    ui.message_create_dialog.name_buffer = " Fresh ".to_string();
    ui.message_create_dialog.transmitter_buffer = "ECU9".to_string();
    dialogs::handle_create_message(&mut ui);
    let w = &ui.dbc_windows[0];
    let found = w.editable_data.get_message_ref_by_id(0x200).expect("created");
    assert_eq!(found.message_name(), "Fresh");
    assert_eq!(w.selected_message_id, Some(0x200));
    assert!(w.history.can_undo());

    // a taken identifier is refused with an error
    ui.message_create_dialog.open(0, 0x100);
    ui.message_create_dialog.name_buffer = "Again".to_string();
    let before = ui.dbc_windows[0].editable_data.get_all_messages().len();
    dialogs::handle_create_message(&mut ui);
    assert!(ui.error_dialog.show);
    assert_eq!(ui.dbc_windows[0].editable_data.get_all_messages().len(), before);
}

#[test]
fn edit_dialog_applies_changes_as_one_step() {
    let mut ui = one_window_state(vec![custom(0x50, "Old", 8)]);
    let record = custom(0x50, "Old", 8);
    ui.message_edit_dialog.open(0, &record, "old note");
    assert!(!ui.message_edit_dialog.has_changes());

    ui.message_edit_dialog.name_buffer = "NewName".to_string();
    ui.message_edit_dialog.comment_buffer = "new note".to_string();
    ui.message_edit_dialog.size_buffer = "4".to_string();
    assert!(ui.message_edit_dialog.has_changes());

    dialogs::apply_changes(&mut ui);
    let w = &ui.dbc_windows[0];
    assert_eq!(w.editable_data.get_message_name(0x50, "Old"), "NewName");
    assert_eq!(w.editable_data.get_message_comment(0x50), "new note");
    assert_eq!(w.editable_data.get_message_size(0x50, 8), 4);
    assert_eq!(w.history.len(), 1);
    // the originals follow, so nothing is pending any more
    assert!(!ui.message_edit_dialog.has_changes());

    // one undo reverts the whole grouped edit
    ui.dbc_windows[0].undo().unwrap();
    let w = &ui.dbc_windows[0];
    assert_eq!(w.editable_data.get_message_name(0x50, "Old"), "Old");
    assert_eq!(w.editable_data.get_message_comment(0x50), "old note");

    // reverting buffers brings the dialog back to its original values
    ui.message_edit_dialog.reset_to_original();
    assert_eq!(ui.message_edit_dialog.name_buffer, "NewName");
}

#[test]
fn signal_dialog_applies_validated_override() {
    let mut ui = one_window_state(vec![custom(0x60, "Host", 8)]);
    ui.signal_edit_dialog.open(0, 0x60);
    ui.signal_edit_dialog.name_buffer = " Sig ".to_string();
    ui.signal_edit_dialog.start_bit_buffer = "8".to_string();
    ui.signal_edit_dialog.size_buffer = "16".to_string();
    ui.signal_edit_dialog.unit_buffer = "rpm".to_string();
    dialogs::apply_signal_changes(
        &mut ui,
        2.0f64.to_bits(),
        0.0f64.to_bits(),
        0.0f64.to_bits(),
        100.0f64.to_bits(),
    );
    assert!(!ui.error_dialog.show);
    let w = &ui.dbc_windows[0];
    let ov = w.editable_data.get_signal_override(0x60, "Sig").expect("recorded");
    assert_eq!(ov.start_bit, 8);
    assert_eq!(ov.signal_size, 16);
    assert_eq!(ov.unit, "rpm");
    assert_eq!(ov.factor_bits, 2.0f64.to_bits());
    assert!(w.history.can_undo());

    // a width beyond the message is refused
    ui.signal_edit_dialog.size_buffer = "65".to_string();
    dialogs::apply_signal_changes(
        &mut ui,
        1.0f64.to_bits(),
        0.0f64.to_bits(),
        0.0f64.to_bits(),
        0.0f64.to_bits(),
    );
    assert!(ui.error_dialog.show);
    let ov = ui.dbc_windows[0].editable_data.get_signal_override(0x60, "Sig").unwrap();
    assert_eq!(ov.signal_size, 16);
}

#[test]
fn signal_windows_follow_signal_edits() {
    let mut ed = EditableDbcData::new();
    let mut host = custom(0x61, "Host", 8);
    host.signals.push(roxy_dbc::dbc::SignalRecord {
        name: "Sig".to_string(),
        start_bit: 0,
        signal_size: 8,
        byte_order: roxy_dbc::dbc::ByteOrder::LittleEndian,
        value_type: roxy_dbc::dbc::ValueType::Unsigned,
        factor_bits: 1.0f64.to_bits(),
        offset_bits: 0.0f64.to_bits(),
        minimum: roxy_dbc::dbc::SignalBound::Unsigned(0),
        maximum: roxy_dbc::dbc::SignalBound::Unsigned(255),
        unit: String::new(),
    });
    ed.add_message(host);
    let mut ui = UiState::default();
    ui.dbc_windows.push(DbcWindowState::new(0, ed));
    let mref = ui.dbc_windows[0].editable_data.get_message_ref_by_id(0x61).unwrap();
    let view = MessageView::from_message_ref(&mref, &ui.dbc_windows[0].editable_data);
    ui.signal_windows.push(SignalWindowState { id: 0, message: view, is_open: true, parent_dbc_id: 0 });

    ui.signal_edit_dialog.open(0, 0x61);
    ui.signal_edit_dialog.name_buffer = "Sig".to_string();
    ui.signal_edit_dialog.start_bit_buffer = "4".to_string();
    ui.signal_edit_dialog.size_buffer = "8".to_string();
    dialogs::apply_signal_changes(
        &mut ui,
        1.0f64.to_bits(),
        0.0f64.to_bits(),
        0.0f64.to_bits(),
        0.0f64.to_bits(),
    );
    assert_eq!(ui.signal_windows[0].message.signals[0].start_bit, 4);
}

#[test]
fn delete_is_blocked_by_open_signal_window() {
    let mut ui = one_window_state(vec![custom(0x70, "Guarded", 8)]);
    let mref = ui.dbc_windows[0].editable_data.get_message_ref_by_id(0x70).unwrap();
    let view = MessageView::from_message_ref(&mref, &ui.dbc_windows[0].editable_data);
    ui.signal_windows.push(SignalWindowState { id: 1, message: view, is_open: true, parent_dbc_id: 0 });

    menu::handle_delete_message(&mut ui, 0x70);
    assert!(ui.error_dialog.show);
    assert!(ui.dbc_windows[0].editable_data.get_message_ref_by_id(0x70).is_some());

    // with the signal window gone, the deletion goes through
    ui.signal_windows.clear();
    menu::handle_delete_message(&mut ui, 0x70);
    assert!(ui.dbc_windows[0].editable_data.get_message_ref_by_id(0x70).is_none());
}

#[test]
fn copy_and_paste_duplicate_under_fresh_identifier() {
    let mut ui = one_window_state(vec![custom(0x100, "Source", 8)]);
    assert!(!ui.has_clipboard_message());
    menu::handle_copy_message(&mut ui, 0x100);
    assert!(ui.has_clipboard_message());

    menu::handle_paste_message(&mut ui);
    let w = &ui.dbc_windows[0];
    // 0x100 is taken, so the paste lands on the next free identifier
    let pasted = w.editable_data.get_message_ref_by_id(0x101).expect("pasted");
    assert_eq!(pasted.message_name(), "Source_Copy");
    assert_eq!(w.selected_message_id, Some(0x101));
    assert!(w.history.can_undo());
}

#[test]
fn suggested_identifiers_skip_used_ones() {
    let ui = one_window_state(vec![custom(0x100, "A", 8), custom(0x101, "B", 8)]);
    assert_eq!(menu::generate_suggested_message_id(&ui.dbc_windows[0]), 0x102);
    assert_eq!(ui.generate_next_message_id(0), 0x102);
    assert_eq!(ui.generate_next_message_id(5), 0x100);

    let empty = one_window_state(vec![]);
    assert_eq!(menu::generate_suggested_message_id(&empty.dbc_windows[0]), 0x100);
    assert_eq!(empty.generate_next_message_id(0), 1);
}

#[test]
fn table_sorts_filters_and_selects() {
    let messages = vec![
        custom(3, "bravo", 2),
        custom(1, "Alpha", 8),
        custom(2, "charlie", 4),
    ];
    let mut t = MessageTable::new();
    t.update_sort(0, SortDirection::Ascending, &messages);
    t.update_filter("", &messages);
    assert_eq!(t.filtered_indicies(), &vec![1usize, 2, 0]);

    t.update_sort(1, SortDirection::Ascending, &messages);
    t.update_filter("", &messages);
    // names compare by character code, so the capital A sorts first
    assert_eq!(t.filtered_indicies(), &vec![1usize, 0, 2]);

    t.update_sort(2, SortDirection::Descending, &messages);
    t.update_filter("", &messages);
    assert_eq!(t.filtered_indicies(), &vec![1usize, 2, 0]);

    // filtering keeps the sort order and matches case-insensitively
    t.update_sort(0, SortDirection::Ascending, &messages);
    t.update_filter("AL", &messages);
    assert_eq!(t.filtered_indicies(), &vec![1usize]);
    t.update_filter("c", &messages);
    assert_eq!(t.filtered_indicies(), &vec![2usize]);

    t.init_sort_and_filter("", &messages);
    assert_eq!(t.filtered_indicies(), &vec![1usize, 2, 0]);
}

#[test]
fn selection_follows_clicks() {
    let messages = vec![custom(1, "a", 8), custom(2, "b", 8), custom(3, "c", 8)];
    let mut t = MessageTable::new();
    t.init_sort_and_filter("", &messages);

    t.select_index(1);
    t.ctrl_select_index(2);
    t.right_select_index(1);
    // a context click on a selected row keeps the selection
    t.ctrl_select_index(2);
    // toggled off again
    t.right_select_index(0);
    // a context click on an unselected row replaces the selection
    t.select_index(0);
}

#[test]
fn search_bar_hands_out_its_query() {
    let mut bar = roxy_dbc::ui::dbc_window::DbcSearchBar::default();
    assert_eq!(bar.query(), "");
    bar.query = "speed".to_string();
    assert_eq!(bar.query(), "speed");
}

#[test]
fn focused_window_is_borrowed_for_editing() {
    let mut ui = one_window_state(vec![custom(0x100, "A", 8)]);
    {
        let w = ui.get_focused_dbc_window().expect("focused window");
        w.search_query = "abc".to_string();
    }
    assert_eq!(ui.dbc_windows[0].search_query, "abc");

    ui.last_focused_dbc_index = None;
    assert!(ui.get_focused_dbc_window().is_none());
    ui.last_focused_dbc_index = Some(9);
    assert!(ui.get_focused_dbc_window().is_none());
}
