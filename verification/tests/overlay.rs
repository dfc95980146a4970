//! The overlay data model: fallback reads, empty-removes-override rules,
//! add/delete duality, search, and the lookup by identifier.

use roxy_dbc::dbc::{BaseMessage, DbcData, EditableDbcData, MessageOverride, MessageRef};
use roxy_dbc::edit_history::{History, Operation};

fn base_message(id: u32, name: &str, size: u64) -> BaseMessage {
    BaseMessage {
        message_id: id,
        message_name: name.to_string(),
        message_size: size,
        transmitter: None,
        comment: None,
        signals: vec![],
    }
}

fn overlay_with_base(messages: Vec<BaseMessage>) -> EditableDbcData {
    let base = DbcData { file_path: String::new(), dbc: Some(messages), error_message: String::new() };
    EditableDbcData::from_dbc_data(base)
}

fn custom(id: u32, name: &str) -> MessageOverride {
    MessageOverride {
        message_id: id,
        message_name: name.to_string(),
        message_size: 8,
        transmitter: None,
        comment: None,
        signals: vec![],
    }
}

#[test]
fn name_override_falls_back_and_empty_clears() {
    let mut ed = EditableDbcData::new();
    assert_eq!(ed.get_message_name(0x10, "Orig"), "Orig");
    ed.set_message_name(0x10, "New".to_string());
    assert_eq!(ed.get_message_name(0x10, "Orig"), "New");
    ed.set_message_name(0x10, String::new());
    assert_eq!(ed.get_message_name(0x10, "Orig"), "Orig");
    assert!(!ed.has_modifications());
}

#[test]
fn id_size_transmitter_override_rules() {
    let mut ed = EditableDbcData::new();
    assert_eq!(ed.get_message_id(7), 7);
    ed.set_message_id(7, 9);
    assert_eq!(ed.get_message_id(7), 9);
    // remapping an identifier to itself clears the entry
    ed.set_message_id(7, 7);
    assert_eq!(ed.get_message_id(7), 7);
    assert!(!ed.has_modifications());

    assert_eq!(ed.get_message_size(7, 8), 8);
    ed.set_message_size(7, 4);
    assert_eq!(ed.get_message_size(7, 8), 4);

    assert_eq!(ed.get_message_transmitter(7), "");
    ed.set_message_transmitter(7, "ECU1".to_string());
    assert_eq!(ed.get_message_transmitter(7), "ECU1");
    ed.set_message_transmitter(7, String::new());
    assert_eq!(ed.get_message_transmitter(7), "");
}

#[test]
fn comment_prefers_override_then_base() {
    let mut with_comment = base_message(0x20, "WithNote", 8);
    with_comment.comment = Some("from the file".to_string());
    let mut ed = overlay_with_base(vec![with_comment, base_message(0x21, "Bare", 8)]);

    assert_eq!(ed.get_message_comment(0x20), "from the file");
    assert_eq!(ed.get_message_comment(0x21), "");
    assert_eq!(ed.get_message_comment(0x99), "");

    ed.set_message_comment(0x20, "edited".to_string());
    assert_eq!(ed.get_message_comment(0x20), "edited");
    ed.set_message_comment(0x20, String::new());
    assert_eq!(ed.get_message_comment(0x20), "from the file");
}

#[test]
fn add_then_delete_is_no_edit_at_all() {
    let mut ed = overlay_with_base(vec![base_message(1, "One", 8)]);
    let m = custom(0x300, "Extra");
    ed.add_message(m.clone());
    assert!(ed.get_message_ref_by_id(0x300).is_some());
    ed.delete_message(0x300);
    assert!(ed.get_message_ref_by_id(0x300).is_none());
    assert!(!ed.has_modifications());
    assert_eq!(ed.modification_count(), 0);
    assert_eq!(ed.get_all_messages().len(), 1);
}

#[test]
fn delete_hides_base_message_and_add_clears_the_mark() {
    let mut ed = overlay_with_base(vec![base_message(1, "One", 8), base_message(2, "Two", 8)]);
    assert_eq!(ed.get_all_messages().len(), 2);
    ed.delete_message(1);
    assert_eq!(ed.get_all_messages().len(), 1);
    assert!(ed.get_message_ref_by_id(1).is_none());
    assert!(ed.has_modifications());
    // re-adding the identifier clears the delete mark
    ed.add_message(custom(1, "OneAgain"));
    let found = ed.get_message_ref_by_id(1).expect("visible again");
    assert_eq!(found.message_name(), "One");
    assert_eq!(ed.get_all_messages().len(), 3);
}

#[test]
fn visible_order_is_base_then_added() {
    let mut ed = overlay_with_base(vec![base_message(5, "B5", 8), base_message(3, "B3", 8)]);
    ed.add_message(custom(0x400, "C1"));
    ed.add_message(custom(0x200, "C2"));
    let ids: Vec<u32> = ed.get_all_messages().iter().map(|m| m.message_id()).collect();
    assert_eq!(ids, vec![5, 3, 0x400, 0x200]);
}

#[test]
fn search_matches_override_original_and_signal_names() {
    let mut speedy = base_message(0x11, "Engine", 8);
    speedy.signals.push(roxy_dbc::dbc::SignalRecord {
        name: "WheelSpeed".to_string(),
        start_bit: 0,
        signal_size: 16,
        byte_order: roxy_dbc::dbc::ByteOrder::LittleEndian,
        value_type: roxy_dbc::dbc::ValueType::Unsigned,
        factor_bits: 1.0f64.to_bits(),
        offset_bits: 0.0f64.to_bits(),
        minimum: roxy_dbc::dbc::SignalBound::Unsigned(0),
        maximum: roxy_dbc::dbc::SignalBound::Unsigned(65535),
        unit: "km/h".to_string(),
    });
    let mut ed = overlay_with_base(vec![speedy, base_message(0x12, "Brakes", 8)]);
    ed.add_message(custom(0x500, "Gearbox"));
    ed.set_message_name(0x12, "Suspension".to_string());

    // empty query lists everything
    assert_eq!(ed.search_messages("").len(), 3);

    // case-insensitive match on the original name
    let hits = ed.search_messages("ENGine");
    assert_eq!(hits.len(), 1);
    assert_eq!(hits[0].message_id(), 0x11);

    // match on a signal name
    let hits = ed.search_messages("wheelspeed");
    assert_eq!(hits.len(), 1);
    assert_eq!(hits[0].message_id(), 0x11);

    // match on the overridden name
    let hits = ed.search_messages("suspen");
    assert_eq!(hits.len(), 1);
    assert_eq!(hits[0].message_id(), 0x12);

    // match on an added message
    let hits = ed.search_messages("gear");
    assert_eq!(hits.len(), 1);
    assert_eq!(hits[0].message_id(), 0x500);

    // no match
    assert_eq!(ed.search_messages("nothing-here").len(), 0);
}

#[test]
fn rename_scenario_with_undo_and_redo() {
    // a document with one message id 0x640 named Speed
    let mut ed = overlay_with_base(vec![base_message(0x640, "Speed", 8)]);
    let mut history = History::new(100);

    ed.set_message_name(0x640, "VehicleSpeed".to_string());
    // re-reading through the overlay before recording the operation
    assert_eq!(ed.get_message_name(0x640, "Speed"), "VehicleSpeed");
    ed.set_message_name(0x640, "Speed".to_string());

    history
        .apply_new(
            Operation::RenameMessage {
                message_id: 0x640,
                old_name: "Speed".to_string(),
                new_name: "VehicleSpeed".to_string(),
            },
            &mut ed,
        )
        .unwrap();
    assert_eq!(ed.get_message_name(0x640, "Speed"), "VehicleSpeed");

    history.undo(&mut ed).unwrap();
    assert_eq!(ed.get_message_name(0x640, "Speed"), "Speed");

    history.redo(&mut ed).unwrap();
    assert_eq!(ed.get_message_name(0x640, "Speed"), "VehicleSpeed");
}

#[test]
fn message_ref_reads_both_origins_uniformly() {
    let mut base = base_message(0x30, "FromFile", 6);
    base.signals.push(roxy_dbc::dbc::SignalRecord {
        name: "S1".to_string(),
        start_bit: 4,
        signal_size: 12,
        byte_order: roxy_dbc::dbc::ByteOrder::BigEndian,
        value_type: roxy_dbc::dbc::ValueType::Signed,
        factor_bits: 0.5f64.to_bits(),
        offset_bits: 1.0f64.to_bits(),
        minimum: roxy_dbc::dbc::SignalBound::Signed(-10),
        maximum: roxy_dbc::dbc::SignalBound::Unsigned(10),
        unit: "deg".to_string(),
    });
    let mut ed = overlay_with_base(vec![base]);
    ed.add_message(custom(0x31, "Added"));

    let orig = ed.get_message_ref_by_id(0x30).unwrap();
    assert_eq!(orig.message_id(), 0x30);
    assert_eq!(orig.message_name(), "FromFile");
    assert_eq!(orig.message_size(), 6);
    assert_eq!(orig.signals().len(), 1);
    assert_eq!(orig.signals()[0].name, "S1");
    let copied = orig.to_message_override();
    assert_eq!(copied.message_id, 0x30);
    assert_eq!(copied.message_size, 6);
    assert_eq!(copied.signals.len(), 1);

    let added = ed.get_message_ref_by_id(0x31).unwrap();
    assert!(matches!(added, MessageRef::Custom(_)));
    assert_eq!(added.message_name(), "Added");
    assert_eq!(added.message_size(), 8);
}

#[test]
fn duplicate_and_placeholder_names() {
    let m = custom(0x123, "Original");
    let copy = m.duplicate(0x456);
    assert_eq!(copy.message_id, 0x456);
    assert_eq!(copy.message_name, "Original_Copy");
    assert_eq!(copy.message_size, m.message_size);

    let fresh = MessageOverride::new(0xAB);
    assert_eq!(fresh.message_id, 0xAB);
    assert_eq!(fresh.message_name, "NewMessage_0AB");
    assert_eq!(fresh.message_size, 8);
    assert!(fresh.signals.is_empty());

    let wide = MessageOverride::new(0x1FFFF);
    assert_eq!(wide.message_name, "NewMessage_1FFFF");
}

#[test]
fn a_lone_signal_override_counts_as_a_modification() {
    let mut ed = EditableDbcData::new();
    assert!(!ed.has_modifications());
    ed.set_signal_override(
        0x40,
        "OnlySig".to_string(),
        roxy_dbc::dbc::SignalOverride {
            name: "OnlySig".to_string(),
            start_bit: 0,
            signal_size: 8,
            byte_order: roxy_dbc::dbc::ByteOrder::LittleEndian,
            value_type: roxy_dbc::dbc::ValueType::Unsigned,
            factor_bits: 1.0f64.to_bits(),
            offset_bits: 0.0f64.to_bits(),
            minimum: roxy_dbc::dbc::SignalBound::Unsigned(0),
            maximum: roxy_dbc::dbc::SignalBound::Unsigned(255),
            unit: String::new(),
            comment: String::new(),
        },
    );
    assert!(ed.has_modifications());
    // the count stays over the message-level tables
    assert_eq!(ed.modification_count(), 0);
    ed.remove_signal_override(0x40, "OnlySig");
    assert!(!ed.has_modifications());
}

#[test]
fn modification_count_sums_the_tables() {
    let mut ed = EditableDbcData::new();
    assert_eq!(ed.modification_count(), 0);
    ed.set_message_name(1, "A".to_string());
    ed.set_message_comment(2, "B".to_string());
    ed.set_message_id(3, 4);
    ed.set_message_size(5, 6);
    ed.set_message_transmitter(7, "T".to_string());
    ed.add_message(custom(0x700, "X"));
    ed.delete_message(0x999);
    assert_eq!(ed.modification_count(), 7);
    assert!(ed.has_modifications());
}
