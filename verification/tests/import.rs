//! Loading real database text through the parser into the document model,
//! and the display records resolved against the overlay.

use roxy_dbc::dbc::{ByteOrder, EditableDbcData, SignalBound, SignalOverride, ValueType};
use roxy_dbc::edit_history::{History, Operation};
use roxy_dbc::ui::view::MessageView;

const SAMPLE: &str = r#"VERSION "0.1"

NS_ :
    NS_DESC_
    CM_
    BA_DEF_
    BA_
    VAL_
    CAT_DEF_
    CAT_
    FILTER
    BA_DEF_DEF_
    EV_DATA_
    ENVVAR_DATA_
    SGTYPE_
    SGTYPE_VAL_
    BA_DEF_SGTYPE_
    BA_SGTYPE_
    SIG_TYPE_REF_
    VAL_TABLE_
    SIG_GROUP_
    SIG_VALTYPE_
    SIGTYPE_VALTYPE_
    BO_TX_BU_
    BA_DEF_REL_
    BA_REL_
    BA_DEF_DEF_REL_
    BU_SG_REL_
    BU_EV_REL_
    BU_BO_REL_
    SG_MUL_VAL_

BS_:

BU_: ECU1 ECU2

BO_ 1600 Speed: 8 ECU1
 SG_ WheelSpeed : 0|16@1+ (0.25,0) [0|16383] "km/h" ECU2
 SG_ Direction : 16|2@1+ (1,0) [0|3] "" ECU2

BO_ 2000 WebData_2000: 4 ECU2
 SG_ Signal_8 : 24|8@1+ (1,0) [0|255] "" ECU1

CM_ BO_ 1600 "vehicle speed report";
"#;

#[test]
fn load_dbc_text_builds_the_base_document() {
    let mut ed = EditableDbcData::new();
    ed.load_dbc_text(SAMPLE).expect("parse sample");

    let all = ed.get_all_messages();
    assert_eq!(all.len(), 2);

    let speed = ed.get_message_ref_by_id(1600).expect("Speed present");
    assert_eq!(speed.message_name(), "Speed");
    assert_eq!(speed.message_size(), 8);
    let signals = speed.signals();
    assert_eq!(signals.len(), 2);
    assert_eq!(signals[0].name, "WheelSpeed");
    assert_eq!(signals[0].start_bit, 0);
    assert_eq!(signals[0].signal_size, 16);
    assert_eq!(signals[0].byte_order, ByteOrder::LittleEndian);
    assert_eq!(signals[0].value_type, ValueType::Unsigned);
    assert_eq!(signals[0].factor_bits, 0.25f64.to_bits());
    assert_eq!(signals[0].offset_bits, 0.0f64.to_bits());
    assert_eq!(signals[0].minimum, SignalBound::Unsigned(0));
    assert_eq!(signals[0].maximum, SignalBound::Unsigned(16383));
    assert_eq!(signals[0].unit, "km/h");

    // the comment section reaches the message
    assert_eq!(ed.get_message_comment(1600), "vehicle speed report");

    let web = ed.get_message_ref_by_id(2000).expect("WebData_2000 present");
    assert_eq!(web.message_name(), "WebData_2000");
    assert_eq!(web.message_size(), 4);
    assert_eq!(web.signals()[0].name, "Signal_8");
    assert_eq!(web.signals()[0].start_bit, 24);
    assert_eq!(web.signals()[0].maximum, SignalBound::Unsigned(255));
}

#[test]
fn load_dbc_text_rejects_garbage() {
    let mut ed = EditableDbcData::new();
    let r = ed.load_dbc_text("this is not a database");
    assert!(r.is_err());
    assert!(ed.get_all_messages().is_empty());
}

#[test]
fn message_view_resolves_signal_overrides() {
    let mut ed = EditableDbcData::new();
    ed.load_dbc_text(SAMPLE).expect("parse sample");

    // before any override the view mirrors the file
    let mref = ed.get_message_ref_by_id(1600).unwrap();
    let view = MessageView::from_message_ref(&mref, &ed);
    assert_eq!(view.message_id(), 1600);
    assert_eq!(view.message_name(), "Speed");
    assert_eq!(view.signals.len(), 2);
    assert_eq!(view.signals[0].name, "WheelSpeed");
    assert_eq!(view.signals[0].comment, "");

    // a recorded override replaces the matching signal in the view
    let ov = SignalOverride {
        name: "WheelSpeed".to_string(),
        start_bit: 8,
        signal_size: 12,
        byte_order: ByteOrder::BigEndian,
        value_type: ValueType::Signed,
        factor_bits: 0.5f64.to_bits(),
        offset_bits: 1.0f64.to_bits(),
        minimum: SignalBound::FloatBits(0.0f64.to_bits()),
        maximum: SignalBound::FloatBits(100.0f64.to_bits()),
        unit: "m/s".to_string(),
        comment: "tuned".to_string(),
    };
    ed.set_signal_override(1600, "WheelSpeed".to_string(), ov);

    let mref = ed.get_message_ref_by_id(1600).unwrap();
    let view = MessageView::from_message_ref(&mref, &ed);
    assert_eq!(view.signals[0].name, "WheelSpeed");
    assert_eq!(view.signals[0].start_bit, 8);
    assert_eq!(view.signals[0].signal_size, 12);
    assert_eq!(view.signals[0].byte_order, ByteOrder::BigEndian);
    assert_eq!(view.signals[0].unit, "m/s");
    assert_eq!(view.signals[0].comment, "tuned");
    // the untouched signal still comes from the file
    assert_eq!(view.signals[1].name, "Direction");
    assert_eq!(view.signals[1].start_bit, 16);

    // taking the override back restores the file's values
    ed.remove_signal_override(1600, "WheelSpeed");
    let mref = ed.get_message_ref_by_id(1600).unwrap();
    let view = MessageView::from_message_ref(&mref, &ed);
    assert_eq!(view.signals[0].start_bit, 0);
    assert_eq!(view.signals[0].unit, "km/h");
}

#[test]
fn signal_override_round_trip_through_history() {
    let mut ed = EditableDbcData::new();
    ed.load_dbc_text(SAMPLE).expect("parse sample");
    let mut history = History::new(10);

    let ov = SignalOverride {
        name: "Direction".to_string(),
        start_bit: 18,
        signal_size: 2,
        byte_order: ByteOrder::LittleEndian,
        value_type: ValueType::Unsigned,
        factor_bits: 1.0f64.to_bits(),
        offset_bits: 0.0f64.to_bits(),
        minimum: SignalBound::Unsigned(0),
        maximum: SignalBound::Unsigned(3),
        unit: String::new(),
        comment: String::new(),
    };
    // no override existed before, so undoing must remove the entry again
    let op = Operation::ModifySignal {
        message_id: 1600,
        signal_name: "Direction".to_string(),
        old_override: None,
        new_override: ov,
    };
    history.apply_new(op, &mut ed).unwrap();
    assert!(ed.get_signal_override(1600, "Direction").is_some());

    history.undo(&mut ed).unwrap();
    assert!(ed.get_signal_override(1600, "Direction").is_none());

    history.redo(&mut ed).unwrap();
    let got = ed.get_signal_override(1600, "Direction").unwrap();
    assert_eq!(got.start_bit, 18);
}

#[test]
fn message_view_from_sample() {
    // Load a sample database held as text
    let mut editable = EditableDbcData::new();
    editable.load_dbc_text(SAMPLE).expect("failed to load sample dbc");

    let msgs = editable.get_all_messages();
    assert!(!msgs.is_empty(), "no messages found in sample dbc");

    let msg_ref = &msgs[0];
    let view = MessageView::from_message_ref(msg_ref, &editable);
    assert!(!view.message_name.is_empty());
    assert!(view.signals.len() > 0, "message should contain signals");
}
