//! The history engine driven against the editable document: apply, undo,
//! redo, branch truncation and retention.

use roxy_dbc::dbc::{EditableDbcData, MessageOverride};
use roxy_dbc::edit_history::{EditError, History, Operation};

fn msg(id: u32, name: &str) -> MessageOverride {
    MessageOverride {
        message_id: id,
        message_name: name.to_string(),
        message_size: 8,
        transmitter: None,
        comment: Some("c".to_string()),
        signals: vec![],
    }
}

#[test]
fn add_rename_undo_redo() {
    let mut state = EditableDbcData::new();
    let mut history = History::new(100);

    // start empty, add message
    let m = msg(1, "Msg1");
    let add = Operation::AddMessage { message: m.clone() };
    history.apply_new(add, &mut state).unwrap();
    assert!(state.get_message_ref_by_id(1).is_some());
    assert!(history.can_undo());
    assert!(!history.can_redo());

    // rename
    let op = Operation::RenameMessage {
        message_id: 1,
        old_name: "Msg1".to_string(),
        new_name: "X".to_string(),
    };
    history.apply_new(op, &mut state).unwrap();
    assert_eq!(state.get_message_name(1, "Msg1"), "X");

    // undo rename
    history.undo(&mut state).unwrap();
    assert_eq!(state.get_message_name(1, "Msg1"), "Msg1");
    assert!(history.can_redo());

    // redo rename
    history.redo(&mut state).unwrap();
    assert_eq!(state.get_message_name(1, "Msg1"), "X");

    // undo rename, undo add => msg removed
    history.undo(&mut state).unwrap();
    history.undo(&mut state).unwrap();
    assert!(state.get_message_ref_by_id(1).is_none());

    // redo add, redo rename
    history.redo(&mut state).unwrap();
    history.redo(&mut state).unwrap();
    assert!(state.get_message_ref_by_id(1).is_some());
    assert_eq!(state.get_message_name(1, "Msg1"), "X");
}

#[test]
fn delete_undo_redo() {
    let mut state = EditableDbcData::new();
    let mut history = History::new(100);

    let m = msg(2, "Msg1");
    state.add_message(m.clone());

    let del = Operation::DeleteMessage { message: m.clone() };
    history.apply_new(del, &mut state).unwrap();
    assert!(state.get_message_ref_by_id(2).is_none());

    // undo delete
    history.undo(&mut state).unwrap();
    assert!(state.get_message_ref_by_id(2).is_some());

    // redo delete
    history.redo(&mut state).unwrap();
    assert!(state.get_message_ref_by_id(2).is_none());
}

#[test]
fn composite_operation() {
    let mut state = EditableDbcData::new();
    let mut history = History::new(100);

    let m1 = msg(10, "A");
    let m2 = msg(11, "B");

    let op = Operation::Composite(vec![
        Operation::AddMessage { message: m1.clone() },
        Operation::AddMessage { message: m2.clone() },
    ]);

    history.apply_new(op, &mut state).unwrap();
    assert!(state.get_message_ref_by_id(10).is_some());
    assert!(state.get_message_ref_by_id(11).is_some());

    history.undo(&mut state).unwrap();
    assert!(state.get_message_ref_by_id(10).is_none());
    assert!(state.get_message_ref_by_id(11).is_none());

    history.redo(&mut state).unwrap();
    assert!(state.get_message_ref_by_id(10).is_some());
    assert!(state.get_message_ref_by_id(11).is_some());
}

#[test]
fn branch_truncation_discards_redo() {
    let mut state = EditableDbcData::new();
    let mut history = History::new(100);

    let a = Operation::RenameMessage {
        message_id: 5,
        old_name: String::new(),
        new_name: "a".to_string(),
    };
    let b = Operation::RenameMessage {
        message_id: 5,
        old_name: "a".to_string(),
        new_name: "b".to_string(),
    };
    let c = Operation::RenameMessage {
        message_id: 5,
        old_name: "a".to_string(),
        new_name: "c".to_string(),
    };
    history.apply_new(a, &mut state).unwrap();
    history.apply_new(b, &mut state).unwrap();
    history.undo(&mut state).unwrap();
    assert!(history.can_redo());
    history.apply_new(c, &mut state).unwrap();

    // the undone rename to "b" is gone for good
    assert!(!history.can_redo());
    assert_eq!(history.redo(&mut state), Err(EditError::NothingToRedo));
    assert_eq!(history.len(), 2);
    assert_eq!(state.get_message_name(5, "Orig"), "c");
    assert_eq!(
        history.last_redo_description(),
        None::<String>
    );
}

#[test]
fn retention_evicts_oldest() {
    let mut state = EditableDbcData::new();
    let mut history = History::new(2);

    let n1 = Operation::RenameMessage {
        message_id: 7,
        old_name: String::new(),
        new_name: "n1".to_string(),
    };
    let n2 = Operation::RenameMessage {
        message_id: 7,
        old_name: "n1".to_string(),
        new_name: "n2".to_string(),
    };
    let n3 = Operation::RenameMessage {
        message_id: 7,
        old_name: "n2".to_string(),
        new_name: "n3".to_string(),
    };
    history.apply_new(n1, &mut state).unwrap();
    history.apply_new(n2, &mut state).unwrap();
    history.apply_new(n3, &mut state).unwrap();

    // only two operations are retained
    assert_eq!(history.len(), 2);
    assert!(history.can_undo());

    // undoing both retained steps reaches the earliest retained state,
    // not the true initial one
    history.undo(&mut state).unwrap();
    history.undo(&mut state).unwrap();
    assert_eq!(state.get_message_name(7, "Orig"), "n1");
    assert!(!history.can_undo());
    assert_eq!(history.undo(&mut state), Err(EditError::NothingToUndo));
}

#[test]
fn history_symmetry_many_steps() {
    let mut state = EditableDbcData::new();
    let mut history = History::new(100);

    let ops = vec![
        Operation::AddMessage { message: msg(21, "First") },
        Operation::RenameMessage {
            message_id: 21,
            old_name: String::new(),
            new_name: "Renamed".to_string(),
        },
        Operation::ModifyMessageComment {
            message_id: 21,
            old_comment: String::new(),
            new_comment: "note".to_string(),
        },
        Operation::ModifyMessageSize { message_id: 21, old_size: 8, new_size: 4 },
    ];
    for op in ops {
        history.apply_new(op, &mut state).unwrap();
    }
    assert_eq!(state.get_message_name(21, ""), "Renamed");
    assert_eq!(state.get_message_comment(21), "note");
    assert_eq!(state.get_message_size(21, 8), 4);

    for _ in 0..4 {
        history.undo(&mut state).unwrap();
    }
    assert!(state.get_message_ref_by_id(21).is_none());
    assert_eq!(state.get_message_comment(21), "");

    for _ in 0..4 {
        history.redo(&mut state).unwrap();
    }
    assert_eq!(state.get_message_name(21, ""), "Renamed");
    assert_eq!(state.get_message_comment(21), "note");
    assert_eq!(state.get_message_size(21, 8), 4);
}

#[test]
fn descriptions_name_the_pending_steps() {
    let mut state = EditableDbcData::new();
    let mut history = History::new(10);
    assert_eq!(history.last_undo_description(), None::<String>);
    assert_eq!(history.last_redo_description(), None::<String>);

    let op = Operation::RenameMessage {
        message_id: 1600,
        old_name: "Speed".to_string(),
        new_name: "VehicleSpeed".to_string(),
    };
    history.apply_new(op, &mut state).unwrap();
    assert_eq!(
        history.last_undo_description(),
        Some("RenameMessage 1600: 'Speed' -> 'VehicleSpeed'".to_string())
    );

    let op2 = Operation::ModifyMessageId { original_message_id: 1600, old_id: 1600, new_id: 2042 };
    history.apply_new(op2, &mut state).unwrap();
    assert_eq!(
        history.last_undo_description(),
        Some("ModifyMessageId 1600: 0x640 -> 0x7FA".to_string())
    );

    history.undo(&mut state).unwrap();
    assert_eq!(
        history.last_redo_description(),
        Some("ModifyMessageId 1600: 0x640 -> 0x7FA".to_string())
    );

    let comp = Operation::Composite(vec![
        Operation::ModifyMessageSize { message_id: 1600, old_size: 8, new_size: 4 },
        Operation::ModifyMessageTransmitter {
            message_id: 1600,
            old_transmitter: String::new(),
            new_transmitter: "ECU1".to_string(),
        },
    ]);
    history.apply_new(comp, &mut state).unwrap();
    assert_eq!(history.last_undo_description(), Some("Composite(2 ops)".to_string()));
    assert!(!history.can_redo());
}
