//! Applying dialog input as edits: each apply reads the dialog fields,
//! builds one operation capturing old and new values, and commits it through
//! the window's history so it can be undone as a unit.

use crate::dbc::{
    set_comment_model, set_id_model, set_name_model, set_signal_model, set_size_model,
    set_transmitter_model, ByteOrder, MessageOverride, OverlayView, SignalBound, SignalOverride,
    SignalOverrideView, ValueType,
};
use crate::edit_history::Operation;
use crate::edit_history_integration::{apply_model, apply_ops};
use crate::numfmt::{push_dec_u64, push_hex_u64};
use crate::parse::{
    message_id_spec, message_size_spec, parse_message_id, parse_message_size, parse_u32_dec,
    parse_bounded_spec,
};
use crate::text::{str_trim, trim_spec};
use crate::ui::menu::used_id;
use crate::ui::signal_edit_window::SignalEditDialog;
use crate::ui::state::{
    comment_changed, id_changed, name_changed, pending_changes, size_changed,
    transmitter_changed, DbcWindowState, MessageEditDialog, UiState,
};
use crate::ui::view::{message_view_spec, MessageView, MessageViewSpec};
use vstd::prelude::*;

verus! {

/// The index of the first window carrying an identifier.
pub open spec fn find_window(s: Seq<DbcWindowState>, id: usize) -> Option<int>
    decreases s.len(),
{
    if s.len() == 0 {
        None
    } else if s.first().id == id {
        Some(0int)
    } else {
        match find_window(s.drop_first(), id) {
            Some(i) => Some(i + 1),
            None => None,
        }
    }
}

/// What the found window index means: in range and the first hit.
pub proof fn lemma_find_window(s: Seq<DbcWindowState>, id: usize)
    ensures
        match find_window(s, id) {
            Some(i) => 0 <= i < s.len() && s[i].id == id,
            None => forall|j: int| 0 <= j < s.len() ==> (#[trigger] s[j]).id != id,
        },
    decreases s.len(),
{
    if s.len() > 0 && s.first().id != id {
        lemma_find_window(s.drop_first(), id);
        match find_window(s.drop_first(), id) {
            Some(i) => {
                assert(s[i + 1] == s.drop_first()[i]);
            },
            None => {
                assert forall|j: int| 0 <= j < s.len() implies (#[trigger] s[j]).id != id by {
                    if j > 0 {
                        assert(s.drop_first()[j - 1] == s[j]);
                    }
                }
            },
        }
    }
}

/// Finds the first window carrying an identifier.
#[verifier::loop_isolation(false)]
fn find_window_index(windows: &Vec<DbcWindowState>, id: usize) -> (r: Option<usize>)
    ensures
        match r {
            Some(i) => find_window(windows@, id) == Some(i as int),
            None => find_window(windows@, id) is None,
        },
{
    proof {
        assert(windows@.skip(0) =~= windows@);
    }
    let mut i: usize = 0;
    while i < windows.len()
        invariant
            i <= windows@.len(),
            find_window(windows@.skip(i as int), id) matches Some(k) ==> find_window(windows@, id)
                == Some(k + i),
            find_window(windows@.skip(i as int), id) is None ==> find_window(windows@, id) is None,
        decreases windows@.len() - i,
    {
        proof {
            assert(windows@.skip(i as int).first() == windows@[i as int]);
            assert(windows@.skip(i as int).drop_first() =~= windows@.skip(i + 1));
        }
        if windows[i].id == id {
            return Some(i);
        }
        i = i + 1;
    }
    proof {
        assert(windows@.skip(i as int) =~= Seq::<DbcWindowState>::empty());
    }
    None
}

/// The overlay after the message editing dialog's changed fields are applied,
/// in the order the composite edit records them: name, comment, identifier,
/// size, transmitter.
pub open spec fn apply_changes_model(d: MessageEditDialog, m: OverlayView) -> OverlayView {
    let m1 = if name_changed(d) {
        set_name_model(m, d.message_id, trim_spec(d.name_buffer@))
    } else {
        m
    };
    let m2 = if comment_changed(d) {
        set_comment_model(m1, d.message_id, trim_spec(d.comment_buffer@))
    } else {
        m1
    };
    let m3 = if id_changed(d) {
        set_id_model(m2, d.message_id, message_id_spec(d.id_buffer@)->0)
    } else {
        m2
    };
    let m4 = if size_changed(d) {
        set_size_model(m3, d.message_id, message_size_spec(d.size_buffer@)->0 as u8)
    } else {
        m3
    };
    if transmitter_changed(d) {
        set_transmitter_model(m4, d.message_id, trim_spec(d.transmitter_buffer@))
    } else {
        m4
    }
}

/// What applying the message editing dialog with pending changes leaves
/// behind: the one parent window carries the changed fields as overrides,
/// every other window is untouched, and the dialog's original values follow
/// the applied state.
pub open spec fn apply_changes_post(pre: UiState, post: UiState) -> bool {
    let d = pre.message_edit_dialog;
    &&& post.dbc_windows@.len() == pre.dbc_windows@.len()
    &&& match find_window(pre.dbc_windows@, d.parent_dbc_id) {
        Some(idx) => {
            &&& forall|j: int|
                0 <= j < pre.dbc_windows@.len() && j != idx ==> post.dbc_windows@[j]
                    == pre.dbc_windows@[j]
            &&& post.dbc_windows@[idx].editable_data@ == apply_changes_model(
                d,
                pre.dbc_windows@[idx].editable_data@,
            )
            &&& !post.dbc_windows@[idx].history.spec_can_redo()
        },
        None => post.dbc_windows == pre.dbc_windows,
    }
    &&& post.message_edit_dialog.original_name@ == trim_spec(d.name_buffer@)
    &&& post.message_edit_dialog.original_comment@ == trim_spec(d.comment_buffer@)
    &&& post.message_edit_dialog.original_transmitter@ == trim_spec(d.transmitter_buffer@)
    &&& post.message_edit_dialog.original_id == match message_id_spec(d.id_buffer@) {
        Some(v) => v,
        None => d.original_id,
    }
    &&& post.message_edit_dialog.original_size == match message_size_spec(d.size_buffer@) {
        Some(v) => v,
        None => d.original_size,
    }
}

/// Applies the message editing dialog: every changed field becomes one
/// field-edit operation, several of them grouped into a composite, committed
/// through the parent window's history; the dialog's original values then
/// follow the applied state. Without changes, or without the parent window,
/// the documents stay untouched.
pub fn apply_changes(ui_state: &mut UiState)
    requires
        old(ui_state).wf(),
    ensures
        final(ui_state).wf(),
        !pending_changes(old(ui_state).message_edit_dialog) ==> *final(ui_state) == *old(ui_state),
        pending_changes(old(ui_state).message_edit_dialog) ==> apply_changes_post(
            *old(ui_state),
            *final(ui_state),
        ),
{
    let ghost d = old(ui_state).message_edit_dialog;
    let dialog = &ui_state.message_edit_dialog;
    let message_id = dialog.message_id;
    let parent_dbc_id = dialog.parent_dbc_id;
    let new_name = str_trim(dialog.name_buffer.as_str());
    let old_name = dialog.original_name.clone();
    let new_comment = str_trim(dialog.comment_buffer.as_str());
    let old_comment = dialog.original_comment.clone();
    let new_id = parse_message_id(dialog.id_buffer.as_str());
    let old_id = dialog.original_id;
    let new_size = parse_message_size(dialog.size_buffer.as_str());
    let old_size = dialog.original_size;
    let new_transmitter = str_trim(dialog.transmitter_buffer.as_str());
    let old_transmitter = dialog.original_transmitter.clone();

    let name_ch = new_name != old_name && !new_name.as_str().is_empty();
    let comment_ch = new_comment != old_comment;
    let id_ch = match new_id {
        Some(v) => v != old_id,
        None => false,
    };
    let size_ch = match new_size {
        Some(v) => v != old_size,
        None => false,
    };
    let transmitter_ch = new_transmitter != old_transmitter;

    proof {
        assert(name_ch == name_changed(d));
        assert(comment_ch == comment_changed(d));
        assert(id_ch == id_changed(d));
        assert(size_ch == size_changed(d));
        assert(transmitter_ch == transmitter_changed(d));
    }
    if !name_ch && !comment_ch && !id_ch && !size_ch && !transmitter_ch {
        return ;
    }
    match find_window_index(&ui_state.dbc_windows, parent_dbc_id) {
        Some(idx) => {
            proof {
                lemma_find_window(ui_state.dbc_windows@, parent_dbc_id);
                assert(ui_state.dbc_windows@[idx as int].wf());
            }
            let w = &mut ui_state.dbc_windows[idx];
            let ghost m0 = w.editable_data@;
            let mut ops: Vec<Operation> = Vec::new();
            let ghost mut cur = m0;
            proof {
                assert(apply_ops(ops@, m0, true) == cur);
            }
            if name_ch {
                let ghost prev_ops = ops@;
                let op = Operation::RenameMessage { message_id, old_name: old_name.clone(), new_name: new_name.clone() };
                let ghost gop = op;
                ops.push(op);
                proof {
                    assert(ops@.drop_last() =~= prev_ops);
                    assert(ops@.last() == gop);
                    assert(apply_model(gop, cur, true) == set_name_model(cur, message_id, new_name@));
                    cur = set_name_model(cur, message_id, new_name@);
                    assert(apply_ops(ops@, m0, true) == cur);
                }
            }
            if comment_ch {
                let ghost prev_ops = ops@;
                let op = Operation::ModifyMessageComment { message_id, old_comment: old_comment.clone(), new_comment: new_comment.clone() };
                let ghost gop = op;
                ops.push(op);
                proof {
                    assert(ops@.drop_last() =~= prev_ops);
                    assert(ops@.last() == gop);
                    assert(apply_model(gop, cur, true) == set_comment_model(cur, message_id, new_comment@));
                    cur = set_comment_model(cur, message_id, new_comment@);
                    assert(apply_ops(ops@, m0, true) == cur);
                }
            }
            if id_ch {
                let v = match new_id {
                    Some(v) => v,
                    None => 0,
                };
            if true {
                let ghost prev_ops = ops@;
                let op = Operation::ModifyMessageId { original_message_id: message_id, old_id, new_id: v };
                let ghost gop = op;
                ops.push(op);
                proof {
                    assert(ops@.drop_last() =~= prev_ops);
                    assert(ops@.last() == gop);
                    assert(apply_model(gop, cur, true) == set_id_model(cur, message_id, v));
                    cur = set_id_model(cur, message_id, v);
                    assert(apply_ops(ops@, m0, true) == cur);
                }
            }
            }
            if size_ch {
                let v = match new_size {
                    Some(v) => v,
                    None => 0,
                };
                proof {
                    crate::parse::lemma_parse_bounded_nonneg(trim_spec(d.size_buffer@), 10, 8);
                    assert(v <= 8);
                }
            if true {
                let ghost prev_ops = ops@;
                let op = Operation::ModifyMessageSize { message_id, old_size: #[verifier::truncate] (old_size as u8), new_size: v as u8 };
                let ghost gop = op;
                ops.push(op);
                proof {
                    assert(ops@.drop_last() =~= prev_ops);
                    assert(ops@.last() == gop);
                    assert(apply_model(gop, cur, true) == set_size_model(cur, message_id, v as u8));
                    cur = set_size_model(cur, message_id, v as u8);
                    assert(apply_ops(ops@, m0, true) == cur);
                }
            }
            }
            if transmitter_ch {
                let ghost prev_ops = ops@;
                let op = Operation::ModifyMessageTransmitter { message_id, old_transmitter: old_transmitter.clone(), new_transmitter: new_transmitter.clone() };
                let ghost gop = op;
                ops.push(op);
                proof {
                    assert(ops@.drop_last() =~= prev_ops);
                    assert(ops@.last() == gop);
                    assert(apply_model(gop, cur, true) == set_transmitter_model(cur, message_id, new_transmitter@));
                    cur = set_transmitter_model(cur, message_id, new_transmitter@);
                    assert(apply_ops(ops@, m0, true) == cur);
                }
            }
            proof {
                assert(cur == apply_changes_model(d, m0));
            }
            let ghost built_ops = ops@;
            let op_to_apply = if ops.len() == 1 {
                let single = ops.remove(0);
                proof {
                    assert(built_ops.last() == single);
                    assert(built_ops.drop_last() =~= Seq::<Operation>::empty());
                    assert(apply_model(single, m0, true) == apply_ops(built_ops, m0, true));
                }
                single
            } else {
                Operation::Composite(ops)
            };
            proof {
                assert(apply_model(op_to_apply, m0, true) == cur);
            }
            let r = w.history.apply_new(op_to_apply, &mut w.editable_data);
            match r {
                Ok(()) => {},
                Err(e) => {
                    ui_state.error_dialog.message = e.message().to_owned();
                    ui_state.error_dialog.show = true;
                },
            }
            proof {
                assert forall|j: int| 0 <= j < ui_state.dbc_windows@.len() implies (
                #[trigger] ui_state.dbc_windows@[j]).wf() by {
                    if j != idx {
                        assert(old(ui_state).dbc_windows@[j].wf());
                    }
                }
            }
        },
        None => {},
    }
    let md = &mut ui_state.message_edit_dialog;
    md.original_name = new_name;
    md.original_comment = new_comment;
    match new_id {
        Some(id) => {
            md.original_id = id;
            let mut id_text = String::new();
            id_text.append("0x");
            push_hex_u64(&mut id_text, id as u64);
            md.id_buffer = id_text;
        },
        None => {},
    }
    match new_size {
        Some(size) => {
            md.original_size = size;
            let mut size_text = String::new();
            push_dec_u64(&mut size_text, size);
            md.size_buffer = size_text;
        },
        None => {},
    }
    md.original_transmitter = new_transmitter;
}

/// The signal override the signal editing dialog denotes, with the numeric
/// scale, offset and bound fields already parsed to bit patterns.
pub open spec fn dialog_signal_override(
    d: SignalEditDialog,
    factor_bits: u64,
    offset_bits: u64,
    minimum_bits: u64,
    maximum_bits: u64,
) -> SignalOverrideView {
    SignalOverrideView {
        name: trim_spec(d.name_buffer@),
        start_bit: parse_bounded_spec(trim_spec(d.start_bit_buffer@), 10, u32::MAX as int)->0
            as u64,
        signal_size: parse_bounded_spec(trim_spec(d.size_buffer@), 10, u32::MAX as int)->0 as u64,
        byte_order: if d.byte_order_is_little {
            ByteOrder::LittleEndian
        } else {
            ByteOrder::BigEndian
        },
        value_type: if d.signed {
            ValueType::Signed
        } else {
            ValueType::Unsigned
        },
        factor_bits,
        offset_bits,
        minimum: SignalBound::FloatBits(minimum_bits),
        maximum: SignalBound::FloatBits(maximum_bits),
        unit: trim_spec(d.unit_buffer@),
        comment: trim_spec(d.comment_buffer@),
    }
}

/// Whether the signal editing dialog's position fields are usable against a
/// message of the given bit size: both parse, the width is neither zero nor
/// beyond the message, and the start bit lies inside the message.
pub open spec fn signal_edit_valid(d: SignalEditDialog, msg_bits: int) -> bool {
    let sb = parse_bounded_spec(trim_spec(d.start_bit_buffer@), 10, u32::MAX as int);
    let sz = parse_bounded_spec(trim_spec(d.size_buffer@), 10, u32::MAX as int);
    &&& sb is Some
    &&& sz is Some
    &&& sz->0 != 0
    &&& sz->0 <= msg_bits
    &&& sb->0 < msg_bits
}

/// The bit size of the message the signal editing dialog addresses, under
/// the shown byte size with a fallback of eight bytes.
pub open spec fn dialog_msg_bits(d: SignalEditDialog, m: OverlayView) -> int {
    let bytes: int = if m.sizes.contains_key(d.message_id) {
        m.sizes[d.message_id] as int
    } else {
        8
    };
    bytes * 8
}

/// What applying the signal editing dialog leaves behind: with the parent
/// window missing nothing changes; with usable position fields the override
/// is recorded in that window alone; otherwise only the error dialog shows.
pub open spec fn apply_signal_changes_post(
    pre: UiState,
    post: UiState,
    factor_bits: u64,
    offset_bits: u64,
    minimum_bits: u64,
    maximum_bits: u64,
) -> bool {
    let d = pre.signal_edit_dialog;
    match find_window(pre.dbc_windows@, d.parent_dbc_id) {
        None => post == pre,
        Some(idx) => {
            let w = pre.dbc_windows@[idx];
            if signal_edit_valid(d, dialog_msg_bits(d, w.editable_data@)) {
                &&& forall|j: int|
                    0 <= j < pre.dbc_windows@.len() && j != idx ==> post.dbc_windows@[j]
                        == pre.dbc_windows@[j]
                &&& post.dbc_windows@[idx].editable_data@ == set_signal_model(
                    w.editable_data@,
                    d.message_id,
                    trim_spec(d.name_buffer@),
                    dialog_signal_override(d, factor_bits, offset_bits, minimum_bits, maximum_bits),
                )
                &&& !post.dbc_windows@[idx].history.spec_can_redo()
            } else {
                post.dbc_windows == pre.dbc_windows && post.error_dialog.show
            }
        },
    }
}

/// Applies the signal editing dialog: validates the position fields against
/// the message size, records the override as one operation through the parent
/// window's history, and refreshes the signal windows showing the message.
/// The numeric scale, offset and bound fields arrive already parsed to bit
/// patterns. On bad input the error dialog reports it and nothing changes.
pub fn apply_signal_changes(
    ui_state: &mut UiState,
    factor_bits: u64,
    offset_bits: u64,
    minimum_bits: u64,
    maximum_bits: u64,
)
    requires
        old(ui_state).wf(),
    ensures
        final(ui_state).wf(),
        final(ui_state).dbc_windows@.len() == old(ui_state).dbc_windows@.len(),
        apply_signal_changes_post(
            *old(ui_state),
            *final(ui_state),
            factor_bits,
            offset_bits,
            minimum_bits,
            maximum_bits,
        ),
{
    let ghost d = old(ui_state).signal_edit_dialog;
    let dialog = &ui_state.signal_edit_dialog;
    let parent = dialog.parent_dbc_id;
    let message_id = dialog.message_id;
    let sig_name = str_trim(dialog.name_buffer.as_str());
    let start_bit_opt = parse_u32_dec(dialog.start_bit_buffer.as_str());
    let size_opt = parse_u32_dec(dialog.size_buffer.as_str());
    let byte_order = if dialog.byte_order_is_little {
        ByteOrder::LittleEndian
    } else {
        ByteOrder::BigEndian
    };
    let value_type = if dialog.signed {
        ValueType::Signed
    } else {
        ValueType::Unsigned
    };
    let unit = str_trim(dialog.unit_buffer.as_str());
    let comment = str_trim(dialog.comment_buffer.as_str());
    let idx = match find_window_index(&ui_state.dbc_windows, parent) {
        Some(i) => i,
        None => {
            return ;
        },
    };
    proof {
        lemma_find_window(ui_state.dbc_windows@, parent);
        assert(ui_state.dbc_windows@[idx as int].wf());
    }
    let msg_size_bytes = ui_state.dbc_windows[idx].editable_data.get_message_size(message_id, 8);
    let msg_size_bits: u64 = (msg_size_bytes as u64) * 8;
    let (start_bit, size) = match (start_bit_opt, size_opt) {
        (Some(sb), Some(sz)) => (sb as u64, sz as u64),
        _ => {
            ui_state.error_dialog.message = String::from_str(
                "Invalid start bit or length: must be integer values",
            );
            ui_state.error_dialog.show = true;
            return ;
        },
    };
    if size == 0 || size > msg_size_bits {
        let mut text = String::new();
        text.append("Invalid signal length: ");
        push_dec_u64(&mut text, size);
        text.append(" bits (message has ");
        push_dec_u64(&mut text, msg_size_bits);
        text.append(" bits)");
        ui_state.error_dialog.message = text;
        ui_state.error_dialog.show = true;
        return ;
    }
    if start_bit >= msg_size_bits {
        let mut text = String::new();
        text.append("Start bit ");
        push_dec_u64(&mut text, start_bit);
        text.append(" out of range (message has ");
        push_dec_u64(&mut text, msg_size_bits);
        text.append(" bits)");
        ui_state.error_dialog.message = text;
        ui_state.error_dialog.show = true;
        return ;
    }
    let override_entry = SignalOverride {
        name: sig_name.clone(),
        start_bit,
        signal_size: size,
        byte_order,
        value_type,
        factor_bits,
        offset_bits,
        minimum: SignalBound::FloatBits(minimum_bits),
        maximum: SignalBound::FloatBits(maximum_bits),
        unit,
        comment,
    };
    let w = &mut ui_state.dbc_windows[idx];
    let old_override: Option<SignalOverride> = match w.editable_data.get_signal_override(
        message_id,
        sig_name.as_str(),
    ) {
        Some(o) => Some(o.clone()),
        None => None,
    };
    let op = Operation::ModifySignal {
        message_id,
        signal_name: sig_name.clone(),
        old_override,
        new_override: override_entry,
    };
    let r = w.history.apply_new(op, &mut w.editable_data);
    match r {
        Ok(()) => {},
        Err(e) => {
            ui_state.error_dialog.message = e.message().to_owned();
            ui_state.error_dialog.show = true;
        },
    }
    proof {
        assert forall|j: int| 0 <= j < ui_state.dbc_windows@.len() implies (#[trigger] ui_state
            .dbc_windows@[j]).wf() by {
            if j != idx {
                assert(old(ui_state).dbc_windows@[j].wf());
            }
        }
    }
    refresh_signal_windows(ui_state, idx, parent, message_id);
}

/// What refreshing the signal windows leaves behind: every window showing
/// the touched message of the parent carries its freshly resolved display
/// record, every other one is untouched.
spec fn refresh_post(pre: UiState, post: UiState, idx: int, parent: usize, message_id: u32) -> bool {
    match pre.dbc_windows@[idx].editable_data.spec_ref_by_id(message_id) {
        None => post.signal_windows == pre.signal_windows,
        Some(rv) => forall|k: int|
            0 <= k < pre.signal_windows@.len() ==> {
                let sw = #[trigger] pre.signal_windows@[k];
                let nw = post.signal_windows@[k];
                if sw.parent_dbc_id == parent && sw.message.message_id == message_id {
                    nw.id == sw.id && nw.is_open == sw.is_open && nw.parent_dbc_id
                        == sw.parent_dbc_id && nw.message@ == message_view_spec(
                        pre.dbc_windows@[idx].editable_data@,
                        rv,
                    )
                } else {
                    nw == sw
                }
            },
    }
}

/// Rebuilds the display record of every signal window showing a message of
/// one document window, so recorded overrides become visible.
#[verifier::loop_isolation(false)]
fn refresh_signal_windows(ui_state: &mut UiState, idx: usize, parent: usize, message_id: u32)
    requires
        old(ui_state).wf(),
        idx < old(ui_state).dbc_windows@.len(),
    ensures
        final(ui_state).wf(),
        final(ui_state).dbc_windows == old(ui_state).dbc_windows,
        *final(ui_state) == (UiState {
            signal_windows: final(ui_state).signal_windows,
            ..*old(ui_state)
        }),
        final(ui_state).signal_windows@.len() == old(ui_state).signal_windows@.len(),
        refresh_post(*old(ui_state), *final(ui_state), idx as int, parent, message_id),
{
    let window = &ui_state.dbc_windows[idx];
    let new_view: MessageView = match window.editable_data.get_message_ref_by_id(message_id) {
        Some(mref) => MessageView::from_message_ref(&mref, &window.editable_data),
        None => {
            return ;
        },
    };
    let ghost target: MessageViewSpec = new_view@;
    let mut k: usize = 0;
    while k < ui_state.signal_windows.len()
        invariant
            k <= ui_state.signal_windows@.len(),
            ui_state.wf(),
            ui_state.dbc_windows == old(ui_state).dbc_windows,
            *ui_state == (UiState { signal_windows: ui_state.signal_windows, ..*old(ui_state) }),
            ui_state.signal_windows@.len() == old(ui_state).signal_windows@.len(),
            forall|j: int|
                k <= j < ui_state.signal_windows@.len() ==> #[trigger] ui_state.signal_windows@[j]
                    == old(ui_state).signal_windows@[j],
            forall|j: int|
                0 <= j < k ==> {
                    let sw = old(ui_state).signal_windows@[j];
                    let nw = #[trigger] ui_state.signal_windows@[j];
                    if sw.parent_dbc_id == parent && sw.message.message_id == message_id {
                        nw.id == sw.id && nw.is_open == sw.is_open && nw.parent_dbc_id
                            == sw.parent_dbc_id && nw.message@ == target
                    } else {
                        nw == sw
                    }
                },
        decreases ui_state.signal_windows@.len() - k,
    {
        if ui_state.signal_windows[k].parent_dbc_id == parent
            && ui_state.signal_windows[k].message.message_id() == message_id {
            let replacement = new_view.clone();
            proof {
                assert(replacement@ == target);
            }
            let entry = &mut ui_state.signal_windows[k];
            entry.message = replacement;
            proof {
                assert(ui_state.signal_windows@[k as int].message@ == target);
            }
        }
        k = k + 1;
    }
}

/// What creating a message from the dialog leaves behind: unreadable fields
/// or a taken identifier only raise the error dialog; otherwise the one
/// parent window gains the described message as an addition.
pub open spec fn handle_create_message_post(pre: UiState, post: UiState) -> bool {
    let d = pre.message_create_dialog;
    let id = message_id_spec(d.id_buffer@);
    let size = message_size_spec(d.size_buffer@);
    if id is Some && size is Some && trim_spec(d.name_buffer@).len() != 0 {
        match find_window(pre.dbc_windows@, d.parent_dbc_id) {
            None => post == pre,
            Some(idx) => {
                let w = pre.dbc_windows@[idx];
                if used_id(w.editable_data.visible_views(), id->0) {
                    post.dbc_windows == pre.dbc_windows && post.error_dialog.show
                } else {
                    &&& forall|j: int|
                        0 <= j < pre.dbc_windows@.len() && j != idx ==> post.dbc_windows@[j]
                            == pre.dbc_windows@[j]
                    &&& post.dbc_windows@[idx].editable_data@.added.contains_key(id->0)
                    &&& post.dbc_windows@[idx].editable_data@ == crate::dbc::add_message_model(
                        w.editable_data@,
                        post.dbc_windows@[idx].editable_data@.added[id->0],
                    )
                    &&& post.dbc_windows@[idx].editable_data@.added[id->0].message_name
                        == trim_spec(d.name_buffer@)
                    &&& post.dbc_windows@[idx].editable_data@.added[id->0].message_size == size->0
                    &&& post.dbc_windows@[idx].selected_message_id == Some(id->0)
                }
            },
        }
    } else {
        post.dbc_windows == pre.dbc_windows && post.error_dialog.show
    }
}

/// Creates the message the creation dialog describes: validates the fields,
/// refuses an identifier already visible in the parent window, and commits
/// one add operation through that window's history. Failures go to the error
/// dialog and change nothing else.
pub fn handle_create_message(ui_state: &mut UiState)
    requires
        old(ui_state).wf(),
    ensures
        final(ui_state).wf(),
        final(ui_state).dbc_windows@.len() == old(ui_state).dbc_windows@.len(),
        handle_create_message_post(*old(ui_state), *final(ui_state)),
{
    let message_id = match ui_state.message_create_dialog.parse_id() {
        Some(id) => id,
        None => {
            ui_state.error_dialog.message = String::from_str("Invalid message ID");
            ui_state.error_dialog.show = true;
            return ;
        },
    };
    let size = match ui_state.message_create_dialog.parse_size() {
        Some(s) => s,
        None => {
            ui_state.error_dialog.message = String::from_str(
                "Invalid message size (must be 0-8 bytes)",
            );
            ui_state.error_dialog.show = true;
            return ;
        },
    };
    proof {
        crate::parse::lemma_parse_bounded_nonneg(
            trim_spec(old(ui_state).message_create_dialog.size_buffer@),
            10,
            8,
        );
        assert(size <= 8);
    }
    let name = str_trim(ui_state.message_create_dialog.name_buffer.as_str());
    if name.as_str().is_empty() {
        ui_state.error_dialog.message = String::from_str("Message name cannot be empty");
        ui_state.error_dialog.show = true;
        return ;
    }
    let transmitter = str_trim(ui_state.message_create_dialog.transmitter_buffer.as_str());
    let comment = str_trim(ui_state.message_create_dialog.comment_buffer.as_str());
    let parent_dbc_id = ui_state.message_create_dialog.parent_dbc_id;
    let idx = match find_window_index(&ui_state.dbc_windows, parent_dbc_id) {
        Some(i) => i,
        None => {
            return ;
        },
    };
    proof {
        lemma_find_window(ui_state.dbc_windows@, parent_dbc_id);
        assert(ui_state.dbc_windows@[idx as int].wf());
    }
    let all = ui_state.dbc_windows[idx].editable_data.get_all_messages();
    if crate::ui::menu::id_used(&all, message_id) {
        let mut text = String::new();
        text.append("Message ID 0x");
        crate::numfmt::push_hex_u32_pad3(&mut text, message_id);
        text.append(" already exists. Please choose a different ID.");
        ui_state.error_dialog.message = text;
        ui_state.error_dialog.show = true;
        return ;
    }
    let cm = MessageOverride {
        message_id,
        message_name: name,
        message_size: size as u8,
        transmitter: if transmitter.as_str().is_empty() {
            None
        } else {
            Some(transmitter)
        },
        comment: if comment.as_str().is_empty() {
            None
        } else {
            Some(comment)
        },
        signals: Vec::new(),
    };
    let op = Operation::AddMessage { message: cm };
    let w = &mut ui_state.dbc_windows[idx];
    let r = w.history.apply_new(op, &mut w.editable_data);
    w.selected_message_id = Some(message_id);
    match r {
        Ok(()) => {},
        Err(e) => {
            ui_state.error_dialog.message = e.message().to_owned();
            ui_state.error_dialog.show = true;
        },
    }
    proof {
        assert forall|j: int| 0 <= j < ui_state.dbc_windows@.len() implies (#[trigger] ui_state
            .dbc_windows@[j]).wf() by {
            if j != idx {
                assert(old(ui_state).dbc_windows@[j].wf());
            }
        }
    }
}

} // verus!
