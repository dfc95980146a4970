//! Menu-level edit commands: delete, copy and paste of messages, and the
//! choice of a fresh message identifier.

use crate::dbc::{
    delete_message_model, add_message_model, refs_view, lemma_refs_view_props, MessageOverride,
    MessageOverrideView, MessageRef, MessageRefView,
};
use crate::edit_history::Operation;
use crate::numfmt::push_hex_u32_pad3;
use crate::ui::state::{DbcWindowState, UiState};
use vstd::prelude::*;

verus! {

/// Whether some visible message carries an identifier.
pub open spec fn used_id(views: Seq<MessageRefView>, id: u32) -> bool {
    exists|k: int| 0 <= k < views.len() && (#[trigger] views[k]).spec_id() == id
}

/// Decides `used_id` over a listing of the visible messages.
pub fn id_used(all: &Vec<MessageRef>, id: u32) -> (r: bool)
    ensures
        r == used_id(refs_view(all@), id),
{
    proof {
        lemma_refs_view_props(all@);
    }
    let ghost views = refs_view(all@);
    let mut i: usize = 0;
    while i < all.len()
        invariant
            i <= all@.len(),
            views == refs_view(all@),
            views.len() == all@.len(),
            forall|k: int| 0 <= k < views.len() ==> #[trigger] views[k] == all@[k]@,
            forall|k: int| 0 <= k < i ==> (#[trigger] views[k]).spec_id() != id,
        decreases all@.len() - i,
    {
        if all[i].message_id() == id {
            proof {
                assert((views[i as int]).spec_id() == id);
            }
            return true;
        }
        i = i + 1;
    }
    false
}

/// The smallest identifier in `from ..= to` that no visible message carries.
pub open spec fn first_free(views: Seq<MessageRefView>, from: int, to: int) -> Option<u32>
    decreases to - from + 1,
{
    if from > to || from < 0 || to > u32::MAX {
        None
    } else if !used_id(views, from as u32) {
        Some(from as u32)
    } else {
        first_free(views, from + 1, to)
    }
}

/// A suggested identifier for a new message: the first unused one in the
/// standard frame range, then the first unused one anywhere in the extended
/// range, and zero when even that is exhausted.
pub open spec fn suggested_id_spec(views: Seq<MessageRefView>) -> u32 {
    match first_free(views, 0x100, 0x7FF) {
        Some(v) => v,
        None => match first_free(views, 1, 0x1FFFFFFF) {
            Some(v) => v,
            None => 0,
        },
    }
}

/// Picks a suggested identifier for a new message in a window: the first
/// unused standard-range identifier, else the first unused extended-range
/// one, else zero.
#[verifier::loop_isolation(false)]
pub fn generate_suggested_message_id(window: &DbcWindowState) -> (r: u32)
    requires
        window.wf(),
    ensures
        r == suggested_id_spec(window.editable_data.visible_views()),
{
    let all = window.editable_data.get_all_messages();
    let ghost views = window.editable_data.visible_views();
    let mut cand: u32 = 0x100;
    while cand <= 0x7FF
        invariant
            0x100 <= cand <= 0x800,
            first_free(views, cand as int, 0x7FF) == first_free(views, 0x100, 0x7FF),
        decreases 0x800 - cand,
    {
        if !id_used(&all, cand) {
            return cand;
        }
        cand = cand + 1;
    }
    let mut cand2: u32 = 1;
    while cand2 <= 0x1FFFFFFF
        invariant
            1 <= cand2 <= 0x20000000,
            first_free(views, cand2 as int, 0x1FFFFFFF) == first_free(views, 1, 0x1FFFFFFF),
        decreases 0x20000000 - cand2,
    {
        if !id_used(&all, cand2) {
            return cand2;
        }
        cand2 = cand2 + 1;
    }
    0
}

/// Deletes a message in the focused window through its history, so the
/// deletion can be undone. Nothing happens while a signal window still shows
/// the message, or when no window has focus.
pub fn handle_delete_message(ui_state: &mut UiState, message_id: u32)
    requires
        old(ui_state).wf(),
    ensures
        final(ui_state).wf(),
        old(ui_state).message_shown_in_signal_window(message_id) ==> final(ui_state).dbc_windows
            == old(ui_state).dbc_windows && final(ui_state).error_dialog.show,
        !old(ui_state).message_shown_in_signal_window(message_id) ==> match old(
            ui_state,
        ).last_focused_dbc_index {
            Some(idx) => if idx < old(ui_state).dbc_windows@.len() {
                &&& final(ui_state).dbc_windows@.len() == old(ui_state).dbc_windows@.len()
                &&& forall|j: int|
                    0 <= j < old(ui_state).dbc_windows@.len() && j != idx
                        ==> final(ui_state).dbc_windows@[j] == old(ui_state).dbc_windows@[j]
                &&& final(ui_state).dbc_windows@[idx as int].editable_data@ == delete_message_model(
                    old(ui_state).dbc_windows@[idx as int].editable_data@,
                    message_id,
                )
                &&& final(ui_state).dbc_windows@[idx as int].selected_message_id is None
                &&& !final(ui_state).dbc_windows@[idx as int].history.spec_can_redo()
            } else {
                *final(ui_state) == *old(ui_state)
            },
            None => *final(ui_state) == *old(ui_state),
        },
{
    match ui_state.ensure_message_not_in_open_signal_windows(message_id) {
        Err(()) => {
            return ;
        },
        Ok(()) => {},
    }
    let idx = match ui_state.last_focused_dbc_index {
        Some(i) => i,
        None => {
            return ;
        },
    };
    if idx >= ui_state.dbc_windows.len() {
        return ;
    }
    let window = &ui_state.dbc_windows[idx];
    let payload: MessageOverride = match window.editable_data.get_message_ref_by_id(message_id) {
        Some(mref) => {
            if mref.message_size() <= 255 {
                mref.to_message_override()
            } else {
                fallback_delete_payload(window, message_id)
            }
        },
        None => fallback_delete_payload(window, message_id),
    };
    let op = Operation::DeleteMessage { message: payload };
    let w = &mut ui_state.dbc_windows[idx];
    let r = w.history.apply_new(op, &mut w.editable_data);
    w.selected_message_id = None;
    match r {
        Ok(()) => {},
        Err(e) => {
            ui_state.error_dialog.message = e.message().to_owned();
            ui_state.error_dialog.show = true;
        },
    }
    proof {
        assert forall|j: int| 0 <= j < ui_state.dbc_windows@.len() implies (#[trigger] ui_state
            .dbc_windows@[j]).wf() by {
            if j != idx {
                assert(old(ui_state).dbc_windows@[j].wf());
            }
        }
    }
}

/// A stand-in payload for deleting a message whose full record cannot be
/// copied: the shown fields, without signals. Undoing such a deletion
/// restores only these fields.
fn fallback_delete_payload(window: &DbcWindowState, message_id: u32) -> (r: MessageOverride)
    requires
        window.wf(),
    ensures
        r@.message_id == message_id,
{
    let mut nm = String::new();
    nm.append("Message 0x");
    push_hex_u32_pad3(&mut nm, message_id);
    MessageOverride {
        message_id,
        message_name: window.editable_data.get_message_name(message_id, nm.as_str()),
        message_size: window.editable_data.get_message_size(message_id, 8),
        transmitter: Some(window.editable_data.get_message_transmitter(message_id)),
        comment: Some(window.editable_data.get_message_comment(message_id)),
        signals: Vec::new(),
    }
}

/// Copies a visible message of the focused window to the clipboard. Nothing
/// happens when no window has focus, the message is not visible, or its size
/// does not fit a complete record.
pub fn handle_copy_message(ui_state: &mut UiState, message_id: u32)
    requires
        old(ui_state).wf(),
    ensures
        final(ui_state).wf(),
        *final(ui_state) == (UiState { clipboard: final(ui_state).clipboard, ..*old(ui_state) }),
        match old(ui_state).last_focused_dbc_index {
            Some(idx) => if idx < old(ui_state).dbc_windows@.len() {
                match old(ui_state).dbc_windows@[idx as int].editable_data.spec_ref_by_id(
                    message_id,
                ) {
                    Some(rv) => if rv.spec_size() <= u8::MAX {
                        final(ui_state).clipboard.copied_message matches Some(m) && m@.message_id
                            == rv.spec_id() && m@.message_name == rv.spec_name() && m@.message_size
                            == rv.spec_size() && m@.signals == rv.spec_signals()
                    } else {
                        final(ui_state).clipboard == old(ui_state).clipboard
                    },
                    None => final(ui_state).clipboard == old(ui_state).clipboard,
                }
            } else {
                final(ui_state).clipboard == old(ui_state).clipboard
            },
            None => final(ui_state).clipboard == old(ui_state).clipboard,
        },
{
    let idx = match ui_state.last_focused_dbc_index {
        Some(i) => i,
        None => {
            return ;
        },
    };
    if idx >= ui_state.dbc_windows.len() {
        return ;
    }
    let window = &ui_state.dbc_windows[idx];
    match window.editable_data.get_message_ref_by_id(message_id) {
        Some(mref) => {
            if mref.message_size() <= 255 {
                ui_state.clipboard.copied_message = Some(mref.to_message_override());
            }
        },
        None => {},
    }
}

/// Pastes the clipboard message into the focused window as a new message
/// under a fresh identifier, its name marked as a copy, recorded in the
/// history. Nothing happens with an empty clipboard or no focused window.
pub fn handle_paste_message(ui_state: &mut UiState)
    requires
        old(ui_state).wf(),
    ensures
        final(ui_state).wf(),
        match old(ui_state).clipboard.copied_message {
            None => *final(ui_state) == *old(ui_state),
            Some(msg) => match old(ui_state).last_focused_dbc_index {
                Some(idx) => if idx < old(ui_state).dbc_windows@.len() {
                    let new_id = suggested_id_spec(
                        old(ui_state).dbc_windows@[idx as int].editable_data.visible_views(),
                    );
                    &&& final(ui_state).dbc_windows@.len() == old(ui_state).dbc_windows@.len()
                    &&& forall|j: int|
                        0 <= j < old(ui_state).dbc_windows@.len() && j != idx
                            ==> final(ui_state).dbc_windows@[j] == old(ui_state).dbc_windows@[j]
                    &&& final(ui_state).dbc_windows@[idx as int].editable_data@
                        == add_message_model(
                        old(ui_state).dbc_windows@[idx as int].editable_data@,
                        MessageOverrideView {
                            message_id: new_id,
                            message_name: msg@.message_name + "_Copy"@,
                            ..msg@
                        },
                    )
                    &&& final(ui_state).dbc_windows@[idx as int].selected_message_id == Some(new_id)
                } else {
                    *final(ui_state) == *old(ui_state)
                },
                None => *final(ui_state) == *old(ui_state),
            },
        },
{
    let msg = match &ui_state.clipboard.copied_message {
        Some(m) => m.clone(),
        None => {
            return ;
        },
    };
    let idx = match ui_state.last_focused_dbc_index {
        Some(i) => i,
        None => {
            return ;
        },
    };
    if idx >= ui_state.dbc_windows.len() {
        return ;
    }
    let new_id = generate_suggested_message_id(&ui_state.dbc_windows[idx]);
    let new_message = msg.duplicate(new_id);
    let op = Operation::AddMessage { message: new_message };
    let w = &mut ui_state.dbc_windows[idx];
    let r = w.history.apply_new(op, &mut w.editable_data);
    w.selected_message_id = Some(new_id);
    match r {
        Ok(()) => {},
        Err(e) => {
            ui_state.error_dialog.message = e.message().to_owned();
            ui_state.error_dialog.show = true;
        },
    }
    proof {
        assert forall|j: int| 0 <= j < ui_state.dbc_windows@.len() implies (#[trigger] ui_state
            .dbc_windows@[j]).wf() by {
            if j != idx {
                assert(old(ui_state).dbc_windows@[j].wf());
            }
        }
    }
}

} // verus!
