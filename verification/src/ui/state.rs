//! Window and dialog state: one editable document with its history per
//! window, plus the dialogs and the clipboard.

use crate::dbc::{EditableDbcData, MessageOverride, MessageRefView};
use crate::edit_history::{EditError, History, Operation};
use crate::edit_history_integration::apply_model;
use crate::numfmt::{dec_digits, hex_digits, push_dec_u64, push_hex_u32_pad3, push_hex_u64};
use crate::parse::{message_id_spec, message_size_spec};
use crate::text::trim_spec;
use crate::ui::message_create_window::MessageCreateDialog;
use crate::ui::signal_edit_window::SignalEditDialog;
use crate::ui::view::MessageView;
use vstd::prelude::*;

verus! {

/// The error dialog: a message and whether it is on screen.
#[derive(Debug)]
pub struct ErrorDialog {
    pub show: bool,
    pub message: String,
}

impl Default for ErrorDialog {
    fn default() -> (r: Self)
        ensures
            !r.show,
            r.message@.len() == 0,
    {
        ErrorDialog { show: false, message: String::new() }
    }
}

/// The delete confirmation dialog: which message of which window would be
/// deleted, under which display name.
#[derive(Debug)]
pub struct ConfirmDeleteDialog {
    pub show: bool,
    pub parent_dbc_id: usize,
    pub message_id: u32,
    pub display_name: String,
}

impl Default for ConfirmDeleteDialog {
    fn default() -> (r: Self)
        ensures
            !r.show,
            r.parent_dbc_id == 0,
            r.message_id == 0,
            r.display_name@.len() == 0,
    {
        ConfirmDeleteDialog { show: false, parent_dbc_id: 0, message_id: 0, display_name: String::new() }
    }
}

/// The clipboard for copying and pasting messages.
#[derive(Debug)]
pub struct ClipboardState {
    pub copied_message: Option<MessageOverride>,
}

impl Default for ClipboardState {
    fn default() -> (r: Self)
        ensures
            r.copied_message is None,
    {
        ClipboardState { copied_message: None }
    }
}

/// A window showing the signals of one message.
#[derive(Debug)]
pub struct SignalWindowState {
    pub id: usize,
    pub message: MessageView,
    pub is_open: bool,
    pub parent_dbc_id: usize,
}

/// The message editing dialog: one buffer per editable field, and the values
/// the fields had when it opened, so that changes can be detected and
/// reverted.
#[derive(Debug)]
pub struct MessageEditDialog {
    pub show: bool,
    pub parent_dbc_id: usize,
    pub message_id: u32,
    pub id_buffer: String,
    pub name_buffer: String,
    pub size_buffer: String,
    pub transmitter_buffer: String,
    pub comment_buffer: String,
    pub original_id: u32,
    pub original_name: String,
    pub original_size: u64,
    pub original_transmitter: String,
    pub original_comment: String,
    pub name_had_focus: bool,
    pub comment_had_focus: bool,
}

/// Whether the name field holds a change worth applying: trimmed, non-empty,
/// and different from the value the dialog opened with.
pub open spec fn name_changed(d: MessageEditDialog) -> bool {
    trim_spec(d.name_buffer@) != d.original_name@ && trim_spec(d.name_buffer@).len() != 0
}

/// Whether the comment field holds a change.
pub open spec fn comment_changed(d: MessageEditDialog) -> bool {
    trim_spec(d.comment_buffer@) != d.original_comment@
}

/// Whether the identifier field holds a readable, different identifier.
pub open spec fn id_changed(d: MessageEditDialog) -> bool {
    &&& message_id_spec(d.id_buffer@) is Some
    &&& message_id_spec(d.id_buffer@) != Some(d.original_id)
}

/// Whether the size field holds a readable, different size of at most eight
/// bytes.
pub open spec fn size_changed(d: MessageEditDialog) -> bool {
    &&& message_size_spec(d.size_buffer@) is Some
    &&& message_size_spec(d.size_buffer@) != Some(d.original_size)
}

/// Whether the transmitter field holds a change.
pub open spec fn transmitter_changed(d: MessageEditDialog) -> bool {
    trim_spec(d.transmitter_buffer@) != d.original_transmitter@
}

/// Whether any field of the dialog holds a change worth applying.
pub open spec fn pending_changes(d: MessageEditDialog) -> bool {
    name_changed(d) || comment_changed(d) || id_changed(d) || size_changed(d)
        || transmitter_changed(d)
}

impl MessageEditDialog {
    /// A closed dialog with empty fields.
    pub fn new() -> (r: Self)
        ensures
            !r.show,
            r.parent_dbc_id == 0,
            r.message_id == 0,
            r.id_buffer@.len() == 0,
            r.name_buffer@.len() == 0,
            r.size_buffer@.len() == 0,
            r.transmitter_buffer@.len() == 0,
            r.comment_buffer@.len() == 0,
            r.original_id == 0,
            r.original_name@.len() == 0,
            r.original_size == 0,
            r.original_transmitter@.len() == 0,
            r.original_comment@.len() == 0,
            !r.name_had_focus,
            !r.comment_had_focus,
    {
        MessageEditDialog {
            show: false,
            parent_dbc_id: 0,
            message_id: 0,
            id_buffer: String::new(),
            name_buffer: String::new(),
            size_buffer: String::new(),
            transmitter_buffer: String::new(),
            comment_buffer: String::new(),
            original_id: 0,
            original_name: String::new(),
            original_size: 0,
            original_transmitter: String::new(),
            original_comment: String::new(),
            name_had_focus: false,
            comment_had_focus: false,
        }
    }

    /// Opens the dialog for one message, capturing its shown fields as the
    /// original values changes are measured against.
    pub fn open(&mut self, parent_dbc_id: usize, message: &MessageOverride, comment: &str)
        ensures
            final(self).show,
            final(self).parent_dbc_id == parent_dbc_id,
            final(self).message_id == message.message_id,
            final(self).id_buffer@ == "0x"@ + hex_digits(message.message_id as int),
            final(self).name_buffer@ == message.message_name@,
            final(self).size_buffer@ == dec_digits(message.message_size as int),
            final(self).transmitter_buffer@ == match message.transmitter {
                Some(t) => t@,
                None => Seq::<char>::empty(),
            },
            final(self).comment_buffer@ == comment@,
            final(self).original_id == message.message_id,
            final(self).original_name@ == message.message_name@,
            final(self).original_size == message.message_size,
            final(self).original_transmitter@ == match message.transmitter {
                Some(t) => t@,
                None => Seq::<char>::empty(),
            },
            final(self).original_comment@ == comment@,
            !final(self).name_had_focus,
            !final(self).comment_had_focus,
    {
        self.show = true;
        self.parent_dbc_id = parent_dbc_id;
        self.message_id = message.message_id;
        let mut id_text = String::new();
        id_text.append("0x");
        push_hex_u64(&mut id_text, message.message_id as u64);
        self.id_buffer = id_text.clone();
        self.original_id = message.message_id;
        self.name_buffer = message.message_name.clone();
        self.original_name = message.message_name.clone();
        let mut size_text = String::new();
        push_dec_u64(&mut size_text, message.message_size as u64);
        self.size_buffer = size_text.clone();
        self.original_size = message.message_size as u64;
        let transmitter = match &message.transmitter {
            Some(t) => t.clone(),
            None => String::new(),
        };
        self.transmitter_buffer = transmitter.clone();
        self.original_transmitter = transmitter;
        self.comment_buffer = comment.to_owned();
        self.original_comment = comment.to_owned();
        self.name_had_focus = false;
        self.comment_had_focus = false;
    }

    /// Closes the dialog; the buffers keep their text.
    pub fn close(&mut self)
        ensures
            *final(self) == (MessageEditDialog { show: false, ..*old(self) }),
    {
        self.show = false;
    }

    /// Whether any field holds a change worth applying.
    pub fn has_changes(&self) -> (r: bool)
        ensures
            r == pending_changes(*self),
    {
        let name_t = crate::text::str_trim(self.name_buffer.as_str());
        if name_t != self.original_name && !name_t.as_str().is_empty() {
            return true;
        }
        let comment_t = crate::text::str_trim(self.comment_buffer.as_str());
        if comment_t != self.original_comment {
            return true;
        }
        match crate::parse::parse_message_id(self.id_buffer.as_str()) {
            Some(v) => {
                if v != self.original_id {
                    return true;
                }
            },
            None => {},
        }
        match crate::parse::parse_message_size(self.size_buffer.as_str()) {
            Some(v) => {
                if v != self.original_size {
                    return true;
                }
            },
            None => {},
        }
        let transmitter_t = crate::text::str_trim(self.transmitter_buffer.as_str());
        transmitter_t != self.original_transmitter
    }

    /// Puts the original values back into the buffers, discarding edits.
    pub fn reset_to_original(&mut self)
        ensures
            final(self).id_buffer@ == "0x"@ + hex_digits(old(self).original_id as int),
            final(self).name_buffer@ == old(self).original_name@,
            final(self).size_buffer@ == dec_digits(old(self).original_size as int),
            final(self).transmitter_buffer@ == old(self).original_transmitter@,
            final(self).comment_buffer@ == old(self).original_comment@,
            final(self).show == old(self).show,
            final(self).parent_dbc_id == old(self).parent_dbc_id,
            final(self).message_id == old(self).message_id,
            final(self).original_id == old(self).original_id,
            final(self).original_name == old(self).original_name,
            final(self).original_size == old(self).original_size,
            final(self).original_transmitter == old(self).original_transmitter,
            final(self).original_comment == old(self).original_comment,
    {
        let mut id_text = String::new();
        id_text.append("0x");
        push_hex_u64(&mut id_text, self.original_id as u64);
        self.id_buffer = id_text;
        self.name_buffer = self.original_name.clone();
        let mut size_text = String::new();
        push_dec_u64(&mut size_text, self.original_size);
        self.size_buffer = size_text;
        self.transmitter_buffer = self.original_transmitter.clone();
        self.comment_buffer = self.original_comment.clone();
    }
}

impl Default for MessageEditDialog {
    fn default() -> (r: Self)
        ensures
            !r.show,
    {
        MessageEditDialog::new()
    }
}

/// One open document window: the editable document, its own edit history,
/// and the browsing state around it.
#[derive(Debug)]
pub struct DbcWindowState {
    pub id: usize,
    pub editable_data: EditableDbcData,
    pub history: History,
    pub search_query: String,
    pub selected_message_id: Option<u32>,
    pub is_open: bool,
}

impl DbcWindowState {
    /// Validity: the document and the history are well formed.
    pub open spec fn wf(&self) -> bool {
        self.editable_data.wf() && self.history.wf()
    }

    /// A fresh window over an editable document, with an empty history
    /// retaining up to one hundred operations.
    pub fn new(id: usize, editable_data: EditableDbcData) -> (r: Self)
        requires
            editable_data.wf(),
        ensures
            r.wf(),
            r.id == id,
            r.editable_data == editable_data,
            r.history.ops_seq() == Seq::<Operation>::empty(),
            r.history.cursor() == 0,
            r.history.retention_cap() == 100,
            r.search_query@.len() == 0,
            r.selected_message_id is None,
            r.is_open,
    {
        DbcWindowState {
            id,
            editable_data,
            history: History::new(100),
            search_query: String::new(),
            selected_message_id: None,
            is_open: true,
        }
    }

    /// Undoes the window's latest edit, if any.
    pub fn undo(&mut self) -> (r: Result<(), EditError>)
        requires
            old(self).wf(),
        ensures
            final(self).wf(),
            final(self).history.ops_seq() == old(self).history.ops_seq(),
            final(self).id == old(self).id,
            final(self).search_query == old(self).search_query,
            final(self).selected_message_id == old(self).selected_message_id,
            final(self).is_open == old(self).is_open,
            old(self).history.cursor() == 0 ==> r == Err::<(), EditError>(EditError::NothingToUndo)
                && *final(self) == *old(self),
            old(self).history.cursor() > 0 ==> r is Ok && final(self).history.cursor()
                == old(self).history.cursor() - 1 && final(self).editable_data@ == apply_model(
                old(self).history.ops_seq()[old(self).history.cursor() - 1],
                old(self).editable_data@,
                false,
            ),
    {
        self.history.undo(&mut self.editable_data)
    }

    /// Redoes the window's most recently undone edit, if any.
    pub fn redo(&mut self) -> (r: Result<(), EditError>)
        requires
            old(self).wf(),
        ensures
            final(self).wf(),
            final(self).history.ops_seq() == old(self).history.ops_seq(),
            final(self).id == old(self).id,
            final(self).search_query == old(self).search_query,
            final(self).selected_message_id == old(self).selected_message_id,
            final(self).is_open == old(self).is_open,
            old(self).history.cursor() == old(self).history.ops_seq().len() ==> r == Err::<
                (),
                EditError,
            >(EditError::NothingToRedo) && *final(self) == *old(self),
            old(self).history.cursor() < old(self).history.ops_seq().len() ==> r is Ok
                && final(self).history.cursor() == old(self).history.cursor() + 1
                && final(self).editable_data@ == apply_model(
                old(self).history.ops_seq()[old(self).history.cursor()],
                old(self).editable_data@,
                true,
            ),
    {
        self.history.redo(&mut self.editable_data)
    }

    /// Whether an edit can be undone.
    pub fn can_undo(&self) -> (r: bool)
        ensures
            r == self.history.spec_can_undo(),
    {
        self.history.can_undo()
    }

    /// Whether an undone edit can be redone.
    pub fn can_redo(&self) -> (r: bool)
        ensures
            r == self.history.spec_can_redo(),
    {
        self.history.can_redo()
    }
}

/// Everything the interface tracks: the open windows, the dialogs, the
/// clipboard, and which window has focus.
#[derive(Debug)]
pub struct UiState {
    pub show_performance_window: bool,
    pub show_about_dialog: bool,
    pub dbc_windows: Vec<DbcWindowState>,
    pub signal_windows: Vec<SignalWindowState>,
    pub next_dbc_id: usize,
    pub error_dialog: ErrorDialog,
    pub message_edit_dialog: MessageEditDialog,
    pub message_create_dialog: MessageCreateDialog,
    pub signal_edit_dialog: SignalEditDialog,
    pub confirm_delete_dialog: ConfirmDeleteDialog,
    pub clipboard: ClipboardState,
    pub last_focused_dbc_index: Option<usize>,
    pub dbc_window_focus_request: Option<usize>,
    pub signal_window_focus_request: Option<usize>,
    pub last_focused_signal_window: Option<usize>,
}

impl Default for UiState {
    fn default() -> (r: Self)
        ensures
            r.wf(),
            !r.show_performance_window,
            !r.show_about_dialog,
            r.dbc_windows@.len() == 0,
            r.signal_windows@.len() == 0,
            r.next_dbc_id == 1,
            !r.error_dialog.show,
            !r.message_edit_dialog.show,
            !r.message_create_dialog.show,
            !r.signal_edit_dialog.show,
            !r.confirm_delete_dialog.show,
            r.clipboard.copied_message is None,
            r.last_focused_dbc_index is None,
            r.dbc_window_focus_request is None,
            r.signal_window_focus_request is None,
            r.last_focused_signal_window is None,
    {
        UiState {
            show_performance_window: false,
            show_about_dialog: false,
            dbc_windows: Vec::new(),
            signal_windows: Vec::new(),
            next_dbc_id: 1,
            error_dialog: ErrorDialog::default(),
            message_edit_dialog: MessageEditDialog::new(),
            message_create_dialog: MessageCreateDialog::new(),
            signal_edit_dialog: SignalEditDialog::new(),
            confirm_delete_dialog: ConfirmDeleteDialog::default(),
            clipboard: ClipboardState::default(),
            last_focused_dbc_index: None,
            dbc_window_focus_request: None,
            signal_window_focus_request: None,
            last_focused_signal_window: None,
        }
    }
}

impl UiState {
    /// Validity: every open window is well formed.
    pub open spec fn wf(&self) -> bool {
        forall|i: int| 0 <= i < self.dbc_windows@.len() ==> (#[trigger] self.dbc_windows@[i]).wf()
    }

    /// Whether some signal window is showing a message.
    pub open spec fn message_shown_in_signal_window(&self, message_id: u32) -> bool {
        exists|i: int|
            0 <= i < self.signal_windows@.len() && (#[trigger] self.signal_windows@[
                i]).message.message_id == message_id
    }

    /// Refuses to touch a message while a signal window shows it: reports the
    /// conflict in the error dialog and fails; succeeds without any change
    /// otherwise.
    #[verifier::loop_isolation(false)]
    pub fn ensure_message_not_in_open_signal_windows(&mut self, message_id: u32) -> (r: Result<
        (),
        (),
    >)
        ensures
            r is Ok <==> !old(self).message_shown_in_signal_window(message_id),
            r is Ok ==> *final(self) == *old(self),
            r is Err ==> final(self).error_dialog.show && *final(self) == (UiState {
                error_dialog: final(self).error_dialog,
                ..*old(self)
            }),
    {
        let mut i: usize = 0;
        while i < self.signal_windows.len()
            invariant
                i <= self.signal_windows@.len(),
                *self == *old(self),
                forall|j: int|
                    0 <= j < i ==> (#[trigger] self.signal_windows@[j]).message.message_id
                        != message_id,
            decreases self.signal_windows@.len() - i,
        {
            if self.signal_windows[i].message.message_id() == message_id {
                proof {
                    assert((old(self).signal_windows@[i as int]).message.message_id == message_id);
                }
                let mut text = String::new();
                text.append("Cannot modify or delete message '");
                text.append(self.signal_windows[i].message.message_name());
                text.append("' (0x");
                push_hex_u32_pad3(&mut text, message_id);
                text.append("): close its signal window first.");
                self.error_dialog.message = text;
                self.error_dialog.show = true;
                return Err(());
            }
            i = i + 1;
        }
        Ok(())
    }

    /// Borrows the window that last had focus, for editing; nothing when no
    /// window has focus or the index ran past the open windows.
    pub fn get_focused_dbc_window(&mut self) -> (r: Option<&mut DbcWindowState>)
        ensures
            match r {
                Some(w) => {
                    &&& old(self).last_focused_dbc_index matches Some(idx)
                    &&& 0 <= idx < old(self).dbc_windows@.len()
                    &&& *w == old(self).dbc_windows@[idx as int]
                    &&& final(self).dbc_windows@ == old(self).dbc_windows@.update(
                        idx as int,
                        *final(w),
                    )
                    &&& *final(self) == (UiState {
                        dbc_windows: final(self).dbc_windows,
                        ..*old(self)
                    })
                },
                None => {
                    &&& *final(self) == *old(self)
                    &&& match old(self).last_focused_dbc_index {
                        Some(idx) => idx >= old(self).dbc_windows@.len(),
                        None => true,
                    }
                },
            },
    {
        match self.last_focused_dbc_index {
            Some(idx) => {
                if idx < self.dbc_windows.len() {
                    Some(&mut self.dbc_windows[idx])
                } else {
                    None
                }
            },
            None => None,
        }
    }

    /// Whether the clipboard holds a copied message.
    pub fn has_clipboard_message(&self) -> (r: bool)
        ensures
            r == (self.clipboard.copied_message is Some),
    {
        match &self.clipboard.copied_message {
            Some(_) => true,
            None => false,
        }
    }
}

/// The largest identifier among some visible messages, zero when there are
/// none.
pub open spec fn max_visible_id(s: Seq<MessageRefView>) -> int
    decreases s.len(),
{
    if s.len() == 0 {
        0
    } else {
        let rest = max_visible_id(s.drop_last());
        if s.last().spec_id() > rest {
            s.last().spec_id() as int
        } else {
            rest
        }
    }
}

impl UiState {
    /// One more than the largest visible identifier of a window's document;
    /// a fallback identifier when the window does not exist, and zero when
    /// the identifier space is exhausted.
    #[verifier::loop_isolation(false)]
    pub fn generate_next_message_id(&self, dbc_window_index: usize) -> (r: u32)
        requires
            self.wf(),
        ensures
            dbc_window_index >= self.dbc_windows@.len() ==> r == 0x100,
            dbc_window_index < self.dbc_windows@.len() ==> {
                let m = max_visible_id(
                    self.dbc_windows@[dbc_window_index as int].editable_data.visible_views(),
                );
                r == if m == u32::MAX {
                    0int
                } else {
                    m + 1
                }
            },
    {
        if dbc_window_index >= self.dbc_windows.len() {
            return 0x100;
        }
        let window = &self.dbc_windows[dbc_window_index];
        let all = window.editable_data.get_all_messages();
        let ghost views = window.editable_data.visible_views();
        proof {
            crate::dbc::lemma_refs_view_props(all@);
        }
        let mut max_id: u32 = 0;
        let mut i: usize = 0;
        while i < all.len()
            invariant
                i <= all@.len(),
                views == crate::dbc::refs_view(all@),
                max_id == max_visible_id(views.take(i as int)),
            decreases all@.len() - i,
        {
            let id = all[i].message_id();
            proof {
                assert(views.take(i + 1).drop_last() =~= views.take(i as int));
                assert(views.take(i + 1).last() == views[i as int]);
                assert(views[i as int] == all@[i as int]@);
            }
            if id > max_id {
                max_id = id;
            }
            i = i + 1;
        }
        proof {
            assert(views.take(i as int) =~= views);
        }
        if max_id == u32::MAX {
            0
        } else {
            max_id + 1
        }
    }
}

} // verus!
