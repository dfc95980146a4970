//! State of the signal editing dialog.

use vstd::prelude::*;

verus! {

/// Per-window bookkeeping for a signal being edited; the window it belongs to
/// keeps everything else.
#[derive(Debug)]
pub struct SignalEditWindowState {
    pub signal_name: String,
}

/// The signal editing dialog: one set of input buffers, tied to the message
/// whose signal is edited. The numeric scale, offset and bound fields keep
/// their text until they are parsed on apply.
#[derive(Debug)]
pub struct SignalEditDialog {
    pub show: bool,
    pub parent_dbc_id: usize,
    pub message_id: u32,
    pub name_buffer: String,
    pub start_bit_buffer: String,
    pub size_buffer: String,
    pub byte_order_is_little: bool,
    pub signed: bool,
    pub factor_buffer: String,
    pub offset_buffer: String,
    pub min_buffer: String,
    pub max_buffer: String,
    pub unit_buffer: String,
    pub comment_buffer: String,
    pub original_name: String,
}

impl SignalEditDialog {
    /// A closed dialog with neutral numeric fields.
    pub fn new() -> (r: Self)
        ensures
            !r.show,
            r.parent_dbc_id == 0,
            r.message_id == 0,
            r.name_buffer@.len() == 0,
            r.start_bit_buffer@.len() == 0,
            r.size_buffer@.len() == 0,
            r.byte_order_is_little,
            !r.signed,
            r.factor_buffer@ == "1.0"@,
            r.offset_buffer@ == "0.0"@,
            r.min_buffer@ == "0.0"@,
            r.max_buffer@ == "0.0"@,
            r.unit_buffer@.len() == 0,
            r.comment_buffer@.len() == 0,
            r.original_name@.len() == 0,
    {
        SignalEditDialog {
            show: false,
            parent_dbc_id: 0,
            message_id: 0,
            name_buffer: String::new(),
            start_bit_buffer: String::new(),
            size_buffer: String::new(),
            byte_order_is_little: true,
            signed: false,
            factor_buffer: String::from_str("1.0"),
            offset_buffer: String::from_str("0.0"),
            min_buffer: String::from_str("0.0"),
            max_buffer: String::from_str("0.0"),
            unit_buffer: String::new(),
            comment_buffer: String::new(),
            original_name: String::new(),
        }
    }

    /// Opens the dialog for one message; the caller fills the buffers from
    /// the signal being edited.
    pub fn open(&mut self, parent_dbc_id: usize, message_id: u32)
        ensures
            *final(self) == (SignalEditDialog {
                show: true,
                parent_dbc_id,
                message_id,
                ..*old(self)
            }),
    {
        self.show = true;
        self.parent_dbc_id = parent_dbc_id;
        self.message_id = message_id;
    }

    /// Closes the dialog; the buffers keep their text.
    pub fn close(&mut self)
        ensures
            *final(self) == (SignalEditDialog { show: false, ..*old(self) }),
    {
        self.show = false;
    }
}

impl Default for SignalEditDialog {
    fn default() -> (r: Self)
        ensures
            !r.show,
    {
        SignalEditDialog::new()
    }
}

} // verus!
