//! State of the message creation dialog, with its input validation.

use crate::numfmt::{hex_digits, push_hex_u64};
use crate::parse::{message_id_spec, message_size_spec, parse_message_id, parse_message_size};
use crate::text::{str_trim, trim_spec};
use vstd::prelude::*;

verus! {

/// The message creation dialog: input buffers for the fields a new message
/// needs, tied to the window it will be created in.
#[derive(Debug)]
pub struct MessageCreateDialog {
    pub show: bool,
    pub parent_dbc_id: usize,
    pub name_buffer: String,
    pub comment_buffer: String,
    pub id_buffer: String,
    pub size_buffer: String,
    pub transmitter_buffer: String,
}

impl MessageCreateDialog {
    /// A closed dialog with the default size of eight bytes.
    pub fn new() -> (r: Self)
        ensures
            !r.show,
            r.parent_dbc_id == 0,
            r.name_buffer@.len() == 0,
            r.comment_buffer@.len() == 0,
            r.id_buffer@.len() == 0,
            r.size_buffer@ == "8"@,
            r.transmitter_buffer@.len() == 0,
    {
        MessageCreateDialog {
            show: false,
            parent_dbc_id: 0,
            name_buffer: String::new(),
            comment_buffer: String::new(),
            id_buffer: String::new(),
            size_buffer: String::from_str("8"),
            transmitter_buffer: String::new(),
        }
    }

    /// Opens the dialog over one window, with every field reset and the
    /// suggested identifier prefilled in hexadecimal.
    pub fn open(&mut self, parent_dbc_id: usize, suggested_id: u32)
        ensures
            final(self).show,
            final(self).parent_dbc_id == parent_dbc_id,
            final(self).name_buffer@.len() == 0,
            final(self).comment_buffer@.len() == 0,
            final(self).id_buffer@ == "0x"@ + hex_digits(suggested_id as int),
            final(self).size_buffer@ == "8"@,
            final(self).transmitter_buffer@.len() == 0,
    {
        self.show = true;
        self.parent_dbc_id = parent_dbc_id;
        self.name_buffer = String::new();
        self.comment_buffer = String::new();
        let mut id_text = String::new();
        id_text.append("0x");
        push_hex_u64(&mut id_text, suggested_id as u64);
        self.id_buffer = id_text;
        self.size_buffer = String::from_str("8");
        self.transmitter_buffer = String::new();
    }

    /// Closes the dialog; the buffers keep their text.
    pub fn close(&mut self)
        ensures
            *final(self) == (MessageCreateDialog { show: false, ..*old(self) }),
    {
        self.show = false;
    }

    /// Whether the required fields hold usable values: a non-empty name, a
    /// readable identifier, and a size of at most eight bytes.
    pub fn is_valid(&self) -> (r: bool)
        ensures
            r == (trim_spec(self.name_buffer@).len() != 0 && trim_spec(self.id_buffer@).len() != 0
                && message_id_spec(self.id_buffer@) is Some && message_size_spec(
                self.size_buffer@,
            ) is Some),
    {
        let name_t = str_trim(self.name_buffer.as_str());
        if name_t.as_str().is_empty() {
            return false;
        }
        let id_t = str_trim(self.id_buffer.as_str());
        if id_t.as_str().is_empty() {
            return false;
        }
        match self.parse_id() {
            None => false,
            Some(_) => match self.parse_size() {
                None => false,
                Some(_) => true,
            },
        }
    }

    /// The identifier the dialog field denotes: `0x123`, decimal, or bare
    /// hexadecimal.
    pub fn parse_id(&self) -> (r: Option<u32>)
        ensures
            r == message_id_spec(self.id_buffer@),
    {
        parse_message_id(self.id_buffer.as_str())
    }

    /// The byte size the dialog field denotes: decimal, at most eight.
    pub fn parse_size(&self) -> (r: Option<u64>)
        ensures
            r == message_size_spec(self.size_buffer@),
    {
        parse_message_size(self.size_buffer.as_str())
    }
}

impl Default for MessageCreateDialog {
    fn default() -> (r: Self)
        ensures
            !r.show,
    {
        MessageCreateDialog::new()
    }
}

} // verus!
