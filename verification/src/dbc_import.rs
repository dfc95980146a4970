//! Reading a parsed CAN database into the document model. The `can_dbc`
//! crate does the parsing; a small trusted surface reads the parsed value
//! field by field, and a verified conversion assembles the base messages.

use crate::dbc::{
    base_messages_view, BaseMessage, BaseMessageView, ByteOrder, DbcData, EditableDbcData,
    SignalBound, SignalRecord, ValueType,
};
use vstd::prelude::*;

verus! {

#[verifier::external_type_specification]
#[verifier::external_body]
pub struct ExDbc(can_dbc::Dbc);

/// What a parsed database holds, message by message, as plain values: for
/// each message its identifier, name, byte size, transmitter, comment, and
/// signals with their fields. Scale, offset and float bounds appear as the
/// bit patterns of the parsed 64-bit floats.
pub uninterp spec fn parsed_messages(d: can_dbc::Dbc) -> Seq<BaseMessageView>;

/// What parsing a text yields: the messages of the database it describes, or
/// nothing when the text is not a well-formed database. Parsing depends on
/// the text alone.
pub uninterp spec fn parsed_doc(text: Seq<char>) -> Option<Seq<BaseMessageView>>;

/// Relies on `can_dbc::Dbc::try_from(&str)`: parses a database from text; the
/// result depends on the text alone.
#[verifier::external_body]
fn parse_dbc(text: &str) -> (r: Option<can_dbc::Dbc>)
    ensures
        match r {
            Some(d) => parsed_doc(text@) == Some(parsed_messages(d)),
            None => parsed_doc(text@) is None,
        },
{
    can_dbc::Dbc::try_from(text).ok()
}

/// Relies on the `messages` field of `can_dbc::Dbc`: how many messages the
/// database holds.
#[verifier::external_body]
fn dbc_message_count(d: &can_dbc::Dbc) -> (r: usize)
    ensures
        r == parsed_messages(*d).len(),
{
    d.messages.len()
}

/// Relies on `can_dbc::MessageId::raw`: the raw frame identifier of one
/// message, extended-identifier bit included.
#[verifier::external_body]
fn dbc_message_id(d: &can_dbc::Dbc, i: usize) -> (r: u32)
    requires
        i < parsed_messages(*d).len(),
    ensures
        r == parsed_messages(*d)[i as int].message_id,
{
    d.messages[i].id.raw()
}

/// Relies on the `name` field of `can_dbc::Message`.
#[verifier::external_body]
fn dbc_message_name(d: &can_dbc::Dbc, i: usize) -> (r: String)
    requires
        i < parsed_messages(*d).len(),
    ensures
        r@ == parsed_messages(*d)[i as int].message_name,
{
    d.messages[i].name.clone()
}

/// Relies on the `size` field of `can_dbc::Message`.
#[verifier::external_body]
fn dbc_message_size(d: &can_dbc::Dbc, i: usize) -> (r: u64)
    requires
        i < parsed_messages(*d).len(),
    ensures
        r == parsed_messages(*d)[i as int].message_size,
{
    d.messages[i].size
}

/// Relies on the `transmitter` field of `can_dbc::Message`: the sending node,
/// when the file names one.
#[verifier::external_body]
fn dbc_message_transmitter(d: &can_dbc::Dbc, i: usize) -> (r: Option<String>)
    requires
        i < parsed_messages(*d).len(),
    ensures
        match r {
            Some(t) => parsed_messages(*d)[i as int].transmitter == Some(t@),
            None => parsed_messages(*d)[i as int].transmitter is None,
        },
{
    d.messages[i].transmitter.clone()
}

/// Relies on `can_dbc::Dbc::message_comment`: the comment the file attaches
/// to one message, if any.
#[verifier::external_body]
fn dbc_message_comment(d: &can_dbc::Dbc, i: usize) -> (r: Option<String>)
    requires
        i < parsed_messages(*d).len(),
    ensures
        match r {
            Some(c) => parsed_messages(*d)[i as int].comment == Some(c@),
            None => parsed_messages(*d)[i as int].comment is None,
        },
{
    d.message_comment(d.messages[i].id).map(|s| s.to_string())
}

/// Relies on the `signals` field of `can_dbc::Message`: how many signals one
/// message carries.
#[verifier::external_body]
fn dbc_signal_count(d: &can_dbc::Dbc, i: usize) -> (r: usize)
    requires
        i < parsed_messages(*d).len(),
    ensures
        r == parsed_messages(*d)[i as int].signals.len(),
{
    d.messages[i].signals.len()
}

/// Relies on the `name` field of `can_dbc::Signal`.
#[verifier::external_body]
fn dbc_signal_name(d: &can_dbc::Dbc, i: usize, j: usize) -> (r: String)
    requires
        i < parsed_messages(*d).len(),
        j < parsed_messages(*d)[i as int].signals.len(),
    ensures
        r@ == parsed_messages(*d)[i as int].signals[j as int].name,
{
    d.messages[i].signals[j].name.clone()
}

/// Relies on the `start_bit` field of `can_dbc::Signal`.
#[verifier::external_body]
fn dbc_signal_start_bit(d: &can_dbc::Dbc, i: usize, j: usize) -> (r: u64)
    requires
        i < parsed_messages(*d).len(),
        j < parsed_messages(*d)[i as int].signals.len(),
    ensures
        r == parsed_messages(*d)[i as int].signals[j as int].start_bit,
{
    d.messages[i].signals[j].start_bit
}

/// Relies on the `size` field of `can_dbc::Signal`: the bit width.
#[verifier::external_body]
fn dbc_signal_size(d: &can_dbc::Dbc, i: usize, j: usize) -> (r: u64)
    requires
        i < parsed_messages(*d).len(),
        j < parsed_messages(*d)[i as int].signals.len(),
    ensures
        r == parsed_messages(*d)[i as int].signals[j as int].signal_size,
{
    d.messages[i].signals[j].size
}

/// Relies on the `byte_order` field of `can_dbc::Signal`, mapping each
/// variant to its counterpart here.
#[verifier::external_body]
fn dbc_signal_byte_order(d: &can_dbc::Dbc, i: usize, j: usize) -> (r: ByteOrder)
    requires
        i < parsed_messages(*d).len(),
        j < parsed_messages(*d)[i as int].signals.len(),
    ensures
        r == parsed_messages(*d)[i as int].signals[j as int].byte_order,
{
    match d.messages[i].signals[j].byte_order {
        can_dbc::ByteOrder::LittleEndian => ByteOrder::LittleEndian,
        can_dbc::ByteOrder::BigEndian => ByteOrder::BigEndian,
    }
}

/// Relies on the `value_type` field of `can_dbc::Signal`, mapping each
/// variant to its counterpart here.
#[verifier::external_body]
fn dbc_signal_value_type(d: &can_dbc::Dbc, i: usize, j: usize) -> (r: ValueType)
    requires
        i < parsed_messages(*d).len(),
        j < parsed_messages(*d)[i as int].signals.len(),
    ensures
        r == parsed_messages(*d)[i as int].signals[j as int].value_type,
{
    match d.messages[i].signals[j].value_type {
        can_dbc::ValueType::Signed => ValueType::Signed,
        can_dbc::ValueType::Unsigned => ValueType::Unsigned,
    }
}

/// Relies on the `factor` field of `can_dbc::Signal`, read as the raw bit
/// pattern of the parsed 64-bit float.
#[verifier::external_body]
fn dbc_signal_factor_bits(d: &can_dbc::Dbc, i: usize, j: usize) -> (r: u64)
    requires
        i < parsed_messages(*d).len(),
        j < parsed_messages(*d)[i as int].signals.len(),
    ensures
        r == parsed_messages(*d)[i as int].signals[j as int].factor_bits,
{
    d.messages[i].signals[j].factor.to_bits()
}

/// Relies on the `offset` field of `can_dbc::Signal`, read as the raw bit
/// pattern of the parsed 64-bit float.
#[verifier::external_body]
fn dbc_signal_offset_bits(d: &can_dbc::Dbc, i: usize, j: usize) -> (r: u64)
    requires
        i < parsed_messages(*d).len(),
        j < parsed_messages(*d)[i as int].signals.len(),
    ensures
        r == parsed_messages(*d)[i as int].signals[j as int].offset_bits,
{
    d.messages[i].signals[j].offset.to_bits()
}

/// Relies on the `min` field of `can_dbc::Signal` (a `NumericValue`), mapping
/// each variant to its counterpart here; a float bound becomes its raw bit
/// pattern.
#[verifier::external_body]
fn dbc_signal_min(d: &can_dbc::Dbc, i: usize, j: usize) -> (r: SignalBound)
    requires
        i < parsed_messages(*d).len(),
        j < parsed_messages(*d)[i as int].signals.len(),
    ensures
        r == parsed_messages(*d)[i as int].signals[j as int].minimum,
{
    match d.messages[i].signals[j].min {
        can_dbc::NumericValue::Uint(v) => SignalBound::Unsigned(v),
        can_dbc::NumericValue::Int(v) => SignalBound::Signed(v),
        can_dbc::NumericValue::Double(v) => SignalBound::FloatBits(v.to_bits()),
    }
}

/// Relies on the `max` field of `can_dbc::Signal` (a `NumericValue`), mapping
/// each variant to its counterpart here; a float bound becomes its raw bit
/// pattern.
#[verifier::external_body]
fn dbc_signal_max(d: &can_dbc::Dbc, i: usize, j: usize) -> (r: SignalBound)
    requires
        i < parsed_messages(*d).len(),
        j < parsed_messages(*d)[i as int].signals.len(),
    ensures
        r == parsed_messages(*d)[i as int].signals[j as int].maximum,
{
    match d.messages[i].signals[j].max {
        can_dbc::NumericValue::Uint(v) => SignalBound::Unsigned(v),
        can_dbc::NumericValue::Int(v) => SignalBound::Signed(v),
        can_dbc::NumericValue::Double(v) => SignalBound::FloatBits(v.to_bits()),
    }
}

/// Relies on the `unit` field of `can_dbc::Signal`.
#[verifier::external_body]
fn dbc_signal_unit(d: &can_dbc::Dbc, i: usize, j: usize) -> (r: String)
    requires
        i < parsed_messages(*d).len(),
        j < parsed_messages(*d)[i as int].signals.len(),
    ensures
        r@ == parsed_messages(*d)[i as int].signals[j as int].unit,
{
    d.messages[i].signals[j].unit.clone()
}

/// Assembles the plain base messages of a parsed database.
#[verifier::loop_isolation(false)]
pub fn base_from_parsed(d: &can_dbc::Dbc) -> (r: Vec<BaseMessage>)
    ensures
        base_messages_view(r@) == parsed_messages(*d),
{
    let ghost pm = parsed_messages(*d);
    let n = dbc_message_count(d);
    let mut msgs: Vec<BaseMessage> = Vec::new();
    let mut i: usize = 0;
    while i < n
        invariant
            i <= n,
            msgs@.len() == i,
            forall|x: int| 0 <= x < i ==> #[trigger] msgs@[x]@ == pm[x],
        decreases n - i,
    {
        let sig_count = dbc_signal_count(d, i);
        let mut signals: Vec<SignalRecord> = Vec::new();
        let mut j: usize = 0;
        while j < sig_count
            invariant
                j <= sig_count,
                i < n,
                signals@.len() == j,
                forall|y: int| 0 <= y < j ==> #[trigger] signals@[y]@ == pm[i as int].signals[y],
            decreases sig_count - j,
        {
            let sig = SignalRecord {
                name: dbc_signal_name(d, i, j),
                start_bit: dbc_signal_start_bit(d, i, j),
                signal_size: dbc_signal_size(d, i, j),
                byte_order: dbc_signal_byte_order(d, i, j),
                value_type: dbc_signal_value_type(d, i, j),
                factor_bits: dbc_signal_factor_bits(d, i, j),
                offset_bits: dbc_signal_offset_bits(d, i, j),
                minimum: dbc_signal_min(d, i, j),
                maximum: dbc_signal_max(d, i, j),
                unit: dbc_signal_unit(d, i, j),
            };
            signals.push(sig);
            j = j + 1;
        }
        let msg = BaseMessage {
            message_id: dbc_message_id(d, i),
            message_name: dbc_message_name(d, i),
            message_size: dbc_message_size(d, i),
            transmitter: dbc_message_transmitter(d, i),
            comment: dbc_message_comment(d, i),
            signals,
        };
        proof {
            assert(msg@.signals =~= pm[i as int].signals);
            assert(msg@.transmitter == pm[i as int].transmitter);
            assert(msg@.comment == pm[i as int].comment);
            assert(msg@ == pm[i as int]);
        }
        msgs.push(msg);
        i = i + 1;
    }
    proof {
        assert(base_messages_view(msgs@) =~= pm);
    }
    msgs
}

impl DbcData {
    /// Parses database text and installs the result: on success the base
    /// messages are replaced and any earlier error is cleared; on failure the
    /// document is emptied and an error message reported. The file path is
    /// whatever the caller put there.
    pub fn load_dbc_text(&mut self, text: &str) -> (r: Result<(), String>)
        ensures
            final(self)@.file_path == old(self)@.file_path,
            match parsed_doc(text@) {
                Some(msgs) => r is Ok && final(self)@.dbc == Some(msgs)
                    && final(self)@.error_message.len() == 0,
                None => r is Err && final(self)@.dbc is None,
            },
    {
        match parse_dbc(text) {
            Some(d) => {
                let msgs = base_from_parsed(&d);
                self.dbc = Some(msgs);
                self.error_message = String::new();
                Ok(())
            },
            None => {
                self.dbc = None;
                Err("Failed to parse DBC file".to_string())
            },
        }
    }
}

impl EditableDbcData {
    /// Parses database text into the base document under this overlay.
    pub fn load_dbc_text(&mut self, text: &str) -> (r: Result<(), String>)
        requires
            old(self).wf(),
        ensures
            final(self).wf(),
            final(self)@.base.file_path == old(self)@.base.file_path,
            final(self)@.names == old(self)@.names,
            final(self)@.comments == old(self)@.comments,
            final(self)@.ids == old(self)@.ids,
            final(self)@.sizes == old(self)@.sizes,
            final(self)@.transmitters == old(self)@.transmitters,
            final(self)@.added == old(self)@.added,
            final(self)@.signals == old(self)@.signals,
            final(self)@.deleted == old(self)@.deleted,
            match parsed_doc(text@) {
                Some(msgs) => r is Ok && final(self)@.base.dbc == Some(msgs),
                None => r is Err && final(self)@.base.dbc is None,
            },
    {
        let r = self.base.load_dbc_text(text);
        proof {
            assert(self.added_messages == old(self).added_messages);
            assert(self.deleted_message_ids == old(self).deleted_message_ids);
            assert forall|id: u32| self@.added.contains_key(id) implies !self@.deleted.contains(
                id,
            ) by {
                assert(old(self)@.added.contains_key(id));
            }
        }
        r
    }
}

} // verus!
