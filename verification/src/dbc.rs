//! Document model: the immutable base document produced by parsing, and the
//! overlay of override tables that makes it editable without mutating it.

use crate::numfmt::{hex_digits_pad3, push_hex_u32_pad3};
use crate::omap::{AssocMap, IdSet, MapKey};
use crate::text::{contains_seq, lower_of, str_contains, to_lowercase};
use vstd::prelude::*;

verus! {

/// Bit order of a signal inside a CAN frame.
#[derive(Clone, Copy, Debug, PartialEq, Eq, Structural)]
pub enum ByteOrder {
    LittleEndian,
    BigEndian,
}

/// Whether a signal's raw value is interpreted as signed or unsigned.
#[derive(Clone, Copy, Debug, PartialEq, Eq, Structural)]
pub enum ValueType {
    Signed,
    Unsigned,
}

/// A signal bound (minimum or maximum) as the parser reports it: an unsigned
/// integer, a signed integer, or the raw bit pattern of a 64-bit float.
#[derive(Clone, Copy, Debug, PartialEq, Eq, Structural)]
pub enum SignalBound {
    Unsigned(u64),
    Signed(i64),
    FloatBits(u64),
}

/// One signal of a message, held as plain values. Scale and offset are kept
/// as the raw bit patterns of the 64-bit floats the parser produced; this
/// layer only stores and copies them, it never does arithmetic on them.
#[derive(Debug)]
pub struct SignalRecord {
    pub name: String,
    pub start_bit: u64,
    pub signal_size: u64,
    pub byte_order: ByteOrder,
    pub value_type: ValueType,
    pub factor_bits: u64,
    pub offset_bits: u64,
    pub minimum: SignalBound,
    pub maximum: SignalBound,
    pub unit: String,
}

/// Mathematical value of a `SignalRecord`.
pub struct SignalRecordView {
    pub name: Seq<char>,
    pub start_bit: u64,
    pub signal_size: u64,
    pub byte_order: ByteOrder,
    pub value_type: ValueType,
    pub factor_bits: u64,
    pub offset_bits: u64,
    pub minimum: SignalBound,
    pub maximum: SignalBound,
    pub unit: Seq<char>,
}

impl View for SignalRecord {
    type V = SignalRecordView;

    open spec fn view(&self) -> SignalRecordView {
        SignalRecordView {
            name: self.name@,
            start_bit: self.start_bit,
            signal_size: self.signal_size,
            byte_order: self.byte_order,
            value_type: self.value_type,
            factor_bits: self.factor_bits,
            offset_bits: self.offset_bits,
            minimum: self.minimum,
            maximum: self.maximum,
            unit: self.unit@,
        }
    }
}

impl Clone for SignalRecord {
    fn clone(&self) -> (r: Self)
        ensures
            r@ == self@,
    {
        SignalRecord {
            name: self.name.clone(),
            start_bit: self.start_bit,
            signal_size: self.signal_size,
            byte_order: self.byte_order,
            value_type: self.value_type,
            factor_bits: self.factor_bits,
            offset_bits: self.offset_bits,
            minimum: self.minimum,
            maximum: self.maximum,
            unit: self.unit.clone(),
        }
    }
}

/// Mathematical value of a sequence of signals.
pub open spec fn signals_view(s: Seq<SignalRecord>) -> Seq<SignalRecordView> {
    s.map(|i: int, sig: SignalRecord| sig@)
}

/// One message of the base document, held as plain values.
#[derive(Debug)]
pub struct BaseMessage {
    pub message_id: u32,
    pub message_name: String,
    pub message_size: u64,
    pub transmitter: Option<String>,
    pub comment: Option<String>,
    pub signals: Vec<SignalRecord>,
}

/// Mathematical value of a `BaseMessage`.
pub struct BaseMessageView {
    pub message_id: u32,
    pub message_name: Seq<char>,
    pub message_size: u64,
    pub transmitter: Option<Seq<char>>,
    pub comment: Option<Seq<char>>,
    pub signals: Seq<SignalRecordView>,
}

impl View for BaseMessage {
    type V = BaseMessageView;

    open spec fn view(&self) -> BaseMessageView {
        BaseMessageView {
            message_id: self.message_id,
            message_name: self.message_name@,
            message_size: self.message_size,
            transmitter: match self.transmitter {
                Some(t) => Some(t@),
                None => None,
            },
            comment: match self.comment {
                Some(c) => Some(c@),
                None => None,
            },
            signals: signals_view(self.signals@),
        }
    }
}

/// Mathematical value of the list of base messages.
pub open spec fn base_messages_view(s: Seq<BaseMessage>) -> Seq<BaseMessageView> {
    s.map(|i: int, m: BaseMessage| m@)
}

/// Read-only result of loading and parsing one file. `dbc` is `None` until a
/// document was parsed successfully; the path and any load error are kept for
/// display.
#[derive(Debug)]
pub struct DbcData {
    pub file_path: String,
    pub dbc: Option<Vec<BaseMessage>>,
    pub error_message: String,
}

/// Mathematical value of a `DbcData`.
pub struct DbcDataView {
    pub file_path: Seq<char>,
    pub dbc: Option<Seq<BaseMessageView>>,
    pub error_message: Seq<char>,
}

impl View for DbcData {
    type V = DbcDataView;

    open spec fn view(&self) -> DbcDataView {
        DbcDataView {
            file_path: self.file_path@,
            dbc: match self.dbc {
                Some(msgs) => Some(base_messages_view(msgs@)),
                None => None,
            },
            error_message: self.error_message@,
        }
    }
}

impl DbcData {
    /// An empty document: no file, no messages, no error.
    pub fn new() -> (r: Self)
        ensures
            r@.file_path.len() == 0,
            r@.dbc is None,
            r@.error_message.len() == 0,
    {
        DbcData { file_path: String::new(), dbc: None, error_message: String::new() }
    }
}

impl Default for DbcData {
    fn default() -> (r: Self)
        ensures
            r@.file_path.len() == 0,
            r@.dbc is None,
            r@.error_message.len() == 0,
    {
        DbcData::new()
    }
}

/// A complete message record: the payload of an added message, and the unit
/// an add or delete edit carries so it can be reversed without consulting
/// anything else.
#[derive(Debug)]
pub struct MessageOverride {
    pub message_id: u32,
    pub message_name: String,
    pub message_size: u8,
    pub transmitter: Option<String>,
    pub comment: Option<String>,
    pub signals: Vec<SignalRecord>,
}

/// Mathematical value of a `MessageOverride`.
pub struct MessageOverrideView {
    pub message_id: u32,
    pub message_name: Seq<char>,
    pub message_size: u8,
    pub transmitter: Option<Seq<char>>,
    pub comment: Option<Seq<char>>,
    pub signals: Seq<SignalRecordView>,
}

impl View for MessageOverride {
    type V = MessageOverrideView;

    open spec fn view(&self) -> MessageOverrideView {
        MessageOverrideView {
            message_id: self.message_id,
            message_name: self.message_name@,
            message_size: self.message_size,
            transmitter: match self.transmitter {
                Some(t) => Some(t@),
                None => None,
            },
            comment: match self.comment {
                Some(c) => Some(c@),
                None => None,
            },
            signals: signals_view(self.signals@),
        }
    }
}

/// A replacement record for one signal of one message.
#[derive(Debug)]
pub struct SignalOverride {
    pub name: String,
    pub start_bit: u64,
    pub signal_size: u64,
    pub byte_order: ByteOrder,
    pub value_type: ValueType,
    pub factor_bits: u64,
    pub offset_bits: u64,
    pub minimum: SignalBound,
    pub maximum: SignalBound,
    pub unit: String,
    pub comment: String,
}

/// Mathematical value of a `SignalOverride`.
pub struct SignalOverrideView {
    pub name: Seq<char>,
    pub start_bit: u64,
    pub signal_size: u64,
    pub byte_order: ByteOrder,
    pub value_type: ValueType,
    pub factor_bits: u64,
    pub offset_bits: u64,
    pub minimum: SignalBound,
    pub maximum: SignalBound,
    pub unit: Seq<char>,
    pub comment: Seq<char>,
}

impl View for SignalOverride {
    type V = SignalOverrideView;

    open spec fn view(&self) -> SignalOverrideView {
        SignalOverrideView {
            name: self.name@,
            start_bit: self.start_bit,
            signal_size: self.signal_size,
            byte_order: self.byte_order,
            value_type: self.value_type,
            factor_bits: self.factor_bits,
            offset_bits: self.offset_bits,
            minimum: self.minimum,
            maximum: self.maximum,
            unit: self.unit@,
            comment: self.comment@,
        }
    }
}

impl Clone for SignalOverride {
    fn clone(&self) -> (r: Self)
        ensures
            r@ == self@,
    {
        SignalOverride {
            name: self.name.clone(),
            start_bit: self.start_bit,
            signal_size: self.signal_size,
            byte_order: self.byte_order,
            value_type: self.value_type,
            factor_bits: self.factor_bits,
            offset_bits: self.offset_bits,
            minimum: self.minimum,
            maximum: self.maximum,
            unit: self.unit.clone(),
            comment: self.comment.clone(),
        }
    }
}

/// Copies a list of signals; the copy has the same mathematical value.
pub fn clone_signals(v: &Vec<SignalRecord>) -> (r: Vec<SignalRecord>)
    ensures
        signals_view(r@) == signals_view(v@),
{
    let mut r: Vec<SignalRecord> = Vec::new();
    let mut i: usize = 0;
    while i < v.len()
        invariant
            i <= v.len(),
            r@.len() == i,
            forall|j: int| 0 <= j < i ==> r@[j]@ == v@[j]@,
        decreases v.len() - i,
    {
        r.push(v[i].clone());
        i = i + 1;
    }
    proof {
        assert(signals_view(r@) =~= signals_view(v@));
    }
    r
}

impl Clone for MessageOverride {
    fn clone(&self) -> (r: Self)
        ensures
            r@ == self@,
    {
        MessageOverride {
            message_id: self.message_id,
            message_name: self.message_name.clone(),
            message_size: self.message_size,
            transmitter: self.transmitter.clone(),
            comment: self.comment.clone(),
            signals: clone_signals(&self.signals),
        }
    }
}

/// Key of a signal-level override: a message identifier and a signal name.
#[derive(Debug)]
pub struct SigKey {
    pub message_id: u32,
    pub signal_name: String,
}

impl View for SigKey {
    type V = (u32, Seq<char>);

    open spec fn view(&self) -> (u32, Seq<char>) {
        (self.message_id, self.signal_name@)
    }
}

impl MapKey for SigKey {
    fn key_eq(&self, other: &Self) -> (r: bool)
        ensures
            r == (self@ == other@),
    {
        self.message_id == other.message_id && self.signal_name == other.signal_name
    }
}

/// Mathematical value of the whole overlay: the base document plus every
/// override table. The tables are maps and a set; the order in which entries
/// were made is not part of this value.
pub struct OverlayView {
    pub base: DbcDataView,
    pub names: Map<u32, Seq<char>>,
    pub comments: Map<u32, Seq<char>>,
    pub ids: Map<u32, u32>,
    pub sizes: Map<u32, u8>,
    pub transmitters: Map<u32, Seq<char>>,
    pub added: Map<u32, MessageOverrideView>,
    pub signals: Map<(u32, Seq<char>), SignalOverrideView>,
    pub deleted: Set<u32>,
}

/// Setting a name override: an empty name removes the entry, any other name
/// becomes the entry.
pub open spec fn set_name_model(m: OverlayView, id: u32, v: Seq<char>) -> OverlayView {
    if v.len() == 0 {
        OverlayView { names: m.names.remove(id), ..m }
    } else {
        OverlayView { names: m.names.insert(id, v), ..m }
    }
}

/// Setting a comment override: an empty comment removes the entry.
pub open spec fn set_comment_model(m: OverlayView, id: u32, v: Seq<char>) -> OverlayView {
    if v.len() == 0 {
        OverlayView { comments: m.comments.remove(id), ..m }
    } else {
        OverlayView { comments: m.comments.insert(id, v), ..m }
    }
}

/// Setting an identifier remap: mapping an identifier to itself removes the
/// entry.
pub open spec fn set_id_model(m: OverlayView, original: u32, new_id: u32) -> OverlayView {
    if new_id == original {
        OverlayView { ids: m.ids.remove(original), ..m }
    } else {
        OverlayView { ids: m.ids.insert(original, new_id), ..m }
    }
}

/// Setting a size override always records the entry.
pub open spec fn set_size_model(m: OverlayView, id: u32, v: u8) -> OverlayView {
    OverlayView { sizes: m.sizes.insert(id, v), ..m }
}

/// Setting a transmitter override: an empty name removes the entry.
pub open spec fn set_transmitter_model(m: OverlayView, id: u32, v: Seq<char>) -> OverlayView {
    if v.len() == 0 {
        OverlayView { transmitters: m.transmitters.remove(id), ..m }
    } else {
        OverlayView { transmitters: m.transmitters.insert(id, v), ..m }
    }
}

/// Adding a message records its payload and clears any delete mark for its
/// identifier.
pub open spec fn add_message_model(m: OverlayView, msg: MessageOverrideView) -> OverlayView {
    OverlayView {
        added: m.added.insert(msg.message_id, msg),
        deleted: m.deleted.remove(msg.message_id),
        ..m
    }
}

/// Deleting a message removes it from the added table if it only ever existed
/// there, and otherwise marks it deleted.
pub open spec fn delete_message_model(m: OverlayView, id: u32) -> OverlayView {
    if m.added.contains_key(id) {
        OverlayView { added: m.added.remove(id), ..m }
    } else {
        OverlayView { deleted: m.deleted.insert(id), ..m }
    }
}

/// Recording a signal override for (message identifier, signal name).
pub open spec fn set_signal_model(
    m: OverlayView,
    id: u32,
    name: Seq<char>,
    ov: SignalOverrideView,
) -> OverlayView {
    OverlayView { signals: m.signals.insert((id, name), ov), ..m }
}

/// Removing the signal override for (message identifier, signal name).
pub open spec fn remove_signal_model(m: OverlayView, id: u32, name: Seq<char>) -> OverlayView {
    OverlayView { signals: m.signals.remove((id, name)), ..m }
}

/// The name shown for a message: the override when present, else the name
/// the caller read from the base document.
pub open spec fn shown_name(m: OverlayView, id: u32, original: Seq<char>) -> Seq<char> {
    if m.names.contains_key(id) {
        m.names[id]
    } else {
        original
    }
}

/// The first base message with a given identifier, if any.
pub open spec fn find_base(msgs: Seq<BaseMessageView>, id: u32) -> Option<BaseMessageView>
    decreases msgs.len(),
{
    if msgs.len() == 0 {
        None
    } else if msgs.first().message_id == id {
        Some(msgs.first())
    } else {
        find_base(msgs.drop_first(), id)
    }
}

/// The comment of the first base message with a given identifier, or empty.
pub open spec fn base_comment(base: DbcDataView, id: u32) -> Seq<char> {
    match base.dbc {
        Some(msgs) => match find_base(msgs, id) {
            Some(msg) => match msg.comment {
                Some(c) => c,
                None => Seq::empty(),
            },
            None => Seq::empty(),
        },
        None => Seq::empty(),
    }
}

/// The comment shown for a message: the override when present, else the base
/// document's comment, else empty.
pub open spec fn shown_comment(m: OverlayView, id: u32) -> Seq<char> {
    if m.comments.contains_key(id) {
        m.comments[id]
    } else {
        base_comment(m.base, id)
    }
}

/// The editable layer: an immutable base document under sparse override
/// tables. Every edit lands in a table; the base is never changed after load.
#[derive(Debug)]
pub struct EditableDbcData {
    pub base: DbcData,
    pub message_name_overrides: AssocMap<u32, String>,
    pub message_comment_overrides: AssocMap<u32, String>,
    pub message_id_overrides: AssocMap<u32, u32>,
    pub message_size_overrides: AssocMap<u32, u8>,
    pub message_transmitter_overrides: AssocMap<u32, String>,
    pub added_messages: AssocMap<u32, MessageOverride>,
    pub signal_overrides: AssocMap<SigKey, SignalOverride>,
    pub deleted_message_ids: IdSet,
}

impl View for EditableDbcData {
    type V = OverlayView;

    open spec fn view(&self) -> OverlayView {
        OverlayView {
            base: self.base@,
            names: self.message_name_overrides@,
            comments: self.message_comment_overrides@,
            ids: self.message_id_overrides@,
            sizes: self.message_size_overrides@,
            transmitters: self.message_transmitter_overrides@,
            added: self.added_messages@,
            signals: self.signal_overrides@,
            deleted: self.deleted_message_ids@,
        }
    }
}

impl EditableDbcData {
    /// Validity: each table is well formed, and no identifier is both added
    /// and delete-marked.
    pub open spec fn wf(&self) -> bool {
        &&& self.message_name_overrides.wf()
        &&& self.message_comment_overrides.wf()
        &&& self.message_id_overrides.wf()
        &&& self.message_size_overrides.wf()
        &&& self.message_transmitter_overrides.wf()
        &&& self.added_messages.wf()
        &&& self.signal_overrides.wf()
        &&& self.deleted_message_ids.wf()
        &&& forall|id: u32| #[trigger] self@.added.contains_key(id) ==> !self@.deleted.contains(
            id,
        ) && self@.added[id].message_id == id
    }

    /// An empty overlay over an empty base document.
    pub fn new() -> (r: Self)
        ensures
            r.wf(),
            r@.base.dbc is None,
            r@.names == Map::<u32, Seq<char>>::empty(),
            r@.comments == Map::<u32, Seq<char>>::empty(),
            r@.ids == Map::<u32, u32>::empty(),
            r@.sizes == Map::<u32, u8>::empty(),
            r@.transmitters == Map::<u32, Seq<char>>::empty(),
            r@.added == Map::<u32, MessageOverrideView>::empty(),
            r@.signals == Map::<(u32, Seq<char>), SignalOverrideView>::empty(),
            r@.deleted == Set::<u32>::empty(),
            r.added_messages.val_seq() == Seq::<MessageOverrideView>::empty(),
    {
        EditableDbcData {
            base: DbcData::new(),
            message_name_overrides: AssocMap::new(),
            message_comment_overrides: AssocMap::new(),
            message_id_overrides: AssocMap::new(),
            message_size_overrides: AssocMap::new(),
            message_transmitter_overrides: AssocMap::new(),
            added_messages: AssocMap::new(),
            signal_overrides: AssocMap::new(),
            deleted_message_ids: IdSet::new(),
        }
    }

    /// An empty overlay over a parsed base document.
    pub fn from_dbc_data(dbc: DbcData) -> (r: Self)
        ensures
            r.wf(),
            r@.base == dbc@,
            r@.names == Map::<u32, Seq<char>>::empty(),
            r@.comments == Map::<u32, Seq<char>>::empty(),
            r@.ids == Map::<u32, u32>::empty(),
            r@.sizes == Map::<u32, u8>::empty(),
            r@.transmitters == Map::<u32, Seq<char>>::empty(),
            r@.added == Map::<u32, MessageOverrideView>::empty(),
            r@.signals == Map::<(u32, Seq<char>), SignalOverrideView>::empty(),
            r@.deleted == Set::<u32>::empty(),
            r.added_messages.val_seq() == Seq::<MessageOverrideView>::empty(),
    {
        let mut ed = Self::new();
        ed.base = dbc;
        ed
    }

    /// The shown name of a message: the override when present, else the given
    /// original name.
    pub fn get_message_name(&self, message_id: u32, original_name: &str) -> (r: String)
        requires
            self.wf(),
        ensures
            r@ == shown_name(self@, message_id, original_name@),
    {
        match self.message_name_overrides.get(&message_id) {
            Some(n) => n.clone(),
            None => original_name.to_owned(),
        }
    }

    /// Records a name override; an empty name clears it.
    pub fn set_message_name(&mut self, message_id: u32, new_name: String)
        requires
            old(self).wf(),
        ensures
            final(self).wf(),
            final(self)@ == set_name_model(old(self)@, message_id, new_name@),
    {
        if new_name.as_str().is_empty() {
            self.message_name_overrides.remove(&message_id);
        } else {
            self.message_name_overrides.insert(message_id, new_name);
        }
    }

    /// The shown comment of a message: the override when present, else the
    /// base document's comment, else empty.
    #[verifier::loop_isolation(false)]
    pub fn get_message_comment(&self, message_id: u32) -> (r: String)
        requires
            self.wf(),
        ensures
            r@ == shown_comment(self@, message_id),
    {
        match self.message_comment_overrides.get(&message_id) {
            Some(c) => c.clone(),
            None => {
                match &self.base.dbc {
                    Some(msgs) => {
                        let ghost mv = base_messages_view(msgs@);
                        proof {
                            assert(mv.skip(0) =~= mv);
                        }
                        let mut i: usize = 0;
                        while i < msgs.len()
                            invariant
                                i <= msgs@.len(),
                                mv == base_messages_view(msgs@),
                                mv.len() == msgs@.len(),
                                forall|j: int| 0 <= j < i ==> #[trigger] mv[j].message_id
                                    != message_id,
                                find_base(mv.skip(i as int), message_id) == find_base(
                                    mv,
                                    message_id,
                                ),
                            decreases msgs@.len() - i,
                        {
                            proof {
                                assert(mv.skip(i as int).first() == mv[i as int]);
                                assert(mv.skip(i as int).drop_first() =~= mv.skip(i as int + 1));
                            }
                            if msgs[i].message_id == message_id {
                                proof {
                                    assert(mv[i as int] == msgs@[i as int]@);
                                    assert(find_base(mv.skip(i as int), message_id) == Some(
                                        mv[i as int],
                                    ));
                                }
                                match &msgs[i].comment {
                                    Some(c) => {
                                        return c.clone();
                                    },
                                    None => {
                                        return String::new();
                                    },
                                }
                            }
                            proof {
                                assert(mv[i as int] == msgs@[i as int]@);
                            }
                            i = i + 1;
                        }
                        proof {
                            assert(mv.skip(i as int) =~= Seq::<BaseMessageView>::empty());
                        }
                        String::new()
                    },
                    None => String::new(),
                }
            },
        }
    }

    /// Records a comment override; an empty comment clears it.
    pub fn set_message_comment(&mut self, message_id: u32, comment: String)
        requires
            old(self).wf(),
        ensures
            final(self).wf(),
            final(self)@ == set_comment_model(old(self)@, message_id, comment@),
    {
        if comment.as_str().is_empty() {
            self.message_comment_overrides.remove(&message_id);
        } else {
            self.message_comment_overrides.insert(message_id, comment);
        }
    }

    /// The shown identifier of a message: the remap when present, else the
    /// original identifier.
    pub fn get_message_id(&self, original_message_id: u32) -> (r: u32)
        requires
            self.wf(),
        ensures
            r == if self@.ids.contains_key(original_message_id) {
                self@.ids[original_message_id]
            } else {
                original_message_id
            },
    {
        match self.message_id_overrides.get(&original_message_id) {
            Some(id) => *id,
            None => original_message_id,
        }
    }

    /// Records an identifier remap; mapping an identifier to itself clears it.
    pub fn set_message_id(&mut self, original_message_id: u32, new_message_id: u32)
        requires
            old(self).wf(),
        ensures
            final(self).wf(),
            final(self)@ == set_id_model(old(self)@, original_message_id, new_message_id),
    {
        if new_message_id == original_message_id {
            self.message_id_overrides.remove(&original_message_id);
        } else {
            self.message_id_overrides.insert(original_message_id, new_message_id);
        }
    }

    /// The shown size of a message: the override when present, else the given
    /// original size, which must fit in a byte.
    pub fn get_message_size(&self, message_id: u32, original_size: u64) -> (r: u8)
        requires
            self.wf(),
            original_size <= u8::MAX,
        ensures
            r == if self@.sizes.contains_key(message_id) {
                self@.sizes[message_id]
            } else {
                original_size as u8
            },
    {
        let orig_u8: u8 = original_size as u8;
        match self.message_size_overrides.get(&message_id) {
            Some(s) => *s,
            None => orig_u8,
        }
    }

    /// Records a size override. Whether the size is sensible is the caller's
    /// concern; this layer only stores it.
    pub fn set_message_size(&mut self, message_id: u32, new_size: u8)
        requires
            old(self).wf(),
        ensures
            final(self).wf(),
            final(self)@ == set_size_model(old(self)@, message_id, new_size),
    {
        self.message_size_overrides.insert(message_id, new_size);
    }

    /// The transmitter override of a message, or empty when none was set.
    pub fn get_message_transmitter(&self, message_id: u32) -> (r: String)
        requires
            self.wf(),
        ensures
            r@ == if self@.transmitters.contains_key(message_id) {
                self@.transmitters[message_id]
            } else {
                Seq::<char>::empty()
            },
    {
        match self.message_transmitter_overrides.get(&message_id) {
            Some(t) => t.clone(),
            None => String::new(),
        }
    }

    /// Records a transmitter override; an empty name clears it.
    pub fn set_message_transmitter(&mut self, message_id: u32, transmitter: String)
        requires
            old(self).wf(),
        ensures
            final(self).wf(),
            final(self)@ == set_transmitter_model(old(self)@, message_id, transmitter@),
    {
        if transmitter.as_str().is_empty() {
            self.message_transmitter_overrides.remove(&message_id);
        } else {
            self.message_transmitter_overrides.insert(message_id, transmitter);
        }
    }

    /// Adds a complete message record and clears any delete mark for its
    /// identifier.
    pub fn add_message(&mut self, message: MessageOverride)
        requires
            old(self).wf(),
        ensures
            final(self).wf(),
            final(self)@ == add_message_model(old(self)@, message@),
    {
        let id = message.message_id;
        self.added_messages.insert(id, message);
        self.deleted_message_ids.remove(id);
    }

    /// Deletes a message: one that only ever existed as an addition is taken
    /// back out of the added table, a base message is marked deleted.
    pub fn delete_message(&mut self, message_id: u32)
        requires
            old(self).wf(),
        ensures
            final(self).wf(),
            final(self)@ == delete_message_model(old(self)@, message_id),
    {
        if self.added_messages.contains(&message_id) {
            self.added_messages.remove(&message_id);
        } else {
            self.deleted_message_ids.insert(message_id);
        }
    }

    /// Records a signal override for (message identifier, signal name).
    pub fn set_signal_override(&mut self, message_id: u32, signal_name: String, ov: SignalOverride)
        requires
            old(self).wf(),
        ensures
            final(self).wf(),
            final(self)@ == set_signal_model(old(self)@, message_id, signal_name@, ov@),
    {
        self.signal_overrides.insert(SigKey { message_id, signal_name }, ov);
    }

    /// Clears the signal override for (message identifier, signal name).
    pub fn remove_signal_override(&mut self, message_id: u32, signal_name: &str)
        requires
            old(self).wf(),
        ensures
            final(self).wf(),
            final(self)@ == remove_signal_model(old(self)@, message_id, signal_name@),
    {
        let key = SigKey { message_id, signal_name: signal_name.to_owned() };
        self.signal_overrides.remove(&key);
    }

    /// Borrows the signal override for (message identifier, signal name), if
    /// one is recorded.
    pub fn get_signal_override(&self, message_id: u32, signal_name: &str) -> (r: Option<
        &SignalOverride,
    >)
        requires
            self.wf(),
        ensures
            match r {
                Some(ov) => self@.signals.contains_key((message_id, signal_name@)) && ov@
                    == self@.signals[(message_id, signal_name@)],
                None => !self@.signals.contains_key((message_id, signal_name@)),
            },
    {
        let key = SigKey { message_id, signal_name: signal_name.to_owned() };
        self.signal_overrides.get(&key)
    }

    /// Whether any edit is recorded: false exactly when every override
    /// collection — the five field maps, the signal overrides, the added
    /// messages and the deleted set — is empty.
    pub fn has_modifications(&self) -> (r: bool)
        requires
            self.wf(),
        ensures
            r == !(self@.names =~= Map::<u32, Seq<char>>::empty() && self@.comments =~= Map::<
                u32,
                Seq<char>,
            >::empty() && self@.ids =~= Map::<u32, u32>::empty() && self@.sizes =~= Map::<
                u32,
                u8,
            >::empty() && self@.transmitters =~= Map::<u32, Seq<char>>::empty() && self@.added
                =~= Map::<u32, MessageOverrideView>::empty() && self@.signals =~= Map::<
                (u32, Seq<char>),
                SignalOverrideView,
            >::empty() && self@.deleted =~= Set::<u32>::empty()),
    {
        proof {
            self.message_name_overrides.lemma_props();
            self.message_comment_overrides.lemma_props();
            self.message_id_overrides.lemma_props();
            self.message_size_overrides.lemma_props();
            self.message_transmitter_overrides.lemma_props();
            self.added_messages.lemma_props();
            self.signal_overrides.lemma_props();
            self.deleted_message_ids.lemma_props();
        }
        !self.message_name_overrides.is_empty() || !self.message_comment_overrides.is_empty()
            || !self.message_id_overrides.is_empty() || !self.message_size_overrides.is_empty()
            || !self.message_transmitter_overrides.is_empty() || !self.added_messages.is_empty()
            || !self.signal_overrides.is_empty() || !self.deleted_message_ids.is_empty()
    }

    /// How many edits the message-level tables hold: one per entry of the
    /// five field maps, the added messages and the deleted set. Signal
    /// overrides are not counted here, though `has_modifications` sees them.
    pub fn modification_count(&self) -> (r: usize)
        requires
            self.message_name_overrides.key_seq().len()
                + self.message_comment_overrides.key_seq().len()
                + self.message_id_overrides.key_seq().len()
                + self.message_size_overrides.key_seq().len()
                + self.message_transmitter_overrides.key_seq().len()
                + self.added_messages.key_seq().len() + self.deleted_message_ids.id_seq().len()
                <= usize::MAX,
        ensures
            r == self.message_name_overrides.key_seq().len()
                + self.message_comment_overrides.key_seq().len()
                + self.message_id_overrides.key_seq().len()
                + self.message_size_overrides.key_seq().len()
                + self.message_transmitter_overrides.key_seq().len()
                + self.added_messages.key_seq().len() + self.deleted_message_ids.id_seq().len(),
    {
        self.message_name_overrides.len() + self.message_comment_overrides.len()
            + self.message_id_overrides.len() + self.message_size_overrides.len()
            + self.message_transmitter_overrides.len() + self.added_messages.len()
            + self.deleted_message_ids.len()
    }
}

impl Default for EditableDbcData {
    fn default() -> (r: Self)
        ensures
            r.wf(),
            r@.base.dbc is None,
    {
        EditableDbcData::new()
    }
}

/// Duality of adding and deleting: for an identifier that is neither added
/// nor delete-marked, adding a message and then deleting its identifier
/// leaves the overlay exactly as it was.
pub proof fn lemma_add_delete_duality(m: OverlayView, msg: MessageOverrideView)
    requires
        !m.added.contains_key(msg.message_id),
        !m.deleted.contains(msg.message_id),
    ensures
        delete_message_model(add_message_model(m, msg), msg.message_id) == m,
{
    let after_add = add_message_model(m, msg);
    assert(after_add.added.contains_key(msg.message_id));
    let after_delete = delete_message_model(after_add, msg.message_id);
    assert(after_delete.added =~= m.added);
    assert(after_delete.deleted =~= m.deleted);
}

/// A read handle on one visible message: either a reference into the base
/// document with a display identity of its own, or a reference into the
/// added-messages table.
#[derive(Clone, Copy)]
pub enum MessageRef<'a> {
    Original(&'a BaseMessage),
    Custom(&'a MessageOverride),
}

/// Mathematical value of a `MessageRef`: which side it points into, and the
/// value found there.
pub enum MessageRefView {
    Original(BaseMessageView),
    Custom(MessageOverrideView),
}

impl<'a> View for MessageRef<'a> {
    type V = MessageRefView;

    open spec fn view(&self) -> MessageRefView {
        match self {
            MessageRef::Original(msg) => MessageRefView::Original(msg@),
            MessageRef::Custom(msg) => MessageRefView::Custom(msg@),
        }
    }
}

impl MessageRefView {
    /// The identifier of the message referred to.
    pub open spec fn spec_id(self) -> u32 {
        match self {
            MessageRefView::Original(m) => m.message_id,
            MessageRefView::Custom(m) => m.message_id,
        }
    }

    /// The name of the message referred to.
    pub open spec fn spec_name(self) -> Seq<char> {
        match self {
            MessageRefView::Original(m) => m.message_name,
            MessageRefView::Custom(m) => m.message_name,
        }
    }

    /// The byte size of the message referred to.
    pub open spec fn spec_size(self) -> u64 {
        match self {
            MessageRefView::Original(m) => m.message_size,
            MessageRefView::Custom(m) => m.message_size as u64,
        }
    }

    /// The signals of the message referred to.
    pub open spec fn spec_signals(self) -> Seq<SignalRecordView> {
        match self {
            MessageRefView::Original(m) => m.signals,
            MessageRefView::Custom(m) => m.signals,
        }
    }
}

impl<'a> MessageRef<'a> {
    /// The identifier of the message referred to.
    pub fn message_id(&self) -> (r: u32)
        ensures
            r == self@.spec_id(),
    {
        match self {
            MessageRef::Original(msg) => msg.message_id,
            MessageRef::Custom(msg) => msg.message_id,
        }
    }

    /// The name of the message referred to.
    pub fn message_name(&self) -> (r: &'a str)
        ensures
            r@ == self@.spec_name(),
    {
        match self {
            MessageRef::Original(msg) => msg.message_name.as_str(),
            MessageRef::Custom(msg) => msg.message_name.as_str(),
        }
    }

    /// The byte size of the message referred to.
    pub fn message_size(&self) -> (r: u64)
        ensures
            r == self@.spec_size(),
    {
        match self {
            MessageRef::Original(msg) => msg.message_size,
            MessageRef::Custom(msg) => msg.message_size as u64,
        }
    }

    /// The signals of the message referred to.
    pub fn signals(&self) -> (r: &'a Vec<SignalRecord>)
        ensures
            signals_view(r@) == self@.spec_signals(),
    {
        match self {
            MessageRef::Original(msg) => &msg.signals,
            MessageRef::Custom(msg) => &msg.signals,
        }
    }

    /// A complete message record of the message referred to, for copying.
    pub fn to_message_override(&self) -> (r: MessageOverride)
        requires
            self@.spec_size() <= u8::MAX,
        ensures
            r@.message_id == self@.spec_id(),
            r@.message_name == self@.spec_name(),
            r@.message_size == self@.spec_size(),
            r@.signals == self@.spec_signals(),
            match self@ {
                MessageRefView::Original(m) => r@.transmitter is None && r@.comment is None,
                MessageRefView::Custom(m) => r@.transmitter == m.transmitter && r@.comment
                    == m.comment,
            },
    {
        match self {
            MessageRef::Original(msg) => MessageOverride::from_message(msg),
            MessageRef::Custom(msg) => (*msg).clone(),
        }
    }
}

impl MessageOverride {
    /// A fresh, empty message record under a placeholder name derived from
    /// the identifier.
    pub fn new(message_id: u32) -> (r: Self)
        ensures
            r@.message_id == message_id,
            r@.message_name == "NewMessage_"@ + hex_digits_pad3(message_id as int),
            r@.message_size == 8,
            r@.transmitter is None,
            r@.comment is None,
            r@.signals == Seq::<SignalRecordView>::empty(),
    {
        let mut name = String::new();
        name.append("NewMessage_");
        push_hex_u32_pad3(&mut name, message_id);
        let r = MessageOverride {
            message_id,
            message_name: name,
            message_size: 8,
            transmitter: None,
            comment: None,
            signals: Vec::new(),
        };
        proof {
            assert(r@.signals =~= Seq::<SignalRecordView>::empty());
        }
        r
    }

    /// A copy of this record under a new identifier, with the name marked as
    /// a copy.
    pub fn duplicate(&self, new_id: u32) -> (r: Self)
        ensures
            r@.message_id == new_id,
            r@.message_name == self@.message_name + "_Copy"@,
            r@.message_size == self@.message_size,
            r@.transmitter == self@.transmitter,
            r@.comment == self@.comment,
            r@.signals == self@.signals,
    {
        let mut name = self.message_name.clone();
        name.append("_Copy");
        MessageOverride {
            message_id: new_id,
            message_name: name,
            message_size: self.message_size,
            transmitter: self.transmitter.clone(),
            comment: self.comment.clone(),
            signals: clone_signals(&self.signals),
        }
    }

    /// A complete message record copied from a base message. The base comment
    /// and transmitter are not carried over: a copy starts from the plain
    /// frame layout.
    pub fn from_message(msg: &BaseMessage) -> (r: Self)
        requires
            msg.message_size <= u8::MAX,
        ensures
            r@.message_id == msg@.message_id,
            r@.message_name == msg@.message_name,
            r@.message_size == msg@.message_size,
            r@.transmitter is None,
            r@.comment is None,
            r@.signals == msg@.signals,
    {
        MessageOverride {
            message_id: msg.message_id,
            message_name: msg.message_name.clone(),
            message_size: msg.message_size as u8,
            transmitter: None,
            comment: None,
            signals: clone_signals(&msg.signals),
        }
    }
}

/// The first base message found for an identifier carries that identifier.
pub proof fn lemma_find_base_id(msgs: Seq<BaseMessageView>, id: u32)
    ensures
        find_base(msgs, id) matches Some(m) ==> m.message_id == id,
    decreases msgs.len(),
{
    if msgs.len() > 0 && msgs.first().message_id != id {
        lemma_find_base_id(msgs.drop_first(), id);
    }
}

/// The view of a sequence of message references.
pub open spec fn refs_view(s: Seq<MessageRef>) -> Seq<MessageRefView>
    decreases s.len(),
{
    if s.len() == 0 {
        Seq::empty()
    } else {
        refs_view(s.drop_last()).push(s.last()@)
    }
}

/// The visible part of the base document: its messages without the deleted
/// ones, in document order, as references.
pub open spec fn base_refs(msgs: Seq<BaseMessageView>, deleted: Set<u32>) -> Seq<MessageRefView>
    decreases msgs.len(),
{
    if msgs.len() == 0 {
        Seq::empty()
    } else {
        let rest = base_refs(msgs.drop_last(), deleted);
        if !deleted.contains(msgs.last().message_id) {
            rest.push(MessageRefView::Original(msgs.last()))
        } else {
            rest
        }
    }
}

/// Added messages as references, in the order they were added.
pub open spec fn custom_refs(vals: Seq<MessageOverrideView>) -> Seq<MessageRefView>
    decreases vals.len(),
{
    if vals.len() == 0 {
        Seq::empty()
    } else {
        custom_refs(vals.drop_last()).push(MessageRefView::Custom(vals.last()))
    }
}

impl EditableDbcData {
    /// Every message now visible: the base messages that are not deleted, in
    /// document order, followed by the added ones in the order of addition.
    pub open spec fn visible_views(&self) -> Seq<MessageRefView> {
        let base_part = match self@.base.dbc {
            Some(msgs) => base_refs(msgs, self@.deleted),
            None => Seq::empty(),
        };
        base_part + custom_refs(self.added_messages.val_seq())
    }

    /// Lists every visible message: base messages not marked deleted, then
    /// added messages.
    pub fn get_all_messages(&self) -> (r: Vec<MessageRef<'_>>)
        requires
            self.wf(),
        ensures
            refs_view(r@) == self.visible_views(),
    {
        let mut refs: Vec<MessageRef> = Vec::new();
        let ghost deleted = self@.deleted;
        match &self.base.dbc {
            Some(msgs) => {
                let ghost mv = base_messages_view(msgs@);
                let mut i: usize = 0;
                while i < msgs.len()
                    invariant
                        self.wf(),
                        i <= msgs@.len(),
                        mv == base_messages_view(msgs@),
                        mv.len() == msgs@.len(),
                        deleted == self@.deleted,
                        self.base.dbc matches Some(m) && m@ == msgs@,
                        refs_view(refs@) == base_refs(mv.take(i as int), deleted),
                    decreases msgs@.len() - i,
                {
                    let ghost prev = refs@;
                    if !self.deleted_message_ids.contains(msgs[i].message_id) {
                        refs.push(MessageRef::Original(&msgs[i]));
                        proof {
                            assert(refs@.drop_last() =~= prev);
                        }
                    }
                    proof {
                        assert(mv.take(i + 1).drop_last() =~= mv.take(i as int));
                        assert(mv.take(i + 1).last() == mv[i as int]);
                        assert(mv[i as int].message_id == msgs@[i as int].message_id);
                    }
                    i = i + 1;
                }
                proof {
                    assert(mv.take(i as int) =~= mv);
                }
            },
            None => {},
        }
        let ghost base_part = refs_view(refs@);
        let ghost vals = self.added_messages.val_seq();
        proof {
            self.added_messages.lemma_props();
        }
        let mut j: usize = 0;
        while j < self.added_messages.len()
            invariant
                self.wf(),
                j <= vals.len(),
                vals == self.added_messages.val_seq(),
                vals.len() == self.added_messages.key_seq().len(),
                refs_view(refs@) == base_part + custom_refs(vals.take(j as int)),
            decreases vals.len() - j,
        {
            let ghost prev = refs@;
            refs.push(MessageRef::Custom(self.added_messages.val_at(j)));
            proof {
                assert(refs@.drop_last() =~= prev);
                assert(vals.take(j + 1).drop_last() =~= vals.take(j as int));
                assert(refs_view(refs@) == base_part + custom_refs(vals.take(j + 1)));
            }
            j = j + 1;
        }
        proof {
            assert(vals.take(j as int) =~= vals);
            assert(custom_refs(Seq::<MessageOverrideView>::empty()) =~= Seq::<
                MessageRefView,
            >::empty());
            assert(refs_view(refs@) == self.visible_views());
        }
        refs
    }

    /// What a lookup by identifier yields: the first base message with that
    /// identifier unless it is delete-marked, else the added message with
    /// that identifier, else nothing.
    pub open spec fn spec_ref_by_id(&self, id: u32) -> Option<MessageRefView> {
        let base_hit = match self@.base.dbc {
            Some(msgs) => if self@.deleted.contains(id) {
                None
            } else {
                find_base(msgs, id)
            },
            None => None,
        };
        match base_hit {
            Some(m) => Some(MessageRefView::Original(m)),
            None => if self@.added.contains_key(id) {
                Some(MessageRefView::Custom(self@.added[id]))
            } else {
                None
            },
        }
    }

    /// Looks a visible message up by identifier: first the base document,
    /// then the added table.
    #[verifier::loop_isolation(false)]
    pub fn get_message_ref_by_id(&self, message_id: u32) -> (r: Option<MessageRef<'_>>)
        requires
            self.wf(),
        ensures
            match r {
                Some(mr) => self.spec_ref_by_id(message_id) == Some(mr@) && mr@.spec_id()
                    == message_id,
                None => self.spec_ref_by_id(message_id) is None,
            },
    {
        proof {
            match self@.base.dbc {
                Some(msgs) => {
                    lemma_find_base_id(msgs, message_id);
                },
                None => {},
            }
        }
        match &self.base.dbc {
            Some(msgs) => {
                if !self.deleted_message_ids.contains(message_id) {
                    let ghost mv = base_messages_view(msgs@);
                    proof {
                        assert(mv.skip(0) =~= mv);
                    }
                    let mut i: usize = 0;
                    while i < msgs.len()
                        invariant
                            i <= msgs@.len(),
                            mv == base_messages_view(msgs@),
                            mv.len() == msgs@.len(),
                            forall|j: int| 0 <= j < i ==> #[trigger] mv[j].message_id != message_id,
                            find_base(mv.skip(i as int), message_id) == find_base(mv, message_id),
                        decreases msgs@.len() - i,
                    {
                        proof {
                            assert(mv.skip(i as int).first() == mv[i as int]);
                            assert(mv.skip(i as int).drop_first() =~= mv.skip(i as int + 1));
                        }
                        if msgs[i].message_id == message_id {
                            proof {
                                assert(mv[i as int] == msgs@[i as int]@);
                                assert(find_base(mv.skip(i as int), message_id) == Some(
                                    mv[i as int],
                                ));
                            }
                            return Some(MessageRef::Original(&msgs[i]));
                        }
                        proof {
                            assert(mv[i as int] == msgs@[i as int]@);
                        }
                        i = i + 1;
                    }
                    proof {
                        assert(mv.skip(i as int) =~= Seq::<BaseMessageView>::empty());
                    }
                }
            },
            None => {},
        }
        match self.added_messages.get(&message_id) {
            Some(msg) => Some(MessageRef::Custom(msg)),
            None => None,
        }
    }
}


/// Whether some signal in a list has a name whose lowercase form contains
/// the lowercased query.
pub open spec fn signal_name_matches(sigs: Seq<SignalRecordView>, q: Seq<char>) -> bool {
    exists|i: int| 0 <= i < sigs.len() && contains_seq(lower_of(#[trigger] sigs[i].name), q)
}

/// Whether one visible message matches a lowercased query: on its name
/// override, its own name, or one of its signal names, case-insensitively.
pub open spec fn ref_matches(m: OverlayView, r: MessageRefView, q: Seq<char>) -> bool {
    match r {
        MessageRefView::Original(msg) => (m.names.contains_key(msg.message_id) && contains_seq(
            lower_of(m.names[msg.message_id]),
            q,
        )) || contains_seq(lower_of(msg.message_name), q) || signal_name_matches(msg.signals, q),
        MessageRefView::Custom(msg) => contains_seq(lower_of(msg.message_name), q)
            || signal_name_matches(msg.signals, q),
    }
}

/// The subsequence of messages that match a lowercased query, order kept.
pub open spec fn matching_refs(m: OverlayView, s: Seq<MessageRefView>, q: Seq<char>) -> Seq<
    MessageRefView,
>
    decreases s.len(),
{
    if s.len() == 0 {
        Seq::empty()
    } else {
        let rest = matching_refs(m, s.drop_last(), q);
        if ref_matches(m, s.last(), q) {
            rest.push(s.last())
        } else {
            rest
        }
    }
}

/// `refs_view` is pointwise: as long as the list and each element's view.
pub proof fn lemma_refs_view_props(s: Seq<MessageRef>)
    ensures
        refs_view(s).len() == s.len(),
        forall|i: int| 0 <= i < s.len() ==> #[trigger] refs_view(s)[i] == s[i]@,
    decreases s.len(),
{
    if s.len() > 0 {
        lemma_refs_view_props(s.drop_last());
    }
}

impl EditableDbcData {
    fn signals_match(sigs: &Vec<SignalRecord>, query_lower: &str) -> (r: bool)
        ensures
            r == signal_name_matches(signals_view(sigs@), query_lower@),
    {
        let ghost sv = signals_view(sigs@);
        let mut i: usize = 0;
        while i < sigs.len()
            invariant
                i <= sigs@.len(),
                sv == signals_view(sigs@),
                sv.len() == sigs@.len(),
                forall|j: int| 0 <= j < i ==> !contains_seq(lower_of(#[trigger] sv[j].name), query_lower@),
            decreases sigs@.len() - i,
        {
            let lowered = to_lowercase(sigs[i].name.as_str());
            if str_contains(lowered.as_str(), query_lower) {
                proof {
                    assert(sv[i as int].name == sigs@[i as int]@.name);
                }
                return true;
            }
            proof {
                assert(sv[i as int].name == sigs@[i as int]@.name);
            }
            i = i + 1;
        }
        false
    }

    fn ref_matches_exec(&self, mr: &MessageRef, query_lower: &str) -> (r: bool)
        requires
            self.wf(),
        ensures
            r == ref_matches(self@, mr@, query_lower@),
    {
        match mr {
            MessageRef::Original(msg) => {
                match self.message_name_overrides.get(&msg.message_id) {
                    Some(ov) => {
                        let lowered = to_lowercase(ov.as_str());
                        if str_contains(lowered.as_str(), query_lower) {
                            return true;
                        }
                    },
                    None => {},
                }
                let lowered = to_lowercase(msg.message_name.as_str());
                if str_contains(lowered.as_str(), query_lower) {
                    return true;
                }
                Self::signals_match(&msg.signals, query_lower)
            },
            MessageRef::Custom(msg) => {
                let lowered = to_lowercase(msg.message_name.as_str());
                if str_contains(lowered.as_str(), query_lower) {
                    return true;
                }
                Self::signals_match(&msg.signals, query_lower)
            },
        }
    }

    /// Searches the visible messages: an empty query yields them all, any
    /// other query keeps the messages whose shown or original name, or one of
    /// whose signal names, contains the query, case-insensitively.
    pub fn search_messages(&self, query: &str) -> (r: Vec<MessageRef<'_>>)
        requires
            self.wf(),
        ensures
            query@.len() == 0 ==> refs_view(r@) == self.visible_views(),
            query@.len() != 0 ==> refs_view(r@) == matching_refs(
                self@,
                self.visible_views(),
                lower_of(query@),
            ),
    {
        let all = self.get_all_messages();
        if query.is_empty() {
            return all;
        }
        let query_lower = to_lowercase(query);
        let ghost va = self.visible_views();
        let ghost qv = lower_of(query@);
        proof {
            lemma_refs_view_props(all@);
        }
        let mut out: Vec<MessageRef> = Vec::new();
        let mut i: usize = 0;
        while i < all.len()
            invariant
                self.wf(),
                i <= all@.len(),
                va == self.visible_views(),
                va == refs_view(all@),
                va.len() == all@.len(),
                qv == query_lower@,
                forall|j: int| 0 <= j < all@.len() ==> #[trigger] refs_view(all@)[j] == all@[j]@,
                refs_view(out@) == matching_refs(self@, va.take(i as int), qv),
            decreases all@.len() - i,
        {
            let ghost prev = out@;
            let matched = self.ref_matches_exec(&all[i], query_lower.as_str());
            if matched {
                out.push(all[i]);
                proof {
                    assert(out@.drop_last() =~= prev);
                }
            }
            proof {
                assert(va.take(i + 1).drop_last() =~= va.take(i as int));
                assert(va.take(i + 1).last() == va[i as int]);
                assert(va[i as int] == all@[i as int]@);
            }
            i = i + 1;
        }
        proof {
            assert(va.take(i as int) =~= va);
        }
        out
    }
}

} // verus!
