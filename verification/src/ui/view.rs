//! Display records for messages and signals: plain values with every
//! override already resolved, ready for rendering.

use crate::dbc::{
    EditableDbcData, MessageRef, MessageRefView, SignalBound, SignalOverride, SignalOverrideView,
    SignalRecord, SignalRecordView, ByteOrder, OverlayView, ValueType,
};
use vstd::prelude::*;

verus! {

/// A signal as shown: the override when one is recorded, else the record from
/// the document. Scale, offset and float bounds are bit patterns, as in the
/// document model.
#[derive(Debug)]
pub struct SignalView {
    pub name: String,
    pub start_bit: u64,
    pub signal_size: u64,
    pub byte_order: ByteOrder,
    pub value_type: ValueType,
    pub factor_bits: u64,
    pub offset_bits: u64,
    pub minimum: SignalBound,
    pub maximum: SignalBound,
    pub unit: String,
    pub comment: String,
}

/// Mathematical value of a `SignalView`.
pub struct SignalViewSpec {
    pub name: Seq<char>,
    pub start_bit: u64,
    pub signal_size: u64,
    pub byte_order: ByteOrder,
    pub value_type: ValueType,
    pub factor_bits: u64,
    pub offset_bits: u64,
    pub minimum: SignalBound,
    pub maximum: SignalBound,
    pub unit: Seq<char>,
    pub comment: Seq<char>,
}

impl View for SignalView {
    type V = SignalViewSpec;

    open spec fn view(&self) -> SignalViewSpec {
        SignalViewSpec {
            name: self.name@,
            start_bit: self.start_bit,
            signal_size: self.signal_size,
            byte_order: self.byte_order,
            value_type: self.value_type,
            factor_bits: self.factor_bits,
            offset_bits: self.offset_bits,
            minimum: self.minimum,
            maximum: self.maximum,
            unit: self.unit@,
            comment: self.comment@,
        }
    }
}

impl Clone for SignalView {
    fn clone(&self) -> (r: Self)
        ensures
            r@ == self@,
    {
        SignalView {
            name: self.name.clone(),
            start_bit: self.start_bit,
            signal_size: self.signal_size,
            byte_order: self.byte_order,
            value_type: self.value_type,
            factor_bits: self.factor_bits,
            offset_bits: self.offset_bits,
            minimum: self.minimum,
            maximum: self.maximum,
            unit: self.unit.clone(),
            comment: self.comment.clone(),
        }
    }
}

/// The view of a signal taken straight from the document; it has no comment
/// of its own.
pub open spec fn signal_view_of_record(s: SignalRecordView) -> SignalViewSpec {
    SignalViewSpec {
        name: s.name,
        start_bit: s.start_bit,
        signal_size: s.signal_size,
        byte_order: s.byte_order,
        value_type: s.value_type,
        factor_bits: s.factor_bits,
        offset_bits: s.offset_bits,
        minimum: s.minimum,
        maximum: s.maximum,
        unit: s.unit,
        comment: Seq::empty(),
    }
}

/// The view of a signal taken from an override record, shown under the given
/// name.
pub open spec fn signal_view_of_override(name: Seq<char>, o: SignalOverrideView) -> SignalViewSpec {
    SignalViewSpec {
        name,
        start_bit: o.start_bit,
        signal_size: o.signal_size,
        byte_order: o.byte_order,
        value_type: o.value_type,
        factor_bits: o.factor_bits,
        offset_bits: o.offset_bits,
        minimum: o.minimum,
        maximum: o.maximum,
        unit: o.unit,
        comment: o.comment,
    }
}

/// A message as shown: its identity and its signals, each with a recorded
/// override already applied.
#[derive(Debug)]
pub struct MessageView {
    pub message_id: u32,
    pub message_name: String,
    pub signals: Vec<SignalView>,
}

/// Mathematical value of a `MessageView`.
pub struct MessageViewSpec {
    pub message_id: u32,
    pub message_name: Seq<char>,
    pub signals: Seq<SignalViewSpec>,
}

impl View for MessageView {
    type V = MessageViewSpec;

    open spec fn view(&self) -> MessageViewSpec {
        MessageViewSpec {
            message_id: self.message_id,
            message_name: self.message_name@,
            signals: self.signals@.map(|i: int, s: SignalView| s@),
        }
    }
}

impl Clone for MessageView {
    fn clone(&self) -> (r: Self)
        ensures
            r@ == self@,
    {
        let mut signals: Vec<SignalView> = Vec::new();
        let mut i: usize = 0;
        while i < self.signals.len()
            invariant
                i <= self.signals@.len(),
                signals@.len() == i,
                forall|j: int| 0 <= j < i ==> signals@[j]@ == #[trigger] self.signals@[j]@,
            decreases self.signals@.len() - i,
        {
            signals.push(self.signals[i].clone());
            i = i + 1;
        }
        let r = MessageView {
            message_id: self.message_id,
            message_name: self.message_name.clone(),
            signals,
        };
        proof {
            assert(r@.signals =~= self@.signals);
        }
        r
    }
}

/// What a message looks like through the overlay: each signal is shown from
/// its override when (message identifier, signal name) has one recorded.
pub open spec fn message_view_spec(m: OverlayView, r: MessageRefView) -> MessageViewSpec {
    MessageViewSpec {
        message_id: r.spec_id(),
        message_name: r.spec_name(),
        signals: Seq::new(
            r.spec_signals().len(),
            |j: int|
                {
                    let sig = r.spec_signals()[j];
                    if m.signals.contains_key((r.spec_id(), sig.name)) {
                        signal_view_of_override(sig.name, m.signals[(r.spec_id(), sig.name)])
                    } else {
                        signal_view_of_record(sig)
                    }
                },
        ),
    }
}

impl SignalView {
    /// The display record of a signal of the base document.
    pub fn from_original(sig: &SignalRecord) -> (r: Self)
        ensures
            r@ == signal_view_of_record(sig@),
    {
        SignalView {
            name: sig.name.clone(),
            start_bit: sig.start_bit,
            signal_size: sig.signal_size,
            byte_order: sig.byte_order,
            value_type: sig.value_type,
            factor_bits: sig.factor_bits,
            offset_bits: sig.offset_bits,
            minimum: sig.minimum,
            maximum: sig.maximum,
            unit: sig.unit.clone(),
            comment: String::new(),
        }
    }

    /// The display record of a signal with a recorded override, shown under
    /// the given name.
    pub fn from_override(name: String, ov: &SignalOverride) -> (r: Self)
        ensures
            r@ == signal_view_of_override(name@, ov@),
    {
        SignalView {
            name,
            start_bit: ov.start_bit,
            signal_size: ov.signal_size,
            byte_order: ov.byte_order,
            value_type: ov.value_type,
            factor_bits: ov.factor_bits,
            offset_bits: ov.offset_bits,
            minimum: ov.minimum,
            maximum: ov.maximum,
            unit: ov.unit.clone(),
            comment: ov.comment.clone(),
        }
    }
}

impl MessageView {
    /// Resolves one visible message against the overlay's signal overrides.
    pub fn from_message_ref(msg_ref: &MessageRef, editable: &EditableDbcData) -> (r: Self)
        requires
            editable.wf(),
        ensures
            r@ == message_view_spec(editable@, msg_ref@),
    {
        let message_id = msg_ref.message_id();
        let message_name = msg_ref.message_name().to_owned();
        let sigs = msg_ref.signals();
        let ghost sv = msg_ref@.spec_signals();
        let mut signals: Vec<SignalView> = Vec::new();
        let mut j: usize = 0;
        while j < sigs.len()
            invariant
                j <= sigs@.len(),
                editable.wf(),
                sv == msg_ref@.spec_signals(),
                sv == crate::dbc::signals_view(sigs@),
                sv.len() == sigs@.len(),
                message_id == msg_ref@.spec_id(),
                signals@.len() == j,
                forall|x: int|
                    0 <= x < j ==> #[trigger] signals@[x]@ == message_view_spec(
                        editable@,
                        msg_ref@,
                    ).signals[x],
            decreases sigs@.len() - j,
        {
            let sig = &sigs[j];
            proof {
                assert(sv[j as int] == sigs@[j as int]@);
            }
            match editable.get_signal_override(message_id, sig.name.as_str()) {
                Some(ov) => {
                    signals.push(SignalView::from_override(sig.name.clone(), ov));
                },
                None => {
                    signals.push(SignalView::from_original(sig));
                },
            }
            j = j + 1;
        }
        let r = MessageView { message_id, message_name, signals };
        proof {
            assert(r@.signals =~= message_view_spec(editable@, msg_ref@).signals);
        }
        r
    }

    /// The identifier shown.
    pub fn message_id(&self) -> (r: u32)
        ensures
            r == self@.message_id,
    {
        self.message_id
    }

    /// The name shown.
    pub fn message_name(&self) -> (r: &str)
        ensures
            r@ == self@.message_name,
    {
        self.message_name.as_str()
    }
}

} // verus!
