//! Binding of the operation model to the overlay: says what each operation
//! does to an `EditableDbcData`, forward and backward, and proves the laws
//! that make undo and redo trustworthy.

use crate::dbc::{
    add_message_model, delete_message_model, remove_signal_model, set_comment_model, set_id_model,
    set_name_model, set_signal_model, set_size_model, set_transmitter_model, EditableDbcData,
    OverlayView,
};
use crate::edit_history::{ApplyOp, EditError, Operation};
use vstd::prelude::*;

verus! {

/// The overlay value after applying one operation in the given direction.
pub open spec fn apply_model(op: Operation, m: OverlayView, forward: bool) -> OverlayView
    decreases op, 1int,
{
    match op {
        Operation::RenameMessage { message_id, old_name, new_name } => {
            if forward {
                set_name_model(m, message_id, new_name@)
            } else {
                set_name_model(m, message_id, old_name@)
            }
        },
        Operation::ModifyMessageId { original_message_id, old_id, new_id } => {
            if forward {
                set_id_model(m, original_message_id, new_id)
            } else {
                set_id_model(m, original_message_id, old_id)
            }
        },
        Operation::ModifyMessageComment { message_id, old_comment, new_comment } => {
            if forward {
                set_comment_model(m, message_id, new_comment@)
            } else {
                set_comment_model(m, message_id, old_comment@)
            }
        },
        Operation::ModifyMessageSize { message_id, old_size, new_size } => {
            if forward {
                set_size_model(m, message_id, new_size)
            } else {
                set_size_model(m, message_id, old_size)
            }
        },
        Operation::ModifyMessageTransmitter { message_id, old_transmitter, new_transmitter } => {
            if forward {
                set_transmitter_model(m, message_id, new_transmitter@)
            } else {
                set_transmitter_model(m, message_id, old_transmitter@)
            }
        },
        Operation::ModifySignal { message_id, signal_name, old_override, new_override } => {
            if forward {
                set_signal_model(m, message_id, signal_name@, new_override@)
            } else {
                match old_override {
                    Some(o) => set_signal_model(m, message_id, signal_name@, o@),
                    None => remove_signal_model(m, message_id, signal_name@),
                }
            }
        },
        Operation::AddMessage { message } => {
            if forward {
                add_message_model(m, message@)
            } else {
                delete_message_model(m, message@.message_id)
            }
        },
        Operation::DeleteMessage { message } => {
            if forward {
                delete_message_model(m, message@.message_id)
            } else {
                add_message_model(m, message@)
            }
        },
        Operation::Composite(ops) => apply_ops(ops@, m, forward),
    }
}

/// The overlay value after applying a list of operations: forward in order,
/// backward in reverse order.
pub open spec fn apply_ops(ops: Seq<Operation>, m: OverlayView, forward: bool) -> OverlayView
    decreases ops, 0int,
{
    if ops.len() == 0 {
        m
    } else if forward {
        apply_model(ops.last(), apply_ops(ops.drop_last(), m, true), true)
    } else {
        apply_ops(ops.drop_last(), apply_model(ops.last(), m, false), false)
    }
}

/// Whether an operation's recorded old values agree exactly with the overlay
/// it is applied to — the condition under which undoing restores the overlay
/// bit for bit. It holds when the operation was built by reading the overlay
/// it is then applied to, and the field being edited had an override (or, for
/// an empty old value, none); for a composite it must hold of each
/// sub-operation at its own point of application.
pub open spec fn undoes_exactly(op: Operation, m: OverlayView) -> bool
    decreases op, 1int,
{
    match op {
        Operation::RenameMessage { message_id, old_name, new_name } => {
            if old_name@.len() == 0 {
                !m.names.contains_key(message_id)
            } else {
                m.names.contains_key(message_id) && m.names[message_id] == old_name@
            }
        },
        Operation::ModifyMessageId { original_message_id, old_id, new_id } => {
            if old_id == original_message_id {
                !m.ids.contains_key(original_message_id)
            } else {
                m.ids.contains_key(original_message_id) && m.ids[original_message_id] == old_id
            }
        },
        Operation::ModifyMessageComment { message_id, old_comment, new_comment } => {
            if old_comment@.len() == 0 {
                !m.comments.contains_key(message_id)
            } else {
                m.comments.contains_key(message_id) && m.comments[message_id] == old_comment@
            }
        },
        Operation::ModifyMessageSize { message_id, old_size, new_size } => {
            m.sizes.contains_key(message_id) && m.sizes[message_id] == old_size
        },
        Operation::ModifyMessageTransmitter { message_id, old_transmitter, new_transmitter } => {
            if old_transmitter@.len() == 0 {
                !m.transmitters.contains_key(message_id)
            } else {
                m.transmitters.contains_key(message_id) && m.transmitters[message_id]
                    == old_transmitter@
            }
        },
        Operation::ModifySignal { message_id, signal_name, old_override, new_override } => {
            match old_override {
                Some(o) => m.signals.contains_key((message_id, signal_name@)) && m.signals[(
                    message_id,
                    signal_name@,
                )] == o@,
                None => !m.signals.contains_key((message_id, signal_name@)),
            }
        },
        Operation::AddMessage { message } => {
            !m.added.contains_key(message@.message_id) && !m.deleted.contains(message@.message_id)
        },
        Operation::DeleteMessage { message } => {
            m.added.contains_key(message@.message_id) && m.added[message@.message_id] == message@
                && !m.deleted.contains(message@.message_id)
        },
        Operation::Composite(ops) => ops_undo_exactly(ops@, m),
    }
}

/// `undoes_exactly` for a list: each operation agrees with the overlay at its
/// own point of application.
pub open spec fn ops_undo_exactly(ops: Seq<Operation>, m: OverlayView) -> bool
    decreases ops, 0int,
{
    if ops.len() == 0 {
        true
    } else {
        ops_undo_exactly(ops.drop_last(), m) && undoes_exactly(
            ops.last(),
            apply_ops(ops.drop_last(), m, true),
        )
    }
}

/// Round trip: applying any operation forward and then backward restores the
/// overlay exactly, provided the operation's recorded old values agree with
/// the overlay it starts from. Holds of every variant, the composite
/// included.
pub proof fn lemma_round_trip(op: Operation, m: OverlayView)
    requires
        undoes_exactly(op, m),
    ensures
        apply_model(op, apply_model(op, m, true), false) == m,
    decreases op, 1int,
{
    match op {
        Operation::RenameMessage { message_id, old_name, new_name } => {
            assert(apply_model(op, apply_model(op, m, true), false).names =~= m.names);
        },
        Operation::ModifyMessageId { original_message_id, old_id, new_id } => {
            assert(apply_model(op, apply_model(op, m, true), false).ids =~= m.ids);
        },
        Operation::ModifyMessageComment { message_id, old_comment, new_comment } => {
            assert(apply_model(op, apply_model(op, m, true), false).comments =~= m.comments);
        },
        Operation::ModifyMessageSize { message_id, old_size, new_size } => {
            assert(apply_model(op, apply_model(op, m, true), false).sizes =~= m.sizes);
        },
        Operation::ModifyMessageTransmitter { message_id, old_transmitter, new_transmitter } => {
            assert(apply_model(op, apply_model(op, m, true), false).transmitters
                =~= m.transmitters);
        },
        Operation::ModifySignal { message_id, signal_name, old_override, new_override } => {
            assert(apply_model(op, apply_model(op, m, true), false).signals =~= m.signals);
        },
        Operation::AddMessage { message } => {
            assert(apply_model(op, apply_model(op, m, true), false).added =~= m.added);
            assert(apply_model(op, apply_model(op, m, true), false).deleted =~= m.deleted);
        },
        Operation::DeleteMessage { message } => {
            assert(apply_model(op, apply_model(op, m, true), false).added =~= m.added);
            assert(apply_model(op, apply_model(op, m, true), false).deleted =~= m.deleted);
        },
        Operation::Composite(ops) => {
            lemma_ops_round_trip(ops@, m);
        },
    }
}

/// Round trip for a list of operations: applying them all forward and then
/// all backward restores the overlay exactly, provided each agrees with the
/// overlay at its own point of application.
pub proof fn lemma_ops_round_trip(ops: Seq<Operation>, m: OverlayView)
    requires
        ops_undo_exactly(ops, m),
    ensures
        apply_ops(ops, apply_ops(ops, m, true), false) == m,
    decreases ops, 0int,
{
    if ops.len() > 0 {
        let init = ops.drop_last();
        let l = ops.last();
        let mid = apply_ops(init, m, true);
        lemma_round_trip(l, mid);
        lemma_ops_round_trip(init, m);
    }
}

/// History symmetry: after a run of operations is applied in order, undoing
/// them all (newest first) restores the starting overlay, and redoing them
/// all reproduces exactly the overlay the original run produced.
pub proof fn lemma_history_symmetry(ops: Seq<Operation>, m: OverlayView)
    requires
        ops_undo_exactly(ops, m),
    ensures
        apply_ops(ops, apply_ops(ops, m, true), false) == m,
        apply_ops(ops, apply_ops(ops, apply_ops(ops, m, true), false), true) == apply_ops(
            ops,
            m,
            true,
        ),
{
    lemma_ops_round_trip(ops, m);
}

/// Applies one operation to the overlay, forward or backward; the composite
/// applies its parts in order, or in reverse order when undoing.
#[verifier::loop_isolation(false)]
pub fn apply_operation(op: &Operation, state: &mut EditableDbcData, forward: bool) -> (r: Result<
    (),
    EditError,
>)
    requires
        old(state).wf(),
    ensures
        final(state).wf(),
        r is Ok,
        final(state)@ == apply_model(*op, old(state)@, forward),
    decreases *op,
{
    match op {
        Operation::RenameMessage { message_id, old_name, new_name } => {
            if forward {
                state.set_message_name(*message_id, new_name.clone());
            } else {
                state.set_message_name(*message_id, old_name.clone());
            }
            Ok(())
        },
        Operation::ModifyMessageId { original_message_id, old_id, new_id } => {
            if forward {
                state.set_message_id(*original_message_id, *new_id);
            } else {
                state.set_message_id(*original_message_id, *old_id);
            }
            Ok(())
        },
        Operation::ModifyMessageComment { message_id, old_comment, new_comment } => {
            if forward {
                state.set_message_comment(*message_id, new_comment.clone());
            } else {
                state.set_message_comment(*message_id, old_comment.clone());
            }
            Ok(())
        },
        Operation::ModifyMessageSize { message_id, old_size, new_size } => {
            if forward {
                state.set_message_size(*message_id, *new_size);
            } else {
                state.set_message_size(*message_id, *old_size);
            }
            Ok(())
        },
        Operation::ModifyMessageTransmitter { message_id, old_transmitter, new_transmitter } => {
            if forward {
                state.set_message_transmitter(*message_id, new_transmitter.clone());
            } else {
                state.set_message_transmitter(*message_id, old_transmitter.clone());
            }
            Ok(())
        },
        Operation::ModifySignal { message_id, signal_name, old_override, new_override } => {
            if forward {
                state.set_signal_override(*message_id, signal_name.clone(), new_override.clone());
            } else {
                match old_override {
                    Some(o) => {
                        state.set_signal_override(*message_id, signal_name.clone(), o.clone());
                    },
                    None => {
                        state.remove_signal_override(*message_id, signal_name.as_str());
                    },
                }
            }
            Ok(())
        },
        Operation::AddMessage { message } => {
            if forward {
                state.add_message(message.clone());
            } else {
                state.delete_message(message.message_id);
            }
            Ok(())
        },
        Operation::DeleteMessage { message } => {
            if forward {
                state.delete_message(message.message_id);
            } else {
                state.add_message(message.clone());
            }
            Ok(())
        },
        Operation::Composite(ops) => {
            if forward {
                let mut i: usize = 0;
                while i < ops.len()
                    invariant
                        i <= ops@.len(),
                        state.wf(),
                        state@ == apply_ops(ops@.take(i as int), old(state)@, true),
                    decreases ops@.len() - i,
                {
                    let _ = apply_operation(&ops[i], state, true);
                    proof {
                        assert(ops@.take(i + 1).drop_last() =~= ops@.take(i as int));
                        assert(ops@.take(i + 1).last() == ops@[i as int]);
                    }
                    i = i + 1;
                }
                proof {
                    assert(ops@.take(i as int) =~= ops@);
                }
            } else {
                let mut i: usize = ops.len();
                proof {
                    assert(ops@.take(i as int) =~= ops@);
                }
                while i > 0
                    invariant
                        i <= ops@.len(),
                        state.wf(),
                        apply_ops(ops@, old(state)@, false) == apply_ops(
                            ops@.take(i as int),
                            state@,
                            false,
                        ),
                    decreases i,
                {
                    let _ = apply_operation(&ops[i - 1], state, false);
                    proof {
                        assert(ops@.take(i as int).drop_last() =~= ops@.take(i - 1));
                        assert(ops@.take(i as int).last() == ops@[i - 1]);
                    }
                    i = i - 1;
                }
                proof {
                    assert(ops@.take(0) =~= Seq::<Operation>::empty());
                }
            }
            Ok(())
        },
    }
}

impl ApplyOp<EditableDbcData> for Operation {
    open spec fn state_wf(s: EditableDbcData) -> bool {
        s.wf()
    }

    open spec fn op_admits(&self, m: OverlayView, forward: bool) -> bool {
        true
    }

    open spec fn op_result(&self, m: OverlayView, forward: bool) -> OverlayView {
        apply_model(*self, m, forward)
    }

    fn apply(&self, state: &mut EditableDbcData, forward: bool) -> (r: Result<(), EditError>) {
        apply_operation(self, state, forward)
    }
}

} // verus!
