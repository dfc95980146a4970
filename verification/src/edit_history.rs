//! Edit history: one chronological sequence of operations and a cursor.
//!
//! The engine is generic over the edited state through the [`ApplyOp`]
//! contract, so it can be driven against any state type that says what an
//! operation does to it.

use crate::dbc::{MessageOverride, SignalOverride};
use crate::numfmt::{dec_digits, hex_digits, push_dec_u64, push_hex_u64};
use vstd::prelude::*;

verus! {

/// Why an edit command did not run.
#[derive(Clone, Copy, Debug, PartialEq, Eq, Structural)]
pub enum EditError {
    /// An operation referred to a message or signal that the state no longer
    /// holds.
    NotFound,
    /// Undo was asked for with the cursor at the start of the sequence.
    NothingToUndo,
    /// Redo was asked for with the cursor at the end of the sequence.
    NothingToRedo,
}

impl EditError {
    /// A short text for display.
    pub fn message(&self) -> (r: &'static str)
        ensures
            r@ == match self {
                EditError::NotFound => "Not found"@,
                EditError::NothingToUndo => "Nothing to undo"@,
                EditError::NothingToRedo => "Nothing to redo"@,
            },
    {
        match self {
            EditError::NotFound => "Not found",
            EditError::NothingToUndo => "Nothing to undo",
            EditError::NothingToRedo => "Nothing to redo",
        }
    }
}

/// A lightweight signal representation for states that only track a few
/// signal fields.
#[derive(Clone, Debug, PartialEq)]
pub struct SignalData {
    pub name: String,
    pub start_bit: u64,
    pub size: u64,
}

/// One atomic, reversible edit. Every field-level variant carries the value
/// before and after the edit; add and delete carry the complete message
/// payload; a composite carries an ordered list of sub-operations.
#[derive(Debug)]
pub enum Operation {
    RenameMessage { message_id: u32, old_name: String, new_name: String },
    ModifyMessageId { original_message_id: u32, old_id: u32, new_id: u32 },
    ModifyMessageComment { message_id: u32, old_comment: String, new_comment: String },
    ModifyMessageSize { message_id: u32, old_size: u8, new_size: u8 },
    ModifyMessageTransmitter { message_id: u32, old_transmitter: String, new_transmitter: String },
    /// Replaces a signal override; `old_override` of `None` records that no
    /// override existed before, so undoing removes the entry again.
    ModifySignal {
        message_id: u32,
        signal_name: String,
        old_override: Option<SignalOverride>,
        new_override: SignalOverride,
    },
    AddMessage { message: MessageOverride },
    DeleteMessage { message: MessageOverride },
    Composite(Vec<Operation>),
}

impl Operation {
    /// The display text of an operation, for undo and redo menus.
    pub open spec fn describe_spec(self) -> Seq<char> {
        match self {
            Operation::RenameMessage { message_id, old_name, new_name } => "RenameMessage "@
                + dec_digits(message_id as int) + ": '"@ + old_name@ + "' -> '"@ + new_name@
                + "'"@,
            Operation::ModifyMessageId { original_message_id, old_id, new_id } => "ModifyMessageId "@
                + dec_digits(original_message_id as int) + ": 0x"@ + hex_digits(old_id as int)
                + " -> 0x"@ + hex_digits(new_id as int),
            Operation::ModifyMessageComment { message_id, old_comment, new_comment } => "ModifyMessageComment "@
                + dec_digits(message_id as int) + ": '"@ + old_comment@ + "' -> '"@ + new_comment@
                + "'"@,
            Operation::ModifyMessageSize { message_id, old_size, new_size } => "ModifyMessageSize "@
                + dec_digits(message_id as int) + ": "@ + dec_digits(old_size as int) + " -> "@
                + dec_digits(new_size as int),
            Operation::ModifyMessageTransmitter {
                message_id,
                old_transmitter,
                new_transmitter,
            } => "ModifyMessageTransmitter "@ + dec_digits(message_id as int) + ": '"@
                + old_transmitter@ + "' -> '"@ + new_transmitter@ + "'"@,
            Operation::ModifySignal { message_id, signal_name, .. } => "ModifySignal "@
                + dec_digits(message_id as int) + ":"@ + signal_name@,
            Operation::AddMessage { message } => "AddMessage "@ + dec_digits(
                message.message_id as int,
            ) + " ('"@ + message.message_name@ + "')"@,
            Operation::DeleteMessage { message } => "DeleteMessage "@ + dec_digits(
                message.message_id as int,
            ) + " ('"@ + message.message_name@ + "')"@,
            Operation::Composite(ops) => "Composite("@ + dec_digits(ops@.len() as int) + " ops)"@,
        }
    }

    /// Renders the display text of the operation.
    pub fn describe(&self) -> (r: String)
        ensures
            r@ == self.describe_spec(),
    {
        let mut out = String::new();
        match self {
            Operation::RenameMessage { message_id, old_name, new_name } => {
                out.append("RenameMessage ");
                push_dec_u64(&mut out, *message_id as u64);
                out.append(": '");
                out.append(old_name.as_str());
                out.append("' -> '");
                out.append(new_name.as_str());
                out.append("'");
            },
            Operation::ModifyMessageId { original_message_id, old_id, new_id } => {
                out.append("ModifyMessageId ");
                push_dec_u64(&mut out, *original_message_id as u64);
                out.append(": 0x");
                push_hex_u64(&mut out, *old_id as u64);
                out.append(" -> 0x");
                push_hex_u64(&mut out, *new_id as u64);
            },
            Operation::ModifyMessageComment { message_id, old_comment, new_comment } => {
                out.append("ModifyMessageComment ");
                push_dec_u64(&mut out, *message_id as u64);
                out.append(": '");
                out.append(old_comment.as_str());
                out.append("' -> '");
                out.append(new_comment.as_str());
                out.append("'");
            },
            Operation::ModifyMessageSize { message_id, old_size, new_size } => {
                out.append("ModifyMessageSize ");
                push_dec_u64(&mut out, *message_id as u64);
                out.append(": ");
                push_dec_u64(&mut out, *old_size as u64);
                out.append(" -> ");
                push_dec_u64(&mut out, *new_size as u64);
            },
            Operation::ModifyMessageTransmitter { message_id, old_transmitter, new_transmitter } => {
                out.append("ModifyMessageTransmitter ");
                push_dec_u64(&mut out, *message_id as u64);
                out.append(": '");
                out.append(old_transmitter.as_str());
                out.append("' -> '");
                out.append(new_transmitter.as_str());
                out.append("'");
            },
            Operation::ModifySignal { message_id, signal_name, .. } => {
                out.append("ModifySignal ");
                push_dec_u64(&mut out, *message_id as u64);
                out.append(":");
                out.append(signal_name.as_str());
            },
            Operation::AddMessage { message } => {
                out.append("AddMessage ");
                push_dec_u64(&mut out, message.message_id as u64);
                out.append(" ('");
                out.append(message.message_name.as_str());
                out.append("')");
            },
            Operation::DeleteMessage { message } => {
                out.append("DeleteMessage ");
                push_dec_u64(&mut out, message.message_id as u64);
                out.append(" ('");
                out.append(message.message_name.as_str());
                out.append("')");
            },
            Operation::Composite(ops) => {
                out.append("Composite(");
                push_dec_u64(&mut out, ops.len() as u64);
                out.append(" ops)");
            },
        }
        proof {
            assert(out@ =~= self.describe_spec());
        }
        out
    }
}

/// How to apply or undo a single operation on a state of type `S`.
///
/// `op_admits` says on which states the operation runs without error, and
/// `op_result` gives the state value after the call in every case — when a
/// composite stops at a failing sub-operation, that is the state with the
/// successful prefix applied. An implementation's `apply` must behave exactly
/// as these two functions say.
pub trait ApplyOp<S: View>: Sized {
    /// Validity of a state value; applications require it and preserve it.
    spec fn state_wf(s: S) -> bool;

    /// Whether applying in the given direction succeeds on a state with this
    /// mathematical value.
    spec fn op_admits(&self, m: <S as View>::V, forward: bool) -> bool;

    /// The mathematical value of the state after applying in the given
    /// direction.
    spec fn op_result(&self, m: <S as View>::V, forward: bool) -> <S as View>::V;

    /// Applies the operation to the state, forward or backward.
    fn apply(&self, state: &mut S, forward: bool) -> (r: Result<(), EditError>)
        requires
            Self::state_wf(*old(state)),
        ensures
            Self::state_wf(*final(state)),
            r is Ok <==> self.op_admits(old(state)@, forward),
            final(state)@ == self.op_result(old(state)@, forward),
            r is Err ==> r == Err::<(), EditError>(EditError::NotFound),
    ;
}

/// The edit log: committed operations in order, and a cursor in
/// `0 ..= len` that marks the next redo slot. At most `max_len` operations
/// are retained; older ones are evicted from the front.
#[derive(Debug)]
pub struct History {
    ops: Vec<Operation>,
    cursor: usize,
    pub max_len: usize,
}

impl History {
    /// The committed operations, oldest first.
    pub closed spec fn ops_seq(&self) -> Seq<Operation> {
        self.ops@
    }

    /// The cursor: operations before it can be undone, operations at and
    /// after it can be redone.
    pub closed spec fn cursor(&self) -> int {
        self.cursor as int
    }

    /// The retention cap the history was created with.
    pub closed spec fn retention_cap(&self) -> int {
        self.max_len as int
    }

    /// Validity: the cursor stays within the sequence.
    pub open spec fn wf(&self) -> bool {
        0 <= self.cursor() <= self.ops_seq().len()
    }

    /// Whether a step can be undone.
    pub open spec fn spec_can_undo(&self) -> bool {
        self.cursor() > 0
    }

    /// Whether a step can be redone.
    pub open spec fn spec_can_redo(&self) -> bool {
        self.cursor() < self.ops_seq().len()
    }

    /// An empty history with the given retention cap.
    pub fn new(max_len: usize) -> (r: Self)
        ensures
            r.wf(),
            r.ops_seq() == Seq::<Operation>::empty(),
            r.cursor() == 0,
            r.retention_cap() == max_len,
    {
        let r = History { ops: Vec::new(), cursor: 0, max_len };
        proof {
            assert(r.ops_seq() =~= Seq::<Operation>::empty());
        }
        r
    }

    /// Commits and applies a new operation: any undone-but-not-redone tail is
    /// discarded, the operation is applied forward and appended, the cursor
    /// moves to the end, and the oldest entries are evicted when the
    /// retention cap is exceeded. A failed application leaves the history
    /// unchanged.
    pub fn apply_new<S: View>(&mut self, op: Operation, state: &mut S) -> (r: Result<
        (),
        EditError,
    >) where Operation: ApplyOp<S>
        requires
            old(self).wf(),
            <Operation as ApplyOp<S>>::state_wf(*old(state)),
        ensures
            <Operation as ApplyOp<S>>::state_wf(*final(state)),
            final(self).wf(),
            final(self).retention_cap() == old(self).retention_cap(),
            r is Ok <==> op.op_admits(old(state)@, true),
            final(state)@ == op.op_result(old(state)@, true),
            r is Err ==> *final(self) == *old(self) && r == Err::<(), EditError>(
                EditError::NotFound,
            ),
            r is Ok ==> {
                let kept = old(self).ops_seq().take(old(self).cursor()).push(op);
                let evict: int = if kept.len() > old(self).retention_cap() {
                    kept.len() - old(self).retention_cap()
                } else {
                    0
                };
                &&& final(self).ops_seq() == kept.skip(evict)
                &&& final(self).cursor() == final(self).ops_seq().len()
                &&& final(self).ops_seq().len() <= old(self).retention_cap()
            },
            r is Ok ==> !final(self).spec_can_redo(),
    {
        let r = op.apply(state, true);
        match r {
            Err(e) => Err(e),
            Ok(()) => {
                let ghost kept = old(self).ops_seq().take(old(self).cursor()).push(op);
                self.ops.truncate(self.cursor);
                self.ops.push(op);
                self.cursor = self.ops.len();
                proof {
                    assert(self.ops@ =~= kept);
                }
                if self.ops.len() > self.max_len {
                    let overflow = self.ops.len() - self.max_len;
                    let tail = self.ops.split_off(overflow);
                    self.ops = tail;
                    self.cursor = self.ops.len();
                }
                proof {
                    if kept.len() <= old(self).retention_cap() {
                        assert(self.ops@ =~= kept.skip(0));
                    }
                }
                Ok(())
            },
        }
    }

    /// Undoes one step: applies the operation before the cursor backward and
    /// moves the cursor back. Fails without touching anything when there is
    /// nothing to undo; a failed application leaves the cursor in place.
    pub fn undo<S: View>(&mut self, state: &mut S) -> (r: Result<(), EditError>) where
        Operation: ApplyOp<S>,

        requires
            old(self).wf(),
            <Operation as ApplyOp<S>>::state_wf(*old(state)),
        ensures
            <Operation as ApplyOp<S>>::state_wf(*final(state)),
            final(self).wf(),
            final(self).retention_cap() == old(self).retention_cap(),
            final(self).ops_seq() == old(self).ops_seq(),
            old(self).cursor() == 0 ==> r == Err::<(), EditError>(EditError::NothingToUndo)
                && *final(self) == *old(self) && *final(state) == *old(state),
            old(self).cursor() > 0 ==> {
                let op = old(self).ops_seq()[old(self).cursor() - 1];
                &&& (r is Ok <==> op.op_admits(old(state)@, false))
                &&& final(state)@ == op.op_result(old(state)@, false)
                &&& (r is Ok ==> final(self).cursor() == old(self).cursor() - 1)
                &&& (r is Err ==> *final(self) == *old(self) && r == Err::<(), EditError>(
                    EditError::NotFound,
                ))
            },
    {
        if self.cursor == 0 {
            return Err(EditError::NothingToUndo);
        }
        let r = self.ops[self.cursor - 1].apply(state, false);
        match r {
            Ok(()) => {
                self.cursor = self.cursor - 1;
                Ok(())
            },
            Err(e) => Err(e),
        }
    }

    /// Redoes one step: applies the operation at the cursor forward and moves
    /// the cursor on. Fails without touching anything when there is nothing
    /// to redo; a failed application leaves the cursor in place.
    pub fn redo<S: View>(&mut self, state: &mut S) -> (r: Result<(), EditError>) where
        Operation: ApplyOp<S>,

        requires
            old(self).wf(),
            <Operation as ApplyOp<S>>::state_wf(*old(state)),
        ensures
            <Operation as ApplyOp<S>>::state_wf(*final(state)),
            final(self).wf(),
            final(self).retention_cap() == old(self).retention_cap(),
            final(self).ops_seq() == old(self).ops_seq(),
            old(self).cursor() == old(self).ops_seq().len() ==> r == Err::<(), EditError>(
                EditError::NothingToRedo,
            ) && *final(self) == *old(self) && *final(state) == *old(state),
            old(self).cursor() < old(self).ops_seq().len() ==> {
                let op = old(self).ops_seq()[old(self).cursor()];
                &&& (r is Ok <==> op.op_admits(old(state)@, true))
                &&& final(state)@ == op.op_result(old(state)@, true)
                &&& (r is Ok ==> final(self).cursor() == old(self).cursor() + 1)
                &&& (r is Err ==> *final(self) == *old(self) && r == Err::<(), EditError>(
                    EditError::NotFound,
                ))
            },
    {
        if self.cursor >= self.ops.len() {
            return Err(EditError::NothingToRedo);
        }
        let r = self.ops[self.cursor].apply(state, true);
        match r {
            Ok(()) => {
                self.cursor = self.cursor + 1;
                Ok(())
            },
            Err(e) => Err(e),
        }
    }

    /// Whether a step can be undone.
    pub fn can_undo(&self) -> (r: bool)
        ensures
            r == self.spec_can_undo(),
    {
        self.cursor > 0
    }

    /// Whether a step can be redone.
    pub fn can_redo(&self) -> (r: bool)
        ensures
            r == self.spec_can_redo(),
    {
        self.cursor < self.ops.len()
    }

    /// How many operations are retained.
    pub fn len(&self) -> (r: usize)
        ensures
            r == self.ops_seq().len(),
    {
        self.ops.len()
    }
}

impl History {
    /// The display text of the operation that undo would revert next, if any.
    pub fn last_undo_description(&self) -> (r: Option<String>)
        requires
            self.wf(),
        ensures
            r is Some <==> self.spec_can_undo(),
            r matches Some(s) ==> s@ == self.ops_seq()[self.cursor() - 1].describe_spec(),
    {
        if self.cursor == 0 {
            None
        } else {
            Some(self.ops[self.cursor - 1].describe())
        }
    }

    /// The display text of the operation that redo would replay next, if any.
    pub fn last_redo_description(&self) -> (r: Option<String>)
        requires
            self.wf(),
        ensures
            r is Some <==> self.spec_can_redo(),
            r matches Some(s) ==> s@ == self.ops_seq()[self.cursor()].describe_spec(),
    {
        if self.cursor >= self.ops.len() {
            None
        } else {
            Some(self.ops[self.cursor].describe())
        }
    }
}

impl Default for History {
    fn default() -> (r: Self)
        ensures
            r.wf(),
            r.ops_seq() == Seq::<Operation>::empty(),
            r.cursor() == 0,
            r.retention_cap() == 0,
    {
        History::new(0)
    }
}

} // verus!
