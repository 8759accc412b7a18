//! The slot through which a completion callback hands its value to the
//! caller that waits for it.
use vstd::prelude::*;

verus! {

/// What a slot holds after `value` was written to it, whatever it held.
pub open spec fn written<T>(slot: Option<T>, value: T) -> Option<T> {
    Some(value)
}

/// What a read hands out of a slot.
pub open spec fn read<T>(slot: Option<T>) -> Option<T> {
    slot
}

/// What a slot holds after a read.
pub open spec fn emptied<T>(slot: Option<T>) -> Option<T> {
    None
}

/// One slot: written by the callback of an operation, read by the caller
/// once the operation is over.
#[derive(Debug)]
pub struct ResultCell<T> {
    slot: Option<T>,
}

impl<T> View for ResultCell<T> {
    type V = Option<T>;

    closed spec fn view(&self) -> Option<T> {
        self.slot
    }
}

impl<T> ResultCell<T> {
    /// An empty slot.
    pub fn new() -> (cell: ResultCell<T>)
        ensures
            cell@ is None,
    {
        ResultCell { slot: None }
    }

    /// The writer's half: puts `value` into the slot. A second write
    /// replaces the first.
    pub fn set(&mut self, value: T)
        ensures
            final(self)@ == written(old(self)@, value),
    {
        self.slot = Some(value);
    }

    /// The reader's half: hands out what was written and leaves the slot
    /// empty, so that the value comes out once.
    pub fn take(&mut self) -> (value: Option<T>)
        ensures
            value == read(old(self)@),
            final(self)@ == emptied(old(self)@),
    {
        self.slot.take()
    }

    /// Whether a value is waiting in the slot.
    pub fn is_written(&self) -> (b: bool)
        ensures
            b == (self@ is Some),
    {
        self.slot.is_some()
    }
}

/// After two writes the reader gets the second value, whole, and gets it
/// once: a further read finds the slot empty.
pub proof fn lemma_two_writes_one_read<T>(slot: Option<T>, first: T, second: T)
    ensures
        read(written(written(slot, first), second)) == Some(second),
        read(emptied(written(written(slot, first), second))) is None,
{
}

/// Before any write a read finds nothing.
pub proof fn lemma_read_before_write<T>()
    ensures
        read(Option::<T>::None) is None,
{
}

} // verus!
