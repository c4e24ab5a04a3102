use vstd::prelude::*;
use arrayvec::ArrayVec;
use crate::error::VmError;

verus! {

/// Greatest number of return addresses that the call stack holds.
pub const STACK_SIZE: usize = 64;

/// `arrayvec::ArrayVec`: a vector of at most `CAP` elements that are stored
/// inline. Nothing is known of a value of it but what the functions below
/// say.
#[verifier::external_type_specification]
#[verifier::external_body]
#[verifier::reject_recursive_types(T)]
pub struct ExArrayVec<T, const CAP: usize>(ArrayVec<T, CAP>);

/// The addresses held by the backing vector, the oldest first.
pub uninterp spec fn stack_items(storage: ArrayVec<u16, 64>) -> Seq<u16>;

/// `ArrayVec::new`: a fresh vector holds nothing.
#[verifier::external_body]
fn storage_new() -> (storage: ArrayVec<u16, 64>)
    ensures
        stack_items(storage) == Seq::<u16>::empty(),
{
    ArrayVec::new()
}

/// `ArrayVec::is_full`: true exactly when the length has reached the capacity.
#[verifier::external_body]
fn storage_is_full(storage: &ArrayVec<u16, 64>) -> (full: bool)
    ensures
        full == (stack_items(*storage).len() == 64),
{
    storage.is_full()
}

/// `ArrayVec::push`: appends the element; it panics on a full vector, which
/// the precondition leaves out.
#[verifier::external_body]
fn storage_push(storage: &mut ArrayVec<u16, 64>, value: u16)
    requires
        stack_items(*old(storage)).len() < 64,
    ensures
        stack_items(*final(storage)) == stack_items(*old(storage)).push(value),
{
    storage.push(value)
}

/// `ArrayVec::pop`: removes and returns the last element, or returns `None`
/// and changes nothing when the vector is empty.
#[verifier::external_body]
fn storage_pop(storage: &mut ArrayVec<u16, 64>) -> (top: Option<u16>)
    ensures
        stack_items(*old(storage)).len() == 0 ==> top.is_none() && stack_items(*final(storage))
            == stack_items(*old(storage)),
        stack_items(*old(storage)).len() > 0 ==> top == Some(stack_items(*old(storage)).last())
            && stack_items(*final(storage)) == stack_items(*old(storage)).drop_last(),
{
    storage.pop()
}

/// The call stack: return addresses, last in first out, at most
/// [`STACK_SIZE`] of them.
pub struct Stack {
    data: ArrayVec<u16, 64>,
}

impl View for Stack {
    type V = Seq<u16>;

    closed spec fn view(&self) -> Seq<u16> {
        stack_items(self.data)
    }
}

impl Stack {
    /// The stack never holds more than its capacity.
    pub open spec fn wf(&self) -> bool {
        self@.len() <= STACK_SIZE
    }

    pub fn new() -> (stack: Stack)
        ensures
            stack@ == Seq::<u16>::empty(),
            stack.wf(),
    {
        Stack { data: storage_new() }
    }

    /// Puts `value` on top, unless the stack is full.
    pub fn push(&mut self, value: u16) -> (r: Result<(), VmError>)
        requires
            old(self).wf(),
        ensures
            final(self).wf(),
            (final(self)@, r) == pushed(old(self)@, value),
    {
        if storage_is_full(&self.data) {
            return Err(VmError::StackOverflow);
        }
        storage_push(&mut self.data, value);
        Ok(())
    }

    /// Takes the top value off, unless the stack is empty.
    pub fn pop(&mut self) -> (r: Result<u16, VmError>)
        requires
            old(self).wf(),
        ensures
            final(self).wf(),
            (final(self)@, r) == popped(old(self)@),
    {
        match storage_pop(&mut self.data) {
            Some(value) => Ok(value),
            None => Err(VmError::StackUnderflow),
        }
    }
}

/// What a push of `value` does to a stack that holds `items`: the items
/// afterwards, and the result.
pub open spec fn pushed(items: Seq<u16>, value: u16) -> (Seq<u16>, Result<(), VmError>) {
    if items.len() < STACK_SIZE {
        (items.push(value), Ok(()))
    } else {
        (items, Err(VmError::StackOverflow))
    }
}

/// What a pop does to a stack that holds `items`: the items afterwards, and
/// the result.
pub open spec fn popped(items: Seq<u16>) -> (Seq<u16>, Result<u16, VmError>) {
    if items.len() > 0 {
        (items.drop_last(), Ok(items.last()))
    } else {
        (items, Err(VmError::StackUnderflow))
    }
}

/// Last in, first out: a pop right after a push that succeeded gives back
/// the value pushed and leaves the stack as it was before the push.
pub proof fn lemma_push_then_pop(items: Seq<u16>, value: u16)
    requires
        items.len() < STACK_SIZE,
    ensures
        pushed(items, value).1 is Ok,
        popped(pushed(items, value).0) == (items, Ok::<u16, VmError>(value)),
{
    assert(items.push(value).drop_last() =~= items);
}

/// The stack holds at most 64 values: pushes onto an empty stack succeed
/// until 64 values are held, and the next push is refused. A pop from an
/// empty stack is refused.
pub proof fn lemma_stack_bounds(items: Seq<u16>, value: u16)
    requires
        items.len() <= STACK_SIZE,
    ensures
        pushed(items, value).1 is Ok <==> items.len() < STACK_SIZE,
        pushed(items, value).0.len() <= STACK_SIZE,
        popped(items).1 is Ok <==> items.len() > 0,
        popped(Seq::<u16>::empty()) == (Seq::<u16>::empty(), Err::<u16, VmError>(VmError::StackUnderflow)),
{
}

} // verus!
