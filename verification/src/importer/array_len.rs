//! The evaluation of array lengths by a callback that the compiler installs.

use vstd::prelude::*;

verus! {

/// The place for the callback.
#[derive(Debug)]
pub struct ArrayLenSlot<F> {
    pub callback: Option<F>,
}

/// A place without a callback.
pub fn empty_array_len_slot<F>() -> (slot: ArrayLenSlot<F>)
    ensures
        slot.callback is None,
{
    ArrayLenSlot { callback: None }
}

/// Installs the callback, in place of the one that was there. The callback has
/// to be cleared before what it borrows is released.
pub fn install_array_len_eval<F>(slot: &mut ArrayLenSlot<F>, f: F)
    ensures
        final(slot).callback == Some(f),
{
    slot.callback = Some(f);
}

/// Removes the callback.
pub fn clear_array_len_eval<F>(slot: &mut ArrayLenSlot<F>)
    ensures
        final(slot).callback is None,
{
    slot.callback = None;
}

/// The length that the callback gives, none where there is no callback.
pub fn eval_array_len<C, F: Fn(&C) -> Option<u64>>(slot: &ArrayLenSlot<F>, length: &C) -> (evaluated:
    Option<u64>)
    requires
        slot.callback matches Some(f) ==> call_requires(f, (length,)),
    ensures
        match slot.callback {
            Some(f) => call_ensures(f, (length,), evaluated),
            None => evaluated is None,
        },
{
    match &slot.callback {
        Some(f) => f(length),
        None => None,
    }
}

/// Without a callback there is no length, whatever is asked for; with one, the
/// length is what it answers for what is asked.
pub proof fn lengths_come_from_the_callback<C, F: Fn(&C) -> Option<u64>>(
    empty: ArrayLenSlot<F>,
    slot: ArrayLenSlot<F>,
    f: F,
    length: C,
    of_empty: Option<u64>,
    evaluated: Option<u64>,
)
    requires
        call_ensures(empty_array_len_slot::<F>, (), empty),
        call_ensures(eval_array_len::<C, F>, (&empty, &length), of_empty),
        slot.callback == Some(f),
        call_ensures(eval_array_len::<C, F>, (&slot, &length), evaluated),
    ensures
        of_empty is None,
        call_ensures(f, (&length,), evaluated),
{
}

} // verus!
