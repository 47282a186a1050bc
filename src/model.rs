use vstd::prelude::*;

verus! {

/// The populated prefix after one fill of `input` into a scratch region of
/// `capacity` bytes whose populated prefix was `pending`: as many leading
/// bytes of `input` as there is room for are appended.
pub open spec fn filled_after(pending: Seq<u8>, capacity: nat, input: Seq<u8>) -> Seq<u8> {
    let room = capacity - pending.len();
    if input.len() <= room {
        pending + input
    } else {
        pending + input.take(room)
    }
}

/// The populated prefix after filling each of `inputs` in turn.
pub open spec fn filled_after_all(pending: Seq<u8>, capacity: nat, inputs: Seq<Seq<u8>>) -> Seq<u8>
    decreases inputs.len(),
{
    if inputs.len() == 0 {
        pending
    } else {
        filled_after_all(filled_after(pending, capacity, inputs.first()), capacity, inputs.drop_first())
    }
}

/// Fills whose lengths add up to no more than the room left are all accepted
/// whole: the populated prefix becomes the old one followed by every input,
/// in order, and so its length (the cursor) grows by their total length.
pub proof fn lemma_fills_concatenate(pending: Seq<u8>, capacity: nat, inputs: Seq<Seq<u8>>)
    requires
        pending.len() + inputs.flatten().len() <= capacity,
    ensures
        filled_after_all(pending, capacity, inputs) == pending + inputs.flatten(),
        filled_after_all(pending, capacity, inputs).len() == pending.len() + inputs.flatten().len(),
    decreases inputs.len(),
{
    if inputs.len() > 0 {
        let next = filled_after(pending, capacity, inputs.first());
        assert(next == pending + inputs.first());
        lemma_fills_concatenate(next, capacity, inputs.drop_first());
        assert(pending + inputs.first() + inputs.drop_first().flatten() == pending + inputs.flatten());
    } else {
        assert(pending + inputs.flatten() == pending);
    }
}

} // verus!
