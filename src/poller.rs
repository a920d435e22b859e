use vstd::prelude::*;

verus! {

/// A key-state reading, as the operating system reports it for one virtual
/// key, counts as "up" when its high byte is clear.
pub open spec fn key_is_up(state: i16) -> bool {
    0 <= state < 256
}

/// Whether any reading in `states` shows its key up.
pub open spec fn any_up(states: Seq<i16>) -> bool {
    exists|i: int| 0 <= i < states.len() && key_is_up(#[trigger] states[i])
}

/// True when the high byte of a key-state reading is zero.
fn high_byte_clear(state: i16) -> (r: bool)
    ensures
        r == key_is_up(state),
{
    let r = (state >> 8u32) == 0;
    assert(((state >> 8u32) == 0) == (0 <= state && state < 256)) by (bit_vector);
    r
}

/// Decides whether a push-to-talk combination has been let go, from one
/// key-state reading per key of the combination: true when any key of it is
/// up. An empty reading (no combination configured) is never a release.
pub fn is_key_release(states: &[i16]) -> (r: bool)
    ensures
        r == any_up(states@),
        states@.len() == 0 ==> !r,
{
    let mut release = false;
    let mut k: usize = 0;
    while k < states.len()
        invariant
            k <= states@.len(),
            release == exists|i: int| 0 <= i < k && key_is_up(#[trigger] states@[i]),
        decreases states@.len() - k,
    {
        let up = high_byte_clear(states[k]);
        release = release || up;
        k = k + 1;
    }
    release
}

} // verus!
