use vstd::prelude::*;

verus! {

/// The position of the first entry keyed `k`, or `None` when no entry is.
pub open spec fn entry_index<T>(entries: Seq<(u128, T)>, k: u128) -> Option<int>
    decreases entries.len(),
{
    if entries.len() == 0 {
        None
    } else if entries[0].0 == k {
        Some(0int)
    } else {
        match entry_index(entries.drop_first(), k) {
            Some(i) => Some(i + 1),
            None => None,
        }
    }
}

/// Relies on uuid's Uuid::new_v4 and Uuid::as_u128: a freshly generated
/// random identifier. Nothing is promised of the value, which is random.
#[verifier::external_body]
pub(crate) fn fresh_u128() -> u128 {
    uuid::Uuid::new_v4().as_u128()
}

} // verus!
