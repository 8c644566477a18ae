//! Bridging facts about deep views, shared by the codec modules.

use vstd::prelude::*;

verus! {

/// The deep view of a byte vector is its plain view.
pub broadcast proof fn lemma_bytes_deep_view(v: Vec<u8>)
    ensures
        #[trigger] v.deep_view() == v@,
{
    assert(v.deep_view() =~= v@);
}

/// The deep view of a boolean vector is its plain view.
pub broadcast proof fn lemma_bools_deep_view(v: Vec<bool>)
    ensures
        #[trigger] v.deep_view() == v@,
{
    assert(v.deep_view() =~= v@);
}

/// The deep view of a vector of 64-bit integers is its plain view.
pub broadcast proof fn lemma_u64s_deep_view(v: Vec<u64>)
    ensures
        #[trigger] v.deep_view() == v@,
{
    assert(v.deep_view() =~= v@);
}

/// A vector's deep view has the length of its plain view.
pub broadcast proof fn lemma_deep_view_len<T: DeepView>(v: Vec<T>)
    ensures
        #[trigger] v.deep_view().len() == v@.len(),
{
}

/// A vector's deep view indexes to the deep view of the element.
pub broadcast proof fn lemma_deep_view_index<T: DeepView>(v: Vec<T>, i: int)
    requires
        0 <= i < v@.len(),
    ensures
        #[trigger] v.deep_view()[i] == v@[i].deep_view(),
{
}

/// Pushing an element pushes its deep view.
pub proof fn lemma_deep_view_push<T: DeepView>(a: Vec<T>, b: Vec<T>, x: T)
    requires
        a@ == b@.push(x),
    ensures
        a.deep_view() == b.deep_view().push(x.deep_view()),
{
    assert(a.deep_view() =~= b.deep_view().push(x.deep_view()));
}

} // verus!
