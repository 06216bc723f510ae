//! Arrows in flight: deleted arrows are counted, and once enough of them
//! piled up, removed together with their data.
use vstd::prelude::*;

verus! {

/// The number of deleted arrows among the first `n`.
pub open spec fn deleted_count(deleted: Seq<bool>, n: int) -> nat
    decreases n,
{
    if n <= 0 {
        0
    } else {
        deleted_count(deleted, n - 1) + if deleted[n - 1] { 1nat } else { 0nat }
    }
}

/// The items among the first `n` whose arrow is not deleted, in order.
pub open spec fn kept<A>(items: Seq<A>, deleted: Seq<bool>, n: int) -> Seq<A>
    decreases n,
{
    if n <= 0 {
        Seq::empty()
    } else {
        let k = kept(items, deleted, n - 1);
        if deleted[n - 1] { k } else { k.push(items[n - 1]) }
    }
}

proof fn lemma_deleted_count_bound(deleted: Seq<bool>, n: int)
    requires
        0 <= n,
    ensures
        deleted_count(deleted, n) <= n,
    decreases n,
{
    if n > 0 {
        lemma_deleted_count_bound(deleted, n - 1);
    }
}

proof fn lemma_kept_len<A>(items: Seq<A>, deleted: Seq<bool>, n: int)
    requires
        0 <= n,
    ensures
        kept(items, deleted, n).len() + deleted_count(deleted, n) == n,
    decreases n,
{
    if n > 0 {
        lemma_kept_len(items, deleted, n - 1);
    }
}

/// The number of deleted arrows.
pub fn count_deleted(deleted: &Vec<bool>) -> (c: usize)
    ensures
        c == deleted_count(deleted@, deleted@.len() as int),
{
    let mut c: usize = 0;
    let mut i: usize = 0;
    while i < deleted.len()
        invariant
            i <= deleted@.len(),
            c == deleted_count(deleted@, i as int),
        decreases deleted@.len() - i,
    {
        proof {
            lemma_deleted_count_bound(deleted@, i as int);
        }
        if deleted[i] {
            c = c + 1;
        }
        i = i + 1;
    }
    c
}

/// Whether enough arrows were deleted to remove them: more than 16.
pub fn should_clean_arrows(deleted: usize) -> (b: bool)
    ensures
        b == (deleted > 16),
{
    deleted > 16
}

/// Removes the deleted arrows and their data, keeping the others in order
/// and each arrow with its data.
pub fn retain_live<A: Copy, B: Copy>(arrows: &mut Vec<A>, data: &mut Vec<B>, deleted: &Vec<bool>)
    requires
        old(arrows)@.len() == deleted@.len(),
        old(data)@.len() == deleted@.len(),
    ensures
        final(arrows)@ == kept(old(arrows)@, deleted@, deleted@.len() as int),
        final(data)@ == kept(old(data)@, deleted@, deleted@.len() as int),
        final(arrows)@.len() == final(data)@.len(),
        final(arrows)@.len() + deleted_count(deleted@, deleted@.len() as int) == deleted@.len(),
{
    proof {
        lemma_kept_len(old(arrows)@, deleted@, deleted@.len() as int);
        lemma_kept_len(old(data)@, deleted@, deleted@.len() as int);
    }
    let mut live_arrows: Vec<A> = Vec::new();
    let mut live_data: Vec<B> = Vec::new();
    let mut i: usize = 0;
    while i < deleted.len()
        invariant
            i <= deleted@.len(),
            arrows@.len() == deleted@.len(),
            data@.len() == deleted@.len(),
            arrows@ == old(arrows)@,
            data@ == old(data)@,
            live_arrows@ == kept(arrows@, deleted@, i as int),
            live_data@ == kept(data@, deleted@, i as int),
        decreases deleted@.len() - i,
    {
        if !deleted[i] {
            live_arrows.push(arrows[i]);
            live_data.push(data[i]);
        }
        i = i + 1;
    }
    *arrows = live_arrows;
    *data = live_data;
}

} // verus!
