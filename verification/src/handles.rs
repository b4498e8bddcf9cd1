//! Ascending sequences of client handles.

use crate::client::ClientHandle;
use vstd::prelude::*;

verus! {

/// Every handle there can be, in ascending order.
pub open spec fn all_handles() -> Seq<ClientHandle> {
    Seq::new(0x1_0000_0000_0000_0000nat, |i: int| i as ClientHandle)
}

/// The handles for which `p` holds, in ascending order.
pub open spec fn handles_where(p: spec_fn(ClientHandle) -> bool) -> Seq<ClientHandle> {
    all_handles().filter(p)
}

/// The lowest handle for which `p` holds.
pub open spec fn lowest_where(p: spec_fn(ClientHandle) -> bool) -> Option<ClientHandle> {
    if handles_where(p).len() == 0 {
        None
    } else {
        Some(handles_where(p)[0])
    }
}

/// Where `p` holds of no handle from `n` on, the handles below `n` are all that
/// have to be looked at.
pub proof fn lemma_handles_below(p: spec_fn(ClientHandle) -> bool, n: nat)
    requires
        n <= 0x1_0000_0000_0000_0000nat,
        forall|h: ClientHandle| n <= h ==> !#[trigger] p(h),
    ensures
        handles_where(p) == all_handles().take(n as int).filter(p),
{
    let low = all_handles().take(n as int);
    let high = all_handles().skip(n as int);
    assert(all_handles() == low + high);
    Seq::filter_distributes_over_add(low, high, p);
    assert forall|i: int| 0 <= i < high.len() implies !p(#[trigger] high[i]) by {
        assert(high[i] == all_handles()[n + i]);
    }
    high.lemma_all_neg_filter_empty(p);
    assert(low.filter(p) + high.filter(p) == low.filter(p));
}

/// Looking at one more handle adds it exactly if `p` holds of it.
pub proof fn lemma_handles_step(p: spec_fn(ClientHandle) -> bool, i: ClientHandle)
    ensures
        all_handles().take(i + 1).filter(p) == if p(i) {
            all_handles().take(i as int).filter(p).push(i)
        } else {
            all_handles().take(i as int).filter(p)
        },
{
    let longer = all_handles().take(i + 1);
    assert(longer.drop_last() == all_handles().take(i as int));
    assert(longer.last() == i);
    reveal(Seq::filter);
}

/// A handle is among those for which `p` holds exactly if `p` holds of it.
pub proof fn lemma_handles_member(p: spec_fn(ClientHandle) -> bool)
    ensures
        forall|h: ClientHandle| #[trigger] handles_where(p).contains(h) <==> p(h),
{
    let all = all_handles();
    assert forall|h: ClientHandle| #[trigger] all.filter(p).contains(h) implies p(h) by {
        let i = choose|i: int| 0 <= i < all.filter(p).len() && all.filter(p)[i] == h;
        all.lemma_filter_pred(p, i);
    }
    assert forall|h: ClientHandle| p(h) implies #[trigger] all.filter(p).contains(h) by {
        assert(all[h as int] == h);
        all.lemma_filter_contains(p, h as int);
    }
}

/// The handles below some bound for which `p` holds come in ascending order.
proof fn lemma_prefix_ascending(p: spec_fn(ClientHandle) -> bool, n: nat)
    requires
        n <= 0x1_0000_0000_0000_0000nat,
    ensures
        ({
            let s = all_handles().take(n as int).filter(p);
            &&& forall|i: int| 0 <= i < s.len() ==> #[trigger] s[i] < n
            &&& forall|i: int, j: int| 0 <= i < j < s.len() ==> s[i] < s[j]
        }),
    decreases n,
{
    if n == 0 {
        assert(all_handles().take(0).filter(p).len() == 0) by {
            all_handles().take(0).lemma_filter_len(p);
        }
    } else {
        lemma_prefix_ascending(p, (n - 1) as nat);
        lemma_handles_step(p, (n - 1) as ClientHandle);
    }
}

/// The handles for which `p` holds come in ascending order, each once.
pub proof fn lemma_handles_ascending(p: spec_fn(ClientHandle) -> bool)
    ensures
        forall|i: int, j: int|
            0 <= i < j < handles_where(p).len() ==> handles_where(p)[i] < handles_where(p)[j],
{
    lemma_prefix_ascending(p, 0x1_0000_0000_0000_0000nat);
    assert(all_handles().take(0x1_0000_0000_0000_0000int) == all_handles());
}

/// What [`lowest_where`] says: it gives a handle exactly if `p` holds of one, and
/// then `p` holds of that handle and of no lower one.
pub proof fn lemma_lowest(p: spec_fn(ClientHandle) -> bool)
    ensures
        match lowest_where(p) {
            Some(h) => p(h) && forall|k: ClientHandle| #[trigger] p(k) ==> h <= k,
            None => forall|k: ClientHandle| !#[trigger] p(k),
        },
{
    lemma_handles_member(p);
    lemma_handles_ascending(p);
    let s = handles_where(p);
    if s.len() == 0 {
        assert forall|k: ClientHandle| !#[trigger] p(k) by {
            assert(!s.contains(k));
        }
    } else {
        assert(s.contains(s[0]));
        assert forall|k: ClientHandle| #[trigger] p(k) implies s[0] <= k by {
            assert(s.contains(k));
            let i = choose|i: int| 0 <= i < s.len() && s[i] == k;
            if i > 0 {
                assert(s[0] < s[i]);
            }
        }
    }
}

/// A handle of which `p` holds, while it holds of no lower one, is the lowest.
pub proof fn lemma_is_lowest(p: spec_fn(ClientHandle) -> bool, h: ClientHandle)
    requires
        p(h),
        forall|k: ClientHandle| #[trigger] p(k) ==> h <= k,
    ensures
        lowest_where(p) == Some(h),
{
    lemma_lowest(p);
}

} // verus!
