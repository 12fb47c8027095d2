//! Extra request headers: of two entries with one name, the later one counts.

use vstd::prelude::*;

verus! {

/// Whether an entry of `h` after the one at `i` carries the same name.
pub open spec fn overwritten(h: Seq<(Seq<char>, Seq<char>)>, i: int) -> bool {
    exists|j: int| i < j < h.len() && (#[trigger] h[j]).0 == h[i].0
}

/// Those of the first `k` entries of `h` that no later entry overwrites, in
/// their order.
pub open spec fn kept(h: Seq<(Seq<char>, Seq<char>)>, k: nat) -> Seq<(Seq<char>, Seq<char>)>
    decreases k,
{
    if k == 0 {
        Seq::empty()
    } else if overwritten(h, k - 1) {
        kept(h, (k - 1) as nat)
    } else {
        kept(h, (k - 1) as nat).push(h[k - 1])
    }
}

/// The entries of `h` that take effect: for each name the last one.
pub open spec fn effective(h: Seq<(Seq<char>, Seq<char>)>) -> Seq<(Seq<char>, Seq<char>)> {
    kept(h, h.len())
}

/// The mapping from name to value that results from writing the entries of
/// `h` one after the other.
pub open spec fn header_map(h: Seq<(Seq<char>, Seq<char>)>) -> Map<Seq<char>, Seq<char>>
    decreases h.len(),
{
    if h.len() == 0 {
        Map::empty()
    } else {
        header_map(h.drop_last()).insert(h.last().0, h.last().1)
    }
}

/// Whether no two entries of `h` carry the same name.
pub open spec fn distinct_names(h: Seq<(Seq<char>, Seq<char>)>) -> bool {
    forall|i: int, j: int| 0 <= i < j < h.len() ==> (#[trigger] h[i]).0 != (#[trigger] h[j]).0
}

/// Reduces `headers` to the entries that take effect.
pub fn effective_headers(headers: &Vec<(String, String)>) -> (out: Vec<(String, String)>)
    ensures
        out.deep_view() == effective(headers.deep_view()),
{
    let ghost h = headers.deep_view();
    let n: usize = headers.len();
    let mut out: Vec<(String, String)> = Vec::new();
    let mut i: usize = 0;
    assert(out.deep_view() =~= kept(h, 0));
    while i < n
        invariant
            i <= n,
            n == headers.len(),
            h == headers.deep_view(),
            out.deep_view() == kept(h, i as nat),
        decreases n - i,
    {
        let mut j: usize = i + 1;
        let mut found: bool = false;
        while j < n && !found
            invariant
                i < j <= n,
                n == headers.len(),
                h == headers.deep_view(),
                found ==> overwritten(h, i as int),
                !found ==> forall|k: int| i < k < j ==> (#[trigger] h[k]).0 != h[i as int].0,
            decreases n - j + (if found { 0int } else { 1int }),
        {
            if headers[j].0 == headers[i].0 {
                assert(h[j as int].0 == h[i as int].0);
                found = true;
            } else {
                j = j + 1;
            }
        }
        if !found {
            let name: String = headers[i].0.clone();
            let value: String = headers[i].1.clone();
            let ghost before = out.deep_view();
            out.push((name, value));
            assert(out.deep_view() =~= before.push(h[i as int]));
        }
        i = i + 1;
    }
    out
}

/// What `kept` holds: exactly the entries, among the first `k`, that nothing
/// overwrites; and no name twice.
pub proof fn lemma_kept(h: Seq<(Seq<char>, Seq<char>)>, k: nat)
    requires
        k <= h.len(),
    ensures
        forall|p: int|
            0 <= p < kept(h, k).len() ==> exists|i: int|
                0 <= i < k && !overwritten(h, i) && #[trigger] kept(h, k)[p] == h[i],
        forall|i: int|
            0 <= i < k && !overwritten(h, i) ==> exists|p: int|
                0 <= p < kept(h, k).len() && kept(h, k)[p] == #[trigger] h[i],
        distinct_names(kept(h, k)),
    decreases k,
{
    if k > 0 {
        let prev = kept(h, (k - 1) as nat);
        let cur = kept(h, k);
        lemma_kept(h, (k - 1) as nat);
        if overwritten(h, k - 1) {
            assert(cur == prev);
        } else {
            assert(cur == prev.push(h[k - 1]));
            assert forall|p: int| 0 <= p < cur.len() implies exists|i: int|
                0 <= i < k && !overwritten(h, i) && #[trigger] cur[p] == h[i] by {
                if p < prev.len() {
                    assert(cur[p] == prev[p]);
                    let i = choose|i: int| 0 <= i < k - 1 && !overwritten(h, i) && prev[p] == h[i];
                    assert(0 <= i < k && !overwritten(h, i) && cur[p] == h[i]);
                } else {
                    assert(cur[p] == h[k - 1]);
                }
            }
            assert forall|i: int| 0 <= i < k && !overwritten(h, i) implies exists|p: int|
                0 <= p < cur.len() && cur[p] == #[trigger] h[i] by {
                if i < k - 1 {
                    let p = choose|p: int| 0 <= p < prev.len() && prev[p] == h[i];
                    assert(cur[p] == h[i]);
                } else {
                    assert(cur[prev.len() as int] == h[i]);
                }
            }
            assert forall|p: int, q: int| 0 <= p < q < cur.len() implies (#[trigger] cur[p]).0 != (
            #[trigger] cur[q]).0 by {
                if q < prev.len() {
                    assert(cur[p] == prev[p] && cur[q] == prev[q]);
                } else {
                    assert(cur[p] == prev[p]);
                    let i = choose|i: int| 0 <= i < k - 1 && !overwritten(h, i) && prev[p] == h[i];
                    if h[i].0 == h[k - 1].0 {
                        assert(overwritten(h, i));
                    }
                }
            }
        }
    }
}

/// Every entry has a last entry of its name, which nothing overwrites.
pub proof fn lemma_last_write(h: Seq<(Seq<char>, Seq<char>)>, i: int) -> (last: int)
    requires
        0 <= i < h.len(),
    ensures
        i <= last < h.len(),
        h[last].0 == h[i].0,
        !overwritten(h, last),
    decreases h.len() - i,
{
    if overwritten(h, i) {
        let j = choose|j: int| i < j < h.len() && (#[trigger] h[j]).0 == h[i].0;
        lemma_last_write(h, j)
    } else {
        i
    }
}

/// What the mapping holds: the names of `h`, each with the value of its last
/// entry.
pub proof fn lemma_header_map(h: Seq<(Seq<char>, Seq<char>)>)
    ensures
        forall|n: Seq<char>|
            header_map(h).dom().contains(n) <==> exists|i: int|
                0 <= i < h.len() && (#[trigger] h[i]).0 == n,
        forall|i: int|
            0 <= i < h.len() && !overwritten(h, i) ==> header_map(h)[(#[trigger] h[i]).0] == h[i].1,
    decreases h.len(),
{
    if h.len() > 0 {
        let front = h.drop_last();
        let end = h.len() - 1;
        lemma_header_map(front);
        assert forall|n: Seq<char>| header_map(h).dom().contains(n) implies exists|i: int|
            0 <= i < h.len() && (#[trigger] h[i]).0 == n by {
            if n == h.last().0 {
                assert(h[end].0 == n);
            } else {
                assert(header_map(h) == header_map(front).insert(h.last().0, h.last().1));
                assert(header_map(front).dom().contains(n));
                let i = choose|i: int| 0 <= i < front.len() && (#[trigger] front[i]).0 == n;
                assert(h[i].0 == n);
            }
        }
        assert forall|n: Seq<char>|
            (exists|i: int| 0 <= i < h.len() && (#[trigger] h[i]).0 == n) implies header_map(
            h,
        ).dom().contains(n) by {
            let i = choose|i: int| 0 <= i < h.len() && (#[trigger] h[i]).0 == n;
            assert(header_map(h) == header_map(front).insert(h.last().0, h.last().1));
            if i < end {
                assert(front[i].0 == n);
                assert(header_map(front).dom().contains(n));
            }
        }
        assert forall|i: int| 0 <= i < h.len() && !overwritten(h, i) implies header_map(h)[(
        #[trigger] h[i]).0] == h[i].1 by {
            assert(header_map(h) == header_map(front).insert(h.last().0, h.last().1));
            if i < end {
                assert(h[end].0 != h[i].0);
                assert(front[i] == h[i]);
                if overwritten(front, i) {
                    let j = choose|j: int| i < j < front.len() && (#[trigger] front[j]).0 == front[i].0;
                    assert(h[j].0 == h[i].0);
                }
            }
        }
    }
}

/// The entries that take effect carry no name twice.
pub proof fn law_effective_names_distinct(h: Seq<(Seq<char>, Seq<char>)>)
    ensures
        distinct_names(effective(h)),
{
    lemma_kept(h, h.len());
}

/// Reducing the headers to those that take effect changes nothing in the
/// mapping that they write: the last write wins.
pub proof fn law_last_write_wins(h: Seq<(Seq<char>, Seq<char>)>)
    ensures
        header_map(effective(h)) == header_map(h),
{
    let e = effective(h);
    lemma_kept(h, h.len());
    lemma_header_map(h);
    lemma_header_map(e);
    assert forall|n: Seq<char>| header_map(e).dom().contains(n) implies header_map(h).dom().contains(
        n,
    ) && header_map(e)[n] == header_map(h)[n] by {
        let p = choose|p: int| 0 <= p < e.len() && (#[trigger] e[p]).0 == n;
        let i = choose|i: int| 0 <= i < h.len() && !overwritten(h, i) && e[p] == h[i];
        assert(h[i].0 == n);
        if overwritten(e, p) {
            let q = choose|q: int| p < q < e.len() && (#[trigger] e[q]).0 == e[p].0;
            assert(e[p].0 != e[q].0);
        }
    }
    assert forall|n: Seq<char>| header_map(h).dom().contains(n) implies header_map(e).dom().contains(
        n,
    ) by {
        let i = choose|i: int| 0 <= i < h.len() && (#[trigger] h[i]).0 == n;
        let last = lemma_last_write(h, i);
        let p = choose|p: int| 0 <= p < e.len() && e[p] == h[last];
        assert(e[p].0 == n);
    }
    assert(header_map(e) =~= header_map(h));
}

} // verus!
