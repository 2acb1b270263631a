//! The order of the window list: by lowercased title, in the order of
//! character codes (which is the byte order of UTF-8 strings), windows with
//! equal titles keeping their order.

use vstd::prelude::*;

use crate::text::{chars_of, lowercase, lowered};
use crate::window::{views_of, WindowInfo, WindowInfoView};

verus! {

/// Whether `a` comes strictly before `b`, comparing character codes from
/// the first character on; a proper prefix comes first.
pub open spec fn chars_before(a: Seq<char>, b: Seq<char>) -> bool
    decreases a.len(),
{
    if a.len() == 0 {
        b.len() > 0
    } else if b.len() == 0 {
        false
    } else if (a[0] as int) < (b[0] as int) {
        true
    } else if a[0] == b[0] {
        chars_before(a.drop_first(), b.drop_first())
    } else {
        false
    }
}

/// No sequence comes before itself.
pub proof fn lemma_chars_before_irreflexive(a: Seq<char>)
    ensures
        !chars_before(a, a),
    decreases a.len(),
{
    if a.len() > 0 {
        lemma_chars_before_irreflexive(a.drop_first());
    }
}

/// Of two different sequences, exactly one comes before the other.
pub proof fn lemma_chars_before_total(a: Seq<char>, b: Seq<char>)
    ensures
        a == b || chars_before(a, b) || chars_before(b, a),
        !(chars_before(a, b) && chars_before(b, a)),
    decreases a.len(),
{
    if a.len() > 0 && b.len() > 0 {
        lemma_chars_before_total(a.drop_first(), b.drop_first());
        if a[0] == b[0] && a.drop_first() == b.drop_first() {
            assert(a =~= seq![a[0]] + a.drop_first());
            assert(b =~= seq![b[0]] + b.drop_first());
        }
    } else if a.len() == 0 && b.len() == 0 {
        assert(a =~= b);
    }
}

/// Coming before is transitive.
pub proof fn lemma_chars_before_transitive(a: Seq<char>, b: Seq<char>, c: Seq<char>)
    requires
        chars_before(a, b),
        chars_before(b, c),
    ensures
        chars_before(a, c),
    decreases a.len(),
{
    if a.len() > 0 && b.len() > 0 && c.len() > 0 {
        if a[0] == b[0] && b[0] == c[0] {
            lemma_chars_before_transitive(a.drop_first(), b.drop_first(), c.drop_first());
        }
    }
}

/// Whether `a` comes strictly before `b`.
pub fn chars_less(a: &[char], b: &[char]) -> (r: bool)
    ensures
        r == chars_before(a@, b@),
{
    let mut i: usize = 0;
    assert(a@.skip(0) =~= a@);
    assert(b@.skip(0) =~= b@);
    assert(a@.take(0) =~= b@.take(0));
    while i < a.len() && i < b.len()
        invariant
            i <= a@.len(),
            i <= b@.len(),
            a@.take(i as int) == b@.take(i as int),
            chars_before(a@, b@) == chars_before(a@.skip(i as int), b@.skip(i as int)),
        decreases a@.len() - i,
    {
        let x = a[i];
        let y = b[i];
        proof {
            assert(a@.skip(i as int)[0] == x);
            assert(b@.skip(i as int)[0] == y);
            assert(a@.skip(i as int).len() > 0);
            assert(b@.skip(i as int).len() > 0);
        }
        if x < y {
            return true;
        }
        if x != y {
            return false;
        }
        proof {
            assert(a@.skip(i as int).drop_first() =~= a@.skip(i + 1));
            assert(b@.skip(i as int).drop_first() =~= b@.skip(i + 1));
            assert(a@.take(i + 1) =~= a@.take(i as int).push(x));
            assert(b@.take(i + 1) =~= b@.take(i as int).push(y));
        }
        i = i + 1;
    }
    proof {
        assert(a@.skip(i as int).len() == 0 || b@.skip(i as int).len() == 0);
    }
    i == a.len() && i < b.len()
}

/// The sort key of a window: its lowercased title.
pub open spec fn title_key(w: WindowInfoView) -> Seq<char> {
    lowered(w.window_title)
}

/// Whether `p` lists each of `0..n` exactly once.
pub open spec fn is_arrangement(p: Seq<int>, n: int) -> bool {
    &&& p.len() == n
    &&& forall|k: int| 0 <= k < n ==> 0 <= #[trigger] p[k] < n
    &&& forall|a: int, b: int| 0 <= a < b < n ==> p[a] != p[b]
    &&& forall|m: int| 0 <= m < n ==> #[trigger] p.contains(m)
}

/// Whether `output` is `input` taken in the order `p`, sorted by title key,
/// with windows of equal keys in their order in `input`.
pub open spec fn sorts_stably(p: Seq<int>, input: Seq<WindowInfoView>, output: Seq<WindowInfoView>) -> bool {
    &&& is_arrangement(p, input.len() as int)
    &&& output.len() == input.len()
    &&& forall|k: int| 0 <= k < output.len() ==> #[trigger] output[k] == input[p[k]]
    &&& forall|a: int, b: int|
        0 <= a < b < output.len() ==> !chars_before(title_key(output[b]), title_key(output[a]))
    &&& forall|a: int, b: int|
        0 <= a < b < output.len() && title_key(output[a]) == title_key(output[b]) ==> p[a] < p[b]
}

/// Whether `output` is the stable sort of `input` by lowercased title.
pub open spec fn stably_sorted_by_title(input: Seq<WindowInfoView>, output: Seq<WindowInfoView>) -> bool {
    exists|p: Seq<int>| #[trigger] sorts_stably(p, input, output)
}

/// The indices `perm` in the order `0..i` sorted stably by `keys`.
pub open spec fn index_order_ok(perm: Seq<usize>, keys: Seq<Seq<char>>, i: int) -> bool {
    &&& perm.len() == i
    &&& forall|k: int| 0 <= k < i ==> (#[trigger] perm[k]) < i
    &&& forall|a: int, b: int| 0 <= a < b < i ==> perm[a] != perm[b]
    &&& forall|m: usize| 0 <= m < i ==> #[trigger] perm.contains(m)
    &&& forall|a: int, b: int|
        0 <= a < b < i ==> !chars_before(keys[perm[b] as int], keys[perm[a] as int])
    &&& forall|a: int, b: int|
        0 <= a < b < i && keys[perm[a] as int] == keys[perm[b] as int] ==> perm[a] < perm[b]
}

/// The positions `0..keys.len()` sorted stably by `keys`.
fn stable_order(keys: &Vec<Vec<char>>) -> (perm: Vec<usize>)
    ensures
        index_order_ok(perm@, keys@.map_values(|k: Vec<char>| k@), keys@.len() as int),
{
    let ghost ks = keys@.map_values(|k: Vec<char>| k@);
    let n = keys.len();
    let mut perm: Vec<usize> = Vec::new();
    let mut i: usize = 0;
    while i < n
        invariant
            n == keys@.len(),
            ks == keys@.map_values(|k: Vec<char>| k@),
            i <= n,
            index_order_ok(perm@, ks, i as int),
        decreases n - i,
    {
        let mut j: usize = perm.len();
        while j > 0 && chars_less(keys[i].as_slice(), keys[perm[j - 1]].as_slice())
            invariant
                n == keys@.len(),
                ks == keys@.map_values(|k: Vec<char>| k@),
                i < n,
                index_order_ok(perm@, ks, i as int),
                j <= perm@.len(),
                forall|k: int| j <= k < perm@.len() ==> chars_before(ks[i as int], ks[#[trigger] perm@[k] as int]),
            decreases j,
        {
            j = j - 1;
        }
        proof {
            if j > 0 {
                let top = ks[perm@[j - 1] as int];
                assert(!chars_before(ks[i as int], top));
                assert forall|k: int| 0 <= k < j implies !chars_before(ks[i as int], ks[#[trigger] perm@[k] as int]) by {
                    let lower = ks[perm@[k] as int];
                    if k < j - 1 {
                        // lower <= top <= ks[i]
                        assert(!chars_before(top, lower));
                        lemma_chars_before_total(top, lower);
                        if chars_before(ks[i as int], lower) && lower != top {
                            lemma_chars_before_transitive(ks[i as int], lower, top);
                        }
                    }
                }
            }
        }
        let ghost old_perm = perm@;
        perm.insert(j, i);
        proof {
            let p = perm@;
            assert(p.len() == i + 1);
            assert forall|k: int| 0 <= k < i + 1 implies (#[trigger] p[k]) < i + 1 by {
                if k < j { assert(p[k] == old_perm[k]); }
                else if k > j { assert(p[k] == old_perm[k - 1]); }
            }
            assert forall|a: int, b: int| 0 <= a < b < i + 1 implies p[a] != p[b] by {
                if a < j { assert(p[a] == old_perm[a]); } else if a > j { assert(p[a] == old_perm[a - 1]); }
                if b < j { assert(p[b] == old_perm[b]); } else if b > j { assert(p[b] == old_perm[b - 1]); }
            }
            assert forall|m: usize| 0 <= m < i + 1 implies #[trigger] p.contains(m) by {
                if m == i {
                    assert(p[j as int] == m);
                } else {
                    assert(old_perm.contains(m));
                    let k = choose|k: int| 0 <= k < old_perm.len() && old_perm[k] == m;
                    if k < j { assert(p[k] == m); } else { assert(p[k + 1] == m); }
                }
            }
            assert forall|a: int, b: int| 0 <= a < b < i + 1 implies !chars_before(ks[p[b] as int], ks[p[a] as int]) by {
                if a < j { assert(p[a] == old_perm[a]); } else if a > j { assert(p[a] == old_perm[a - 1]); }
                if b < j { assert(p[b] == old_perm[b]); } else if b > j { assert(p[b] == old_perm[b - 1]); }
                if a == j {
                    lemma_chars_before_total(ks[p[b] as int], ks[i as int]);
                }
            }
            assert forall|a: int, b: int| 0 <= a < b < i + 1 && ks[p[a] as int] == ks[p[b] as int] implies p[a] < p[b] by {
                if a < j { assert(p[a] == old_perm[a]); } else if a > j { assert(p[a] == old_perm[a - 1]); }
                if b < j { assert(p[b] == old_perm[b]); } else if b > j { assert(p[b] == old_perm[b - 1]); }
                if a == j {
                    lemma_chars_before_irreflexive(ks[i as int]);
                }
            }
        }
        i = i + 1;
    }
    perm
}

/// The list sorted by lowercased title in the order of character codes
/// (the byte order of the UTF-8 strings); windows whose lowercased titles
/// are equal keep their order.
pub fn sort_windows_by_title(list: Vec<WindowInfo>) -> (r: Vec<WindowInfo>)
    ensures
        stably_sorted_by_title(views_of(list@), views_of(r@)),
{
    let ghost input = views_of(list@);
    let mut keys: Vec<Vec<char>> = Vec::new();
    let mut i: usize = 0;
    while i < list.len()
        invariant
            i <= list@.len(),
            input == views_of(list@),
            keys@.len() == i,
            forall|k: int| 0 <= k < i ==> (#[trigger] keys@[k])@ == title_key(input[k]),
        decreases list@.len() - i,
    {
        let lowered_title = lowercase(list[i].window_title.as_str());
        keys.push(chars_of(lowered_title.as_str()));
        i = i + 1;
    }
    let ghost ks = keys@.map_values(|k: Vec<char>| k@);
    assert(ks =~= input.map_values(|w: WindowInfoView| title_key(w)));
    let perm = stable_order(&keys);
    let mut out: Vec<WindowInfo> = Vec::new();
    let mut k: usize = 0;
    while k < perm.len()
        invariant
            perm@.len() == list@.len(),
            index_order_ok(perm@, ks, list@.len() as int),
            input == views_of(list@),
            k <= perm@.len(),
            out@.len() == k,
            forall|m: int| 0 <= m < k ==> (#[trigger] out@[m])@ == input[perm@[m] as int],
        decreases perm@.len() - k,
    {
        out.push(list[perm[k]].clone());
        k = k + 1;
    }
    proof {
        let p = perm@.map_values(|x: usize| x as int);
        let output = views_of(out@);
        assert(forall|m: int| 0 <= m < input.len() ==> ks[m] == title_key(input[m]));
        assert forall|m: int| 0 <= m < input.len() implies #[trigger] p.contains(m) by {
            assert(perm@.contains(m as usize));
            let k = choose|k: int| 0 <= k < perm@.len() && perm@[k] == m as usize;
            assert(p[k] == m);
        }
        assert(sorts_stably(p, input, output));
    }
    out
}

/// Two stable sorts of the same list take the same elements in the same
/// positions up to `k`.
proof fn lemma_arrangements_agree_upto(
    p1: Seq<int>,
    p2: Seq<int>,
    input: Seq<WindowInfoView>,
    o1: Seq<WindowInfoView>,
    o2: Seq<WindowInfoView>,
    k: int,
)
    requires
        sorts_stably(p1, input, o1),
        sorts_stably(p2, input, o2),
        0 <= k <= input.len(),
    ensures
        forall|j: int| 0 <= j < k ==> p1[j] == p2[j],
    decreases k,
{
    if k > 0 {
        let i = k - 1;
        lemma_arrangements_agree_upto(p1, p2, input, o1, o2, i);
        let m1 = p1[i];
        let m2 = p2[i];
        if m1 != m2 {
            assert(p1.contains(m2));
            let a = choose|a: int| 0 <= a < p1.len() && p1[a] == m2;
            assert(p2.contains(m1));
            let b = choose|b: int| 0 <= b < p2.len() && p2[b] == m1;
            if a < i {
                assert(p2[a] == m2);
            }
            if b < i {
                assert(p2[b] == m1);
            }
            assert(a > i && b > i);
            assert(o1[i] == input[m1] && o1[a] == input[m2]);
            assert(o2[i] == input[m2] && o2[b] == input[m1]);
            let k1 = title_key(input[m1]);
            let k2 = title_key(input[m2]);
            assert(!chars_before(k2, k1));
            assert(!chars_before(k1, k2));
            lemma_chars_before_total(k1, k2);
            assert(m1 < m2);
            assert(m2 < m1);
        }
    }
}

/// The order of the window list is fully determined: two lists that are
/// both the stable sort by lowercased title of the same list are equal.
pub proof fn lemma_stable_sort_unique(
    input: Seq<WindowInfoView>,
    out1: Seq<WindowInfoView>,
    out2: Seq<WindowInfoView>,
)
    requires
        stably_sorted_by_title(input, out1),
        stably_sorted_by_title(input, out2),
    ensures
        out1 == out2,
{
    let p1 = choose|p: Seq<int>| #[trigger] sorts_stably(p, input, out1);
    let p2 = choose|p: Seq<int>| #[trigger] sorts_stably(p, input, out2);
    lemma_arrangements_agree_upto(p1, p2, input, out1, out2, input.len() as int);
    assert forall|k: int| 0 <= k < out1.len() implies out1[k] == out2[k] by {
        assert(p1[k] == p2[k]);
    }
    assert(out1 =~= out2);
}

} // verus!
