//! Stable ordering of a list under a rule that says which of two items has to
//! stand after the other.

use vstd::prelude::*;
use vstd::seq_lib::*;

verus! {

/// A rule for putting items in order.
pub trait Precedence<T> {
    /// Whether the rule answers by `after`. A rule that draws lots does not.
    spec fn decides(&self) -> bool;

    /// `a` has to stand somewhere after `b`.
    spec fn after(&self, a: T, b: T) -> bool;

    fn comes_after(&self, a: &T, b: &T) -> (r: bool)
        ensures
            self.decides() ==> r == self.after(*a, *b),
    ;

    /// `after` is a strict weak order: nothing stands after itself, and both
    /// `after` and its negation carry over a middle item.
    proof fn lemma_weak_order(&self, a: T, b: T, c: T)
        requires
            self.decides(),
        ensures
            !self.after(a, a),
            self.after(a, b) && self.after(b, c) ==> self.after(a, c),
            !self.after(a, b) && !self.after(b, c) ==> !self.after(a, c),
    ;
}

/// `p` lists each of the positions `0..n` exactly once.
pub open spec fn is_permutation(p: Seq<int>, n: nat) -> bool {
    &&& p.len() == n
    &&& forall|i: int| 0 <= i < n ==> 0 <= #[trigger] p[i] < n
    &&& forall|i: int, j: int| 0 <= i < j < n ==> p[i] != p[j]
    &&& forall|v: int| 0 <= v < n ==> p.contains(v)
}

/// `out` holds the items of `inp`, the one at `p[i]` moved to `i`.
pub open spec fn rearranged<T>(inp: Seq<T>, out: Seq<T>, p: Seq<int>) -> bool {
    &&& is_permutation(p, inp.len())
    &&& out.len() == inp.len()
    &&& forall|i: int| 0 <= i < out.len() ==> #[trigger] out[i] == inp[p[i]]
}

/// Position `x` of `inp` may stand before position `y`: the item at `x` need
/// not stand after the one at `y`, and where the rule ranks them alike the
/// earlier position comes first.
pub open spec fn may_precede<T, R: Precedence<T>>(rule: R, inp: Seq<T>, x: int, y: int) -> bool {
    &&& !rule.after(inp[x], inp[y])
    &&& rule.after(inp[y], inp[x]) || x < y
}

/// The positions in `p` are in the rule's order, ties in their first order.
pub open spec fn in_stable_order<T, R: Precedence<T>>(rule: R, inp: Seq<T>, p: Seq<int>) -> bool {
    forall|i: int, j: int| 0 <= i < j < p.len() ==> may_precede(rule, inp, #[trigger] p[i], #[trigger] p[j])
}

/// `out` is `inp` sorted by the rule, items of one rank keeping their order.
pub open spec fn stably_sorted<T, R: Precedence<T>>(rule: R, inp: Seq<T>, out: Seq<T>) -> bool {
    exists|p: Seq<int>| rearranged(inp, out, p) && in_stable_order(rule, inp, p)
}

/// The first `i` items of `now` are those of `inp` stably sorted and the
/// others stand where they stood, `p` telling where each came from.
spec fn sorted_up_to<T, R: Precedence<T>>(
    rule: R,
    inp: Seq<T>,
    now: Seq<T>,
    p: Seq<int>,
    i: int,
) -> bool {
    &&& 0 <= i <= inp.len()
    &&& rearranged(inp, now, p)
    &&& now.to_multiset() == inp.to_multiset()
    &&& forall|k: int| i <= k < inp.len() ==> #[trigger] p[k] == k
    &&& forall|k: int| 0 <= k < i ==> #[trigger] p[k] < i
    &&& rule.decides() ==> forall|a: int, b: int|
        0 <= a < b < i ==> may_precede(rule, inp, #[trigger] p[a], #[trigger] p[b])
}

/// An item that need not stand before its neighbour stays where it is.
proof fn lemma_stays<T, R: Precedence<T>>(rule: R, inp: Seq<T>, now: Seq<T>, p: Seq<int>, i: int)
    requires
        sorted_up_to(rule, inp, now, p, i),
        i < inp.len(),
        rule.decides() && i > 0 ==> !rule.after(now[i - 1], now[i]),
    ensures
        sorted_up_to(rule, inp, now, p, i + 1),
{
    if rule.decides() {
        assert forall|a: int, b: int| 0 <= a < b <= i implies may_precede(
            rule,
            inp,
            #[trigger] p[a],
            #[trigger] p[b],
        ) by {
            if b == i {
                assert(now[i - 1] == inp[p[i - 1]]);
                assert(now[i] == inp[p[i]]);
                if a < i - 1 {
                    assert(may_precede(rule, inp, p[a], p[i - 1]));
                    rule.lemma_weak_order(inp[p[a]], inp[p[i - 1]], inp[p[i]]);
                }
            }
        }
    }
    assert forall|k: int| 0 <= k < i + 1 implies #[trigger] p[k] < i + 1 by {
        if k == i {
            assert(p[k] == k);
        }
    }
}

/// Taking the item at `i` out of a list sorted up to `i` and putting it in
/// again at `pos`, behind an item it need not stand before and before the
/// items that come after it, leaves the list sorted up to `i + 1`.
proof fn lemma_sinks<T, R: Precedence<T>>(
    rule: R,
    inp: Seq<T>,
    before: Seq<T>,
    p: Seq<int>,
    i: int,
    pos: int,
)
    requires
        sorted_up_to(rule, inp, before, p, i),
        0 <= pos <= i < inp.len(),
        rule.decides() ==> forall|k: int|
            pos <= k < i ==> rule.after(#[trigger] before.remove(i)[k], before[i]),
        rule.decides() && pos > 0 ==> !rule.after(before.remove(i)[pos - 1], before[i]),
    ensures
        sorted_up_to(
            rule,
            inp,
            before.remove(i).insert(pos, before[i]),
            p.remove(i).insert(pos, i),
            i + 1,
        ),
{
    let n = inp.len() as int;
    let x = before[i];
    let rest = before.remove(i);
    let now = rest.insert(pos, x);
    let q = p.remove(i).insert(pos, i);
    before.remove_ensures(i);
    p.remove_ensures(i);
    p.remove(i).insert_ensures(pos, i);
    rest.insert_ensures(pos, x);
    broadcast use {to_multiset_remove, to_multiset_insert};

    assert(before.to_multiset().count(x) > 0) by {
        to_multiset_contains(before, x);
        assert(before[i] == x);
    }
    assert(now.to_multiset() =~= before.to_multiset());
    assert forall|k: int| 0 <= k < n implies 0 <= #[trigger] q[k] < n && now[k] == inp[q[k]] by {
        if k > pos {
            assert(q[k] == p.remove(i)[k - 1]);
            assert(now[k] == rest[k - 1]);
        }
    }
    assert forall|k: int| i < k < n implies #[trigger] q[k] == k by {
        assert(q[k] == p.remove(i)[k - 1]);
    }
    assert forall|k: int| 0 <= k <= i implies #[trigger] q[k] <= i by {
        if k > pos {
            assert(q[k] == p.remove(i)[k - 1]);
        }
    }
    assert forall|a: int, b: int| 0 <= a < b < n implies q[a] != q[b] by {
        let a0 = if a < pos {
            a
        } else if a == pos {
            i
        } else if a <= i {
            a - 1
        } else {
            a
        };
        let b0 = if b < pos {
            b
        } else if b == pos {
            i
        } else if b <= i {
            b - 1
        } else {
            b
        };
        if a > pos {
            assert(q[a] == p.remove(i)[a - 1]);
        }
        if b > pos {
            assert(q[b] == p.remove(i)[b - 1]);
        }
        assert(q[a] == p[a0] && q[b] == p[b0]);
        if a0 < b0 {
            assert(p[a0] != p[b0]);
        } else {
            assert(p[b0] != p[a0]);
        }
    }
    assert forall|v: int| 0 <= v < n implies q.contains(v) by {
        assert(p.contains(v));
        let k = choose|k: int| 0 <= k < p.len() && p[k] == v;
        let k1 = if k < pos {
            k
        } else if k == i {
            pos
        } else if k < i {
            k + 1
        } else {
            k
        };
        if k1 > pos {
            assert(q[k1] == p.remove(i)[k1 - 1]);
        }
        assert(q[k1] == v);
    }
    if rule.decides() {
        assert forall|a: int, b: int| 0 <= a < b <= i implies may_precede(
            rule,
            inp,
            #[trigger] q[a],
            #[trigger] q[b],
        ) by {
            if b > pos {
                assert(q[b] == p.remove(i)[b - 1]);
            }
            if a > pos {
                assert(q[a] == p.remove(i)[a - 1]);
            }
            if a == pos {
                assert(rule.after(rest[b - 1], x));
                assert(rest[b - 1] == inp[p[b - 1]]);
                rule.lemma_weak_order(x, rest[b - 1], x);
            } else if b == pos {
                assert(rest[pos - 1] == inp[p[pos - 1]]);
                if a < pos - 1 {
                    assert(may_precede(rule, inp, p[a], p[pos - 1]));
                    rule.lemma_weak_order(inp[p[a]], inp[p[pos - 1]], x);
                }
            } else if a < pos && b > pos {
                assert(may_precede(rule, inp, p[a], p[b - 1]));
            } else if a < pos {
                assert(may_precede(rule, inp, p[a], p[b]));
            } else {
                assert(may_precede(rule, inp, p[a - 1], p[b - 1]));
            }
        }
    }
}

/// Sorts `items` by insertion: each item in turn goes down past the items
/// that come after it. Whatever the rule answers, the items are the same
/// afterwards; a rule that decides leaves them stably sorted.
pub fn stable_sort<T, R: Precedence<T>>(items: &mut Vec<T>, rule: &R)
    ensures
        final(items)@.len() == old(items)@.len(),
        final(items)@.to_multiset() == old(items)@.to_multiset(),
        rule.decides() ==> stably_sorted(*rule, old(items)@, final(items)@),
{
    let ghost inp = items@;
    let ghost mut p: Seq<int> = Seq::new(inp.len(), |k: int| k);
    let n = items.len();
    proof {
        assert forall|v: int| 0 <= v < n implies p.contains(v) by {
            assert(p[v] == v);
        }
    }
    let mut i: usize = 0;
    while i < n
        invariant
            n == inp.len(),
            sorted_up_to(*rule, inp, items@, p, i as int),
        decreases n - i,
    {
        let ghost before = items@;
        let moves = i > 0 && rule.comes_after(&items[i - 1], &items[i]);
        if moves {
            let x = items.remove(i);
            let ghost rest = items@;
            proof {
                before.remove_ensures(i as int);
            }
            let mut pos: usize = i - 1;
            while pos > 0
                invariant
                    pos < i < n,
                    rest == items@,
                    rest.len() == n - 1,
                    rule.decides() ==> forall|k: int|
                        pos <= k < i ==> rule.after(#[trigger] rest[k], x),
                ensures
                    pos < i,
                    rest == items@,
                    rule.decides() ==> forall|k: int|
                        pos <= k < i ==> rule.after(#[trigger] rest[k], x),
                    rule.decides() && pos > 0 ==> !rule.after(rest[pos - 1], x),
                decreases pos,
            {
                if !rule.comes_after(&items[pos - 1], &x) {
                    break ;
                }
                pos -= 1;
            }
            items.insert(pos, x);
            proof {
                lemma_sinks(*rule, inp, before, p, i as int, pos as int);
                p = p.remove(i as int).insert(pos as int, i as int);
            }
        } else {
            proof {
                lemma_stays(*rule, inp, before, p, i as int);
            }
        }
        i += 1;
    }
}

/// Where the rule decides, `may_precede` is a strict total order on the
/// positions of `inp`.
pub proof fn lemma_may_precede_order<T, R: Precedence<T>>(
    rule: R,
    inp: Seq<T>,
    x: int,
    y: int,
    z: int,
)
    requires
        rule.decides(),
    ensures
        !may_precede(rule, inp, x, x),
        x != y ==> (may_precede(rule, inp, x, y) <==> !may_precede(rule, inp, y, x)),
        may_precede(rule, inp, x, y) && may_precede(rule, inp, y, z) ==> may_precede(
            rule,
            inp,
            x,
            z,
        ),
{
    rule.lemma_weak_order(inp[x], inp[x], inp[x]);
    rule.lemma_weak_order(inp[x], inp[y], inp[x]);
    rule.lemma_weak_order(inp[y], inp[x], inp[y]);
    rule.lemma_weak_order(inp[x], inp[y], inp[z]);
    rule.lemma_weak_order(inp[z], inp[y], inp[x]);
    rule.lemma_weak_order(inp[z], inp[x], inp[y]);
    rule.lemma_weak_order(inp[y], inp[z], inp[x]);
    rule.lemma_weak_order(inp[x], inp[z], inp[x]);
}

proof fn lemma_stable_order_agrees<T, R: Precedence<T>>(
    rule: R,
    inp: Seq<T>,
    p: Seq<int>,
    q: Seq<int>,
    i: int,
)
    requires
        rule.decides(),
        is_permutation(p, inp.len()),
        is_permutation(q, inp.len()),
        in_stable_order(rule, inp, p),
        in_stable_order(rule, inp, q),
        0 <= i <= inp.len(),
    ensures
        forall|k: int| 0 <= k < i ==> p[k] == q[k],
    decreases i,
{
    if i > 0 {
        lemma_stable_order_agrees(rule, inp, p, q, i - 1);
        let m = i - 1;
        let x = p[m];
        let y = q[m];
        if x != y {
            assert(q.contains(x));
            let j = choose|j: int| 0 <= j < q.len() && q[j] == x;
            assert(p.contains(y));
            let l = choose|l: int| 0 <= l < p.len() && p[l] == y;
            if j < m {
                assert(p[j] == q[j]);
                assert(p[j] != p[m]);
            }
            if l < m {
                assert(p[l] == q[l]);
                assert(q[l] != q[m]);
            }
            assert(may_precede(rule, inp, q[m], q[j]));
            assert(may_precede(rule, inp, p[m], p[l]));
            lemma_may_precede_order(rule, inp, x, y, x);
        }
    }
}

/// A rule that decides leaves one way to sort a list stably: two lists
/// that are `inp` stably sorted are the same list.
pub proof fn lemma_stably_sorted_unique<T, R: Precedence<T>>(
    rule: R,
    inp: Seq<T>,
    a: Seq<T>,
    b: Seq<T>,
)
    requires
        rule.decides(),
        stably_sorted(rule, inp, a),
        stably_sorted(rule, inp, b),
    ensures
        a == b,
{
    let p = choose|p: Seq<int>| rearranged(inp, a, p) && in_stable_order(rule, inp, p);
    let q = choose|q: Seq<int>| rearranged(inp, b, q) && in_stable_order(rule, inp, q);
    lemma_stable_order_agrees(rule, inp, p, q, inp.len() as int);
    assert(a =~= b);
}

} // verus!
