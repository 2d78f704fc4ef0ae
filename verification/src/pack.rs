//! Packing files into a token budget: the 0/1 knapsack. Each item has a
//! weight (its tokens), a value (its priority) and may be barred from the
//! packing; a selection is a mask over the items.
use vstd::prelude::*;

verus! {

/// The weight of the items a mask selects.
pub open spec fn mask_weight(w: Seq<nat>, m: Seq<bool>) -> nat
    decreases m.len(),
{
    if m.len() == 0 {
        0
    } else {
        mask_weight(w, m.drop_last()) + if m.last() {
            w[m.len() - 1]
        } else {
            0
        }
    }
}

/// The value of the items a mask selects.
pub open spec fn mask_value(p: Seq<nat>, m: Seq<bool>) -> nat
    decreases m.len(),
{
    if m.len() == 0 {
        0
    } else {
        mask_value(p, m.drop_last()) + if m.last() {
            p[m.len() - 1]
        } else {
            0
        }
    }
}

/// A mask selects no barred item.
pub open spec fn admissible(a: Seq<bool>, m: Seq<bool>) -> bool {
    forall|i: int| 0 <= i < m.len() && #[trigger] m[i] ==> a[i]
}

/// The value of all items that may be packed among the first `i`.
pub open spec fn allowed_value(p: Seq<nat>, a: Seq<bool>, i: nat) -> nat
    decreases i,
{
    if i == 0 {
        0
    } else {
        allowed_value(p, a, (i - 1) as nat) + if a[i - 1] {
            p[i - 1]
        } else {
            0
        }
    }
}

/// The smaller of two optional weights, where `None` means unreachable.
pub open spec fn opt_min(x: Option<nat>, y: Option<nat>) -> Option<nat> {
    match (x, y) {
        (Some(a), Some(b)) => Some(if a <= b { a } else { b }),
        (Some(a), None) => Some(a),
        (None, Some(b)) => Some(b),
        (None, None) => None,
    }
}

/// Taking item `i - 1` on top of the least weight for value `v` less its value,
/// where that stays within `limit`.
pub open spec fn take_weight(w: Seq<nat>, p: Seq<nat>, a: Seq<bool>, limit: nat, i: nat, v: int) -> Option<nat>
    decreases i, 0int,
{
    if i > 0 && a[i - 1] && v >= p[i - 1] {
        match least_weight(w, p, a, limit, (i - 1) as nat, v - p[i - 1]) {
            Some(x) => if x + w[i - 1] <= limit {
                Some(x + w[i - 1])
            } else {
                None
            },
            None => None,
        }
    } else {
        None
    }
}

/// The least weight, at most `limit`, of an admissible selection among the
/// first `i` items whose value is exactly `v`; `None` where there is none.
pub open spec fn least_weight(w: Seq<nat>, p: Seq<nat>, a: Seq<bool>, limit: nat, i: nat, v: int) -> Option<nat>
    decreases i, 1int,
{
    if i == 0 {
        if v == 0 {
            Some(0)
        } else {
            None
        }
    } else {
        opt_min(
            least_weight(w, p, a, limit, (i - 1) as nat, v),
            take_weight(w, p, a, limit, i, v),
        )
    }
}

/// Whether the least weight for value `v` among the first `i` items is had by
/// taking item `i - 1` (ties go to leaving it).
pub open spec fn took(w: Seq<nat>, p: Seq<nat>, a: Seq<bool>, limit: nat, i: nat, v: int) -> bool {
    let skip = least_weight(w, p, a, limit, (i - 1) as nat, v);
    let take = take_weight(w, p, a, limit, i, v);
    take is Some && (skip is None || take->0 < skip->0)
}

/// The selection among the first `i` items that reaches value `v` with the
/// least weight, read back from the choices.
pub open spec fn pick(w: Seq<nat>, p: Seq<nat>, a: Seq<bool>, limit: nat, i: nat, v: int) -> Seq<bool>
    decreases i,
{
    if i == 0 {
        Seq::empty()
    } else if took(w, p, a, limit, i, v) {
        pick(w, p, a, limit, (i - 1) as nat, v - p[i - 1]).push(true)
    } else {
        pick(w, p, a, limit, (i - 1) as nat, v).push(false)
    }
}

/// The largest value at most `v` that some admissible selection of all items
/// within `limit` reaches.
pub open spec fn best_value(w: Seq<nat>, p: Seq<nat>, a: Seq<bool>, limit: nat, v: nat) -> nat
    decreases v,
{
    if least_weight(w, p, a, limit, w.len(), v as int) is Some || v == 0 {
        v
    } else {
        best_value(w, p, a, limit, (v - 1) as nat)
    }
}

/// The packing: an admissible selection of greatest value within `limit`.
pub open spec fn selection(w: Seq<nat>, p: Seq<nat>, a: Seq<bool>, limit: nat) -> Seq<bool> {
    pick(w, p, a, limit, w.len(), best_value(w, p, a, limit, allowed_value(p, a, w.len())) as int)
}

proof fn lemma_mask_push(w: Seq<nat>, p: Seq<nat>, m: Seq<bool>, b: bool)
    ensures
        mask_weight(w, m.push(b)) == mask_weight(w, m) + if b { w[m.len() as int] } else { 0 },
        mask_value(p, m.push(b)) == mask_value(p, m) + if b { p[m.len() as int] } else { 0 },
{
    assert(m.push(b).drop_last() =~= m);
}

/// Only the weights of the items a mask covers count.
pub proof fn lemma_weight_prefix(w1: Seq<nat>, w2: Seq<nat>, m: Seq<bool>)
    requires
        forall|i: int| 0 <= i < m.len() ==> w1[i] == w2[i],
    ensures
        mask_weight(w1, m) == mask_weight(w2, m),
    decreases m.len(),
{
    if m.len() > 0 {
        lemma_weight_prefix(w1, w2, m.drop_last());
    }
}

/// A prefix of a mask weighs no more than the mask.
pub proof fn lemma_weight_of_prefix(w: Seq<nat>, m: Seq<bool>, i: int)
    requires
        0 <= i <= m.len(),
    ensures
        mask_weight(w, m.take(i)) <= mask_weight(w, m),
        i < m.len() ==> mask_weight(w, m.take(i + 1)) == mask_weight(w, m.take(i)) + if m[i] {
            w[i]
        } else {
            0
        },
    decreases m.len(),
{
    if i < m.len() {
        assert(m.take(i + 1).drop_last() =~= m.take(i));
        assert(m.take(i) =~= m.drop_last().take(i));
        lemma_weight_of_prefix(w, m.drop_last(), i);
    } else {
        assert(m.take(i) =~= m);
    }
}

proof fn lemma_least_bounded(w: Seq<nat>, p: Seq<nat>, a: Seq<bool>, limit: nat, i: nat, v: int)
    requires
        least_weight(w, p, a, limit, i, v) is Some,
    ensures
        least_weight(w, p, a, limit, i, v)->0 <= limit,
    decreases i,
{
    if i > 0 {
        if least_weight(w, p, a, limit, (i - 1) as nat, v) is Some {
            lemma_least_bounded(w, p, a, limit, (i - 1) as nat, v);
        }
        if take_weight(w, p, a, limit, i, v) is Some {
            assert(take_weight(w, p, a, limit, i, v)->0 <= limit);
        }
    }
}

/// What `pick` reads back reaches value `v` with the least weight, selects
/// only admissible items and has one entry per item.
proof fn lemma_pick_sound(w: Seq<nat>, p: Seq<nat>, a: Seq<bool>, limit: nat, i: nat, v: int)
    requires
        least_weight(w, p, a, limit, i, v) is Some,
        i <= w.len(),
        i <= p.len(),
        i <= a.len(),
    ensures
        pick(w, p, a, limit, i, v).len() == i,
        mask_value(p, pick(w, p, a, limit, i, v)) == v,
        mask_weight(w, pick(w, p, a, limit, i, v)) == least_weight(w, p, a, limit, i, v)->0,
        admissible(a, pick(w, p, a, limit, i, v)),
    decreases i,
{
    if i > 0 {
        let j = (i - 1) as nat;
        if took(w, p, a, limit, i, v) {
            let u = v - p[j as int];
            lemma_pick_sound(w, p, a, limit, j, u);
            lemma_mask_push(w, p, pick(w, p, a, limit, j, u), true);
        } else {
            lemma_pick_sound(w, p, a, limit, j, v);
            lemma_mask_push(w, p, pick(w, p, a, limit, j, v), false);
        }
        let m = pick(w, p, a, limit, i, v);
        assert forall|k: int| 0 <= k < m.len() && #[trigger] m[k] implies a[k] by {
            if k < j {
                assert(m[k] == m.drop_last()[k]);
            }
        }
    }
}

/// Any admissible selection of the first items within `limit` is matched by
/// `least_weight` at its value, with no more weight.
proof fn lemma_least_complete(w: Seq<nat>, p: Seq<nat>, a: Seq<bool>, limit: nat, m: Seq<bool>)
    requires
        admissible(a, m),
        mask_weight(w, m) <= limit,
        m.len() <= w.len(),
    ensures
        least_weight(w, p, a, limit, m.len(), mask_value(p, m) as int) is Some,
        least_weight(w, p, a, limit, m.len(), mask_value(p, m) as int)->0 <= mask_weight(w, m),
    decreases m.len(),
{
    if m.len() > 0 {
        let r = m.drop_last();
        assert(admissible(a, r)) by {
            assert forall|k: int| 0 <= k < r.len() && #[trigger] r[k] implies a[k] by {
                assert(m[k] == r[k]);
            }
        }
        lemma_least_complete(w, p, a, limit, r);
        let j = (m.len() - 1) as nat;
        assert(m.last() ==> a[j as int]) by {
            if m.last() {
                assert(m[j as int]);
            }
        }
        let v = mask_value(p, m) as int;
        if m.last() {
            assert(v - p[j as int] == mask_value(p, r));
            assert(take_weight(w, p, a, limit, m.len(), v) is Some);
        } else {
            assert(v == mask_value(p, r));
        }
    }
}

proof fn lemma_zero_reachable(w: Seq<nat>, p: Seq<nat>, a: Seq<bool>, limit: nat, i: nat)
    ensures
        least_weight(w, p, a, limit, i, 0) is Some,
    decreases i,
{
    if i > 0 {
        lemma_zero_reachable(w, p, a, limit, (i - 1) as nat);
    }
}

proof fn lemma_value_bounded(p: Seq<nat>, a: Seq<bool>, m: Seq<bool>)
    requires
        admissible(a, m),
    ensures
        mask_value(p, m) <= allowed_value(p, a, m.len()),
    decreases m.len(),
{
    if m.len() > 0 {
        let r = m.drop_last();
        assert(admissible(a, r)) by {
            assert forall|k: int| 0 <= k < r.len() && #[trigger] r[k] implies a[k] by {
                assert(m[k] == r[k]);
            }
        }
        lemma_value_bounded(p, a, r);
        assert(m.last() ==> a[m.len() - 1]) by {
            if m.last() {
                assert(m[m.len() - 1]);
            }
        }
    }
}

proof fn lemma_best_value(w: Seq<nat>, p: Seq<nat>, a: Seq<bool>, limit: nat, v: nat)
    ensures
        best_value(w, p, a, limit, v) <= v,
        least_weight(w, p, a, limit, w.len(), best_value(w, p, a, limit, v) as int) is Some,
        forall|u: nat|
            best_value(w, p, a, limit, v) < u <= v ==> #[trigger] least_weight(
                w,
                p,
                a,
                limit,
                w.len(),
                u as int,
            ) is None,
    decreases v,
{
    lemma_zero_reachable(w, p, a, limit, w.len());
    if !(least_weight(w, p, a, limit, w.len(), v as int) is Some || v == 0) {
        lemma_best_value(w, p, a, limit, (v - 1) as nat);
    }
}

/// The packing is an admissible selection of one entry per item, within the
/// limit, and no admissible selection within the limit has greater value.
pub proof fn law_selection_is_optimal(w: Seq<nat>, p: Seq<nat>, a: Seq<bool>, limit: nat)
    requires
        p.len() == w.len(),
        a.len() == w.len(),
    ensures
        selection(w, p, a, limit).len() == w.len(),
        admissible(a, selection(w, p, a, limit)),
        mask_weight(w, selection(w, p, a, limit)) <= limit,
        forall|m: Seq<bool>|
            m.len() == w.len() && admissible(a, m) && mask_weight(w, m) <= limit ==> mask_value(p, m)
                <= #[trigger] mask_value(p, selection(w, p, a, limit)),
{
    let total = allowed_value(p, a, w.len());
    let best = best_value(w, p, a, limit, total);
    lemma_best_value(w, p, a, limit, total);
    lemma_pick_sound(w, p, a, limit, w.len(), best as int);
    lemma_least_bounded(w, p, a, limit, w.len(), best as int);
    assert forall|m: Seq<bool>|
        m.len() == w.len() && admissible(a, m) && mask_weight(w, m) <= limit implies mask_value(p, m)
            <= #[trigger] mask_value(p, selection(w, p, a, limit)) by {
        lemma_least_complete(w, p, a, limit, m);
        lemma_value_bounded(p, a, m);
        let u = mask_value(p, m);
        if u > best {
            assert(least_weight(w, p, a, limit, w.len(), u as int) is None);
        }
    }
}

proof fn lemma_mask_add(w: Seq<nat>, p: Seq<nat>, m: Seq<bool>, i: int)
    requires
        0 <= i < m.len(),
        !m[i],
    ensures
        mask_weight(w, m.update(i, true)) == mask_weight(w, m) + w[i],
        mask_value(p, m.update(i, true)) == mask_value(p, m) + p[i],
    decreases m.len(),
{
    let u = m.update(i, true);
    if i == m.len() - 1 {
        assert(u.drop_last() =~= m.drop_last());
    } else {
        assert(u.drop_last() =~= m.drop_last().update(i, true));
        lemma_mask_add(w, p, m.drop_last(), i);
    }
}

/// The packing leaves out no item that may be packed, has some value and
/// would still fit in what the packing leaves of the limit.
pub proof fn law_no_fitting_item_left_out(w: Seq<nat>, p: Seq<nat>, a: Seq<bool>, limit: nat)
    requires
        p.len() == w.len(),
        a.len() == w.len(),
    ensures
        forall|i: int|
            0 <= i < w.len() && a[i] && !(#[trigger] selection(w, p, a, limit)[i]) && p[i] > 0
                ==> mask_weight(w, selection(w, p, a, limit)) + w[i] > limit,
{
    law_selection_is_optimal(w, p, a, limit);
    let s = selection(w, p, a, limit);
    assert forall|i: int|
        0 <= i < w.len() && a[i] && !(#[trigger] s[i]) && p[i] > 0 implies mask_weight(w, s) + w[i]
            > limit by {
        if mask_weight(w, s) + w[i] <= limit {
            let o = s.update(i, true);
            lemma_mask_add(w, p, s, i);
            assert(admissible(a, o)) by {
                assert forall|k: int| 0 <= k < o.len() && #[trigger] o[k] implies a[k] by {
                    if k != i {
                        assert(o[k] == s[k]);
                    }
                }
            }
            assert(mask_value(p, o) <= mask_value(p, s));
        }
    }
}

proof fn lemma_full_value(p: Seq<nat>, a: Seq<bool>, m: Seq<bool>)
    requires
        admissible(a, m),
        m.len() <= a.len(),
        m.len() <= p.len(),
        forall|i: int| 0 <= i < a.len() && #[trigger] a[i] ==> p[i] > 0,
        mask_value(p, m) >= allowed_value(p, a, m.len()),
    ensures
        forall|i: int| 0 <= i < m.len() ==> #[trigger] m[i] == a[i],
    decreases m.len(),
{
    if m.len() > 0 {
        let j = m.len() - 1;
        let r = m.drop_last();
        assert(admissible(a, r)) by {
            assert forall|k: int| 0 <= k < r.len() && #[trigger] r[k] implies a[k] by {
                assert(m[k] == r[k]);
            }
        }
        lemma_value_bounded(p, a, r);
        assert(m[j] ==> a[j]);
        if a[j] {
            assert(m[j]);
        }
        lemma_full_value(p, a, r);
        assert forall|i: int| 0 <= i < m.len() implies #[trigger] m[i] == a[i] by {
            if i < j {
                assert(r[i] == m[i]);
            }
        }
    }
}

/// When every item that may be packed has some value and all of them fit in
/// the limit together, the packing takes exactly those items.
pub proof fn law_everything_that_fits_is_packed(w: Seq<nat>, p: Seq<nat>, a: Seq<bool>, limit: nat)
    requires
        p.len() == w.len(),
        a.len() == w.len(),
        mask_weight(w, a) <= limit,
        forall|i: int| 0 <= i < a.len() && #[trigger] a[i] ==> p[i] > 0,
    ensures
        selection(w, p, a, limit) == a,
{
    law_selection_is_optimal(w, p, a, limit);
    let s = selection(w, p, a, limit);
    assert(admissible(a, a));
    lemma_all_allowed_value(p, a, a.len());
    assert(mask_value(p, a.take(a.len() as int)) == allowed_value(p, a, a.len()));
    assert(a.take(a.len() as int) =~= a);
    assert(mask_value(p, a) <= mask_value(p, s));
    lemma_full_value(p, a, s);
    assert(s =~= a);
}

proof fn lemma_all_allowed_value(p: Seq<nat>, a: Seq<bool>, i: nat)
    requires
        i <= a.len(),
    ensures
        mask_value(p, a.take(i as int)) == allowed_value(p, a, i),
    decreases i,
{
    if i > 0 {
        lemma_all_allowed_value(p, a, (i - 1) as nat);
        assert(a.take(i as int).drop_last() =~= a.take(i - 1));
    }
}

/// The weights of a list of counts.
pub open spec fn nats_of(v: Seq<usize>) -> Seq<nat> {
    v.map_values(|x: usize| x as nat)
}

/// The values of a list of bytes.
pub open spec fn nats_of_bytes(v: Seq<u8>) -> Seq<nat> {
    v.map_values(|x: u8| x as nat)
}

/// An optional count as an optional weight.
pub open spec fn widen(o: Option<usize>) -> Option<nat> {
    match o {
        Some(x) => Some(x as nat),
        None => None,
    }
}

/// The packing of items with the given weights, values and admissibility
/// within `limit`: one flag per item, `true` for the items packed. It is
/// `selection` of the items, so no admissible choice within the limit has
/// greater value (`law_selection_is_optimal`).
pub fn pack_items(weights: &Vec<usize>, values: &Vec<u8>, allowed: &Vec<bool>, limit: usize) -> (chosen: Vec<bool>)
    requires
        values.len() == weights.len(),
        allowed.len() == weights.len(),
        weights.len() <= usize::MAX / 256,
    ensures
        chosen@ == selection(nats_of(weights@), nats_of_bytes(values@), allowed@, limit as nat),
{
    let n = weights.len();
    let ghost w = nats_of(weights@);
    let ghost p = nats_of_bytes(values@);
    let ghost a = allowed@;
    let ghost lim = limit as nat;
    let mut total: usize = 0;
    let mut i: usize = 0;
    while i < n
        invariant
            i <= n,
            n == weights.len(),
            values.len() == n,
            allowed.len() == n,
            n <= usize::MAX / 256,
            p == nats_of_bytes(values@),
            a == allowed@,
            total == allowed_value(p, a, i as nat),
            total <= 255 * i,
        decreases n - i,
    {
        if allowed[i] {
            total = total + values[i] as usize;
        }
        i = i + 1;
    }
    let mut row: Vec<Option<usize>> = Vec::new();
    row.push(Some(0));
    let mut v: usize = 0;
    while v < total
        invariant
            v <= total,
            row.len() == v + 1,
            forall|u: int| 0 <= u <= v ==> widen(#[trigger] row@[u]) == least_weight(w, p, a, lim, 0, u),
        decreases total - v,
    {
        row.push(None);
        v = v + 1;
    }
    let mut took_rows: Vec<Vec<bool>> = Vec::new();
    let mut i: usize = 0;
    while i < n
        invariant
            i <= n,
            n == weights.len(),
            values.len() == n,
            allowed.len() == n,
            w == nats_of(weights@),
            p == nats_of_bytes(values@),
            a == allowed@,
            lim == limit as nat,
            row.len() == total + 1,
            took_rows.len() == i,
            forall|u: int| 0 <= u <= total ==> widen(#[trigger] row@[u]) == least_weight(w, p, a, lim, i as nat, u),
            forall|k: int| 0 <= k < i ==> (#[trigger] took_rows@[k]).len() == total + 1,
            forall|k: int, u: int|
                0 <= k < i && 0 <= u <= total ==> #[trigger] took_rows@[k]@[u] == took(w, p, a, lim, (k + 1) as nat, u),
        decreases n - i,
    {
        let wi = weights[i];
        let pi = values[i] as usize;
        let ai = allowed[i];
        let mut next: Vec<Option<usize>> = Vec::new();
        let mut took_row: Vec<bool> = Vec::new();
        let mut v: usize = 0;
        while v <= total
            invariant
                v <= total + 1,
                i < n,
                n == weights.len(),
                values.len() == n,
                allowed.len() == n,
                w == nats_of(weights@),
                p == nats_of_bytes(values@),
                a == allowed@,
                lim == limit as nat,
                wi == weights@[i as int],
                pi == values@[i as int],
                ai == allowed@[i as int],
                row.len() == total + 1,
                next.len() == v,
                took_row.len() == v,
                forall|u: int| 0 <= u <= total ==> widen(#[trigger] row@[u]) == least_weight(w, p, a, lim, i as nat, u),
                forall|u: int| 0 <= u < v ==> widen(#[trigger] next@[u]) == least_weight(w, p, a, lim, (i + 1) as nat, u),
                forall|u: int| 0 <= u < v ==> #[trigger] took_row@[u] == took(w, p, a, lim, (i + 1) as nat, u),
            decreases total + 1 - v,
        {
            assert(w[i as int] == wi as nat);
            assert(p[i as int] == pi as nat);
            let skip = row[v];
            let take: Option<usize> = if ai && v >= pi {
                match row[v - pi] {
                    Some(x) => if wi <= limit && x <= limit - wi {
                        Some(x + wi)
                    } else {
                        None
                    },
                    None => None,
                }
            } else {
                None
            };
            assert(widen(take) == take_weight(w, p, a, lim, (i + 1) as nat, v as int));
            let (best, t): (Option<usize>, bool) = match (skip, take) {
                (Some(x), Some(y)) => if y < x {
                    (Some(y), true)
                } else {
                    (Some(x), false)
                },
                (Some(x), None) => (Some(x), false),
                (None, Some(y)) => (Some(y), true),
                (None, None) => (None, false),
            };
            next.push(best);
            took_row.push(t);
            v = v + 1;
        }
        row = next;
        took_rows.push(took_row);
        i = i + 1;
    }
    let mut best: usize = total;
    while best > 0 && row[best].is_none()
        invariant
            best <= total,
            row.len() == total + 1,
            n == weights.len(),
            w == nats_of(weights@),
            forall|u: int| 0 <= u <= total ==> widen(#[trigger] row@[u]) == least_weight(w, p, a, lim, n as nat, u),
            best_value(w, p, a, lim, total as nat) == best_value(w, p, a, lim, best as nat),
        decreases best,
    {
        assert(widen(row@[best as int]) is None);
        best = best - 1;
    }
    assert(best_value(w, p, a, lim, best as nat) == best);
    let mut chosen: Vec<bool> = Vec::new();
    let mut k: usize = 0;
    while k < n
        invariant
            k <= n,
            chosen.len() == k,
            forall|j: int| 0 <= j < k ==> !#[trigger] chosen@[j],
        decreases n - k,
    {
        chosen.push(false);
        k = k + 1;
    }
    let ghost target = selection(w, p, a, lim);
    assert(w.len() == n);
    let mut v: usize = best;
    let mut i: usize = n;
    assert(chosen@.subrange(n as int, n as int) =~= Seq::<bool>::empty());
    assert(pick(w, p, a, lim, n as nat, v as int) + chosen@.subrange(n as int, n as int) =~= target);
    while i > 0
        invariant
            i <= n,
            v <= total,
            chosen.len() == n,
            n == weights.len(),
            values.len() == n,
            took_rows.len() == n,
            w == nats_of(weights@),
            p == nats_of_bytes(values@),
            forall|k: int| 0 <= k < n ==> (#[trigger] took_rows@[k]).len() == total + 1,
            forall|k: int, u: int|
                0 <= k < n && 0 <= u <= total ==> #[trigger] took_rows@[k]@[u] == took(w, p, a, lim, (k + 1) as nat, u),
            pick(w, p, a, lim, i as nat, v as int) + chosen@.subrange(i as int, n as int) == target,
        decreases i,
    {
        let ghost old_chosen = chosen@;
        let ghost old_v = v;
        let b = took_rows[i - 1][v];
        assert(b == took(w, p, a, lim, i as nat, v as int));
        if b {
            assert(p[i - 1] == values@[i - 1] as nat);
            v = v - values[i - 1] as usize;
            chosen.set(i - 1, true);
        } else {
            chosen.set(i - 1, false);
        }
        assert(chosen@.subrange(i - 1, n as int) =~= seq![b] + old_chosen.subrange(i as int, n as int));
        assert(pick(w, p, a, lim, i as nat, old_v as int) == pick(w, p, a, lim, (i - 1) as nat, v as int).push(b));
        assert(pick(w, p, a, lim, (i - 1) as nat, v as int) + chosen@.subrange(i - 1, n as int) =~= pick(
            w,
            p,
            a,
            lim,
            (i - 1) as nat,
            v as int,
        ).push(b) + old_chosen.subrange(i as int, n as int));
        i = i - 1;
    }
    assert(chosen@.subrange(0, n as int) =~= chosen@);
    assert(pick(w, p, a, lim, 0, v as int) + chosen@ =~= chosen@);
    chosen
}

} // verus!
