//! Lists of texts in dictionary order.

use crate::text;
use vstd::prelude::*;

verus! {

/// `left` comes before `right` in a dictionary: at the first difference it has the smaller
/// character, or it ends there.
pub open spec fn before(left: Seq<char>, right: Seq<char>) -> bool
    decreases left.len(),
{
    if right.len() == 0 {
        false
    } else if left.len() == 0 {
        true
    } else if left[0] != right[0] {
        left[0] < right[0]
    } else {
        before(left.subrange(1, left.len() as int), right.subrange(1, right.len() as int))
    }
}

/// Each text comes before all that follow it, so none is there twice.
pub open spec fn ascending(list: Seq<Seq<char>>) -> bool {
    forall|i: int, j: int| 0 <= i < j < list.len() ==> before(#[trigger] list[i], #[trigger] list[j])
}

pub proof fn before_is_transitive(a: Seq<char>, b: Seq<char>, c: Seq<char>)
    requires
        before(a, b),
        before(b, c),
    ensures
        before(a, c),
    decreases a.len(),
{
    if a.len() > 0 && a[0] == b[0] && b[0] == c[0] {
        before_is_transitive(
            a.subrange(1, a.len() as int),
            b.subrange(1, b.len() as int),
            c.subrange(1, c.len() as int),
        );
    }
}

pub proof fn before_is_irreflexive(a: Seq<char>)
    ensures
        !before(a, a),
    decreases a.len(),
{
    if a.len() > 0 {
        before_is_irreflexive(a.subrange(1, a.len() as int));
    }
}

pub proof fn before_is_total(a: Seq<char>, b: Seq<char>)
    requires
        a != b,
    ensures
        before(a, b) || before(b, a),
    decreases a.len(),
{
    if a.len() > 0 && b.len() > 0 && a[0] == b[0] {
        let c = a.subrange(1, a.len() as int);
        let d = b.subrange(1, b.len() as int);
        if c == d {
            assert(a == seq![a[0]] + c);
            assert(b == seq![b[0]] + d);
        }
        before_is_total(c, d);
    } else if a.len() == 0 && b.len() == 0 {
        assert(a == b);
    }
}

/// Whether `left` comes before `right` in a dictionary.
pub fn comes_before(left: &str, right: &str) -> (r: bool)
    ensures
        r == before(left@, right@),
{
    let l = text::chars_of(left);
    let r = text::chars_of(right);
    let mut at: usize = 0;
    assert(l@.subrange(0, l@.len() as int) == l@);
    assert(r@.subrange(0, r@.len() as int) == r@);
    while at < l.len() && at < r.len() && l[at] == r[at]
        invariant
            at <= l@.len(),
            at <= r@.len(),
            before(l@, r@) == before(
                l@.subrange(at as int, l@.len() as int),
                r@.subrange(at as int, r@.len() as int),
            ),
        decreases l@.len() - at,
    {
        proof {
            let a = l@.subrange(at as int, l@.len() as int);
            let b = r@.subrange(at as int, r@.len() as int);
            assert(a.subrange(1, a.len() as int) == l@.subrange(at + 1, l@.len() as int));
            assert(b.subrange(1, b.len() as int) == r@.subrange(at + 1, r@.len() as int));
        }
        at += 1;
    }
    if at >= r.len() {
        false
    } else if at >= l.len() {
        true
    } else {
        l[at] < r[at]
    }
}

/// Puts a text where it belongs, unless it is there already.
pub fn insert(list: &mut Vec<String>, item: &str)
    requires
        ascending(text::texts(old(list)@)),
    ensures
        ascending(text::texts(final(list)@)),
        forall|t: Seq<char>| #[trigger]
            text::texts(final(list)@).contains(t) <==> text::texts(old(list)@).contains(t) || t
                == item@,
{
    let ghost before_list = text::texts(list@);
    let mut at: usize = 0;
    while at < list.len() && comes_before(list[at].as_str(), item)
        invariant
            at <= list@.len(),
            list@ == old(list)@,
            forall|i: int| 0 <= i < at ==> before((#[trigger] list@[i])@, item@),
        decreases list@.len() - at,
    {
        at += 1;
    }
    if at < list.len() && text::same(list[at].as_str(), item) {
        assert(before_list[at as int] == item@);
        return ;
    }
    list.insert(at, item.to_owned());
    proof {
        let after = text::texts(list@);
        assert(after == before_list.insert(at as int, item@));
        if at < before_list.len() {
            before_is_total(before_list[at as int], item@);
        }
        assert forall|i: int, j: int| 0 <= i < j < after.len() implies before(
            #[trigger] after[i],
            #[trigger] after[j],
        ) by {
            if i < at && j == at {
                assert(after[i] == old(list)@[i]@);
            } else if i == at {
                assert(after[j] == before_list[j - 1]);
                if j - 1 > at {
                    assert(before(before_list[at as int], before_list[j - 1]));
                    before_is_transitive(item@, before_list[at as int], before_list[j - 1]);
                }
            } else if i < at && j < at {
                assert(before(before_list[i], before_list[j]));
            } else if i < at {
                assert(before(before_list[i], before_list[j - 1]));
            } else {
                assert(before(before_list[i - 1], before_list[j - 1]));
            }
        }
        assert forall|t: Seq<char>| #[trigger] after.contains(t) <==> before_list.contains(t) || t
            == item@ by {
            if before_list.contains(t) {
                let k = choose|k: int| 0 <= k < before_list.len() && before_list[k] == t;
                if k < at {
                    assert(after[k] == t);
                } else {
                    assert(after[k + 1] == t);
                }
            }
            if t == item@ {
                assert(after[at as int] == t);
            }
            if after.contains(t) {
                let k = choose|k: int| 0 <= k < after.len() && after[k] == t;
                if k < at {
                    assert(before_list[k] == t);
                } else if k > at {
                    assert(before_list[k - 1] == t);
                }
            }
        }
    }
}

/// There is one way to put texts in order.
pub proof fn order_is_unique(left: Seq<Seq<char>>, right: Seq<Seq<char>>)
    requires
        ascending(left),
        ascending(right),
        forall|t: Seq<char>| #[trigger] left.contains(t) <==> right.contains(t),
    ensures
        left == right,
    decreases left.len(),
{
    if left.len() == 0 {
        if right.len() > 0 {
            assert(right.contains(right[0]));
            assert(left.contains(right[0]));
        }
        assert(left == right);
    } else if right.len() == 0 {
        assert(left.contains(left[0]));
    } else {
        let l = left.last();
        let r = right.last();
        assert(left.contains(l));
        assert(right.contains(r));
        assert(left.contains(r));
        let i = choose|i: int| 0 <= i < right.len() && right[i] == l;
        let j = choose|j: int| 0 <= j < left.len() && left[j] == r;
        if l != r {
            assert(before(right[i], right[right.len() - 1]));
            assert(before(left[j], left[left.len() - 1]));
            before_is_transitive(l, r, l);
            before_is_irreflexive(l);
        }
        assert forall|t: Seq<char>| #[trigger] left.drop_last().contains(t)
            <==> right.drop_last().contains(t) by {
            last_is_once(left, t);
            last_is_once(right, t);
            assert(left.contains(t) <==> right.contains(t));
        }
        order_is_unique(left.drop_last(), right.drop_last());
        assert(left == left.drop_last().push(l));
        assert(right == right.drop_last().push(r));
    }
}

proof fn last_is_once(list: Seq<Seq<char>>, t: Seq<char>)
    requires
        ascending(list),
        list.len() > 0,
    ensures
        list.drop_last().contains(t) <==> list.contains(t) && t != list.last(),
{
    if list.drop_last().contains(t) {
        let k = choose|k: int| 0 <= k < list.drop_last().len() && list.drop_last()[k] == t;
        assert(list[k] == t);
        assert(before(list[k], list[list.len() - 1]));
        before_is_irreflexive(t);
    }
    if list.contains(t) && t != list.last() {
        let k = choose|k: int| 0 <= k < list.len() && list[k] == t;
        assert(list.drop_last()[k] == t);
    }
}

} // verus!
