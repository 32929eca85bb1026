//! The global order in which the per-endpoint locks of a pair are taken.
use vstd::prelude::*;

verus! {

/// Lexicographic order on names, by code point.
pub open spec fn name_less(a: Seq<char>, b: Seq<char>) -> bool
    decreases a.len(),
{
    if a.len() == 0 {
        b.len() > 0
    } else if b.len() == 0 {
        false
    } else if (a[0] as int) < (b[0] as int) {
        true
    } else if a[0] == b[0] {
        name_less(a.drop_first(), b.drop_first())
    } else {
        false
    }
}

/// No name is below itself.
pub proof fn lemma_name_less_irreflexive(a: Seq<char>)
    ensures
        !name_less(a, a),
    decreases a.len(),
{
    if a.len() > 0 {
        lemma_name_less_irreflexive(a.drop_first());
    }
}

/// The order is transitive.
pub proof fn lemma_name_less_transitive(a: Seq<char>, b: Seq<char>, c: Seq<char>)
    requires
        name_less(a, b),
        name_less(b, c),
    ensures
        name_less(a, c),
    decreases a.len(),
{
    if a.len() > 0 && b.len() > 0 && c.len() > 0 && a[0] == b[0] && b[0] == c[0] {
        lemma_name_less_transitive(a.drop_first(), b.drop_first(), c.drop_first());
    }
}

/// Two distinct names are always comparable.
pub proof fn lemma_name_less_total(a: Seq<char>, b: Seq<char>)
    requires
        a != b,
    ensures
        name_less(a, b) || name_less(b, a),
    decreases a.len(),
{
    if a.len() > 0 && b.len() > 0 {
        if a[0] == b[0] {
            assert(a.drop_first() != b.drop_first()) by {
                if a.drop_first() == b.drop_first() {
                    assert(a =~= seq![a[0]] + a.drop_first());
                    assert(b =~= seq![b[0]] + b.drop_first());
                }
            }
            lemma_name_less_total(a.drop_first(), b.drop_first());
        } else {
            assert((a[0] as int) != (b[0] as int));
        }
    } else if a.len() == 0 && b.len() == 0 {
        assert(a =~= b);
    }
}

/// Compares two names in the global lock order.
pub fn name_lt(a: &str, b: &str) -> (r: bool)
    ensures
        r == name_less(a@, b@),
{
    let la = a.unicode_len();
    let lb = b.unicode_len();
    let mut i: usize = 0;
    assert(a@.skip(0) =~= a@);
    assert(b@.skip(0) =~= b@);
    while i < la && i < lb
        invariant
            la == a@.len(),
            lb == b@.len(),
            i <= la,
            i <= lb,
            a@.subrange(0, i as int) == b@.subrange(0, i as int),
            name_less(a@, b@) == name_less(a@.skip(i as int), b@.skip(i as int)),
        decreases la - i,
    {
        let ca = a.get_char(i);
        let cb = b.get_char(i);
        assert(a@.skip(i as int)[0] == ca);
        assert(b@.skip(i as int)[0] == cb);
        if (ca as u32) < (cb as u32) {
            return true;
        }
        if ca != cb {
            return false;
        }
        assert(a@.skip(i as int).drop_first() =~= a@.skip(i + 1));
        assert(b@.skip(i as int).drop_first() =~= b@.skip(i + 1));
        assert(a@.subrange(0, i + 1) =~= a@.subrange(0, i as int).push(ca));
        assert(b@.subrange(0, i + 1) =~= b@.subrange(0, i as int).push(cb));
        i = i + 1;
    }
    i < lb
}

/// Which of a pair's two endpoint locks is taken first.
#[derive(PartialEq, Eq, Structural, Clone, Copy, Debug)]
pub enum LockOrder {
    /// Both ends name the same machine: the pair is not run and takes no lock.
    Skip,
    /// The sender's lock is taken first, then the receiver's.
    FromFirst,
    /// The receiver's lock is taken first, then the sender's.
    ToFirst,
}

pub open spec fn lock_order_spec(from: Seq<char>, to: Seq<char>) -> LockOrder {
    if name_less(from, to) {
        LockOrder::FromFirst
    } else if name_less(to, from) {
        LockOrder::ToFirst
    } else {
        LockOrder::Skip
    }
}

/// The names of the locks a pair takes, in the order it takes them.
pub open spec fn acquisition_spec(from: Seq<char>, to: Seq<char>) -> Seq<Seq<char>> {
    match lock_order_spec(from, to) {
        LockOrder::FromFirst => seq![from, to],
        LockOrder::ToFirst => seq![to, from],
        LockOrder::Skip => Seq::empty(),
    }
}

/// Decides the order in which a pair takes its two endpoint locks:
/// ascending by name, whichever end sends; no lock when the names are equal.
pub fn lock_order(from: &str, to: &str) -> (r: LockOrder)
    ensures
        r == lock_order_spec(from@, to@),
        r == LockOrder::Skip <==> from@ == to@,
{
    proof {
        lemma_name_less_irreflexive(from@);
        if from@ != to@ {
            lemma_name_less_total(from@, to@);
        }
    }
    if name_lt(from, to) {
        LockOrder::FromFirst
    } else if name_lt(to, from) {
        LockOrder::ToFirst
    } else {
        LockOrder::Skip
    }
}

/// Takes a pair's lock names in acquisition order: `None` for a pair whose
/// two ends are the same machine.
pub fn acquisition(from: &str, to: &str) -> (r: Option<(String, String)>)
    ensures
        r is None <==> from@ == to@,
        r matches Some((first, second)) ==> seq![first@, second@] == acquisition_spec(from@, to@),
        r matches Some((first, second)) ==> name_less(first@, second@),
{
    match lock_order(from, to) {
        LockOrder::FromFirst => Some((from.to_string(), to.to_string())),
        LockOrder::ToFirst => Some((to.to_string(), from.to_string())),
        LockOrder::Skip => None,
    }
}

/// `x` is taken before `y` by some pair of `pairs`.
pub open spec fn waits_for(pairs: Seq<(Seq<char>, Seq<char>)>, x: Seq<char>, y: Seq<char>) -> bool {
    exists|k: int|
        0 <= k < pairs.len() && acquisition_spec(pairs[k].0, pairs[k].1) == seq![x, y]
}

/// A chain of locks in which each is taken, by some pair, before the next.
pub open spec fn is_wait_chain(pairs: Seq<(Seq<char>, Seq<char>)>, path: Seq<Seq<char>>) -> bool {
    forall|i: int| 0 <= i < path.len() - 1 ==> #[trigger] chain_step(pairs, path, i)
}

/// The `i`-th lock of `path` is taken, by some pair, before the next one.
pub open spec fn chain_step(pairs: Seq<(Seq<char>, Seq<char>)>, path: Seq<Seq<char>>, i: int) -> bool {
    waits_for(pairs, path[i], path[i + 1])
}

proof fn lemma_wait_edge_ascends(pairs: Seq<(Seq<char>, Seq<char>)>, x: Seq<char>, y: Seq<char>)
    requires
        waits_for(pairs, x, y),
    ensures
        name_less(x, y),
{
    let k = choose|k: int|
        0 <= k < pairs.len() && acquisition_spec(pairs[k].0, pairs[k].1) == seq![x, y];
    let (f, t) = pairs[k];
    let s = acquisition_spec(f, t);
    assert(s.len() == 2);
    assert(s[0] == x && s[1] == y);
}

proof fn lemma_wait_chain_ascends(pairs: Seq<(Seq<char>, Seq<char>)>, path: Seq<Seq<char>>)
    requires
        path.len() >= 2,
        is_wait_chain(pairs, path),
    ensures
        name_less(path[0], path[path.len() - 1]),
    decreases path.len(),
{
    assert(chain_step(pairs, path, 0));
    lemma_wait_edge_ascends(pairs, path[0], path[1]);
    if path.len() > 2 {
        let rest = path.drop_first();
        assert forall|i: int| 0 <= i < rest.len() - 1 implies #[trigger] chain_step(
            pairs,
            rest,
            i,
        ) by {
            assert(chain_step(pairs, path, i + 1));
        }
        lemma_wait_chain_ascends(pairs, rest);
        lemma_name_less_transitive(path[0], path[1], path[path.len() - 1]);
    }
}

/// Deadlock freedom: whatever batch of pairs runs at once, and however their
/// endpoints are shared, no chain of "taken before" steps between locks comes
/// back to the lock it started from, so the wait-for graph has no cycle.
pub proof fn lemma_no_wait_cycle(pairs: Seq<(Seq<char>, Seq<char>)>, path: Seq<Seq<char>>)
    requires
        path.len() >= 2,
        is_wait_chain(pairs, path),
    ensures
        path[0] != path[path.len() - 1],
{
    lemma_wait_chain_ascends(pairs, path);
    lemma_name_less_irreflexive(path[0]);
}

/// Two pairs that share an endpoint `b` take `b`'s lock by the same rule:
/// in each, the locks are taken in ascending name order, so `b` comes after
/// exactly the smaller of the other two names.
pub proof fn lemma_shared_endpoint_order(a: Seq<char>, b: Seq<char>, c: Seq<char>)
    ensures
        a != b ==> acquisition_spec(a, b) == (if name_less(a, b) { seq![a, b] } else { seq![b, a] }),
        b != c ==> acquisition_spec(b, c) == (if name_less(b, c) { seq![b, c] } else { seq![c, b] }),
        a == b ==> acquisition_spec(a, b).len() == 0,
        b == c ==> acquisition_spec(b, c).len() == 0,
{
    lemma_name_less_irreflexive(a);
    lemma_name_less_irreflexive(b);
    if a != b {
        lemma_name_less_total(a, b);
        if name_less(a, b) && name_less(b, a) {
            lemma_name_less_transitive(a, b, a);
        }
    }
    if b != c {
        lemma_name_less_total(b, c);
        if name_less(b, c) && name_less(c, b) {
            lemma_name_less_transitive(b, c, b);
        }
    }
}

} // verus!
