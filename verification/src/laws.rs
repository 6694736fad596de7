//! Engine-wide properties, stated and proved once for every diffable type.

use vstd::prelude::*;
use crate::actions_applied;
use crate::Apply;
use crate::Diff;
use crate::Field;

verus! {

/// Applying `Unchanged` is a no-op: it is applicable to any target and can
/// only leave the target exactly as it was.
pub proof fn lemma_unchanged_is_noop<V, K: Apply<V>, A: Apply<V>>(before: V, after: V)
    ensures
        Field::<V, K, A>::Unchanged.applies_to(before),
        Field::<V, K, A>::Unchanged.applied(before, after) <==> after == before,
{
}

/// A list of trivial `()` actions can only leave the target as it was.
proof fn lemma_unit_actions_noop<V>(s: Seq<()>, before: V)
    ensures
        actions_applied(s, before, before),
    decreases s.len(),
{
    if s.len() > 0 {
        lemma_unit_actions_noop(s.drop_first(), before);
        assert(s.first().applied(before, before) && actions_applied(
            s.drop_first(),
            before,
            before,
        ));
    }
}

/// For a scalar — a diffable type whose changeset and action types are both
/// the trivial `()` — the `changeset` contract leaves no slack: the result is
/// `Unchanged` exactly when `a` and `b` are `same`, and otherwise it must be
/// a wholesale `Replace` carrying a value `same` as `b`.
pub proof fn lemma_scalar_diff_shape<V: Diff>(r: Field<V, (), ()>, a: V, b: V)
    requires
        r is Unchanged <==> a.same(b),
        r.applies_to(a),
        forall|after: V| #[trigger] r.applied(a, after) ==> after.same(b),
    ensures
        a.same(b) ==> r is Unchanged,
        !a.same(b) ==> r is Replace && r->Replace_0.same(b),
{
    match r {
        Field::Unchanged => {}
        Field::Replace(v) => {
            assert(r.applied(a, v));
        }
        Field::Changes(k) => {
            assert(r.applied(a, a));
            assert(a.same(b));
        }
        Field::Actions(acts) => {
            lemma_unit_actions_noop(acts@, a);
            assert(r.applied(a, a));
            assert(a.same(b));
        }
    }
}

} // verus!
