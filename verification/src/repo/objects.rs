//! The objects that a set of posts refers to.

use crate::export::Post;
use crate::model::Uuid;
use vstd::prelude::*;

verus! {

/// True if `ids` is in strictly ascending order, and so free of
/// duplicates.
pub open spec fn ascending(ids: Seq<Uuid>) -> bool {
    forall|i: int, j: int| 0 <= i < j < ids.len() ==> ids[i] < ids[j]
}

/// True if one of `posts` has `id` among its attachments.
pub open spec fn attached(posts: Seq<Post>, id: Uuid) -> bool {
    exists|p: int| 0 <= p < posts.len() && (#[trigger] posts[p]).objects@.contains(id)
}

/// Puts `id` into `ids` at its place in the order, unless it is there.
fn insert_ascending(ids: &mut Vec<Uuid>, id: Uuid)
    requires
        ascending(old(ids)@),
    ensures
        ascending(final(ids)@),
        forall|x: Uuid| final(ids)@.contains(x) <==> (old(ids)@.contains(x) || x == id),
{
    let mut at: usize = 0;
    while at < ids.len() && ids[at] < id
        invariant
            at <= ids.len(),
            *ids == *old(ids),
            forall|k: int| 0 <= k < at ==> ids[k] < id,
        decreases ids.len() - at,
    {
        at += 1;
    }
    if at < ids.len() && ids[at] == id {
        return ;
    }
    let ghost before = ids@;
    ids.insert(at, id);
    proof {
        let after = ids@;
        assert(after == before.insert(at as int, id));
        assert forall|x: Uuid| after.contains(x) <==> (before.contains(x) || x == id) by {
            if after.contains(x) {
                let k = choose|k: int| 0 <= k < after.len() && after[k] == x;
                if k < at {
                    assert(before[k] == x);
                } else if k > at {
                    assert(before[k - 1] == x);
                }
            }
            if before.contains(x) {
                let k = choose|k: int| 0 <= k < before.len() && before[k] == x;
                if k < at {
                    assert(after[k] == x);
                } else {
                    assert(after[k + 1] == x);
                }
            }
            if x == id {
                assert(after[at as int] == x);
            }
        }
        assert forall|i: int, j: int| 0 <= i < j < after.len() implies after[i] < after[j] by {
            if j < at {
            } else if i > at {
                assert(before[i - 1] < before[j - 1]);
            } else if i == at {
                assert(before[at as int] <= before[j - 1]);
            } else if j == at {
            } else {
                assert(before[i] < before[j - 1]);
            }
        }
    }
}

/// True if `id` is attached to one of the first `p` of `posts`, or is
/// among the first `o` attachments of the one after them.
spec fn seen(posts: Seq<Post>, p: int, o: int, id: Uuid) -> bool {
    ||| attached(posts.take(p), id)
    ||| (p < posts.len() && posts[p].objects@.take(o).contains(id))
}

/// The identities of all objects that `posts` refer to, each once, in
/// ascending order.
pub fn referenced_objects(posts: &Vec<Post>) -> (ids: Vec<Uuid>)
    ensures
        ascending(ids@),
        forall|id: Uuid| ids@.contains(id) <==> attached(posts@, id),
{
    let mut ids: Vec<Uuid> = Vec::new();
    let mut p: usize = 0;
    assert forall|id: Uuid| !seen(posts@, 0, 0, id) by {
        assert(posts@.take(0).len() == 0);
        if posts@.len() > 0 {
            assert(posts@[0].objects@.take(0).len() == 0);
        }
    }
    while p < posts.len()
        invariant
            p <= posts.len(),
            ascending(ids@),
            forall|id: Uuid| ids@.contains(id) <==> seen(posts@, p as int, 0, id),
        decreases posts.len() - p,
    {
        let objects = &posts[p].objects;
        let mut o: usize = 0;
        while o < objects.len()
            invariant
                p < posts.len(),
                o <= objects.len(),
                objects == &posts[p as int].objects,
                ascending(ids@),
                forall|id: Uuid| ids@.contains(id) <==> seen(posts@, p as int, o as int, id),
            decreases objects.len() - o,
        {
            let ghost held = ids@;
            insert_ascending(&mut ids, objects[o]);
            proof {
                let shorter = objects@.take(o as int);
                let longer = objects@.take(o as int + 1);
                assert forall|id: Uuid| ids@.contains(id) <==> seen(
                    posts@,
                    p as int,
                    o as int + 1,
                    id,
                ) by {
                    assert(held.contains(id) <==> seen(posts@, p as int, o as int, id));
                    if shorter.contains(id) {
                        let k = choose|k: int| 0 <= k < shorter.len() && shorter[k] == id;
                        assert(longer[k] == id);
                    }
                    if id == objects[o as int] {
                        assert(longer[o as int] == id);
                    }
                    if longer.contains(id) {
                        let k = choose|k: int| 0 <= k < longer.len() && longer[k] == id;
                        if k < o {
                            assert(shorter[k] == id);
                        }
                    }
                }
            }
            o += 1;
        }
        proof {
            let done = posts@.take(p as int);
            let more = posts@.take(p as int + 1);
            assert(objects@.take(o as int) =~= objects@);
            assert forall|id: Uuid| seen(posts@, p as int, o as int, id) <==> seen(
                posts@,
                p as int + 1,
                0,
                id,
            ) by {
                if p + 1 < posts.len() {
                    assert(posts@[p as int + 1].objects@.take(0).len() == 0);
                }
                if attached(done, id) {
                    let q = choose|q: int| 0 <= q < done.len() && (#[trigger] done[q]).objects@.contains(id);
                    assert(more[q].objects@.contains(id));
                }
                if posts@[p as int].objects@.contains(id) {
                    assert(more[p as int].objects@.contains(id));
                }
                if attached(more, id) {
                    let q = choose|q: int| 0 <= q < more.len() && (#[trigger] more[q]).objects@.contains(id);
                    if q < p {
                        assert(done[q].objects@.contains(id));
                    }
                }
            }
        }
        p += 1;
    }
    proof {
        assert(posts@.take(p as int) =~= posts@);
    }
    ids
}

/// Two ascending lists with the same members are the same list. So the
/// contract of `referenced_objects` leaves one result only.
pub proof fn lemma_ascending_is_unique(a: Seq<Uuid>, b: Seq<Uuid>)
    requires
        ascending(a),
        ascending(b),
        forall|id: Uuid| a.contains(id) <==> b.contains(id),
    ensures
        a == b,
    decreases a.len(),
{
    if a.len() == 0 {
        if b.len() > 0 {
            assert(b.contains(b[0]));
        }
        assert(a =~= b);
    } else {
        let top = a.last();
        assert(a.contains(top));
        assert(b.contains(top));
        let k = choose|k: int| 0 <= k < b.len() && b[k] == top;
        if k < b.len() - 1 {
            assert(b.contains(b.last()));
            assert(a.contains(b.last()));
            let j = choose|j: int| 0 <= j < a.len() && a[j] == b.last();
            assert(a[j] <= top);
            assert(b[k] < b.last());
        }
        let a0 = a.drop_last();
        let b0 = b.drop_last();
        assert forall|id: Uuid| a0.contains(id) <==> b0.contains(id) by {
            if a0.contains(id) {
                let i = choose|i: int| 0 <= i < a0.len() && a0[i] == id;
                assert(a[i] == id);
                assert(a.contains(id));
                let j = choose|j: int| 0 <= j < b.len() && b[j] == id;
                assert(a[i] < top);
                assert(b0[j] == id);
            }
            if b0.contains(id) {
                let j = choose|j: int| 0 <= j < b0.len() && b0[j] == id;
                assert(b[j] == id);
                assert(b.contains(id));
                let i = choose|i: int| 0 <= i < a.len() && a[i] == id;
                assert(b[j] < b.last());
                assert(a0[i] == id);
            }
        }
        lemma_ascending_is_unique(a0, b0);
        assert(a =~= a0.push(top));
        assert(b =~= b0.push(top));
    }
}

} // verus!
