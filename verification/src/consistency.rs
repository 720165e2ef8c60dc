//! Consistency between the object store and the database.
//!
//! The stores are not part of this crate, so what is proved here is proved
//! of a model of them: the set of objects that the object store holds, the
//! attachments of every post that the database holds, and the view that an
//! open transaction has of them. `answers` says how a call changes the
//! model and which replies the stores can give. A run is one operation from
//! its first call to its end, with nothing else happening in between. The
//! laws say that along every run of creating a post, detaching attachments
//! or pruning, no post that can be read refers to an object that cannot.

use crate::model::{RemoveResult, Uuid};
use crate::protocol::{Call, Reply, Step};
use crate::repo::post::{
    create_post_next,
    create_post_turn,
    delete_objects_next,
    CreatePost,
    DeleteObjects,
};
use crate::repo::prune::{prune_next, Prune};
use vstd::prelude::*;

verus! {

/// The attachments of every post, by the identity of the post.
pub type Posts = Map<Uuid, Seq<Uuid>>;

/// What the stores hold.
pub struct World {
    /// The objects in the object store.
    pub stored: Set<Uuid>,
    /// The posts that are committed.
    pub posts: Posts,
    /// The posts as the open transaction sees them, if one is open.
    pub pending: Option<Posts>,
}

/// True if one of `posts` has `object` among its attachments.
pub open spec fn refers(posts: Posts, object: Uuid) -> bool {
    exists|post: Uuid| posts.contains_key(post) && (#[trigger] posts[post]).contains(object)
}

/// True if every object that one of `posts` refers to is in `stored`.
pub open spec fn covered(stored: Set<Uuid>, posts: Posts) -> bool {
    forall|object: Uuid| refers(posts, object) ==> stored.contains(object)
}

/// True if every object that a committed post refers to is in the object
/// store.
pub open spec fn sound(world: World) -> bool {
    covered(world.stored, world.posts)
}

/// The posts as the next database call sees them.
pub open spec fn current(world: World) -> Posts {
    match world.pending {
        Some(posts) => posts,
        None => world.posts,
    }
}

/// The world after a database call has left the posts as `posts`: inside a
/// transaction only the transaction sees the change.
pub open spec fn written(world: World, posts: Posts) -> World {
    match world.pending {
        Some(_) => World { pending: Some(posts), ..world },
        None => World { posts, ..world },
    }
}

/// True if the stores can answer `call` with `reply` in the world `before`,
/// and the world is `after` once they have.
///
/// A call that fails changes nothing, except that a failed commit ends the
/// transaction. The object store holds what it has acknowledged and drops
/// what it is told to remove. The database gives a new post an identity
/// that is not in use, deletes rows but invents none when it applies its
/// retention policy, and names as unreferenced only objects to which no post
/// refers. Of the posts after a change or an import nothing is said: no
/// operation that the laws speak of makes such a call.
pub open spec fn answers(before: World, call: Call, reply: Reply, after: World) -> bool {
    match (call, reply) {
        (Call::Begin, Reply::Done) => after == World { pending: Some(before.posts), ..before },
        (Call::Commit, Reply::Done) => after == World {
            posts: current(before),
            pending: None,
            ..before
        },
        (Call::Commit, Reply::Failed(_)) => after == World { pending: None, ..before },
        (Call::AddObject { bytes }, Reply::Object(object)) => after == World {
            stored: before.stored.insert(object.id),
            ..before
        },
        (Call::RemoveObjects { ids }, Reply::Removed(_)) => after == World {
            stored: before.stored.difference(ids@.to_set()),
            ..before
        },
        (Call::CreatePost { parts, objects }, Reply::Id(post)) => {
            &&& !current(before).contains_key(post)
            &&& after == written(before, current(before).insert(post, objects@))
        },
        (Call::DeletePostObjects { post, objects }, Reply::Done) => {
            &&& current(before).contains_key(post)
            &&& exists|kept: Seq<Uuid>|
                {
                    &&& #[trigger] detached(current(before)[post], objects@, kept)
                    &&& after == written(before, current(before).insert(post, kept))
                }
        },
        (Call::PruneRows, Reply::Done) => {
            &&& after.stored == before.stored
            &&& after.pending == before.pending
            &&& after.posts.submap_of(before.posts)
        },
        (Call::PruneObjects, Reply::Ids(ids)) => {
            &&& after == before
            &&& forall|i: int| 0 <= i < ids.len() ==> !refers(current(before), #[trigger] ids[i])
        },
        (Call::Apply { by, change }, Reply::Value(_)) => {
            &&& after.stored == before.stored
            &&& after.pending is Some <==> before.pending is Some
        },
        (Call::Import { data }, Reply::Done) => {
            &&& after.stored == before.stored
            &&& after.pending is Some <==> before.pending is Some
        },
        _ => after == before,
    }
}

/// True if `kept` is what is left of the attachments `held` once `gone`
/// are detached: it holds what `held` holds and `gone` does not.
pub open spec fn detached(held: Seq<Uuid>, gone: Seq<Uuid>, kept: Seq<Uuid>) -> bool {
    forall|object: Uuid| kept.contains(object) <==> (held.contains(object) && !gone.contains(object))
}

/// One reply in the course of an operation, with the state and step that
/// the operation went to and the world that the reply left.
pub struct Moment<S, T> {
    pub reply: Reply,
    pub state: S,
    pub step: Step<T>,
    pub world: World,
}

/// True if `moments` is a course that an operation can take from the state
/// `state` with `step` outstanding in the world `world`: each reply answers
/// the call that was outstanding, and the operation goes on as `next` says.
pub open spec fn run<S, T>(
    next: spec_fn(S, Reply, S, Step<T>) -> bool,
    state: S,
    step: Step<T>,
    world: World,
    moments: Seq<Moment<S, T>>,
) -> bool
    decreases moments.len(),
{
    moments.len() > 0 ==> {
        let first = moments[0];
        &&& step matches Step::Call(call)
        &&& answers(world, call, first.reply, first.world)
        &&& next(state, first.reply, first.state, first.step)
        &&& run(next, first.state, first.step, first.world, moments.skip(1))
    }
}

/// The way a post is created, as `run` takes it.
pub open spec fn creating() -> spec_fn(CreatePost, Reply, CreatePost, Step<Uuid>) -> bool {
    |before: CreatePost, reply: Reply, state: CreatePost, step: Step<Uuid>|
        create_post_next(before, reply, state, step)
}

/// The way attachments are detached, as `run` takes it.
pub open spec fn detaching() -> spec_fn(DeleteObjects, Reply, DeleteObjects, Step<()>) -> bool {
    |before: DeleteObjects, reply: Reply, state: DeleteObjects, step: Step<()>|
        (state, step) == delete_objects_next(before, reply)
}

/// The way a prune goes, as `run` takes it.
pub open spec fn pruning() -> spec_fn(Prune, Reply, Prune, Step<RemoveResult>) -> bool {
    |before: Prune, reply: Reply, state: Prune, step: Step<RemoveResult>|
        (state, step) == prune_next(before, reply)
}

/// True if every one of `objects` is in `stored`.
pub open spec fn all_stored(stored: Set<Uuid>, objects: Seq<Uuid>) -> bool {
    forall|i: int| 0 <= i < objects.len() ==> stored.contains(#[trigger] objects[i])
}

/// What holds of the world wherever the creation of a post stands.
spec fn creating_holds(state: CreatePost, step: Step<Uuid>, world: World) -> bool {
    &&& sound(world)
    &&& match state {
        CreatePost::Storing { parts, objects, rest } => {
            &&& step is Call
            &&& step->Call_0 is AddObject
            &&& world.pending is None
            &&& all_stored(world.stored, objects@)
        },
        CreatePost::Opening { parts, objects } => {
            &&& step == Step::<Uuid>::Call(Call::Begin)
            &&& world.pending is None
            &&& all_stored(world.stored, objects@)
        },
        CreatePost::Creating => {
            &&& step matches Step::Call(Call::CreatePost { parts, objects })
            &&& all_stored(world.stored, objects@)
            &&& world.pending == Some(world.posts)
        },
        CreatePost::Committing { post } => {
            &&& step == Step::<Uuid>::Call(Call::Commit)
            &&& world.pending matches Some(posts)
            &&& covered(world.stored, posts)
            &&& posts.contains_key(post)
        },
        CreatePost::Finished => {
            &&& step is Done
            &&& step matches Step::Done(Ok(post)) ==> world.posts.contains_key(post)
                && world.pending is None
        },
    }
}

proof fn lemma_creating_step(
    before: CreatePost,
    asked: Step<Uuid>,
    world: World,
    moment: Moment<CreatePost, Uuid>,
)
    requires
        creating_holds(before, asked, world),
        asked matches Step::Call(call) && answers(world, call, moment.reply, moment.world),
        create_post_next(before, moment.reply, moment.state, moment.step),
    ensures
        creating_holds(moment.state, moment.step, moment.world),
{
    let after = moment.world;
    match (before, moment.reply) {
        (CreatePost::Storing { parts, objects, rest }, Reply::Object(object)) => {
            let longer = objects@.push(object.id);
            assert forall|i: int| 0 <= i < longer.len() implies after.stored.contains(
                #[trigger] longer[i],
            ) by {
                if i < objects@.len() {
                    assert(longer[i] == objects@[i]);
                }
            }
        },
        (CreatePost::Creating, Reply::Id(post)) => {
            let objects = asked->Call_0->CreatePost_objects;
            let posts = world.posts.insert(post, objects@);
            assert forall|object: Uuid| refers(posts, object) implies after.stored.contains(
                object,
            ) by {
                let other = choose|other: Uuid|
                    posts.contains_key(other) && (#[trigger] posts[other]).contains(object);
                if other == post {
                    let i = choose|i: int| 0 <= i < objects@.len() && objects@[i] == object;
                    assert(after.stored.contains(objects@[i]));
                } else {
                    assert(world.posts.contains_key(other) && world.posts[other].contains(object));
                    assert(refers(world.posts, object));
                }
            }
        },
        _ => {},
    }
}

proof fn lemma_creating_run(
    state: CreatePost,
    step: Step<Uuid>,
    world: World,
    moments: Seq<Moment<CreatePost, Uuid>>,
)
    requires
        creating_holds(state, step, world),
        run(creating(), state, step, world, moments),
    ensures
        forall|i: int|
            0 <= i < moments.len() ==> creating_holds(
                (#[trigger] moments[i]).state,
                moments[i].step,
                moments[i].world,
            ),
    decreases moments.len(),
{
    if moments.len() > 0 {
        let first = moments[0];
        lemma_creating_step(state, step, world, first);
        let rest = moments.skip(1);
        lemma_creating_run(first.state, first.step, first.world, rest);
        assert forall|i: int| 0 <= i < moments.len() implies creating_holds(
            (#[trigger] moments[i]).state,
            moments[i].step,
            moments[i].world,
        ) by {
            if i > 0 {
                assert(moments[i] == rest[i - 1]);
            }
        }
    }
}

/// Store before reference. Take a world in which every committed post
/// refers to stored objects only, and create a post whose attachments that
/// exist are stored. Then at every moment of the creation every committed
/// post refers to stored objects only; and if the creation ends well, the
/// new post is committed. So at the moment the post can be read, so can
/// every object it refers to.
pub proof fn lemma_store_before_reference(
    world: World,
    state: CreatePost,
    step: Step<Uuid>,
    moments: Seq<Moment<CreatePost, Uuid>>,
)
    requires
        sound(world),
        world.pending is None,
        exists|parts: crate::model::PostParts, objects: Seq<Uuid>, uploads: Seq<Vec<u8>>|
            all_stored(world.stored, objects) && #[trigger] create_post_turn(
                parts,
                objects,
                uploads,
                state,
                step,
            ),
        run(creating(), state, step, world, moments),
    ensures
        forall|i: int| 0 <= i < moments.len() ==> sound((#[trigger] moments[i]).world),
        forall|i: int, post: Uuid|
            0 <= i < moments.len() && (#[trigger] moments[i]).step == Step::<Uuid>::Done(Ok(post))
                ==> moments[i].world.posts.contains_key(post) && all_stored(
                moments[i].world.stored,
                #[trigger] moments[i].world.posts[post],
            ),
{
    lemma_creating_run(state, step, world, moments);
    assert forall|i: int, post: Uuid|
        0 <= i < moments.len() && (#[trigger] moments[i]).step == Step::<Uuid>::Done(
            Ok(post),
        ) implies moments[i].world.posts.contains_key(post) && all_stored(
        moments[i].world.stored,
        #[trigger] moments[i].world.posts[post],
    ) by {
        let at = moments[i];
        assert(creating_holds(at.state, at.step, at.world));
        assert(at.state is Finished) by {
            if at.state !is Finished {
                assert(at.step is Call);
            }
        }
        let attachments = at.world.posts[post];
        assert forall|k: int| 0 <= k < attachments.len() implies at.world.stored.contains(
            #[trigger] attachments[k],
        ) by {
            assert(attachments.contains(attachments[k]));
            assert(refers(at.world.posts, attachments[k]));
        }
    }
}

/// True if none of `ids` is referred to by one of `posts`.
spec fn unreferenced(posts: Posts, ids: Seq<Uuid>) -> bool {
    forall|i: int| 0 <= i < ids.len() ==> !refers(posts, #[trigger] ids[i])
}

/// The objects that `reply` names as unreferenced.
pub open spec fn names(reply: Reply) -> Set<Uuid> {
    match reply {
        Reply::Ids(ids) => ids@.to_set(),
        _ => Set::empty(),
    }
}

/// The objects that the database names as unreferenced in the course
/// `moments`.
pub open spec fn named<S, T>(moments: Seq<Moment<S, T>>) -> Set<Uuid> {
    Set::new(
        |object: Uuid|
            exists|i: int| 0 <= i < moments.len() && names((#[trigger] moments[i]).reply).contains(object),
    )
}

/// What holds of the world wherever a prune stands. `first` is the object
/// store as the prune found it, `seen` the objects that the database has
/// named so far.
spec fn pruning_holds(
    first: Set<Uuid>,
    seen: Set<Uuid>,
    state: Prune,
    step: Step<RemoveResult>,
    world: World,
) -> bool {
    &&& sound(world)
    &&& match state {
        Prune::Rows => step == Step::<RemoveResult>::Call(Call::PruneRows) && world.pending is None
            && world.stored == first && seen == Set::<Uuid>::empty(),
        Prune::Opening => step == Step::<RemoveResult>::Call(Call::Begin) && world.pending is None
            && world.stored == first && seen == Set::<Uuid>::empty(),
        Prune::Identifying => step == Step::<RemoveResult>::Call(Call::PruneObjects)
            && world.pending == Some(world.posts) && world.stored == first && seen == Set::<
            Uuid,
        >::empty(),
        Prune::Committing { ids } => {
            &&& step == Step::<RemoveResult>::Call(Call::Commit)
            &&& world.pending == Some(world.posts)
            &&& unreferenced(world.posts, ids@)
            &&& world.stored == first
            &&& seen == ids@.to_set()
        },
        Prune::Removing => {
            &&& step matches Step::Call(Call::RemoveObjects { ids })
            &&& unreferenced(world.posts, ids@)
            &&& world.stored == first
            &&& seen == ids@.to_set()
        },
        Prune::Finished => {
            &&& step is Done
            &&& step matches Step::Done(Ok(_)) ==> world.stored == first.difference(seen)
        },
    }
}

proof fn lemma_submap_refers(smaller: Posts, larger: Posts, object: Uuid)
    requires
        smaller.submap_of(larger),
        refers(smaller, object),
    ensures
        refers(larger, object),
{
    let post = choose|post: Uuid|
        smaller.contains_key(post) && (#[trigger] smaller[post]).contains(object);
    assert(larger.contains_key(post) && larger[post].contains(object));
}

proof fn lemma_pruning_step(
    first: Set<Uuid>,
    seen: Set<Uuid>,
    before: Prune,
    asked: Step<RemoveResult>,
    world: World,
    moment: Moment<Prune, RemoveResult>,
)
    requires
        pruning_holds(first, seen, before, asked, world),
        asked matches Step::Call(call) && answers(world, call, moment.reply, moment.world),
        (moment.state, moment.step) == prune_next(before, moment.reply),
    ensures
        pruning_holds(
            first,
            seen.union(names(moment.reply)),
            moment.state,
            moment.step,
            moment.world,
        ),
{
    let after = moment.world;
    let seen_after = seen.union(names(moment.reply));
    match (before, moment.reply) {
        (Prune::Rows, Reply::Done) => {
            assert forall|object: Uuid| refers(after.posts, object) implies after.stored.contains(
                object,
            ) by {
                lemma_submap_refers(after.posts, world.posts, object);
            }
            assert(seen_after =~= seen);
        },
        (Prune::Opening, Reply::Done) => {
            assert(seen_after =~= seen);
        },
        (Prune::Identifying, Reply::Ids(ids)) => {
            assert(seen_after =~= ids@.to_set());
        },
        (Prune::Committing { ids }, Reply::Done) => {
            assert(seen_after =~= seen);
        },
        (Prune::Removing, Reply::Removed(_)) => {
            let ids = asked->Call_0->RemoveObjects_ids;
            assert(seen_after =~= seen);
            assert forall|object: Uuid| refers(after.posts, object) implies after.stored.contains(
                object,
            ) by {
                if ids@.to_set().contains(object) {
                    let i = choose|i: int| 0 <= i < ids@.len() && ids@[i] == object;
                    assert(!refers(world.posts, ids@[i]));
                }
            }
        },
        _ => {},
    }
}

proof fn lemma_pruning_run(
    first: Set<Uuid>,
    seen: Set<Uuid>,
    state: Prune,
    step: Step<RemoveResult>,
    world: World,
    moments: Seq<Moment<Prune, RemoveResult>>,
)
    requires
        pruning_holds(first, seen, state, step, world),
        run(pruning(), state, step, world, moments),
    ensures
        forall|i: int|
            0 <= i < moments.len() ==> pruning_holds(
                first,
                seen.union(named(moments.take(i + 1))),
                (#[trigger] moments[i]).state,
                moments[i].step,
                moments[i].world,
            ),
    decreases moments.len(),
{
    if moments.len() > 0 {
        let head = moments[0];
        let seen_next = seen.union(names(head.reply));
        lemma_pruning_step(first, seen, state, step, world, head);
        let rest = moments.skip(1);
        lemma_pruning_run(first, seen_next, head.state, head.step, head.world, rest);
        assert forall|i: int| 0 <= i < moments.len() implies pruning_holds(
            first,
            seen.union(named(moments.take(i + 1))),
            (#[trigger] moments[i]).state,
            moments[i].step,
            moments[i].world,
        ) by {
            let upto = moments.take(i + 1);
            if i > 0 {
                assert(moments[i] == rest[i - 1]);
                let tail = rest.take(i);
                assert forall|object: Uuid|
                    seen_next.union(named(tail)).contains(object) <==> seen.union(
                        named(upto),
                    ).contains(object) by {
                    if named(tail).contains(object) {
                        let k = choose|k: int|
                            0 <= k < tail.len() && names((#[trigger] tail[k]).reply).contains(
                                object,
                            );
                        assert(upto[k + 1] == tail[k]);
                    }
                    if names(head.reply).contains(object) {
                        assert(upto[0] == head);
                    }
                    if named(upto).contains(object) {
                        let k = choose|k: int|
                            0 <= k < upto.len() && names((#[trigger] upto[k]).reply).contains(
                                object,
                            );
                        if k > 0 {
                            assert(tail[k - 1] == upto[k]);
                        }
                    }
                }
                assert(seen_next.union(named(tail)) =~= seen.union(named(upto)));
            } else {
                assert forall|object: Uuid|
                    seen_next.contains(object) <==> seen.union(named(upto)).contains(object) by {
                    if names(head.reply).contains(object) {
                        assert(upto[0] == head);
                    }
                    if named(upto).contains(object) {
                        let k = choose|k: int|
                            0 <= k < upto.len() && names((#[trigger] upto[k]).reply).contains(
                                object,
                            );
                        assert(k == 0);
                    }
                }
                assert(seen_next =~= seen.union(named(upto)));
            }
        }
    }
}

/// Prune safety. Take a world in which every committed post refers to
/// stored objects only, and prune it. Then at every moment of the prune
/// every committed post still refers to stored objects only: no object that
/// a surviving post refers to is removed.
pub proof fn lemma_prune_keeps_what_is_referenced(
    world: World,
    moments: Seq<Moment<Prune, RemoveResult>>,
)
    requires
        sound(world),
        world.pending is None,
        run(pruning(), Prune::Rows, Step::Call(Call::PruneRows), world, moments),
    ensures
        forall|i: int| 0 <= i < moments.len() ==> sound((#[trigger] moments[i]).world),
{
    lemma_pruning_run(
        world.stored,
        Set::empty(),
        Prune::Rows,
        Step::Call(Call::PruneRows),
        world,
        moments,
    );
}

/// Prune reclaims. If a prune ends well, then the object store holds what
/// it held before, less the objects that the database named as
/// unreferenced: every one of those is gone.
pub proof fn lemma_prune_removes_what_is_named(
    world: World,
    moments: Seq<Moment<Prune, RemoveResult>>,
)
    requires
        sound(world),
        world.pending is None,
        run(pruning(), Prune::Rows, Step::Call(Call::PruneRows), world, moments),
        moments.len() > 0,
        moments.last().step is Done,
        moments.last().step->Done_0 is Ok,
    ensures
        moments.last().world.stored == world.stored.difference(named(moments)),
{
    lemma_pruning_run(
        world.stored,
        Set::empty(),
        Prune::Rows,
        Step::Call(Call::PruneRows),
        world,
        moments,
    );
    let last = moments.len() - 1;
    assert(moments.take(last + 1) =~= moments);
    assert(Set::<Uuid>::empty().union(named(moments)) =~= named(moments));
    let at = moments[last];
    assert(at.state is Finished) by {
        if at.state !is Finished {
            assert(at.step is Call);
        }
    }
}

/// What holds of the world wherever the detaching of attachments stands.
spec fn detaching_holds(first: Set<Uuid>, state: DeleteObjects, step: Step<()>, world: World)
    -> bool {
    &&& sound(world)
    &&& world.stored == first
    &&& match state {
        DeleteObjects::Opening { post, objects } => step == Step::<()>::Call(Call::Begin)
            && world.pending is None,
        DeleteObjects::Detaching => step is Call && step->Call_0 is DeletePostObjects
            && world.pending == Some(world.posts),
        DeleteObjects::Committing => step == Step::<()>::Call(Call::Commit)
            && (world.pending matches Some(posts) && covered(world.stored, posts)),
        DeleteObjects::Finished => step is Done,
    }
}

proof fn lemma_detaching_step(
    first: Set<Uuid>,
    before: DeleteObjects,
    asked: Step<()>,
    world: World,
    moment: Moment<DeleteObjects, ()>,
)
    requires
        detaching_holds(first, before, asked, world),
        asked matches Step::Call(call) && answers(world, call, moment.reply, moment.world),
        (moment.state, moment.step) == delete_objects_next(before, moment.reply),
    ensures
        detaching_holds(first, moment.state, moment.step, moment.world),
{
    let after = moment.world;
    match (before, moment.reply) {
        (DeleteObjects::Detaching, Reply::Done) => {
            let post = asked->Call_0->DeletePostObjects_post;
            let objects = asked->Call_0->DeletePostObjects_objects;
            let held = world.posts[post];
            let kept = choose|kept: Seq<Uuid>|
                {
                    &&& #[trigger] detached(held, objects@, kept)
                    &&& after == written(world, world.posts.insert(post, kept))
                };
            let posts = world.posts.insert(post, kept);
            assert forall|object: Uuid| refers(posts, object) implies after.stored.contains(
                object,
            ) by {
                let other = choose|other: Uuid|
                    posts.contains_key(other) && (#[trigger] posts[other]).contains(object);
                if other == post {
                    assert(held.contains(object));
                    assert(world.posts.contains_key(post) && world.posts[post].contains(object));
                } else {
                    assert(world.posts.contains_key(other) && world.posts[other].contains(object));
                }
                assert(refers(world.posts, object));
            }
        },
        _ => {},
    }
}

/// Detaching leaves the store alone. At every moment of detaching
/// attachments from a post the object store holds what it held before, and
/// every committed post refers to stored objects only. What was detached
/// stays stored until a prune is told that nothing refers to it.
pub proof fn lemma_detached_stays_stored(
    world: World,
    post: Uuid,
    objects: Vec<Uuid>,
    moments: Seq<Moment<DeleteObjects, ()>>,
)
    requires
        sound(world),
        world.pending is None,
        run(
            detaching(),
            DeleteObjects::Opening { post, objects },
            Step::Call(Call::Begin),
            world,
            moments,
        ),
    ensures
        forall|i: int|
            0 <= i < moments.len() ==> sound((#[trigger] moments[i]).world)
                && moments[i].world.stored == world.stored,
{
    lemma_detaching_run(
        world.stored,
        DeleteObjects::Opening { post, objects },
        Step::Call(Call::Begin),
        world,
        moments,
    );
}

proof fn lemma_detaching_run(
    first: Set<Uuid>,
    state: DeleteObjects,
    step: Step<()>,
    world: World,
    moments: Seq<Moment<DeleteObjects, ()>>,
)
    requires
        detaching_holds(first, state, step, world),
        run(detaching(), state, step, world, moments),
    ensures
        forall|i: int|
            0 <= i < moments.len() ==> detaching_holds(
                first,
                (#[trigger] moments[i]).state,
                moments[i].step,
                moments[i].world,
            ),
    decreases moments.len(),
{
    if moments.len() > 0 {
        let head = moments[0];
        lemma_detaching_step(first, state, step, world, head);
        let rest = moments.skip(1);
        lemma_detaching_run(first, head.state, head.step, head.world, rest);
        assert forall|i: int| 0 <= i < moments.len() implies detaching_holds(
            first,
            (#[trigger] moments[i]).state,
            moments[i].step,
            moments[i].world,
        ) by {
            if i > 0 {
                assert(moments[i] == rest[i - 1]);
            }
        }
    }
}

} // verus!
