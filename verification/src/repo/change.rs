//! Changes to relational state.
//!
//! Every change follows one pattern. It is applied inside a transaction.
//! Only when the commit is acknowledged is the snapshot of a user whose row
//! changed dropped from the cache, and only then is the search index told
//! of a new name. A failure of the database ends the change before either;
//! a failure of the index is swallowed, because the index is a projection
//! and never the record.

use crate::cache::{invalidated, lookup, Snapshots};
use crate::error::Error;
use crate::model::Uuid;
use crate::protocol::{refusal, refuse, Call, Change, Reply, Step};
use crate::repo::with_user::WithUser;
use crate::repo::Repo;
use vstd::prelude::*;

verus! {

/// Where a change stands.
#[derive(Debug, PartialEq, Eq)]
pub enum Mutation {
    /// A new password is being hashed.
    Hashing { by: Uuid },
    /// The transaction is being opened.
    Opening { by: Uuid, change: Change },
    /// The change is being applied.
    Applying { by: Uuid, plan: Plan },
    /// The transaction is being committed.
    Committing { by: Uuid, plan: Plan, value: Option<String> },
    /// The search index is being told.
    Indexing { value: Option<String> },
    /// The change has ended.
    Finished,
}

/// What is to follow a change once it is applied.
#[derive(Debug, PartialEq, Eq)]
pub struct Plan {
    /// Whether the change touches the row of the user who makes it.
    pub user: bool,
    /// The name to register with the search index, if the change brings
    /// one.
    pub name: Option<String>,
    /// Whether it is no error if what was to be changed is not there.
    pub tolerant: bool,
    /// The kind of entity that the change is made to.
    pub entity: &'static str,
    /// The identity of that entity.
    pub id: Uuid,
}

/// The post that `change` is made to, if it is made to a post.
pub open spec fn post_of(change: Change) -> Option<Uuid> {
    match change {
        Change::AddPostObjects { post, .. } => Some(post),
        Change::AddRelatedPost { post, .. } => Some(post),
        Change::DeleteRelatedPost { post, .. } => Some(post),
        Change::AddPostTag { post, .. } => Some(post),
        Change::DeletePostTag { post, .. } => Some(post),
        Change::PublishPost { post } => Some(post),
        Change::DeletePost { post } => Some(post),
        Change::SetPostTitle { post, .. } => Some(post),
        Change::SetPostDescription { post, .. } => Some(post),
        _ => None,
    }
}

/// What is to follow `change`, made by the user `by`. A change that is
/// not made to a post is made to the profile of `by`. A new name or alias
/// is registered with the search index. Removing a tag from a post or a
/// source from a profile that does not have it is no error.
pub open spec fn plan_of(by: Uuid, change: Change) -> Plan {
    Plan {
        user: post_of(change) is None,
        name: match change {
            Change::SetUserName { name } => Some(name),
            Change::AddUserAlias { alias } => Some(alias),
            _ => None,
        },
        tolerant: change is DeletePostTag || change is DeleteUserSource,
        entity: if post_of(change) is None {
            "user"
        } else {
            "post"
        },
        id: match post_of(change) {
            Some(post) => post,
            None => by,
        },
    }
}

/// How a change goes on when `reply` arrives in state `before`.
pub open spec fn mutation_next(before: Mutation, reply: Reply) -> (Mutation, Step<Option<String>>) {
    match (before, reply) {
        (Mutation::Hashing { by }, Reply::Hash(password)) => (
            Mutation::Opening { by, change: Change::SetUserPassword { password } },
            Step::Call(Call::Begin),
        ),
        (Mutation::Opening { by, change }, Reply::Done) => (
            Mutation::Applying { by, plan: plan_of(by, change) },
            Step::Call(Call::Apply { by, change }),
        ),
        (Mutation::Applying { by, plan }, Reply::Value(value)) => if value is None
            && !plan.tolerant {
            (
                Mutation::Finished,
                Step::Done(Err(Error::NotFound { entity: plan.entity, id: plan.id })),
            )
        } else {
            (Mutation::Committing { by, plan, value }, Step::Call(Call::Commit))
        },
        (Mutation::Committing { by, plan, value }, Reply::Done) => match plan.name {
            Some(name) => if value is Some {
                (Mutation::Indexing { value }, Step::Call(Call::AddUserAlias { user: by, name }))
            } else {
                (Mutation::Finished, Step::Done(Ok(value)))
            },
            None => (Mutation::Finished, Step::Done(Ok(value))),
        },
        (Mutation::Indexing { value }, Reply::Done) => (Mutation::Finished, Step::Done(Ok(value))),
        (Mutation::Indexing { value }, Reply::Failed(_)) => (
            Mutation::Finished,
            Step::Done(Ok(value)),
        ),
        (Mutation::Finished, _) => (Mutation::Finished, Step::Done(Err(Error::OutOfOrder))),
        _ => (Mutation::Finished, Step::Done(Err(refusal(reply)))),
    }
}

/// The cache after `reply` arrived in state `before`: the snapshot of the
/// user is dropped when the commit of a change to the user's row is
/// acknowledged, and at no other time.
pub open spec fn mutation_cache(cache: Snapshots, before: Mutation, reply: Reply) -> Snapshots {
    match (before, reply) {
        (Mutation::Committing { by, plan, value }, Reply::Done) => if plan.user {
            invalidated(cache, by)
        } else {
            cache
        },
        _ => cache,
    }
}

/// Works out what is to follow `change`.
pub fn plan(by: Uuid, change: &Change) -> (r: Plan)
    ensures
        r == plan_of(by, *change),
{
    let post = match change {
        Change::AddPostObjects { post, .. } => Some(*post),
        Change::AddRelatedPost { post, .. } => Some(*post),
        Change::DeleteRelatedPost { post, .. } => Some(*post),
        Change::AddPostTag { post, .. } => Some(*post),
        Change::DeletePostTag { post, .. } => Some(*post),
        Change::PublishPost { post } => Some(*post),
        Change::DeletePost { post } => Some(*post),
        Change::SetPostTitle { post, .. } => Some(*post),
        Change::SetPostDescription { post, .. } => Some(*post),
        _ => None,
    };
    let name = match change {
        Change::SetUserName { name } => Some(name.clone()),
        Change::AddUserAlias { alias } => Some(alias.clone()),
        _ => None,
    };
    let tolerant = match change {
        Change::DeletePostTag { .. } => true,
        Change::DeleteUserSource { .. } => true,
        _ => false,
    };
    match post {
        Some(post) => Plan { user: false, name, tolerant, entity: "post", id: post },
        None => Plan { user: true, name, tolerant, entity: "user", id: by },
    }
}

impl WithUser {
    /// Begins a change in the name of the user.
    pub fn change(&self, change: Change) -> (r: (Mutation, Step<Option<String>>))
        ensures
            r == (
                Mutation::Opening { by: self.user().id, change },
                Step::<Option<String>>::Call(Call::Begin),
            ),
    {
        (Mutation::Opening { by: self.id(), change }, Step::Call(Call::Begin))
    }

    /// Begins to change the password of the user. The password is hashed
    /// before the transaction opens.
    pub fn set_password(&self, password: String) -> (r: (Mutation, Step<Option<String>>))
        ensures
            r == (
                Mutation::Hashing { by: self.user().id },
                Step::<Option<String>>::Call(Call::HashPassword { password }),
            ),
    {
        (Mutation::Hashing { by: self.id() }, Step::Call(Call::HashPassword { password }))
    }
}

impl Mutation {
    /// Resumes the change with the reply to the call it made.
    pub fn resume(self, repo: &mut Repo, reply: Reply) -> (r: (Mutation, Step<Option<String>>))
        ensures
            r == mutation_next(self, reply),
            final(repo).cached() == mutation_cache(old(repo).cached(), self, reply),
            final(repo).same_settings(old(repo)),
    {
        match (self, reply) {
            (Mutation::Hashing { by }, Reply::Hash(password)) => (
                Mutation::Opening { by, change: Change::SetUserPassword { password } },
                Step::Call(Call::Begin),
            ),
            (Mutation::Opening { by, change }, Reply::Done) => {
                let plan = plan(by, &change);
                (Mutation::Applying { by, plan }, Step::Call(Call::Apply { by, change }))
            },
            (Mutation::Applying { by, plan }, Reply::Value(value)) => {
                if value.is_none() && !plan.tolerant {
                    (
                        Mutation::Finished,
                        Step::Done(Err(Error::NotFound { entity: plan.entity, id: plan.id })),
                    )
                } else {
                    (Mutation::Committing { by, plan, value }, Step::Call(Call::Commit))
                }
            },
            (Mutation::Committing { by, plan, value }, Reply::Done) => {
                if plan.user {
                    repo.forget(by);
                }
                match plan.name {
                    Some(name) => {
                        if value.is_some() {
                            (
                                Mutation::Indexing { value },
                                Step::Call(Call::AddUserAlias { user: by, name }),
                            )
                        } else {
                            (Mutation::Finished, Step::Done(Ok(value)))
                        }
                    },
                    None => (Mutation::Finished, Step::Done(Ok(value))),
                }
            },
            (Mutation::Indexing { value }, Reply::Done) => (
                Mutation::Finished,
                Step::Done(Ok(value)),
            ),
            (Mutation::Indexing { value }, Reply::Failed(_)) => (
                Mutation::Finished,
                Step::Done(Ok(value)),
            ),
            (Mutation::Finished, _) => (Mutation::Finished, Step::Done(Err(Error::OutOfOrder))),
            (_, other) => (Mutation::Finished, refuse(other)),
        }
    }
}

/// True if `step` is a call to the search index.
pub open spec fn tells_index<T>(step: Step<T>) -> bool {
    step matches Step::Call(call) && (call is AddUserAlias || call is CreateIndices
        || call is DeleteIndices)
}

/// Commit comes first. The cache changes only on the acknowledgement of
/// the commit, and only then is the search index told. A failure of the
/// database at any point ends the change with an error, the cache as it
/// was and the index not told.
pub proof fn lemma_commit_comes_first(cache: Snapshots, before: Mutation, reply: Reply)
    ensures
        mutation_cache(cache, before, reply) != cache ==> before is Committing && reply is Done,
        tells_index(mutation_next(before, reply).1) ==> before is Committing && reply is Done,
        reply is Failed && !(before is Indexing) ==> mutation_cache(cache, before, reply) == cache
            && !tells_index(mutation_next(before, reply).1) && mutation_next(before, reply).1
            is Done && mutation_next(before, reply).1->Done_0 is Err,
{
}

/// A failure of the search index does not fail a change that is
/// committed.
pub proof fn lemma_index_failure_is_swallowed(value: Option<String>, reply: Reply)
    requires
        reply is Failed,
    ensures
        mutation_next(Mutation::Indexing { value }, reply).1 == Step::<Option<String>>::Done(
            Ok(value),
        ),
{
}

/// Cache freshness. Once a change to the row of a user is committed, the
/// cache holds no snapshot of that user, so no reader is handed the
/// snapshot from before the change.
pub proof fn lemma_committed_change_is_not_cached(
    cache: Snapshots,
    by: Uuid,
    change: Change,
    value: Option<String>,
)
    requires
        post_of(change) is None,
    ensures
        lookup(
            mutation_cache(
                cache,
                Mutation::Committing { by, plan: plan_of(by, change), value },
                Reply::Done,
            ),
            by,
        ) is None,
{
}

} // verus!
