//! The snapshot of the whole data graph that export produces and import
//! consumes.

use crate::model::Uuid;
use vstd::prelude::*;

verus! {

/// A link on a profile: the address it points to and the icon of its site.
#[derive(Debug, PartialEq, Eq)]
pub struct Source {
    pub url: String,
    pub icon: Option<Uuid>,
}

impl Clone for Source {
    fn clone(&self) -> (r: Source)
        ensures
            r == *self,
    {
        Source { url: self.url.clone(), icon: self.icon }
    }
}

/// The profile of a tag or a user.
#[derive(Clone, Debug, PartialEq, Eq)]
pub struct EntityProfile {
    pub name: String,
    pub aliases: Vec<String>,
    pub description: String,
    pub sources: Vec<Source>,
}

/// A post with its attachments and relations.
#[derive(Clone, Debug, PartialEq, Eq)]
pub struct Post {
    pub id: Uuid,
    pub poster: Option<Uuid>,
    pub title: String,
    pub description: String,
    pub draft: bool,
    pub objects: Vec<Uuid>,
    pub posts: Vec<Uuid>,
    pub tags: Vec<Uuid>,
}

/// A tag.
#[derive(Clone, Debug, PartialEq, Eq)]
pub struct Tag {
    pub id: Uuid,
    pub profile: EntityProfile,
}

/// A user with the credentials that sign-in checks.
#[derive(Clone, Debug, PartialEq, Eq)]
pub struct User {
    pub id: Uuid,
    pub profile: EntityProfile,
    pub email: String,
    pub password: String,
    pub admin: bool,
}

/// Everything the database holds, as one payload.
#[derive(Clone, Debug, PartialEq, Eq)]
pub struct Data {
    pub posts: Vec<Post>,
    pub tags: Vec<Tag>,
    pub users: Vec<User>,
}

/// An entity that carries a profile.
pub trait Profile {
    /// The identity of the entity.
    spec fn spec_id(&self) -> Uuid;

    /// The links on the profile of the entity.
    spec fn spec_sources(&self) -> Seq<Source>;

    /// The identity of the entity.
    fn id(&self) -> (id: Uuid)
        ensures
            id == self.spec_id(),
    ;

    /// The profile of the entity.
    fn profile(&self) -> (profile: &EntityProfile)
        ensures
            profile.sources@ == self.spec_sources(),
    ;
}

impl Profile for Tag {
    open spec fn spec_id(&self) -> Uuid {
        self.id
    }

    open spec fn spec_sources(&self) -> Seq<Source> {
        self.profile.sources@
    }

    fn id(&self) -> Uuid {
        self.id
    }

    fn profile(&self) -> &EntityProfile {
        &self.profile
    }
}

impl Profile for User {
    open spec fn spec_id(&self) -> Uuid {
        self.id
    }

    open spec fn spec_sources(&self) -> Seq<Source> {
        self.profile.sources@
    }

    fn id(&self) -> Uuid {
        self.id
    }

    fn profile(&self) -> &EntityProfile {
        &self.profile
    }
}

} // verus!
