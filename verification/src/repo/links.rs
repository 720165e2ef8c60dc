//! Attaching link sources to the profiles of tags and users.
//!
//! A source belongs to a site, the pair of scheme and host of its address.
//! For each source the site is looked up and created if it is missing; then
//! the source is created on it and attached to its entity.

use crate::error::Error;
use crate::export::{Profile, Source};
use crate::model::Uuid;
use crate::protocol::{refusal, refuse, Call, Reply, Step};
use crate::repo::Repo;
use crate::source::{locate, url_location, Location};
use vstd::prelude::*;

verus! {

/// A source together with the tag or user whose profile it is on.
#[derive(Debug, PartialEq, Eq)]
pub struct Link {
    pub entity: Uuid,
    pub source: Source,
}

/// Where the attaching of links stands. `rest` holds the links that are
/// still to come.
#[derive(Debug, PartialEq, Eq)]
pub enum Links {
    /// The site of a source is being looked up.
    Site {
        entity: Uuid,
        icon: Option<Uuid>,
        scheme: String,
        host: String,
        resource: String,
        rest: Vec<Link>,
    },
    /// The site of a source is being created.
    NewSite { entity: Uuid, resource: String, rest: Vec<Link> },
    /// A source is being created on its site.
    Source { entity: Uuid, rest: Vec<Link> },
    /// A source is being attached to its entity.
    Attach { rest: Vec<Link> },
    /// All links are attached, or the work has failed.
    Finished,
}

/// The links of one entity, in the order of its sources.
pub open spec fn entity_links(entity: Uuid, sources: Seq<Source>) -> Seq<Link> {
    sources.map_values(|source: Source| Link { entity, source })
}

/// The links of `entities`, entity by entity.
pub open spec fn profile_links<P: Profile>(entities: Seq<P>) -> Seq<Link>
    decreases entities.len(),
{
    if entities.len() == 0 {
        Seq::empty()
    } else {
        profile_links(entities.drop_last()) + entity_links(
            entities.last().spec_id(),
            entities.last().spec_sources(),
        )
    }
}

/// How the work turns to the links `links`: with none left it ends well.
/// Otherwise the address of the first is taken apart and its site looked
/// up; a source whose address is no URL, or has no host, ends the work.
pub open spec fn links_turn(links: Seq<Link>, state: Links, step: Step<()>) -> bool {
    if links.len() == 0 {
        state == Links::Finished && step == Step::Done(Ok(()))
    } else {
        match url_location(links[0].source.url@) {
            None => state == Links::Finished && step.refuses_input("source is not a URL"@),
            Some((_, None, _)) => state == Links::Finished && step.refuses_input(
                "source has no host"@,
            ),
            Some((scheme, Some(host), resource)) => {
                &&& state matches Links::Site {
                    entity,
                    icon,
                    scheme: kept_scheme,
                    host: kept_host,
                    resource: kept_resource,
                    rest,
                }
                &&& entity == links[0].entity
                &&& icon == links[0].source.icon
                &&& kept_scheme@ == scheme
                &&& kept_host@ == host
                &&& kept_resource@ == resource
                &&& rest@ == links.skip(1)
                &&& step matches Step::Call(Call::ReadSite { scheme: asked_scheme, host: asked_host })
                &&& asked_scheme@ == scheme
                &&& asked_host@ == host
            },
        }
    }
}

/// How the work goes on when `reply` arrives in state `before`.
pub open spec fn links_next(before: Links, reply: Reply, state: Links, step: Step<()>) -> bool {
    match before {
        Links::Site { entity, icon, scheme, host, resource, rest } => match reply {
            Reply::Site(Some(site)) => state == (Links::Source { entity, rest }) && step == Step::<
                (),
            >::Call(Call::CreateSource { site, resource }),
            Reply::Site(None) => state == (Links::NewSite { entity, resource, rest }) && step
                == Step::<()>::Call(Call::CreateSite { scheme, host, icon }),
            _ => state == Links::Finished && step == Step::<()>::Done(Err(refusal(reply))),
        },
        Links::NewSite { entity, resource, rest } => match reply {
            Reply::Row(site) => state == (Links::Source { entity, rest }) && step == Step::<
                (),
            >::Call(Call::CreateSource { site, resource }),
            _ => state == Links::Finished && step == Step::<()>::Done(Err(refusal(reply))),
        },
        Links::Source { entity, rest } => match reply {
            Reply::Row(source) => state == (Links::Attach { rest }) && step == Step::<()>::Call(
                Call::CreateEntityLink { entity, source },
            ),
            _ => state == Links::Finished && step == Step::<()>::Done(Err(refusal(reply))),
        },
        Links::Attach { rest } => match reply {
            Reply::Done => links_turn(rest@, state, step),
            _ => state == Links::Finished && step == Step::<()>::Done(Err(refusal(reply))),
        },
        Links::Finished => state == Links::Finished && step == Step::<()>::Done(
            Err(Error::OutOfOrder),
        ),
    }
}

/// Appends the links of `entities` to `links`.
pub fn collect_links<P: Profile>(entities: &Vec<P>, links: &mut Vec<Link>)
    ensures
        final(links)@ == old(links)@ + profile_links(entities@),
{
    let mut e: usize = 0;
    assert(entities@.take(0) =~= Seq::empty());
    assert(links@ =~= old(links)@ + profile_links(entities@.take(0)));
    while e < entities.len()
        invariant
            e <= entities.len(),
            links@ == old(links)@ + profile_links(entities@.take(e as int)),
        decreases entities.len() - e,
    {
        let entity = &entities[e];
        let id = entity.id();
        let sources = &entity.profile().sources;
        let ghost held = links@;
        let mut s: usize = 0;
        assert(links@ =~= held + entity_links(id, sources@.take(0)));
        while s < sources.len()
            invariant
                s <= sources.len(),
                sources@ == entity.spec_sources(),
                id == entity.spec_id(),
                links@ == held + entity_links(id, sources@.take(s as int)),
            decreases sources.len() - s,
        {
            links.push(Link { entity: id, source: sources[s].clone() });
            assert(links@ =~= held + entity_links(id, sources@.take(s as int + 1)));
            s += 1;
        }
        proof {
            assert(sources@.take(s as int) =~= sources@);
            let longer = entities@.take(e as int + 1);
            assert(longer.drop_last() =~= entities@.take(e as int));
            assert(longer.last() == entities@[e as int]);
            assert(links@ =~= old(links)@ + profile_links(longer));
        }
        e += 1;
    }
    assert(entities@.take(e as int) =~= entities@);
}

/// Turns to the links `links`: looks up the site of the first, or ends the
/// work if none is left.
pub fn attach_links(links: Vec<Link>) -> (r: (Links, Step<()>))
    ensures
        links_turn(links@, r.0, r.1),
{
    let mut rest = links;
    if rest.len() == 0 {
        return (Links::Finished, Step::Done(Ok(())));
    }
    let first = rest.remove(0);
    assert(rest@ =~= links@.skip(1));
    match locate(first.source.url.as_str()) {
        None => (Links::Finished, Step::invalid("source is not a URL")),
        Some(Location { scheme, host: None, resource }) => (
            Links::Finished,
            Step::invalid("source has no host"),
        ),
        Some(Location { scheme, host: Some(host), resource }) => {
            let call = Call::ReadSite { scheme: scheme.clone(), host: host.clone() };
            (
                Links::Site {
                    entity: first.entity,
                    icon: first.source.icon,
                    scheme,
                    host,
                    resource,
                    rest,
                },
                Step::Call(call),
            )
        },
    }
}

impl Repo {
    /// Begins to attach the sources on the profiles of `entities`.
    pub fn import_profile<P: Profile>(&self, entities: &Vec<P>) -> (r: (Links, Step<()>))
        ensures
            links_turn(profile_links(entities@), r.0, r.1),
    {
        let mut links: Vec<Link> = Vec::new();
        collect_links(entities, &mut links);
        assert(links@ =~= profile_links(entities@));
        attach_links(links)
    }
}

impl Links {
    /// Resumes the work with the reply to the call it made.
    pub fn resume(self, reply: Reply) -> (r: (Links, Step<()>))
        ensures
            links_next(self, reply, r.0, r.1),
    {
        match self {
            Links::Site { entity, icon, scheme, host, resource, rest } => match reply {
                Reply::Site(Some(site)) => (
                    Links::Source { entity, rest },
                    Step::Call(Call::CreateSource { site, resource }),
                ),
                Reply::Site(None) => (
                    Links::NewSite { entity, resource, rest },
                    Step::Call(Call::CreateSite { scheme, host, icon }),
                ),
                other => (Links::Finished, refuse(other)),
            },
            Links::NewSite { entity, resource, rest } => match reply {
                Reply::Row(site) => (
                    Links::Source { entity, rest },
                    Step::Call(Call::CreateSource { site, resource }),
                ),
                other => (Links::Finished, refuse(other)),
            },
            Links::Source { entity, rest } => match reply {
                Reply::Row(source) => (
                    Links::Attach { rest },
                    Step::Call(Call::CreateEntityLink { entity, source }),
                ),
                other => (Links::Finished, refuse(other)),
            },
            Links::Attach { rest } => match reply {
                Reply::Done => attach_links(rest),
                other => (Links::Finished, refuse(other)),
            },
            Links::Finished => (Links::Finished, Step::Done(Err(Error::OutOfOrder))),
        }
    }
}

} // verus!
