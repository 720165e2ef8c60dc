//! What an import leaves in the database.
//!
//! The database is not part of this crate, so what is proved here is proved
//! of a model of it: the snapshot that was inserted, the sites and sources
//! that were created, and the sources that were attached to tags and users.
//! `keeps` says how a call changes the model and which replies the
//! database can give. The law says that an import into an empty database
//! which ends well leaves the rows of the snapshot and, attached to every
//! tag and user, the sources of its profile, each as the site and resource
//! that its address denotes. That is what an export of the target then has
//! to hand out.

use crate::export::Data;
use crate::model::Uuid;
use crate::protocol::{Call, Reply, Step};
use crate::repo::import::{data_links, import_next, Import};
use crate::repo::links::{Link, Links};
use crate::source::url_location;
use vstd::prelude::*;

verus! {

/// A site: a scheme and a host.
pub type Site = (Seq<char>, Seq<char>);

/// A source as the database holds it: scheme, host and resource.
pub type Place = (Seq<char>, Seq<char>, Seq<char>);

/// What the database holds, as far as import goes.
pub struct Database {
    /// The snapshot whose rows were inserted, if one was.
    pub rows: Option<Data>,
    /// The sites, by their row.
    pub sites: Map<i64, Site>,
    /// The sources, by their row.
    pub sources: Map<i64, Place>,
    /// The sources that are attached to tags and users, in the order in
    /// which they were attached.
    pub links: Seq<(Uuid, Place)>,
}

/// The place that the address of `link` denotes.
pub open spec fn place_of(link: Link) -> Place {
    match url_location(link.source.url@) {
        Some((scheme, Some(host), resource)) => (scheme, host, resource),
        Some((scheme, None, resource)) => (scheme, Seq::empty(), resource),
        None => (Seq::empty(), Seq::empty(), Seq::empty()),
    }
}

/// The links `links`, each as its entity and the place of its source.
pub open spec fn places(links: Seq<Link>) -> Seq<(Uuid, Place)> {
    links.map_values(|link: Link| (link.entity, place_of(link)))
}

/// True if the database can answer `call` with `reply` when it holds
/// `before`, and holds `after` once it has.
///
/// The database finds a site only where it holds one of that scheme and
/// host, gives a new row an identity that is not in use, creates a source
/// only on a site that it holds, and attaches only a source that it holds.
/// It inserts a snapshot only while it holds none. A call that fails, and a
/// call that goes elsewhere, changes nothing here.
pub open spec fn keeps(before: Database, call: Call, reply: Reply, after: Database) -> bool {
    match (call, reply) {
        (Call::Import { data }, Reply::Done) => before.rows is None && after == Database {
            rows: Some(data),
            ..before
        },
        (Call::ReadSite { scheme, host }, Reply::Site(Some(site))) => {
            &&& before.sites.contains_key(site)
            &&& before.sites[site] == (scheme@, host@)
            &&& after == before
        },
        (Call::CreateSite { scheme, host, icon }, Reply::Row(site)) => {
            &&& !before.sites.contains_key(site)
            &&& after == Database { sites: before.sites.insert(site, (scheme@, host@)), ..before }
        },
        (Call::CreateSource { site, resource }, Reply::Row(source)) => {
            &&& before.sites.contains_key(site)
            &&& !before.sources.contains_key(source)
            &&& after == Database {
                sources: before.sources.insert(
                    source,
                    (before.sites[site].0, before.sites[site].1, resource@),
                ),
                ..before
            }
        },
        (Call::CreateEntityLink { entity, source }, Reply::Done) => {
            &&& before.sources.contains_key(source)
            &&& after == Database {
                links: before.links.push((entity, before.sources[source])),
                ..before
            }
        },
        _ => after == before,
    }
}

/// One reply in the course of an import, with the state and step that the
/// import went to and what the database then held.
pub struct Instant {
    pub reply: Reply,
    pub state: Import,
    pub step: Step<()>,
    pub database: Database,
}

/// True if `instants` is a course that an import can take from the state
/// `state` with `step` outstanding while the database holds `database`.
pub open spec fn course(state: Import, step: Step<()>, database: Database, instants: Seq<Instant>)
    -> bool
    decreases instants.len(),
{
    instants.len() > 0 ==> {
        let first = instants[0];
        &&& step matches Step::Call(call)
        &&& keeps(database, call, first.reply, first.database)
        &&& import_next(state, first.reply, first.state, first.step)
        &&& course(first.state, first.step, first.database, instants.skip(1))
    }
}

/// What holds while the link at place `k` of `all` is being attached.
spec fn attaching(all: Seq<Link>, k: int, rest: Seq<Link>, database: Database) -> bool {
    &&& 0 <= k < all.len()
    &&& rest == all.skip(k + 1)
    &&& database.links == places(all.take(k))
    &&& url_location(all[k].source.url@) matches Some((_, Some(_), _))
}

/// What holds of the database wherever the attaching of links stands.
spec fn linking_holds(all: Seq<Link>, links: Links, step: Step<()>, database: Database) -> bool {
    match links {
        Links::Site { entity, icon, scheme, host, resource, rest } => {
            let k = all.len() - rest@.len() - 1;
            &&& attaching(all, k, rest@, database)
            &&& entity == all[k].entity
            &&& icon == all[k].source.icon
            &&& (scheme@, host@, resource@) == place_of(all[k])
            &&& step matches Step::Call(Call::ReadSite { scheme: asked_scheme, host: asked_host })
            &&& asked_scheme@ == scheme@
            &&& asked_host@ == host@
        },
        Links::NewSite { entity, resource, rest } => {
            let k = all.len() - rest@.len() - 1;
            &&& attaching(all, k, rest@, database)
            &&& entity == all[k].entity
            &&& step matches Step::Call(Call::CreateSite { scheme, host, icon })
            &&& (scheme@, host@, resource@) == place_of(all[k])
        },
        Links::Source { entity, rest } => {
            let k = all.len() - rest@.len() - 1;
            &&& attaching(all, k, rest@, database)
            &&& entity == all[k].entity
            &&& step matches Step::Call(Call::CreateSource { site, resource })
            &&& database.sites.contains_key(site)
            &&& (database.sites[site].0, database.sites[site].1, resource@) == place_of(all[k])
        },
        Links::Attach { rest } => {
            let k = all.len() - rest@.len() - 1;
            &&& attaching(all, k, rest@, database)
            &&& step matches Step::Call(Call::CreateEntityLink { entity, source })
            &&& entity == all[k].entity
            &&& database.sources.contains_key(source)
            &&& database.sources[source] == place_of(all[k])
        },
        Links::Finished => {
            &&& step is Done
            &&& step == Step::Done(Ok(())) ==> database.links == places(all)
        },
    }
}

/// What holds of the database wherever an import of `data` stands.
spec fn importing_holds(data: Data, state: Import, step: Step<()>, database: Database) -> bool {
    match state {
        Import::Describing { data: kept } => {
            &&& kept == data
            &&& step is Call
            &&& step->Call_0 is GetObjects
            &&& database.rows is None
            &&& database.links.len() == 0
        },
        Import::Recording { data: kept, rest } => {
            &&& kept == data
            &&& step is Call
            &&& step->Call_0 is CreateObject
            &&& database.rows is None
            &&& database.links.len() == 0
        },
        Import::Inserting { links } => {
            &&& links@ == data_links(data)
            &&& step == Step::<()>::Call(Call::Import { data })
            &&& database.rows is None
            &&& database.links.len() == 0
        },
        Import::Linking { links } => {
            &&& database.rows == Some(data)
            &&& linking_holds(data_links(data), links, step, database)
        },
        Import::Finished => step is Done && step->Done_0 is Err,
    }
}

/// Turning to the links that are left keeps what holds, once the links
/// before them are attached.
proof fn lemma_turn(all: Seq<Link>, k: int, links: Links, step: Step<()>, database: Database)
    requires
        0 <= k <= all.len(),
        database.links == places(all.take(k)),
        crate::repo::links::links_turn(all.skip(k), links, step),
    ensures
        linking_holds(all, links, step, database),
{
    let rest = all.skip(k);
    if rest.len() == 0 {
        assert(all.take(k) =~= all);
    } else {
        assert(rest[0] == all[k]);
        assert(rest.skip(1) =~= all.skip(k + 1));
    }
}

proof fn lemma_importing_step(
    data: Data,
    before: Import,
    asked: Step<()>,
    database: Database,
    instant: Instant,
)
    requires
        importing_holds(data, before, asked, database),
        asked matches Step::Call(call) && keeps(database, call, instant.reply, instant.database),
        import_next(before, instant.reply, instant.state, instant.step),
    ensures
        importing_holds(data, instant.state, instant.step, instant.database),
{
    let all = data_links(data);
    let after = instant.database;
    match before {
        Import::Inserting { links } => {
            if instant.reply is Done {
                let inner = instant.state->Linking_links;
                assert(all.take(0) =~= Seq::<Link>::empty());
                assert(places(all.take(0)) =~= Seq::<(Uuid, Place)>::empty());
                assert(after.links =~= places(all.take(0)));
                assert(all.skip(0) =~= all);
                lemma_turn(all, 0, inner, instant.step, after);
            }
        },
        Import::Linking { links } => {
            let inner = instant.state->Linking_links;
            match links {
                Links::Attach { rest } => {
                    if instant.reply is Done {
                        let k = all.len() - rest@.len() - 1;
                        assert(all.take(k + 1) =~= all.take(k).push(all[k]));
                        assert(places(all.take(k + 1)) =~= places(all.take(k)).push(
                            (all[k].entity, place_of(all[k])),
                        ));
                        lemma_turn(all, k + 1, inner, instant.step, after);
                    }
                },
                _ => {},
            }
        },
        _ => {},
    }
}

proof fn lemma_importing_course(
    data: Data,
    state: Import,
    step: Step<()>,
    database: Database,
    instants: Seq<Instant>,
)
    requires
        importing_holds(data, state, step, database),
        course(state, step, database, instants),
    ensures
        forall|i: int|
            0 <= i < instants.len() ==> importing_holds(
                data,
                (#[trigger] instants[i]).state,
                instants[i].step,
                instants[i].database,
            ),
    decreases instants.len(),
{
    if instants.len() > 0 {
        let first = instants[0];
        lemma_importing_step(data, state, step, database, first);
        let rest = instants.skip(1);
        lemma_importing_course(data, first.state, first.step, first.database, rest);
        assert forall|i: int| 0 <= i < instants.len() implies importing_holds(
            data,
            (#[trigger] instants[i]).state,
            instants[i].step,
            instants[i].database,
        ) by {
            if i > 0 {
                assert(instants[i] == rest[i - 1]);
            }
        }
    }
}

/// Import builds the graph. Take a database that holds no snapshot and no
/// attached sources, and import `data` into it. If the import ends well,
/// the database holds the rows of `data`, and attached to every tag and
/// user, in the order of `data`, the sources of its profile, each as the
/// site and resource that its address denotes.
pub proof fn lemma_import_builds_the_graph(
    data: Data,
    step: Step<()>,
    database: Database,
    instants: Seq<Instant>,
)
    requires
        database.rows is None,
        database.links.len() == 0,
        step is Call,
        step->Call_0 is GetObjects,
        course(Import::Describing { data }, step, database, instants),
        instants.len() > 0,
        instants.last().step == Step::Done(Ok(())),
    ensures
        instants.last().database.rows == Some(data),
        instants.last().database.links == places(data_links(data)),
{
    lemma_importing_course(data, Import::Describing { data }, step, database, instants);
    let last = instants.last();
    assert(importing_holds(data, last.state, last.step, last.database));
    assert(last.state is Linking) by {
        if last.state !is Linking && last.state !is Finished {
            assert(last.step is Call);
        }
    }
    assert(last.state->Linking_links is Finished) by {
        if last.state->Linking_links !is Finished {
            assert(last.step is Call);
        }
    }
}

} // verus!
