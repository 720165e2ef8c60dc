//! The command line of the client, as plain data. Parsing the arguments
//! into these types is left to the program.

use crate::model::Uuid;
use crate::output::Output;
use vstd::prelude::*;

verus! {

/// The arguments of the client.
#[derive(Debug, PartialEq, Eq)]
pub struct Cli {
    /// The path of the configuration file, if one was named.
    pub config: Option<String>,
    /// The alias of the configured server to use.
    pub server: String,
    /// Print data in a form meant for people.
    pub human_readable: bool,
    /// Print data as JSON.
    pub json: bool,
    pub command: Command,
}

/// What the client is asked to do.
#[derive(Debug, PartialEq, Eq)]
pub enum Command {
    /// Describe the server.
    About,
    /// Search, starting at the hit number `from` and returning `size` hits
    /// at most.
    Find { from: u32, size: u32, command: Find },
    /// Create a tag or a post.
    New { command: New },
    /// Read or change a post.
    Post { id: Uuid, command: Option<Post> },
    /// Read or change a tag.
    Tag { id: Uuid, command: Option<Tag> },
}

/// What to search for.
#[derive(Debug, PartialEq, Eq)]
pub enum Find {
    Post { drafts: bool, sort_by: String, tag: Vec<Uuid>, text: Option<String> },
    Tag { name: String },
}

/// What to create.
#[derive(Debug, PartialEq, Eq)]
pub enum New {
    Post {
        title: Option<String>,
        description: Option<String>,
        draft: bool,
        post: Option<Vec<Uuid>>,
        tag: Option<Vec<Uuid>>,
        objects: Vec<String>,
    },
    Tag { name: String },
}

/// A change to a post.
#[derive(Debug, PartialEq, Eq)]
pub enum Post {
    /// Set the title. Without a text it is read from standard input.
    Title { text: Option<String> },
    /// Set the description. Without a text it is read from standard input.
    Desc { text: Option<String> },
    /// Attach objects, in front of `destination` or at the end.
    Obj { destination: Option<Uuid>, objects: Vec<String> },
    /// Link related posts.
    Ln { posts: Vec<Uuid> },
    /// Add tags.
    Tag { tags: Vec<Uuid> },
    /// Publish a draft.
    Publish,
    /// Delete the post, or a part of it.
    Rm { force: bool, command: Option<PostRm> },
}

/// A part of a post to remove.
#[derive(Debug, PartialEq, Eq)]
pub enum PostRm {
    Obj { objects: Vec<Uuid> },
    Related { posts: Vec<Uuid> },
    Tag { tags: Vec<Uuid> },
}

/// A change to a tag.
#[derive(Debug, PartialEq, Eq)]
pub enum Tag {
    Rename { name: String },
    Aka { alias: String },
    Desc { description: Option<String> },
    Ln { url: String },
    /// Delete the tag, or a part of it.
    Rm { force: bool, command: Option<TagRm> },
}

/// A part of a tag to remove.
#[derive(Debug, PartialEq, Eq)]
pub enum TagRm {
    Alias { alias: Option<String> },
    Link { sources: Vec<String> },
}

impl Cli {
    /// The path of the configuration file to read, or `None` for the one
    /// in the default place.
    pub fn config(&self) -> (path: Option<String>)
        ensures
            path == self.config,
    {
        match &self.config {
            Some(path) => Some(path.clone()),
            None => None,
        }
    }

    /// The forms of output that were asked for.
    pub fn output(&self) -> (output: Output)
        ensures
            output == (Output { human_readable: self.human_readable, json: self.json }),
    {
        Output { human_readable: self.human_readable, json: self.json }
    }
}

} // verus!
