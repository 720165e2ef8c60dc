//! What the server puts on its pages, before it is written as markup.

pub mod icon;
pub mod object_preview;
