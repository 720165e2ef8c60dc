//! The preview of an object on a page: the picture that was derived for
//! it, or a placeholder that names its type.

use crate::ident::{hyphenated, text_of_id, uuid_text};
use crate::model::Uuid;
use vstd::prelude::*;
use vstd::string::*;

verus! {

/// What a page needs to know of an object to show its preview.
#[derive(Clone, Debug, PartialEq, Eq)]
pub struct ObjectSummary {
    pub id: Uuid,
    pub preview_id: Option<Uuid>,
    pub kind: String,
    pub subtype: String,
}

/// The preview of an object on a page.
#[derive(Debug, PartialEq, Eq)]
pub struct ObjectPreview {
    object: ObjectSummary,
    rounded_corners: bool,
}

/// What is shown for an object.
#[derive(Debug, PartialEq, Eq)]
pub enum Shown {
    /// The picture at the path `src`.
    Picture { src: String, rounded_corners: bool },
    /// A placeholder with the label `file_type`.
    Placeholder { file_type: String },
}

/// The text `text` in upper case.
pub uninterp spec fn uppercase(text: Seq<char>) -> Seq<char>;

/// Calls `str::to_uppercase`, which returns the upper case equivalent of
/// `text` as a new string. The result is a function of the text.
#[verifier::external_body]
fn to_uppercase(text: &str) -> (r: String)
    ensures
        r@ == uppercase(text@),
{
    text.to_uppercase()
}

/// The path under which the bytes of the object `id` are served.
pub open spec fn data_path(id: Uuid) -> Seq<char> {
    "/object/"@ + hyphenated(text_of_id(id)) + "/data"@
}

impl ObjectPreview {
    /// The object that is previewed.
    pub closed spec fn object(&self) -> ObjectSummary {
        self.object
    }

    /// Whether the picture gets rounded corners.
    pub closed spec fn rounded(&self) -> bool {
        self.rounded_corners
    }

    /// The preview of `object`, with square corners.
    pub fn new(object: ObjectSummary) -> (r: ObjectPreview)
        ensures
            r.object() == object,
            !r.rounded(),
    {
        ObjectPreview { object, rounded_corners: false }
    }

    /// The same preview with rounded corners.
    pub fn rounded_corners(self) -> (r: ObjectPreview)
        ensures
            r.object() == self.object(),
            r.rounded(),
    {
        let mut preview = self;
        preview.rounded_corners = true;
        preview
    }

    /// The path of the picture that was derived for the object, if one
    /// was.
    pub fn preview(&self) -> (r: Option<String>)
        ensures
            match self.object().preview_id {
                Some(id) => r matches Some(path) && path@ == data_path(id),
                None => r is None,
            },
    {
        match self.object.preview_id {
            Some(id) => {
                let path = String::from_str("/object/").concat(uuid_text(id).as_str()).concat(
                    "/data",
                );
                Some(path)
            },
            None => None,
        }
    }

    /// The label of the placeholder: the kind of the object in upper
    /// case.
    pub fn file_type(&self) -> (r: String)
        ensures
            r@ == uppercase(self.object().kind@),
    {
        to_uppercase(self.object.kind.as_str())
    }

    /// What is shown for the object: its picture if it has one, with the
    /// corners that were asked for, and else the placeholder.
    pub fn shown(&self) -> (r: Shown)
        ensures
            match self.object().preview_id {
                Some(id) => r matches Shown::Picture { src, rounded_corners } && src@ == data_path(
                    id,
                ) && rounded_corners == self.rounded(),
                None => r matches Shown::Placeholder { file_type } && file_type@ == uppercase(
                    self.object().kind@,
                ),
            },
    {
        match self.preview() {
            Some(src) => Shown::Picture { src, rounded_corners: self.rounded_corners },
            None => Shown::Placeholder { file_type: self.file_type() },
        }
    }
}

/// A preview that is made from an object by conversion is a new preview
/// of that object.
pub proof fn lemma_from_is_new(value: ObjectSummary)
    ensures
        <ObjectPreview as vstd::std_specs::convert::FromSpec<ObjectSummary>>::from_spec(
            value,
        ).object() == value,
        !<ObjectPreview as vstd::std_specs::convert::FromSpec<ObjectSummary>>::from_spec(
            value,
        ).rounded(),
{
}

impl From<ObjectSummary> for ObjectPreview {
    fn from(value: ObjectSummary) -> (r: ObjectPreview) {
        ObjectPreview::new(value)
    }
}

impl vstd::std_specs::convert::FromSpecImpl<ObjectSummary> for ObjectPreview {
    open spec fn obeys_from_spec() -> bool {
        true
    }

    closed spec fn from_spec(value: ObjectSummary) -> ObjectPreview {
        ObjectPreview { object: value, rounded_corners: false }
    }
}

} // verus!
