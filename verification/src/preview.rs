//! The preview pipeline: which objects get a preview, and when generating
//! one is a no-op.

use crate::error::Error;
use crate::model::{Object, Uuid};
use crate::protocol::{refusal, refuse, Call, Reply, Step};
use vstd::prelude::*;
use vstd::string::*;

verus! {

/// The kinds of media that the pipeline tells apart.
#[derive(Clone, Copy, Debug, PartialEq, Eq, Structural)]
pub enum MediaKind {
    Audio,
    Image,
    Video,
    /// Anything else. Such objects have no preview.
    Other,
}

impl MediaKind {
    /// The kind that the first half of a media type denotes.
    pub open spec fn spec_classify(kind: Seq<char>) -> MediaKind {
        if kind == "audio"@ {
            MediaKind::Audio
        } else if kind == "image"@ {
            MediaKind::Image
        } else if kind == "video"@ {
            MediaKind::Video
        } else {
            MediaKind::Other
        }
    }

    /// The kind that the first half of a media type denotes.
    pub fn classify(kind: &String) -> (r: MediaKind)
        ensures
            r == Self::spec_classify(kind@),
    {
        if *kind == String::from_str("audio") {
            MediaKind::Audio
        } else if *kind == String::from_str("image") {
            MediaKind::Image
        } else if *kind == String::from_str("video") {
            MediaKind::Video
        } else {
            MediaKind::Other
        }
    }
}

/// The number of previews that are generated at the same time unless
/// another number is asked for.
pub const WORKERS: usize = 4;

/// The environment of the pipeline. Previews are generated out of band,
/// and the environment bounds how many are generated at a time: a burst of
/// uploads waits its turn and does not exhaust the machine.
#[derive(Debug, PartialEq, Eq)]
pub struct Env {
    workers: usize,
    running: usize,
}

impl Env {
    #[verifier::type_invariant]
    spec fn bounded(self) -> bool {
        self.running <= self.workers
    }

    /// The number of previews that may be generated at a time.
    pub closed spec fn workers(&self) -> nat {
        self.workers as nat
    }

    /// The number of previews that are being generated.
    pub closed spec fn running(&self) -> nat {
        self.running as nat
    }

    /// An environment with `WORKERS` workers, all idle.
    pub fn initialize() -> (env: Env)
        ensures
            env.workers() == WORKERS,
            env.running() == 0,
    {
        Env { workers: WORKERS, running: 0 }
    }

    /// An environment with `workers` workers, all idle.
    pub fn with_workers(workers: usize) -> (env: Env)
        ensures
            env.workers() == workers,
            env.running() == 0,
    {
        Env { workers, running: 0 }
    }

    /// Claims a worker for one preview. `false` if all are busy; the
    /// preview then has to wait.
    pub fn start(&mut self) -> (started: bool)
        ensures
            final(self).workers() == old(self).workers(),
            final(self).running() <= final(self).workers(),
            started == (old(self).running() < old(self).workers()),
            final(self).running() == if started {
                old(self).running() + 1
            } else {
                old(self).running()
            },
    {
        proof {
            use_type_invariant(&*self);
        }
        if self.running < self.workers {
            self.running = self.running + 1;
            true
        } else {
            false
        }
    }

    /// Gives back the worker of one preview that has ended.
    pub fn finish(&mut self)
        ensures
            final(self).workers() == old(self).workers(),
            final(self).running() == if old(self).running() > 0 {
                old(self).running() - 1
            } else {
                0
            },
    {
        proof {
            use_type_invariant(&*self);
        }
        if self.running > 0 {
            self.running = self.running - 1;
        }
    }
}

/// Where the generation of a preview stands.
#[derive(Clone, Copy, Debug, PartialEq, Eq, Structural)]
pub enum Preview {
    /// The preview is being derived.
    Deriving { object: Uuid },
    /// The preview is being recorded with its object.
    Recording { preview: Uuid },
    /// The generation has ended.
    Finished,
}

/// How the generation of a preview for `object` begins. An object that
/// has a preview keeps it and nothing is done. An object of a kind that
/// the pipeline does not know has no preview, which is no error.
pub open spec fn preview_start(object: Object) -> (Preview, Step<Option<Uuid>>) {
    match object.preview_id {
        Some(preview) => (Preview::Finished, Step::Done(Ok(Some(preview)))),
        None => match MediaKind::spec_classify(object.kind@) {
            MediaKind::Other => (Preview::Finished, Step::Done(Ok(None))),
            kind => (
                Preview::Deriving { object: object.id },
                Step::Call(Call::GeneratePreview { kind, object: object.id }),
            ),
        },
    }
}

/// How the generation goes on when `reply` arrives in state `before`.
pub open spec fn preview_next(before: Preview, reply: Reply) -> (Preview, Step<Option<Uuid>>) {
    match (before, reply) {
        (Preview::Deriving { object }, Reply::Preview(Some(preview))) => (
            Preview::Recording { preview },
            Step::Call(Call::UpdateObjectPreview { object, preview }),
        ),
        (Preview::Deriving { object }, Reply::Preview(None)) => (
            Preview::Finished,
            Step::Done(Ok(None)),
        ),
        (Preview::Recording { preview }, Reply::Done) => (
            Preview::Finished,
            Step::Done(Ok(Some(preview))),
        ),
        (Preview::Finished, _) => (Preview::Finished, Step::Done(Err(Error::OutOfOrder))),
        _ => (Preview::Finished, Step::Done(Err(refusal(reply)))),
    }
}

/// Begins to generate the preview of `object`.
pub fn generate_preview(object: &Object) -> (r: (Preview, Step<Option<Uuid>>))
    ensures
        r == preview_start(*object),
{
    match object.preview_id {
        Some(preview) => (Preview::Finished, Step::Done(Ok(Some(preview)))),
        None => match MediaKind::classify(&object.kind) {
            MediaKind::Other => (Preview::Finished, Step::Done(Ok(None))),
            kind => (
                Preview::Deriving { object: object.id },
                Step::Call(Call::GeneratePreview { kind, object: object.id }),
            ),
        },
    }
}

impl Preview {
    /// Resumes the generation with the reply to the call it made.
    pub fn resume(self, reply: Reply) -> (r: (Preview, Step<Option<Uuid>>))
        ensures
            r == preview_next(self, reply),
    {
        match (self, reply) {
            (Preview::Deriving { object }, Reply::Preview(Some(preview))) => (
                Preview::Recording { preview },
                Step::Call(Call::UpdateObjectPreview { object, preview }),
            ),
            (Preview::Deriving { object }, Reply::Preview(None)) => (
                Preview::Finished,
                Step::Done(Ok(None)),
            ),
            (Preview::Recording { preview }, Reply::Done) => (
                Preview::Finished,
                Step::Done(Ok(Some(preview))),
            ),
            (Preview::Finished, _) => (Preview::Finished, Step::Done(Err(Error::OutOfOrder))),
            (_, other) => (Preview::Finished, refuse(other)),
        }
    }
}

/// The object `object` once `preview` is recorded as its preview.
pub open spec fn with_preview(object: Object, preview: Uuid) -> Object {
    Object { preview_id: Some(preview), ..object }
}

/// What a generation for `object` that ends well ends with, if the
/// generator derives `derived` where it is asked: the preview that the
/// object has, else nothing for an object of a kind that the pipeline does
/// not know, else what the generator derived.
pub open spec fn generated(object: Object, derived: Option<Uuid>) -> Option<Uuid> {
    match object.preview_id {
        Some(preview) => Some(preview),
        None => if MediaKind::spec_classify(object.kind@) == MediaKind::Other {
            None
        } else {
            derived
        },
    }
}

/// The object `object` once a generation for it has ended with `outcome`
/// and that is committed.
pub open spec fn committed(object: Object, outcome: Option<Uuid>) -> Object {
    match outcome {
        Some(preview) => with_preview(object, preview),
        None => object,
    }
}

/// True if the generator is asked in a generation for `object`.
pub open spec fn asks_generator(object: Object) -> bool {
    object.preview_id is None && MediaKind::spec_classify(object.kind@) != MediaKind::Other
}

/// A generation that ends well ends with `generated`. Where the generator
/// is not asked, it ends at once. Where it is asked and derives nothing, it
/// ends with nothing. Where it derives a preview, the preview is recorded
/// with the object, and then the generation ends with it.
pub proof fn lemma_generation_ends_with_generated(object: Object, derived: Option<Uuid>)
    ensures
        !asks_generator(object) ==> preview_start(object) == (
            Preview::Finished,
            Step::<Option<Uuid>>::Done(Ok(generated(object, derived))),
        ),
        asks_generator(object) ==> preview_start(object).0 == (Preview::Deriving {
            object: object.id,
        }) && preview_start(object).1 is Call,
        asks_generator(object) && derived is None ==> preview_next(
            preview_start(object).0,
            Reply::Preview(None),
        ) == (Preview::Finished, Step::<Option<Uuid>>::Done(Ok(generated(object, derived)))),
        asks_generator(object) && derived is Some ==> ({
            let recording = preview_next(preview_start(object).0, Reply::Preview(derived));
            &&& recording.1 == Step::<Option<Uuid>>::Call(
                Call::UpdateObjectPreview { object: object.id, preview: derived->0 },
            )
            &&& preview_next(recording.0, Reply::Done) == (
                Preview::Finished,
                Step::<Option<Uuid>>::Done(Ok(generated(object, derived))),
            )
        }),
{
}

/// Preview idempotence. Generate a preview for an object, commit what the
/// generation ended with, and generate again: the second generation ends
/// with what the first ended with. This holds whatever the generator
/// derives the second time, with one exception: where the generator was
/// asked and derived nothing, it is asked again, and the law holds if it
/// derives nothing again.
pub proof fn lemma_preview_is_idempotent(object: Object, first: Option<Uuid>, again: Option<Uuid>)
    requires
        asks_generator(object) && first is None ==> again is None,
    ensures
        generated(committed(object, generated(object, first)), again) == generated(object, first),
        generated(object, first) is Some ==> !asks_generator(
            committed(object, generated(object, first)),
        ),
{
}

/// Preview idempotence, for an object that got a preview. A generation
/// ends with a preview only when that preview is recorded with the object;
/// generating again for the object as it then is makes no call and ends
/// with the same preview.
pub proof fn lemma_preview_is_kept(object: Object, before: Preview, reply: Reply, preview: Uuid)
    requires
        preview_next(before, reply).1 == Step::<Option<Uuid>>::Done(Ok(Some(preview))),
    ensures
        before == (Preview::Recording { preview }),
        reply is Done,
        preview_start(with_preview(object, preview)) == (
            Preview::Finished,
            Step::<Option<Uuid>>::Done(Ok(Some(preview))),
        ),
{
}

/// Preview idempotence, for an object of a kind that the pipeline does
/// not know. Every generation for it ends at once with no preview, and
/// makes no call.
pub proof fn lemma_no_preview_for_other_kinds(object: Object)
    requires
        object.preview_id is None,
        MediaKind::spec_classify(object.kind@) == MediaKind::Other,
    ensures
        preview_start(object) == (Preview::Finished, Step::<Option<Uuid>>::Done(Ok(None))),
{
}

} // verus!
