use minty_core::error::{Error, Failure};
use minty_core::model::Object;
use minty_core::preview::{generate_preview, Env, MediaKind, Preview};
use minty_core::protocol::{Call, Reply, Step};

fn object(kind: &str, preview_id: Option<u128>) -> Object {
    Object { id: 7, kind: kind.to_string(), subtype: "x".to_string(), size: 1, preview_id }
}

#[test]
fn kinds_are_told_apart_by_the_first_half_of_the_media_type() {
    assert_eq!(MediaKind::classify(&"audio".to_string()), MediaKind::Audio);
    assert_eq!(MediaKind::classify(&"image".to_string()), MediaKind::Image);
    assert_eq!(MediaKind::classify(&"video".to_string()), MediaKind::Video);
    assert_eq!(MediaKind::classify(&"text".to_string()), MediaKind::Other);
    assert_eq!(MediaKind::classify(&"Image".to_string()), MediaKind::Other);
    assert_eq!(MediaKind::classify(&"".to_string()), MediaKind::Other);
}

#[test]
fn an_object_of_another_kind_has_no_preview_and_that_is_no_error() {
    assert_eq!(
        generate_preview(&object("application", None)),
        (Preview::Finished, Step::Done(Ok(None)))
    );
}

#[test]
fn each_known_kind_is_handed_to_its_generator() {
    for (name, kind) in
        [("audio", MediaKind::Audio), ("image", MediaKind::Image), ("video", MediaKind::Video)]
    {
        assert_eq!(
            generate_preview(&object(name, None)),
            (
                Preview::Deriving { object: 7 },
                Step::Call(Call::GeneratePreview { kind, object: 7 })
            )
        );
    }
}

#[test]
fn a_preview_is_recorded_before_it_is_reported() {
    let (state, _) = generate_preview(&object("image", None));
    let (state, step) = state.resume(Reply::Preview(Some(99)));
    assert_eq!(state, Preview::Recording { preview: 99 });
    assert_eq!(step, Step::Call(Call::UpdateObjectPreview { object: 7, preview: 99 }));
    let (state, step) = state.resume(Reply::Done);
    assert_eq!((state, step), (Preview::Finished, Step::Done(Ok(Some(99)))));
}

#[test]
fn generating_again_is_a_no_op_with_the_same_preview() {
    let (state, _) = generate_preview(&object("image", None));
    let (state, _) = state.resume(Reply::Preview(Some(99)));
    let (_, first) = state.resume(Reply::Done);
    let second = generate_preview(&object("image", Some(99)));
    assert_eq!(second, (Preview::Finished, Step::Done(Ok(Some(99)))));
    assert_eq!(first, second.1);
    assert_eq!(generate_preview(&object("text", None)).1, generate_preview(&object("text", None)).1);
}

#[test]
fn an_object_that_has_a_preview_keeps_it_whatever_its_kind() {
    assert_eq!(
        generate_preview(&object("text", Some(5))),
        (Preview::Finished, Step::Done(Ok(Some(5))))
    );
}

#[test]
fn a_generator_may_find_nothing_to_show() {
    let (state, _) = generate_preview(&object("audio", None));
    assert_eq!(state.resume(Reply::Preview(None)), (Preview::Finished, Step::Done(Ok(None))));
}

#[test]
fn a_failure_of_the_generator_is_reported_as_such() {
    let (state, _) = generate_preview(&object("video", None));
    let broken = Reply::Failed(Failure { message: "no codec".to_string(), constraint: None });
    let (state, step) = state.resume(broken);
    assert_eq!(step, Step::Done(Err(Error::Internal("no codec".to_string()))));
    assert_eq!(state.resume(Reply::Done).1, Step::Done(Err(Error::OutOfOrder)));
}

#[test]
fn the_environment_bounds_what_runs_at_a_time() {
    let mut env = Env::with_workers(2);
    assert!(env.start());
    assert!(env.start());
    assert!(!env.start());
    env.finish();
    assert!(env.start());
    assert!(!env.start());
    env.finish();
    env.finish();
    env.finish();
    assert!(env.start());
    assert!(env.start());
    assert!(!env.start());
}

#[test]
fn the_default_environment_has_four_workers() {
    let mut env = Env::initialize();
    assert_eq!(env, Env::with_workers(4));
    for _ in 0..4 {
        assert!(env.start());
    }
    assert!(!env.start());
}

#[test]
fn an_environment_without_workers_starts_nothing() {
    let mut env = Env::with_workers(0);
    assert!(!env.start());
    env.finish();
    assert!(!env.start());
}
