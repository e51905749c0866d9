use pic2social::errors::{SocialError, WatchError};
use pic2social::text::{ends_with, same_text};
use pic2social::upload::{PostAction, PostEvent, PostJob};
use pic2social::watch::{
    after_handler, on_input, FileEvent, FileEventKind, HandlerOutcome, WatchInput, WatchStep,
};

fn event(kind: FileEventKind, path: &str) -> WatchInput {
    WatchInput::Event(FileEvent { kind, path: path.to_string() })
}

#[test]
fn watch_while_creating_some_file() {
    let tmp_file = "/tmp/foo.txt";
    let step = on_input(event(FileEventKind::Created, tmp_file), ".txt");
    let path = match step {
        WatchStep::Handle(p) => p,
        other => panic!("expected the created file to be handled, got {:?}", other),
    };
    assert_eq!(tmp_file, path);
    match after_handler(&HandlerOutcome::Abort) {
        WatchStep::Stop(WatchError::Abort) => (),
        _ => panic!("The watching should abort"),
    }
}

#[test]
fn created_jpg_is_handled() {
    match on_input(event(FileEventKind::Created, "/tmp/watch/photo.jpg"), ".jpg") {
        WatchStep::Handle(p) => assert_eq!(p, "/tmp/watch/photo.jpg"),
        other => panic!("unexpected step {:?}", other),
    }
}

#[test]
fn non_matching_suffix_is_not_handled() {
    for path in ["/tmp/watch/notes.txt", "/tmp/watch/photo.JPG", "/tmp/watch/photo.jpeg", "jpg", ""] {
        assert!(matches!(
            on_input(event(FileEventKind::Created, path), ".jpg"),
            WatchStep::Continue
        ));
    }
}

#[test]
fn suffix_without_dot_boundary_matches() {
    assert!(matches!(
        on_input(event(FileEventKind::Created, "/tmp/watch/my.jpg"), "jpg"),
        WatchStep::Handle(_)
    ));
    assert!(matches!(
        on_input(event(FileEventKind::Created, "/tmp/watch/myjpg"), "jpg"),
        WatchStep::Handle(_)
    ));
}

#[test]
fn other_event_kinds_are_not_handled() {
    for kind in [FileEventKind::Modified, FileEventKind::Removed, FileEventKind::Other] {
        assert!(matches!(
            on_input(event(kind, "/tmp/watch/photo.jpg"), ".jpg"),
            WatchStep::Continue
        ));
    }
}

#[test]
fn closed_channel_stops_the_watch() {
    assert!(matches!(
        on_input(WatchInput::ChannelClosed, ".jpg"),
        WatchStep::Stop(WatchError::Disconnected)
    ));
}

#[test]
fn handler_abort_stops_the_watch() {
    assert!(matches!(after_handler(&HandlerOutcome::Abort), WatchStep::Stop(WatchError::Abort)));
}

#[test]
fn upload_failures_do_not_stop_the_watch() {
    assert!(matches!(after_handler(&HandlerOutcome::Posted), WatchStep::Continue));
    let failed = HandlerOutcome::Failed(SocialError::UploadError("/tmp/a.jpg".to_string()));
    assert!(matches!(after_handler(&failed), WatchStep::Continue));
}

#[test]
fn deleted_image_gives_read_error_and_watch_goes_on() {
    let path = match on_input(event(FileEventKind::Created, "/tmp/watch/photo.jpg"), ".jpg") {
        WatchStep::Handle(p) => p,
        other => panic!("unexpected step {:?}", other),
    };
    let (job, action) = PostJob::start("#demo".to_string(), path);
    match action {
        PostAction::ReadImage(p) => assert_eq!(p, "/tmp/watch/photo.jpg"),
        other => panic!("unexpected action {:?}", other),
    }
    let (_, action) = job.step(PostEvent::StepFailed);
    let err = match action {
        PostAction::Finish(Err(e)) => e,
        other => panic!("unexpected action {:?}", other),
    };
    assert_eq!(err, SocialError::ImageReadError("/tmp/watch/photo.jpg".to_string()));
    assert!(matches!(after_handler(&HandlerOutcome::Failed(err)), WatchStep::Continue));
    assert!(matches!(
        on_input(event(FileEventKind::Created, "/tmp/watch/next.jpg"), ".jpg"),
        WatchStep::Handle(_)
    ));
}

#[test]
fn post_goes_through_read_upload_publish() {
    let (job, _) = PostJob::start("#demo".to_string(), "/tmp/watch/photo.jpg".to_string());
    let (job, action) = job.step(PostEvent::ImageRead(vec![0xff, 0xd8, 0xff]));
    match action {
        PostAction::UploadMedia(bytes) => assert_eq!(bytes, vec![0xff, 0xd8, 0xff]),
        other => panic!("unexpected action {:?}", other),
    }
    let (job, action) = job.step(PostEvent::MediaUploaded(42));
    match action {
        PostAction::Publish { text, media_id } => {
            assert_eq!(text, "#demo");
            assert_eq!(media_id, 42);
        }
        other => panic!("unexpected action {:?}", other),
    }
    let (job, action) = job.step(PostEvent::PostPublished);
    assert!(matches!(action, PostAction::Finish(Ok(()))));
    let (_, action) = job.step(PostEvent::StepFailed);
    assert!(matches!(action, PostAction::Finish(Ok(()))));
}

#[test]
fn upload_and_publish_failures_name_the_file() {
    let (job, _) = PostJob::start("#demo".to_string(), "/tmp/a.jpg".to_string());
    let (job, _) = job.step(PostEvent::ImageRead(vec![1]));
    let (_, action) = job.step(PostEvent::StepFailed);
    match action {
        PostAction::Finish(Err(e)) => assert_eq!(e, SocialError::UploadError("/tmp/a.jpg".to_string())),
        other => panic!("unexpected action {:?}", other),
    }
    let (job, _) = PostJob::start("#demo".to_string(), "/tmp/b.jpg".to_string());
    let (job, _) = job.step(PostEvent::ImageRead(vec![1]));
    let (job, _) = job.step(PostEvent::MediaUploaded(7));
    let (_, action) = job.step(PostEvent::StepFailed);
    match action {
        PostAction::Finish(Err(e)) => assert_eq!(e, SocialError::PostError("/tmp/b.jpg".to_string())),
        other => panic!("unexpected action {:?}", other),
    }
}

#[test]
fn text_helpers() {
    assert!(ends_with("photo.jpg", ".jpg"));
    assert!(ends_with("x", ""));
    assert!(!ends_with("jpg", ".jpg"));
    assert!(ends_with("bild-ü.jpg", "ü.jpg"));
    assert!(same_text("twitter", "twitter"));
    assert!(!same_text("twitter", "twitte"));
    assert!(!same_text("twitter", "twitteR"));
}
