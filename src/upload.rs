//! Publishing one image: read the file, upload its bytes as media, then
//! publish a post that carries the caption and refers to the media. Each step
//! is carried out by the caller, which reports back how it went.

use crate::errors::SocialError;
use vstd::prelude::*;

verus! {

/// Where a post stands.
#[derive(Debug)]
pub enum PostStage {
    /// The image file is being read.
    ReadingImage,
    /// The image's bytes are being uploaded as media.
    UploadingMedia,
    /// The post that refers to this media is being published.
    Publishing { media_id: u64 },
    /// The post is published.
    Posted,
    /// A step failed; nothing further is attempted.
    Failed(SocialError),
}

/// One post of an image file, with its caption.
#[derive(Debug)]
pub struct PostJob {
    pub text: String,
    pub path: String,
    pub stage: PostStage,
}

/// How the last step went.
#[derive(Debug)]
pub enum PostEvent {
    /// The whole file was read.
    ImageRead(Vec<u8>),
    /// The service stored the media under this identifier.
    MediaUploaded(u64),
    /// The service published the post.
    PostPublished,
    /// The step could not be completed.
    StepFailed,
}

/// The outside work that the post asks for next.
#[derive(Debug)]
pub enum PostAction {
    /// Read the whole file at this path.
    ReadImage(String),
    /// Upload these bytes as a JPEG image.
    UploadMedia(Vec<u8>),
    /// Publish a post with this text that refers to this media.
    Publish { text: String, media_id: u64 },
    /// Nothing is left to do; this is the post's result.
    Finish(Result<(), SocialError>),
}

pub open spec fn post_start(text: String, path: String) -> (PostJob, PostAction) {
    (PostJob { text, path, stage: PostStage::ReadingImage }, PostAction::ReadImage(path))
}

/// The error that a failure of the current step is reported as.
pub open spec fn step_error(j: PostJob) -> SocialError {
    match j.stage {
        PostStage::ReadingImage => SocialError::ImageReadError(j.path),
        PostStage::UploadingMedia => SocialError::UploadError(j.path),
        _ => SocialError::PostError(j.path),
    }
}

/// The post after one event, and what it asks for next. A step succeeds only
/// on its own acknowledgement; anything else fails it, and the failure names
/// the step and the file. A finished post stays as it is.
pub open spec fn post_next(j: PostJob, e: PostEvent) -> (PostJob, PostAction) {
    let fail = (
        PostJob { text: j.text, path: j.path, stage: PostStage::Failed(step_error(j)) },
        PostAction::Finish(Err(step_error(j))),
    );
    match j.stage {
        PostStage::Posted => (j, PostAction::Finish(Ok(()))),
        PostStage::Failed(err) => (j, PostAction::Finish(Err(err))),
        PostStage::ReadingImage => match e {
            PostEvent::ImageRead(image) => (
                PostJob { text: j.text, path: j.path, stage: PostStage::UploadingMedia },
                PostAction::UploadMedia(image),
            ),
            _ => fail,
        },
        PostStage::UploadingMedia => match e {
            PostEvent::MediaUploaded(media_id) => (
                PostJob { text: j.text, path: j.path, stage: PostStage::Publishing { media_id } },
                PostAction::Publish { text: j.text, media_id },
            ),
            _ => fail,
        },
        PostStage::Publishing { .. } => match e {
            PostEvent::PostPublished => (
                PostJob { text: j.text, path: j.path, stage: PostStage::Posted },
                PostAction::Finish(Ok(())),
            ),
            _ => fail,
        },
    }
}

/// The post, and the last thing it asked for, after a sequence of events.
pub open spec fn post_run(j: PostJob, a: PostAction, events: Seq<PostEvent>) -> (PostJob, PostAction)
    decreases events.len(),
{
    if events.len() == 0 {
        (j, a)
    } else {
        let (j2, a2) = post_next(j, events[0]);
        post_run(j2, a2, events.drop_first())
    }
}

proof fn lemma_finished_stays(j: PostJob, a: PostAction, events: Seq<PostEvent>)
    requires
        j.stage is Posted || j.stage is Failed,
        a == post_next(j, PostEvent::StepFailed).1,
    ensures
        post_run(j, a, events) == (j, a),
    decreases events.len(),
{
    if events.len() > 0 {
        lemma_finished_stays(j, a, events.drop_first());
    }
}

/// A post ends in success exactly when its first three steps were
/// acknowledged in order: the file read, the media uploaded, the post
/// published. Any other reply to any of them ends it in failure, and nothing
/// that comes afterwards changes the result.
pub proof fn lemma_post_succeeds_only_after_each_step(
    text: String,
    path: String,
    events: Seq<PostEvent>,
)
    requires
        events.len() >= 3,
    ensures
        ({
            let (j0, a0) = post_start(text, path);
            let (_, a) = post_run(j0, a0, events);
            &&& a is Finish
            &&& (a == PostAction::Finish(Ok(()))) <==> (events[0] is ImageRead
                && events[1] is MediaUploaded && events[2] is PostPublished)
        }),
{
    let (j0, a0) = post_start(text, path);
    let e1 = events.drop_first();
    let e2 = e1.drop_first();
    let e3 = e2.drop_first();
    let (j1, a1) = post_next(j0, events[0]);
    let (j2, a2) = post_next(j1, e1[0]);
    let (j3, a3) = post_next(j2, e2[0]);
    assert(post_run(j0, a0, events) == post_run(j1, a1, e1));
    if j1.stage is Failed {
        lemma_finished_stays(j1, a1, e1);
    } else {
        assert(post_run(j1, a1, e1) == post_run(j2, a2, e2));
        if j2.stage is Failed {
            lemma_finished_stays(j2, a2, e2);
        } else {
            assert(post_run(j2, a2, e2) == post_run(j3, a3, e3));
            lemma_finished_stays(j3, a3, e3);
        }
    }
}

impl PostJob {
    /// A post of the file at `path` with caption `text`; the file is read first.
    pub fn start(text: String, path: String) -> (r: (PostJob, PostAction))
        ensures
            r == post_start(text, path),
    {
        let read = PostAction::ReadImage(path.clone());
        (PostJob { text, path, stage: PostStage::ReadingImage }, read)
    }

    fn fail(self) -> (r: (PostJob, PostAction))
        requires
            !(self.stage is Posted),
            !(self.stage is Failed),
        ensures
            r == (
                PostJob { text: self.text, path: self.path, stage: PostStage::Failed(step_error(self)) },
                PostAction::Finish(Err(step_error(self))),
            ),
    {
        let err = match self.stage {
            PostStage::ReadingImage => SocialError::ImageReadError(self.path.clone()),
            PostStage::UploadingMedia => SocialError::UploadError(self.path.clone()),
            _ => SocialError::PostError(self.path.clone()),
        };
        let reported = err.duplicate();
        (PostJob { text: self.text, path: self.path, stage: PostStage::Failed(err) }, PostAction::Finish(Err(reported)))
    }

    /// Takes in how the last step went, and says what to do next.
    pub fn step(self, e: PostEvent) -> (r: (PostJob, PostAction))
        ensures
            r == post_next(self, e),
    {
        match &self.stage {
            PostStage::Posted => return (self, PostAction::Finish(Ok(()))),
            PostStage::Failed(err) => {
                let reported = err.duplicate();
                return (self, PostAction::Finish(Err(reported)));
            },
            PostStage::ReadingImage => {
                if let PostEvent::ImageRead(image) = e {
                    return (
                        PostJob { text: self.text, path: self.path, stage: PostStage::UploadingMedia },
                        PostAction::UploadMedia(image),
                    );
                }
            },
            PostStage::UploadingMedia => {
                if let PostEvent::MediaUploaded(media_id) = e {
                    let text = self.text.clone();
                    return (
                        PostJob {
                            text: self.text,
                            path: self.path,
                            stage: PostStage::Publishing { media_id },
                        },
                        PostAction::Publish { text, media_id },
                    );
                }
            },
            PostStage::Publishing { .. } => {
                if let PostEvent::PostPublished = e {
                    return (
                        PostJob { text: self.text, path: self.path, stage: PostStage::Posted },
                        PostAction::Finish(Ok(())),
                    );
                }
            },
        }
        self.fail()
    }
}

} // verus!
