//! The closed set of failures that the library reports.

use vstd::prelude::*;

verus! {

/// Failures of configuration, authorization and of a single post.
/// Paths are carried as the text the watcher reported.
#[derive(Debug, PartialEq, Eq)]
pub enum SocialError {
    /// A required credential is absent; carries the field's name.
    MissingConfigurationError(String),
    /// The image file could not be read when its post was prepared.
    ImageReadError(String),
    /// The remote service did not accept the media upload.
    UploadError(String),
    /// The remote service did not accept the post that refers to the media.
    PostError(String),
    /// A round of the authorization handshake failed.
    AuthorizationError,
    /// The configured backend name is none of the supported ones.
    UnknownPluginError,
}

/// Failures that end a watch.
#[derive(Debug, PartialEq, Eq)]
pub enum WatchError {
    /// The watch on the directory could not be registered.
    WatchStartError(String),
    /// The handler asked the watch to stop.
    Abort,
    /// The event channel was closed underneath the watch.
    Disconnected,
}

impl SocialError {
    /// A copy of this error.
    pub fn duplicate(&self) -> (r: SocialError)
        ensures
            r == *self,
    {
        match self {
            SocialError::MissingConfigurationError(s) => SocialError::MissingConfigurationError(
                s.clone(),
            ),
            SocialError::ImageReadError(s) => SocialError::ImageReadError(s.clone()),
            SocialError::UploadError(s) => SocialError::UploadError(s.clone()),
            SocialError::PostError(s) => SocialError::PostError(s.clone()),
            SocialError::AuthorizationError => SocialError::AuthorizationError,
            SocialError::UnknownPluginError => SocialError::UnknownPluginError,
        }
    }
}

} // verus!
