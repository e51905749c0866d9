//! Backend selection and the interface of a posting backend.

use crate::errors::SocialError;
use crate::text::same_text;
use vstd::prelude::*;

verus! {

/// The supported posting backends.
#[derive(Debug, PartialEq, Eq, Structural, Clone, Copy)]
pub enum Plugin {
    Twitter,
}

/// What `str::to_lowercase` makes of a string's characters.
pub uninterp spec fn lower_of(s: Seq<char>) -> Seq<char>;

/// Relies on `str::to_lowercase`: its result depends on the characters alone.
#[verifier::external_body]
fn lowercase(s: &str) -> (r: String)
    ensures
        r@ == lower_of(s@),
{
    s.to_lowercase()
}

/// The backend that an already lower-cased name selects; any other name is
/// rejected rather than mapped to a default.
pub open spec fn plugin_named(name: Seq<char>) -> Result<Plugin, SocialError> {
    if name == "twitter"@ {
        Ok(Plugin::Twitter)
    } else {
        Err(SocialError::UnknownPluginError)
    }
}

impl Plugin {
    /// Selects the backend by a name that is already lower case.
    pub fn from_lowered(name: &str) -> (r: Result<Plugin, SocialError>)
        ensures
            r == plugin_named(name@),
    {
        if same_text(name, "twitter") {
            Ok(Plugin::Twitter)
        } else {
            Err(SocialError::UnknownPluginError)
        }
    }

    /// Selects the backend by name, ignoring case.
    pub fn from_str(name: &str) -> (r: Result<Plugin, SocialError>)
        ensures
            r == plugin_named(lower_of(name@)),
    {
        let lowered = lowercase(name);
        Plugin::from_lowered(lowered.as_str())
    }
}

/// A posting backend: publishes an image file with a caption. Implementations
/// talk to the remote service; the library decides the order of their calls.
pub trait SocialUpload {
    fn post(&self, text: &str, image: &str) -> Result<(), SocialError>;
}

} // verus!
