//! What the process is started with.

use vstd::prelude::*;

verus! {

/// External configuration: the directory to watch, the caption of every post,
/// the backend's name and the four optional credentials.
#[derive(Debug)]
pub struct Config {
    pub directory: String,
    pub message: String,
    pub plugin: String,
    pub consumer_key: Option<String>,
    pub consumer_secret: Option<String>,
    pub access_token: Option<String>,
    pub access_token_secret: Option<String>,
}

} // verus!
