use pic2social::errors::SocialError;
use pic2social::social::Plugin;

#[test]
fn plugin_name_ignores_case() {
    assert_eq!(Plugin::from_str("twitter"), Ok(Plugin::Twitter));
    assert_eq!(Plugin::from_str("Twitter"), Ok(Plugin::Twitter));
    assert_eq!(Plugin::from_str("TWITTER"), Ok(Plugin::Twitter));
}

#[test]
fn unknown_plugin_is_rejected() {
    assert_eq!(Plugin::from_str("mastodon"), Err(SocialError::UnknownPluginError));
    assert_eq!(Plugin::from_str(""), Err(SocialError::UnknownPluginError));
}

#[test]
fn lowered_name_is_case_sensitive() {
    assert_eq!(Plugin::from_lowered("twitter"), Ok(Plugin::Twitter));
    assert_eq!(Plugin::from_lowered("Twitter"), Err(SocialError::UnknownPluginError));
}
