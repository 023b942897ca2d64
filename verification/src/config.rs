//! What a session is configured with.

use twitchchat::UserConfig;
use vstd::prelude::*;

verus! {

/// `twitchchat::UserConfig`: the name, the token and the capabilities that
/// an account registers with. The session never looks into it; it is kept
/// for the transport, which logs in with it.
#[verifier::external_type_specification]
#[verifier::external_body]
pub struct ExUserConfig(UserConfig);

/// The names held by `list`, each as a sequence of characters, in order.
pub open spec fn names(list: Seq<String>) -> Seq<Seq<char>> {
    Seq::new(list.len(), |i: int| list[i]@)
}

/// The configuration of one session.
#[derive(Debug)]
pub struct Config {
    /// What the transport logs in with.
    pub user_config: UserConfig,
    /// The channels to join, in the order in which they are joined. A name
    /// that occurs twice is joined twice.
    pub channels: Vec<String>,
    /// How long the session keeps silent after each reply, in seconds.
    pub wait_seconds: u64,
}

/// A [`Config`] with its channel names as sequences of characters.
pub struct ConfigView {
    pub user_config: UserConfig,
    pub channels: Seq<Seq<char>>,
    pub wait_seconds: u64,
}

impl View for Config {
    type V = ConfigView;

    open spec fn view(&self) -> ConfigView {
        ConfigView {
            user_config: self.user_config,
            channels: names(self.channels@),
            wait_seconds: self.wait_seconds,
        }
    }
}

impl Config {
    /// A configuration that logs in with `user_config`, joins `channels` in
    /// the given order and waits `wait_seconds` seconds after each reply.
    pub fn new(user_config: UserConfig, channels: Vec<String>, wait_seconds: u64) -> (config:
        Config)
        ensures
            config@ == (ConfigView { user_config, channels: names(channels@), wait_seconds }),
    {
        Config { user_config, channels, wait_seconds }
    }
}

} // verus!
