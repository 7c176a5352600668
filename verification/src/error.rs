//! What can be wrong with the configuration at startup.

use vstd::prelude::*;
use crate::text::join;

verus! {

/// A configuration that cannot be used. Nothing is started when one is found.
#[derive(Debug, Clone)]
pub enum ConfigError {
    /// An entry of the channel list that is not of the form `channel=lambda`.
    InvalidPair(String),
    /// A mode named in the configuration that is not known.
    UnsupportedMode(String),
    /// No source named any channel.
    NoPairs,
}

/// The mathematical content of a [`ConfigError`].
pub enum ConfigErrorView {
    InvalidPair(Seq<char>),
    UnsupportedMode(Seq<char>),
    NoPairs,
}

impl ConfigErrorView {
    /// The line shown to the user for this error.
    pub open spec fn message(self) -> Seq<char> {
        match self {
            ConfigErrorView::InvalidPair(entry) => "Invalid channel-lambda pair format: '"@ + entry
                + "'. Expected 'channel=lambda'"@,
            ConfigErrorView::UnsupportedMode(mode) => "Unsupported mode in config: "@ + mode,
            ConfigErrorView::NoPairs =>
                "No channel-lambda pairs specified. Use --channels, --config, or legacy channel/lambda arguments."@,
        }
    }
}

impl View for ConfigError {
    type V = ConfigErrorView;

    open spec fn view(&self) -> ConfigErrorView {
        match self {
            ConfigError::InvalidPair(entry) => ConfigErrorView::InvalidPair(entry@),
            ConfigError::UnsupportedMode(mode) => ConfigErrorView::UnsupportedMode(mode@),
            ConfigError::NoPairs => ConfigErrorView::NoPairs,
        }
    }
}

impl ConfigError {
    /// The line shown to the user for this error.
    pub fn message(&self) -> (r: String)
        ensures
            r@ == self@.message(),
    {
        match self {
            ConfigError::InvalidPair(entry) => {
                let head = join("Invalid channel-lambda pair format: '", entry.as_str());
                join(head.as_str(), "'. Expected 'channel=lambda'")
            },
            ConfigError::UnsupportedMode(mode) => join(
                "Unsupported mode in config: ",
                mode.as_str(),
            ),
            ConfigError::NoPairs => "No channel-lambda pairs specified. Use --channels, --config, or legacy channel/lambda arguments.".to_owned(),
        }
    }
}

} // verus!
