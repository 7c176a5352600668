//! Which channels feed which lambdas: one of three sources decides, and the
//! sources are never merged.

use vstd::prelude::*;
use crate::error::{ConfigError, ConfigErrorView};
use crate::mode::{mode_named, Mode};
use crate::pairs::{parse_channel_pairs, parsed_pairs, ChannelLambdaPair, PairView};

verus! {

/// The content of a configuration file.
#[derive(Debug, Clone)]
pub struct Config {
    /// Where the broker is, if the file says so.
    pub redis_url: Option<String>,
    /// The name of the mode, if the file names one.
    pub mode: Option<String>,
    /// Each channel with its lambda.
    pub channels: Vec<(String, String)>,
}

/// Everything the user supplied that can name channels, and the defaults.
#[derive(Debug, Clone)]
pub struct Sources {
    /// Where the broker is, unless the configuration file says otherwise.
    pub redis_url: String,
    /// The mode, unless the configuration file names another.
    pub mode: Mode,
    /// A list of `channel=lambda` entries.
    pub channels: Option<Vec<String>>,
    /// The configuration file, already read.
    pub config: Option<Config>,
    /// The channel of the single-channel form.
    pub channel: Option<String>,
    /// The lambda of the single-channel form.
    pub lambda: Option<String>,
}

/// What the bridge runs with.
#[derive(Debug, Clone)]
pub struct ResolvedConfig {
    pub redis_url: String,
    pub mode: Mode,
    pub pairs: Vec<ChannelLambdaPair>,
}

/// The mathematical content of a [`ResolvedConfig`].
pub struct ResolvedView {
    pub redis_url: Seq<char>,
    pub mode: Mode,
    pub pairs: Seq<PairView>,
}

impl View for ResolvedConfig {
    type V = ResolvedView;

    open spec fn view(&self) -> ResolvedView {
        ResolvedView {
            redis_url: self.redis_url@,
            mode: self.mode,
            pairs: self.pairs@.map_values(|p: ChannelLambdaPair| p@),
        }
    }
}

/// The pairs that a configuration file lists, in its order.
pub open spec fn config_pairs(channels: Seq<(String, String)>) -> Seq<PairView> {
    channels.map_values(|entry: (String, String)| PairView { channel: entry.0@, lambda: entry.1@ })
}

/// What a configuration file resolves to: its own broker and mode where it
/// names them, the defaults where it does not, and its channels.
pub open spec fn resolved_from_config(config: Config, redis_url: Seq<char>, mode: Mode) -> Result<
    ResolvedView,
    ConfigErrorView,
> {
    let redis_url = match config.redis_url {
        Some(own) => own@,
        None => redis_url,
    };
    let pairs = config_pairs(config.channels@);
    match config.mode {
        None => Ok(ResolvedView { redis_url, mode, pairs }),
        Some(name) => match mode_named(name@) {
            Some(own) => Ok(ResolvedView { redis_url, mode: own, pairs }),
            None => Err(ConfigErrorView::UnsupportedMode(name@)),
        },
    }
}

/// What the sources resolve to. The configuration file wins over the list,
/// and the list over the single-channel form; the winner is used alone.
pub open spec fn resolved(sources: Sources) -> Result<ResolvedView, ConfigErrorView> {
    let redis_url = sources.redis_url@;
    let mode = sources.mode;
    match sources.config {
        Some(config) => resolved_from_config(config, redis_url, mode),
        None => match sources.channels {
            Some(entries) => match parsed_pairs(entries@) {
                Ok(pairs) => Ok(ResolvedView { redis_url, mode, pairs }),
                Err(e) => Err(e),
            },
            None => match (sources.channel, sources.lambda) {
                (Some(channel), Some(lambda)) => Ok(
                    ResolvedView {
                        redis_url,
                        mode,
                        pairs: seq![PairView { channel: channel@, lambda: lambda@ }],
                    },
                ),
                _ => Ok(ResolvedView { redis_url, mode, pairs: Seq::empty() }),
            },
        },
    }
}

/// What the bridge starts with: as [`resolved`], but a resolution that names
/// no channel is an error.
pub open spec fn startable(sources: Sources) -> Result<ResolvedView, ConfigErrorView> {
    match resolved(sources) {
        Ok(config) => if config.pairs.len() == 0 {
            Err(ConfigErrorView::NoPairs)
        } else {
            Ok(config)
        },
        Err(e) => Err(e),
    }
}

/// Whether `r` is the outcome that `expected` describes.
pub open spec fn is_outcome(
    r: Result<ResolvedConfig, ConfigError>,
    expected: Result<ResolvedView, ConfigErrorView>,
) -> bool {
    match r {
        Ok(config) => expected == Ok::<ResolvedView, ConfigErrorView>(config@),
        Err(e) => expected == Err::<ResolvedView, ConfigErrorView>(e@),
    }
}

/// Resolves a configuration file against the defaults.
pub fn resolve_config(config: &Config, redis_url: &String, mode: Mode) -> (r: Result<
    ResolvedConfig,
    ConfigError,
>)
    ensures
        is_outcome(r, resolved_from_config(*config, redis_url@, mode)),
{
    let redis_url = match &config.redis_url {
        Some(own) => own.clone(),
        None => redis_url.clone(),
    };
    let mode = match &config.mode {
        None => mode,
        Some(name) => match Mode::from_name(name.as_str()) {
            Some(own) => own,
            None => {
                return Err(ConfigError::UnsupportedMode(name.clone()));
            },
        },
    };
    let mut pairs: Vec<ChannelLambdaPair> = Vec::new();
    let mut i: usize = 0;
    while i < config.channels.len()
        invariant
            i <= config.channels@.len(),
            pairs@.len() == i,
            forall|j: int|
                0 <= j < i ==> (#[trigger] pairs@[j])@ == config_pairs(config.channels@)[j],
        decreases config.channels@.len() - i,
    {
        let entry = &config.channels[i];
        pairs.push(ChannelLambdaPair { channel: entry.0.clone(), lambda: entry.1.clone() });
        i += 1;
    }
    let resolved = ResolvedConfig { redis_url, mode, pairs };
    proof {
        assert(resolved@.pairs =~= config_pairs(config.channels@));
    }
    Ok(resolved)
}

/// Resolves the sources. The configuration file, where there is one, is used
/// alone; else the list of entries; else the single-channel form; else no
/// channel is named, which is no error here.
pub fn get_channel_lambda_pairs(sources: &Sources) -> (r: Result<ResolvedConfig, ConfigError>)
    ensures
        is_outcome(r, resolved(*sources)),
{
    if let Some(config) = &sources.config {
        return resolve_config(config, &sources.redis_url, sources.mode);
    }
    let redis_url = sources.redis_url.clone();
    let mode = sources.mode;
    if let Some(entries) = &sources.channels {
        return match parse_channel_pairs(entries.as_slice()) {
            Ok(pairs) => Ok(ResolvedConfig { redis_url, mode, pairs }),
            Err(e) => Err(e),
        };
    }
    let mut pairs: Vec<ChannelLambdaPair> = Vec::new();
    match (&sources.channel, &sources.lambda) {
        (Some(channel), Some(lambda)) => {
            pairs.push(ChannelLambdaPair { channel: channel.clone(), lambda: lambda.clone() });
            let resolved = ResolvedConfig { redis_url, mode, pairs };
            proof {
                assert(resolved@.pairs =~= seq![
                    PairView { channel: channel@, lambda: lambda@ },
                ]);
            }
            Ok(resolved)
        },
        _ => {
            let resolved = ResolvedConfig { redis_url, mode, pairs };
            proof {
                assert(resolved@.pairs =~= Seq::<PairView>::empty());
            }
            Ok(resolved)
        },
    }
}

/// Resolves the sources for a start: as [`get_channel_lambda_pairs`], but
/// where no channel is named the answer is [`ConfigError::NoPairs`].
pub fn resolve(sources: &Sources) -> (r: Result<ResolvedConfig, ConfigError>)
    ensures
        is_outcome(r, startable(*sources)),
        r matches Ok(config) ==> config.pairs@.len() > 0,
{
    match get_channel_lambda_pairs(sources) {
        Ok(config) => {
            if config.pairs.len() == 0 {
                Err(ConfigError::NoPairs)
            } else {
                Ok(config)
            }
        },
        Err(e) => Err(e),
    }
}

/// A configuration file is used alone: the list of entries and the
/// single-channel form change nothing where one is supplied.
pub proof fn lemma_config_is_used_alone(a: Sources, b: Sources)
    requires
        a.config is Some,
        a.config == b.config,
        a.redis_url@ == b.redis_url@,
        a.mode == b.mode,
    ensures
        resolved(a) == resolved(b),
        startable(a) == startable(b),
{
}

/// A list of entries is used alone where no configuration file is supplied:
/// the single-channel form changes nothing.
pub proof fn lemma_list_is_used_alone(a: Sources, b: Sources)
    requires
        a.config is None,
        b.config is None,
        a.channels matches Some(entries) && b.channels == Some(entries),
        a.redis_url@ == b.redis_url@,
        a.mode == b.mode,
    ensures
        resolved(a) == resolved(b),
        startable(a) == startable(b),
{
}

/// With no source at all nothing is named: the resolution is empty, and a
/// start is refused.
pub proof fn lemma_no_source_names_nothing(sources: Sources)
    requires
        sources.config is None,
        sources.channels is None,
        sources.channel is None || sources.lambda is None,
    ensures
        resolved(sources) matches Ok(config) && config.pairs.len() == 0 && config.redis_url
            == sources.redis_url@ && config.mode == sources.mode,
        startable(sources) == Err::<ResolvedView, ConfigErrorView>(ConfigErrorView::NoPairs),
{
}

} // verus!
