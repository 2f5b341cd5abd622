//! The agent's configuration and the rules it has to meet.

use vstd::prelude::*;
use vstd::hash_set::StringHashSet;

pub mod config_error;
pub mod endpoint;
pub mod global_config;
pub mod source_config;

pub use config_error::ConfigError;
pub use global_config::GlobalConfig;
pub use global_config::SendType;
pub use source_config::SourceConfig;

use endpoint::{accepts_scheme, is_http_scheme, parsed_scheme, text_of, url_scheme};

verus! {

/// A whole configuration: the process-wide settings and the watched files.
#[derive(Clone, Debug, PartialEq, Eq)]
pub struct Config {
    pub global: GlobalConfig,
    pub sources: Vec<SourceConfig>,
}

/// Whether an earlier source carries the name of the source at `i`.
pub open spec fn repeats_name(sources: Seq<SourceConfig>, i: int) -> bool {
    exists|j: int| 0 <= j < i && (#[trigger] sources[j]).name@ == sources[i].name@
}

/// Whether an earlier source watches the path of the source at `i`.
pub open spec fn repeats_path(sources: Seq<SourceConfig>, i: int) -> bool {
    exists|j: int| 0 <= j < i && (#[trigger] sources[j]).log_path@ == sources[i].log_path@
}

/// Whether the first `n` sources differ from one another in name and in path.
pub open spec fn distinct_up_to(sources: Seq<SourceConfig>, n: int) -> bool {
    forall|i: int| 0 <= i < n ==> !repeats_name(sources, i) && !repeats_path(sources, i)
}

/// No two sources share a name, and no two share a path.
pub open spec fn sources_are_unique(sources: Seq<SourceConfig>) -> bool {
    forall|i: int, j: int|
        0 <= i < j < sources.len() ==> (#[trigger] sources[i]).name@ != (#[trigger] sources[j]).name@
            && sources[i].log_path@ != sources[j].log_path@
}

/// Whether the process-wide settings pass, given the scheme found in the
/// endpoint.
pub open spec fn global_is_valid(global: GlobalConfig, scheme: Option<Seq<char>>) -> bool {
    &&& is_http_scheme(scheme)
    &&& global.max_send_task >= 1
    &&& global.retry_count >= 1
    &&& global.channel_bound >= 1
}

/// Whether `outcome` is the outcome of checking `config`, given the scheme
/// found in its endpoint.
///
/// The rules are tried in a fixed order and the first one that is broken
/// names the error: the endpoint, the number of send tasks, the number of
/// attempts, the queue capacity, and then the sources one by one, each first
/// by its name and then by its path against the sources before it.
pub open spec fn is_outcome_of(
    config: Config,
    scheme: Option<Seq<char>>,
    outcome: Result<(), ConfigError>,
) -> bool {
    let global = config.global;
    let sources = config.sources@;
    match outcome {
        Ok(()) => global_is_valid(global, scheme) && distinct_up_to(sources, sources.len() as int),
        Err(ConfigError::InvalidEndPoint(end_point)) => !is_http_scheme(scheme) && end_point@
            == global.end_point@,
        Err(ConfigError::SendTaskIsUnderOne) => is_http_scheme(scheme) && global.max_send_task < 1,
        Err(ConfigError::RetryCountIsUnderOne) => is_http_scheme(scheme) && global.max_send_task
            >= 1 && global.retry_count < 1,
        Err(ConfigError::ChannelBoundIsUnderOne) => is_http_scheme(scheme) && global.max_send_task
            >= 1 && global.retry_count >= 1 && global.channel_bound < 1,
        Err(ConfigError::DuplicateSourceName(name)) => global_is_valid(global, scheme) && exists|
            i: int,
        |
            0 <= i < sources.len() && distinct_up_to(sources, i) && repeats_name(sources, i)
                && name@ == (#[trigger] sources[i]).name@,
        Err(ConfigError::DuplicateLogPath(path)) => global_is_valid(global, scheme) && exists|
            i: int,
        |
            0 <= i < sources.len() && distinct_up_to(sources, i) && !repeats_name(sources, i)
                && repeats_path(sources, i) && path@ == (#[trigger] sources[i]).log_path@,
        Err(ConfigError::CanNotRead(_)) => false,
        Err(ConfigError::CanNotParseToml(_)) => false,
    }
}

/// Sources that differ one by one from those before them are unique, and
/// the other way round.
pub proof fn lemma_distinct_is_unique(sources: Seq<SourceConfig>)
    ensures
        distinct_up_to(sources, sources.len() as int) <==> sources_are_unique(sources),
{
    if distinct_up_to(sources, sources.len() as int) {
        assert forall|i: int, j: int| 0 <= i < j < sources.len() implies (#[trigger] sources[i]).name@
            != (#[trigger] sources[j]).name@ && sources[i].log_path@ != sources[j].log_path@ by {
            assert(!repeats_name(sources, j) && !repeats_path(sources, j));
        }
    }
    if sources_are_unique(sources) {
        assert forall|i: int| 0 <= i < sources.len() implies !repeats_name(sources, i)
            && !repeats_path(sources, i) by {
            if repeats_name(sources, i) {
                let j = choose|j: int| 0 <= j < i && (#[trigger] sources[j]).name@ == sources[i].name@;
                assert(sources[j].name@ != sources[i].name@);
            }
            if repeats_path(sources, i) {
                let j = choose|j: int|
                    0 <= j < i && (#[trigger] sources[j]).log_path@ == sources[i].log_path@;
                assert(sources[j].log_path@ != sources[i].log_path@);
            }
        }
    }
}

/// Checks `config` against the rules, given the scheme that was found in its
/// endpoint (`None` where the endpoint is no absolute URL).
pub fn check_config(config: &Config, scheme: &Option<String>) -> (outcome: Result<(), ConfigError>)
    ensures
        is_outcome_of(*config, text_of(*scheme), outcome),
        outcome is Ok ==> sources_are_unique(config.sources@),
{
    match config.global.send_type {
        SendType::HTTP => {
            if !accepts_scheme(scheme) {
                return Err(ConfigError::InvalidEndPoint(config.global.end_point.clone()));
            }
        },
    }

    if config.global.max_send_task < 1 {
        return Err(ConfigError::SendTaskIsUnderOne);
    }

    if config.global.retry_count < 1 {
        return Err(ConfigError::RetryCountIsUnderOne);
    }

    if config.global.channel_bound < 1 {
        return Err(ConfigError::ChannelBoundIsUnderOne);
    }

    let mut name_set = StringHashSet::new();
    let mut path_set = StringHashSet::new();
    let mut i: usize = 0;
    while i < config.sources.len()
        invariant
            i <= config.sources.len(),
            global_is_valid(config.global, text_of(*scheme)),
            distinct_up_to(config.sources@, i as int),
            forall|name: Seq<char>|
                name_set@.contains(name) <==> exists|j: int|
                    0 <= j < i && (#[trigger] config.sources[j]).name@ == name,
            forall|path: Seq<char>|
                path_set@.contains(path) <==> exists|j: int|
                    0 <= j < i && (#[trigger] config.sources[j]).log_path@ == path,
        decreases config.sources.len() - i,
    {
        let source = &config.sources[i];
        let ghost names_before = name_set@;
        let ghost paths_before = path_set@;
        if !name_set.insert(source.name.clone()) {
            let name = source.name.clone();
            proof {
                assert(names_before.contains(source.name@));
                assert(repeats_name(config.sources@, i as int));
                assert(name@ == config.sources@[i as int].name@);
            }
            return Err(ConfigError::DuplicateSourceName(name));
        }
        if !path_set.insert(source.log_path.clone()) {
            let path = source.log_path.clone();
            proof {
                assert(!names_before.contains(source.name@));
                assert(!repeats_name(config.sources@, i as int));
                assert(paths_before.contains(source.log_path@));
                assert(repeats_path(config.sources@, i as int));
                assert(path@ == config.sources@[i as int].log_path@);
            }
            return Err(ConfigError::DuplicateLogPath(path));
        }
        proof {
            assert(!names_before.contains(source.name@));
            assert(!paths_before.contains(source.log_path@));
            assert(!repeats_name(config.sources@, i as int));
            assert(!repeats_path(config.sources@, i as int));
        }
        i += 1;
    }
    proof {
        lemma_distinct_is_unique(config.sources@);
    }
    Ok(())
}

/// Checks `config` against the rules.
///
/// The endpoint is parsed by the `url` crate; what becomes of the parsed
/// scheme is [`check_config`]'s to say.
pub fn valid_config(config: &Config) -> (outcome: Result<(), ConfigError>)
    ensures
        is_outcome_of(*config, url_scheme(config.global.end_point@), outcome),
        outcome is Ok ==> sources_are_unique(config.sources@),
{
    let scheme = parsed_scheme(config.global.end_point.as_str());
    check_config(config, &scheme)
}

/// Accepts a configuration that was read and parsed: where it passes
/// [`valid_config`] it is handed back unchanged, to be published once and
/// read by every stage; where it does not, the error says why.
pub fn load_config(config: Config) -> (loaded: Result<Config, ConfigError>)
    ensures
        match loaded {
            Ok(accepted) => accepted == config && is_outcome_of(
                config,
                url_scheme(config.global.end_point@),
                Ok(()),
            ) && sources_are_unique(config.sources@),
            Err(error) => is_outcome_of(
                config,
                url_scheme(config.global.end_point@),
                Err(error),
            ),
        },
{
    match valid_config(&config) {
        Ok(()) => Ok(config),
        Err(error) => Err(error),
    }
}

/// The process-wide part of a configuration.
pub fn global_config(config: &Config) -> (global: &GlobalConfig)
    ensures
        *global == config.global,
{
    &config.global
}

} // verus!
