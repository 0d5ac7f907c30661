//! The layered configuration: what one source gives, how a later source
//! overrides an earlier one, and what a complete configuration holds.

use crate::error::{ConfigError, ConfigErrorModel};
use crate::table::Table;
use vstd::prelude::*;

verus! {

/// One reachable provider endpoint, as the user declares it.
#[derive(Debug, Clone)]
pub struct Service {
    pub url: Option<String>,
    pub class: String,
    pub model: Option<String>,
    pub api_key: Option<String>,
    /// A name in the table of system prompts, or the prompt's text itself.
    pub system_prompt: Option<String>,
    pub description: Option<String>,
}

/// A complete configuration.
#[derive(Debug, Clone)]
pub struct Config {
    pub default_service: String,
    pub default_prompt: String,
    pub system_prompts: Table<String>,
    pub services: Table<Service>,
}

/// What one source of configuration gives: any part may be missing.
#[derive(Debug, Clone)]
pub struct PartialConfig {
    pub default_service: Option<String>,
    pub default_prompt: Option<String>,
    pub system_prompts: Option<Table<String>>,
    pub services: Option<Table<Service>>,
}

/// What became of looking for one source of configuration.
#[derive(Debug)]
pub enum Source {
    /// No such source exists.
    Absent,
    /// The source at `path` exists and cannot be read as a configuration.
    Unreadable { path: String, reason: String },
    /// The source was read.
    Loaded(PartialConfig),
}

/// The mathematical model of a [`Config`].
pub ghost struct ConfigModel {
    pub default_service: Seq<char>,
    pub default_prompt: Seq<char>,
    pub system_prompts: Map<Seq<char>, String>,
    pub services: Map<Seq<char>, Service>,
}

/// The mathematical model of a [`PartialConfig`].
pub ghost struct PartialModel {
    pub default_service: Option<Seq<char>>,
    pub default_prompt: Option<Seq<char>>,
    pub system_prompts: Option<Map<Seq<char>, String>>,
    pub services: Option<Map<Seq<char>, Service>>,
}

/// The mathematical model of a [`Source`].
pub ghost enum SourceModel {
    Absent,
    Unreadable { path: Seq<char>, reason: Seq<char> },
    Loaded(PartialModel),
}

/// The characters of an optional text.
pub open spec fn text_of(t: Option<String>) -> Option<Seq<char>> {
    match t {
        Some(t) => Some(t@),
        None => None,
    }
}

/// The map of an optional table.
pub open spec fn map_of<V>(t: Option<Table<V>>) -> Option<Map<Seq<char>, V>> {
    match t {
        Some(t) => Some(t@),
        None => None,
    }
}

/// The later value where there is one, else the earlier.
pub open spec fn later_value<T>(earlier: Option<T>, later: Option<T>) -> Option<T> {
    if later.is_some() {
        later
    } else {
        earlier
    }
}

/// The earlier map extended by the later: every name of either, with the
/// later map's value where both have the name. Where there is no later map,
/// the earlier stays as it is.
pub open spec fn later_entries<V>(
    earlier: Option<Map<Seq<char>, V>>,
    later: Option<Map<Seq<char>, V>>,
) -> Option<Map<Seq<char>, V>> {
    match later {
        Some(later) => Some(entries_or_none(earlier).union_prefer_right(later)),
        None => earlier,
    }
}

/// The entries of an optional map: none where the map is missing.
pub open spec fn entries_or_none<V>(m: Option<Map<Seq<char>, V>>) -> Map<Seq<char>, V> {
    match m {
        Some(m) => m,
        None => Map::empty(),
    }
}

impl PartialModel {
    /// The source that gives nothing.
    pub open spec fn empty() -> PartialModel {
        PartialModel {
            default_service: None,
            default_prompt: None,
            system_prompts: None,
            services: None,
        }
    }

    /// This source overridden by the later source `other`.
    pub open spec fn merge(self, other: PartialModel) -> PartialModel {
        PartialModel {
            default_service: later_value(self.default_service, other.default_service),
            default_prompt: later_value(self.default_prompt, other.default_prompt),
            system_prompts: later_entries(self.system_prompts, other.system_prompts),
            services: later_entries(self.services, other.services),
        }
    }

    /// The complete configuration that this source amounts to, or the
    /// required field that it lacks.
    pub open spec fn into_config(self) -> Result<ConfigModel, ConfigErrorModel> {
        if self.default_service.is_none() {
            Err(ConfigErrorModel::MissingDefaultService)
        } else if self.default_prompt.is_none() {
            Err(ConfigErrorModel::MissingDefaultPrompt)
        } else {
            Ok(
                ConfigModel {
                    default_service: self.default_service.unwrap(),
                    default_prompt: self.default_prompt.unwrap(),
                    system_prompts: entries_or_none(self.system_prompts),
                    services: entries_or_none(self.services),
                },
            )
        }
    }
}

impl View for Config {
    type V = ConfigModel;

    open spec fn view(&self) -> ConfigModel {
        ConfigModel {
            default_service: self.default_service@,
            default_prompt: self.default_prompt@,
            system_prompts: self.system_prompts@,
            services: self.services@,
        }
    }
}

impl View for PartialConfig {
    type V = PartialModel;

    open spec fn view(&self) -> PartialModel {
        PartialModel {
            default_service: text_of(self.default_service),
            default_prompt: text_of(self.default_prompt),
            system_prompts: map_of(self.system_prompts),
            services: map_of(self.services),
        }
    }
}

impl View for Source {
    type V = SourceModel;

    open spec fn view(&self) -> SourceModel {
        match self {
            Source::Absent => SourceModel::Absent,
            Source::Unreadable { path, reason } => SourceModel::Unreadable {
                path: path@,
                reason: reason@,
            },
            Source::Loaded(partial) => SourceModel::Loaded(partial@),
        }
    }
}

/// The model of the outcome of a load.
pub open spec fn loaded_model(r: Result<Config, ConfigError>) -> Result<
    ConfigModel,
    ConfigErrorModel,
> {
    match r {
        Ok(c) => Ok(c@),
        Err(e) => Err(e@),
    }
}

/// What the global source contributes: itself where it was read, nothing
/// where it is absent or unreadable.
pub open spec fn global_part(global: SourceModel) -> PartialModel {
    match global {
        SourceModel::Loaded(p) => p,
        _ => PartialModel::empty(),
    }
}

/// The configuration that a global and a local source amount to.
pub open spec fn load_outcome(global: SourceModel, local: SourceModel) -> Result<
    ConfigModel,
    ConfigErrorModel,
> {
    match local {
        SourceModel::Loaded(p) => global_part(global).merge(p).into_config(),
        SourceModel::Unreadable { path, reason } => Err(
            ConfigErrorModel::Unreadable { path, reason },
        ),
        SourceModel::Absent => if global is Absent {
            Err(ConfigErrorModel::NoConfigurationFound)
        } else {
            global_part(global).into_config()
        },
    }
}

/// The first of three places that has a local source: the path that the
/// caller gave, the working directory, the user's configuration directory.
pub open spec fn first_place(
    explicit: Option<String>,
    working: Option<String>,
    user: Option<String>,
) -> Option<String> {
    if explicit.is_some() {
        explicit
    } else if working.is_some() {
        working
    } else {
        user
    }
}

/// Merging keeps every name of either table and lets the later source win:
/// a name is in a merged table exactly if it is in the earlier or in the
/// later one; under a name of the later table stands the later value, and
/// under a name of the earlier table alone the earlier value. A default of
/// the later source replaces the earlier one, and where the later source has
/// none the earlier one stays.
pub proof fn lemma_merge_later_wins(earlier: PartialModel, later: PartialModel, name: Seq<char>)
    ensures
        ({
            let a = entries_or_none(earlier.system_prompts);
            let b = entries_or_none(later.system_prompts);
            let m = entries_or_none(earlier.merge(later).system_prompts);
            &&& m.contains_key(name) <==> a.contains_key(name) || b.contains_key(name)
            &&& b.contains_key(name) ==> m[name] == b[name]
            &&& a.contains_key(name) && !b.contains_key(name) ==> m[name] == a[name]
        }),
        ({
            let a = entries_or_none(earlier.services);
            let b = entries_or_none(later.services);
            let m = entries_or_none(earlier.merge(later).services);
            &&& m.contains_key(name) <==> a.contains_key(name) || b.contains_key(name)
            &&& b.contains_key(name) ==> m[name] == b[name]
            &&& a.contains_key(name) && !b.contains_key(name) ==> m[name] == a[name]
        }),
        later.default_service.is_some() ==> earlier.merge(later).default_service
            == later.default_service,
        later.default_service.is_none() ==> earlier.merge(later).default_service
            == earlier.default_service,
        later.default_prompt.is_some() ==> earlier.merge(later).default_prompt
            == later.default_prompt,
        later.default_prompt.is_none() ==> earlier.merge(later).default_prompt
            == earlier.default_prompt,
{
}

fn extended<V>(earlier: Option<Table<V>>, later: Option<Table<V>>) -> (r: Option<Table<V>>)
    ensures
        map_of(r) == later_entries(map_of(earlier), map_of(later)),
{
    match later {
        Some(later) => {
            let mut current = match earlier {
                Some(t) => t,
                None => Table::new(),
            };
            current.extend(later);
            Some(current)
        },
        None => earlier,
    }
}

impl PartialConfig {
    /// The source that gives nothing.
    pub fn new() -> (r: PartialConfig)
        ensures
            r@ == PartialModel::empty(),
    {
        PartialConfig {
            default_service: None,
            default_prompt: None,
            system_prompts: None,
            services: None,
        }
    }

    /// This source overridden by the later source `other`: a default of
    /// `other` replaces this one's, and the entries of a table of `other`
    /// are put into this one's.
    pub fn merge(self, other: PartialConfig) -> (r: PartialConfig)
        ensures
            r@ == self@.merge(other@),
    {
        let default_service = match other.default_service {
            Some(s) => Some(s),
            None => self.default_service,
        };
        let default_prompt = match other.default_prompt {
            Some(s) => Some(s),
            None => self.default_prompt,
        };
        let system_prompts = extended(self.system_prompts, other.system_prompts);
        let services = extended(self.services, other.services);
        PartialConfig { default_service, default_prompt, system_prompts, services }
    }

    /// The complete configuration that this source amounts to. A missing
    /// default service or default prompt is an error; a missing table is
    /// empty.
    pub fn try_into_config(self) -> (r: Result<Config, ConfigError>)
        ensures
            loaded_model(r) == self@.into_config(),
    {
        let default_service = match self.default_service {
            Some(s) => s,
            None => { return Err(ConfigError::MissingDefaultService); },
        };
        let default_prompt = match self.default_prompt {
            Some(s) => s,
            None => { return Err(ConfigError::MissingDefaultPrompt); },
        };
        let system_prompts = match self.system_prompts {
            Some(t) => t,
            None => Table::new(),
        };
        let services = match self.services {
            Some(t) => t,
            None => Table::new(),
        };
        Ok(Config { default_service, default_prompt, system_prompts, services })
    }
}

impl Default for PartialConfig {
    fn default() -> (r: PartialConfig)
        ensures
            r@ == PartialModel::empty(),
    {
        PartialConfig::new()
    }
}

impl Config {
    /// The place of the local source: the first that has one of the path
    /// that the caller gave, the working directory and the user's
    /// configuration directory.
    pub fn local_place(
        explicit: Option<String>,
        working: Option<String>,
        user: Option<String>,
    ) -> (r: Option<String>)
        ensures
            r == first_place(explicit, working, user),
    {
        if explicit.is_some() {
            explicit
        } else if working.is_some() {
            working
        } else {
            user
        }
    }

    /// The configuration that the global source and the local source amount
    /// to, the local one overriding the global one.
    ///
    /// A global source that is unreadable was found and is passed over: it
    /// gives nothing. A local source that is unreadable is an error. Where
    /// neither source was found, no configuration is found.
    pub fn load(global: Source, local: Source) -> (r: Result<Config, ConfigError>)
        ensures
            loaded_model(r) == load_outcome(global@, local@),
    {
        let (merged, found) = match global {
            Source::Loaded(partial) => (partial, true),
            Source::Unreadable { .. } => (PartialConfig::new(), true),
            Source::Absent => (PartialConfig::new(), false),
        };
        match local {
            Source::Loaded(partial) => merged.merge(partial).try_into_config(),
            Source::Unreadable { path, reason } => Err(ConfigError::Unreadable { path, reason }),
            Source::Absent => {
                if found {
                    merged.try_into_config()
                } else {
                    Err(ConfigError::NoConfigurationFound)
                }
            },
        }
    }
}

} // verus!
