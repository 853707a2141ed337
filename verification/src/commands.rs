use vstd::prelude::*;

use crate::config::Config;
use crate::config::EndpointView;
use crate::config::lookup;
use crate::error::UnraidError;
use crate::text::mask_api_key;
use crate::text::masked_key;

verus! {

/// The configuration subcommands of the CLI surface.
#[derive(Debug)]
pub enum ConfigCommands {
    /// Store a profile under `name`.
    Add { name: String, url: String, api_key: String },
    /// Delete the profile named `name`.
    Remove { name: String },
    /// Mark the profile named `name` as the default.
    Default { name: String },
    /// Show every stored profile.
    List,
}

/// The container subcommands of the CLI surface.
#[derive(Debug)]
pub enum DockerCommands {
    /// List containers; only running ones unless `all` is set.
    ListContainers { all: bool },
    /// Start the container named `name`.
    Start { name: String },
    /// Stop the container named `name`.
    Stop { name: String },
    /// Stop, then start, the container named `name`.
    Restart { name: String },
    /// Update the container named `name` to its latest image.
    Update { name: String },
}

/// One line of the profile listing: the profile's name, its URL, its key
/// masked for display, and whether it is the default.
#[derive(Debug, Clone)]
pub struct ServerListing {
    pub name: String,
    pub url: String,
    pub masked_key: String,
    pub is_default: bool,
}

/// What a configuration command did to the store, and what there is to show.
#[derive(Debug)]
pub enum ConfigOutcome {
    /// `name` was stored; `set_default` tells whether it became the default
    /// as the first profile added.
    Added { name: String, set_default: bool },
    /// Whether a profile named `name` existed and was deleted.
    Removed { name: String, existed: bool },
    /// `name` became the default profile.
    DefaultSet { name: String },
    /// One listing per stored profile, in store order.
    Listing { entries: Vec<ServerListing> },
}

impl ConfigOutcome {
    /// Whether the outcome changed the store.
    pub open spec fn must_save_spec(self) -> bool {
        match self {
            ConfigOutcome::Added { .. } => true,
            ConfigOutcome::Removed { existed, .. } => existed,
            ConfigOutcome::DefaultSet { .. } => true,
            ConfigOutcome::Listing { .. } => false,
        }
    }

    /// Whether the store changed and has to be written back.
    pub fn must_save(&self) -> (b: bool)
        ensures
            b == self.must_save_spec(),
    {
        match self {
            ConfigOutcome::Added { .. } => true,
            ConfigOutcome::Removed { existed, .. } => *existed,
            ConfigOutcome::DefaultSet { .. } => true,
            ConfigOutcome::Listing { .. } => false,
        }
    }
}

/// Applies one configuration command to the store and reports the outcome:
/// `Add` upserts (the first profile added becomes the default), `Remove`
/// deletes and clears a default pointing at the removed name, `Default`
/// rejects unknown names leaving the store untouched, and `List` renders the
/// profiles without changing anything.
pub fn handle_config_command(cmd: ConfigCommands, config: &mut Config) -> (r: Result<
    ConfigOutcome,
    UnraidError,
>)
    requires
        old(config).wf(),
    ensures
        final(config).wf(),
        cmd matches ConfigCommands::Add { name, url, api_key } ==> (r matches Ok(o) && (o matches
            ConfigOutcome::Added { name: on, set_default } && on@ == name@ && set_default == (old(
            config,
        ).servers@.len() == 0)) && lookup(final(config).servers@, name@) == Some(
            EndpointView { url: url@, api_key: api_key@ },
        ) && (forall|n: Seq<char>|
            n != name@ ==> #[trigger] lookup(final(config).servers@, n) == lookup(
                old(config).servers@,
                n,
            )) && final(config).default_name() == (if old(config).servers@.len() == 0 {
            Some(name@)
        } else {
            old(config).default_name()
        })),
        cmd matches ConfigCommands::Remove { name } ==> (r matches Ok(o) && (o matches
            ConfigOutcome::Removed { name: on, existed } && on@ == name@ && existed == (lookup(
            old(config).servers@,
            name@,
        ) is Some)) && lookup(final(config).servers@, name@) is None && (forall|n: Seq<char>|
            n != name@ ==> #[trigger] lookup(final(config).servers@, n) == lookup(
                old(config).servers@,
                n,
            )) && (old(config).default_name() == Some(name@) ==> final(config).default is None) && (
        old(config).default_name() != Some(name@) ==> final(config).default == old(
            config,
        ).default)),
        cmd matches ConfigCommands::Default { name } ==> ((lookup(old(config).servers@, name@)
            is Some ==> (r matches Ok(o) && (o matches ConfigOutcome::DefaultSet { name: on } && on@
            == name@) && final(config).default_name() == Some(name@) && final(config).servers@
            == old(config).servers@)) && (lookup(old(config).servers@, name@) is None ==> (r
            matches Err(e) && (e matches UnraidError::ServerNotFound { name: en } && en@ == name@)
            && *final(config) == *old(config)))),
        cmd is List ==> ((r matches Ok(o) && (o matches ConfigOutcome::Listing { entries }
            && entries@.len() == old(config).servers@.len() && (forall|k: int|
            0 <= k < entries@.len() ==> {
                let e = #[trigger] entries@[k];
                let s = old(config).servers@[k];
                e.name@ == s.name@ && e.url@ == s.config.url@ && e.masked_key@ == masked_key(
                    s.config.api_key@,
                ) && e.is_default == (old(config).default_name() == Some(s.name@))
            }))) && *final(config) == *old(config)),
{
    match cmd {
        ConfigCommands::Add { name, url, api_key } => {
            let is_first = config.servers.len() == 0;
            let name_copy = name.clone();
            config.add_server(name, url, api_key);
            if is_first {
                config.default = Some(name_copy.clone());
            }
            Ok(ConfigOutcome::Added { name: name_copy, set_default: is_first })
        },
        ConfigCommands::Remove { name } => {
            let existed = config.remove_server(name.as_str());
            Ok(ConfigOutcome::Removed { name, existed })
        },
        ConfigCommands::Default { name } => {
            match config.set_default(name.as_str()) {
                Ok(()) => Ok(ConfigOutcome::DefaultSet { name }),
                Err(e) => Err(e),
            }
        },
        ConfigCommands::List => {
            let mut entries: Vec<ServerListing> = Vec::new();
            let mut i: usize = 0;
            while i < config.servers.len()
                invariant
                    0 <= i <= config.servers@.len(),
                    entries@.len() == i,
                    forall|k: int|
                        0 <= k < i ==> {
                            let e = #[trigger] entries@[k];
                            let s = config.servers@[k];
                            e.name@ == s.name@ && e.url@ == s.config.url@ && e.masked_key@
                                == masked_key(s.config.api_key@) && e.is_default == (
                            config.default_name() == Some(s.name@))
                        },
                decreases config.servers@.len() - i,
            {
                let entry = &config.servers[i];
                let is_default = match &config.default {
                    Some(d) => *d == entry.name,
                    None => false,
                };
                let listing = ServerListing {
                    name: entry.name.clone(),
                    url: entry.config.url.clone(),
                    masked_key: mask_api_key(entry.config.api_key.as_str()),
                    is_default,
                };
                entries.push(listing);
                i = i + 1;
            }
            Ok(ConfigOutcome::Listing { entries })
        },
    }
}

} // verus!
