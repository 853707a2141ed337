use vstd::prelude::*;

use crate::error::UnraidError;

verus! {

/// What a stored profile or a resolved endpoint amounts to: a URL and an
/// API key, as sequences of characters.
#[verifier::ext_equal]
pub struct EndpointView {
    pub url: Seq<char>,
    pub api_key: Seq<char>,
}

/// A stored server endpoint: where to reach it and how to authenticate.
#[derive(Debug, Clone)]
pub struct ServerConfig {
    pub url: String,
    pub api_key: String,
}

impl View for ServerConfig {
    type V = EndpointView;

    open spec fn view(&self) -> EndpointView {
        EndpointView { url: self.url@, api_key: self.api_key@ }
    }
}

/// One named profile of the store.
#[derive(Debug, Clone)]
pub struct ServerEntry {
    pub name: String,
    pub config: ServerConfig,
}

/// The profile store: named server profiles and an optional default pointer.
///
/// Profiles are held as a list of entries whose names are pairwise distinct
/// (`wf`), so the list denotes a mapping from names to endpoints; `lookup`
/// is that mapping.
#[derive(Debug, Clone)]
pub struct Config {
    pub default: Option<String>,
    pub servers: Vec<ServerEntry>,
}

/// The endpoint stored under `name`: that of the first entry so named.
pub open spec fn lookup(entries: Seq<ServerEntry>, name: Seq<char>) -> Option<EndpointView>
    decreases entries.len(),
{
    if entries.len() == 0 {
        None
    } else if entries[0].name@ == name {
        Some(entries[0].config@)
    } else {
        lookup(entries.drop_first(), name)
    }
}

/// The view of an optional borrowed string.
pub open spec fn opt_str_view(o: Option<&str>) -> Option<Seq<char>> {
    match o {
        Some(s) => Some(s@),
        None => None,
    }
}

proof fn lemma_lookup_first(entries: Seq<ServerEntry>, name: Seq<char>, i: int)
    requires
        0 <= i <= entries.len(),
        forall|j: int| 0 <= j < i ==> entries[j].name@ != name,
        i < entries.len() ==> entries[i].name@ == name,
    ensures
        i < entries.len() ==> lookup(entries, name) == Some(entries[i].config@),
        i == entries.len() ==> lookup(entries, name) is None,
    decreases i, entries.len(),
{
    if entries.len() == 0 {
    } else if i == 0 {
    } else {
        assert(forall|j: int|
            0 <= j < i - 1 ==> entries.drop_first()[j].name@ == entries[j + 1].name@);
        lemma_lookup_first(entries.drop_first(), name, i - 1);
    }
}

proof fn lemma_lookup_update(entries: Seq<ServerEntry>, i: int, e: ServerEntry, n: Seq<char>)
    requires
        0 <= i < entries.len(),
        entries[i].name@ == e.name@,
        forall|j: int| 0 <= j < i ==> entries[j].name@ != e.name@,
    ensures
        lookup(entries.update(i, e), n) == if n == e.name@ {
            Some(e.config@)
        } else {
            lookup(entries, n)
        },
    decreases i,
{
    let updated = entries.update(i, e);
    if i == 0 {
        if n != e.name@ {
            assert(updated.drop_first() =~= entries.drop_first());
        }
    } else {
        assert(updated[0] == entries[0]);
        if n == entries[0].name@ {
        } else {
            assert(updated.drop_first() =~= entries.drop_first().update(i - 1, e));
            lemma_lookup_update(entries.drop_first(), i - 1, e, n);
        }
    }
}

proof fn lemma_lookup_push(entries: Seq<ServerEntry>, e: ServerEntry, n: Seq<char>)
    ensures
        lookup(entries.push(e), n) == if lookup(entries, n) is Some {
            lookup(entries, n)
        } else if n == e.name@ {
            Some(e.config@)
        } else {
            None
        },
    decreases entries.len(),
{
    let pushed = entries.push(e);
    if entries.len() == 0 {
        assert(pushed[0] == e);
        assert(pushed.drop_first() =~= Seq::<ServerEntry>::empty());
        assert(lookup(pushed.drop_first(), n) is None);
        assert(lookup(entries, n) is None);
    } else {
        assert(pushed[0] == entries[0]);
        if entries[0].name@ == n {
            assert(lookup(pushed, n) == Some(entries[0].config@));
            assert(lookup(entries, n) == Some(entries[0].config@));
        } else {
            assert(pushed.drop_first() =~= entries.drop_first().push(e));
            lemma_lookup_push(entries.drop_first(), e, n);
            assert(lookup(pushed, n) == lookup(pushed.drop_first(), n));
            assert(lookup(entries, n) == lookup(entries.drop_first(), n));
        }
    }
}

proof fn lemma_lookup_remove(entries: Seq<ServerEntry>, i: int, n: Seq<char>)
    requires
        0 <= i < entries.len(),
        forall|j: int|
            0 <= j < entries.len() && j != i ==> entries[j].name@ != entries[i].name@,
    ensures
        lookup(entries.remove(i), n) == if n == entries[i].name@ {
            None
        } else {
            lookup(entries, n)
        },
    decreases entries.len(),
{
    let removed = entries.remove(i);
    if i == 0 {
        assert(removed =~= entries.drop_first());
        if n == entries[0].name@ {
            assert(forall|j: int|
                0 <= j < entries.drop_first().len() ==> entries.drop_first()[j].name@
                    == entries[j + 1].name@);
            lemma_lookup_first(entries.drop_first(), n, entries.drop_first().len() as int);
        }
    } else {
        assert(removed[0] == entries[0]);
        if n != entries[0].name@ {
            assert(removed.drop_first() =~= entries.drop_first().remove(i - 1));
            assert(forall|j: int|
                0 <= j < entries.drop_first().len() ==> entries.drop_first()[j]
                    == entries[j + 1]);
            lemma_lookup_remove(entries.drop_first(), i - 1, n);
        }
    }
}

/// Finds the first entry named `name`, with the facts `lookup` draws from it.
fn index_of(entries: &Vec<ServerEntry>, name: &String) -> (r: Option<usize>)
    ensures
        match r {
            Some(i) => i < entries@.len() && entries@[i as int].name@ == name@ && (forall|j: int|
                0 <= j < i ==> entries@[j].name@ != name@) && lookup(entries@, name@) == Some(
                entries@[i as int].config@,
            ),
            None => lookup(entries@, name@) is None && (forall|j: int|
                0 <= j < entries@.len() ==> entries@[j].name@ != name@),
        },
{
    let mut i: usize = 0;
    while i < entries.len()
        invariant
            0 <= i <= entries@.len(),
            forall|j: int| 0 <= j < i ==> entries@[j].name@ != name@,
        decreases entries@.len() - i,
    {
        if entries[i].name == *name {
            proof {
                lemma_lookup_first(entries@, name@, i as int);
            }
            return Some(i);
        }
        i = i + 1;
    }
    proof {
        lemma_lookup_first(entries@, name@, entries@.len() as int);
    }
    None
}

impl Config {
    /// Profile names are pairwise distinct, so the entry list denotes a map.
    pub open spec fn wf(self) -> bool {
        forall|i: int, j: int|
            0 <= i < j < self.servers@.len() ==> self.servers@[i].name@ != self.servers@[j].name@
    }

    /// The default profile name, if one is recorded.
    pub open spec fn default_name(self) -> Option<Seq<char>> {
        match self.default {
            Some(d) => Some(d@),
            None => None,
        }
    }

    /// The endpoint that `get_server` selects: the named profile, or the
    /// default profile when no name is given.
    pub open spec fn get_spec(self, name: Option<Seq<char>>) -> Option<EndpointView> {
        match name {
            Some(n) => lookup(self.servers@, n),
            None => match self.default_name() {
                Some(d) => lookup(self.servers@, d),
                None => None,
            },
        }
    }

    /// Looks up a profile by name, falling back to the default profile.
    pub fn get_server(&self, name: Option<&str>) -> (r: Option<&ServerConfig>)
        ensures
            match r {
                Some(sc) => self.get_spec(opt_str_view(name)) == Some(sc@),
                None => self.get_spec(opt_str_view(name)) is None,
            },
    {
        let target: String = match name {
            Some(n) => n.to_owned(),
            None => match &self.default {
                Some(d) => d.clone(),
                None => {
                    return None;
                },
            },
        };
        match index_of(&self.servers, &target) {
            Some(i) => Some(&self.servers[i].config),
            None => None,
        }
    }

    /// Stores `url` and `api_key` under `name`, replacing any profile of that
    /// name and touching nothing else.
    pub fn add_server(&mut self, name: String, url: String, api_key: String)
        requires
            old(self).wf(),
        ensures
            final(self).wf(),
            lookup(final(self).servers@, name@) == Some(
                EndpointView { url: url@, api_key: api_key@ },
            ),
            forall|n: Seq<char>|
                n != name@ ==> #[trigger] lookup(final(self).servers@, n) == lookup(
                    old(self).servers@,
                    n,
                ),
            final(self).default == old(self).default,
    {
        let entry = ServerEntry { name, config: ServerConfig { url, api_key } };
        match index_of(&self.servers, &entry.name) {
            Some(i) => {
                proof {
                    lemma_lookup_update(self.servers@, i as int, entry, entry.name@);
                }
                let ghost old_servers = self.servers@;
                let ghost e = entry;
                self.servers[i] = entry;
                proof {
                    assert forall|n: Seq<char>| n != e.name@ implies #[trigger] lookup(
                        self.servers@,
                        n,
                    ) == lookup(old_servers, n) by {
                        lemma_lookup_update(old_servers, i as int, e, n);
                    }
                    assert(forall|j: int|
                        0 <= j < self.servers@.len() ==> self.servers@[j].name@ == old_servers[
                            j
                        ].name@);
                }
            },
            None => {
                let ghost old_servers = self.servers@;
                let ghost e = entry;
                self.servers.push(entry);
                proof {
                    assert forall|n: Seq<char>| true implies #[trigger] lookup(self.servers@, n)
                        == if lookup(old_servers, n) is Some {
                        lookup(old_servers, n)
                    } else if n == e.name@ {
                        Some(e.config@)
                    } else {
                        None
                    } by {
                        lemma_lookup_push(old_servers, e, n);
                    }
                    lemma_lookup_first(old_servers, e.name@, old_servers.len() as int);
                }
            },
        }
    }

    /// Deletes the profile named `name`, reporting whether one existed, and
    /// clears the default pointer when it pointed at `name`.
    pub fn remove_server(&mut self, name: &str) -> (r: bool)
        requires
            old(self).wf(),
        ensures
            final(self).wf(),
            r == (lookup(old(self).servers@, name@) is Some),
            lookup(final(self).servers@, name@) is None,
            forall|n: Seq<char>|
                n != name@ ==> #[trigger] lookup(final(self).servers@, n) == lookup(
                    old(self).servers@,
                    n,
                ),
            old(self).default_name() == Some(name@) ==> final(self).default is None,
            old(self).default_name() != Some(name@) ==> final(self).default == old(self).default,
    {
        let target = name.to_owned();
        let removed = match index_of(&self.servers, &target) {
            Some(i) => {
                let ghost old_servers = self.servers@;
                self.servers.remove(i);
                proof {
                    assert forall|n: Seq<char>| true implies #[trigger] lookup(self.servers@, n)
                        == if n == target@ {
                        None
                    } else {
                        lookup(old_servers, n)
                    } by {
                        lemma_lookup_remove(old_servers, i as int, n);
                    }
                    assert(forall|j: int|
                        0 <= j < self.servers@.len() ==> self.servers@[j] == if j < i {
                            old_servers[j]
                        } else {
                            old_servers[j + 1]
                        });
                }
                true
            },
            None => false,
        };
        let clear = match &self.default {
            Some(d) => *d == target,
            None => false,
        };
        if clear {
            self.default = None;
        }
        removed
    }

    /// Marks `name` as the default profile; an unknown name is rejected and
    /// the store is left exactly as it was.
    pub fn set_default(&mut self, name: &str) -> (r: Result<(), UnraidError>)
        ensures
            r is Ok <==> lookup(old(self).servers@, name@) is Some,
            r is Ok ==> final(self).default_name() == Some(name@) && final(self).servers@ == old(
                self,
            ).servers@,
            r is Err ==> *final(self) == *old(self) && (r->Err_0 matches
                UnraidError::ServerNotFound { name: en } && en@ == name@),
    {
        let target = name.to_owned();
        match index_of(&self.servers, &target) {
            Some(_) => {
                self.default = Some(target);
                Ok(())
            },
            None => Err(UnraidError::ServerNotFound { name: target }),
        }
    }
}

impl Default for Config {
    /// The empty store: no profiles and no default pointer, the state a
    /// missing config file denotes.
    fn default() -> (r: Self)
        ensures
            r.default is None,
            r.servers@.len() == 0,
            r.wf(),
    {
        Config { default: None, servers: Vec::new() }
    }
}

/// The endpoint chosen for one invocation after merging every source.
#[derive(Debug, Clone)]
pub struct ResolvedConfig {
    pub url: String,
    pub api_key: String,
}

impl View for ResolvedConfig {
    type V = EndpointView;

    open spec fn view(&self) -> EndpointView {
        EndpointView { url: self.url@, api_key: self.api_key@ }
    }
}

/// The endpoint the three-tier priority order yields, or `None` when no
/// source provides one: a complete CLI pair wins outright; otherwise a
/// complete environment pair, with any single CLI value overriding its
/// field; otherwise the profile named by the CLI, the environment, or the
/// store's default, again with single CLI values overriding fields.
pub open spec fn resolve_spec(
    cli_server: Option<Seq<char>>,
    cli_url: Option<Seq<char>>,
    cli_api_key: Option<Seq<char>>,
    env_server: Option<Seq<char>>,
    env_url: Option<Seq<char>>,
    env_api_key: Option<Seq<char>>,
    config: Config,
) -> Option<EndpointView> {
    if cli_url is Some && cli_api_key is Some {
        Some(EndpointView { url: cli_url->0, api_key: cli_api_key->0 })
    } else if env_url is Some && env_api_key is Some {
        Some(
            EndpointView {
                url: if cli_url is Some {
                    cli_url->0
                } else {
                    env_url->0
                },
                api_key: if cli_api_key is Some {
                    cli_api_key->0
                } else {
                    env_api_key->0
                },
            },
        )
    } else {
        let selected = if cli_server is Some {
            cli_server
        } else if env_server is Some {
            env_server
        } else {
            config.default_name()
        };
        match selected {
            Some(n) => match lookup(config.servers@, n) {
                Some(sc) => Some(
                    EndpointView {
                        url: if cli_url is Some {
                            cli_url->0
                        } else {
                            sc.url
                        },
                        api_key: if cli_api_key is Some {
                            cli_api_key->0
                        } else {
                            sc.api_key
                        },
                    },
                ),
                None => None,
            },
            None => None,
        }
    }
}

/// Whether `resolve` will have to consult the profile store: only when
/// neither the CLI pair nor the environment pair is complete.
pub fn needs_config_file(
    cli_url: Option<&str>,
    cli_api_key: Option<&str>,
    env_url: Option<&str>,
    env_api_key: Option<&str>,
) -> (b: bool)
    ensures
        b == !((cli_url is Some && cli_api_key is Some) || (env_url is Some
            && env_api_key is Some)),
{
    !((cli_url.is_some() && cli_api_key.is_some()) || (env_url.is_some() && env_api_key.is_some()))
}

impl ResolvedConfig {
    /// Merges CLI values, environment values and the profile store under the
    /// priority order that `resolve_spec` states. When neither pair nor any
    /// profile applies, fails with `NoServerConfigured`; the `config`
    /// argument is consulted only when `needs_config_file` says so.
    pub fn resolve(
        cli_server: Option<&str>,
        cli_url: Option<&str>,
        cli_api_key: Option<&str>,
        env_server: Option<&str>,
        env_url: Option<&str>,
        env_api_key: Option<&str>,
        config: &Config,
    ) -> (r: Result<ResolvedConfig, UnraidError>)
        ensures
            ({
                let outcome = resolve_spec(
                    opt_str_view(cli_server),
                    opt_str_view(cli_url),
                    opt_str_view(cli_api_key),
                    opt_str_view(env_server),
                    opt_str_view(env_url),
                    opt_str_view(env_api_key),
                    *config,
                );
                match r {
                    Ok(rc) => outcome == Some(rc@),
                    Err(e) => outcome is None && e is NoServerConfigured,
                }
            }),
            cli_url is Some && cli_api_key is Some ==> (r matches Ok(rc) && rc.url@ == cli_url->0@
                && rc.api_key@ == cli_api_key->0@),
            cli_url is None && cli_api_key is None && env_url is Some && env_api_key is Some ==> (r
                matches Ok(rc) && rc.url@ == env_url->0@ && rc.api_key@ == env_api_key->0@),
            cli_url is Some && cli_api_key is None && env_url is Some && env_api_key is Some ==> (r
                matches Ok(rc) && rc.url@ == cli_url->0@ && rc.api_key@ == env_api_key->0@),
    {
        if let (Some(url), Some(api_key)) = (cli_url, cli_api_key) {
            return Ok(ResolvedConfig { url: url.to_owned(), api_key: api_key.to_owned() });
        }
        if let (Some(url), Some(api_key)) = (env_url, env_api_key) {
            let chosen_url = match cli_url {
                Some(u) => u,
                None => url,
            };
            let chosen_key = match cli_api_key {
                Some(k) => k,
                None => api_key,
            };
            return Ok(
                ResolvedConfig { url: chosen_url.to_owned(), api_key: chosen_key.to_owned() },
            );
        }
        let server_name = match cli_server {
            Some(s) => Some(s),
            None => env_server,
        };
        if let Some(server) = config.get_server(server_name) {
            let chosen_url = match cli_url {
                Some(u) => u.to_owned(),
                None => server.url.clone(),
            };
            let chosen_key = match cli_api_key {
                Some(k) => k.to_owned(),
                None => server.api_key.clone(),
            };
            return Ok(ResolvedConfig { url: chosen_url, api_key: chosen_key });
        }
        Err(UnraidError::NoServerConfigured)
    }
}

} // verus!
