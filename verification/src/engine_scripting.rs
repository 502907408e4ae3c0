//! .NET script host configuration and its hot-reload session.

use vstd::prelude::*;
use vstd::string::StringExecFns;

verus! {

/// Why a scripting operation was refused.
#[derive(Debug, Clone, Copy, PartialEq, Eq, Structural)]
pub enum ScriptError {
    /// The script assembly was given an empty path.
    MissingAssemblyPath,
    /// Hot reload was requested while the runtime config disables it.
    HotReloadDisabled,
}

impl ScriptError {
    /// The message that describes the error.
    pub fn message(&self) -> (text: String)
        ensures
            text@ == script_error_message(*self),
    {
        match self {
            ScriptError::MissingAssemblyPath => String::from_str("script assembly has no path"),
            ScriptError::HotReloadDisabled => String::from_str("script hot reload is not enabled"),
        }
    }
}

/// The message of each scripting error.
pub open spec fn script_error_message(e: ScriptError) -> Seq<char> {
    match e {
        ScriptError::MissingAssemblyPath => "script assembly has no path"@,
        ScriptError::HotReloadDisabled => "script hot reload is not enabled"@,
    }
}

/// Which .NET runtime to host and how.
#[derive(Debug, Clone)]
pub struct DotNetRuntimeConfig {
    pub target_framework: String,
    pub runtime_config_path: Option<String>,
    pub enable_hot_reload: bool,
}

impl DotNetRuntimeConfig {
    /// .NET 10 (LTS) with hot reload on and no explicit runtime config file.
    pub fn dotnet_10_lts() -> (config: Self)
        ensures
            config.target_framework@ == "net10.0"@,
            config.runtime_config_path is None,
            config.enable_hot_reload,
    {
        DotNetRuntimeConfig {
            target_framework: String::from_str("net10.0"),
            runtime_config_path: None,
            enable_hot_reload: true,
        }
    }
}

/// A managed assembly holding game scripts.
#[derive(Debug, Clone)]
pub struct ScriptAssembly {
    pub name: String,
    pub path: String,
}

impl ScriptAssembly {
    /// An assembly at a path; an empty path is refused.
    pub fn new(name: &str, path: &str) -> (result: Result<Self, ScriptError>)
        ensures
            result is Err <==> path@.len() == 0,
            match result {
                Ok(assembly) => assembly.name@ == name@ && assembly.path@ == path@,
                Err(e) => e == ScriptError::MissingAssemblyPath,
            },
    {
        if path.is_empty() {
            return Err(ScriptError::MissingAssemblyPath);
        }
        Ok(ScriptAssembly { name: String::from_str(name), path: String::from_str(path) })
    }
}

/// How far the host has come in loading scripts.
#[derive(Debug, Clone)]
pub enum ScriptHostState {
    Created,
    RuntimeLoaded,
    AssemblyLoaded(ScriptAssembly),
}

/// A proof that a hot reload began, carrying its generation number.
#[derive(Debug, Clone, Copy, PartialEq, Eq, Structural)]
pub struct HotReloadToken {
    pub generation: u64,
}

/// The outcome of asking for a hot reload when reloading is `enabled` and
/// `generation` reloads have happened so far.
pub open spec fn hot_reload_outcome(enabled: bool, generation: u64) -> Result<
    HotReloadToken,
    ScriptError,
> {
    if !enabled {
        Err(ScriptError::HotReloadDisabled)
    } else {
        Ok(HotReloadToken { generation: (generation + 1) as u64 })
    }
}

/// The reload count after asking for a hot reload.
pub open spec fn generation_after_hot_reload(enabled: bool, generation: u64) -> u64 {
    if enabled {
        (generation + 1) as u64
    } else {
        generation
    }
}

/// The host of the CoreCLR runtime that runs game scripts.
#[derive(Debug)]
pub struct CoreClrScriptHost {
    config: DotNetRuntimeConfig,
    state: ScriptHostState,
    reload_generation: u64,
}

impl CoreClrScriptHost {
    pub closed spec fn spec_config(&self) -> DotNetRuntimeConfig {
        self.config
    }

    pub closed spec fn spec_state(&self) -> ScriptHostState {
        self.state
    }

    pub closed spec fn spec_generation(&self) -> u64 {
        self.reload_generation
    }

    pub fn new(config: DotNetRuntimeConfig) -> (host: Self)
        ensures
            host.spec_config() == config,
            host.spec_state() is Created,
            host.spec_generation() == 0,
    {
        CoreClrScriptHost { config, state: ScriptHostState::Created, reload_generation: 0 }
    }

    pub fn load_runtime(&mut self)
        ensures
            final(self).spec_state() is RuntimeLoaded,
            final(self).spec_config() == old(self).spec_config(),
            final(self).spec_generation() == old(self).spec_generation(),
    {
        self.state = ScriptHostState::RuntimeLoaded;
    }

    pub fn load_assembly(&mut self, assembly: ScriptAssembly)
        ensures
            final(self).spec_state() == ScriptHostState::AssemblyLoaded(assembly),
            final(self).spec_config() == old(self).spec_config(),
            final(self).spec_generation() == old(self).spec_generation(),
    {
        self.state = ScriptHostState::AssemblyLoaded(assembly);
    }

    /// Begins a hot reload: refused when the config disables hot reload,
    /// otherwise the reload count goes up by one and the token carries it.
    pub fn begin_hot_reload(&mut self) -> (result: Result<HotReloadToken, ScriptError>)
        requires
            old(self).spec_config().enable_hot_reload ==> old(self).spec_generation() < u64::MAX,
        ensures
            result == hot_reload_outcome(
                old(self).spec_config().enable_hot_reload,
                old(self).spec_generation(),
            ),
            final(self).spec_generation() == generation_after_hot_reload(
                old(self).spec_config().enable_hot_reload,
                old(self).spec_generation(),
            ),
            final(self).spec_config() == old(self).spec_config(),
            final(self).spec_state() == old(self).spec_state(),
    {
        if !self.config.enable_hot_reload {
            return Err(ScriptError::HotReloadDisabled);
        }
        self.reload_generation = self.reload_generation + 1;
        Ok(HotReloadToken { generation: self.reload_generation })
    }

    pub fn state(&self) -> (state: &ScriptHostState)
        ensures
            *state == self.spec_state(),
    {
        &self.state
    }

    pub fn reload_generation(&self) -> (generation: u64)
        ensures
            generation == self.spec_generation(),
    {
        self.reload_generation
    }
}

/// Each accepted hot reload hands out the next generation, so the tokens of
/// consecutive reloads are strictly increasing and one apart; the token always
/// equals the new reload count.
pub proof fn law_hot_reload_generations_advance(generation: u64)
    requires
        generation < u64::MAX - 1,
    ensures
        hot_reload_outcome(true, generation) == Ok::<HotReloadToken, ScriptError>(
            HotReloadToken { generation: generation_after_hot_reload(true, generation) },
        ),
        ({
            let second = generation_after_hot_reload(true, generation);
            hot_reload_outcome(true, second)->Ok_0.generation == hot_reload_outcome(
                true,
                generation,
            )->Ok_0.generation + 1
        }),
{
}

/// The reload count of a fresh host after `n` requests for a hot reload
/// (loading the runtime or an assembly in between leaves it as it is).
pub open spec fn generation_after_reloads(enabled: bool, n: nat) -> u64
    decreases n,
{
    if n == 0 {
        0
    } else {
        generation_after_hot_reload(enabled, generation_after_reloads(enabled, (n - 1) as nat))
    }
}

proof fn lemma_generation_after_reloads(enabled: bool, n: nat)
    requires
        n < u64::MAX,
    ensures
        generation_after_reloads(enabled, n) == (if enabled { n } else { 0 }),
    decreases n,
{
    if n > 0 {
        lemma_generation_after_reloads(enabled, (n - 1) as nat);
    }
}

/// Over any number of requests on a fresh host: after `n` requests the
/// reload count is `n` when hot reload is enabled and 0 when it is not, and
/// the `k`-th request hands out the token of generation `k` (or is refused
/// when hot reload is disabled). Each request finds the count below
/// `u64::MAX`, as `begin_hot_reload` requires.
pub proof fn law_hot_reload_sequence(enabled: bool, n: nat)
    requires
        n < u64::MAX,
    ensures
        generation_after_reloads(enabled, n) == (if enabled { n } else { 0 }),
        forall|k: nat|
            1 <= k <= n ==> {
                &&& generation_after_reloads(enabled, (k - 1) as nat) < u64::MAX
                &&& #[trigger] hot_reload_outcome(enabled, generation_after_reloads(enabled, (k - 1) as nat))
                    == if enabled {
                    Ok::<HotReloadToken, ScriptError>(HotReloadToken { generation: k as u64 })
                } else {
                    Err::<HotReloadToken, ScriptError>(ScriptError::HotReloadDisabled)
                }
            },
{
    lemma_generation_after_reloads(enabled, n);
    assert forall|k: nat| 1 <= k <= n implies {
        &&& generation_after_reloads(enabled, (k - 1) as nat) < u64::MAX
        &&& #[trigger] hot_reload_outcome(enabled, generation_after_reloads(enabled, (k - 1) as nat))
            == if enabled {
            Ok::<HotReloadToken, ScriptError>(HotReloadToken { generation: k as u64 })
        } else {
            Err::<HotReloadToken, ScriptError>(ScriptError::HotReloadDisabled)
        }
    } by {
        lemma_generation_after_reloads(enabled, (k - 1) as nat);
    }
}

/// The number of hot-reload requests among a run of host calls, where each
/// call is marked `true` for `begin_hot_reload` and `false` for loading the
/// runtime or an assembly.
pub open spec fn reload_requests(calls: Seq<bool>) -> nat
    decreases calls.len(),
{
    if calls.len() == 0 {
        0
    } else {
        reload_requests(calls.drop_last()) + if calls.last() {
            1nat
        } else {
            0nat
        }
    }
}

/// `hosts` are the states of one host across the run of calls `calls`: each
/// step keeps the config, and changes the reload count as `begin_hot_reload`
/// does when the call is a reload request, and not at all when it is a load
/// (the contracts of `begin_hot_reload`, `load_runtime` and `load_assembly`).
pub open spec fn host_run(hosts: Seq<CoreClrScriptHost>, calls: Seq<bool>) -> bool {
    &&& hosts.len() == calls.len() + 1
    &&& forall|i: int|
        0 <= i < calls.len() ==> {
            &&& #[trigger] hosts[i + 1].spec_config() == hosts[i].spec_config()
            &&& hosts[i + 1].spec_generation() == if calls[i] {
                generation_after_hot_reload(hosts[i].spec_config().enable_hot_reload, hosts[i].spec_generation())
            } else {
                hosts[i].spec_generation()
            }
        }
}

proof fn lemma_host_run_counts(hosts: Seq<CoreClrScriptHost>, calls: Seq<bool>, i: int)
    requires
        host_run(hosts, calls),
        hosts[0].spec_generation() == 0,
        calls.len() < u64::MAX,
        0 <= i <= calls.len(),
    ensures
        hosts[i].spec_config() == hosts[0].spec_config(),
        hosts[i].spec_generation() == generation_after_reloads(
            hosts[0].spec_config().enable_hot_reload,
            reload_requests(calls.take(i)),
        ),
        reload_requests(calls.take(i)) <= i,
    decreases i,
{
    if i > 0 {
        let j = i - 1;
        lemma_host_run_counts(hosts, calls, j);
        assert(calls.take(i).drop_last() =~= calls.take(j));
        assert(calls.take(i).last() == calls[j]);
        assert(hosts[j + 1].spec_config() == hosts[j].spec_config());
    } else {
        assert(calls.take(0) =~= Seq::<bool>::empty());
    }
}

/// The reload count of a host follows the requests made of it: over any run
/// of calls on a fresh host (reload count 0), interleaving hot-reload
/// requests with loads of the runtime or an assembly, after the first `i`
/// calls the count is the number of requests among them when the config
/// enables hot reload and 0 when it does not; and a request made after
/// `k - 1` earlier requests hands out the token of generation `k` (or is
/// refused when hot reload is disabled).
pub proof fn law_host_generation_counts_requests(hosts: Seq<CoreClrScriptHost>, calls: Seq<bool>)
    requires
        host_run(hosts, calls),
        hosts[0].spec_generation() == 0,
        calls.len() < u64::MAX,
    ensures
        forall|i: int|
            0 <= i <= calls.len() ==> #[trigger] hosts[i].spec_generation() == if hosts[0].spec_config().enable_hot_reload {
                reload_requests(calls.take(i)) as int
            } else {
                0
            },
        forall|i: int|
            0 <= i < calls.len() && #[trigger] calls[i] ==> hot_reload_outcome(
                hosts[i].spec_config().enable_hot_reload,
                hosts[i].spec_generation(),
            ) == if hosts[0].spec_config().enable_hot_reload {
                Ok::<HotReloadToken, ScriptError>(
                    HotReloadToken { generation: reload_requests(calls.take(i + 1)) as u64 },
                )
            } else {
                Err::<HotReloadToken, ScriptError>(ScriptError::HotReloadDisabled)
            },
{
    let enabled = hosts[0].spec_config().enable_hot_reload;
    assert forall|i: int| 0 <= i <= calls.len() implies #[trigger] hosts[i].spec_generation() == if enabled {
        reload_requests(calls.take(i)) as int
    } else {
        0
    } by {
        lemma_host_run_counts(hosts, calls, i);
        lemma_generation_after_reloads(enabled, reload_requests(calls.take(i)));
    }
    assert forall|i: int| 0 <= i < calls.len() && #[trigger] calls[i] implies hot_reload_outcome(
        hosts[i].spec_config().enable_hot_reload,
        hosts[i].spec_generation(),
    ) == if enabled {
        Ok::<HotReloadToken, ScriptError>(
            HotReloadToken { generation: reload_requests(calls.take(i + 1)) as u64 },
        )
    } else {
        Err::<HotReloadToken, ScriptError>(ScriptError::HotReloadDisabled)
    } by {
        lemma_host_run_counts(hosts, calls, i);
        lemma_generation_after_reloads(enabled, reload_requests(calls.take(i)));
        assert(calls.take(i + 1).drop_last() =~= calls.take(i));
        assert(calls.take(i + 1).last() == calls[i]);
    }
}

/// A host whose config disables hot reload refuses every reload and keeps
/// its reload count.
pub proof fn law_disabled_hot_reload_changes_nothing(generation: u64)
    ensures
        hot_reload_outcome(false, generation) == Err::<HotReloadToken, ScriptError>(
            ScriptError::HotReloadDisabled,
        ),
        generation_after_hot_reload(false, generation) == generation,
{
}

} // verus!
