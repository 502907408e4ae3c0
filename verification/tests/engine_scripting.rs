use finalengine::engine_scripting::{
    CoreClrScriptHost, DotNetRuntimeConfig, ScriptAssembly, ScriptError, ScriptHostState,
};

#[test]
fn default_config_targets_dotnet_10() {
    let config = DotNetRuntimeConfig::dotnet_10_lts();

    assert_eq!(config.target_framework, "net10.0");
    assert!(config.enable_hot_reload);
}

#[test]
fn hot_reload_advances_generation() {
    let mut host = CoreClrScriptHost::new(DotNetRuntimeConfig::dotnet_10_lts());

    let first = host.begin_hot_reload().unwrap();
    let second = host.begin_hot_reload().unwrap();

    assert_eq!(first.generation, 1);
    assert_eq!(second.generation, 2);
}

#[test]
fn disabled_hot_reload_is_refused_and_keeps_generation() {
    let mut config = DotNetRuntimeConfig::dotnet_10_lts();
    config.enable_hot_reload = false;
    let mut host = CoreClrScriptHost::new(config);
    let error = host.begin_hot_reload().unwrap_err();
    assert_eq!(error, ScriptError::HotReloadDisabled);
    assert_eq!(error.message(), "script hot reload is not enabled");
    assert_eq!(host.reload_generation(), 0);
}

#[test]
fn assembly_without_path_is_refused() {
    let error = ScriptAssembly::new("Game", "").unwrap_err();
    assert_eq!(error, ScriptError::MissingAssemblyPath);
    assert_eq!(error.message(), "script assembly has no path");
}

#[test]
fn host_moves_through_runtime_and_assembly_states() {
    let mut host = CoreClrScriptHost::new(DotNetRuntimeConfig::dotnet_10_lts());
    assert!(matches!(host.state(), ScriptHostState::Created));
    host.load_runtime();
    assert!(matches!(host.state(), ScriptHostState::RuntimeLoaded));
    let assembly = ScriptAssembly::new("Game", "scripts/Game.dll").unwrap();
    host.load_assembly(assembly);
    match host.state() {
        ScriptHostState::AssemblyLoaded(loaded) => {
            assert_eq!(loaded.name, "Game");
            assert_eq!(loaded.path, "scripts/Game.dll");
        }
        _ => panic!("assembly was not loaded"),
    }
}

#[test]
fn many_hot_reloads_count_one_by_one() {
    let mut host = CoreClrScriptHost::new(DotNetRuntimeConfig::dotnet_10_lts());
    for k in 1..=5u64 {
        if k == 3 {
            host.load_runtime();
        }
        assert_eq!(host.begin_hot_reload().unwrap().generation, k);
        assert_eq!(host.reload_generation(), k);
    }

    let mut disabled_config = DotNetRuntimeConfig::dotnet_10_lts();
    disabled_config.enable_hot_reload = false;
    let mut disabled = CoreClrScriptHost::new(disabled_config);
    for _ in 0..3 {
        assert_eq!(disabled.begin_hot_reload(), Err(ScriptError::HotReloadDisabled));
    }
    assert_eq!(disabled.reload_generation(), 0);
}
