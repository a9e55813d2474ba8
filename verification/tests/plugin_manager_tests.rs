use databook::plugin_config::PluginConfig;
use databook::plugin_manager::{
    invocation_result, ConfigFile, FolderEntry, InvocationError, ModuleFile, Plugin,
    PluginError, PluginFolder, PluginManager,
};
use databook::wasm::WasmError;

fn folder(config: Option<&str>, module: Option<u32>) -> PluginFolder<u32> {
    PluginFolder {
        config: match config {
            Some(text) => ConfigFile::Text(text.to_string()),
            None => ConfigFile::Missing,
        },
        module: match module {
            Some(id) => ModuleFile::Compiled(id),
            None => ModuleFile::Missing,
        },
    }
}

fn entry(config: Option<&str>, module: Option<u32>) -> FolderEntry<u32> {
    FolderEntry::Folder(folder(config, module))
}

fn loaded(entries: Vec<FolderEntry<u32>>) -> PluginManager<u32> {
    let mut manager = PluginManager::new("./plugins".to_string());
    assert_eq!(manager.registry(Some(entries)), Ok(()));
    manager
}

#[test]
fn new_registry_is_empty() {
    let manager: PluginManager<u32> = PluginManager::new("./plugins".to_string());
    assert_eq!(manager.len(), 0);
    assert_eq!(manager.folder(), "./plugins");
    assert!(matches!(manager.lookup("hello_world"), Err(InvocationError::PluginDoesNotExist)));
}

#[test]
fn plugin_from_a_complete_folder() {
    let plugin = Plugin::new_from_folder(folder(
        Some("name = 'hello_world'\nallowed_domains = ['127.0.0.1']"),
        Some(7),
    ))
    .unwrap();
    assert_eq!(
        plugin.config,
        PluginConfig {
            name: "hello_world".to_string(),
            allowed_env_vars: None,
            allowed_domains: Some(vec!["127.0.0.1".to_string()]),
        }
    );
    assert_eq!(plugin.wasm, 7);
}

#[test]
fn no_plugin_from_a_folder_without_a_config_file() {
    assert!(Plugin::new_from_folder(folder(None, Some(7))).is_none());
}

#[test]
fn no_plugin_from_a_folder_without_a_module() {
    assert!(Plugin::new_from_folder(folder(Some("name = 'p'"), None)).is_none());
    assert!(Plugin::new_from_folder(folder(None, None)).is_none());
}

#[test]
fn no_plugin_from_a_config_file_that_cannot_be_read() {
    let unreadable: PluginFolder<u32> =
        PluginFolder { config: ConfigFile::Unreadable, module: ModuleFile::Compiled(1) };
    assert!(Plugin::new_from_folder(unreadable).is_none());
}

#[test]
fn no_plugin_from_a_config_file_that_does_not_parse() {
    assert!(Plugin::new_from_folder(folder(Some("name = "), Some(7))).is_none());
    assert!(Plugin::new_from_folder(folder(Some("allowed_domains = []"), Some(7))).is_none());
}

#[test]
fn no_plugin_from_a_module_that_does_not_compile() {
    let invalid: PluginFolder<u32> = PluginFolder {
        config: ConfigFile::Text("name = 'p'".to_string()),
        module: ModuleFile::Invalid(WasmError::GenericError("bad magic".to_string())),
    };
    assert!(Plugin::new_from_folder(invalid).is_none());
}

#[test]
fn registry_of_a_folder_that_cannot_be_listed() {
    let mut manager: PluginManager<u32> = PluginManager::new("./missing".to_string());
    assert_eq!(manager.registry(None), Err(PluginError::InvalidFolder));
    assert_eq!(manager.len(), 0);
}

#[test]
fn registry_of_an_empty_folder() {
    let manager = loaded(Vec::new());
    assert_eq!(manager.len(), 0);
}

#[test]
fn registry_enters_each_plugin_under_its_name() {
    let manager = loaded(vec![
        entry(Some("name = 'a'"), Some(1)),
        FolderEntry::NotAFolder,
        entry(Some("name = 'b'\nallowed_env_vars = ['X']"), Some(2)),
    ]);
    assert_eq!(manager.len(), 2);
    assert_eq!(manager.lookup("a").unwrap().wasm, 1);
    assert_eq!(manager.lookup("b").unwrap().wasm, 2);
    assert_eq!(manager.lookup("b").unwrap().config.allowed_env_vars, Some(vec!["X".to_string()]));
    assert!(manager.lookup("c").is_err());
}

#[test]
fn registry_passes_over_folders_that_lack_a_file() {
    let manager = loaded(vec![
        entry(None, Some(1)),
        entry(Some("name = 'only_config'"), None),
        entry(None, None),
        FolderEntry::NotAFolder,
    ]);
    assert_eq!(manager.len(), 0);
    assert!(manager.lookup("only_config").is_err());
}

#[test]
fn registry_leaves_loaded_plugins_when_folders_lack_a_file() {
    let mut manager = loaded(vec![entry(Some("name = 'a'"), Some(1))]);
    assert_eq!(
        manager.registry(Some(vec![entry(None, Some(9)), entry(Some("name = 'a'"), None)])),
        Ok(())
    );
    assert_eq!(manager.len(), 1);
    assert_eq!(manager.lookup("a").unwrap().wasm, 1);
}

#[test]
fn registry_passes_over_folders_that_are_not_valid() {
    let manager = loaded(vec![
        entry(Some("not toml at all"), Some(1)),
        FolderEntry::Folder(PluginFolder {
            config: ConfigFile::Text("name = 'broken'".to_string()),
            module: ModuleFile::Invalid(WasmError::GenericError("bad".to_string())),
        }),
        entry(Some("name = 'good'"), Some(3)),
    ]);
    assert_eq!(manager.len(), 1);
    assert_eq!(manager.lookup("good").unwrap().wasm, 3);
    assert!(manager.lookup("broken").is_err());
}

#[test]
fn registry_lets_the_later_of_two_names_win() {
    let manager = loaded(vec![
        entry(Some("name = 'same'\nallowed_env_vars = ['A']"), Some(1)),
        entry(Some("name = 'same'"), Some(2)),
    ]);
    assert_eq!(manager.len(), 1);
    let plugin = manager.lookup("same").unwrap();
    assert_eq!(plugin.wasm, 2);
    assert_eq!(plugin.config.allowed_env_vars, None);
}

#[test]
fn registry_stops_at_an_entry_that_cannot_be_read() {
    let mut manager: PluginManager<u32> = PluginManager::new("./plugins".to_string());
    let result = manager.registry(Some(vec![
        entry(Some("name = 'before'"), Some(1)),
        FolderEntry::Unreadable,
        entry(Some("name = 'after'"), Some(2)),
    ]));
    assert_eq!(result, Err(PluginError::InvalidFolder));
    assert_eq!(manager.len(), 1);
    assert!(manager.lookup("before").is_ok());
    assert!(manager.lookup("after").is_err());
}

#[test]
fn registry_twice_gives_the_same_plugins() {
    let listing = || vec![entry(Some("name = 'a'"), Some(1)), entry(Some("name = 'b'"), Some(2))];
    let mut manager = loaded(listing());
    assert_eq!(manager.registry(Some(listing())), Ok(()));
    assert_eq!(manager.len(), 2);
    assert_eq!(manager.lookup("a").unwrap().wasm, 1);
    assert_eq!(manager.lookup("b").unwrap().wasm, 2);
}

#[test]
fn register_replaces_a_plugin_of_the_same_name() {
    let mut manager: PluginManager<u32> = PluginManager::new("./plugins".to_string());
    let config =
        PluginConfig { name: "p".to_string(), allowed_env_vars: None, allowed_domains: None };
    manager.register(Plugin { config: config.clone(), wasm: 1 });
    manager.register(Plugin { config, wasm: 2 });
    assert_eq!(manager.len(), 1);
    assert_eq!(manager.lookup("p").unwrap().wasm, 2);
}

#[test]
fn invoke_of_an_unknown_plugin() {
    let manager = loaded(vec![entry(Some("name = 'hello_world'"), Some(1))]);
    assert!(matches!(
        manager.invoke("nope", Vec::new()),
        Err(InvocationError::PluginDoesNotExist)
    ));
}

#[test]
fn invoke_gives_the_module_and_a_host_state_of_its_own() {
    let manager = loaded(vec![entry(
        Some("name = 'hello_world'\nallowed_env_vars = ['TEST']"),
        Some(42),
    )]);
    let first = manager
        .invoke("hello_world", vec![("city".to_string(), "Lisbon".to_string())])
        .unwrap();
    assert_eq!(*first.module, 42);
    assert_eq!(first.runtime.config, manager.lookup("hello_world").unwrap().config);
    assert_eq!(first.runtime.get("city"), Some("Lisbon".to_string()));
    assert!(first.runtime.is_env_var_allowed("TEST"));

    let second = manager.invoke("hello_world", Vec::new()).unwrap();
    assert_eq!(*second.module, 42);
    assert_eq!(second.runtime.get("city"), None);
}

#[test]
fn plugin_invoke_makes_a_fresh_state() {
    let plugin = Plugin {
        config: PluginConfig {
            name: "p".to_string(),
            allowed_env_vars: None,
            allowed_domains: Some(vec!["a.com".to_string()]),
        },
        wasm: 0u32,
    };
    let runtime = plugin.invoke(vec![("k".to_string(), "v".to_string())]);
    assert_eq!(runtime.config, plugin.config);
    assert_eq!(runtime.get("k"), Some("v".to_string()));
    assert_eq!(plugin.invoke(Vec::new()).get("k"), None);
}

#[test]
fn invocation_result_of_an_output() {
    assert_eq!(invocation_result(Ok("Hello, World".to_string())), Ok("Hello, World".to_string()));
}

#[test]
fn invocation_result_of_an_engine_failure() {
    assert_eq!(
        invocation_result(Err(WasmError::GenericError("wasm trap: unreachable".to_string()))),
        Err(InvocationError::GenericError("wasm trap: unreachable".to_string()))
    );
}

#[test]
fn invocation_error_as_text() {
    assert_eq!(InvocationError::PluginDoesNotExist.describe(), "PluginDoesNotExist");
    assert_eq!(
        InvocationError::GenericError("a \"b\"".to_string()).describe(),
        "GenericError(\"a \\\"b\\\"\")"
    );
    assert_eq!(
        InvocationError::GenericError("trap".to_string()).describe(),
        format!("{:?}", InvocationError::GenericError("trap".to_string()))
    );
    assert_eq!(
        InvocationError::PluginDoesNotExist.describe(),
        format!("{:?}", InvocationError::PluginDoesNotExist)
    );
}

#[test]
fn compile_failure_names_the_file() {
    let error = WasmError::compile_failure("failed to parse", "./plugins/a/plugin.wasm");
    assert_eq!(error, WasmError::GenericError("failed to parse ./plugins/a/plugin.wasm".to_string()));
    assert_eq!(error.message(), "failed to parse ./plugins/a/plugin.wasm");
}
