use databook::plugin_config::{allow_list, clone_strings, text_list, PluginConfig};
use toml::{Table, Value};

fn strings(items: &[&str]) -> Vec<String> {
    items.iter().map(|item| item.to_string()).collect()
}

#[test]
fn test_create_config_from_str() {
    let config = PluginConfig::new_from_str(
        "name = 'MyTest'\nallowed_env_vars=['A']\nallowed_domains=['a.com']",
    );
    assert_eq!(
        Some(PluginConfig {
            name: "MyTest".into(),
            allowed_env_vars: Some(vec!["A".to_string()]),
            allowed_domains: Some(vec!["a.com".to_string()]),
        }),
        config
    );
}

#[test]
fn config_with_a_name_alone() {
    assert_eq!(
        PluginConfig::new_from_str("name = \"hello_world\""),
        Some(PluginConfig {
            name: "hello_world".to_string(),
            allowed_env_vars: None,
            allowed_domains: None,
        })
    );
}

#[test]
fn config_keeps_the_order_and_repeats_of_a_list() {
    let config = PluginConfig::new_from_str(
        "name = 'p'\nallowed_env_vars = ['B', 'A', 'B']\nallowed_domains = []",
    )
    .unwrap();
    assert_eq!(config.allowed_env_vars, Some(strings(&["B", "A", "B"])));
    assert_eq!(config.allowed_domains, Some(Vec::new()));
}

#[test]
fn config_without_a_name_is_rejected() {
    assert_eq!(PluginConfig::new_from_str("allowed_domains = ['a.com']"), None);
    assert_eq!(PluginConfig::new_from_str(""), None);
}

#[test]
fn config_with_an_empty_name_is_rejected() {
    assert_eq!(PluginConfig::new_from_str("name = ''"), None);
}

#[test]
fn config_with_a_name_that_is_no_string_is_rejected() {
    assert_eq!(PluginConfig::new_from_str("name = 1"), None);
    assert_eq!(PluginConfig::new_from_str("name = ['a']"), None);
    assert_eq!(PluginConfig::new_from_str("[name]\nfirst = 'a'"), None);
}

#[test]
fn config_with_a_list_of_the_wrong_kind_is_rejected() {
    assert_eq!(PluginConfig::new_from_str("name = 'p'\nallowed_env_vars = 'A'"), None);
    assert_eq!(PluginConfig::new_from_str("name = 'p'\nallowed_env_vars = ['A', 1]"), None);
    assert_eq!(PluginConfig::new_from_str("name = 'p'\nallowed_domains = [['a.com']]"), None);
    assert_eq!(PluginConfig::new_from_str("name = 'p'\nallowed_domains = true"), None);
}

#[test]
fn config_that_is_no_toml_is_rejected() {
    assert_eq!(PluginConfig::new_from_str("name = "), None);
    assert_eq!(PluginConfig::new_from_str("name = 'a'\nname = 'b'"), None);
    assert_eq!(PluginConfig::new_from_str("this is not toml"), None);
}

#[test]
fn config_ignores_keys_that_it_does_not_know() {
    assert_eq!(
        PluginConfig::new_from_str("name = 'p'\nversion = 3\n[extra]\nkey = 'v'"),
        Some(PluginConfig { name: "p".to_string(), allowed_env_vars: None, allowed_domains: None })
    );
}

#[test]
fn config_from_file_contents() {
    assert_eq!(
        PluginConfig::new_from_file(Ok("name = 'p'\nallowed_domains = ['a.com']".to_string())),
        Some(PluginConfig {
            name: "p".to_string(),
            allowed_env_vars: None,
            allowed_domains: Some(strings(&["a.com"])),
        })
    );
    assert_eq!(PluginConfig::new_from_file(Ok("name = ".to_string())), None);
    assert_eq!(PluginConfig::new_from_file(Err("permission denied".to_string())), None);
}

#[test]
fn config_from_a_table() {
    let mut table = Table::new();
    table.insert("name".to_string(), Value::String("p".to_string()));
    table.insert(
        "allowed_env_vars".to_string(),
        Value::Array(vec![Value::String("A".to_string())]),
    );
    assert_eq!(
        PluginConfig::from_table(&table),
        Some(PluginConfig {
            name: "p".to_string(),
            allowed_env_vars: Some(strings(&["A"])),
            allowed_domains: None,
        })
    );
    table.insert("allowed_domains".to_string(), Value::Integer(1));
    assert_eq!(PluginConfig::from_table(&table), None);
    assert_eq!(PluginConfig::from_table(&Table::new()), None);
}

#[test]
fn text_list_of_values() {
    let list = Value::Array(vec![Value::String("a".to_string()), Value::String("b".to_string())]);
    assert_eq!(text_list(&list), Some(strings(&["a", "b"])));
    assert_eq!(text_list(&Value::Array(Vec::new())), Some(Vec::new()));
    assert_eq!(text_list(&Value::String("a".to_string())), None);
    assert_eq!(
        text_list(&Value::Array(vec![Value::String("a".to_string()), Value::Boolean(true)])),
        None
    );
}

#[test]
fn allow_list_of_a_table() {
    let mut table = Table::new();
    table.insert("list".to_string(), Value::Array(vec![Value::String("a".to_string())]));
    table.insert("number".to_string(), Value::Integer(7));
    assert_eq!(allow_list(&table, "list"), Some(Some(strings(&["a"]))));
    assert_eq!(allow_list(&table, "absent"), Some(None));
    assert_eq!(allow_list(&table, "number"), None);
}

#[test]
fn config_clone_has_the_same_values() {
    let config = PluginConfig {
        name: "p".to_string(),
        allowed_env_vars: Some(strings(&["A", "B"])),
        allowed_domains: None,
    };
    assert_eq!(config.clone(), config);
    assert_eq!(clone_strings(&strings(&["x", "y"])), strings(&["x", "y"]));
}

#[test]
fn config_of_three_readings() {
    assert_eq!(
        PluginConfig::from_parts(Some("p".to_string()), Some(None), Some(Some(strings(&["a.com"])))),
        Some(PluginConfig {
            name: "p".to_string(),
            allowed_env_vars: None,
            allowed_domains: Some(strings(&["a.com"])),
        })
    );
    assert_eq!(PluginConfig::from_parts(None, Some(None), Some(None)), None);
    assert_eq!(PluginConfig::from_parts(Some(String::new()), Some(None), Some(None)), None);
    assert_eq!(PluginConfig::from_parts(Some("p".to_string()), None, Some(None)), None);
    assert_eq!(PluginConfig::from_parts(Some("p".to_string()), Some(None), None), None);
}
