use mod_server::config::{Config, Mod};

fn url(u: &str) -> Mod {
    Mod { url: Some(u.to_string()), git: None, branch: None, path: None }
}

#[test]
fn new_names_come_last() {
    let mut config = Config::default();
    config.insert("b".to_string(), url("https://e/b.jar"));
    config.insert("a".to_string(), url("https://e/a.jar"));
    assert_eq!(
        config.mods,
        vec![("b".to_string(), url("https://e/b.jar")), ("a".to_string(), url("https://e/a.jar"))]
    );
}

#[test]
fn known_name_is_replaced_where_it_stands() {
    let mut config = Config::default();
    config.insert("b".to_string(), url("https://e/b.jar"));
    config.insert("a".to_string(), url("https://e/a.jar"));
    config.insert("b".to_string(), url("https://e/b2.jar"));
    assert_eq!(
        config.mods,
        vec![("b".to_string(), url("https://e/b2.jar")), ("a".to_string(), url("https://e/a.jar"))]
    );
    assert_eq!(config.server_jar, "");
    assert_eq!(config.jvm, None);
}
