use php_bridge::config::AppConfig;

const TABLE: [(&str, &str); 10] = [
    ("VITE_PORT", "1420"),
    ("PHP_SERVER_PORT", "8088"),
    ("VITE_PHP_SERVER_PORT", "8088"),
    ("VITE_FILE_PHP", "todo.php.svg"),
    ("VITE_DEV_URL", "http://localhost:${VITE_PORT}"),
    ("PHP_SERVER_URL", "http://localhost:${PHP_SERVER_PORT}"),
    ("PDF_PROCESSOR_URL", "http://localhost:${PHP_SERVER_PORT}/${VITE_FILE_PHP}"),
    ("ENABLE_VERBOSE_LOGGING", "false"),
    ("LOG_DIRECTORY", "logs"),
    ("NODE_ENV", "development"),
];

#[test]
fn get_node_env() {
    assert_eq!(AppConfig::get("NODE_ENV"), Some("development"));
}

#[test]
fn get_missing_key() {
    assert_eq!(AppConfig::get("MISSING_KEY"), None);
}

#[test]
fn get_every_documented_key() {
    for (k, v) in TABLE.iter() {
        assert_eq!(AppConfig::get(k), Some(*v), "key {}", k);
    }
}

#[test]
fn get_near_misses_are_not_found() {
    assert_eq!(AppConfig::get(""), None);
    assert_eq!(AppConfig::get("node_env"), None);
    assert_eq!(AppConfig::get("NODE_ENV "), None);
    assert_eq!(AppConfig::get("VITE_POR"), None);
    assert_eq!(AppConfig::get("VITE_PORTS"), None);
    assert_eq!(AppConfig::get("LOG_DIRECTORX"), None);
}

#[test]
fn get_returns_the_constants() {
    assert_eq!(AppConfig::get("VITE_PORT"), Some(AppConfig::VITE_PORT));
    assert_eq!(AppConfig::get("PDF_PROCESSOR_URL"), Some(AppConfig::PDF_PROCESSOR_URL));
    assert_eq!(AppConfig::get("ENABLE_VERBOSE_LOGGING"), Some(AppConfig::ENABLE_VERBOSE_LOGGING));
}

#[test]
fn get_all_lists_the_ten_pairs() {
    let all = AppConfig::get_all();
    assert_eq!(all.len(), 10);
    assert_eq!(all, TABLE.to_vec());
}

#[test]
fn get_all_is_the_same_on_every_call() {
    let first = AppConfig::get_all();
    let _ = AppConfig::get("NODE_ENV");
    let second = AppConfig::get_all();
    assert_eq!(first, second);
}

#[test]
fn get_all_keys_are_distinct_and_agree_with_get() {
    let all = AppConfig::get_all();
    for (i, (k, v)) in all.iter().enumerate() {
        for (k2, _) in all.iter().skip(i + 1) {
            assert_ne!(k, k2);
        }
        assert_eq!(AppConfig::get(k), Some(*v));
    }
}
