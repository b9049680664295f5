//! The application's configuration: a fixed table of string keys and values,
//! generated ahead of time and never changed while the process runs.
use vstd::prelude::*;

verus! {

/// The fixed configuration of the application.
pub struct AppConfig;

impl AppConfig {
    pub const VITE_PORT: &'static str = "1420";
    pub const PHP_SERVER_PORT: &'static str = "8088";
    pub const VITE_PHP_SERVER_PORT: &'static str = "8088";
    pub const VITE_FILE_PHP: &'static str = "todo.php.svg";
    pub const VITE_DEV_URL: &'static str = "http://localhost:${VITE_PORT}";
    pub const PHP_SERVER_URL: &'static str = "http://localhost:${PHP_SERVER_PORT}";
    pub const PDF_PROCESSOR_URL: &'static str = "http://localhost:${PHP_SERVER_PORT}/${VITE_FILE_PHP}";
    pub const ENABLE_VERBOSE_LOGGING: &'static str = "false";
    pub const LOG_DIRECTORY: &'static str = "logs";
    pub const NODE_ENV: &'static str = "development";
}

/// The configuration as (key, value) pairs, in the order in which `get_all`
/// lists them.
pub open spec fn config_table() -> Seq<(Seq<char>, Seq<char>)> {
    seq![
        ("VITE_PORT"@, AppConfig::VITE_PORT@),
        ("PHP_SERVER_PORT"@, AppConfig::PHP_SERVER_PORT@),
        ("VITE_PHP_SERVER_PORT"@, AppConfig::VITE_PHP_SERVER_PORT@),
        ("VITE_FILE_PHP"@, AppConfig::VITE_FILE_PHP@),
        ("VITE_DEV_URL"@, AppConfig::VITE_DEV_URL@),
        ("PHP_SERVER_URL"@, AppConfig::PHP_SERVER_URL@),
        ("PDF_PROCESSOR_URL"@, AppConfig::PDF_PROCESSOR_URL@),
        ("ENABLE_VERBOSE_LOGGING"@, AppConfig::ENABLE_VERBOSE_LOGGING@),
        ("LOG_DIRECTORY"@, AppConfig::LOG_DIRECTORY@),
        ("NODE_ENV"@, AppConfig::NODE_ENV@),
    ]
}

/// The value of the first pair of `table` whose key is `key`, if any.
pub open spec fn table_lookup(table: Seq<(Seq<char>, Seq<char>)>, key: Seq<char>) -> Option<
    Seq<char>,
>
    decreases table.len(),
{
    if table.len() == 0 {
        None
    } else if table[0].0 == key {
        Some(table[0].1)
    } else {
        table_lookup(table.drop_first(), key)
    }
}

/// The configured value of `key`, or `None` for a key outside the table.
pub open spec fn config_value(key: Seq<char>) -> Option<Seq<char>> {
    table_lookup(config_table(), key)
}

/// The view of an optional string.
pub open spec fn opt_str_view(o: Option<&str>) -> Option<Seq<char>> {
    match o {
        Some(s) => Some(s@),
        None => None,
    }
}

/// The view of a list of (key, value) string pairs.
pub open spec fn pairs_view(v: Seq<(&str, &str)>) -> Seq<(Seq<char>, Seq<char>)> {
    v.map_values(|p: (&str, &str)| (p.0@, p.1@))
}

/// Looking up the key of any pair of a table whose keys are distinct gives
/// that pair's value; a key that no pair holds is not found.
proof fn lemma_lookup_distinct(table: Seq<(Seq<char>, Seq<char>)>, key: Seq<char>)
    requires
        forall|i: int, j: int|
            0 <= i < j < table.len() ==> #[trigger] table[i].0 != #[trigger] table[j].0,
    ensures
        forall|i: int| 0 <= i < table.len() && table[i].0 == key ==> table_lookup(table, key)
            == Some(table[i].1),
        table_lookup(table, key) is None <==> forall|i: int|
            0 <= i < table.len() ==> #[trigger] table[i].0 != key,
    decreases table.len(),
{
    if table.len() > 0 {
        let rest = table.drop_first();
        assert forall|i: int, j: int| 0 <= i < j < rest.len() implies #[trigger] rest[i].0
            != #[trigger] rest[j].0 by {
            assert(rest[i] == table[i + 1] && rest[j] == table[j + 1]);
        }
        lemma_lookup_distinct(rest, key);
        assert forall|i: int| 1 <= i < table.len() implies rest[i - 1] == #[trigger] table[i] by {}
    }
}

/// No key occurs twice in the configuration, and it has ten pairs.
pub proof fn lemma_config_keys_distinct()
    ensures
        config_table().len() == 10,
        forall|i: int, j: int|
            0 <= i < j < config_table().len() ==> #[trigger] config_table()[i].0
                != #[trigger] config_table()[j].0,
{
    reveal_strlit("VITE_PORT");
    reveal_strlit("PHP_SERVER_PORT");
    reveal_strlit("VITE_PHP_SERVER_PORT");
    reveal_strlit("VITE_FILE_PHP");
    reveal_strlit("VITE_DEV_URL");
    reveal_strlit("PHP_SERVER_URL");
    reveal_strlit("PDF_PROCESSOR_URL");
    reveal_strlit("ENABLE_VERBOSE_LOGGING");
    reveal_strlit("LOG_DIRECTORY");
    reveal_strlit("NODE_ENV");
    let t = config_table();
    assert(t[0].0.len() == 9);
    assert(t[1].0.len() == 15);
    assert(t[2].0.len() == 20);
    assert(t[3].0.len() == 13);
    assert(t[4].0.len() == 12);
    assert(t[5].0.len() == 14);
    assert(t[6].0.len() == 17);
    assert(t[7].0.len() == 22);
    assert(t[8].0.len() == 13);
    assert(t[9].0.len() == 8);
    assert(t[3].0[0] != t[8].0[0]);
    assert forall|i: int, j: int| 0 <= i < j < t.len() implies #[trigger] t[i].0
        != #[trigger] t[j].0 by {
        assert(i == 0 || i == 1 || i == 2 || i == 3 || i == 4 || i == 5 || i == 6 || i == 7 || i
            == 8);
        assert(j == 1 || j == 2 || j == 3 || j == 4 || j == 5 || j == 6 || j == 7 || j == 8 || j
            == 9);
    }
}

/// What `get_all` lists and what `get` answers agree: each listed key is found
/// with its listed value, and a key is found only if it is listed.
pub proof fn lemma_get_all_agrees_with_get(key: Seq<char>)
    ensures
        forall|i: int|
            0 <= i < config_table().len() ==> config_value(#[trigger] config_table()[i].0)
                == Some(config_table()[i].1),
        config_value(key) is Some <==> exists|i: int|
            0 <= i < config_table().len() && #[trigger] config_table()[i].0 == key,
{
    lemma_config_keys_distinct();
    lemma_lookup_distinct(config_table(), key);
    assert forall|i: int| 0 <= i < config_table().len() implies config_value(
        #[trigger] config_table()[i].0,
    ) == Some(config_table()[i].1) by {
        lemma_lookup_distinct(config_table(), config_table()[i].0);
    }
}

/// Character-wise equality of two strings.
fn str_equal(a: &str, b: &str) -> (r: bool)
    ensures
        r == (a@ == b@),
{
    let n = a.unicode_len();
    if n != b.unicode_len() {
        return false;
    }
    let mut i: usize = 0;
    while i < n
        invariant
            n == a@.len(),
            n == b@.len(),
            i <= n,
            a@.subrange(0, i as int) == b@.subrange(0, i as int),
        decreases n - i,
    {
        if a.get_char(i) != b.get_char(i) {
            assert(a@[i as int] != b@[i as int]);
            return false;
        }
        assert(a@.subrange(0, i + 1) == a@.subrange(0, i as int).push(a@[i as int]));
        assert(b@.subrange(0, i + 1) == b@.subrange(0, i as int).push(b@[i as int]));
        i = i + 1;
    }
    assert(a@ == a@.subrange(0, n as int));
    assert(b@ == b@.subrange(0, n as int));
    true
}

impl AppConfig {
    /// Every (key, value) pair of the configuration, each key once.
    pub fn get_all() -> (r: Vec<(&'static str, &'static str)>)
        ensures
            pairs_view(r@) == config_table(),
    {
        let r = vec![
            ("VITE_PORT", Self::VITE_PORT),
            ("PHP_SERVER_PORT", Self::PHP_SERVER_PORT),
            ("VITE_PHP_SERVER_PORT", Self::VITE_PHP_SERVER_PORT),
            ("VITE_FILE_PHP", Self::VITE_FILE_PHP),
            ("VITE_DEV_URL", Self::VITE_DEV_URL),
            ("PHP_SERVER_URL", Self::PHP_SERVER_URL),
            ("PDF_PROCESSOR_URL", Self::PDF_PROCESSOR_URL),
            ("ENABLE_VERBOSE_LOGGING", Self::ENABLE_VERBOSE_LOGGING),
            ("LOG_DIRECTORY", Self::LOG_DIRECTORY),
            ("NODE_ENV", Self::NODE_ENV),
        ];
        assert(pairs_view(r@) =~= config_table());
        r
    }

    /// The configured value of `key`; `None` for any key outside the table.
    pub fn get(key: &str) -> (r: Option<&'static str>)
        ensures
            opt_str_view(r) == config_value(key@),
    {
        reveal_with_fuel(table_lookup, 11);
        if str_equal(key, "VITE_PORT") {
            Some(Self::VITE_PORT)
        } else if str_equal(key, "PHP_SERVER_PORT") {
            Some(Self::PHP_SERVER_PORT)
        } else if str_equal(key, "VITE_PHP_SERVER_PORT") {
            Some(Self::VITE_PHP_SERVER_PORT)
        } else if str_equal(key, "VITE_FILE_PHP") {
            Some(Self::VITE_FILE_PHP)
        } else if str_equal(key, "VITE_DEV_URL") {
            Some(Self::VITE_DEV_URL)
        } else if str_equal(key, "PHP_SERVER_URL") {
            Some(Self::PHP_SERVER_URL)
        } else if str_equal(key, "PDF_PROCESSOR_URL") {
            Some(Self::PDF_PROCESSOR_URL)
        } else if str_equal(key, "ENABLE_VERBOSE_LOGGING") {
            Some(Self::ENABLE_VERBOSE_LOGGING)
        } else if str_equal(key, "LOG_DIRECTORY") {
            Some(Self::LOG_DIRECTORY)
        } else if str_equal(key, "NODE_ENV") {
            Some(Self::NODE_ENV)
        } else {
            None
        }
    }
}

} // verus!
