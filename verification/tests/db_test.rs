use llamp::db::database_location;

#[test]
fn sqlite_url_becomes_file_url() {
    let loc = database_location("sqlite://./llamp.db");
    assert_eq!(loc.pool_url, "file:llamp.db?mode=rwc");
    assert!(loc.is_file_db);
    assert_eq!(loc.sqlite_path, "./llamp.db");
}

#[test]
fn sqlite_url_absolute_path() {
    let loc = database_location("sqlite:///var/lib/llamp/data.db");
    assert_eq!(loc.pool_url, "file:/var/lib/llamp/data.db?mode=rwc");
    assert!(loc.is_file_db);
    assert_eq!(loc.sqlite_path, "/var/lib/llamp/data.db");
}

#[test]
fn every_scheme_occurrence_is_removed() {
    let loc = database_location("sqlite://./a/sqlite://b.db");
    assert_eq!(loc.sqlite_path, "./a/b.db");
    assert_eq!(loc.pool_url, "file:a/b.db?mode=rwc");
}

#[test]
fn memory_database_is_used_as_is() {
    let loc = database_location("sqlite::memory:");
    assert_eq!(loc.pool_url, "sqlite::memory:");
    assert!(!loc.is_file_db);
    assert_eq!(loc.sqlite_path, "sqlite::memory:");
}

#[test]
fn other_file_urls() {
    assert!(database_location("./data.db").is_file_db);
    assert!(database_location("/tmp/x.db").is_file_db);
    assert!(database_location("backup-llamp.db").is_file_db);
    assert!(!database_location("postgres://host/db").is_file_db);
    assert_eq!(database_location("./data.db").pool_url, "./data.db");
}
