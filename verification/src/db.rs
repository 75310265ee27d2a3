//! Where the user store lives, as its URL names it.
use vstd::prelude::*;

use crate::text::{
    append_chars, chars_of, contains_exec, contains_seq, has_prefix, has_prefix_exec,
    replace_exec, replace_seq, string_of, sub_vec,
};

verus! {

broadcast use vstd::string::group_string_axioms;

/// How a database URL is opened.
#[derive(Debug, PartialEq, Eq)]
pub struct DbLocation {
    /// The URL handed to the SQLite driver.
    pub pool_url: String,
    /// The database is a file (which is created when it does not exist).
    pub is_file_db: bool,
    /// The path of that file.
    pub sqlite_path: String,
}

/// `s` without one leading `./`.
pub open spec fn without_dot_slash(s: Seq<char>) -> Seq<char> {
    if has_prefix(s, "./"@) {
        s.skip(2)
    } else {
        s
    }
}

/// The URL the SQLite driver is given: a `sqlite://` URL becomes
/// `file:<path>?mode=rwc`, with every `sqlite://` removed and one leading `./`
/// dropped; any other URL is used as it is.
pub open spec fn pool_url_of(url: Seq<char>) -> Seq<char> {
    if has_prefix(url, "sqlite://"@) {
        "file:"@ + without_dot_slash(replace_seq(url, "sqlite://"@, Seq::empty())) + "?mode=rwc"@
    } else {
        url
    }
}

/// A URL names a database file when it starts with `sqlite://`, `./` or `/`,
/// or mentions `llamp.db`.
pub open spec fn is_file_url(url: Seq<char>) -> bool {
    ||| has_prefix(url, "sqlite://"@)
    ||| has_prefix(url, "./"@)
    ||| has_prefix(url, "/"@)
    ||| contains_seq(url, "llamp.db"@)
}

/// The path of the database file: a `sqlite://` URL with every `sqlite://` removed,
/// else the URL itself.
pub open spec fn sqlite_path_of(url: Seq<char>) -> Seq<char> {
    if has_prefix(url, "sqlite://"@) {
        replace_seq(url, "sqlite://"@, Seq::empty())
    } else {
        url
    }
}

/// How the database named by `database_url` is opened.
pub fn database_location(database_url: &str) -> (r: DbLocation)
    ensures
        r.pool_url@ == pool_url_of(database_url@),
        r.is_file_db == is_file_url(database_url@),
        r.sqlite_path@ == sqlite_path_of(database_url@),
{
    let url = chars_of(database_url);
    let scheme = chars_of("sqlite://");
    let dot_slash = chars_of("./");
    let slash = chars_of("/");
    let db_name = chars_of("llamp.db");
    let empty: Vec<char> = Vec::new();
    proof {
        reveal_strlit("sqlite://");
        reveal_strlit("./");
    }
    let is_sqlite = has_prefix_exec(&url, &scheme);
    let (pool_url, sqlite_path) = if is_sqlite {
        let path = replace_exec(&url, &scheme, &empty);
        let clean = if has_prefix_exec(&path, &dot_slash) {
            sub_vec(&path, 2, path.len())
        } else {
            sub_vec(&path, 0, path.len())
        };
        assert(path@.subrange(0, path.len() as int) =~= path@);
        assert(path@.subrange(2, path.len() as int) =~= path@.skip(2));
        let mut p = chars_of("file:");
        append_chars(&mut p, &clean);
        let tail = chars_of("?mode=rwc");
        append_chars(&mut p, &tail);
        (string_of(&p), string_of(&path))
    } else {
        (string_of(&url), string_of(&url))
    };
    let is_file_db = is_sqlite || has_prefix_exec(&url, &dot_slash) || has_prefix_exec(&url, &slash)
        || contains_exec(&url, &db_name);
    DbLocation { pool_url, is_file_db, sqlite_path }
}

/// A `sqlite://` URL names a database file, opened through a `file:` URL in
/// read-write-create mode; any other URL reaches the driver unchanged.
pub proof fn law_sqlite_urls_open_files(url: Seq<char>)
    ensures
        has_prefix(url, "sqlite://"@) ==> is_file_url(url),
        has_prefix(url, "sqlite://"@) ==> has_prefix(pool_url_of(url), "file:"@),
        has_prefix(url, "sqlite://"@) ==> pool_url_of(url).skip(pool_url_of(url).len() - 9)
            == "?mode=rwc"@,
        !has_prefix(url, "sqlite://"@) ==> pool_url_of(url) == url && sqlite_path_of(url) == url,
{
    reveal_strlit("file:");
    reveal_strlit("?mode=rwc");
    if has_prefix(url, "sqlite://"@) {
        let mid = without_dot_slash(replace_seq(url, "sqlite://"@, Seq::empty()));
        let p = "file:"@ + mid + "?mode=rwc"@;
        assert(p.subrange(0, 5) =~= "file:"@);
        assert(p.skip(p.len() - 9) =~= "?mode=rwc"@);
    }
}

} // verus!
