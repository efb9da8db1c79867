//! Reading the output of the platform's file-information utility.
//!
//! The utility prints one `key: value` line per field.  Parsing those lines
//! and turning the `created` and `modified` values into timestamps is
//! verified here; running the utility itself is left to the caller, who
//! hands the captured lines in.

use vstd::prelude::*;

use crate::timestamp::Timestamp;
use crate::timestamp::spec_dt_parses;
use crate::timestamp::spec_parse_dt;
use crate::timestamp::str_to_dt;

verus! {

/// The position of the first `key: value` separator at or after `i`.
pub open spec fn spec_first_sep_from(s: Seq<char>, i: int) -> Option<int>
    decreases s.len() - i,
{
    if i < 0 || i + 1 >= s.len() {
        None
    } else if s[i] == ':' && s[i + 1] == ' ' {
        Some(i)
    } else {
        spec_first_sep_from(s, i + 1)
    }
}

/// The line holds at least one `key: value` separator.
pub open spec fn spec_has_sep(s: Seq<char>) -> bool {
    spec_first_sep_from(s, 0) is Some
}

/// The key and value of a line: the key stands before the first separator,
/// the value between the first separator and the second one (or the end of
/// the line).
pub open spec fn spec_kv(s: Seq<char>) -> Option<(Seq<char>, Seq<char>)> {
    match spec_first_sep_from(s, 0) {
        None => None,
        Some(i) => {
            let e = match spec_first_sep_from(s, i + 2) {
                None => s.len() as int,
                Some(j) => j,
            };
            Some((s.take(i), s.subrange(i + 2, e)))
        },
    }
}

proof fn lemma_first_sep_some(s: Seq<char>, from: int, j: int)
    requires
        spec_first_sep_from(s, from) == Some(j),
    ensures
        from <= j,
        j + 1 < s.len(),
        s[j] == ':',
        s[j + 1] == ' ',
    decreases s.len() - from,
{
    if !(from < 0 || from + 1 >= s.len()) {
        if !(s[from] == ':' && s[from + 1] == ' ') {
            lemma_first_sep_some(s, from + 1, j);
        }
    }
}

/// Returns the position of the first `key: value` separator at or after
/// `from`.
fn find_first_sep(s: &str, from: usize) -> (r: Option<usize>)
    ensures
        match r {
            Some(i) => from <= i && spec_first_sep_from(s@, from as int) == Some(i as int),
            None => spec_first_sep_from(s@, from as int) is None,
        },
{
    let len = s.unicode_len();
    let mut i = from;
    loop
        invariant
            len == s@.len(),
            from <= i,
            spec_first_sep_from(s@, from as int) == spec_first_sep_from(s@, i as int),
        decreases len - i,
    {
        if i >= len || i + 1 >= len {
            return None;
        }
        if s.get_char(i) == ':' && s.get_char(i + 1) == ' ' {
            return Some(i);
        }
        i = i + 1;
    }
}

/// Returns the key and value of a `key: value` line.
fn parse_kv(line: &str) -> (r: Option<(String, String)>)
    ensures
        r is Some <==> spec_has_sep(line@),
        r matches Some(kv) ==> spec_kv(line@) matches Some(skv) && kv.0@ == skv.0 && kv.1@
            == skv.1,
{
    let len = line.unicode_len();
    match find_first_sep(line, 0) {
        None => None,
        Some(i) => {
            proof {
                lemma_first_sep_some(line@, 0, i as int);
            }
            let e = match find_first_sep(line, i + 2) {
                None => len,
                Some(j) => {
                    proof {
                        lemma_first_sep_some(line@, i + 2, j as int);
                    }
                    j
                },
            };
            let key = line.substring_char(0, i).to_owned();
            let value = line.substring_char(i + 2, e).to_owned();
            proof {
                assert(line@.subrange(0, i as int) =~= line@.take(i as int));
            }
            Some((key, value))
        },
    }
}

/// The fields of interest read off the utility's output lines.
pub struct RawFileInfo {
    pub file: Option<String>,
    pub created: Option<String>,
    pub modified: Option<String>,
}

/// The value of the last line whose key is `key`, if any.
pub open spec fn spec_lookup(lines: Seq<Seq<char>>, key: Seq<char>) -> Option<Seq<char>>
    decreases lines.len(),
{
    if lines.len() == 0 {
        None
    } else {
        match spec_kv(lines.last()) {
            Some(kv) => if kv.0 == key {
                Some(kv.1)
            } else {
                spec_lookup(lines.drop_last(), key)
            },
            None => spec_lookup(lines.drop_last(), key),
        }
    }
}

/// Returns the `file`, `created` and `modified` fields found among the
/// utility's output lines; a later line overrides an earlier one with the
/// same key.
pub fn parse_output(lines: &Vec<String>) -> (r: RawFileInfo)
    requires
        forall|i: int| 0 <= i < lines@.len() ==> spec_has_sep((#[trigger] lines@[i])@),
    ensures
        r.file.deep_view() == spec_lookup(lines.deep_view(), "file"@),
        r.created.deep_view() == spec_lookup(lines.deep_view(), "created"@),
        r.modified.deep_view() == spec_lookup(lines.deep_view(), "modified"@),
{
    let ghost ldv = lines.deep_view();
    proof {
        assert(forall|j: int| 0 <= j < lines@.len() ==> ldv[j] == (#[trigger] lines@[j])@);
        reveal_strlit("file");
        reveal_strlit("created");
        reveal_strlit("modified");
    }
    let file_key = String::from_str("file");
    let created_key = String::from_str("created");
    let modified_key = String::from_str("modified");
    let mut r = RawFileInfo { file: None, created: None, modified: None };
    let n = lines.len();
    let mut idx: usize = 0;
    while idx < n
        invariant
            n == lines@.len(),
            ldv == lines.deep_view(),
            ldv.len() == n,
            forall|j: int| 0 <= j < n ==> ldv[j] == (#[trigger] lines@[j])@,
            forall|j: int| 0 <= j < n ==> spec_has_sep((#[trigger] lines@[j])@),
            idx <= n,
            file_key@ == "file"@,
            created_key@ == "created"@,
            modified_key@ == "modified"@,
            r.file.deep_view() == spec_lookup(ldv.take(idx as int), "file"@),
            r.created.deep_view() == spec_lookup(ldv.take(idx as int), "created"@),
            r.modified.deep_view() == spec_lookup(ldv.take(idx as int), "modified"@),
        decreases n - idx,
    {
        proof {
            reveal_strlit("file");
            reveal_strlit("created");
            reveal_strlit("modified");
            // The keys differ: their lengths already do.
            assert("file"@.len() == 4);
            assert("created"@.len() == 7);
            assert("modified"@.len() == 8);
        }
        let line = &lines[idx];
        if let Some((key, value)) = parse_kv(line.as_str()) {
            if key == file_key {
                r = RawFileInfo { file: Some(value), created: r.created, modified: r.modified };
            } else if key == created_key {
                r = RawFileInfo { file: r.file, created: Some(value), modified: r.modified };
            } else if key == modified_key {
                r = RawFileInfo { file: r.file, created: r.created, modified: Some(value) };
            }
        }
        idx = idx + 1;
        proof {
            assert(ldv.take(idx as int).drop_last() =~= ldv.take(idx as int - 1));
            assert(ldv.take(idx as int).last() == ldv[idx as int - 1]);
        }
    }
    proof {
        assert(ldv.take(n as int) =~= ldv);
    }
    r
}

/// A file's path together with its creation and modification times.
#[derive(Debug)]
pub struct FileInfo {
    pub path: String,
    pub created: Timestamp,
    pub modified: Timestamp,
}

/// Builds a `FileInfo` from the utility's output lines for `path`: the
/// `created` and `modified` fields must both be present and parse as
/// datetimes.
pub fn file_info_from_output(path: &str, lines: &Vec<String>) -> (r: Result<FileInfo, String>)
    requires
        forall|i: int| 0 <= i < lines@.len() ==> spec_has_sep((#[trigger] lines@[i])@),
    ensures
        ({
            let c = spec_lookup(lines.deep_view(), "created"@);
            let m = spec_lookup(lines.deep_view(), "modified"@);
            &&& (r is Ok <==> (c is Some && m is Some && spec_dt_parses(c->0)
                && spec_dt_parses(m->0)))
            &&& (r matches Ok(f) ==> (c is Some && m is Some && f.path@ == path@ && f.created
                == spec_parse_dt(c->0) && f.modified == spec_parse_dt(m->0) && f.created.valid()
                && f.modified.valid()))
            &&& (c is None || m is None ==> (r matches Err(e) && e@
                == "file info output has no created or modified time"@))
            &&& (c is Some && m is Some && !(spec_dt_parses(c->0) && spec_dt_parses(m->0)) ==> (
            r matches Err(e) && e@ == "invalid datetime string"@))
        }),
{
    let raw = parse_output(lines);
    match (raw.created, raw.modified) {
        (Some(created_str), Some(modified_str)) => {
            let created = match str_to_dt(created_str.as_str()) {
                Ok(t) => t,
                Err(e) => {
                    return Err(e);
                },
            };
            let modified = match str_to_dt(modified_str.as_str()) {
                Ok(t) => t,
                Err(e) => {
                    return Err(e);
                },
            };
            Ok(FileInfo { path: path.to_owned(), created, modified })
        },
        _ => Err(String::from_str("file info output has no created or modified time")),
    }
}

} // verus!
