//! Importing an existing file as a timestamped, metadata-tagged note.
//!
//! The target file name is `<dir>/<14-digit-timestamp>-<snake_cased_stem>.org`,
//! the stem being the source file's name without its final extension,
//! case-folded to snake form with the remaining dots turned into
//! underscores.  The note itself is a fixed property block followed by a
//! title line.  Case folding runs through the convert_case crate and the
//! note identifier through the uuid crate; everything around those two calls
//! is verified.

use vstd::prelude::*;

use vstd::utf8::is_ascii_chars;

use crate::strutil;
use crate::timestamp::Timestamp;
use crate::timestamp::spec_org_timestamp;
use crate::timestamp::spec_ts_prefix;
use crate::timestamp::ts_to_prefix;
use crate::timestamp::org_timestamp;

verus! {

/// Which moment gives the target file's 14-digit prefix: the time of the
/// import, or the source file's creation time.
#[derive(Clone, Copy, Debug, PartialEq, Eq, Structural)]
pub enum TsPrefix {
    Now,
    Created,
}

/// What convert_case's snake-case fold returns for a string.
pub uninterp spec fn snake_of(s: Seq<char>) -> Seq<char>;

/// What convert_case's title-case fold returns for a string.
pub uninterp spec fn title_of(s: Seq<char>) -> Seq<char>;

/// The shape the snake fold leaves behind: no ASCII uppercase letter, no
/// space and no hyphen survive it.
pub open spec fn spec_snake_shaped(s: Seq<char>) -> bool {
    forall|i: int| 0 <= i < s.len() ==> !('A' <= #[trigger] s[i] <= 'Z') && s[i] != ' ' && s[i]
        != '-'
}

/// The shape of a finished slug: the snake shape, with no dot left either.
pub open spec fn spec_slug_shaped(s: Seq<char>) -> bool {
    spec_snake_shaped(s) && (forall|i: int| 0 <= i < s.len() ==> #[trigger] s[i] != '.')
}

/// Relies on convert_case's `Casing::to_case` with `Case::Snake`: the
/// snake-cased form of the string, a function of its characters alone.  An
/// empty string stays empty.  Every word is joined lowercased with `_`
/// delimiters, and no lowercase mapping yields an ASCII uppercase letter, so
/// none survives.  Spaces and hyphens are word boundaries the fold consumes
/// — but its splitter works on grapheme clusters, so on non-ASCII input a
/// space or hyphen glued to a combining mark can survive inside a cluster;
/// the no-space, no-hyphen shape is therefore promised for ASCII input only.
#[verifier::external_body]
fn to_snake(s: &str) -> (r: String)
    ensures
        r@ == snake_of(s@),
        s@.len() == 0 ==> r@.len() == 0,
        forall|i: int| 0 <= i < r@.len() ==> !('A' <= #[trigger] r@[i] <= 'Z'),
        is_ascii_chars(s@) ==> spec_snake_shaped(r@),
{
    convert_case::Casing::to_case(&s, convert_case::Case::Snake)
}

/// Relies on convert_case's `Casing::to_case` with `Case::Title`: the
/// title-cased form of the string, a function of its characters alone; an
/// empty string stays empty.
#[verifier::external_body]
fn to_title(s: &str) -> (r: String)
    ensures
        r@ == title_of(s@),
        s@.len() == 0 ==> r@.len() == 0,
{
    convert_case::Casing::to_case(&s, convert_case::Case::Title)
}

/// Relies on uuid's `Uuid::new_v4` and its hyphenated `Display` form: a
/// fresh random version-4 UUID written as 36 characters.  Nothing relates
/// one call's result to another's.
#[verifier::external_body]
pub(crate) fn new_note_id() -> (r: String)
    ensures
        r@.len() == 36,
{
    uuid::Uuid::new_v4().to_string()
}

/// The suffix of `s` after the last occurrence of `c`; all of `s` when `c`
/// does not occur.
pub open spec fn spec_after_last(s: Seq<char>, c: char) -> Seq<char>
    decreases s.len(),
{
    if s.len() == 0 {
        s
    } else if s[s.len() - 1] == c {
        Seq::empty()
    } else {
        spec_after_last(s.drop_last(), c).push(s[s.len() - 1])
    }
}

/// The prefix of `s` before the last occurrence of `c`.
pub open spec fn spec_before_last(s: Seq<char>, c: char) -> Seq<char>
    decreases s.len(),
{
    if s.len() == 0 {
        s
    } else if s[s.len() - 1] == c {
        s.drop_last()
    } else {
        spec_before_last(s.drop_last(), c)
    }
}

proof fn lemma_after_last_at(s: Seq<char>, c: char, i: int)
    requires
        0 <= i < s.len(),
        s[i] == c,
        forall|j: int| i < j < s.len() ==> s[j] != c,
    ensures
        spec_after_last(s, c) == s.subrange(i + 1, s.len() as int),
    decreases s.len(),
{
    if i == s.len() - 1 {
        assert(spec_after_last(s, c) =~= s.subrange(i + 1, s.len() as int));
    } else {
        lemma_after_last_at(s.drop_last(), c, i);
        assert(s.drop_last().subrange(i + 1, s.len() - 1) =~= s.subrange(i + 1, s.len() - 1));
        assert(s.subrange(i + 1, s.len() - 1).push(s[s.len() - 1]) =~= s.subrange(
            i + 1,
            s.len() as int,
        ));
    }
}

proof fn lemma_after_last_absent(s: Seq<char>, c: char)
    requires
        forall|j: int| 0 <= j < s.len() ==> s[j] != c,
    ensures
        spec_after_last(s, c) == s,
    decreases s.len(),
{
    if s.len() > 0 {
        lemma_after_last_absent(s.drop_last(), c);
        assert(s.drop_last().push(s[s.len() - 1]) =~= s);
    }
}

proof fn lemma_before_last_at(s: Seq<char>, c: char, i: int)
    requires
        0 <= i < s.len(),
        s[i] == c,
        forall|j: int| i < j < s.len() ==> s[j] != c,
    ensures
        spec_before_last(s, c) == s.take(i),
    decreases s.len(),
{
    if i == s.len() - 1 {
        assert(s.drop_last() =~= s.take(i));
    } else {
        lemma_before_last_at(s.drop_last(), c, i);
        assert(s.drop_last().take(i) =~= s.take(i));
    }
}

/// `s` without its trailing `c` characters.
pub open spec fn spec_strip_trailing(s: Seq<char>, c: char) -> Seq<char>
    decreases s.len(),
{
    if s.len() > 0 && s[s.len() - 1] == c {
        spec_strip_trailing(s.drop_last(), c)
    } else {
        s
    }
}

proof fn lemma_strip_trailing_take(s: Seq<char>, c: char, end: int)
    requires
        0 <= end <= s.len(),
        forall|j: int| end <= j < s.len() ==> s[j] == c,
        end == 0 || s[end - 1] != c,
    ensures
        spec_strip_trailing(s, c) == s.take(end),
    decreases s.len(),
{
    if end == s.len() {
        assert(s.take(end) =~= s);
    } else {
        lemma_strip_trailing_take(s.drop_last(), c, end);
        assert(s.drop_last().take(end) =~= s.take(end));
    }
}

/// The final path component: what stands after the last `/`, once trailing
/// `/` characters are set aside (as the platform's own path rules do).  A
/// path of nothing but separators has an empty file name; the functions that
/// need a stem ask for a nonempty one in their `requires`, so such paths
/// stay outside their domain.
pub open spec fn spec_file_name(path: Seq<char>) -> Seq<char> {
    spec_after_last(spec_strip_trailing(path, '/'), '/')
}

/// The file name without its final extension.  A dot at the very start of
/// the name opens no extension: a name whose only dot is its first character
/// is its own stem.  A name of nothing but dots keeps its first character
/// (`".."` has the stem `"."`) — the platform's rules instead see no file
/// name at all in such a path.
pub open spec fn spec_file_stem(path: Seq<char>) -> Seq<char> {
    let name = spec_file_name(path);
    if exists|j: int| 1 <= j < name.len() && name[j] == '.' {
        spec_before_last(name, '.')
    } else {
        name
    }
}

proof fn lemma_after_last_ascii(s: Seq<char>, c: char)
    requires
        is_ascii_chars(s),
    ensures
        is_ascii_chars(spec_after_last(s, c)),
    decreases s.len(),
{
    if s.len() > 0 && s[s.len() - 1] != c {
        assert(is_ascii_chars(s.drop_last()));
        lemma_after_last_ascii(s.drop_last(), c);
    }
}

proof fn lemma_before_last_ascii(s: Seq<char>, c: char)
    requires
        is_ascii_chars(s),
    ensures
        is_ascii_chars(spec_before_last(s, c)),
    decreases s.len(),
{
    if s.len() > 0 {
        assert(is_ascii_chars(s.drop_last()));
        if s[s.len() - 1] != c {
            lemma_before_last_ascii(s.drop_last(), c);
        }
    }
}

proof fn lemma_strip_trailing_ascii(s: Seq<char>, c: char)
    requires
        is_ascii_chars(s),
    ensures
        is_ascii_chars(spec_strip_trailing(s, c)),
    decreases s.len(),
{
    if s.len() > 0 && s[s.len() - 1] == c {
        assert(is_ascii_chars(s.drop_last()));
        lemma_strip_trailing_ascii(s.drop_last(), c);
    }
}

/// A stem drawn from an all-ASCII path is itself all-ASCII.
proof fn lemma_file_stem_ascii(path: Seq<char>)
    requires
        is_ascii_chars(path),
    ensures
        is_ascii_chars(spec_file_stem(path)),
{
    lemma_strip_trailing_ascii(path, '/');
    lemma_after_last_ascii(spec_strip_trailing(path, '/'), '/');
    lemma_before_last_ascii(spec_file_name(path), '.');
}

/// The snake-cased slug of a path's file stem: the stem case-folded to snake
/// form, with every remaining dot replaced by an underscore.
pub open spec fn spec_slug(path: Seq<char>) -> Seq<char> {
    strutil::spec_replace_char(snake_of(spec_file_stem(path)), '.', '_')
}

/// Returns the final path component of `filepath` as a borrowed slice,
/// trailing `/` characters set aside.
fn file_name_part(filepath: &str) -> (r: &str)
    ensures
        r@ == spec_file_name(filepath@),
{
    let len = filepath.unicode_len();
    let mut end: usize = len;
    while end > 0 && filepath.get_char(end - 1) == '/'
        invariant
            len == filepath@.len(),
            end <= len,
            forall|j: int| end <= j < len ==> filepath@[j] == '/',
        decreases end,
    {
        end = end - 1;
    }
    let trimmed = filepath.substring_char(0, end);
    proof {
        lemma_strip_trailing_take(filepath@, '/', end as int);
        assert(filepath@.subrange(0, end as int) =~= filepath@.take(end as int));
    }
    match strutil::last_index_of_char(trimmed, '/') {
        Some(i) => {
            let r = trimmed.substring_char(i + 1, end);
            proof {
                lemma_after_last_at(trimmed@, '/', i as int);
            }
            r
        },
        None => {
            proof {
                lemma_after_last_absent(trimmed@, '/');
            }
            trimmed
        },
    }
}

/// Returns the file stem of `filepath`: its final path component without the
/// final extension.
pub fn file_stem_part(filepath: &str) -> (r: &str)
    ensures
        r@ == spec_file_stem(filepath@),
{
    let name = file_name_part(filepath);
    match strutil::last_index_of_char(name, '.') {
        Some(d) => {
            if d > 0 {
                let r = name.substring_char(0, d);
                proof {
                    lemma_before_last_at(name@, '.', d as int);
                    assert(name@.subrange(0, d as int) =~= name@.take(d as int));
                }
                r
            } else {
                name
            }
        },
        None => name,
    }
}

/// Returns the snake-cased slug of the source file's name: the stem without
/// the final extension, case-folded to snake form, dots turned into
/// underscores.
pub fn filename_slug(filepath: &str) -> (r: String)
    requires
        spec_file_name(filepath@).len() > 0,
    ensures
        r@ == spec_slug(filepath@),
        forall|i: int| 0 <= i < r@.len() ==> !('A' <= #[trigger] r@[i] <= 'Z') && r@[i] != '.',
        is_ascii_chars(filepath@) ==> spec_slug_shaped(r@),
{
    let stem = file_stem_part(filepath);
    let snake = to_snake(stem);
    let r = strutil::replace_char(snake.as_str(), '.', '_');
    proof {
        assert forall|i: int| 0 <= i < r@.len() implies !('A' <= #[trigger] r@[i] <= 'Z') && r@[i]
            != '.' by {
            assert(r@[i] == if snake@[i] == '.' {
                '_'
            } else {
                snake@[i]
            });
        }
        if is_ascii_chars(filepath@) {
            lemma_file_stem_ascii(filepath@);
            assert forall|i: int| 0 <= i < r@.len() implies !('A' <= #[trigger] r@[i] <= 'Z')
                && r@[i] != ' ' && r@[i] != '-' && r@[i] != '.' by {
                assert(r@[i] == if snake@[i] == '.' {
                    '_'
                } else {
                    snake@[i]
                });
                assert(!('A' <= snake@[i] <= 'Z') && snake@[i] != ' ' && snake@[i] != '-');
            }
        }
    }
    r
}

/// The note title derived from a source file's name: its slug, case-folded
/// to title form.
pub open spec fn spec_derived_title(path: Seq<char>) -> Seq<char> {
    title_of(spec_slug(path))
}

/// Returns the title derived from the source file's name.
pub fn make_title(filepath: &str) -> (r: String)
    requires
        spec_file_name(filepath@).len() > 0,
    ensures
        r@ == spec_derived_title(filepath@),
{
    let slug = filename_slug(filepath);
    to_title(slug.as_str())
}

/// The target path of an import: the directory, then
/// `<14-digit-timestamp>-<slug>.org`.
pub open spec fn spec_target_filepath(target_dir: Seq<char>, src: Seq<char>, ts: Timestamp) -> Seq<
    char,
> {
    target_dir + "/"@ + spec_ts_prefix(ts) + "-"@ + spec_slug(src) + ".org"@
}

/// Returns the path the note will be written to: the target directory joined
/// (with a `/`) to the timestamp prefix, a hyphen, the source file's slug
/// and the `.org` extension.
pub fn target_filepath(target_dir: &str, src: &str, ts: &Timestamp) -> (r: String)
    requires
        ts.wf(),
        spec_file_name(src@).len() > 0,
    ensures
        r@ == spec_target_filepath(target_dir@, src@, *ts),
{
    let mut r = target_dir.to_owned();
    r.append("/");
    r.append(ts_to_prefix(ts).as_str());
    r.append("-");
    r.append(filename_slug(src).as_str());
    r.append(".org");
    proof {
        assert(r@ =~= spec_target_filepath(target_dir@, src@, *ts));
    }
    r
}

/// The note's fixed property block and title line: identifier, original
/// path, import time, original creation time, then the title and one blank
/// line.
pub open spec fn spec_note_skeleton(
    id: Seq<char>,
    orig_filepath: Seq<char>,
    title: Seq<char>,
    imported_at: Timestamp,
    created_at: Timestamp,
) -> Seq<char> {
    ":PROPERTIES:\n:ID:               "@ + id + "\n:ORIG_NOTE:        "@ + orig_filepath
        + "\n:ORIG_IMPORTED_AT: "@ + spec_org_timestamp(imported_at) + "\n:ORIG_CREATED_AT:  "@
        + spec_org_timestamp(created_at) + "\n:END:\n#+title: "@ + title + "\n\n"@
}

/// Returns the note skeleton: the property block naming the identifier, the
/// original path, the import time and the original creation time, followed
/// by the title line and a blank line.
pub fn note_skeleton(
    id: &str,
    orig_filepath: &str,
    title: &String,
    imported_at: &Timestamp,
    created_at: &Timestamp,
) -> (r: String)
    requires
        imported_at.wf(),
        created_at.wf(),
    ensures
        r@ == spec_note_skeleton(id@, orig_filepath@, title@, *imported_at, *created_at),
{
    let mut r = String::from_str(":PROPERTIES:\n:ID:               ");
    r.append(id);
    r.append("\n:ORIG_NOTE:        ");
    r.append(orig_filepath);
    r.append("\n:ORIG_IMPORTED_AT: ");
    r.append(org_timestamp(imported_at).as_str());
    r.append("\n:ORIG_CREATED_AT:  ");
    r.append(org_timestamp(created_at).as_str());
    r.append("\n:END:\n#+title: ");
    r.append(title.as_str());
    r.append("\n\n");
    proof {
        assert(r@ =~= spec_note_skeleton(id@, orig_filepath@, title@, *imported_at, *created_at));
    }
    r
}

/// The timestamp the prefix selection points at.
pub open spec fn spec_chosen_ts(prefix: TsPrefix, now: Timestamp, created: Timestamp) -> Timestamp {
    match prefix {
        TsPrefix::Now => now,
        TsPrefix::Created => created,
    }
}

/// The note's title: the given one, or the one derived from the source
/// file's name.
pub open spec fn spec_note_title(title: Option<String>, filepath: Seq<char>) -> Seq<char> {
    match title {
        Some(t) => t@,
        None => spec_derived_title(filepath),
    }
}

/// The whole import decision, short of the filesystem itself.  The caller
/// reports whether the target path exists (`None`: the lookup failed) and
/// supplies the two timestamps; the function answers with the target path
/// and the note content to write there, or with the error to show.  An
/// existing target is never overwritten.
pub fn cli_import(
    filepath: &str,
    target_dir: &str,
    ts_prefix: &TsPrefix,
    title: &Option<String>,
    now: &Timestamp,
    created: &Timestamp,
    target_exists: Option<bool>,
) -> (r: Result<(String, String), String>)
    requires
        now.wf(),
        created.wf(),
        spec_file_name(filepath@).len() > 0,
    ensures
        target_exists == Some::<bool>(false) ==> (r matches Ok(p) && p.0@ == spec_target_filepath(
            target_dir@,
            filepath@,
            spec_chosen_ts(*ts_prefix, *now, *created),
        ) && exists|id: Seq<char>|
            id.len() == 36 && p.1@ == spec_note_skeleton(
                id,
                filepath@,
                spec_note_title(*title, filepath@),
                *now,
                *created,
            )),
        target_exists == Some::<bool>(true) ==> (r matches Err(e) && e@
            == "File already exists. Aborting"@),
        target_exists is None ==> (r matches Err(e) && e@
            == "Unable to check existence of target file"@),
{
    match target_exists {
        Some(false) => {
            let ts = match ts_prefix {
                TsPrefix::Now => now,
                TsPrefix::Created => created,
            };
            let target = target_filepath(target_dir, filepath, ts);
            let note_title = match title {
                Some(s) => s.clone(),
                None => make_title(filepath),
            };
            let note_id = new_note_id();
            let content = note_skeleton(note_id.as_str(), filepath, &note_title, now, created);
            proof {
                assert(content@ == spec_note_skeleton(
                    note_id@,
                    filepath@,
                    spec_note_title(*title, filepath@),
                    *now,
                    *created,
                ));
            }
            Ok((target, content))
        },
        Some(true) => Err(String::from_str("File already exists. Aborting")),
        None => Err(String::from_str("Unable to check existence of target file")),
    }
}

} // verus!
