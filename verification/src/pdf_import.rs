//! Importing a PDF file as a note.
//!
//! The caller reads the document's bytes and runs pdf-extract over them —
//! that crate can panic on malformed documents, so the program guards the
//! call and hands the library a plain outcome: the extracted text, or
//! nothing.  Building the note content around that text, and naming the
//! target file, is verified here; reading the file and writing the note are
//! likewise left to the caller.

use vstd::prelude::*;

use crate::import::spec_file_name;
use crate::import::spec_file_stem;
use crate::import::spec_target_filepath;
use crate::import::target_filepath;
use crate::timestamp::Timestamp;
use crate::timestamp::spec_org_timestamp;
use crate::timestamp::org_timestamp;

verus! {

/// The content of a note imported from a PDF: the property block naming the
/// identifier, the original path and the import time, then the title line, a
/// blank line and the extracted text.
pub open spec fn spec_pdf_note_content(
    id: Seq<char>,
    orig_filepath: Seq<char>,
    title: Seq<char>,
    imported_at: Timestamp,
    text: Seq<char>,
) -> Seq<char> {
    ":PROPERTIES:\n:ID:               "@ + id + "\n:ORIG_NOTE:        "@ + orig_filepath
        + "\n:ORIG_IMPORTED_AT: "@ + spec_org_timestamp(imported_at) + "\n:END:\n#+title: "@
        + title + "\n\n"@ + text + "\n"@
}

/// Returns the content of a note imported from a PDF, around the text the
/// extractor gave.
pub fn pdf_note_content(
    id: &str,
    orig_filepath: &str,
    title: &str,
    imported_at: &Timestamp,
    text: &str,
) -> (r: String)
    requires
        imported_at.wf(),
    ensures
        r@ == spec_pdf_note_content(id@, orig_filepath@, title@, *imported_at, text@),
{
    let mut r = String::from_str(":PROPERTIES:\n:ID:               ");
    r.append(id);
    r.append("\n:ORIG_NOTE:        ");
    r.append(orig_filepath);
    r.append("\n:ORIG_IMPORTED_AT: ");
    r.append(org_timestamp(imported_at).as_str());
    r.append("\n:END:\n#+title: ");
    r.append(title);
    r.append("\n\n");
    r.append(text);
    r.append("\n");
    proof {
        assert(r@ =~= spec_pdf_note_content(id@, orig_filepath@, title@, *imported_at, text@));
    }
    r
}

/// The title of a PDF note: the given one, or the source file's stem.
pub open spec fn spec_pdf_title(title: Option<&str>, filepath: Seq<char>) -> Seq<char> {
    match title {
        Some(t) => t@,
        None => spec_file_stem(filepath),
    }
}

/// The whole PDF import, short of the filesystem and the extractor
/// themselves.  The caller hands in the extractor's outcome on the
/// document's bytes and the import time; the function answers with the
/// target path and the note content to write there — owed whenever the
/// extraction succeeded — and with the error to show when it did not.  The
/// target file's prefix is always the import time.
pub fn import_pdf(
    filepath: &str,
    target_dir: &str,
    title: Option<&str>,
    extracted: Option<String>,
    now: &Timestamp,
) -> (r: Result<(String, String), String>)
    requires
        now.wf(),
        spec_file_name(filepath@).len() > 0,
    ensures
        extracted matches Some(text) ==> (r matches Ok(p) && p.0@ == spec_target_filepath(
            target_dir@,
            filepath@,
            *now,
        ) && exists|id: Seq<char>|
            id.len() == 36 && p.1@ == spec_pdf_note_content(
                id,
                filepath@,
                spec_pdf_title(title, filepath@),
                *now,
                text@,
            )),
        extracted is None ==> (r matches Err(e) && e@ == "unable to extract text from the pdf"@),
{
    let out = match extracted {
        Some(t) => t,
        None => {
            return Err(String::from_str("unable to extract text from the pdf"));
        },
    };
    let note_title = match title {
        Some(t) => t.to_owned(),
        None => crate::import::file_stem_part(filepath).to_owned(),
    };
    let note_id = crate::import::new_note_id();
    let content = pdf_note_content(
        note_id.as_str(),
        filepath,
        note_title.as_str(),
        now,
        out.as_str(),
    );
    let target = target_filepath(target_dir, filepath, now);
    Ok((target, content))
}

} // verus!
