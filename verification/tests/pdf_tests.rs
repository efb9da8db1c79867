use rissois::pdf_import::{import_pdf, pdf_note_content};
use rissois::timestamp::Timestamp;

fn sample_now() -> Timestamp {
    Timestamp {
        year: 2024,
        month: 1,
        day: 2,
        hour: 3,
        minute: 4,
        second: 5,
    }
}

/// A one-page PDF whose page shows the text `Hello World`, with a correct
/// cross-reference table built from the actual object offsets.
fn hello_world_pdf() -> Vec<u8> {
    let header = "%PDF-1.4\n";
    let stream = "BT /F1 24 Tf 72 720 Td (Hello World) Tj ET";
    let objects: Vec<String> = vec![
        String::from("1 0 obj\n<< /Type /Catalog /Pages 2 0 R >>\nendobj\n"),
        String::from("2 0 obj\n<< /Type /Pages /Kids [3 0 R] /Count 1 >>\nendobj\n"),
        String::from(
            "3 0 obj\n<< /Type /Page /Parent 2 0 R /MediaBox [0 0 612 792] \
             /Contents 4 0 R /Resources << /Font << /F1 5 0 R >> >> >>\nendobj\n",
        ),
        format!(
            "4 0 obj\n<< /Length {} >>\nstream\n{}\nendstream\nendobj\n",
            stream.len(),
            stream
        ),
        String::from("5 0 obj\n<< /Type /Font /Subtype /Type1 /BaseFont /Helvetica >>\nendobj\n"),
    ];
    let mut body = String::from(header);
    let mut offsets: Vec<usize> = Vec::new();
    for obj in &objects {
        offsets.push(body.len());
        body.push_str(obj);
    }
    let xref_offset = body.len();
    body.push_str(&format!("xref\n0 {}\n", objects.len() + 1));
    body.push_str("0000000000 65535 f \n");
    for off in &offsets {
        body.push_str(&format!("{:010} 00000 n \n", off));
    }
    body.push_str(&format!(
        "trailer\n<< /Size {} /Root 1 0 R >>\nstartxref\n{}\n%%EOF",
        objects.len() + 1,
        xref_offset
    ));
    body.into_bytes()
}

#[test]
fn test_pdf_note_content_exact() {
    let content = pdf_note_content(
        "0000-id",
        "/notes/paper.pdf",
        "paper",
        &sample_now(),
        "extracted text",
    );
    let expected = ":PROPERTIES:\n\
                    :ID:               0000-id\n\
                    :ORIG_NOTE:        /notes/paper.pdf\n\
                    :ORIG_IMPORTED_AT: [2024-01-02 Tue 03:04]\n\
                    :END:\n\
                    #+title: paper\n\n\
                    extracted text\n";
    assert_eq!(expected, content);
}

#[test]
fn test_import_pdf_extracts_the_text() {
    // The real extractor, on a document built in memory, feeds the import.
    let bytes = hello_world_pdf();
    let extracted = pdf_extract::extract_text_from_mem(&bytes).ok();
    assert!(extracted.is_some());
    assert!(extracted.as_deref().unwrap().contains("Hello World"));
    let (target, content) = import_pdf(
        "/notes/Some Paper.pdf",
        "/tmp",
        None,
        extracted,
        &sample_now(),
    )
    .unwrap();
    assert_eq!("/tmp/20240102030405-some_paper.org", target);
    // The content is built around what the extractor pulled out of the page.
    assert!(content.contains("Hello World"));
    assert!(content.contains("#+title: Some Paper\n"));
    assert!(content.starts_with(":PROPERTIES:\n:ID:               "));
    assert!(content.ends_with("\n"));
}

#[test]
fn test_import_pdf_exact_content() {
    let (target, content) = import_pdf(
        "/notes/paper.pdf",
        "/tmp",
        Some("paper"),
        Some(String::from("body text")),
        &sample_now(),
    )
    .unwrap();
    assert_eq!("/tmp/20240102030405-paper.org", target);
    // Exact but for the fresh 36-character identifier.
    let id_start = ":PROPERTIES:\n:ID:               ".len();
    let id_end = content.find("\n:ORIG_NOTE:").unwrap();
    assert_eq!(36, content[id_start..id_end].len());
    let expected_tail = "\n:ORIG_NOTE:        /notes/paper.pdf\n\
                         :ORIG_IMPORTED_AT: [2024-01-02 Tue 03:04]\n\
                         :END:\n\
                         #+title: paper\n\n\
                         body text\n";
    assert_eq!(expected_tail, &content[id_end..]);
}

#[test]
fn test_import_pdf_title_override() {
    let (_, content) = import_pdf(
        "/notes/Some Paper.pdf",
        "/tmp",
        Some("Chosen"),
        Some(String::from("text")),
        &sample_now(),
    )
    .unwrap();
    assert!(content.contains("#+title: Chosen\n"));
}

#[test]
fn test_import_pdf_reports_unreadable_bytes() {
    // The extractor refuses bytes that are no PDF; the import then reports
    // the failure instead of producing a note.
    let bytes: Vec<u8> = vec![0, 1, 2, 3];
    let extracted = pdf_extract::extract_text_from_mem(&bytes).ok();
    assert!(extracted.is_none());
    let err = import_pdf("/notes/x.pdf", "/tmp", None, extracted, &sample_now()).unwrap_err();
    assert_eq!("unable to extract text from the pdf", err);
}

#[test]
fn test_import_pdf_without_extraction_fails() {
    let err = import_pdf("/notes/x.pdf", "/tmp", None, None, &sample_now()).unwrap_err();
    assert_eq!("unable to extract text from the pdf", err);
}
