//! End-to-end tests: whole PDF documents built as bytes and run through
//! `extract_pdf_bytes`, which parses them with the `pdf` crate and decodes the
//! text with the verified core.

use pdftext::extract::{extract_pdf_bytes, ExtractError};

/// Assemble a PDF from numbered objects (1..=n, in order), computing the
/// cross-reference offsets.
fn build_pdf(objects: &[Vec<u8>]) -> Vec<u8> {
    let mut out: Vec<u8> = b"%PDF-1.4\n".to_vec();
    let mut offsets: Vec<usize> = Vec::new();
    for (idx, body) in objects.iter().enumerate() {
        offsets.push(out.len());
        out.extend_from_slice(format!("{} 0 obj\n", idx + 1).as_bytes());
        out.extend_from_slice(body);
        out.extend_from_slice(b"\nendobj\n");
    }
    let xref_pos = out.len();
    out.extend_from_slice(format!("xref\n0 {}\n", objects.len() + 1).as_bytes());
    out.extend_from_slice(b"0000000000 65535 f \n");
    for off in &offsets {
        out.extend_from_slice(format!("{:010} 00000 n \n", off).as_bytes());
    }
    out.extend_from_slice(
        format!(
            "trailer\n<< /Root 1 0 R /Size {} >>\nstartxref\n{}\n%%EOF",
            objects.len() + 1,
            xref_pos
        )
        .as_bytes(),
    );
    out
}

fn stream_obj(dict_extra: &str, content: &[u8]) -> Vec<u8> {
    let mut obj = format!("<< /Length {} {} >>\nstream\n", content.len(), dict_extra).into_bytes();
    obj.extend_from_slice(content);
    obj.extend_from_slice(b"\nendstream");
    obj
}

fn ascii_to_unicode_cmap() -> Vec<u8> {
    stream_obj(
        "",
        b"/CIDInit /ProcSet findresource begin\n12 dict begin\nbegincmap\n1 beginbfrange\n<20> <7e> <0020>\nendbfrange\nendcmap\nend\nend",
    )
}

#[test]
fn latin_page_end_to_end() {
    let pdf_bytes = build_pdf(&[
        b"<< /Type /Catalog /Pages 2 0 R >>".to_vec(),
        b"<< /Type /Pages /Kids [3 0 R] /Count 1 /MediaBox [0 0 300 144] >>".to_vec(),
        b"<< /Type /Page /Parent 2 0 R /Resources << /Font << /F1 4 0 R >> >> /Contents 5 0 R >>"
            .to_vec(),
        b"<< /Type /Font /Subtype /Type1 /BaseFont /Times-Roman /Encoding /WinAnsiEncoding /ToUnicode 6 0 R >>"
            .to_vec(),
        stream_obj("", b"BT\n/F1 18 Tf\n0 0 Td\n(Hello World) Tj\nET"),
        ascii_to_unicode_cmap(),
    ]);
    let out = extract_pdf_bytes(&pdf_bytes).expect("extraction should succeed");
    assert_eq!(out, "Hello World");
}

#[test]
fn newline_operator_end_to_end() {
    let pdf_bytes = build_pdf(&[
        b"<< /Type /Catalog /Pages 2 0 R >>".to_vec(),
        b"<< /Type /Pages /Kids [3 0 R] /Count 1 /MediaBox [0 0 300 144] >>".to_vec(),
        b"<< /Type /Page /Parent 2 0 R /Resources << /Font << /F1 4 0 R >> >> /Contents 5 0 R >>"
            .to_vec(),
        b"<< /Type /Font /Subtype /Type1 /BaseFont /Times-Roman /Encoding /WinAnsiEncoding /ToUnicode 6 0 R >>"
            .to_vec(),
        stream_obj("", b"BT\n/F1 18 Tf\n(ab) Tj\nT*\n(cd) Tj\nET"),
        ascii_to_unicode_cmap(),
    ]);
    let out = extract_pdf_bytes(&pdf_bytes).expect("extraction should succeed");
    assert_eq!(out, "ab\ncd");
}

#[test]
fn unparsable_bytes_fail_at_parse() {
    let r = extract_pdf_bytes(b"this is not a pdf document at all");
    assert!(matches!(r, Err(ExtractError::Parse(_))));
}

#[test]
fn missing_page_object_fails_page_retrieval() {
    // The page tree names a kid that no object provides.
    let pdf_bytes = build_pdf(&[
        b"<< /Type /Catalog /Pages 2 0 R >>".to_vec(),
        b"<< /Type /Pages /Kids [9 0 R] /Count 1 /MediaBox [0 0 300 144] >>".to_vec(),
    ]);
    let r = extract_pdf_bytes(&pdf_bytes);
    assert!(matches!(r, Err(ExtractError::PageRetrieval(_))));
}

#[test]
fn broken_unicode_table_fails_font_resolution() {
    // The font names a to-Unicode stream whose data cannot be decoded.
    let pdf_bytes = build_pdf(&[
        b"<< /Type /Catalog /Pages 2 0 R >>".to_vec(),
        b"<< /Type /Pages /Kids [3 0 R] /Count 1 /MediaBox [0 0 300 144] >>".to_vec(),
        b"<< /Type /Page /Parent 2 0 R /Resources << /Font << /F1 4 0 R >> >> /Contents 5 0 R >>"
            .to_vec(),
        b"<< /Type /Font /Subtype /Type1 /BaseFont /Times-Roman /Encoding /WinAnsiEncoding /ToUnicode 6 0 R >>"
            .to_vec(),
        stream_obj("", b"BT\n/F1 18 Tf\n(ab) Tj\nET"),
        stream_obj("/Filter /FlateDecode", b"garbage that is not deflate data"),
    ]);
    let r = extract_pdf_bytes(&pdf_bytes);
    assert!(matches!(r, Err(ExtractError::FontResolution(_))));
}

#[test]
fn missing_graphics_state_font_fails_gs_resolution() {
    // A graphics state names a font object that no object provides.
    let pdf_bytes = build_pdf(&[
        b"<< /Type /Catalog /Pages 2 0 R >>".to_vec(),
        b"<< /Type /Pages /Kids [3 0 R] /Count 1 /MediaBox [0 0 300 144] >>".to_vec(),
        b"<< /Type /Page /Parent 2 0 R /Resources << /ExtGState << /GS1 << /Type /ExtGState /Font [9 0 R 12] >> >> >> /Contents 4 0 R >>"
            .to_vec(),
        stream_obj("", b"BT\nET"),
    ]);
    let r = extract_pdf_bytes(&pdf_bytes);
    assert!(matches!(r, Err(ExtractError::GraphicsFontResolution(_))));
}

#[test]
fn page_without_text_extracts_nothing() {
    let pdf_bytes = build_pdf(&[
        b"<< /Type /Catalog /Pages 2 0 R >>".to_vec(),
        b"<< /Type /Pages /Kids [3 0 R] /Count 1 /MediaBox [0 0 300 144] >>".to_vec(),
        b"<< /Type /Page /Parent 2 0 R /Contents 4 0 R >>".to_vec(),
        stream_obj("", b"BT\nET"),
    ]);
    let out = extract_pdf_bytes(&pdf_bytes).expect("extraction should succeed");
    assert_eq!(out, "");
}
