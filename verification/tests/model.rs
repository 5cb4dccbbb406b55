//! Tests of the verified extraction core over page models built in place.

use pdf::font::ToUnicodeMap;

use pdftext::cache::FontCache;
use pdftext::decode::{FontInfo, FontModel, TextEncoding};
use pdftext::extract::extract_pages;
use pdftext::page::{GsFont, PageModel, PdfOp, TextItem};

fn cmap_of(pairs: &[(u16, &str)]) -> ToUnicodeMap {
    ToUnicodeMap::create(pairs.iter().map(|(k, v)| (*k, (*v).into())))
}

fn ascii_identity_cmap() -> ToUnicodeMap {
    let mut map = ToUnicodeMap::new();
    for b in 0x20u16..0x7f {
        let c = (b as u8) as char;
        let mut s = String::new();
        s.push(c);
        map.insert(b, s.as_str().into());
    }
    map
}

fn ascii_font() -> FontModel {
    FontModel {
        name: None,
        encoding: Some(TextEncoding::SingleByte),
        cmap: Some(ascii_identity_cmap()),
    }
}

#[test]
fn one_page_latin_text() {
    let page = PageModel {
        fonts: vec![("F1".to_string(), ascii_font())],
        gs_fonts: vec![],
        ops: vec![
            PdfOp::SetTextFont { name: "F1".to_string() },
            PdfOp::DrawText { bytes: b"Hello World".to_vec() },
        ],
    };
    let out = extract_pages(&vec![page]);
    assert_eq!(out, "Hello World");
}

#[test]
fn newline_between_draws() {
    let page = PageModel {
        fonts: vec![("F1".to_string(), ascii_font())],
        gs_fonts: vec![],
        ops: vec![
            PdfOp::SetTextFont { name: "F1".to_string() },
            PdfOp::DrawText { bytes: b"ab".to_vec() },
            PdfOp::NewLine,
            PdfOp::DrawText { bytes: b"cd".to_vec() },
        ],
    };
    let out = extract_pages(&vec![page]);
    assert_eq!(out, "ab\ncd");
}

#[test]
fn two_pages_use_their_own_caches() {
    let first = FontModel {
        name: None,
        encoding: Some(TextEncoding::SingleByte),
        cmap: Some(cmap_of(&[(0x41, "X")])),
    };
    let second = FontModel {
        name: None,
        encoding: Some(TextEncoding::SingleByte),
        cmap: Some(cmap_of(&[(0x41, "Y")])),
    };
    let page_one = PageModel {
        fonts: vec![("F1".to_string(), first)],
        gs_fonts: vec![],
        ops: vec![
            PdfOp::SetTextFont { name: "F1".to_string() },
            PdfOp::DrawText { bytes: b"A".to_vec() },
        ],
    };
    let page_two = PageModel {
        fonts: vec![("F1".to_string(), second)],
        gs_fonts: vec![],
        ops: vec![
            PdfOp::SetTextFont { name: "F1".to_string() },
            PdfOp::DrawText { bytes: b"A".to_vec() },
        ],
    };
    let out = extract_pages(&vec![page_one, page_two]);
    assert_eq!(out, "XY");
}

#[test]
fn adjusted_array_keeps_only_strings_in_order() {
    let page = PageModel {
        fonts: vec![("F1".to_string(), ascii_font())],
        gs_fonts: vec![],
        ops: vec![
            PdfOp::SetTextFont { name: "F1".to_string() },
            PdfOp::DrawTextAdjusted {
                items: vec![
                    TextItem::Text { bytes: b"He".to_vec() },
                    TextItem::Spacing,
                    TextItem::Text { bytes: b"llo".to_vec() },
                    TextItem::Spacing,
                ],
            },
        ],
    };
    let out = extract_pages(&vec![page]);
    assert_eq!(out, "Hello");
}

#[test]
fn graphics_state_selects_its_font() {
    let gs_font = FontModel {
        name: Some("Helv".to_string()),
        encoding: Some(TextEncoding::SingleByte),
        cmap: Some(cmap_of(&[(0x41, "Z")])),
    };
    let page = PageModel {
        fonts: vec![],
        gs_fonts: vec![GsFont { gs_name: "GS1".to_string(), font: gs_font }],
        ops: vec![
            PdfOp::SetGraphicsState { name: "GS1".to_string() },
            PdfOp::DrawText { bytes: b"A".to_vec() },
        ],
    };
    let out = extract_pages(&vec![page]);
    assert_eq!(out, "Z");
}

#[test]
fn later_selection_operator_wins() {
    let gs_font = FontModel {
        name: Some("Helv".to_string()),
        encoding: Some(TextEncoding::SingleByte),
        cmap: Some(cmap_of(&[(0x41, "Z")])),
    };
    let page = PageModel {
        fonts: vec![("F1".to_string(), ascii_font())],
        gs_fonts: vec![GsFont { gs_name: "GS1".to_string(), font: gs_font }],
        ops: vec![
            PdfOp::SetGraphicsState { name: "GS1".to_string() },
            PdfOp::SetTextFont { name: "F1".to_string() },
            PdfOp::DrawText { bytes: b"A".to_vec() },
        ],
    };
    let out = extract_pages(&vec![page]);
    assert_eq!(out, "A");
}

#[test]
fn double_byte_identity_decoding() {
    let info = FontInfo {
        encoding: Some(TextEncoding::DoubleByteIdentity),
        cmap: cmap_of(&[(0x0041, "A"), (0x0042, "B")]),
    };
    // Two complete codes, then an unmapped code, then an odd trailing byte.
    let out = info.decode(&[0x00, 0x41, 0x00, 0x42, 0x00, 0x99, 0x41]);
    assert_eq!(out, Some("AB".to_string()));
}

#[test]
fn double_byte_ligature_expansion() {
    let info = FontInfo {
        encoding: Some(TextEncoding::DoubleByteIdentity),
        cmap: cmap_of(&[(0x0001, "ffi")]),
    };
    let out = info.decode(&[0x00, 0x01]);
    assert_eq!(out, Some("ffi".to_string()));
}

#[test]
fn single_byte_fallback_to_code_point() {
    let info = FontInfo {
        encoding: Some(TextEncoding::SingleByte),
        cmap: cmap_of(&[(0x61, "Q")]),
    };
    // 0x61 is mapped, 0x48 falls back to 'H'.
    let out = info.decode(&[0x48, 0x61]);
    assert_eq!(out, Some("HQ".to_string()));
}

#[test]
fn missing_encoding_yields_none() {
    let info = FontInfo { encoding: None, cmap: cmap_of(&[(0x41, "A")]) };
    assert_eq!(info.decode(b"anything"), None);
}

#[test]
fn untracked_font_never_cached() {
    let mut cache = FontCache::new();
    let no_table = FontModel {
        name: None,
        encoding: Some(TextEncoding::SingleByte),
        cmap: None,
    };
    cache.add_font("F1".to_string(), &no_table);
    cache.select_font(Some("F1".to_string()));
    assert_eq!(cache.decode(b"abc"), None);
}

#[test]
fn empty_bytes_decode_to_empty_string() {
    let mut cache = FontCache::new();
    cache.add_font("F1".to_string(), &ascii_font());
    cache.select_font(Some("F1".to_string()));
    assert_eq!(cache.decode(&[]), Some(String::new()));
}

#[test]
fn empty_bytes_with_unregistered_selection() {
    let mut cache = FontCache::new();
    cache.select_font(Some("F1".to_string()));
    assert_eq!(cache.decode(&[]), None);
}

#[test]
fn clearing_selection_stops_decoding() {
    let mut cache = FontCache::new();
    cache.add_font("F1".to_string(), &ascii_font());
    cache.select_font(Some("F1".to_string()));
    assert_eq!(cache.decode(b"Hi"), Some("Hi".to_string()));
    cache.select_font(None);
    assert_eq!(cache.decode(b"Hi"), None);
}

#[test]
fn registration_replaces_earlier_entry() {
    let mut cache = FontCache::new();
    let first = FontModel {
        name: None,
        encoding: Some(TextEncoding::SingleByte),
        cmap: Some(cmap_of(&[(0x41, "X")])),
    };
    let second = FontModel {
        name: None,
        encoding: Some(TextEncoding::SingleByte),
        cmap: Some(cmap_of(&[(0x41, "Y")])),
    };
    cache.add_font("F1".to_string(), &first);
    cache.add_font("F1".to_string(), &second);
    cache.select_font(Some("F1".to_string()));
    assert_eq!(cache.decode(b"A"), Some("Y".to_string()));
}

#[test]
fn double_byte_output_at_most_half_input() {
    // Every table entry one character long: four input bytes, two output chars.
    let info = FontInfo {
        encoding: Some(TextEncoding::DoubleByteIdentity),
        cmap: cmap_of(&[(0x0041, "A"), (0x0042, "B"), (0x0043, "")]),
    };
    let out = info.decode(&[0x00, 0x41, 0x00, 0x42]).unwrap();
    assert!(out.chars().count() * 2 <= 4);
    assert_eq!(out, "AB");
    // An entry mapping to the empty string contributes nothing.
    let out = info.decode(&[0x00, 0x43, 0x00, 0x41]).unwrap();
    assert_eq!(out, "A");
}
