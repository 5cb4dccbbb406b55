//! The extraction driver over page models: build a fresh font cache per page,
//! walk the page's operators in order, and append decoded text and newlines to
//! one growing output buffer.

use vstd::prelude::*;
use vstd::string::StringExecFns;

use std::sync::Arc;

use pdf::error::PdfError;
use pdf::font::Font;

use crate::cache::{empty_cache, spec_add_font, spec_cache_decode, CacheView, FontCache};
use crate::decode::{push_char, FontModel, FontModelView};
use crate::page::{GsFont, GsFontView, OpView, PageModel, PageView, PdfOp, TextItem, TextItemView};
use crate::pdfio::{
    doc_of, doc_page_at, doc_page_count, doc_page_ok, doc_resolves, document_page,
    document_page_count, font_cmap, font_cmap_ok, font_encoding_tag, font_name, gs_entry_ok,
    load_document, load_ok, page_content_ok, page_fonts_ok, page_gs_entries, page_gs_fonts_ok,
    page_ops, page_ops_of, page_resolves, page_resource_fonts, resolve_font, DocFile,
};

verus! {

/// The font name a graphics-state activation selects: the name of the font
/// carried by the first listed state with the given name, when that font has a
/// name of its own; nothing otherwise, which leaves the selection unchanged.
pub open spec fn gs_selection(gs: Seq<GsFontView>, name: Seq<char>) -> Option<Seq<char>>
    decreases gs.len(),
{
    if gs.len() == 0 {
        None
    } else if gs[0].gs_name == name {
        gs[0].font.name
    } else {
        gs_selection(gs.drop_first(), name)
    }
}

/// The decoded text one draw operand contributes: the cache's decoding, or
/// nothing on a decode miss.
pub open spec fn decoded_or_empty(c: CacheView, bytes: Seq<u8>) -> Seq<char> {
    match spec_cache_decode(c, bytes) {
        Some(s) => s,
        None => Seq::empty(),
    }
}

/// The text an adjusted draw's array contributes: its string elements decoded
/// and concatenated in array order, its numeric elements ignored.
pub open spec fn adjusted_text(c: CacheView, items: Seq<TextItemView>) -> Seq<char>
    decreases items.len(),
{
    if items.len() == 0 {
        Seq::empty()
    } else {
        (match items[0] {
            TextItemView::Text { bytes } => decoded_or_empty(c, bytes),
            TextItemView::Spacing => Seq::empty(),
        }) + adjusted_text(c, items.drop_first())
    }
}

/// The text one operator appends.
pub open spec fn op_text(c: CacheView, op: OpView) -> Seq<char> {
    match op {
        OpView::DrawText { bytes } => decoded_or_empty(c, bytes),
        OpView::DrawTextAdjusted { items } => adjusted_text(c, items),
        OpView::NewLine => seq!['\n'],
        _ => Seq::empty(),
    }
}

/// The cache state after one operator: the two font-selection operators update
/// the selection, every other operator leaves the cache alone.
pub open spec fn op_state(c: CacheView, gs: Seq<GsFontView>, op: OpView) -> CacheView {
    match op {
        OpView::SetGraphicsState { name } => match gs_selection(gs, name) {
            Some(n) => CacheView { fonts: c.fonts, selected: Some(n) },
            None => c,
        },
        OpView::SetTextFont { name } => CacheView { fonts: c.fonts, selected: Some(name) },
        _ => c,
    }
}

/// The text a whole operator sequence appends, walked in order from cache
/// state `c`; whichever selection operator appears later wins.
pub open spec fn walk_ops(c: CacheView, gs: Seq<GsFontView>, ops: Seq<OpView>) -> Seq<char>
    decreases ops.len(),
{
    if ops.len() == 0 {
        Seq::empty()
    } else {
        op_text(c, ops[0]) + walk_ops(op_state(c, gs, ops[0]), gs, ops.drop_first())
    }
}

/// Registration of the page's resource fonts, in order, each under its
/// resource name.
pub open spec fn register_fonts(c: CacheView, fonts: Seq<(Seq<char>, FontModelView)>) -> CacheView
    decreases fonts.len(),
{
    if fonts.len() == 0 {
        c
    } else {
        register_fonts(spec_add_font(c, fonts[0].0, fonts[0].1), fonts.drop_first())
    }
}

/// Registration of one graphics-state font, under the font's own name; a font
/// without a name cannot be selected by name and is not tracked.
pub open spec fn spec_add_gs_font(c: CacheView, f: FontModelView) -> CacheView {
    match f.name {
        Some(n) => spec_add_font(c, n, f),
        None => c,
    }
}

/// Registration of the page's graphics-state fonts, in order.
pub open spec fn register_gs_fonts(c: CacheView, gs: Seq<GsFontView>) -> CacheView
    decreases gs.len(),
{
    if gs.len() == 0 {
        c
    } else {
        register_gs_fonts(spec_add_gs_font(c, gs[0].font), gs.drop_first())
    }
}

/// The cache a page's resource collection builds, starting from the empty
/// cache: resource fonts first, then graphics-state fonts.
pub open spec fn page_cache(p: PageView) -> CacheView {
    register_gs_fonts(register_fonts(empty_cache(), p.fonts), p.gs_fonts)
}

/// The text one page contributes.
pub open spec fn page_text(p: PageView) -> Seq<char> {
    walk_ops(page_cache(p), p.gs_fonts, p.ops)
}

/// The text a whole document contributes: each page's text, in document order,
/// with nothing in between.
pub open spec fn pages_text(ps: Seq<PageView>) -> Seq<char>
    decreases ps.len(),
{
    if ps.len() == 0 {
        Seq::empty()
    } else {
        page_text(ps[0]) + pages_text(ps.drop_first())
    }
}

/// The font name activating the named graphics state selects, if any.
#[verifier::loop_isolation(false)]
fn gs_font_name(gs_fonts: &Vec<GsFont>, name: &String) -> (r: Option<String>)
    ensures
        r.deep_view() == gs_selection(gs_fonts.deep_view(), name@),
{
    let ghost gsv = gs_fonts.deep_view();
    let mut k: usize = 0;
    proof {
        assert(gsv.skip(0) =~= gsv);
    }
    while k < gs_fonts.len()
        invariant
            k <= gs_fonts.len(),
            gs_selection(gsv.skip(k as int), name@) == gs_selection(gsv, name@),
        decreases gs_fonts.len() - k,
    {
        proof {
            assert(gsv.skip(k as int)[0] == gsv[k as int]);
            assert(gsv.skip(k as int).drop_first() =~= gsv.skip(k as int + 1));
        }
        if gs_fonts[k].gs_name == *name {
            return match &gs_fonts[k].font.name {
                Some(n) => Some(n.clone()),
                None => None,
            };
        }
        k = k + 1;
    }
    None
}

/// Walk one page's operators and append the text they produce to `out`.
#[verifier::loop_isolation(false)]
pub fn append_page_text(page: &PageModel, out: &mut String)
    ensures
        final(out)@ == old(out)@ + page_text(page.deep_view()),
{
    let ghost pv = page.deep_view();
    let mut cache = FontCache::new();

    let mut i: usize = 0;
    proof {
        assert(pv.fonts.skip(0) =~= pv.fonts);
    }
    while i < page.fonts.len()
        invariant
            i <= page.fonts.len(),
            register_fonts(cache@, pv.fonts.skip(i as int)) == register_fonts(
                empty_cache(),
                pv.fonts,
            ),
        decreases page.fonts.len() - i,
    {
        proof {
            assert(pv.fonts.skip(i as int)[0] == pv.fonts[i as int]);
            assert(pv.fonts.skip(i as int).drop_first() =~= pv.fonts.skip(i as int + 1));
        }
        cache.add_font(page.fonts[i].0.clone(), &page.fonts[i].1);
        i = i + 1;
    }
    proof {
        assert(pv.fonts.skip(i as int) =~= Seq::<(Seq<char>, FontModelView)>::empty());
        assert(pv.gs_fonts.skip(0) =~= pv.gs_fonts);
    }

    let mut g: usize = 0;
    while g < page.gs_fonts.len()
        invariant
            g <= page.gs_fonts.len(),
            register_gs_fonts(cache@, pv.gs_fonts.skip(g as int)) == page_cache(pv),
        decreases page.gs_fonts.len() - g,
    {
        proof {
            assert(pv.gs_fonts.skip(g as int)[0] == pv.gs_fonts[g as int]);
            assert(pv.gs_fonts.skip(g as int).drop_first() =~= pv.gs_fonts.skip(g as int + 1));
        }
        match &page.gs_fonts[g].font.name {
            Some(n) => {
                cache.add_font(n.clone(), &page.gs_fonts[g].font);
            },
            None => {},
        }
        g = g + 1;
    }
    proof {
        assert(pv.gs_fonts.skip(g as int) =~= Seq::<GsFontView>::empty());
        assert(cache@ == page_cache(pv));
        assert(pv.ops.skip(0) =~= pv.ops);
        assert(old(out)@ + Seq::<char>::empty() =~= old(out)@);
    }

    let mut j: usize = 0;
    while j < page.ops.len()
        invariant
            j <= page.ops.len(),
            cache@.fonts == page_cache(pv).fonts,
            out@ + walk_ops(cache@, pv.gs_fonts, pv.ops.skip(j as int)) == old(out)@ + walk_ops(
                page_cache(pv),
                pv.gs_fonts,
                pv.ops,
            ),
        decreases page.ops.len() - j,
    {
        let ghost c_in = cache@;
        let ghost pre = out@;
        proof {
            assert(pv.ops.skip(j as int)[0] == pv.ops[j as int]);
            assert(pv.ops.skip(j as int).drop_first() =~= pv.ops.skip(j as int + 1));
        }
        match &page.ops[j] {
            PdfOp::SetGraphicsState { name } => {
                match gs_font_name(&page.gs_fonts, name) {
                    Some(n) => {
                        cache.select_font(Some(n));
                    },
                    None => {},
                }
                proof {
                    assert(cache@ =~= op_state(c_in, pv.gs_fonts, pv.ops[j as int]));
                }
            },
            PdfOp::SetTextFont { name } => {
                cache.select_font(Some(name.clone()));
                proof {
                    assert(cache@ =~= op_state(c_in, pv.gs_fonts, pv.ops[j as int]));
                }
            },
            PdfOp::DrawText { bytes } => {
                match cache.decode(bytes.as_slice()) {
                    Some(t) => {
                        out.append(t.as_str());
                    },
                    None => {},
                }
                proof {
                    assert(out@ =~= pre + op_text(c_in, pv.ops[j as int]));
                }
            },
            PdfOp::DrawTextAdjusted { items } => {
                let ghost itemsv = items.deep_view();
                let mut k: usize = 0;
                proof {
                    assert(itemsv.skip(0) =~= itemsv);
                    assert(pre + Seq::<char>::empty() =~= pre);
                }
                while k < items.len()
                    invariant
                        k <= items.len(),
                        cache@ == c_in,
                        out@ + adjusted_text(c_in, itemsv.skip(k as int)) == pre + adjusted_text(
                            c_in,
                            itemsv,
                        ),
                    decreases items.len() - k,
                {
                    let ghost inner_pre = out@;
                    proof {
                        assert(itemsv.skip(k as int)[0] == itemsv[k as int]);
                        assert(itemsv.skip(k as int).drop_first() =~= itemsv.skip(k as int + 1));
                    }
                    match &items[k] {
                        TextItem::Text { bytes } => {
                            match cache.decode(bytes.as_slice()) {
                                Some(t) => {
                                    out.append(t.as_str());
                                },
                                None => {},
                            }
                            proof {
                                assert(out@ =~= inner_pre + decoded_or_empty(
                                    c_in,
                                    bytes@,
                                ));
                            }
                        },
                        TextItem::Spacing => {},
                    }
                    k = k + 1;
                }
                proof {
                    assert(itemsv.skip(k as int) =~= Seq::<TextItemView>::empty());
                    assert(out@ + Seq::<char>::empty() =~= out@);
                    assert(out@ =~= pre + op_text(c_in, pv.ops[j as int]));
                }
            },
            PdfOp::NewLine => {
                push_char(out, '\n');
                proof {
                    assert(op_text(c_in, pv.ops[j as int]) =~= seq!['\n']);
                }
            },
            PdfOp::Other => {},
        }
        proof {
            assert(out@ =~= pre + op_text(c_in, pv.ops[j as int]));
            assert(cache@ =~= op_state(c_in, pv.gs_fonts, pv.ops[j as int]));
            assert(out@ + walk_ops(cache@, pv.gs_fonts, pv.ops.skip(j as int + 1)) =~= pre
                + walk_ops(c_in, pv.gs_fonts, pv.ops.skip(j as int)));
        }
        j = j + 1;
    }
    proof {
        assert(pv.ops.skip(j as int) =~= Seq::<OpView>::empty());
        assert(out@ + Seq::<char>::empty() =~= out@);
    }
}

/// Extract the text of a whole document given as page models: each page is
/// processed with its own fresh font cache, and the decoded fragments and
/// newlines are concatenated in encounter order.
#[verifier::loop_isolation(false)]
pub fn extract_pages(pages: &Vec<PageModel>) -> (r: String)
    ensures
        r@ == pages_text(pages.deep_view()),
{
    let ghost psv = pages.deep_view();
    let mut out = String::new();
    let mut p: usize = 0;
    proof {
        assert(psv.skip(0) =~= psv);
        assert(Seq::<char>::empty() + pages_text(psv) =~= pages_text(psv));
    }
    while p < pages.len()
        invariant
            p <= pages.len(),
            out@ + pages_text(psv.skip(p as int)) == pages_text(psv),
        decreases pages.len() - p,
    {
        let ghost pre = out@;
        proof {
            assert(psv.skip(p as int)[0] == psv[p as int]);
            assert(psv.skip(p as int).drop_first() =~= psv.skip(p as int + 1));
        }
        append_page_text(&pages[p], &mut out);
        proof {
            assert(out@ + pages_text(psv.skip(p as int + 1)) =~= pre + pages_text(
                psv.skip(p as int),
            ));
        }
        p = p + 1;
    }
    proof {
        assert(pages_text(psv.skip(p as int)) =~= Seq::<char>::empty());
        assert(out@ + Seq::<char>::empty() =~= out@);
    }
    out
}

/// Why an extraction failed, by phase, each carrying the underlying reason.
/// Decode-level misses are never errors; they contribute no text.
#[derive(Debug)]
pub enum ExtractError {
    /// The document bytes could not be parsed.
    Parse(PdfError),
    /// A page could not be materialized, or its content stream not read.
    PageRetrieval(PdfError),
    /// A page font could not be read, or its embedded table not parsed.
    FontResolution(PdfError),
    /// A graphics-state font could not be resolved, or its table not parsed.
    GraphicsFontResolution(PdfError),
}

/// Read the three facets of one font object into a plain model. Fails exactly
/// when the font embeds a code-to-Unicode table that cannot be parsed.
fn font_model(file: &DocFile, f: &Arc<Font>) -> (r: Result<FontModel, PdfError>)
    ensures
        r is Ok <==> font_cmap_ok(*file, *f),
{
    let cmap = match font_cmap(file, f) {
        None => None,
        Some(Ok(m)) => Some(m),
        Some(Err(e)) => {
            return Err(e);
        },
    };
    Ok(FontModel { name: font_name(f), encoding: font_encoding_tag(f), cmap })
}

/// Collect everything text extraction reads from one page: the resource
/// fonts, the graphics-state fonts, and the reduced operator sequence.
/// Succeeds exactly when all three per-page phases read; a failure carries
/// the phase that failed.
#[verifier::loop_isolation(false)]
fn build_page_model(file: &DocFile, page: &pdf::object::PageRc) -> (r: Result<
    PageModel,
    ExtractError,
>)
    ensures
        r is Ok <==> (page_fonts_ok(*file, *page) && page_gs_fonts_ok(*file, *page)
            && page_content_ok(*file, *page)),
        r matches Ok(m) ==> m.deep_view().ops == page_ops_of(*file, *page),
        r matches Err(ExtractError::FontResolution(_)) ==> !page_fonts_ok(*file, *page),
        r matches Err(ExtractError::GraphicsFontResolution(_)) ==> !page_gs_fonts_ok(
            *file,
            *page,
        ),
        r matches Err(ExtractError::PageRetrieval(_)) ==> !page_content_ok(*file, *page),
        !(r matches Err(ExtractError::Parse(_))),
{
    let rfonts = page_resource_fonts(file, page);
    let mut fonts: Vec<(String, FontModel)> = Vec::new();
    let mut i: usize = 0;
    while i < rfonts.len()
        invariant
            i <= rfonts.len(),
            forall|k: int| 0 <= k < i ==> font_cmap_ok(*file, rfonts@[k].1),
        decreases rfonts.len() - i,
    {
        let fm = match font_model(file, &rfonts[i].1) {
            Ok(m) => m,
            Err(e) => {
                proof {
                    assert(!font_cmap_ok(*file, rfonts@[i as int].1));
                    assert(!page_fonts_ok(*file, *page));
                }
                return Err(ExtractError::FontResolution(e));
            },
        };
        fonts.push((rfonts[i].0.clone(), fm));
        i = i + 1;
    }
    proof {
        assert(page_fonts_ok(*file, *page));
    }
    let gs_entries = page_gs_entries(file, page);
    let mut gs_fonts: Vec<GsFont> = Vec::new();
    let mut g: usize = 0;
    while g < gs_entries.len()
        invariant
            g <= gs_entries.len(),
            forall|k: int| 0 <= k < g ==> gs_entry_ok(*file, gs_entries@[k].1),
        decreases gs_entries.len() - g,
    {
        match &gs_entries[g].1 {
            Some(r) => {
                let af = match resolve_font(file, r) {
                    Ok(a) => a,
                    Err(e) => {
                        proof {
                            assert(!gs_entry_ok(*file, gs_entries@[g as int].1));
                            assert(!page_gs_fonts_ok(*file, *page));
                        }
                        return Err(ExtractError::GraphicsFontResolution(e));
                    },
                };
                let fm = match font_model(file, &af) {
                    Ok(m) => m,
                    Err(e) => {
                        proof {
                            assert(!gs_entry_ok(*file, gs_entries@[g as int].1));
                            assert(!page_gs_fonts_ok(*file, *page));
                        }
                        return Err(ExtractError::GraphicsFontResolution(e));
                    },
                };
                gs_fonts.push(GsFont { gs_name: gs_entries[g].0.clone(), font: fm });
            },
            None => {},
        }
        g = g + 1;
    }
    proof {
        assert(page_gs_fonts_ok(*file, *page));
    }
    let ops = match page_ops(file, page) {
        Ok(o) => o,
        Err(e) => {
            return Err(ExtractError::PageRetrieval(e));
        },
    };
    Ok(PageModel { fonts, gs_fonts, ops })
}

/// Extract the text of a parsed document: pages in document order, each with
/// its own fresh font cache. Succeeds exactly when every page materializes
/// and resolves; a failure carries the phase that failed, and no partial text
/// is returned. Decode misses contribute nothing and never fail. The result
/// is `pages_text` of the collected page models: their operator streams are
/// pinned to the document by `page_ops_of`; the font lists are collected in
/// dictionary order, which the document does not fix.
#[verifier::loop_isolation(false)]
pub fn extract_pdf(file: &DocFile) -> (r: Result<String, ExtractError>)
    ensures
        r is Ok <==> doc_resolves(*file),
        r matches Ok(s) ==> (exists|ms: Seq<PageView>|
            {
                &&& s@ == pages_text(ms)
                &&& ms.len() == doc_page_count(*file)
                &&& (forall|k: u32|
                    k < doc_page_count(*file) ==> #[trigger] ms[k as int].ops == page_ops_of(
                        *file,
                        doc_page_at(*file, k),
                    ))
            }),
        r matches Err(ExtractError::PageRetrieval(_)) ==> (exists|k: u32|
            k < doc_page_count(*file) && (!doc_page_ok(*file, k) || !page_content_ok(
                *file,
                doc_page_at(*file, k),
            ))),
        r matches Err(ExtractError::FontResolution(_)) ==> (exists|k: u32|
            k < doc_page_count(*file) && !page_fonts_ok(*file, doc_page_at(*file, k))),
        r matches Err(ExtractError::GraphicsFontResolution(_)) ==> (exists|k: u32|
            k < doc_page_count(*file) && !page_gs_fonts_ok(*file, doc_page_at(*file, k))),
        !(r matches Err(ExtractError::Parse(_))),
{
    let n = document_page_count(file);
    let mut models: Vec<PageModel> = Vec::new();
    let mut i: u32 = 0;
    while i < n
        invariant
            i <= n,
            models@.len() == i as int,
            forall|k: u32| k < i ==> #[trigger] page_resolves(*file, k),
            forall|k: int|
                0 <= k < i as int ==> #[trigger] models.deep_view()[k].ops == page_ops_of(
                    *file,
                    doc_page_at(*file, k as u32),
                ),
        decreases n - i,
    {
        let page = match document_page(file, i) {
            Ok(p) => p,
            Err(e) => {
                proof {
                    assert(!page_resolves(*file, i));
                }
                return Err(ExtractError::PageRetrieval(e));
            },
        };
        let model = match build_page_model(file, &page) {
            Ok(m) => m,
            Err(e) => {
                proof {
                    assert(!page_resolves(*file, i));
                }
                return Err(e);
            },
        };
        let ghost prev = models.deep_view();
        models.push(model);
        proof {
            assert forall|k: int|
                0 <= k <= i as int implies #[trigger] models.deep_view()[k].ops == page_ops_of(
                *file,
                doc_page_at(*file, k as u32),
            ) by {
                if k < i as int {
                    assert(models.deep_view()[k] == prev[k]);
                } else {
                    assert(models.deep_view()[k] == model.deep_view());
                }
            }
        }
        i = i + 1;
    }
    proof {
        assert(doc_resolves(*file));
    }
    let out = extract_pages(&models);
    proof {
        let ms = models.deep_view();
        assert(out@ == pages_text(ms) && ms.len() == doc_page_count(*file) && (forall|k: u32|
            k < doc_page_count(*file) ==> #[trigger] ms[k as int].ops == page_ops_of(
                *file,
                doc_page_at(*file, k),
            )));
    }
    Ok(out)
}

/// Parse a PDF document from raw bytes, then extract its text: a parse
/// failure is the parse-tagged error, and otherwise the call is exactly
/// extraction on the parsed document.
pub fn extract_pdf_bytes(pdf_bytes: &[u8]) -> (r: Result<String, ExtractError>)
    ensures
        r is Ok <==> (load_ok(pdf_bytes@) && doc_resolves(doc_of(pdf_bytes@))),
        (r matches Err(ExtractError::Parse(_))) <==> !load_ok(pdf_bytes@),
        r matches Ok(s) ==> (exists|ms: Seq<PageView>|
            {
                &&& s@ == pages_text(ms)
                &&& ms.len() == doc_page_count(doc_of(pdf_bytes@))
                &&& (forall|k: u32|
                    k < doc_page_count(doc_of(pdf_bytes@)) ==> #[trigger] ms[k as int].ops
                        == page_ops_of(doc_of(pdf_bytes@), doc_page_at(doc_of(pdf_bytes@), k)))
            }),
        r matches Err(ExtractError::PageRetrieval(_)) ==> (exists|k: u32|
            k < doc_page_count(doc_of(pdf_bytes@)) && (!doc_page_ok(doc_of(pdf_bytes@), k)
                || !page_content_ok(doc_of(pdf_bytes@), doc_page_at(doc_of(pdf_bytes@), k)))),
        r matches Err(ExtractError::FontResolution(_)) ==> (exists|k: u32|
            k < doc_page_count(doc_of(pdf_bytes@)) && !page_fonts_ok(
                doc_of(pdf_bytes@),
                doc_page_at(doc_of(pdf_bytes@), k),
            )),
        r matches Err(ExtractError::GraphicsFontResolution(_)) ==> (exists|k: u32|
            k < doc_page_count(doc_of(pdf_bytes@)) && !page_gs_fonts_ok(
                doc_of(pdf_bytes@),
                doc_page_at(doc_of(pdf_bytes@), k),
            )),
{
    let file = match load_document(pdf_bytes) {
        Ok(f) => f,
        Err(e) => {
            return Err(ExtractError::Parse(e));
        },
    };
    extract_pdf(&file)
}

} // verus!
