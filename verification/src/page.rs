//! Plain-value models of what text extraction reads from one page: the fonts
//! its resource dictionary names, the fonts its graphics states carry, and its
//! content-stream operators reduced to the cases that matter.

use vstd::prelude::*;

use crate::decode::{FontModel, FontModelView};

verus! {

/// One element of an adjusted text-draw operator's array.
pub enum TextItem {
    /// A string element: raw bytes to decode.
    Text { bytes: Vec<u8> },
    /// A numeric spacing adjustment; it affects layout only, which text
    /// extraction ignores.
    Spacing,
}

/// The mathematical content of a `TextItem`.
pub ghost enum TextItemView {
    Text { bytes: Seq<u8> },
    Spacing,
}

impl View for TextItem {
    type V = TextItemView;

    open spec fn view(&self) -> TextItemView {
        match self {
            TextItem::Text { bytes } => TextItemView::Text { bytes: bytes@ },
            TextItem::Spacing => TextItemView::Spacing,
        }
    }
}

impl DeepView for TextItem {
    type V = TextItemView;

    open spec fn deep_view(&self) -> TextItemView {
        self.view()
    }
}

/// A content-stream operator, reduced to the cases text extraction reacts to;
/// every other operator is `Other` and has no text-relevant effect.
pub enum PdfOp {
    /// Activate the named graphics state.
    SetGraphicsState { name: String },
    /// Select the named text font.
    SetTextFont { name: String },
    /// Draw one text string.
    DrawText { bytes: Vec<u8> },
    /// Draw text with interleaved positioning adjustments.
    DrawTextAdjusted { items: Vec<TextItem> },
    /// Move to the next text line.
    NewLine,
    /// An operator with no text-relevant effect.
    Other,
}

/// The mathematical content of a `PdfOp`.
pub ghost enum OpView {
    SetGraphicsState { name: Seq<char> },
    SetTextFont { name: Seq<char> },
    DrawText { bytes: Seq<u8> },
    DrawTextAdjusted { items: Seq<TextItemView> },
    NewLine,
    Other,
}

impl View for PdfOp {
    type V = OpView;

    open spec fn view(&self) -> OpView {
        match self {
            PdfOp::SetGraphicsState { name } => OpView::SetGraphicsState { name: name@ },
            PdfOp::SetTextFont { name } => OpView::SetTextFont { name: name@ },
            PdfOp::DrawText { bytes } => OpView::DrawText { bytes: bytes@ },
            PdfOp::DrawTextAdjusted { items } => OpView::DrawTextAdjusted {
                items: items.deep_view(),
            },
            PdfOp::NewLine => OpView::NewLine,
            PdfOp::Other => OpView::Other,
        }
    }
}

impl DeepView for PdfOp {
    type V = OpView;

    open spec fn deep_view(&self) -> OpView {
        self.view()
    }
}

/// A font carried by one of the page's graphics-state dictionaries, kept under
/// that state's name so that activating the state can select the font.
pub struct GsFont {
    pub gs_name: String,
    pub font: FontModel,
}

/// The mathematical content of a `GsFont`.
pub ghost struct GsFontView {
    pub gs_name: Seq<char>,
    pub font: FontModelView,
}

impl View for GsFont {
    type V = GsFontView;

    open spec fn view(&self) -> GsFontView {
        GsFontView { gs_name: self.gs_name@, font: self.font@ }
    }
}

impl DeepView for GsFont {
    type V = GsFontView;

    open spec fn deep_view(&self) -> GsFontView {
        self.view()
    }
}

/// Everything text extraction reads from one page.
pub struct PageModel {
    /// The fonts the page's resource dictionary names directly.
    pub fonts: Vec<(String, FontModel)>,
    /// The fonts the page's graphics-state dictionaries carry.
    pub gs_fonts: Vec<GsFont>,
    /// The page's content-stream operators, in stream order.
    pub ops: Vec<PdfOp>,
}

/// The mathematical content of a `PageModel`.
pub ghost struct PageView {
    pub fonts: Seq<(Seq<char>, FontModelView)>,
    pub gs_fonts: Seq<GsFontView>,
    pub ops: Seq<OpView>,
}

impl View for PageModel {
    type V = PageView;

    open spec fn view(&self) -> PageView {
        PageView {
            fonts: self.fonts.deep_view(),
            gs_fonts: self.gs_fonts.deep_view(),
            ops: self.ops.deep_view(),
        }
    }
}

impl DeepView for PageModel {
    type V = PageView;

    open spec fn deep_view(&self) -> PageView {
        self.view()
    }
}

} // verus!
