//! The per-page font cache: fonts keyed by name, plus the currently selected
//! font name.

use vstd::prelude::*;

use crate::decode::{font_decode, FontInfo, FontModel, FontModelView, FontView};

verus! {

/// The mathematical content of a `FontCache`: the tracked fonts by name and
/// the current selection.
#[verifier::ext_equal]
pub ghost struct CacheView {
    pub fonts: Map<Seq<char>, FontView>,
    pub selected: Option<Seq<char>>,
}

/// The cache with no fonts and no selection.
pub open spec fn empty_cache() -> CacheView {
    CacheView { fonts: Map::empty(), selected: None }
}

/// The map a sequence of name/font entries denotes: a later entry for a name
/// overrides an earlier one.
pub open spec fn entries_map(s: Seq<(String, FontInfo)>) -> Map<Seq<char>, FontView>
    decreases s.len(),
{
    if s.len() == 0 {
        Map::empty()
    } else {
        entries_map(s.drop_last()).insert(s.last().0@, s.last().1@)
    }
}

/// Registration: a font without a code-to-Unicode table is not tracked;
/// otherwise it is entered under the given name, replacing any previous entry.
/// The selection is untouched either way.
pub open spec fn spec_add_font(c: CacheView, name: Seq<char>, f: FontModelView) -> CacheView {
    match f.cmap {
        None => c,
        Some(m) => CacheView {
            fonts: c.fonts.insert(name, FontView { encoding: f.encoding, cmap: m }),
            selected: c.selected,
        },
    }
}

/// What the cache decodes: the selected font's decoding when both a selection
/// and a cache entry under the selected name exist, nothing otherwise.
pub open spec fn spec_cache_decode(c: CacheView, data: Seq<u8>) -> Option<Seq<char>> {
    match c.selected {
        None => None,
        Some(name) => if c.fonts.contains_key(name) {
            font_decode(c.fonts[name], data)
        } else {
            None
        },
    }
}

/// Holds the fonts referenced by the current page, keyed by name, and tracks
/// which font name is currently selected. Created fresh for each page.
pub struct FontCache {
    fonts: Vec<(String, FontInfo)>,
    selected: Option<String>,
}

impl View for FontCache {
    type V = CacheView;

    closed spec fn view(&self) -> CacheView {
        CacheView {
            fonts: entries_map(self.fonts@),
            selected: match self.selected {
                Some(s) => Some(s@),
                None => None,
            },
        }
    }
}

/// Entries at or past position `i` that all miss `name` do not affect what the
/// entry map holds under `name`.
proof fn lemma_entries_map_suffix_miss(s: Seq<(String, FontInfo)>, name: Seq<char>, i: int)
    requires
        0 <= i <= s.len(),
        forall|k: int| i <= k < s.len() ==> s[k].0@ != name,
    ensures
        entries_map(s).contains_key(name) == entries_map(s.take(i)).contains_key(name),
        entries_map(s).contains_key(name) ==> entries_map(s)[name] == entries_map(s.take(i))[name],
    decreases s.len() - i,
{
    if i == s.len() {
        assert(s.take(i) =~= s);
    } else {
        let t = s.drop_last();
        assert(s.last().0@ != name);
        assert(forall|k: int| i <= k < t.len() ==> t[k] == s[k]);
        lemma_entries_map_suffix_miss(t, name, i);
        assert(t.take(i) =~= s.take(i));
    }
}

/// An entry that hits `name`, with only misses after it, is what the entry map
/// holds under `name`.
proof fn lemma_entries_map_hit(s: Seq<(String, FontInfo)>, name: Seq<char>, j: int)
    requires
        0 <= j < s.len(),
        s[j].0@ == name,
        forall|k: int| j < k < s.len() ==> s[k].0@ != name,
    ensures
        entries_map(s).contains_key(name),
        entries_map(s)[name] == s[j].1@,
{
    lemma_entries_map_suffix_miss(s, name, j + 1);
    let p = s.take(j + 1);
    assert(p.drop_last() =~= s.take(j));
    assert(p.last() == s[j]);
}

impl FontCache {
    /// A fresh cache: no fonts tracked, no font selected.
    pub fn new() -> (r: FontCache)
        ensures
            r@ == empty_cache(),
    {
        let r = FontCache { fonts: Vec::new(), selected: None };
        proof {
            assert(r@ =~= empty_cache());
        }
        r
    }

    /// Register `font` under `name`. A font exposing no code-to-Unicode table
    /// is deliberately not tracked: it can contribute no decoded text.
    pub fn add_font(&mut self, name: String, font: &FontModel)
        ensures
            final(self)@ == spec_add_font(old(self)@, name@, font@),
    {
        match &font.cmap {
            None => {},
            Some(m) => {
                let info = FontInfo { encoding: font.encoding, cmap: m.clone() };
                let ghost oldseq = self.fonts@;
                self.fonts.push((name, info));
                proof {
                    assert(self.fonts@.drop_last() =~= oldseq);
                    assert(self@ =~= spec_add_font(old(self)@, name@, font@));
                }
            },
        }
    }

    /// Set or clear the selected font name. No validation: selecting an
    /// unregistered name is legal and makes decoding yield nothing.
    pub fn select_font(&mut self, name: Option<String>)
        ensures
            final(self)@.fonts == old(self)@.fonts,
            final(self)@.selected == name.deep_view(),
    {
        self.selected = name;
    }

    /// The cached font entered under `name`, if any.
    fn find_font(&self, name: &String) -> (r: Option<&FontInfo>)
        ensures
            r is Some <==> self@.fonts.contains_key(name@),
            r matches Some(f) ==> f@ == self@.fonts[name@],
    {
        let mut j: usize = self.fonts.len();
        while j > 0
            invariant
                j <= self.fonts.len(),
                forall|k: int| j <= k < self.fonts@.len() ==> self.fonts@[k].0@ != name@,
            decreases j,
        {
            j = j - 1;
            if self.fonts[j].0 == *name {
                proof {
                    lemma_entries_map_hit(self.fonts@, name@, j as int);
                }
                return Some(&self.fonts[j].1);
            }
        }
        proof {
            lemma_entries_map_suffix_miss(self.fonts@, name@, 0);
            assert(self.fonts@.take(0) =~= Seq::<(String, FontInfo)>::empty());
        }
        None
    }

    /// Decode a raw operand byte string with the selected font, when both the
    /// selection and a cache entry for it exist; yields nothing otherwise.
    pub fn decode(&self, data: &[u8]) -> (r: Option<String>)
        ensures
            r.deep_view() == spec_cache_decode(self@, data@),
    {
        match &self.selected {
            None => None,
            Some(name) => match self.find_font(name) {
                None => None,
                Some(fi) => fi.decode(data),
            },
        }
    }
}

/// A font registered without a code-to-Unicode table leaves the cache exactly
/// as it was, and decoding under its name (absent any other entry for that
/// name) yields nothing.
pub proof fn lemma_untracked_font_yields_nothing(
    c: CacheView,
    name: Seq<char>,
    f: FontModelView,
    data: Seq<u8>,
)
    requires
        f.cmap is None,
        !c.fonts.contains_key(name),
    ensures
        spec_add_font(c, name, f) == c,
        spec_cache_decode(CacheView { fonts: c.fonts, selected: Some(name) }, data) is None,
{
}

/// Decoding an empty byte string under a selected name yields the empty string
/// when the cached font has an encoding tag, and nothing when no font is
/// tracked under that name.
pub proof fn lemma_empty_bytes_decode(c: CacheView, name: Seq<char>)
    requires
        c.selected == Some(name),
    ensures
        c.fonts.contains_key(name) && c.fonts[name].encoding is Some ==> spec_cache_decode(
            c,
            Seq::empty(),
        ) == Some(Seq::<char>::empty()),
        !c.fonts.contains_key(name) ==> spec_cache_decode(c, Seq::empty()) is None,
{
}

/// With the selection cleared, every decode yields nothing, whatever fonts
/// are registered.
pub proof fn lemma_cleared_selection_yields_nothing(c: CacheView, data: Seq<u8>)
    requires
        c.selected is None,
    ensures
        spec_cache_decode(c, data) is None,
{
}

} // verus!
