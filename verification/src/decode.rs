//! Decoding one font's raw operand bytes into Unicode text.

use vstd::prelude::*;
use vstd::string::StringExecFns;

use pdf::font::ToUnicodeMap;

use crate::cmap::{cmap_contents, cmap_get};

verus! {

/// How raw bytes map onto character codes before table lookup.
#[derive(Clone, Copy)]
pub enum TextEncoding {
    /// Character codes are big-endian 16-bit values, used by composite fonts.
    DoubleByteIdentity,
    /// Character codes are single bytes.
    SingleByte,
}

/// The mathematical content of a `FontInfo`: its encoding tag and the map its
/// code-to-Unicode table holds.
#[verifier::ext_equal]
pub ghost struct FontView {
    pub encoding: Option<TextEncoding>,
    pub cmap: Map<u16, Seq<char>>,
}

/// What a mapped code contributes: its table entry, or nothing.
pub open spec fn mapped_or_empty(m: Map<u16, Seq<char>>, code: u16) -> Seq<char> {
    if m.contains_key(code) {
        m[code]
    } else {
        Seq::empty()
    }
}

/// Double-byte identity decoding: successive non-overlapping 2-byte big-endian
/// codes, looked up in the table; codes without an entry and an odd trailing
/// byte contribute nothing.
pub open spec fn decode_double(m: Map<u16, Seq<char>>, data: Seq<u8>) -> Seq<char>
    decreases data.len(),
{
    if data.len() < 2 {
        Seq::empty()
    } else {
        mapped_or_empty(m, (data[0] as int * 256 + data[1] as int) as u16)
            + decode_double(m, data.skip(2))
    }
}

/// What one byte contributes under a single-byte encoding: its table entry,
/// or the byte's own value read as a Unicode code point.
pub open spec fn single_decoded(m: Map<u16, Seq<char>>, b: u8) -> Seq<char> {
    if m.contains_key(b as u16) {
        m[b as u16]
    } else {
        seq![b as char]
    }
}

/// Single-byte decoding: each byte looked up by its value widened to 16 bits,
/// falling back to the byte itself as a code point.
pub open spec fn decode_single(m: Map<u16, Seq<char>>, data: Seq<u8>) -> Seq<char>
    decreases data.len(),
{
    if data.len() == 0 {
        Seq::empty()
    } else {
        single_decoded(m, data[0]) + decode_single(m, data.skip(1))
    }
}

/// What decoding a byte string with one font yields: nothing decodable when
/// the font has no encoding tag, otherwise the branch the tag picks.
pub open spec fn font_decode(f: FontView, data: Seq<u8>) -> Option<Seq<char>> {
    match f.encoding {
        None => None,
        Some(TextEncoding::DoubleByteIdentity) => Some(decode_double(f.cmap, data)),
        Some(TextEncoding::SingleByte) => Some(decode_single(f.cmap, data)),
    }
}

/// The facets of one font object that text extraction reads: the font's own
/// optional name, its optional base-encoding tag, and its optional
/// code-to-Unicode table.
pub struct FontModel {
    pub name: Option<String>,
    pub encoding: Option<TextEncoding>,
    pub cmap: Option<ToUnicodeMap>,
}

/// The mathematical content of a `FontModel`.
#[verifier::ext_equal]
pub ghost struct FontModelView {
    pub name: Option<Seq<char>>,
    pub encoding: Option<TextEncoding>,
    pub cmap: Option<Map<u16, Seq<char>>>,
}

impl View for FontModel {
    type V = FontModelView;

    open spec fn view(&self) -> FontModelView {
        FontModelView {
            name: match self.name {
                Some(n) => Some(n@),
                None => None,
            },
            encoding: self.encoding,
            cmap: match self.cmap {
                Some(c) => Some(cmap_contents(c)),
                None => None,
            },
        }
    }
}

impl DeepView for FontModel {
    type V = FontModelView;

    open spec fn deep_view(&self) -> FontModelView {
        self.view()
    }
}

/// When every table entry is at most one character long, double-byte identity
/// decoding yields at most one character for each complete 2-byte code, so the
/// output is at most half as long as the input.
pub proof fn lemma_double_decode_bounded(m: Map<u16, Seq<char>>, data: Seq<u8>)
    requires
        forall|c: u16| m.contains_key(c) ==> m[c].len() <= 1,
    ensures
        2 * decode_double(m, data).len() <= data.len(),
    decreases data.len(),
{
    if data.len() < 2 {
    } else {
        lemma_double_decode_bounded(m, data.skip(2));
    }
}

/// One font's decoding state: the encoding tag recovered from the font object
/// and the code-to-Unicode table built from it. Immutable once created.
pub struct FontInfo {
    pub encoding: Option<TextEncoding>,
    pub cmap: ToUnicodeMap,
}

impl View for FontInfo {
    type V = FontView;

    open spec fn view(&self) -> FontView {
        FontView { encoding: self.encoding, cmap: cmap_contents(self.cmap) }
    }
}

impl DeepView for FontInfo {
    type V = FontView;

    open spec fn deep_view(&self) -> FontView {
        self.view()
    }
}

/// Relies on `String::push`: appends one character at the end.
#[verifier::external_body]
pub(crate) fn push_char(s: &mut String, c: char)
    ensures
        final(s)@ == old(s)@ + seq![c],
{
    s.push(c);
}

impl FontInfo {
    /// Decode a raw operand byte string with this font. Returns none exactly
    /// when the font has no recoverable encoding tag; never fails otherwise.
    pub fn decode(&self, data: &[u8]) -> (r: Option<String>)
        ensures
            r.deep_view() == font_decode(self@, data@),
    {
        match self.encoding {
            None => None,
            Some(TextEncoding::DoubleByteIdentity) => Some(self.decode_double_bytes(data)),
            Some(TextEncoding::SingleByte) => Some(self.decode_single_bytes(data)),
        }
    }

    #[verifier::loop_isolation(false)]
    fn decode_double_bytes(&self, data: &[u8]) -> (out: String)
        ensures
            out@ == decode_double(self@.cmap, data@),
    {
        let ghost m = cmap_contents(self.cmap);
        let mut out = String::new();
        let mut i: usize = 0;
        proof {
            assert(data@.skip(0) =~= data@);
            assert(Seq::<char>::empty() + decode_double(m, data@) =~= decode_double(m, data@));
        }
        while data.len() - i >= 2
            invariant
                i <= data.len(),
                out@ + decode_double(m, data@.skip(i as int)) == decode_double(m, data@),
            decreases data.len() - i,
        {
            let ghost pre = out@;
            let code: u16 = (data[i] as u16) * 256 + (data[i + 1] as u16);
            proof {
                let s = data@.skip(i as int);
                assert(s[0] == data@[i as int]);
                assert(s[1] == data@[i as int + 1]);
                assert(s.skip(2) =~= data@.skip(i as int + 2));
                assert(code == (s[0] as int * 256 + s[1] as int) as u16);
                assert(decode_double(m, s) == mapped_or_empty(m, code) + decode_double(
                    m,
                    data@.skip(i as int + 2),
                ));
            }
            let found = cmap_get(&self.cmap, code);
            match found {
                Some(s) => {
                    proof {
                        assert(cmap_contents(self.cmap).contains_key(code));
                        assert(s@ == mapped_or_empty(m, code));
                    }
                    out.append(s.as_str());
                },
                None => {
                    proof {
                        assert(!cmap_contents(self.cmap).contains_key(code));
                        assert(mapped_or_empty(m, code) =~= Seq::<char>::empty());
                    }
                },
            }
            proof {
                assert(out@ =~= pre + mapped_or_empty(m, code));
                assert(out@ + decode_double(m, data@.skip(i as int + 2)) =~= pre + decode_double(
                    m,
                    data@.skip(i as int),
                ));
            }
            i = i + 2;
        }
        proof {
            assert(decode_double(m, data@.skip(i as int)) =~= Seq::<char>::empty());
            assert(out@ + Seq::<char>::empty() =~= out@);
        }
        out
    }

    #[verifier::loop_isolation(false)]
    fn decode_single_bytes(&self, data: &[u8]) -> (out: String)
        ensures
            out@ == decode_single(self@.cmap, data@),
    {
        let ghost m = cmap_contents(self.cmap);
        let mut out = String::new();
        let mut i: usize = 0;
        proof {
            assert(data@.skip(0) =~= data@);
            assert(Seq::<char>::empty() + decode_single(m, data@) =~= decode_single(m, data@));
        }
        while i < data.len()
            invariant
                i <= data.len(),
                out@ + decode_single(m, data@.skip(i as int)) == decode_single(m, data@),
            decreases data.len() - i,
        {
            let ghost pre = out@;
            let b = data[i];
            proof {
                let s = data@.skip(i as int);
                assert(s[0] == data@[i as int]);
                assert(s.skip(1) =~= data@.skip(i as int + 1));
                assert(decode_single(m, s) == single_decoded(m, b) + decode_single(
                    m,
                    data@.skip(i as int + 1),
                ));
            }
            let found = cmap_get(&self.cmap, b as u16);
            match found {
                Some(s) => {
                    proof {
                        assert(cmap_contents(self.cmap).contains_key(b as u16));
                        assert(s@ == single_decoded(m, b));
                    }
                    out.append(s.as_str());
                },
                None => {
                    proof {
                        assert(!cmap_contents(self.cmap).contains_key(b as u16));
                        assert(single_decoded(m, b) =~= seq![b as char]);
                    }
                    push_char(&mut out, b as char);
                },
            }
            proof {
                assert(out@ =~= pre + single_decoded(m, b));
                assert(out@ + decode_single(m, data@.skip(i as int + 1)) =~= pre + decode_single(
                    m,
                    data@.skip(i as int),
                ));
            }
            i = i + 1;
        }
        proof {
            assert(decode_single(m, data@.skip(i as int)) =~= Seq::<char>::empty());
            assert(out@ + Seq::<char>::empty() =~= out@);
        }
        out
    }
}

} // verus!
