//! The code-to-Unicode table of a font, held as the `pdf` crate's own
//! `ToUnicodeMap` and described abstractly as a `Map<u16, Seq<char>>`.

use vstd::prelude::*;

use pdf::font::ToUnicodeMap;

verus! {

/// A font's table from 16-bit character codes to short Unicode strings,
/// as the `pdf` crate parses it from the font's embedded mapping stream.
#[verifier::external_type_specification]
#[verifier::external_body]
pub struct ExToUnicodeMap(ToUnicodeMap);

/// The entries a `ToUnicodeMap` holds: each mapped character code paired with
/// the sequence of Unicode characters it expands to.
pub uninterp spec fn cmap_contents(m: ToUnicodeMap) -> Map<u16, Seq<char>>;

/// Relies on `pdf::font::ToUnicodeMap::get`: looks a character code up in the
/// table and returns the mapped string exactly when the table has an entry.
#[verifier::external_body]
pub fn cmap_get(m: &ToUnicodeMap, code: u16) -> (r: Option<String>)
    ensures
        r is Some <==> cmap_contents(*m).contains_key(code),
        r matches Some(s) ==> s@ == cmap_contents(*m)[code],
{
    m.get(code).map(|s| s.to_owned())
}

/// Relies on `pdf::font::ToUnicodeMap`'s derived `Clone`: the copy holds the
/// same entries as the original.
pub assume_specification[ <ToUnicodeMap as Clone>::clone ](m: &ToUnicodeMap) -> (r: ToUnicodeMap)
    ensures
        r == *m,
;

} // verus!
