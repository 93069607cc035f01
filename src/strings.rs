//! Conversions between the boundary's text encodings: NUL-terminated UTF-8
//! and NUL-terminated UTF-16.

use vstd::prelude::*;
use vstd::string::*;
use vstd::slice::slice_subrange;
use vstd::utf8::{decode_utf8, valid_utf8};
use crate::text::str_from_utf8;

verus! {

/// The bytes of a C string: everything before the first NUL.
pub open spec fn before_nul(bytes: Seq<u8>) -> Seq<u8>
    decreases bytes.len(),
{
    if bytes.len() == 0 {
        bytes
    } else if bytes[0] == 0 {
        Seq::empty()
    } else {
        seq![bytes[0]] + before_nul(bytes.drop_first())
    }
}

proof fn lemma_before_nul_prefix(bytes: Seq<u8>, k: int)
    requires
        0 <= k <= bytes.len(),
        forall|j: int| 0 <= j < k ==> bytes[j] != 0,
        k == bytes.len() || bytes[k] == 0,
    ensures
        before_nul(bytes) == bytes.subrange(0, k),
    decreases bytes.len(),
{
    if bytes.len() > 0 {
        if k == 0 {
            assert(bytes.subrange(0, 0) =~= Seq::<u8>::empty());
        } else {
            lemma_before_nul_prefix(bytes.drop_first(), k - 1);
            assert(seq![bytes[0]] + bytes.drop_first().subrange(0, k - 1) =~= bytes.subrange(0, k));
        }
    } else {
        assert(bytes.subrange(0, 0) =~= bytes);
    }
}

/// Owned text of a C string given as its bytes (`None` for a null
/// pointer, which reads as empty). Malformed UTF-8 gives `None`.
pub fn c_str_to_string(ptr: Option<&[u8]>) -> (r: Option<String>)
    ensures
        ptr is None ==> (r matches Some(s) && s@.len() == 0),
        ptr matches Some(b) ==> (r is Some <==> valid_utf8(before_nul(b@))),
        ptr matches Some(b) ==> (r matches Some(s) ==> s@ == decode_utf8(before_nul(b@))),
{
    match ptr {
        None => Some(String::new()),
        Some(bytes) => {
            let mut k: usize = 0;
            while k < bytes.len() && bytes[k] != 0
                invariant
                    k <= bytes@.len(),
                    forall|j: int| 0 <= j < k ==> bytes@[j] != 0,
                decreases bytes@.len() - k,
            {
                k = k + 1;
            }
            proof {
                lemma_before_nul_prefix(bytes@, k as int);
            }
            let text = slice_subrange(bytes, 0, k);
            match str_from_utf8(text) {
                Some(s) => Some(String::from_str(s)),
                None => None,
            }
        },
    }
}

/// The UTF-16 code units of one character.
pub open spec fn utf16_of_char(c: char) -> Seq<u16> {
    let v = c as u32;
    if v < 0x10000 {
        seq![v as u16]
    } else {
        let w = (v - 0x10000) as u32;
        seq![(0xD800 + w / 0x400) as u16, (0xDC00 + w % 0x400) as u16]
    }
}

/// The UTF-16 code units of a text.
pub open spec fn utf16_units(s: Seq<char>) -> Seq<u16>
    decreases s.len(),
{
    if s.len() == 0 {
        Seq::empty()
    } else {
        utf16_units(s.drop_last()) + utf16_of_char(s.last())
    }
}

/// NUL-terminated UTF-16 of `utf8_str`, as wide-character APIs take it.
pub fn utf8_to_utf16(utf8_str: &str) -> (r: Vec<u16>)
    ensures
        r@ == utf16_units(utf8_str@).push(0u16),
{
    let n = utf8_str.unicode_len();
    let mut out: Vec<u16> = Vec::new();
    let mut i: usize = 0;
    while i < n
        invariant
            n == utf8_str@.len(),
            i <= n,
            out@ == utf16_units(utf8_str@.subrange(0, i as int)),
        decreases n - i,
    {
        let c = utf8_str.get_char(i);
        let v = c as u32;
        if v < 0x10000 {
            out.push(v as u16);
        } else {
            let w = v - 0x10000;
            out.push((0xD800 + w / 0x400) as u16);
            out.push((0xDC00 + w % 0x400) as u16);
        }
        let ghost p = utf8_str@.subrange(0, i + 1);
        assert(p.drop_last() =~= utf8_str@.subrange(0, i as int));
        assert(p.last() == c);
        assert(out@ =~= utf16_units(p));
        i = i + 1;
    }
    assert(utf8_str@.subrange(0, n as int) =~= utf8_str@);
    out.push(0);
    out
}

/// Same as [`utf8_to_utf16`].
pub fn to_wide_cstring(s: &str) -> (r: Vec<u16>)
    ensures
        r@ == utf16_units(s@).push(0u16),
{
    utf8_to_utf16(s)
}

/// The code units of a wide C string: everything before the first NUL.
pub open spec fn units_before_nul(units: Seq<u16>) -> Seq<u16>
    decreases units.len(),
{
    if units.len() == 0 {
        units
    } else if units[0] == 0 {
        Seq::empty()
    } else {
        seq![units[0]] + units_before_nul(units.drop_first())
    }
}

proof fn lemma_units_before_nul_prefix(units: Seq<u16>, k: int)
    requires
        0 <= k <= units.len(),
        forall|j: int| 0 <= j < k ==> units[j] != 0,
        k == units.len() || units[k] == 0,
    ensures
        units_before_nul(units) == units.subrange(0, k),
    decreases units.len(),
{
    if units.len() > 0 {
        if k == 0 {
            assert(units.subrange(0, 0) =~= Seq::<u16>::empty());
        } else {
            lemma_units_before_nul_prefix(units.drop_first(), k - 1);
            assert(seq![units[0]] + units.drop_first().subrange(0, k - 1) =~= units.subrange(0, k));
        }
    } else {
        assert(units.subrange(0, 0) =~= units);
    }
}

/// Relies on `String::from_utf16`: it succeeds exactly on well-formed
/// UTF-16, and then yields the text whose UTF-16 encoding the units are.
#[verifier::external_body]
fn string_from_utf16(units: &[u16]) -> (r: Option<String>)
    ensures
        r matches Some(s) ==> utf16_units(s@) == units@,
        r is None ==> forall|s: Seq<char>| utf16_units(s) != units@,
{
    String::from_utf16(units).ok()
}

/// Text of a wide C string given as its code units (`None` for a null
/// pointer). Ill-formed UTF-16 gives `None`.
pub fn utf16_to_utf8(utf16_ptr: Option<&[u16]>) -> (r: Option<String>)
    ensures
        utf16_ptr is None ==> r is None,
        utf16_ptr matches Some(u) ==> (r matches Some(s) ==> utf16_units(s@) == units_before_nul(u@)),
        utf16_ptr matches Some(u) ==> (r is None ==> forall|s: Seq<char>| utf16_units(s) != units_before_nul(u@)),
{
    match utf16_ptr {
        None => None,
        Some(units) => {
            let mut k: usize = 0;
            while k < units.len() && units[k] != 0
                invariant
                    k <= units@.len(),
                    forall|j: int| 0 <= j < k ==> units@[j] != 0,
                decreases units@.len() - k,
            {
                k = k + 1;
            }
            proof {
                lemma_units_before_nul_prefix(units@, k as int);
            }
            string_from_utf16(slice_subrange(units, 0, k))
        },
    }
}

} // verus!

verus! {

/// The text for `language` in a table of translations: the first entry
/// for that language, or `default` when there is none.
pub open spec fn spec_localized(
    language: crate::types::CubeMelonLanguage,
    default: Seq<char>,
    table: Seq<(crate::types::CubeMelonLanguage, &'static str)>,
) -> Seq<char>
    decreases table.len(),
{
    if table.len() == 0 {
        default
    } else if table[0].0 == language {
        table[0].1@
    } else {
        spec_localized(language, default, table.drop_first())
    }
}

/// Picks a plugin's localized name or description.
pub fn localized_text(
    language: crate::types::CubeMelonLanguage,
    default: &'static str,
    table: &[(crate::types::CubeMelonLanguage, &'static str)],
) -> (r: &'static str)
    ensures
        r@ == spec_localized(language, default@, table@),
{
    let mut i: usize = 0;
    assert(table@.skip(0) =~= table@);
    while i < table.len()
        invariant
            i <= table@.len(),
            spec_localized(language, default@, table@) == spec_localized(
                language,
                default@,
                table@.skip(i as int),
            ),
        decreases table@.len() - i,
    {
        let entry = table[i];
        assert(table@.skip(i as int)[0] == entry);
        assert(table@.skip(i as int).drop_first() =~= table@.skip(i + 1));
        if entry.0 == language {
            return entry.1;
        }
        i = i + 1;
    }
    default
}

} // verus!
