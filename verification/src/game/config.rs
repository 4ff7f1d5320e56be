use vstd::prelude::*;

verus! {

/// The byte-order mark that some editors put at the start of a text file.
pub open spec fn bom() -> char {
    '\u{feff}'
}

/// The configuration text with a leading byte-order mark removed, if it has
/// one (files written by PowerShell's `Set-Content` start with it).
pub fn strip_bom(data: &str) -> (r: &str)
    ensures
        data@.len() > 0 && data@[0] == bom() ==> r@ == data@.drop_first(),
        !(data@.len() > 0 && data@[0] == bom()) ==> r@ == data@,
{
    let n = data.unicode_len();
    if n > 0 && data.get_char(0) == '\u{feff}' {
        let r = data.substring_char(1, n);
        assert(r@ =~= data@.drop_first());
        r
    } else {
        data
    }
}

} // verus!
