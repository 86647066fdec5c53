//! In-place tokenizing of string slices.
//!
//! [`strtok`] peels the prefix before the first occurrence of a delimiter
//! character off a string slice, advancing the slice past the delimiter in
//! place. The returned token borrows from the underlying string, not from
//! the short-lived exclusive borrow used to advance it, so callers can keep
//! tokens while continuing to tokenize.

use crate::lifetimes::find_in_str;
use crate::lifetimes::first_match_at;
use crate::lifetimes::has_match;
use vstd::prelude::*;
use vstd::string::StringSliceAdditionalSpecFns;
use vstd::utf8::encode_scalar;

verus! {

/// Relies on `char::encode_utf8`: writes the UTF-8 encoding of `c` — the
/// bytes [`vstd::utf8::encode_scalar`] describes — and hands them back.
#[verifier::external_body]
fn char_utf8(c: char) -> (r: Vec<u8>)
    ensures
        r@ == encode_scalar(c as u32),
{
    let mut buf: [u8; 4] = [0u8; 4];
    let encoded: &str = c.encode_utf8(&mut buf);
    encoded.as_bytes().to_vec()
}

/// Splits off the token of `*s` before the first occurrence of `delim`:
/// returns it, and leaves everything after the delimiter in `*s`. When the
/// delimiter does not occur, the whole of `*s` is the token and `*s` is
/// left empty.
pub fn strtok<'a>(s: &mut &'a str, delim: char) -> (r: &'a str)
    ensures
        ({
            let hb = (*old(s)).spec_bytes();
            let db = encode_scalar(delim as u32);
            if has_match(hb, db) {
                exists|i: int|
                    {
                        &&& first_match_at(hb, db, i)
                        &&& r.spec_bytes() == hb.subrange(0, i)
                        &&& (*final(s)).spec_bytes() == hb.subrange(i + db.len(), hb.len() as int)
                    }
            } else {
                r == *old(s) && (*final(s)).spec_bytes().len() == 0
            }
        }),
{
    let needle = char_utf8(delim);
    match find_in_str(*s, needle.as_slice()) {
        Some(i) => {
            let (piece, _) = (*s).split_at(i);
            let (_, rest) = (*s).split_at(i + needle.len());
            proof {
                let hb = (*s).spec_bytes();
                let db = encode_scalar(delim as u32);
                assert(first_match_at(hb, db, i as int) && piece.spec_bytes() == hb.subrange(
                    0,
                    i as int,
                ) && rest.spec_bytes() == hb.subrange(i + db.len(), hb.len() as int));
            }
            *s = rest;
            piece
        },
        None => {
            let whole = *s;
            *s = "";
            proof {
                reveal_strlit("");
            }
            whole
        },
    }
}

} // verus!
