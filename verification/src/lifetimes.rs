//! Splitting string slices on a delimiter.
//!
//! [`StrSplit`] yields the pieces of a haystack between occurrences of a
//! delimiter string, handing back subslices of the haystack itself. The two
//! lifetimes keep the yielded pieces tied to the haystack alone, not to the
//! delimiter. The search itself is byte-for-byte: an occurrence counts where
//! the delimiter's bytes appear beginning and ending on character
//! boundaries — for the valid UTF-8 that every `str` holds, that is every
//! byte-for-byte occurrence.

use vstd::prelude::*;
use vstd::string::StringSliceAdditionalSpecFns;
use vstd::utf8::is_char_boundary;

verus! {

/// Whether `needle` occurs in `hay` at byte position `i`, beginning and
/// ending on character boundaries of `hay`.
pub open spec fn match_at(hay: Seq<u8>, needle: Seq<u8>, i: int) -> bool {
    &&& 0 <= i
    &&& i + needle.len() <= hay.len()
    &&& hay.subrange(i, i + needle.len() as int) == needle
    &&& is_char_boundary(hay, i)
    &&& is_char_boundary(hay, i + needle.len() as int)
}

/// Whether `i` is the first occurrence of `needle` in `hay`.
pub open spec fn first_match_at(hay: Seq<u8>, needle: Seq<u8>, i: int) -> bool {
    &&& match_at(hay, needle, i)
    &&& forall|j: int| 0 <= j < i ==> !match_at(hay, needle, j)
}

/// Whether `needle` occurs anywhere in `hay`.
pub open spec fn has_match(hay: Seq<u8>, needle: Seq<u8>) -> bool {
    exists|i: int| match_at(hay, needle, i)
}

/// Compares `needle` byte-for-byte against `hay` at position `i`.
fn bytes_match_at(hay: &[u8], needle: &[u8], i: usize) -> (r: bool)
    requires
        i + needle@.len() <= hay@.len(),
    ensures
        r <==> hay@.subrange(i as int, i + needle@.len() as int) == needle@,
{
    let _hay_len = hay.len();
    let d = needle.len();
    let mut k: usize = 0;
    while k < d
        invariant
            d == needle@.len(),
            i + d <= hay@.len(),
            hay@.len() <= usize::MAX,
            0 <= k <= d,
            forall|t: int| 0 <= t < k ==> hay@[i + t] == needle@[t],
        decreases d - k,
    {
        if hay[i + k] != needle[k] {
            proof {
                assert(hay@.subrange(i as int, i + needle@.len() as int)[k as int] == hay@[i + k]);
            }
            return false;
        }
        k = k + 1;
    }
    proof {
        assert(hay@.subrange(i as int, i + needle@.len() as int) =~= needle@);
    }
    true
}

/// Finds the first occurrence of `needle` — given as its bytes — in `s`,
/// returning its byte position.
pub(crate) fn find_in_str(s: &str, needle: &[u8]) -> (r: Option<usize>)
    ensures
        s.spec_bytes().len() <= usize::MAX,
        match r {
            Some(i) => first_match_at(s.spec_bytes(), needle@, i as int),
            None => !has_match(s.spec_bytes(), needle@),
        },
{
    let bytes = s.as_bytes();
    let n = bytes.len();
    let d = needle.len();
    if d > n {
        proof {
            assert(forall|j: int| !match_at(s.spec_bytes(), needle@, j));
        }
        return None;
    }
    let mut i: usize = 0;
    loop
        invariant
            bytes@ == s.spec_bytes(),
            n == s.spec_bytes().len(),
            d == needle@.len(),
            d <= n,
            0 <= i <= n - d,
            forall|j: int| 0 <= j < i ==> !match_at(s.spec_bytes(), needle@, j),
        decreases n - d - i,
    {
        if bytes_match_at(bytes, needle, i) && s.is_char_boundary(i) && s.is_char_boundary(i + d) {
            return Some(i);
        }
        proof {
            assert(!match_at(s.spec_bytes(), needle@, i as int));
        }
        if i == n - d {
            return None;
        }
        i = i + 1;
    }
}

/// An iterator-style splitter: each `next` yields the piece of the haystack
/// before the next occurrence of the delimiter, and finally the piece after
/// the last one — which is empty when the haystack ends with the delimiter.
pub struct StrSplit<'a, 'b> {
    /// What is left to split; `None` once the final piece was yielded.
    remainder: Option<&'a str>,
    delimiter: &'b str,
}

impl<'a, 'b> StrSplit<'a, 'b> {
    /// What is left to split.
    pub closed spec fn spec_remainder(&self) -> Option<&'a str> {
        self.remainder
    }

    /// The delimiter the haystack is split on.
    pub closed spec fn spec_delimiter(&self) -> &'b str {
        self.delimiter
    }

    /// A splitter over `haystack`, not yet advanced.
    pub fn new(haystack: &'a str, delimiter: &'b str) -> (r: Self)
        ensures
            r.spec_remainder() == Some(haystack),
            r.spec_delimiter() == delimiter,
    {
        Self { remainder: Some(haystack), delimiter }
    }

    /// The next piece: everything before the first occurrence of the
    /// delimiter in the remainder, or the whole remainder when the
    /// delimiter no longer occurs — after which the splitter is exhausted.
    pub fn next(&mut self) -> (r: Option<&'a str>)
        ensures
            final(self).spec_delimiter() == old(self).spec_delimiter(),
            match old(self).spec_remainder() {
                None => r is None && final(self).spec_remainder() is None,
                Some(rem) => {
                    let hb = rem.spec_bytes();
                    let db = old(self).spec_delimiter().spec_bytes();
                    if has_match(hb, db) {
                        exists|i: int|
                            {
                                &&& first_match_at(hb, db, i)
                                &&& match (r, final(self).spec_remainder()) {
                                    (Some(piece), Some(rest)) => piece.spec_bytes() == hb.subrange(
                                        0,
                                        i,
                                    ) && rest.spec_bytes() == hb.subrange(
                                        i + db.len(),
                                        hb.len() as int,
                                    ),
                                    _ => false,
                                }
                            }
                    } else {
                        r == Some(rem) && final(self).spec_remainder() is None
                    }
                },
            },
    {
        let rem = match self.remainder {
            Some(rem) => rem,
            None => {
                return None;
            },
        };
        match find_in_str(rem, self.delimiter.as_bytes()) {
            Some(i) => {
                let (piece, _) = rem.split_at(i);
                let (_, rest) = rem.split_at(i + self.delimiter.len());
                self.remainder = Some(rest);
                proof {
                    let hb = rem.spec_bytes();
                    let db = self.delimiter.spec_bytes();
                    assert(first_match_at(hb, db, i as int) && piece.spec_bytes() == hb.subrange(
                        0,
                        i as int,
                    ) && rest.spec_bytes() == hb.subrange(i + db.len(), hb.len() as int));
                }
                Some(piece)
            },
            None => {
                self.remainder = None;
                Some(rem)
            },
        }
    }
}

} // verus!
