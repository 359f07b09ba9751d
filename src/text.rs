use vstd::prelude::*;
use crate::style::{Align, Transform};

verus! {

/// `n` characters of `filler` repeated, the last repeat cut short where it
/// does not fit; nothing at all for an empty filler.
pub open spec fn fill(filler: Seq<char>, n: nat) -> Seq<char> {
    if filler.len() == 0 {
        Seq::empty()
    } else {
        Seq::new(n, |i: int| filler[i % filler.len() as int])
    }
}

/// `text` padded with `filler` up to `width` characters; a text that already
/// reaches `width` is returned whole.
pub open spec fn aligned(text: Seq<char>, width: nat, align: Align, filler: Seq<char>) -> Seq<char> {
    if text.len() >= width {
        text
    } else {
        let remaining = (width - text.len()) as nat;
        let left = remaining / 2;
        match align {
            Align::Left => text + fill(filler, remaining),
            Align::Right => fill(filler, remaining) + text,
            Align::Center => fill(filler, left) + text + fill(filler, (remaining - left) as nat),
            Align::Keep => text,
        }
    }
}

/// What `str::to_uppercase` makes of a string.
pub uninterp spec fn upper_of(s: Seq<char>) -> Seq<char>;

/// What `str::to_lowercase` makes of a string.
pub uninterp spec fn lower_of(s: Seq<char>) -> Seq<char>;

/// What `char::to_uppercase` makes of a character, collected into a string.
pub uninterp spec fn upper_char_of(c: char) -> Seq<char>;

pub open spec fn is_ascii_char(c: char) -> bool {
    (c as u32) < 128
}

/// Every character of `s` is ASCII.
pub open spec fn is_ascii_text(s: Seq<char>) -> bool {
    forall|i: int| 0 <= i < s.len() ==> is_ascii_char(#[trigger] s[i])
}

/// The ASCII upper-case counterpart of a character; anything but `a`..`z` is kept.
pub open spec fn ascii_upper(c: char) -> char {
    if 'a' <= c && c <= 'z' {
        ((c as u32) - 32) as char
    } else {
        c
    }
}

/// The ASCII lower-case counterpart of a character; anything but `A`..`Z` is kept.
pub open spec fn ascii_lower(c: char) -> char {
    if 'A' <= c && c <= 'Z' {
        ((c as u32) + 32) as char
    } else {
        c
    }
}

/// Relies on `str::to_uppercase`: Unicode upper case of the whole string,
/// which depends on its characters alone; ASCII characters take their ASCII
/// upper-case counterparts, as Unicode's case tables give them.
#[verifier::external_body]
pub(crate) fn to_upper(s: &str) -> (r: String)
    ensures
        r@ == upper_of(s@),
        is_ascii_text(s@) ==> r@ == s@.map_values(|c: char| ascii_upper(c)),
{
    s.to_uppercase()
}

/// Relies on `str::to_lowercase`: Unicode lower case of the whole string,
/// which depends on its characters alone; ASCII characters take their ASCII
/// lower-case counterparts, as Unicode's case tables give them.
#[verifier::external_body]
pub(crate) fn to_lower(s: &str) -> (r: String)
    ensures
        r@ == lower_of(s@),
        is_ascii_text(s@) ==> r@ == s@.map_values(|c: char| ascii_lower(c)),
{
    s.to_lowercase()
}

/// Relies on `char::to_uppercase`: the characters of the upper-case mapping of
/// one character; an ASCII character maps to its ASCII upper-case counterpart.
#[verifier::external_body]
pub(crate) fn char_to_upper(c: char) -> (r: String)
    ensures
        r@ == upper_char_of(c),
        is_ascii_char(c) ==> r@ == seq![ascii_upper(c)],
{
    c.to_uppercase().collect::<String>()
}

/// Upper case of a whole string.
pub open spec fn uppered(s: Seq<char>) -> Seq<char> {
    if is_ascii_text(s) {
        s.map_values(|c: char| ascii_upper(c))
    } else {
        upper_of(s)
    }
}

/// Lower case of a whole string.
pub open spec fn lowered(s: Seq<char>) -> Seq<char> {
    if is_ascii_text(s) {
        s.map_values(|c: char| ascii_lower(c))
    } else {
        lower_of(s)
    }
}

/// Upper case of one character, which may take several characters.
pub open spec fn upper_first(c: char) -> Seq<char> {
    if is_ascii_char(c) {
        seq![ascii_upper(c)]
    } else {
        upper_char_of(c)
    }
}

/// `text` after the case transform `t`.
pub open spec fn transformed(text: Seq<char>, t: Transform) -> Seq<char> {
    match t {
        Transform::Keep => text,
        Transform::Upper => uppered(text),
        Transform::Lower => lowered(text),
        Transform::Capitalize => if text.len() == 0 {
            Seq::empty()
        } else {
            upper_first(text[0]) + lowered(text.drop_first())
        },
    }
}

/// Appends `n` characters of repeated `filler` to `out`.
pub fn append_fill(out: &mut String, filler: &str, n: usize)
    ensures
        final(out)@ == old(out)@ + fill(filler@, n as nat),
{
    let flen = filler.unicode_len();
    if flen == 0 {
        proof {
            assert(old(out)@ + fill(filler@, n as nat) =~= old(out)@);
        }
        return;
    }
    let mut i: usize = 0;
    while i < n
        invariant
            i <= n,
            flen == filler@.len(),
            flen > 0,
            out@ == old(out)@ + fill(filler@, i as nat),
        decreases n - i,
    {
        let k = i % flen;
        let piece = filler.substring_char(k, k + 1);
        out.append(piece);
        proof {
            assert(fill(filler@, (i + 1) as nat) =~= fill(filler@, i as nat) + filler@.subrange(
                k as int,
                k + 1,
            ));
        }
        i = i + 1;
    }
}

} // verus!
