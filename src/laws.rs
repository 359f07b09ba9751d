use vstd::prelude::*;
use crate::settings::{CommentDividerSettings, content_width};
use crate::style::{Align, Height, Transform};
use crate::text::{aligned, ascii_lower, ascii_upper, fill, is_ascii_text, transformed};

verus! {

/// Banners depend on nothing but their inputs: settings that hold the same
/// values give the same solid line, subheader and main header for the same
/// text, language and indentation.
pub proof fn lemma_banners_deterministic(
    a: CommentDividerSettings,
    b: CommentDividerSettings,
    text: Seq<char>,
    language: Seq<char>,
    indent: nat,
)
    requires
        a.same_style(&b),
    ensures
        a.solid_line(language, indent) == b.solid_line(language, indent),
        a.subheader(text, language, indent) == b.subheader(text, language, indent),
        a.main_header(text, language, indent) == b.main_header(text, language, indent),
{
}

/// Padding a text that is shorter than `width` with a non-empty filler, to the
/// left, the right or both sides, gives exactly `width` characters.
pub proof fn lemma_aligned_len(text: Seq<char>, width: nat, align: Align, filler: Seq<char>)
    requires
        text.len() < width,
        filler.len() > 0,
        align != Align::Keep,
    ensures
        aligned(text, width, align, filler).len() == width,
{
}

/// A subheader whose text is shorter than the room between the delimiters
/// fills the indentation and exactly the effective width.
pub proof fn lemma_subheader_width(
    st: CommentDividerSettings,
    text: Seq<char>,
    language: Seq<char>,
    indent: nat,
)
    requires
        st.languages_map@.contains_key(language),
        st.subheader_filler@.len() > 0,
        st.subheader_align != Align::Keep,
        transformed(text, st.subheader_transform).len() < content_width(
            st.width_for(indent),
            st.languages_map@[language].0,
            st.languages_map@[language].1,
        ),
    ensures
        st.subheader(text, language, indent).len() == indent + st.width_for(indent),
{
    let (start, end) = st.languages_map@[language];
    lemma_aligned_len(
        transformed(text, st.subheader_transform),
        content_width(st.width_for(indent), start, end),
        st.subheader_align,
        st.subheader_filler@,
    );
}

/// A one-line main header whose text is shorter than the room between the
/// delimiters fills the indentation and exactly the effective width.
pub proof fn lemma_line_header_width(
    st: CommentDividerSettings,
    text: Seq<char>,
    language: Seq<char>,
    indent: nat,
)
    requires
        st.languages_map@.contains_key(language),
        st.main_header_height == Height::Line,
        st.main_header_filler@.len() > 0,
        st.main_header_align != Align::Keep,
        transformed(text, st.main_header_transform).len() < content_width(
            st.width_for(indent),
            st.languages_map@[language].0,
            st.languages_map@[language].1,
        ),
    ensures
        st.main_header(text, language, indent).len() == indent + st.width_for(indent),
{
    let (start, end) = st.languages_map@[language];
    lemma_aligned_len(
        transformed(text, st.main_header_transform),
        content_width(st.width_for(indent), start, end),
        st.main_header_align,
        st.main_header_filler@,
    );
}

/// A text that already reaches the width is never cut: padding returns it whole.
pub proof fn lemma_aligned_keeps_long_text(
    text: Seq<char>,
    width: nat,
    align: Align,
    filler: Seq<char>,
)
    requires
        text.len() >= width,
    ensures
        aligned(text, width, align, filler) == text,
{
}

/// Centering puts half of the padding, rounded down, on the left and the rest
/// on the right: the two sides are equal for an even padding, and the right
/// one is one longer for an odd one.
pub proof fn lemma_center_symmetry(text: Seq<char>, width: nat, filler: Seq<char>)
    requires
        text.len() < width,
    ensures
        ({
            let remaining = (width - text.len()) as nat;
            let left = remaining / 2;
            let right = (remaining - left) as nat;
            &&& aligned(text, width, Align::Center, filler) == fill(filler, left) + text + fill(
                filler,
                right,
            )
            &&& remaining % 2 == 0 ==> right == left
            &&& remaining % 2 == 1 ==> right == left + 1
        }),
{
}

/// Capitalizing an ASCII text a second time changes nothing.
pub proof fn lemma_capitalize_idempotent(s: Seq<char>)
    requires
        is_ascii_text(s),
    ensures
        transformed(transformed(s, Transform::Capitalize), Transform::Capitalize) == transformed(
            s,
            Transform::Capitalize,
        ),
{
    if s.len() > 0 {
        let once = transformed(s, Transform::Capitalize);
        let rest = s.drop_first().map_values(|c: char| ascii_lower(c));
        assert(is_ascii_text(s.drop_first()));
        assert(once == seq![ascii_upper(s[0])] + rest);
        assert(once[0] == ascii_upper(s[0]));
        assert(once.drop_first() =~= rest);
        assert(is_ascii_text(rest));
        assert(rest.map_values(|c: char| ascii_lower(c)) =~= rest);
        assert(ascii_upper(ascii_upper(s[0])) == ascii_upper(s[0]));
        assert(transformed(once, Transform::Capitalize) =~= once);
    }
}

} // verus!
