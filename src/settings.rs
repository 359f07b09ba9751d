use vstd::prelude::*;
use crate::languages::{LanguageTable, default_languages};
use crate::style::{Align, Height, Transform};
use crate::text::{aligned, fill, transformed};

verus! {

/// The width left for the text when `indent` columns of indentation are
/// counted against `length` (or not).
pub open spec fn effective_width(length: nat, includes_indent: bool, indent: nat) -> nat {
    if includes_indent {
        if length >= indent {
            (length - indent) as nat
        } else {
            0
        }
    } else {
        length
    }
}

/// What is left of `width` between the two delimiters and the two spaces
/// beside them; zero where they do not fit.
pub open spec fn content_width(width: nat, start: Seq<char>, end: Seq<char>) -> nat {
    if width >= start.len() + end.len() + 2 {
        (width - start.len() - end.len() - 2) as nat
    } else {
        0
    }
}

/// `n` spaces.
pub open spec fn spaces(n: nat) -> Seq<char> {
    Seq::new(n, |i: int| ' ')
}

/// One comment line: the indentation, the opening delimiter, a space, the
/// content, a space and the closing delimiter.
pub open spec fn comment_line(indent: nat, start: Seq<char>, content: Seq<char>, end: Seq<char>) -> Seq<
    char,
> {
    spaces(indent) + start + seq![' '] + content + seq![' '] + end
}

/// The line shown for a language whose delimiters are not known.
pub open spec fn unsupported(language: Seq<char>) -> Seq<char> {
    "// Unsupported language: "@ + language
}

/// The style of dividers and headers, and the languages they are made for.
pub struct CommentDividerSettings {
    /// The width that a banner line fills.
    pub length: usize,
    /// Whether the indentation counts against `length`.
    pub should_length_include_indent: bool,
    pub main_header_filler: String,
    pub main_header_height: Height,
    pub main_header_align: Align,
    pub main_header_transform: Transform,
    pub subheader_filler: String,
    pub subheader_height: Height,
    pub subheader_align: Align,
    pub subheader_transform: Transform,
    /// What a solid line is filled with.
    pub line_filler: String,
    pub languages_map: LanguageTable,
}

impl CommentDividerSettings {
    /// The settings that hold where nothing was configured.
    pub open spec fn is_default(&self) -> bool {
        &&& self.length == 80
        &&& !self.should_length_include_indent
        &&& self.main_header_filler@ == "-"@
        &&& self.main_header_height == Height::Block
        &&& self.main_header_align == Align::Center
        &&& self.main_header_transform == Transform::Keep
        &&& self.subheader_filler@ == "-"@
        &&& self.subheader_height == Height::Line
        &&& self.subheader_align == Align::Center
        &&& self.subheader_transform == Transform::Keep
        &&& self.line_filler@ == "-"@
        &&& self.languages_map@ == default_languages()
    }

    /// Two settings that make the same banners: every field holds the same value.
    pub open spec fn same_style(&self, other: &CommentDividerSettings) -> bool {
        &&& self.length == other.length
        &&& self.should_length_include_indent == other.should_length_include_indent
        &&& self.main_header_filler@ == other.main_header_filler@
        &&& self.main_header_height == other.main_header_height
        &&& self.main_header_align == other.main_header_align
        &&& self.main_header_transform == other.main_header_transform
        &&& self.subheader_filler@ == other.subheader_filler@
        &&& self.subheader_height == other.subheader_height
        &&& self.subheader_align == other.subheader_align
        &&& self.subheader_transform == other.subheader_transform
        &&& self.line_filler@ == other.line_filler@
        &&& self.languages_map@ == other.languages_map@
    }

    /// The width that a banner takes beside an indentation of `indent` columns.
    pub open spec fn width_for(&self, indent: nat) -> nat {
        effective_width(self.length as nat, self.should_length_include_indent, indent)
    }

    /// A solid divider line for `language`.
    pub open spec fn solid_line(&self, language: Seq<char>, indent: nat) -> Seq<char> {
        if !self.languages_map@.contains_key(language) {
            unsupported(language)
        } else {
            let (start, end) = self.languages_map@[language];
            let width = content_width(self.width_for(indent), start, end);
            comment_line(indent, start, fill(self.line_filler@, width), end)
        }
    }

    /// A one-line subheader for `text` in `language`.
    pub open spec fn subheader(&self, text: Seq<char>, language: Seq<char>, indent: nat) -> Seq<char> {
        if !self.languages_map@.contains_key(language) {
            unsupported(language)
        } else {
            let (start, end) = self.languages_map@[language];
            let width = content_width(self.width_for(indent), start, end);
            let content = aligned(
                transformed(text, self.subheader_transform),
                width,
                self.subheader_align,
                self.subheader_filler@,
            );
            comment_line(indent, start, content, end)
        }
    }

    /// A main header for `text` in `language`: three lines for a block, one otherwise.
    pub open spec fn main_header(&self, text: Seq<char>, language: Seq<char>, indent: nat) -> Seq<
        char,
    > {
        if !self.languages_map@.contains_key(language) {
            unsupported(language)
        } else {
            let (start, end) = self.languages_map@[language];
            let width = content_width(self.width_for(indent), start, end);
            let t = transformed(text, self.main_header_transform);
            if self.main_header_height == Height::Block {
                let border = comment_line(indent, start, fill(self.main_header_filler@, width), end);
                let middle = comment_line(
                    indent,
                    start,
                    aligned(t, width, self.main_header_align, seq![' ']),
                    end,
                );
                border + seq!['\n'] + middle + seq!['\n'] + border
            } else {
                comment_line(
                    indent,
                    start,
                    aligned(t, width, self.main_header_align, self.main_header_filler@),
                    end,
                )
            }
        }
    }
}

impl Default for CommentDividerSettings {
    fn default() -> (r: CommentDividerSettings)
        ensures
            r.is_default(),
    {
        CommentDividerSettings {
            length: 80,
            should_length_include_indent: false,
            main_header_filler: String::from_str("-"),
            main_header_height: Height::Block,
            main_header_align: Align::Center,
            main_header_transform: Transform::Keep,
            subheader_filler: String::from_str("-"),
            subheader_height: Height::Line,
            subheader_align: Align::Center,
            subheader_transform: Transform::Keep,
            line_filler: String::from_str("-"),
            languages_map: LanguageTable::defaults(),
        }
    }
}

} // verus!
