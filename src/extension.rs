use vstd::prelude::*;
use crate::languages::CommentTokens;
use crate::settings::{CommentDividerSettings, comment_line, content_width, spaces, unsupported};
use crate::style::{Align, Height, Transform};
use crate::text::{aligned, append_fill, char_to_upper, fill, to_lower, to_upper, transformed};

verus! {

/// The line shown for a language whose delimiters are not known.
fn unsupported_line(language: &str) -> (r: String)
    ensures
        r@ == unsupported(language@),
{
    let mut r = String::from_str("// Unsupported language: ");
    r.append(language);
    r
}

/// The room between the delimiters of `tokens` on a line of `width` columns.
fn room_between(width: usize, tokens: &CommentTokens) -> (r: usize)
    ensures
        r == content_width(width as nat, tokens.start@, tokens.end@),
{
    let s = tokens.start.as_str().unicode_len();
    let e = tokens.end.as_str().unicode_len();
    if width >= s && width - s >= e && width - s - e >= 2 {
        width - s - e - 2
    } else {
        0
    }
}

/// One comment line around `content`, indented by `indent` spaces.
fn line_around(indent: usize, tokens: &CommentTokens, content: &str) -> (r: String)
    ensures
        r@ == comment_line(indent as nat, tokens.start@, content@, tokens.end@),
{
    let mut out = String::new();
    append_fill(&mut out, " ", indent);
    out.append(tokens.start.as_str());
    out.append(" ");
    out.append(content);
    out.append(" ");
    out.append(tokens.end.as_str());
    proof {
        reveal_strlit(" ");
        assert(fill(" "@, indent as nat) =~= spaces(indent as nat));
        assert(out@ =~= comment_line(indent as nat, tokens.start@, content@, tokens.end@));
    }
    out
}

/// Makes comment dividers and headers in the style of its settings.
pub struct CommentDividerExtension {
    pub settings: CommentDividerSettings,
}

impl CommentDividerExtension {
    /// A maker with the default settings.
    pub fn new() -> (r: CommentDividerExtension)
        ensures
            r.settings.is_default(),
    {
        CommentDividerExtension { settings: CommentDividerSettings::default() }
    }

    /// A maker with the given settings.
    pub fn with_settings(settings: CommentDividerSettings) -> (r: CommentDividerExtension)
        ensures
            r.settings == settings,
    {
        CommentDividerExtension { settings }
    }

    /// The comment delimiters of `language`, if the settings know it.
    pub fn get_comment_chars(&self, language: &str) -> (r: Option<&CommentTokens>)
        ensures
            match r {
                Some(t) => self.settings.languages_map@.contains_key(language@)
                    && self.settings.languages_map@[language@] == t@,
                None => !self.settings.languages_map@.contains_key(language@),
            },
    {
        self.settings.languages_map.lookup(language)
    }

    /// Applies the case transform `transform` to `text`.
    pub fn transform_text(&self, text: &str, transform: Transform) -> (r: String)
        ensures
            r@ == transformed(text@, transform),
    {
        match transform {
            Transform::Keep => String::from_str(text),
            Transform::Upper => to_upper(text),
            Transform::Lower => to_lower(text),
            Transform::Capitalize => {
                let n = text.unicode_len();
                if n == 0 {
                    String::new()
                } else {
                    let mut r = char_to_upper(text.get_char(0));
                    let rest = to_lower(text.substring_char(1, n));
                    r.append(rest.as_str());
                    proof {
                        assert(text@.subrange(1, n as int) =~= text@.drop_first());
                    }
                    r
                }
            },
        }
    }

    /// Pads `text` with `filler` up to `total_width` characters as `align` says.
    pub fn align_text(&self, text: &str, total_width: usize, align: Align, filler: &str) -> (r: String)
        ensures
            r@ == aligned(text@, total_width as nat, align, filler@),
    {
        let len = text.unicode_len();
        if len >= total_width {
            return String::from_str(text);
        }
        let remaining = total_width - len;
        let mut out = String::new();
        match align {
            Align::Left => {
                out.append(text);
                append_fill(&mut out, filler, remaining);
            },
            Align::Right => {
                append_fill(&mut out, filler, remaining);
                out.append(text);
            },
            Align::Center => {
                let left = remaining / 2;
                append_fill(&mut out, filler, left);
                out.append(text);
                append_fill(&mut out, filler, remaining - left);
            },
            Align::Keep => {
                out.append(text);
            },
        }
        proof {
            assert(out@ =~= aligned(text@, total_width as nat, align, filler@));
        }
        out
    }

    /// The width that banners fill beside an indentation of `indent_size` columns.
    pub fn get_effective_length(&self, indent_size: usize) -> (r: usize)
        ensures
            r == self.settings.width_for(indent_size as nat),
    {
        if self.settings.should_length_include_indent {
            if self.settings.length >= indent_size {
                self.settings.length - indent_size
            } else {
                0
            }
        } else {
            self.settings.length
        }
    }

    /// A main header for `text` in `language` at an indentation of `indent_size`:
    /// a filler line, the text padded with spaces, and the filler line again for
    /// a block; the text padded with the filler for a single line.
    pub fn make_main_header(&self, text: &str, language: &str, indent_size: usize) -> (r: String)
        ensures
            r@ == self.settings.main_header(text@, language@, indent_size as nat),
    {
        let tokens = match self.get_comment_chars(language) {
            Some(t) => t,
            None => {
                return unsupported_line(language);
            },
        };
        let width = room_between(self.get_effective_length(indent_size), tokens);
        let t = self.transform_text(text, self.settings.main_header_transform);
        if self.settings.main_header_height == Height::Block {
            let mut border_fill = String::new();
            append_fill(&mut border_fill, self.settings.main_header_filler.as_str(), width);
            let border = line_around(indent_size, tokens, border_fill.as_str());
            let middle_text = self.align_text(t.as_str(), width, self.settings.main_header_align, " ");
            let middle = line_around(indent_size, tokens, middle_text.as_str());
            let mut out = border.clone();
            out.append("\n");
            out.append(middle.as_str());
            out.append("\n");
            out.append(border.as_str());
            proof {
                reveal_strlit(" ");
                reveal_strlit("\n");
                assert(border_fill@ =~= fill(self.settings.main_header_filler@, width as nat));
                assert(out@ =~= self.settings.main_header(text@, language@, indent_size as nat));
            }
            out
        } else {
            let content = self.align_text(
                t.as_str(),
                width,
                self.settings.main_header_align,
                self.settings.main_header_filler.as_str(),
            );
            line_around(indent_size, tokens, content.as_str())
        }
    }

    /// A one-line subheader for `text` in `language` at an indentation of
    /// `indent_size`, padded with the subheader filler.
    pub fn make_subheader(&self, text: &str, language: &str, indent_size: usize) -> (r: String)
        ensures
            r@ == self.settings.subheader(text@, language@, indent_size as nat),
    {
        let tokens = match self.get_comment_chars(language) {
            Some(t) => t,
            None => {
                return unsupported_line(language);
            },
        };
        let width = room_between(self.get_effective_length(indent_size), tokens);
        let t = self.transform_text(text, self.settings.subheader_transform);
        let content = self.align_text(
            t.as_str(),
            width,
            self.settings.subheader_align,
            self.settings.subheader_filler.as_str(),
        );
        line_around(indent_size, tokens, content.as_str())
    }

    /// A solid divider line in `language` at an indentation of `indent_size`.
    pub fn insert_solid_line(&self, language: &str, indent_size: usize) -> (r: String)
        ensures
            r@ == self.settings.solid_line(language@, indent_size as nat),
    {
        let tokens = match self.get_comment_chars(language) {
            Some(t) => t,
            None => {
                return unsupported_line(language);
            },
        };
        let width = room_between(self.get_effective_length(indent_size), tokens);
        let mut content = String::new();
        append_fill(&mut content, self.settings.line_filler.as_str(), width);
        proof {
            assert(content@ =~= fill(self.settings.line_filler@, width as nat));
        }
        line_around(indent_size, tokens, content.as_str())
    }

    /// Where a divider goes: the text of the current line, its indentation and
    /// its language. Without an editor to ask, an empty line of JavaScript.
    pub fn get_current_line_info(&self) -> (r: (String, usize, String))
        ensures
            r.0@.len() == 0,
            r.1 == 0,
            r.2@ == "javascript"@,
    {
        (String::new(), 0, String::from_str("javascript"))
    }
}

} // verus!
