use vstd::prelude::*;

verus! {

/// Where a text sits inside the width that it is padded to.
#[derive(Clone, Copy, Debug, PartialEq, Eq, Structural)]
pub enum Align {
    Left,
    Right,
    Center,
    /// No padding at all: the text is kept as it is.
    Keep,
}

/// A change of letter case applied to a banner's text.
#[derive(Clone, Copy, Debug, PartialEq, Eq, Structural)]
pub enum Transform {
    Keep,
    Upper,
    Lower,
    /// First character upper case, the rest lower case.
    Capitalize,
}

/// How many lines a main header takes.
#[derive(Clone, Copy, Debug, PartialEq, Eq, Structural)]
pub enum Height {
    /// A filler line, the text line, and the filler line again.
    Block,
    /// The text line alone.
    Line,
}

/// Whether a string is exactly the given literal.
fn is_name(name: &str, literal: &str) -> (r: bool)
    ensures
        r == (name@ == literal@),
{
    String::from_str(name) == String::from_str(literal)
}

impl Align {
    /// Reads an alignment from its name; a name that is not known means no padding.
    pub fn from_name(name: &str) -> (r: Align)
        ensures
            name@ == "left"@ ==> r == Align::Left,
            name@ == "right"@ ==> r == Align::Right,
            name@ == "center"@ ==> r == Align::Center,
            name@ != "left"@ && name@ != "right"@ && name@ != "center"@ ==> r == Align::Keep,
    {
        proof {
            reveal_strlit("left");
            reveal_strlit("right");
            reveal_strlit("center");
            assert("left"@[0] != "right"@[0] && "left"@[0] != "center"@[0] && "right"@[0]
                != "center"@[0]);
        }
        if is_name(name, "left") {
            Align::Left
        } else if is_name(name, "right") {
            Align::Right
        } else if is_name(name, "center") {
            Align::Center
        } else {
            Align::Keep
        }
    }
}

impl Align {
    /// The name that `from_name` reads back as this alignment.
    pub fn name(&self) -> (r: &'static str)
        ensures
            r@ == match self {
                Align::Left => "left"@,
                Align::Right => "right"@,
                Align::Center => "center"@,
                Align::Keep => "none"@,
            },
    {
        match self {
            Align::Left => "left",
            Align::Right => "right",
            Align::Center => "center",
            Align::Keep => "none",
        }
    }
}

impl Transform {
    /// The name that `from_name` reads back as this transform.
    pub fn name(&self) -> (r: &'static str)
        ensures
            r@ == match self {
                Transform::Keep => "none"@,
                Transform::Upper => "uppercase"@,
                Transform::Lower => "lowercase"@,
                Transform::Capitalize => "capitalize"@,
            },
    {
        match self {
            Transform::Keep => "none",
            Transform::Upper => "uppercase",
            Transform::Lower => "lowercase",
            Transform::Capitalize => "capitalize",
        }
    }
}

impl Transform {
    /// Reads a case transform from its name; a name that is not known means no change.
    pub fn from_name(name: &str) -> (r: Transform)
        ensures
            name@ == "uppercase"@ ==> r == Transform::Upper,
            name@ == "lowercase"@ ==> r == Transform::Lower,
            name@ == "capitalize"@ ==> r == Transform::Capitalize,
            name@ != "uppercase"@ && name@ != "lowercase"@ && name@ != "capitalize"@ ==> r
                == Transform::Keep,
    {
        proof {
            reveal_strlit("uppercase");
            reveal_strlit("lowercase");
            reveal_strlit("capitalize");
            assert("uppercase"@[0] != "lowercase"@[0] && "uppercase"@[0] != "capitalize"@[0]
                && "lowercase"@[0] != "capitalize"@[0]);
        }
        if is_name(name, "uppercase") {
            Transform::Upper
        } else if is_name(name, "lowercase") {
            Transform::Lower
        } else if is_name(name, "capitalize") {
            Transform::Capitalize
        } else {
            Transform::Keep
        }
    }
}

impl Height {
    /// The name that `from_name` reads back as this height.
    pub fn name(&self) -> (r: &'static str)
        ensures
            r@ == match self {
                Height::Block => "block"@,
                Height::Line => "line"@,
            },
    {
        match self {
            Height::Block => "block",
            Height::Line => "line",
        }
    }

    /// Reads a header height from its name: "block" is a block, anything else one line.
    pub fn from_name(name: &str) -> (r: Height)
        ensures
            r == (if name@ == "block"@ { Height::Block } else { Height::Line }),
    {
        if is_name(name, "block") {
            Height::Block
        } else {
            Height::Line
        }
    }
}

} // verus!
