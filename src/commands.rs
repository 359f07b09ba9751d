use vstd::prelude::*;
use crate::extension::CommentDividerExtension;
use crate::settings::CommentDividerSettings;

verus! {

/// The words of a command's argument list joined by single spaces.
pub open spec fn joined(args: Seq<Seq<char>>) -> Seq<char>
    decreases args.len(),
{
    if args.len() == 0 {
        Seq::empty()
    } else if args.len() == 1 {
        args[0]
    } else {
        joined(args.drop_last()) + seq![' '] + args.last()
    }
}

/// The views of a list of strings.
pub open spec fn views(args: Seq<String>) -> Seq<Seq<char>> {
    args.map_values(|s: String| s@)
}

/// Joins `args` with single spaces between them.
pub fn join_args(args: &Vec<String>) -> (r: String)
    ensures
        r@ == joined(views(args@)),
{
    let mut out = String::new();
    let mut i: usize = 0;
    while i < args.len()
        invariant
            i <= args@.len(),
            out@ == joined(views(args@.take(i as int))),
        decreases args@.len() - i,
    {
        proof {
            reveal_strlit(" ");
            assert(views(args@.take(i + 1)).drop_last() =~= views(args@.take(i as int)));
            assert(views(args@.take(i + 1)).last() == args@[i as int]@);
        }
        if i > 0 {
            out.append(" ");
        }
        out.append(args[i].as_str());
        i = i + 1;
    }
    proof {
        assert(args@.take(args@.len() as int) =~= args@);
    }
    out
}

/// The error for a command that is neither a divider nor a header.
pub open spec fn unknown_command(name: Seq<char>) -> Seq<char> {
    "Unknown command: "@ + name
}

/// Whether `name` is one of the two commands: "divider" or "header".
pub fn is_known_command(name: &str) -> (r: bool)
    ensures
        r == (name@ == "divider"@ || name@ == "header"@),
{
    String::from_str(name) == String::from_str("divider") || String::from_str(name)
        == String::from_str("header")
}

/// What the command `name` ("divider" or "header") makes of `text` on the
/// current line: an empty line of JavaScript.
pub open spec fn command_text(st: CommentDividerSettings, name: Seq<char>, text: Seq<char>) -> Seq<
    char,
> {
    if name == "divider"@ {
        if text.len() == 0 {
            st.solid_line("javascript"@, 0)
        } else {
            st.subheader(text, "javascript"@, 0)
        }
    } else {
        st.main_header(text, "javascript"@, 0)
    }
}

impl CommentDividerExtension {
    /// What a command makes on the current line. "divider" makes a solid line
    /// when its arguments join to nothing and a subheader of them otherwise;
    /// "header" makes a main header of them; any other name is an error.
    pub fn run_command(&self, name: &str, args: &Vec<String>) -> (r: Result<String, String>)
        ensures
            match r {
                Ok(out) => (name@ == "divider"@ || name@ == "header"@) && out@ == command_text(
                    self.settings,
                    name@,
                    joined(views(args@)),
                ),
                Err(e) => name@ != "divider"@ && name@ != "header"@ && e@ == unknown_command(name@),
            },
    {
        proof {
            reveal_strlit("divider");
            reveal_strlit("header");
            assert("divider"@[0] != "header"@[0]);
        }
        let text = join_args(args);
        let (_line, indent_size, language) = self.get_current_line_info();
        if String::from_str(name) == String::from_str("divider") {
            if text.as_str().unicode_len() == 0 {
                Ok(self.insert_solid_line(language.as_str(), indent_size))
            } else {
                Ok(self.make_subheader(text.as_str(), language.as_str(), indent_size))
            }
        } else if String::from_str(name) == String::from_str("header") {
            Ok(self.make_main_header(text.as_str(), language.as_str(), indent_size))
        } else {
            let mut e = String::from_str("Unknown command: ");
            e.append(name);
            Err(e)
        }
    }
}

} // verus!
