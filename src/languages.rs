use vstd::prelude::*;

verus! {

/// The delimiters of a comment: `start` opens it and `end` closes it. A
/// language with line comments only has `end == start`.
pub struct CommentTokens {
    pub start: String,
    pub end: String,
}

impl View for CommentTokens {
    type V = (Seq<char>, Seq<char>);

    open spec fn view(&self) -> (Seq<char>, Seq<char>) {
        (self.start@, self.end@)
    }
}

impl CommentTokens {
    /// Delimiters are usable when the opening one is not empty.
    pub open spec fn wf(&self) -> bool {
        self.start@.len() > 0
    }

    /// Delimiters from a list as settings hold them: the first entry opens, the
    /// second, where there is one, closes; otherwise the first closes too.
    /// An empty list or an empty first entry gives none.
    pub fn from_list(list: &Vec<String>) -> (r: Option<CommentTokens>)
        ensures
            match r {
                Some(t) => list@.len() > 0 && list@[0]@.len() > 0 && t.wf() && t@ == (
                    list@[0]@,
                    if list@.len() > 1 {
                        list@[1]@
                    } else {
                        list@[0]@
                    },
                ),
                None => list@.len() == 0 || list@[0]@.len() == 0,
            },
    {
        if list.len() == 0 || list[0].as_str().unicode_len() == 0 {
            return None;
        }
        let start = list[0].clone();
        let end = if list.len() > 1 {
            list[1].clone()
        } else {
            list[0].clone()
        };
        Some(CommentTokens { start, end })
    }
}

/// One language and its comment delimiters.
pub struct LanguageEntry {
    pub language: String,
    pub tokens: CommentTokens,
}

/// The map that a list of entries stands for: a later entry for a language
/// replaces an earlier one.
pub open spec fn entries_map(s: Seq<LanguageEntry>) -> Map<Seq<char>, (Seq<char>, Seq<char>)>
    decreases s.len(),
{
    if s.len() == 0 {
        Map::empty()
    } else {
        entries_map(s.drop_last()).insert(s.last().language@, s.last().tokens@)
    }
}

/// Comment delimiters by language name (case-sensitive), as a list of
/// entries in which a later entry for a language replaces an earlier one.
pub struct LanguageTable {
    pub entries: Vec<LanguageEntry>,
}

impl View for LanguageTable {
    type V = Map<Seq<char>, (Seq<char>, Seq<char>)>;

    open spec fn view(&self) -> Map<Seq<char>, (Seq<char>, Seq<char>)> {
        entries_map(self.entries@)
    }
}

/// Delimiters made from two string literals.
fn tokens_of(start: &str, end: &str) -> (r: CommentTokens)
    ensures
        r@ == (start@, end@),
{
    CommentTokens { start: String::from_str(start), end: String::from_str(end) }
}

/// The languages known without any configuration.
pub open spec fn default_languages() -> Map<Seq<char>, (Seq<char>, Seq<char>)> {
    Map::empty().insert("javascript"@, ("//"@, "//"@)).insert("typescript"@, ("//"@, "//"@)).insert(
        "rust"@,
        ("//"@, "//"@),
    ).insert("python"@, ("#"@, "#"@)).insert("html"@, ("<!--"@, "-->"@)).insert(
        "css"@,
        ("/*"@, "*/"@),
    ).insert("c"@, ("/*"@, "*/"@)).insert("cpp"@, ("//"@, "//"@)).insert(
        "java"@,
        ("//"@, "//"@),
    ).insert("go"@, ("//"@, "//"@)).insert("php"@, ("//"@, "//"@)).insert(
        "ruby"@,
        ("#"@, "#"@),
    ).insert("shell"@, ("#"@, "#"@)).insert("bash"@, ("#"@, "#"@)).insert(
        "yaml"@,
        ("#"@, "#"@),
    ).insert("toml"@, ("#"@, "#"@)).insert("sql"@, ("--"@, "--"@)).insert(
        "lua"@,
        ("--"@, "--"@),
    ).insert("vim"@, ("\""@, "\""@))
}

impl LanguageTable {
    /// A table with no language.
    pub fn new() -> (r: LanguageTable)
        ensures
            r@ == Map::<Seq<char>, (Seq<char>, Seq<char>)>::empty(),
    {
        LanguageTable { entries: Vec::new() }
    }

    /// Adds `language` with its delimiters, replacing what it had.
    pub fn insert(&mut self, language: &str, tokens: CommentTokens)
        ensures
            final(self)@ == old(self)@.insert(language@, tokens@),
    {
        let entry = LanguageEntry { language: String::from_str(language), tokens };
        self.entries.push(entry);
        proof {
            assert(self.entries@.drop_last() =~= old(self).entries@);
        }
    }

    /// The table of the languages known without any configuration.
    pub fn defaults() -> (r: LanguageTable)
        ensures
            r@ == default_languages(),
    {
        let mut t = LanguageTable::new();
        t.insert("javascript", tokens_of("//", "//"));
        t.insert("typescript", tokens_of("//", "//"));
        t.insert("rust", tokens_of("//", "//"));
        t.insert("python", tokens_of("#", "#"));
        t.insert("html", tokens_of("<!--", "-->"));
        t.insert("css", tokens_of("/*", "*/"));
        t.insert("c", tokens_of("/*", "*/"));
        t.insert("cpp", tokens_of("//", "//"));
        t.insert("java", tokens_of("//", "//"));
        t.insert("go", tokens_of("//", "//"));
        t.insert("php", tokens_of("//", "//"));
        t.insert("ruby", tokens_of("#", "#"));
        t.insert("shell", tokens_of("#", "#"));
        t.insert("bash", tokens_of("#", "#"));
        t.insert("yaml", tokens_of("#", "#"));
        t.insert("toml", tokens_of("#", "#"));
        t.insert("sql", tokens_of("--", "--"));
        t.insert("lua", tokens_of("--", "--"));
        t.insert("vim", tokens_of("\"", "\""));
        t
    }

    /// The delimiters of `language`, if the table has it.
    pub fn lookup(&self, language: &str) -> (r: Option<&CommentTokens>)
        ensures
            match r {
                Some(t) => self@.contains_key(language@) && self@[language@] == t@,
                None => !self@.contains_key(language@),
            },
    {
        let key = String::from_str(language);
        let mut i = self.entries.len();
        proof {
            assert(self.entries@.take(i as int) =~= self.entries@);
        }
        while i > 0
            invariant
                i <= self.entries@.len(),
                key@ == language@,
                entries_map(self.entries@).contains_key(language@) == entries_map(
                    self.entries@.take(i as int),
                ).contains_key(language@),
                entries_map(self.entries@.take(i as int)).contains_key(language@) ==> entries_map(
                    self.entries@,
                )[language@] == entries_map(self.entries@.take(i as int))[language@],
            decreases i,
        {
            proof {
                assert(self.entries@.take(i as int).drop_last() =~= self.entries@.take(i - 1));
            }
            if self.entries[i - 1].language == key {
                return Some(&self.entries[i - 1].tokens);
            }
            i = i - 1;
        }
        None
    }
}

} // verus!
