use comment_divider::extension::CommentDividerExtension;
use comment_divider::languages::{CommentTokens, LanguageTable};
use comment_divider::settings::CommentDividerSettings;
use comment_divider::style::{Align, Height, Transform};

fn maker_with(f: impl FnOnce(&mut CommentDividerSettings)) -> CommentDividerExtension {
    let mut settings = CommentDividerSettings::default();
    f(&mut settings);
    CommentDividerExtension::with_settings(settings)
}

#[test]
fn solid_line_rust_width_twenty() {
    let maker = maker_with(|s| {
        s.length = 20;
        s.line_filler = "-".to_string();
        s.should_length_include_indent = false;
    });
    let line = maker.insert_solid_line("rust", 0);
    assert_eq!(line, "// -------------- //");
    assert_eq!(line.chars().count(), 20);
}

#[test]
fn subheader_python_centered() {
    let maker = maker_with(|s| {
        s.length = 10;
        s.subheader_filler = "-".to_string();
        s.subheader_align = Align::Center;
        s.subheader_transform = Transform::Keep;
    });
    assert_eq!(maker.make_subheader("hi", "python", 0), "# --hi-- #");
}

#[test]
fn unsupported_language_fallback() {
    let maker = CommentDividerExtension::new();
    let solid = maker.insert_solid_line("klingon", 0);
    assert!(solid.contains("Unsupported language: klingon"));
    assert_eq!(solid, "// Unsupported language: klingon");
    assert_eq!(maker.make_subheader("x", "klingon", 2), "// Unsupported language: klingon");
    assert_eq!(maker.make_main_header("x", "klingon", 2), "// Unsupported language: klingon");
}

#[test]
fn same_inputs_same_output() {
    let a = CommentDividerExtension::new();
    let b = CommentDividerExtension::new();
    assert_eq!(a.make_main_header("Title", "go", 4), b.make_main_header("Title", "go", 4));
    assert_eq!(a.make_subheader("Part", "lua", 2), a.make_subheader("Part", "lua", 2));
    assert_eq!(a.insert_solid_line("sql", 0), b.insert_solid_line("sql", 0));
}

#[test]
fn subheader_fills_effective_width() {
    let maker = maker_with(|s| {
        s.length = 30;
        s.should_length_include_indent = true;
        s.subheader_align = Align::Left;
    });
    let line = maker.make_subheader("Section", "html", 4);
    assert_eq!(line.chars().count(), 4 + 26);
    assert_eq!(line, "    <!-- Section---------- -->");
}

#[test]
fn line_header_fills_effective_width() {
    let maker = maker_with(|s| {
        s.length = 24;
        s.main_header_height = Height::Line;
        s.main_header_align = Align::Right;
        s.main_header_filler = "=".to_string();
    });
    let line = maker.make_main_header("Top", "c", 2);
    assert_eq!(line, "  /* ===============Top */");
    assert_eq!(line.chars().count(), 2 + 24);
}

#[test]
fn long_text_is_never_cut() {
    let maker = CommentDividerExtension::new();
    assert_eq!(maker.align_text("abcdef", 4, Align::Center, "-"), "abcdef");
    assert_eq!(maker.align_text("abcd", 4, Align::Left, "-"), "abcd");
    let narrow = maker_with(|s| s.length = 8);
    assert_eq!(narrow.make_subheader("overflowing", "rust", 0), "// overflowing //");
}

#[test]
fn center_padding_even_and_odd() {
    let maker = CommentDividerExtension::new();
    assert_eq!(maker.align_text("ab", 6, Align::Center, "*"), "**ab**");
    assert_eq!(maker.align_text("ab", 7, Align::Center, "*"), "**ab***");
}

#[test]
fn left_right_and_unpadded() {
    let maker = CommentDividerExtension::new();
    assert_eq!(maker.align_text("ab", 5, Align::Left, "."), "ab...");
    assert_eq!(maker.align_text("ab", 5, Align::Right, "."), "...ab");
    assert_eq!(maker.align_text("ab", 5, Align::Keep, "."), "ab");
}

#[test]
fn multi_character_filler_is_cut_to_width() {
    let maker = CommentDividerExtension::new();
    assert_eq!(maker.align_text("x", 6, Align::Left, "ab"), "xababa");
    assert_eq!(maker.align_text("x", 6, Align::Center, "ab"), "abxaba");
}

#[test]
fn empty_filler_pads_nothing() {
    let maker = CommentDividerExtension::new();
    assert_eq!(maker.align_text("x", 6, Align::Left, ""), "x");
}

#[test]
fn capitalize_twice_is_capitalize_once() {
    let maker = CommentDividerExtension::new();
    let once = maker.transform_text("hello WORLD", Transform::Capitalize);
    assert_eq!(once, "Hello world");
    assert_eq!(maker.transform_text(&once, Transform::Capitalize), once);
    assert_eq!(maker.transform_text("", Transform::Capitalize), "");
}

#[test]
fn case_transforms() {
    let maker = CommentDividerExtension::new();
    assert_eq!(maker.transform_text("Straße", Transform::Upper), "STRASSE");
    assert_eq!(maker.transform_text("HeLLo", Transform::Lower), "hello");
    assert_eq!(maker.transform_text("ßig", Transform::Capitalize), "SSig");
    assert_eq!(maker.transform_text("MiXed", Transform::Keep), "MiXed");
}

#[test]
fn block_header_default_style() {
    let maker = maker_with(|s| s.length = 16);
    let header = maker.make_main_header("Hi", "python", 0);
    assert_eq!(header, "# ------------ #\n#      Hi      #\n# ------------ #");
}

#[test]
fn block_header_transformed_and_indented() {
    let maker = maker_with(|s| {
        s.length = 14;
        s.main_header_transform = Transform::Upper;
        s.main_header_align = Align::Left;
        s.main_header_filler = "~".to_string();
    });
    let header = maker.make_main_header("ok", "sql", 2);
    assert_eq!(header, "  -- ~~~~~~~~ --\n  -- OK       --\n  -- ~~~~~~~~ --");
}

#[test]
fn indentation_counted_against_width() {
    let maker = maker_with(|s| {
        s.length = 20;
        s.should_length_include_indent = true;
    });
    assert_eq!(maker.get_effective_length(4), 16);
    assert_eq!(maker.get_effective_length(25), 0);
    assert_eq!(maker.insert_solid_line("rust", 4), "    // ---------- //");
    let plain = maker_with(|s| s.length = 20);
    assert_eq!(plain.get_effective_length(4), 20);
}

#[test]
fn too_narrow_width_clamps_to_zero() {
    let maker = maker_with(|s| s.length = 3);
    assert_eq!(maker.insert_solid_line("rust", 0), "//  //");
    assert_eq!(maker.make_subheader("", "css", 0), "/*  */");
}

#[test]
fn default_languages_and_lookup() {
    let maker = CommentDividerExtension::new();
    let html = maker.get_comment_chars("html").unwrap();
    assert_eq!((html.start.as_str(), html.end.as_str()), ("<!--", "-->"));
    let vim = maker.get_comment_chars("vim").unwrap();
    assert_eq!((vim.start.as_str(), vim.end.as_str()), ("\"", "\""));
    assert!(maker.get_comment_chars("Rust").is_none());
    assert_eq!(maker.insert_solid_line("vim", 0).chars().count(), 80);
}

#[test]
fn table_insert_replaces_and_extends() {
    let mut table = LanguageTable::defaults();
    table.insert("rust", CommentTokens::from_list(&vec!["/*".to_string(), "*/".to_string()]).unwrap());
    table.insert("lisp", CommentTokens::from_list(&vec![";;".to_string()]).unwrap());
    let rust = table.lookup("rust").unwrap();
    assert_eq!((rust.start.as_str(), rust.end.as_str()), ("/*", "*/"));
    let lisp = table.lookup("lisp").unwrap();
    assert_eq!((lisp.start.as_str(), lisp.end.as_str()), (";;", ";;"));
    assert!(LanguageTable::new().lookup("rust").is_none());
}

#[test]
fn tokens_from_list_rejects_empty() {
    assert!(CommentTokens::from_list(&vec![]).is_none());
    assert!(CommentTokens::from_list(&vec!["".to_string(), "x".to_string()]).is_none());
}

#[test]
fn style_names() {
    assert_eq!(Align::from_name("left"), Align::Left);
    assert_eq!(Align::from_name("right"), Align::Right);
    assert_eq!(Align::from_name("center"), Align::Center);
    assert_eq!(Align::from_name("middle"), Align::Keep);
    assert_eq!(Transform::from_name("uppercase"), Transform::Upper);
    assert_eq!(Transform::from_name("lowercase"), Transform::Lower);
    assert_eq!(Transform::from_name("capitalize"), Transform::Capitalize);
    assert_eq!(Transform::from_name("none"), Transform::Keep);
    assert_eq!(Height::from_name("block"), Height::Block);
    assert_eq!(Height::from_name("line"), Height::Line);
}

#[test]
fn current_line_defaults() {
    let maker = CommentDividerExtension::new();
    assert_eq!(maker.get_current_line_info(), (String::new(), 0, "javascript".to_string()));
}
