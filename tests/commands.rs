use comment_divider::commands::{is_known_command, join_args};
use comment_divider::extension::CommentDividerExtension;
use comment_divider::settings::CommentDividerSettings;

fn narrow() -> CommentDividerExtension {
    let mut settings = CommentDividerSettings::default();
    settings.length = 12;
    CommentDividerExtension::with_settings(settings)
}

#[test]
fn join_with_single_spaces() {
    assert_eq!(join_args(&vec![]), "");
    assert_eq!(join_args(&vec!["one".to_string()]), "one");
    assert_eq!(join_args(&vec!["a".to_string(), "b".to_string(), "c".to_string()]), "a b c");
}

#[test]
fn divider_without_text_is_solid_line() {
    assert_eq!(narrow().run_command("divider", &vec![]), Ok("// ------ //".to_string()));
}

#[test]
fn divider_with_text_is_subheader() {
    let args = vec!["a".to_string(), "b".to_string()];
    assert_eq!(narrow().run_command("divider", &args), Ok("// -a b-- //".to_string()));
}

#[test]
fn header_command_makes_block() {
    let args = vec!["T".to_string()];
    assert_eq!(
        narrow().run_command("header", &args),
        Ok("// ------ //\n//   T    //\n// ------ //".to_string())
    );
}

#[test]
fn unknown_command_is_error() {
    assert_eq!(narrow().run_command("banner", &vec![]), Err("Unknown command: banner".to_string()));
    assert!(is_known_command("divider"));
    assert!(is_known_command("header"));
    assert!(!is_known_command("banner"));
}
