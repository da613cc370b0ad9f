use proc_macro2::Span;
use proc_macro_warning::builder::DeprecatedWarningBuilder;
use proc_macro_warning::warning::{FormattedWarning, Warning};

fn parts(w: &Warning) -> (String, Option<usize>, String, Vec<String>) {
    match w {
        Warning::Deprecated { name, index, message, links, .. } => {
            (name.clone(), *index, message.clone(), links.clone())
        }
    }
}

fn formatted(w: &FormattedWarning) -> (String, String, bool) {
    match w {
        FormattedWarning::Deprecated { name, note, span } => (name.clone(), note.clone(), span.is_some()),
    }
}

#[test]
fn example_works() {
    let warning = Warning::new_deprecated("my_macro")
        .old_usage("my_macro()")
        .new("my_macro::new()")
        .help_link("https:://example.com")
        .span(proc_macro2::Span::call_site())
        .build_or_panic();
    let got = FormattedWarning::from(warning);
    let (name, note, has_span) = formatted(&got);

    assert_eq!(name, "my_macro");
    assert_eq!(
        note,
        "\n\t\tIt is deprecated to my_macro().\n\t\tPlease instead my_macro::new().\n\n\t\tFor more info see:\n\t\t\t<https:://example.com>"
    );
    assert!(has_span);
}

#[allow(clippy::from_over_into)]
struct Custom;

#[allow(clippy::from_over_into)]
impl Into<String> for Custom {
    fn into(self) -> String {
        String::new()
    }
}

/// Check the functions that accepting `Into<String>` work as expected.
#[test]
fn type_inferring_into_string_works() {
    let _ = DeprecatedWarningBuilder::from_title("");
    let _ = DeprecatedWarningBuilder::from_title(String::new());
    let _ = DeprecatedWarningBuilder::from_title(&String::new());
    let _ = DeprecatedWarningBuilder::from_title(Custom);

    let _ = Warning::new_deprecated("");
    let _ = Warning::new_deprecated(String::new());
    let _ = Warning::new_deprecated(&String::new());
    let _ = Warning::new_deprecated(Custom);

    let _ = Warning::new_deprecated("").old_usage("");
    let _ = Warning::new_deprecated("").old_usage(String::new());
    let _ = Warning::new_deprecated("").old_usage(&String::new());
    let _ = Warning::new_deprecated("").old_usage(Custom);

    let _ = Warning::new_deprecated("").new("");
    let _ = Warning::new_deprecated("").new(String::new());
    let _ = Warning::new_deprecated("").new(&String::new());
    let _ = Warning::new_deprecated("").new(Custom);

    let _ = Warning::new_deprecated("").help_link("");
    let _ = Warning::new_deprecated("").help_link(String::new());
    let _ = Warning::new_deprecated("").help_link(&String::new());
    let _ = Warning::new_deprecated("").help_link(Custom);
}

#[test]
fn warning_debug_works() {
    let warning = Warning::new_deprecated("my_macro")
        .old_usage("my_macro()")
        .new("my_macro::new()")
        .help_link("https:://example.com")
        .span(proc_macro2::Span::call_site())
        .build_or_panic();
    let _ = format!("{:?}", warning);
}

#[test]
fn formatted_warning_debug_works() {
    let warning =
        FormattedWarning::new_deprecated("my_macro", "my_macro()", proc_macro2::Span::call_site());
    let _ = format!("{:?}", warning);
}

#[test]
fn deprecated_warning_builder_debug_works() {
    let builder = DeprecatedWarningBuilder::from_title("my_macro");
    let _ = format!("{:?}", builder);
}

#[test]
fn build_reports_the_missing_old_usage_first() {
    let r = Warning::new_deprecated("t").try_build();
    assert_eq!(r.err(), Some("Missing old".to_string()));
    let r = Warning::new_deprecated("t").new("b").try_build();
    assert_eq!(r.err(), Some("Missing old".to_string()));
}

#[test]
fn build_reports_a_missing_new_usage() {
    let r = Warning::new_deprecated("t").old_usage("a").try_build();
    assert_eq!(r.err(), Some("Missing new".to_string()));
    let r = Warning::new_deprecated("t").old_usage("a").maybe_build();
    assert_eq!(r.err(), Some("Missing new".to_string()));
}

#[test]
fn build_makes_the_message_of_both_usages() {
    let w = Warning::new_deprecated("name")
        .index(3usize)
        .alternative("use b")
        .old_usage("use a")
        .help_links(&["x", "y"])
        .build();
    let (name, index, message, links) = parts(&w);
    assert_eq!(name, "name");
    assert_eq!(index, Some(3));
    assert_eq!(message, "It is deprecated to use a.\nPlease instead use b.");
    assert_eq!(links, vec!["x".to_string(), "y".to_string()]);
}

#[test]
fn later_settings_replace_earlier_ones() {
    let w = Warning::new_deprecated("n")
        .old_usage("first")
        .old_usage("second")
        .new("third")
        .help_links(&["a", "b", "c"])
        .help_link("d")
        .maybe_build()
        .unwrap();
    let (_, index, message, links) = parts(&w);
    assert_eq!(index, None);
    assert_eq!(message, "It is deprecated to second.\nPlease instead third.");
    assert_eq!(links, vec!["d".to_string()]);
}

#[test]
fn index_is_appended_to_the_item_name() {
    let w = Warning::new_deprecated("warn").index(42u8).old_usage("a").new("b").build_or_panic();
    let (name, _, _) = formatted(&FormattedWarning::from(w));
    assert_eq!(name, "warn_42");
    let w = Warning::new_deprecated("warn").index(0usize).old_usage("a").new("b").build_or_panic();
    let (name, _, _) = formatted(&FormattedWarning::from(w));
    assert_eq!(name, "warn_0");
    let w = Warning::new_deprecated("w").index(usize::MAX).old_usage("a").new("b").build_or_panic();
    let (name, _, _) = formatted(&FormattedWarning::from(w));
    assert_eq!(name, format!("w_{}", usize::MAX));
}

#[test]
fn distinct_indices_give_distinct_names() {
    let a = Warning::new_deprecated("w").index(1usize).old_usage("a").new("b").build_or_panic();
    let b = Warning::new_deprecated("w").index(11usize).old_usage("a").new("b").build_or_panic();
    let c = Warning::new_deprecated("w").old_usage("a").new("b").build_or_panic();
    let (na, _, _) = formatted(&FormattedWarning::from(a));
    let (nb, _, _) = formatted(&FormattedWarning::from(b));
    let (nc, _, _) = formatted(&FormattedWarning::from(c));
    assert_ne!(na, nb);
    assert_ne!(na, nc);
    assert_ne!(nb, nc);
}

#[test]
fn note_without_links_is_the_indented_message() {
    let w = Warning::new_raw("w".to_string(), "  one\n   two  ".to_string(), vec![], Span::call_site());
    let (_, note, _) = formatted(&FormattedWarning::from(w));
    assert_eq!(note, "\n\t\tone\n\t\ttwo");
}

#[test]
fn note_trims_unicode_whitespace_and_crlf_lines() {
    let w = Warning::new_raw(
        "w".to_string(),
        "\u{3000}\t a\r\n\u{a0}b\r\n\n c\u{2029}\n".to_string(),
        vec![],
        Span::call_site(),
    );
    let (_, note, _) = formatted(&FormattedWarning::from(w));
    assert_eq!(note, "\n\t\ta\n\t\tb\n\t\t\n\t\tc");
}

#[test]
fn note_of_an_empty_message() {
    let w = Warning::new_raw("w".to_string(), " \n ".to_string(), vec![], Span::call_site());
    let (_, note, _) = formatted(&FormattedWarning::from(w));
    assert_eq!(note, "\n");
    let w = Warning::new_raw("w".to_string(), String::new(), vec!["l".to_string()], Span::call_site());
    let (_, note, _) = formatted(&FormattedWarning::from(w));
    assert_eq!(note, "\n\n\n\t\tFor more info see:\n\t\t\t<l>");
}

#[test]
fn note_lists_every_link() {
    let w = Warning::new_deprecated("w")
        .old_usage("x")
        .new("y")
        .help_links(&["a", "b"])
        .build_or_panic();
    let (_, note, _) = formatted(&FormattedWarning::from(w));
    assert_eq!(
        note,
        "\n\t\tIt is deprecated to x.\n\t\tPlease instead y.\n\n\t\tFor more info see:\n\t\t\t<a>\n\t\t\t<b>"
    );
}

#[test]
fn formatted_warning_keeps_its_note_as_is() {
    let w = FormattedWarning::new_deprecated("Name_1", "  raw\nnote ", Span::call_site());
    let (name, note, has_span) = formatted(&w);
    assert_eq!(name, "Name_1");
    assert_eq!(note, "  raw\nnote ");
    assert!(has_span);
}

#[test]
fn new_raw_keeps_its_parts() {
    let w = Warning::new_raw(
        "raw".to_string(),
        "msg".to_string(),
        vec!["l1".to_string()],
        Span::call_site(),
    );
    let (name, index, message, links) = parts(&w);
    assert_eq!(name, "raw");
    assert_eq!(index, None);
    assert_eq!(message, "msg");
    assert_eq!(links, vec!["l1".to_string()]);
}

#[test]
fn default_builder_is_empty() {
    let b = DeprecatedWarningBuilder::default();
    assert_eq!(b.try_build().err(), Some("Missing old".to_string()));
}

#[test]
fn distinct_titles_give_distinct_names() {
    let a = Warning::new_deprecated("a").index(1usize).old_usage("x").new("y").build_or_panic();
    let b = Warning::new_deprecated("b").index(1usize).old_usage("x").new("y").build_or_panic();
    let (na, _, _) = formatted(&FormattedWarning::from(a));
    let (nb, _, _) = formatted(&FormattedWarning::from(b));
    assert_eq!(na, "a_1");
    assert_eq!(nb, "b_1");
}

#[test]
fn parts_can_be_given_in_any_order() {
    let a = Warning::new_deprecated("w")
        .old_usage("x")
        .new("y")
        .index(2usize)
        .help_link("l")
        .build_or_panic();
    let b = Warning::new_deprecated("w")
        .help_link("l")
        .index(2usize)
        .new("y")
        .old_usage("x")
        .build_or_panic();
    assert_eq!(parts(&a), parts(&b));
}

#[test]
fn checked_formatting_refuses_names_that_are_not_identifiers() {
    let w = Warning::new_deprecated("not an ident").old_usage("x").new("y").build_or_panic();
    assert!(FormattedWarning::from_checked(w).is_none());
    let w = Warning::new_deprecated("1").old_usage("x").new("y").build_or_panic();
    assert!(FormattedWarning::from_checked(w).is_none());
    let w = Warning::new_deprecated("ok").index(7usize).old_usage("x").new("y").build_or_panic();
    let f = FormattedWarning::from_checked(w).unwrap();
    assert_eq!(formatted(&f).0, "ok_7");
}

#[test]
fn checked_raw_warning_refuses_names_that_are_not_identifiers() {
    let w = FormattedWarning::new_deprecated_checked("my_macro", "my_macro()", Span::call_site())
        .unwrap();
    let (name, note, has_span) = formatted(&w);
    assert_eq!(name, "my_macro");
    assert_eq!(note, "my_macro()");
    assert!(has_span);
    assert!(FormattedWarning::new_deprecated_checked("my-macro", "x", Span::call_site()).is_none());
    assert!(FormattedWarning::new_deprecated_checked("", "x", Span::call_site()).is_none());
}

#[test]
fn item_names_with_and_without_index() {
    let w1 = Warning::new_deprecated("test").old_usage("foo").new("bar").index(2usize).build_or_panic();
    let w2 = Warning::new_deprecated("test").old_usage("foo").new("bar").build_or_panic();
    assert_eq!(w1.final_deprecated_name(), "test_2");
    assert_eq!(w2.final_deprecated_name(), "test");
}

#[test]
fn build_without_span_index_or_links() {
    let w = Warning::new_deprecated("test").old_usage("foo").new("bar").try_build().unwrap();
    let (name, index, message, links) = parts(&w);
    assert_eq!(name, "test");
    assert_eq!(index, None);
    assert_eq!(message, "It is deprecated to foo.\nPlease instead bar.");
    assert!(links.is_empty());
    assert_eq!(
        w.final_deprecated_message(),
        "\n\t\tIt is deprecated to foo.\n\t\tPlease instead bar."
    );
}

#[test]
fn note_depends_only_on_the_trimmed_lines() {
    let a = Warning::new_raw("a".to_string(), " x\n  y ".to_string(), vec![], Span::call_site());
    let b = Warning::new_raw("b".to_string(), "x\r\ny\n".to_string(), vec![], Span::call_site());
    assert_eq!(a.final_deprecated_message(), b.final_deprecated_message());
}

#[test]
fn final_message_has_no_leading_break_without_links() {
    let w = Warning::new_raw("w".to_string(), " a\n b ".to_string(), vec![], Span::call_site());
    assert_eq!(w.final_message(), "\t\ta\n\t\tb");
    let w = Warning::new_raw("w".to_string(), " a".to_string(), vec!["l".to_string()], Span::call_site());
    assert_eq!(w.final_message(), "\n\t\ta\n\n\t\tFor more info see:\n\t\t\t<l>");
    let w = Warning::new_raw("w".to_string(), "  ".to_string(), vec![], Span::call_site());
    assert_eq!(w.final_message(), "");
}

#[test]
fn last_old_usage_wins() {
    let a = Warning::new_deprecated("t").old_usage(String::from("c")).old_usage("a").new("n").build_or_panic();
    let b = Warning::new_deprecated("t").old_usage("a").new("n").build_or_panic();
    assert_eq!(parts(&a), parts(&b));
    assert!(parts(&a).2.starts_with("It is deprecated to a."));
}
