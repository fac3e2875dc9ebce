use rokoko::tools::{capitalize, snake_to_upper_case};
use rokoko::window::declaration::{
    expect_double_quotes, validate, window_declaration, Attr, Callback, Data, DeclError,
};

#[test]
fn capitalize_uppercases_the_first_letter() {
    assert_eq!(capitalize("pork"), "Pork".to_owned());
    assert_eq!(capitalize("Pork"), "Pork".to_owned());
    assert_eq!(capitalize("x"), "X".to_owned());
    assert_eq!(capitalize("1abc"), "1abc".to_owned());
}

#[test]
fn capitalize_keeps_characters_outside_the_ascii_lowercase_range() {
    assert_eq!(capitalize("ähnlich"), "ähnlich".to_owned());
}

#[test]
fn snake_to_upper_case_capitalizes_every_segment() {
    assert_eq!(snake_to_upper_case("snaky_snake"), "SnakySnake".to_owned());
    assert_eq!(snake_to_upper_case("size_is_logical"), "SizeIsLogical".to_owned());
    assert_eq!(snake_to_upper_case("title"), "Title".to_owned());
}

#[test]
fn expect_double_quotes_strips_the_quotes() {
    assert_eq!(expect_double_quotes("\"init\""), Some("init".to_owned()));
    assert_eq!(expect_double_quotes("\"\""), Some("".to_owned()));
    assert_eq!(expect_double_quotes("init"), None);
    assert_eq!(expect_double_quotes("\""), None);
    assert_eq!(expect_double_quotes("\"open"), None);
}

#[test]
fn a_field_declaration_folds_into_its_descriptor() {
    let attrs = vec![
        Attr::Conflict("maximized".to_owned()),
        Attr::Usage(".with_inner_size(size)".to_owned()),
    ];
    let d = Data::add("size".to_owned(), false, &attrs).unwrap();
    assert_eq!(d.lower, "size".to_owned());
    assert_eq!(d.conflict, vec!["maximized".to_owned()]);
    assert_eq!(d.require, Vec::<String>::new());
    assert_eq!(d.usage, ".with_inner_size(size)".to_owned());
    assert!(!d.short);
}

#[test]
fn a_field_with_two_defaults_is_rejected() {
    let attrs = vec![
        Attr::Default("1".to_owned()),
        Attr::Default("2".to_owned()),
        Attr::Usage("u".to_owned()),
    ];
    let r = Data::add("f".to_owned(), false, &attrs);
    assert_eq!(r.unwrap_err(), DeclError::MultipleDefaults);
}

#[test]
fn a_short_field_with_a_default_is_rejected() {
    let attrs = vec![Attr::Default("1".to_owned()), Attr::Usage("u".to_owned())];
    let r = Data::add("f".to_owned(), true, &attrs);
    assert_eq!(r.unwrap_err(), DeclError::DefaultOnShort);
}

#[test]
fn a_field_with_two_usages_is_rejected() {
    let attrs = vec![Attr::Usage("u".to_owned()), Attr::Usage("v".to_owned())];
    let r = Data::add("f".to_owned(), false, &attrs);
    assert_eq!(r.unwrap_err(), DeclError::MultipleUsages);
}

#[test]
fn a_field_without_usage_or_requirement_is_rejected() {
    let attrs = vec![Attr::Conflict("g".to_owned())];
    let r = Data::add("f".to_owned(), false, &attrs);
    assert_eq!(r.unwrap_err(), DeclError::NoUsageOrRequire);
}

#[test]
fn an_event_declaration_folds_into_its_descriptor() {
    let attrs = vec![
        Attr::On("WindowEvent::CloseRequested".to_owned()),
        Attr::Default("window.close()".to_owned()),
    ];
    let c = Callback::add("on_close".to_owned(), "window".to_owned(), &attrs).unwrap();
    assert_eq!(c.lower, "on_close".to_owned());
    assert_eq!(c.on, "WindowEvent::CloseRequested".to_owned());
    assert_eq!(c.default, "window.close()".to_owned());
    assert_eq!(c.unique, "".to_owned());
    assert_eq!(c.args, "window".to_owned());
}

#[test]
fn a_unique_event_keeps_the_unquoted_marker() {
    let attrs = vec![Attr::Unique("\"init\"".to_owned())];
    let c = Callback::add("on_init".to_owned(), "window".to_owned(), &attrs).unwrap();
    assert_eq!(c.unique, "init".to_owned());
    assert_eq!(c.on, "".to_owned());
}

#[test]
fn an_event_with_two_unique_markers_is_rejected() {
    let attrs = vec![
        Attr::Unique("\"init\"".to_owned()),
        Attr::Unique("\"init\"".to_owned()),
    ];
    let r = Callback::add("e".to_owned(), "".to_owned(), &attrs);
    assert_eq!(r.unwrap_err(), DeclError::MultipleUniques);
}

#[test]
fn an_unquoted_unique_marker_is_rejected() {
    let attrs = vec![Attr::Unique("init".to_owned())];
    let r = Callback::add("e".to_owned(), "".to_owned(), &attrs);
    assert_eq!(r.unwrap_err(), DeclError::UnquotedUnique);
}

#[test]
fn an_event_with_two_defaults_is_rejected() {
    let attrs = vec![
        Attr::On("o".to_owned()),
        Attr::Default("a".to_owned()),
        Attr::Default("b".to_owned()),
    ];
    let r = Callback::add("e".to_owned(), "".to_owned(), &attrs);
    assert_eq!(r.unwrap_err(), DeclError::MultipleDefaults);
}

#[test]
fn an_event_with_two_patterns_is_rejected() {
    let attrs = vec![Attr::On("a".to_owned()), Attr::On("b".to_owned())];
    let r = Callback::add("e".to_owned(), "".to_owned(), &attrs);
    assert_eq!(r.unwrap_err(), DeclError::MultipleOns);
}

#[test]
fn an_event_without_pattern_or_unique_marker_is_rejected() {
    let attrs = vec![Attr::Default("d".to_owned())];
    let r = Callback::add("e".to_owned(), "".to_owned(), &attrs);
    assert_eq!(r.unwrap_err(), DeclError::NoOnOrUnique);
}

fn field(lower: &str, conflicts: &[&str]) -> Data {
    let mut attrs = vec![Attr::Usage("u".to_owned())];
    for c in conflicts {
        attrs.push(Attr::Conflict((*c).to_owned()));
    }
    Data::add(lower.to_owned(), false, &attrs).unwrap()
}

#[test]
fn symmetric_conflicts_validate() {
    let data = vec![field("size", &["maximized"]), field("maximized", &["size"])];
    assert!(validate(&data, &Vec::new()).is_ok());
}

#[test]
fn a_conflict_with_an_undeclared_field_is_rejected() {
    let data = vec![field("size", &["fullscreen"])];
    let r = validate(&data, &Vec::new());
    assert_eq!(r.unwrap_err(), DeclError::UnknownField("fullscreen".to_owned()));
}

#[test]
fn a_one_sided_conflict_is_rejected() {
    let data = vec![field("size", &["maximized"]), field("maximized", &[])];
    let r = validate(&data, &Vec::new());
    assert_eq!(
        r.unwrap_err(),
        DeclError::AsymmetricConflict("size".to_owned(), "maximized".to_owned())
    );
}

#[test]
fn an_unknown_unique_marker_is_rejected() {
    let attrs = vec![Attr::Unique("\"setup\"".to_owned())];
    let cb = Callback::add("on_setup".to_owned(), "".to_owned(), &attrs).unwrap();
    let r = validate(&Vec::new(), &vec![cb]);
    assert_eq!(r.unwrap_err(), DeclError::UnknownUnique("setup".to_owned()));
}

#[test]
fn the_window_declaration_is_well_formed() {
    let (data, callbacks) = window_declaration().unwrap();
    assert_eq!(data.len(), 4);
    assert_eq!(callbacks.len(), 3);
    assert_eq!(data[0].lower, "title".to_owned());
    assert_eq!(data[1].lower, "size".to_owned());
    assert_eq!(data[2].lower, "maximized".to_owned());
    assert_eq!(data[3].lower, "size_is_logical".to_owned());
    assert_eq!(data[0].default, "\"rokoko window\"".to_owned());
    assert_eq!(data[0].usage, ".with_title(title)".to_owned());
    assert!(!data[0].short);
    assert_eq!(data[1].conflict, vec!["maximized".to_owned()]);
    assert_eq!(data[1].usage, ".with_inner_size(size)".to_owned());
    assert_eq!(data[2].conflict, vec!["size".to_owned()]);
    assert_eq!(data[2].usage, ".with_maximized(true)".to_owned());
    assert!(data[2].short);
    assert_eq!(data[3].require, vec!["size".to_owned()]);
    assert_eq!(data[3].usage, "".to_owned());
    assert!(data[3].short);
    assert_eq!(callbacks[0].lower, "on_close".to_owned());
    assert_eq!(callbacks[0].on, "WindowEvent::CloseRequested".to_owned());
    assert_eq!(callbacks[0].default, "window.close()".to_owned());
    assert_eq!(callbacks[1].lower, "on_init".to_owned());
    assert_eq!(callbacks[1].unique, "init".to_owned());
    assert_eq!(callbacks[2].lower, "on_exit".to_owned());
    assert_eq!(callbacks[2].on, "UserEvent::Close".to_owned());
    assert!(validate(&data, &callbacks).is_ok());
}
