use mpcreator::Case;

const STYLES: [Case; 5] = [
    Case::Verbatim,
    Case::SnakeCase,
    Case::UpperCamelCase,
    Case::LowerCamelCase,
    Case::KebabCase,
];

#[test]
fn example_mod_in_every_style() {
    assert_eq!(Case::SnakeCase.format("Example Mod"), "example_mod");
    assert_eq!(Case::UpperCamelCase.format("Example Mod"), "ExampleMod");
    assert_eq!(Case::LowerCamelCase.format("Example Mod"), "exampleMod");
    assert_eq!(Case::KebabCase.format("Example Mod"), "example-mod");
}

#[test]
fn verbatim_keeps_text() {
    for s in ["", "Example Mod", "some_thing-Else 42", "ÄÖ ü"] {
        assert_eq!(Case::Verbatim.format(s), s);
    }
}

#[test]
fn formatting_twice_changes_nothing() {
    for s in ["Example Mod", "myCoolMod", "my-cool_mod", "HTTPServer", "x", ""] {
        for c in STYLES {
            let once = c.format(s);
            assert_eq!(c.format(&once), once);
        }
    }
}

#[test]
fn empty_text_stays_empty() {
    for c in STYLES {
        assert_eq!(c.format(""), "");
    }
}

#[test]
fn already_styled_text_is_kept() {
    assert_eq!(Case::SnakeCase.format("example_mod"), "example_mod");
    assert_eq!(Case::KebabCase.format("example-mod"), "example-mod");
    assert_eq!(Case::UpperCamelCase.format("ExampleMod"), "ExampleMod");
    assert_eq!(Case::LowerCamelCase.format("exampleMod"), "exampleMod");
}

#[test]
fn styles_split_on_case_changes_and_separators() {
    assert_eq!(Case::SnakeCase.format("myCoolMod"), "my_cool_mod");
    assert_eq!(Case::UpperCamelCase.format("my-cool_mod"), "MyCoolMod");
    assert_eq!(Case::KebabCase.format("MyCoolMod"), "my-cool-mod");
}
