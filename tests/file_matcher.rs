use mpcreator::{ConfigError, Pattern, ReplacementFile};

#[test]
fn excluded_png_is_not_matched() {
    let m = ReplacementFile::All {
        matching: None,
        except_matching: Some(Pattern::new(r"\.png$").unwrap()),
    };
    assert!(!m.matches("assets/icon.png"));
    assert!(m.matches("src/Main.java"));
}

#[test]
fn inclusion_and_exclusion_together() {
    let m = ReplacementFile::All {
        matching: Some(Pattern::new(r"\.java$").unwrap()),
        except_matching: Some(Pattern::new(r"^build/").unwrap()),
    };
    assert!(m.matches("src/Main.java"));
    assert!(!m.matches("build/Main.java"));
    assert!(!m.matches("src/Main.kt"));
}

#[test]
fn all_without_expressions_matches_everything() {
    let m = ReplacementFile::All { matching: None, except_matching: None };
    assert!(m.matches("anything/at/all.bin"));
    assert!(m.matches(""));
}

#[test]
fn only_path_matches_whole_components() {
    let m = ReplacementFile::Only { path: "quilt.mod.json".to_string() };
    assert!(m.matches("src/main/resources/quilt.mod.json"));
    assert!(!m.matches("src/main/resources/xquilt.mod.json"));
    assert!(m.matches("quilt.mod.json"));
    assert!(!m.matches("quilt.mod.json.bak"));
}

#[test]
fn only_path_with_several_components() {
    let m = ReplacementFile::Only { path: "resources/quilt.mod.json".to_string() };
    assert!(m.matches("src/main/resources/quilt.mod.json"));
    assert!(!m.matches("src/main/myresources/quilt.mod.json"));
}

#[test]
fn malformed_expression_is_a_configuration_error() {
    match Pattern::new("foo(bar") {
        Err(ConfigError::InvalidPattern(p)) => assert_eq!(p, "foo(bar"),
        Ok(_) => panic!("an unclosed group compiled"),
    }
}

#[test]
fn pattern_keeps_its_text() {
    let p = Pattern::new(r"\.png$").unwrap();
    assert_eq!(p.as_str(), r"\.png$");
    assert!(p.is_match("a.png"));
    assert!(!p.is_match("a.png.txt"));
}
