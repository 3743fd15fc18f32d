use std::path::PathBuf;

use mpcreator::{Case, Language, Loader, Part, Project, StringTemplate};

fn project(title: &str, author: &str) -> Project {
    Project {
        title: title.to_string(),
        id: "m".to_string(),
        main_class_name: "M".to_string(),
        maven_group: "g".to_string(),
        author: author.to_string(),
        repo_url: None,
        issues_url: None,
        homepage_url: None,
        loader: Loader::Quilt,
        lang: Language::Kotlin,
        path: PathBuf::from("p"),
    }
}

#[test]
fn inferred_template_gives_example_back() {
    let p = project("My Cool Mod", "acme");
    let example = "https://github.com/acme/my-cool-mod";
    let t = StringTemplate::try_detect(example, &p);
    assert_eq!(t.format(&p), example);
}

#[test]
fn inferred_template_serves_another_project() {
    let p = project("My Cool Mod", "acme");
    let t = StringTemplate::try_detect("https://github.com/acme/my-cool-mod", &p);
    let q = project("Another Thing", "acme");
    assert_eq!(t.format(&q), "https://github.com/acme/another-thing");
}

#[test]
fn inferred_fragments_name_field_and_style() {
    let p = project("My Cool Mod", "acme");
    let t = StringTemplate::try_detect("https://github.com/acme/my-cool-mod", &p);
    let kinds: Vec<String> = t
        .0
        .iter()
        .map(|part| match part {
            Part::Literal(s) => format!("L({})", s),
            Part::Name(c) => format!("N({:?})", c),
            Part::Author(c) => format!("A({:?})", c),
        })
        .collect();
    assert_eq!(
        kinds,
        vec![
            "L(https://github.com/)",
            "A(Verbatim)",
            "L(/)",
            "N(KebabCase)",
            "L()",
        ]
    );
}

#[test]
fn earlier_style_claims_ambiguous_match() {
    let p = project("Mod", "x");
    let t = StringTemplate::try_detect("a/Mod", &p);
    assert!(matches!(t.0[1], Part::Name(Case::Verbatim)));
    assert_eq!(t.0.len(), 3);
}

#[test]
fn example_without_fields_stays_literal() {
    let p = project("Title", "someone");
    let t = StringTemplate::try_detect("https://example.org/", &p);
    assert_eq!(t.0.len(), 1);
    assert!(matches!(&t.0[0], Part::Literal(s) if s == "https://example.org/"));
}

#[test]
fn group_pattern_from_author() {
    let p = project("Example Mod", "acme");
    let t = StringTemplate::try_detect("io.github.acme", &p);
    let q = project("Other", "bob");
    assert_eq!(t.format(&q), "io.github.bob");
}

#[test]
fn parts_render_field_in_style() {
    let p = project("My Cool Mod", "Jane Doe");
    assert_eq!(Part::Name(Case::SnakeCase).format(&p), "my_cool_mod");
    assert_eq!(Part::Author(Case::UpperCamelCase).format(&p), "JaneDoe");
    assert_eq!(Part::Literal("x/y".to_string()).format(&p), "x/y");
    let t = StringTemplate(vec![
        Part::Literal("a-".to_string()),
        Part::Name(Case::KebabCase),
        Part::Literal("-".to_string()),
        Part::Author(Case::LowerCamelCase),
    ]);
    assert_eq!(t.format(&p), "a-my-cool-mod-janeDoe");
    assert_eq!(StringTemplate(Vec::new()).format(&p), "");
}

#[test]
fn empty_example_gives_empty_text() {
    let p = project("My Cool Mod", "acme");
    let t = StringTemplate::try_detect("", &p);
    assert_eq!(t.format(&p), "");
}
