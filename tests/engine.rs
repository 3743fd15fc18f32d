use std::path::PathBuf;

use mpcreator::{
    default_replacements, Case, Language, Loader, Pattern, Project, Replacement, ReplacementFile,
    ReplacementInsertion, Replacements,
};

fn project() -> Project {
    Project {
        title: "My Cool Mod".to_string(),
        id: "my_cool_mod".to_string(),
        main_class_name: "MyCoolMod".to_string(),
        maven_group: "org.acme".to_string(),
        author: "acme".to_string(),
        repo_url: Some("https://github.com/acme/my-cool-mod".to_string()),
        issues_url: None,
        homepage_url: None,
        loader: Loader::Quilt,
        lang: Language::Java,
        path: PathBuf::from("projects/My Cool Mod"),
    }
}

fn everywhere(find: &str, with: ReplacementInsertion) -> Replacement {
    Replacement {
        file: ReplacementFile::All { matching: None, except_matching: None },
        replace: find.to_string(),
        with,
    }
}

#[test]
fn later_rules_see_earlier_output() {
    let rules = Replacements(vec![
        everywhere("A", ReplacementInsertion::Literal("B".to_string())),
        everywhere("B", ReplacementInsertion::Literal("C".to_string())),
    ]);
    assert_eq!(rules.apply_to_text("file.txt", "A", &project()), "C");
}

#[test]
fn rules_apply_only_to_selected_files() {
    let rules = Replacements(vec![Replacement {
        file: ReplacementFile::All {
            matching: None,
            except_matching: Some(Pattern::new(r"\.png$").unwrap()),
        },
        replace: "com.example".to_string(),
        with: ReplacementInsertion::Group(Case::Verbatim),
    }]);
    let p = project();
    assert_eq!(rules.apply_to_text("src/Main.java", "package com.example;", &p), "package org.acme;");
    assert_eq!(rules.apply_to_text("assets/icon.png", "com.example", &p), "com.example");
}

#[test]
fn unreadable_file_is_skipped() {
    let rules = Replacements(vec![everywhere("a", ReplacementInsertion::Literal("b".to_string()))]);
    let p = project();
    assert_eq!(rules.rewrite_file("icon.png", None, &p), None);
    assert_eq!(rules.rewrite_file("notes.txt", Some("aa".to_string()), &p), Some("bb".to_string()));
}

#[test]
fn absent_optional_field_gives_empty_text() {
    let rules = Replacements(vec![everywhere(
        "https://example.com/",
        ReplacementInsertion::HomepageUrl(Case::Verbatim),
    )]);
    assert_eq!(rules.apply_to_text("quilt.mod.json", "\"https://example.com/\"", &project()), "\"\"");
}

#[test]
fn empty_rule_set_keeps_content() {
    let rules = Replacements(Vec::new());
    assert_eq!(rules.apply_to_text("a.txt", "Example Mod", &project()), "Example Mod");
}

#[test]
fn default_java_rules_adapt_sources() {
    let rules = default_replacements(Loader::Quilt, Language::Java).unwrap();
    let p = project();
    let java = "package com.example.example_mod;\nclass ExampleMod { // Example Mod\n  static ExampleMod exampleMod; }";
    assert_eq!(
        rules.apply_to_text("src/main/java/com/example/example_mod/ExampleMod.java", java, &p),
        "package org.acme.my_cool_mod;\nclass MyCoolMod { // My Cool Mod\n  static MyCoolMod myCoolMod; }"
    );
    assert_eq!(rules.apply_to_text("gradlew", "com.example", &p), "com.example");
    let json = "{\"authors\": \"Your name here\", \"sources\": \"https://github.com/QuiltMC/quilt-template-mod\", \"issues\": \"https://github.com/QuiltMC/quilt-template-mod/issues\"}";
    assert_eq!(
        rules.apply_to_text("src/main/resources/quilt.mod.json", json, &p),
        "{\"authors\": \"acme\", \"sources\": \"https://github.com/acme/my-cool-mod\", \"issues\": \"\"}"
    );
    assert_eq!(rules.apply_to_text("src/main/resources/other.json", "Your name here", &p), "Your name here");
}
