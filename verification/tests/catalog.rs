use quickstart_lib::catalog::{
    collect_templates, show, sorted_display, template_label, text_le, Listed, TemplateSection,
};
use quickstart_lib::template::{TemplateLoader, TemplateVariant};
use quickstart_lib::ProjectType;

fn strings(items: &[&str]) -> Vec<String> {
    items.iter().map(|s| s.to_string()).collect()
}

#[test]
fn test_collect_templates_empty() {
    let loader = TemplateLoader::new("/repo");
    let listed = Listed {
        binary_extended: None,
        binary_minimal: None,
        library_extended: None,
        library_minimal: None,
    };
    let templates = collect_templates(&loader, &listed);
    assert!(templates.is_empty());
}

#[test]
fn test_collect_templates_with_content() {
    let loader = TemplateLoader::new("/repo");
    let listed = Listed {
        binary_extended: None,
        binary_minimal: Some(strings(&["/repo/binary/minimal/test.hbs"])),
        library_extended: None,
        library_minimal: None,
    };
    let templates = collect_templates(&loader, &listed);
    assert!(!templates.is_empty());
    assert_eq!(
        templates,
        vec![TemplateSection {
            label: "Binary/minimal".to_string(),
            templates: strings(&["binary/minimal/test.hbs"]),
        }]
    );
}

#[test]
fn sections_come_in_the_order_of_their_headings() {
    let loader = TemplateLoader::new("/repo");
    let listed = Listed {
        binary_extended: Some(strings(&[
            "/repo/base/README.md.hbs",
            "/repo/binary/extended/src/main.rs.hbs",
            "/repo/binary/extended/Cargo.toml.hbs",
        ])),
        binary_minimal: None,
        library_extended: Some(Vec::new()),
        library_minimal: Some(strings(&["/repo/library/minimal/src/lib.rs.hbs", "/elsewhere/x.hbs"])),
    };
    let sections = collect_templates(&loader, &listed);
    let labels: Vec<&str> = sections.iter().map(|s| s.label.as_str()).collect();
    assert_eq!(labels, vec!["Binary/extended", "Library/extended", "Library/minimal"]);
    assert_eq!(
        sections[0].templates,
        strings(&[
            "base/README.md.hbs",
            "binary/extended/Cargo.toml.hbs",
            "binary/extended/src/main.rs.hbs"
        ])
    );
    assert!(sections[1].templates.is_empty());
    assert_eq!(
        sections[2].templates,
        strings(&["/elsewhere/x.hbs", "library/minimal/src/lib.rs.hbs"])
    );
    let mut sorted_labels = labels.clone();
    sorted_labels.sort();
    assert_eq!(labels, sorted_labels);
}

#[test]
fn labels_name_type_and_variant() {
    assert_eq!(template_label(ProjectType::Binary, TemplateVariant::Minimal), "Binary/minimal");
    assert_eq!(template_label(ProjectType::Binary, TemplateVariant::Extended), "Binary/extended");
    assert_eq!(template_label(ProjectType::Library, TemplateVariant::Minimal), "Library/minimal");
    assert_eq!(template_label(ProjectType::Library, TemplateVariant::Extended), "Library/extended");
}

#[test]
fn paths_are_shown_relative_to_the_repository() {
    assert_eq!(show("/repo", "/repo/base/x.hbs"), "base/x.hbs");
    assert_eq!(show("/repo/", "/repo/base/x.hbs"), "base/x.hbs");
    assert_eq!(show("/repo", "/repository/x.hbs"), "/repository/x.hbs");
    assert_eq!(show("/repo", "/other/x.hbs"), "/other/x.hbs");
    assert_eq!(show("/repo", "/repo"), "/repo");
    assert_eq!(show("", "a/b"), "a/b");
    assert_eq!(show("/long/base", "/x"), "/x");
}

#[test]
fn display_is_sorted_like_strings_are() {
    let listed = strings(&["b", "a", "B", "ab", "", "a", "é", "z/1", "z-1", "10", "9"]);
    let sorted = sorted_display("", &listed);
    let mut expected = listed.clone();
    expected.sort();
    assert_eq!(sorted, expected);
    assert!(text_le("", "a"));
    assert!(text_le("a", "a"));
    assert!(text_le("a", "ab"));
    assert!(!text_le("ab", "a"));
    assert!(text_le("B", "a"));
    assert!(!text_le("b", "a"));
    assert!(text_le("z", "é"));
}
