use std::path::PathBuf;
use template_engines::registry::{named_templates, TemplateInfo};

fn entry(name: &str, path: Option<&str>, engine_ext: &'static str) -> (String, TemplateInfo) {
    (name.to_string(), TemplateInfo { path: path.map(PathBuf::from), engine_ext })
}

#[test]
fn selects_the_templates_of_one_backend() {
    let templates = vec![
        entry("index", Some("templates/index.html.tera"), "tera"),
        entry("about", Some("templates/about.html.hbs"), "hbs"),
        entry("feed", Some("templates/feed.xml.tera"), "tera"),
    ];
    let index = PathBuf::from("templates/index.html.tera");
    let feed = PathBuf::from("templates/feed.xml.tera");
    let about = PathBuf::from("templates/about.html.hbs");
    assert_eq!(named_templates(&templates, "tera"), vec![("index", &index), ("feed", &feed)]);
    assert_eq!(named_templates(&templates, "hbs"), vec![("about", &about)]);
}

#[test]
fn skips_templates_without_a_file() {
    let templates = vec![
        entry("inline", None, "tera"),
        entry("index", Some("templates/index.html.tera"), "tera"),
        entry("other", None, "hbs"),
    ];
    let index = PathBuf::from("templates/index.html.tera");
    assert_eq!(named_templates(&templates, "tera"), vec![("index", &index)]);
    assert!(named_templates(&templates, "hbs").is_empty());
}

#[test]
fn selects_nothing_from_an_empty_registry() {
    let templates: Vec<(String, TemplateInfo)> = Vec::new();
    assert!(named_templates(&templates, "tera").is_empty());
}

#[test]
fn selects_nothing_for_an_extension_that_owns_no_template() {
    let templates = vec![
        entry("index", Some("templates/index.html.tera"), "tera"),
        entry("about", Some("templates/about.html.hbs"), "hbs"),
    ];
    assert!(named_templates(&templates, "html").is_empty());
    assert!(named_templates(&templates, "").is_empty());
    assert!(named_templates(&templates, "Tera").is_empty());
}

#[test]
fn keeps_entries_that_share_a_name_in_their_order() {
    let templates = vec![
        entry("page", Some("a/page.html.hbs"), "hbs"),
        entry("page", Some("b/page.html.hbs"), "hbs"),
    ];
    let first = PathBuf::from("a/page.html.hbs");
    let second = PathBuf::from("b/page.html.hbs");
    assert_eq!(named_templates(&templates, "hbs"), vec![("page", &first), ("page", &second)]);
}

#[test]
fn distinct_names_stay_distinct_in_a_selection() {
    let templates = vec![
        entry("a", Some("t/a.html.tera"), "tera"),
        entry("b", Some("t/b.html.hbs"), "hbs"),
        entry("c", Some("t/c.html.tera"), "tera"),
        entry("d", None, "tera"),
        entry("e", Some("t/e.html.tera"), "tera"),
    ];
    let named = named_templates(&templates, "tera");
    let names: Vec<&str> = named.iter().map(|(name, _)| *name).collect();
    assert_eq!(names, vec!["a", "c", "e"]);
}
