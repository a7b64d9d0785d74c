use gh_form::listing::{ends_with_str, list_yaml_names};

#[test]
fn listing_keeps_yaml_files_sorted() {
    let names = vec![
        "zeta.yaml".to_string(),
        "readme.md".to_string(),
        "alpha.yml".to_string(),
        "notes.txt".to_string(),
        "beta.yaml".to_string(),
    ];
    let listed = list_yaml_names(names);
    assert_eq!(listed, vec!["alpha.yml".to_string(), "beta.yaml".to_string(), "zeta.yaml".to_string()]);
}

#[test]
fn suffix_test_matches_exact_endings() {
    assert!(ends_with_str("config.yml", ".yml"));
    assert!(ends_with_str("form.yaml", ".yaml"));
    assert!(!ends_with_str("form.yaml.bak", ".yaml"));
    assert!(!ends_with_str("yml", ".yml"));
    assert!(!ends_with_str("", ".yml"));
}

#[test]
fn listing_page_wraps_fragments() {
    let card = gh_form::listing::error_card("bad.yaml", "missing field `name`");
    assert_eq!(
        card,
        "<div class=\"summary\"><div><div>Failed to deserialize bad.yaml</div><pre>missing field `name`</pre></div></div>"
    );
    let page = gh_form::listing::render_listing(&vec![card.clone(), "<p>x</p>".to_string()]);
    assert!(page.starts_with("<!DOCTYPE html>"));
    let expected_tail = format!("<div class=\"form-list-container\">{}<p>x</p></div></body></html>", card);
    assert!(page.ends_with(&expected_tail));
}
