use gh_form::form::{
    decode_form_str, BodyType, CheckboxesAttribute, CheckboxesOption, DropdownAttribute, Form,
    SequenceLike,
};
use gh_form::markdown::{Markdown, MarkdownInline};

#[test]
fn inline_bold_is_not_wrapped_in_a_paragraph() {
    let inline = MarkdownInline("**bold**".to_string()).render();
    assert_eq!(inline, "<strong>bold</strong>");
    let block = Markdown("**bold**".to_string()).render();
    assert_eq!(block, "<p><strong>bold</strong></p>\n");
}

#[test]
fn summarize_escapes_text_and_link() {
    let form = Form {
        name: "Tom & <Jerry>".to_string(),
        description: "\"quoted\"".to_string(),
        title: None,
        labels: SequenceLike::Sequence(vec![]),
        assignees: SequenceLike::Sequence(vec![]),
        body: vec![],
    };
    assert_eq!(
        form.summarize("a?b=\"c\""),
        "<div class=\"summary\"><div><strong class=\"name\">Tom &amp; &lt;Jerry&gt;</strong><div class=\"description\">&quot;quoted&quot;</div></div><a class=\"button\" href=\"a?b=&quot;c&quot;\">Preview</a></div>"
    );
}

#[test]
fn full_page_from_document_text() {
    let form = decode_form_str(
        "name: Bug\ndescription: File a bug\nlabels: [\"a\", \"b\"]\nbody:\n  - type: markdown\n    attributes:\n      value: hello\n",
    )
    .unwrap();
    assert_eq!(
        form.to_html(),
        "<!DOCTYPE html><html lang=\"en\"><head><meta charset=\"UTF-8\"><title>Issue Form Previewer</title></head><link rel=\"stylesheet\" type=\"text/css\" href=\"https://cdnjs.cloudflare.com/ajax/libs/github-markdown-css/5.1.0/github-markdown.min.css\"><link rel=\"stylesheet\" type=\"text/css\" href=\"/assets/extra.css\"><body class=\"markdown-body\"><article><table role=\"table\"><thead><tr><th align=\"left\">Name</th><th align=\"left\">About</th><th align=\"left\">Labels</th><th align=\"left\">Assignees</th></tr></thead><tbody><tr><td align=\"left\">Bug</td><td align=\"left\">File a bug</td><td align=\"left\">a, b</td><td align=\"left\"></td></tr></tbody></table></article><table><tbody><tr><td><div class=\"markdown-description\"><p>hello</p>\n</div></td></tr></tbody></table></body></html>"
    );
}

#[test]
fn dropdown_multiple_picks_checkbox_single_picks_radio() {
    let multi = BodyType::Dropdown {
        id: "pet".to_string(),
        attributes: DropdownAttribute {
            label: "Pets".to_string(),
            description: Markdown("".to_string()),
            multiple: true,
            options: vec!["Cat".to_string(), "Dog".to_string()],
        },
        validations: None,
    };
    let html = multi.render();
    assert_eq!(html.matches("type=\"checkbox\"").count(), 2);
    assert_eq!(html.matches("type=\"radio\"").count(), 0);
    assert_eq!(html.matches("name=\"issue-form[pet]\"").count(), 2);

    let single = BodyType::Dropdown {
        id: "pet".to_string(),
        attributes: DropdownAttribute {
            label: "Pets".to_string(),
            description: Markdown("".to_string()),
            multiple: false,
            options: vec!["Cat".to_string(), "Dog".to_string()],
        },
        validations: None,
    };
    let html = single.render();
    assert_eq!(html.matches("type=\"radio\"").count(), 2);
    assert_eq!(html.matches("type=\"checkbox\"").count(), 0);
    assert_eq!(html.matches("name=\"issue-form[pet]\"").count(), 2);
}

#[test]
fn absent_validations_mark_a_field_optional() {
    let form = decode_form_str(
        "name: n\ndescription: d\nbody:\n  - type: input\n    id: a\n  - type: input\n    id: b\n    validations:\n      required: false\n  - type: input\n    id: c\n    validations:\n      required: true\n",
    )
    .unwrap();
    let htmls: Vec<String> = form.body.iter().map(|f| f.render()).collect();
    assert!(htmls[0].contains("required=\"optional\""));
    assert!(htmls[1].contains("required=\"optional\""));
    assert!(htmls[2].contains("required=\"required\""));
}

#[test]
fn each_option_marks_its_own_requirement() {
    let body = BodyType::Checkboxes {
        id: "terms".to_string(),
        attributes: CheckboxesAttribute {
            label: "Terms".to_string(),
            description: Markdown("".to_string()),
            options: vec![
                CheckboxesOption {
                    label: MarkdownInline("first".to_string()),
                    required: false,
                },
                CheckboxesOption {
                    label: MarkdownInline("second".to_string()),
                    required: true,
                },
            ],
        },
    };
    let html = body.render();
    assert_eq!(html.matches("<span class=\"checkbox-required\">*</span>").count(), 1);
    let first = html.find("first</label>").unwrap();
    let second = html.find("second</label>").unwrap();
    let marker = html.find("<span class=\"checkbox-required\">*</span>").unwrap();
    assert!(first < second && second < marker);
}

#[test]
fn markdown_field_has_no_id_heading_or_marker() {
    let form = decode_form_str(
        "name: n\ndescription: d\nbody:\n  - type: markdown\n    attributes:\n      value: plain words\n",
    )
    .unwrap();
    let html = form.body[0].render();
    assert_eq!(html, "<div class=\"markdown-description\"><p>plain words</p>\n</div>");
    assert!(!html.contains("id="));
    assert!(!html.contains("<h3"));
    assert!(!html.contains("required"));
}

#[test]
fn title_plays_no_part_in_rendering() {
    let with_title = decode_form_str("name: n\ndescription: d\ntitle: \"[Bug]: \"\nbody: []").unwrap();
    let without_title = decode_form_str("name: n\ndescription: d\nbody: []").unwrap();
    assert_eq!(with_title.title.as_deref(), Some("[Bug]: "));
    assert!(without_title.title.is_none());
    assert_eq!(with_title.to_html(), without_title.to_html());
}
