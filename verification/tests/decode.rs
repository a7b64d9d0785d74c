use gh_form::config::decode_config_str;
use gh_form::error::DecodeError;
use gh_form::form::{decode_form_str, BodyType, SequenceLike};

#[test]
fn labels_list_and_csv_join_alike() {
    let by_list = decode_form_str("name: n\ndescription: d\nlabels: [\"a\", \"b\"]\nbody: []")
        .unwrap();
    let by_csv = decode_form_str("name: n\ndescription: d\nlabels: \"a,b\"\nbody: []").unwrap();
    assert_eq!(by_list.labels.join(), "a, b");
    assert_eq!(by_csv.labels.join(), "a, b");
    assert!(matches!(by_list.labels, SequenceLike::Sequence(_)));
    assert!(matches!(by_csv.labels, SequenceLike::CommaDelimited(_)));
}

#[test]
fn csv_keeps_authored_spaces() {
    let form = decode_form_str("name: n\ndescription: d\nlabels: \"a, b\"\nbody: []").unwrap();
    assert_eq!(form.labels.join(), "a,  b");
}

#[test]
fn absent_labels_and_assignees_default_empty() {
    let form = decode_form_str("name: n\ndescription: d\nbody: []").unwrap();
    assert_eq!(form.labels.join(), "");
    assert_eq!(form.assignees.join(), "");
}

#[test]
fn bogus_type_is_a_structural_error() {
    let r = decode_form_str("name: n\ndescription: d\nbody:\n  - type: bogus\n    id: x");
    assert!(matches!(r, Err(DecodeError::UnknownFieldType(ref t)) if t == "bogus"));
}

#[test]
fn missing_name_is_reported() {
    let r = decode_form_str("description: d\nbody: []");
    assert!(matches!(r, Err(DecodeError::MissingField(ref k)) if k == "name"));
}

#[test]
fn wrong_type_for_name_is_reported() {
    let r = decode_form_str("name: 3\ndescription: d\nbody: []");
    assert!(matches!(r, Err(DecodeError::WrongType(ref k)) if k == "name"));
}

#[test]
fn missing_body_is_reported() {
    let r = decode_form_str("name: n\ndescription: d");
    assert!(matches!(r, Err(DecodeError::MissingField(ref k)) if k == "body"));
}

#[test]
fn non_mapping_document_is_reported() {
    let r = decode_form_str("- just\n- a\n- list");
    assert!(matches!(r, Err(DecodeError::NotAMapping)));
}

#[test]
fn malformed_yaml_is_a_syntax_error() {
    let r = decode_form_str("name: [unclosed");
    assert!(matches!(r, Err(DecodeError::Syntax(_))));
}

#[test]
fn error_messages_name_the_place() {
    let missing = decode_form_str("description: d\nbody: []").unwrap_err();
    assert_eq!(missing.message(), "missing field `name`");
    let wrong = decode_form_str("name: n\ndescription: d\nbody: {}").unwrap_err();
    assert_eq!(wrong.message(), "invalid value for `body`");
    let unknown = decode_form_str("name: n\ndescription: d\nbody:\n  - type: woof").unwrap_err();
    assert_eq!(unknown.message(), "unknown field type `woof`");
    let root = decode_form_str("3").unwrap_err();
    assert_eq!(root.message(), "the document is not a mapping");
}

#[test]
fn unknown_keys_are_ignored() {
    let form = decode_form_str(
        "name: n\ndescription: d\nfuture_key: whatever\nbody:\n  - type: markdown\n    attributes:\n      value: hi\n    extra: 1",
    )
    .unwrap();
    assert_eq!(form.body.len(), 1);
}

#[test]
fn field_defaults_fill_in() {
    let form = decode_form_str(
        "name: n\ndescription: d\nbody:\n  - type: input\n    id: contact\n  - type: textarea\n    id: logs\n",
    )
    .unwrap();
    match &form.body[0] {
        BodyType::Input { id, attributes, validations } => {
            assert_eq!(id, "contact");
            assert_eq!(attributes.label, "");
            assert_eq!(attributes.description.0, "");
            assert_eq!(attributes.placeholder, "");
            assert!(attributes.value.is_none());
            assert!(validations.is_none());
        }
        _ => panic!("expected an input field"),
    }
    match &form.body[1] {
        BodyType::Textarea { attributes, .. } => {
            assert_eq!(attributes.value, "");
            assert!(attributes.render.is_none());
        }
        _ => panic!("expected a textarea field"),
    }
}

#[test]
fn checkbox_option_required_defaults_false() {
    let form = decode_form_str(
        "name: n\ndescription: d\nbody:\n  - type: checkboxes\n    id: terms\n    attributes:\n      options:\n        - label: first\n        - label: second\n          required: true\n",
    )
    .unwrap();
    match &form.body[0] {
        BodyType::Checkboxes { attributes, .. } => {
            assert_eq!(attributes.options.len(), 2);
            assert!(!attributes.options[0].required);
            assert!(attributes.options[1].required);
        }
        _ => panic!("expected a checkboxes field"),
    }
}

#[test]
fn checkboxes_need_their_options() {
    let r = decode_form_str(
        "name: n\ndescription: d\nbody:\n  - type: checkboxes\n    id: terms\n    attributes:\n      label: l\n",
    );
    assert!(matches!(r, Err(DecodeError::MissingField(ref k)) if k == "options"));
}

#[test]
fn validations_must_be_a_mapping() {
    let r = decode_form_str(
        "name: n\ndescription: d\nbody:\n  - type: input\n    id: x\n    validations: yes_please\n",
    );
    assert!(matches!(r, Err(DecodeError::WrongType(ref k)) if k == "validations"));
}

#[test]
fn config_decodes_both_flags() {
    let on = decode_config_str(
        "blank_issues_enabled: true\ncontact_links:\n  - name: a\n    url: https://example.org\n    about: b\n",
    )
    .unwrap();
    assert!(on.blank_issues_enabled);
    assert_eq!(on.contact_links.len(), 1);
    assert_eq!(on.contact_links[0].url, "https://example.org");
    let off = decode_config_str("blank_issues_enabled: false\ncontact_links: []").unwrap();
    assert!(!off.blank_issues_enabled);
    assert!(off.contact_links.is_empty());
}

#[test]
fn config_requires_its_fields() {
    let r = decode_config_str("contact_links: []");
    assert!(matches!(r, Err(DecodeError::MissingField(ref k)) if k == "blank_issues_enabled"));
    let r2 = decode_config_str("blank_issues_enabled: true");
    assert!(matches!(r2, Err(DecodeError::MissingField(ref k)) if k == "contact_links"));
    let r3 = decode_config_str("blank_issues_enabled: true\ncontact_links:\n  - name: a\n    url: u\n");
    assert!(matches!(r3, Err(DecodeError::MissingField(ref k)) if k == "about"));
}
