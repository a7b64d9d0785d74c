use gh_form::form::{
    BodyType, CheckboxesAttribute, CheckboxesOption, DropdownAttribute, InputAttribute,
    MarkdownAttribute, TextareaAttribute, Validations,
};
use gh_form::markdown::{Markdown, MarkdownInline};

#[test]
fn checkbox() {
    let body = BodyType::Checkboxes {
        id: "test-checkbox".to_string(),
        attributes: CheckboxesAttribute {
            label: "checkbox-test".to_string(),
            description: Markdown("Make sure you have done the following:".to_string()),
            options: vec![CheckboxesOption {
                label: MarkdownInline("You have searched for the existing issues.".to_string()),
                required: true,
            }],
        },
    };
    assert_eq!(
        &body.render(),
        r#"<div id="test-checkbox"><label><h3>checkbox-test</h3></label></div><div class="body-description"><p>Make sure you have done the following:</p>
</div><div><div><input type="checkbox" disabled="disabled" value="You have searched for the existing issues."><label class="checkbox-label">You have searched for the existing issues.</label><span class="checkbox-required">*</span></div></div>"#
    )
}

#[test]
fn dropdown() {
    let body = BodyType::Dropdown {
        id: "test-dropdown".to_string(),
        attributes: DropdownAttribute {
            label: "dropdown-test".to_string(),
            description: Markdown("Are you a cat or dog person?".to_string()),
            multiple: false,
            options: vec!["Cat".to_string(), "Dog".to_string()],
        },
        validations: Some(Validations { required: true }),
    };
    assert_eq!(
        &body.render(),
        r#"<div id="test-dropdown"><label><h3 required="required">dropdown-test</h3></label></div><div class="body-description"><p>Are you a cat or dog person?</p>
</div><details class="dropdown-container"><summary role="button">Selection: </summary><div class="choices"><label class="checkbox-label"><input type="radio" name="issue-form[test-dropdown]" hidden value="Cat"><div class="checkmark">✓</div><div>Cat</div></label><label class="checkbox-label"><input type="radio" name="issue-form[test-dropdown]" hidden value="Dog"><div class="checkmark">✓</div><div>Dog</div></label></div></details>"#
    )
}

#[test]
fn input() {
    let body = BodyType::Input {
        id: "prevalence".to_string(),
        attributes: InputAttribute {
            label: "Bug prevalence".to_string(),
            description: Markdown("How often do you or others encounter this bug?".to_string()),
            placeholder: "Example: Whenever I visit the personal account page (1-2 times a week)"
                .to_string(),
            value: None,
        },
        validations: Some(Validations { required: true }),
    };
    assert_eq!(
        &body.render(),
        r#"<div id="prevalence"><label><h3 required="required">Bug prevalence</h3></label></div><div class="body-description"><p>How often do you or others encounter this bug?</p>
</div><input class="form-input" type="text" disabled="disabled" placeholder="Example: Whenever I visit the personal account page (1-2 times a week)">"#
    )
}

#[test]
fn markdown() {
    let body = BodyType::Markdown {
        attributes: MarkdownAttribute {
            value: Markdown("## Thank you for contributing to our project!".to_string()),
        },
    };
    assert_eq!(
        &body.render(),
        r#"<div class="markdown-description"><h2>Thank you for contributing to our project!</h2>
</div>"#
    )
}

#[test]
fn textarea() {
    let body = BodyType::Textarea {
        id: "repro".to_string(),
        attributes: TextareaAttribute {
            label: "Reproduction steps".to_string(),
            description: Markdown(
                "How do you trigger this bug? Please walk us through it step by step.".to_string(),
            ),
            placeholder: "".to_string(),
            value: "".to_string(),
            render: None,
        },
        validations: Some(Validations { required: true }),
    };
    assert_eq!(
        &body.render(),
        r#"<div id="repro"><label><h3 required="required">Reproduction steps</h3></label></div><div class="body-description"><p>How do you trigger this bug? Please walk us through it step by step.</p>
</div><textarea class="form-textarea" disabled="disabled" placeholder=""></textarea>"#
    )
}

#[test]
fn input_with_default_value() {
    let body = BodyType::Input {
        id: "contact".to_string(),
        attributes: InputAttribute {
            label: "Contact".to_string(),
            description: Markdown("".to_string()),
            placeholder: "".to_string(),
            value: Some("me@example.org".to_string()),
        },
        validations: None,
    };
    let html = body.render();
    assert!(html.ends_with("placeholder=\"\" value=\"me@example.org\">"));
    assert!(html.contains("required=\"optional\""));
}

#[test]
fn textarea_with_language_hint() {
    let body = BodyType::Textarea {
        id: "logs".to_string(),
        attributes: TextareaAttribute {
            label: "Logs".to_string(),
            description: Markdown("".to_string()),
            placeholder: "paste here".to_string(),
            value: "x < y".to_string(),
            render: Some("shell".to_string()),
        },
        validations: None,
    };
    let html = body.render();
    assert!(html.ends_with(
        "<textarea class=\"form-textarea\" disabled=\"disabled\" placeholder=\"paste here\" lang=\"shell\">x &lt; y</textarea>"
    ));
}
