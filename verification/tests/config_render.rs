use gh_form::config::{Config, ContactLink};

#[test]
fn config() {
    let body = Config {
        blank_issues_enabled: false,
        contact_links: vec![
            ContactLink {
                name: "GitHub Community Support".to_string(),
                url: "https://github.com/orgs/community/discussions".to_string(),
                about: "Please ask and answer questions here.".to_string(),
            },
            ContactLink {
                name: "GitHub Security Bug Bounty".to_string(),
                url: "https://bounty.github.com/".to_string(),
                about: "Please report security vulnerabilities here.".to_string(),
            },
        ],
    };
    assert_eq!(
        &body.render(),
        r#"<div class="summary"><div><strong class="name">GitHub Community Support</strong><div class="description">Please ask and answer questions here.</div></div><a class="button external" href="https://github.com/orgs/community/discussions" target="_blank" rel="noopener noreferrer">Open</a></div><div class="summary"><div><strong class="name">GitHub Security Bug Bounty</strong><div class="description">Please report security vulnerabilities here.</div></div><a class="button external" href="https://bounty.github.com/" target="_blank" rel="noopener noreferrer">Open</a></div>"#
    )
}

#[test]
fn footnote_emitted_exactly_once_when_enabled() {
    let c = Config { blank_issues_enabled: true, contact_links: vec![] };
    assert_eq!(
        c.footnote().unwrap(),
        "<div class=\"footnote\">Don't see your issue here? Open a blank issue.</div>"
    );
    let page = c.render_config();
    assert_eq!(page.matches("class=\"footnote\"").count(), 1);
}

#[test]
fn footnote_absent_when_disabled() {
    let c = Config { blank_issues_enabled: false, contact_links: vec![] };
    assert!(c.footnote().is_none());
    assert_eq!(c.render_config(), "");
}

#[test]
fn config_page_is_cards_then_footnote() {
    let c = Config {
        blank_issues_enabled: true,
        contact_links: vec![ContactLink {
            name: "Chat".to_string(),
            url: "https://example.org/chat".to_string(),
            about: "Ask quick questions.".to_string(),
        }],
    };
    let mut expected = c.render();
    expected.push_str("<div class=\"footnote\">Don't see your issue here? Open a blank issue.</div>");
    assert_eq!(c.render_config(), expected);
}
