//! The contact-links config document: its decoding and its rendering.

use vstd::prelude::*;

use crate::error::{result_dv, DecodeError, DecodeErrorV};
use crate::markup::{escape_html, escaped};
use crate::yaml::{
    entries_dv, get_req_str, items_dv, obj_get, obj_lookup, spec_req_bool, spec_req_str, yaml_dv,
    Yaml, YamlV,
};

verus! {

broadcast use vstd::std_specs::vec::group_vec_axioms, vstd::seq::group_seq_axioms;

/// One contact link: a name, a target, and a line about it.
#[derive(Debug)]
pub struct ContactLink {
    pub name: String,
    pub url: String,
    pub about: String,
}

/// The mathematical image of a `ContactLink`.
pub struct ContactLinkV {
    pub name: Seq<char>,
    pub url: Seq<char>,
    pub about: Seq<char>,
}

impl DeepView for ContactLink {
    type V = ContactLinkV;

    open spec fn deep_view(&self) -> ContactLinkV {
        ContactLinkV { name: self.name@, url: self.url@, about: self.about@ }
    }
}

/// The contact-links config document.
#[derive(Debug)]
pub struct Config {
    pub blank_issues_enabled: bool,
    pub contact_links: Vec<ContactLink>,
}

/// The mathematical image of a `Config`.
pub struct ConfigV {
    pub blank_issues_enabled: bool,
    pub contact_links: Seq<ContactLinkV>,
}

impl DeepView for Config {
    type V = ConfigV;

    open spec fn deep_view(&self) -> ConfigV {
        ConfigV {
            blank_issues_enabled: self.blank_issues_enabled,
            contact_links: self.contact_links.deep_view(),
        }
    }
}

/// One contact link: a mapping with `name`, `url` and `about`, all strings.
pub open spec fn spec_decode_contact_link(y: YamlV) -> Result<ContactLinkV, DecodeErrorV> {
    match y {
        YamlV::Obj(es) => match spec_req_str(es, "name"@) {
            Err(e) => Err(e),
            Ok(name) => match spec_req_str(es, "url"@) {
                Err(e) => Err(e),
                Ok(url) => match spec_req_str(es, "about"@) {
                    Err(e) => Err(e),
                    Ok(about) => Ok(ContactLinkV { name, url, about }),
                },
            },
        },
        _ => Err(DecodeErrorV::WrongType("contact_links"@)),
    }
}

/// The contact-link list, stopped at the first failing entry.
pub open spec fn spec_decode_contact_links(items: Seq<YamlV>) -> Result<
    Seq<ContactLinkV>,
    DecodeErrorV,
>
    decreases items.len(),
{
    if items.len() == 0 {
        Ok(Seq::<ContactLinkV>::empty())
    } else {
        match spec_decode_contact_links(items.drop_last()) {
            Err(e) => Err(e),
            Ok(pre) => match spec_decode_contact_link(items.last()) {
                Err(e) => Err(e),
                Ok(l) => Ok(pre.push(l)),
            },
        }
    }
}

/// A config document: a mapping with a required `blank_issues_enabled` flag
/// and a required `contact_links` list.
pub open spec fn spec_decode_config(y: YamlV) -> Result<ConfigV, DecodeErrorV> {
    match y {
        YamlV::Obj(es) => match spec_req_bool(es, "blank_issues_enabled"@) {
            Err(e) => Err(e),
            Ok(blank) => match obj_lookup(es, "contact_links"@) {
                Option::None => Err(DecodeErrorV::MissingField("contact_links"@)),
                Option::Some(YamlV::Arr(items)) => match spec_decode_contact_links(items) {
                    Err(e) => Err(e),
                    Ok(links) => Ok(
                        ConfigV { blank_issues_enabled: blank, contact_links: links },
                    ),
                },
                Option::Some(_) => Err(DecodeErrorV::WrongType("contact_links"@)),
            },
        },
        _ => Err(DecodeErrorV::NotAMapping),
    }
}

/// An error among the first `i` entries decides the whole link list.
proof fn lemma_contact_links_err(items: Seq<YamlV>, i: int)
    requires
        0 <= i <= items.len(),
        spec_decode_contact_links(items.take(i)) is Err,
    ensures
        spec_decode_contact_links(items) == spec_decode_contact_links(items.take(i)),
    decreases items.len() - i,
{
    if i == items.len() {
        assert(items.take(i) =~= items);
    } else {
        assert(items.take(i + 1).drop_last() =~= items.take(i));
        lemma_contact_links_err(items, i + 1);
    }
}

/// Reads one contact link.
fn decode_contact_link(y: &Yaml) -> (r: Result<ContactLink, DecodeError>)
    ensures
        result_dv(r) == spec_decode_contact_link(yaml_dv(*y)),
{
    match y {
        Yaml::Obj(entries) => {
            let name = match get_req_str(entries, "name") {
                Ok(s) => s,
                Err(e) => {
                    return Err(e);
                }
            };
            let url = match get_req_str(entries, "url") {
                Ok(s) => s,
                Err(e) => {
                    return Err(e);
                }
            };
            let about = match get_req_str(entries, "about") {
                Ok(s) => s,
                Err(e) => {
                    return Err(e);
                }
            };
            Ok(ContactLink { name: name, url: url, about: about })
        }
        _ => Err(DecodeError::WrongType("contact_links".to_owned())),
    }
}

/// Reads the contact-link list, stopping at the first failure.
fn decode_contact_links(items: &Vec<Yaml>) -> (r: Result<Vec<ContactLink>, DecodeError>)
    ensures
        result_dv(r) == spec_decode_contact_links(items_dv(items@)),
{
    let ghost itemsv = items_dv(items@);
    let mut out: Vec<ContactLink> = Vec::new();
    proof {
        assert(itemsv.take(0) =~= Seq::<YamlV>::empty());
        assert(out.deep_view() =~= Seq::<ContactLinkV>::empty());
    }
    let mut i: usize = 0;
    while i < items.len()
        invariant
            i <= items@.len(),
            itemsv == items_dv(items@),
            itemsv.len() == items@.len(),
            spec_decode_contact_links(itemsv.take(i as int)) == Ok::<
                Seq<ContactLinkV>,
                DecodeErrorV,
            >(out.deep_view()),
        decreases items@.len() - i,
    {
        proof {
            assert(itemsv[i as int] == yaml_dv(items@[i as int]));
            assert(itemsv.take(i as int + 1).drop_last() =~= itemsv.take(i as int));
        }
        match decode_contact_link(&items[i]) {
            Ok(l) => {
                let ghost prev = out.deep_view();
                out.push(l);
                proof {
                    assert(out.deep_view() =~= prev.push(l.deep_view()));
                }
            }
            Err(e) => {
                proof {
                    lemma_contact_links_err(itemsv, i as int + 1);
                }
                return Err(e);
            }
        }
        i = i + 1;
    }
    proof {
        assert(itemsv.take(items@.len() as int) =~= itemsv);
    }
    Ok(out)
}

/// Decodes a config document from a YAML tree. The result is exactly what
/// `spec_decode_config` gives for the tree's image.
pub fn decode_config(y: &Yaml) -> (r: Result<Config, DecodeError>)
    ensures
        result_dv(r) == spec_decode_config(yaml_dv(*y)),
{
    match y {
        Yaml::Obj(entries) => {
            let blank = match crate::yaml::get_req_bool(entries, "blank_issues_enabled") {
                Ok(b) => b,
                Err(e) => {
                    return Err(e);
                }
            };
            let links = match obj_get(entries, &"contact_links".to_owned()) {
                Option::None => {
                    return Err(DecodeError::MissingField("contact_links".to_owned()));
                }
                Option::Some(node) => match node {
                    Yaml::Arr(items) => match decode_contact_links(items) {
                        Ok(v) => v,
                        Err(e) => {
                            return Err(e);
                        }
                    },
                    _ => {
                        return Err(DecodeError::WrongType("contact_links".to_owned()));
                    }
                },
            };
            Ok(Config { blank_issues_enabled: blank, contact_links: links })
        }
        _ => Err(DecodeError::NotAMapping),
    }
}

/// Decodes a config document from its text: the decode of the text's parse
/// tree, or the syntax error with which the YAML engine refuses the text.
pub fn decode_config_str(text: &str) -> (r: Result<Config, DecodeError>)
    ensures
        result_dv(r) == (match crate::yaml::parse_of(text@) {
            Ok(y) => spec_decode_config(y),
            Err(m) => Err(DecodeErrorV::Syntax(m)),
        }),
{
    match crate::yaml::parse_yaml(text) {
        Err(m) => Err(DecodeError::Syntax(m)),
        Ok(y) => {
            let r = decode_config(&y);
            proof {
                assert(result_dv(r) == spec_decode_config(yaml_dv(y)));
            }
            r
        }
    }
}

/// One rendered contact card: name, about-text, and a button that opens the
/// target in a fresh context.
pub open spec fn spec_render_contact_link(l: ContactLinkV) -> Seq<char> {
    "<div class=\"summary\"><div><strong class=\"name\">"@ + escaped(l.name)
        + "</strong><div class=\"description\">"@ + escaped(l.about)
        + "</div></div><a class=\"button external\" href=\""@ + escaped(l.url)
        + "\" target=\"_blank\" rel=\"noopener noreferrer\">Open</a></div>"@
}

/// The rendered contact cards, in order.
pub open spec fn spec_render_contact_links(links: Seq<ContactLinkV>) -> Seq<char>
    decreases links.len(),
{
    if links.len() == 0 {
        Seq::<char>::empty()
    } else {
        spec_render_contact_links(links.drop_last()) + spec_render_contact_link(links.last())
    }
}

/// The footnote inviting a blank issue.
pub open spec fn spec_footnote() -> Seq<char> {
    "<div class=\"footnote\">Don't see your issue here? Open a blank issue.</div>"@
}

/// The whole rendered config: the contact cards, and the footnote exactly
/// when blank issues are enabled.
pub open spec fn spec_render_config(c: ConfigV) -> Seq<char> {
    spec_render_contact_links(c.contact_links) + (if c.blank_issues_enabled {
        spec_footnote()
    } else {
        Seq::<char>::empty()
    })
}

/// Renders one contact card.
fn render_contact_link(l: &ContactLink) -> (r: String)
    ensures
        r@ == spec_render_contact_link(l.deep_view()),
{
    let mut out = "<div class=\"summary\"><div><strong class=\"name\">".to_owned();
    out.append(escape_html(l.name.as_str()).as_str());
    out.append("</strong><div class=\"description\">");
    out.append(escape_html(l.about.as_str()).as_str());
    out.append("</div></div><a class=\"button external\" href=\"");
    out.append(escape_html(l.url.as_str()).as_str());
    out.append("\" target=\"_blank\" rel=\"noopener noreferrer\">Open</a></div>");
    out
}

impl Config {
    /// The contact cards of this config, one per link, in order.
    pub fn render(&self) -> (r: String)
        ensures
            r@ == spec_render_contact_links(self.deep_view().contact_links),
    {
        let ghost linksv = self.contact_links.deep_view();
        let mut out = String::new();
        proof {
            assert(linksv.take(0) =~= Seq::<ContactLinkV>::empty());
        }
        let mut i: usize = 0;
        while i < self.contact_links.len()
            invariant
                i <= self.contact_links@.len(),
                linksv == self.contact_links.deep_view(),
                linksv.len() == self.contact_links@.len(),
                out@ == spec_render_contact_links(linksv.take(i as int)),
            decreases self.contact_links@.len() - i,
        {
            proof {
                assert(linksv[i as int] == self.contact_links@[i as int].deep_view());
                assert(linksv.take(i as int + 1).drop_last() =~= linksv.take(i as int));
            }
            let piece = render_contact_link(&self.contact_links[i]);
            out.append(piece.as_str());
            i = i + 1;
        }
        proof {
            assert(linksv.take(self.contact_links@.len() as int) =~= linksv);
        }
        out
    }

    /// The footnote inviting a blank issue: present exactly when blank
    /// issues are enabled, absent otherwise — not an empty node.
    pub fn footnote(&self) -> (r: Option<String>)
        ensures
            match r {
                Some(s) => self.blank_issues_enabled && s@ == spec_footnote(),
                None => !self.blank_issues_enabled,
            },
    {
        if self.blank_issues_enabled {
            Some("<div class=\"footnote\">Don't see your issue here? Open a blank issue.</div>".to_owned())
        } else {
            None
        }
    }

    /// The whole rendered config: every contact card, and the footnote
    /// exactly when blank issues are enabled.
    pub fn render_config(&self) -> (r: String)
        ensures
            r@ == spec_render_config(self.deep_view()),
    {
        let mut out = self.render();
        match self.footnote() {
            Some(note) => {
                out.append(note.as_str());
            }
            None => {
                proof {
                    assert(out@ + Seq::<char>::empty() =~= out@);
                }
            }
        }
        out
    }
}

/// Law: the rendered config holds the blank-issue footnote after the cards
/// exactly when `blank_issues_enabled` is set, and nothing more otherwise.
pub proof fn lemma_config_footnote(c: ConfigV)
    ensures
        c.blank_issues_enabled ==> spec_render_config(c) == spec_render_contact_links(
            c.contact_links,
        ) + spec_footnote(),
        !c.blank_issues_enabled ==> spec_render_config(c) == spec_render_contact_links(
            c.contact_links,
        ),
{
    if !c.blank_issues_enabled {
        assert(spec_render_contact_links(c.contact_links) + Seq::<char>::empty()
            =~= spec_render_contact_links(c.contact_links));
    }
}

} // verus!
