//! The directory listing page: choosing and ordering its documents, and
//! assembling its markup.

use vstd::prelude::*;

use crate::markup::{escape_html, escaped};

verus! {

broadcast use vstd::std_specs::vec::group_vec_axioms, vstd::seq::group_seq_axioms;

/// Whether `s` ends with `suffix`.
pub open spec fn has_suffix(s: Seq<char>, suffix: Seq<char>) -> bool {
    s.len() >= suffix.len() && s.skip(s.len() - suffix.len()) == suffix
}

/// Whether a file name names a YAML document.
pub open spec fn is_yaml_name(s: Seq<char>) -> bool {
    has_suffix(s, ".yaml"@) || has_suffix(s, ".yml"@)
}

/// The YAML file names among `names`, in their given order.
pub open spec fn yaml_names(names: Seq<Seq<char>>) -> Seq<Seq<char>>
    decreases names.len(),
{
    if names.len() == 0 {
        Seq::<Seq<char>>::empty()
    } else {
        yaml_names(names.drop_last()) + (if is_yaml_name(names.last()) {
            seq![names.last()]
        } else {
            Seq::<Seq<char>>::empty()
        })
    }
}

/// Checks whether `s` ends with `suffix`.
pub fn ends_with_str(s: &str, suffix: &str) -> (r: bool)
    ensures
        r == has_suffix(s@, suffix@),
{
    let n = s.unicode_len();
    let m = suffix.unicode_len();
    if n < m {
        return false;
    }
    let mut i: usize = 0;
    while i < m
        invariant
            n == s@.len(),
            m == suffix@.len(),
            m <= n,
            i <= m,
            forall|j: int| 0 <= j < i ==> s@[n - m + j] == suffix@[j],
        decreases m - i,
    {
        let a = s.get_char(n - m + i);
        let b = suffix.get_char(i);
        if a != b {
            proof {
                assert(s@.skip(n as int - m as int)[i as int] == s@[n - m + i]);
            }
            return false;
        }
        i = i + 1;
    }
    proof {
        assert(s@.skip(n as int - m as int) =~= suffix@);
    }
    true
}

/// Whether `a` comes at or before `b` in lexicographic order by character.
pub open spec fn lex_leq(a: Seq<char>, b: Seq<char>) -> bool
    decreases a.len(),
{
    if a.len() == 0 {
        true
    } else if b.len() == 0 {
        false
    } else if a[0] < b[0] {
        true
    } else if a[0] > b[0] {
        false
    } else {
        lex_leq(a.drop_first(), b.drop_first())
    }
}

/// Relies on slice::sort for String: the result holds exactly the given
/// strings, in lexicographic order. String order is byte order, and UTF-8
/// byte order agrees with character order, so `lex_leq` describes it.
#[verifier::external_body]
fn sort_names(names: Vec<String>) -> (r: Vec<String>)
    ensures
        r.deep_view().to_multiset() == names.deep_view().to_multiset(),
        forall|i: int, j: int|
            0 <= i < j < r.deep_view().len() ==> lex_leq(r.deep_view()[i], r.deep_view()[j]),
{
    let mut sorted = names;
    sorted.sort();
    sorted
}

/// The YAML documents of a directory listing: exactly the names that end
/// in `.yaml` or `.yml`, in lexicographic order. This order is the listing
/// page's order.
pub fn list_yaml_names(names: Vec<String>) -> (r: Vec<String>)
    ensures
        r.deep_view().to_multiset() == yaml_names(names.deep_view()).to_multiset(),
        forall|i: int, j: int|
            0 <= i < j < r.deep_view().len() ==> lex_leq(r.deep_view()[i], r.deep_view()[j]),
{
    let ghost namesv = names.deep_view();
    let mut kept: Vec<String> = Vec::new();
    proof {
        assert(namesv.take(0) =~= Seq::<Seq<char>>::empty());
        assert(kept.deep_view() =~= Seq::<Seq<char>>::empty());
    }
    let mut i: usize = 0;
    while i < names.len()
        invariant
            i <= names@.len(),
            namesv == names.deep_view(),
            namesv.len() == names@.len(),
            kept.deep_view() == yaml_names(namesv.take(i as int)),
        decreases names@.len() - i,
    {
        proof {
            assert(namesv[i as int] == names@[i as int]@);
            assert(namesv.take(i as int + 1).drop_last() =~= namesv.take(i as int));
        }
        let keep = ends_with_str(names[i].as_str(), ".yaml") || ends_with_str(
            names[i].as_str(),
            ".yml",
        );
        if keep {
            let ghost prev = kept.deep_view();
            kept.push(names[i].clone());
            proof {
                assert(kept.deep_view() =~= prev.push(namesv[i as int]));
                assert(prev + seq![namesv[i as int]] =~= prev.push(namesv[i as int]));
            }
        } else {
            proof {
                assert(kept.deep_view() + Seq::<Seq<char>>::empty() =~= kept.deep_view());
            }
        }
        i = i + 1;
    }
    proof {
        assert(namesv.take(names@.len() as int) =~= namesv);
    }
    sort_names(kept)
}

/// The error card shown in the listing for a document that failed to
/// decode: the file name and the failure text, both escaped.
pub open spec fn spec_error_card(name: Seq<char>, message: Seq<char>) -> Seq<char> {
    "<div class=\"summary\"><div><div>Failed to deserialize "@ + escaped(name) + "</div><pre>"@
        + escaped(message) + "</pre></div></div>"@
}

/// Renders the error card for one failed document.
pub fn error_card(name: &str, message: &str) -> (r: String)
    ensures
        r@ == spec_error_card(name@, message@),
{
    let mut out = "<div class=\"summary\"><div><div>Failed to deserialize ".to_owned();
    out.append(escape_html(name).as_str());
    out.append("</div><pre>");
    out.append(escape_html(message).as_str());
    out.append("</pre></div></div>");
    out
}

/// The fragments of the listing, in order.
pub open spec fn spec_fragments(fragments: Seq<Seq<char>>) -> Seq<char>
    decreases fragments.len(),
{
    if fragments.len() == 0 {
        Seq::<char>::empty()
    } else {
        spec_fragments(fragments.drop_last()) + fragments.last()
    }
}

/// The listing page: the document head, then every fragment — summary
/// cards, error cards, the config cards and footnote — in the given order.
pub open spec fn spec_render_listing(fragments: Seq<Seq<char>>) -> Seq<char> {
    "<!DOCTYPE html><html lang=\"en\"><head><meta charset=\"UTF-8\"><title>Issue Form Previewer</title></head><link rel=\"stylesheet\" type=\"text/css\" href=\"https://cdnjs.cloudflare.com/ajax/libs/github-markdown-css/5.1.0/github-markdown.min.css\"><link rel=\"stylesheet\" type=\"text/css\" href=\"/assets/extra.css\"><body class=\"markdown-body\"><div class=\"form-list-container\">"@
        + spec_fragments(fragments) + "</div></body></html>"@
}

/// Renders the listing page around the given fragments.
pub fn render_listing(fragments: &Vec<String>) -> (r: String)
    ensures
        r@ == spec_render_listing(fragments.deep_view()),
{
    let ghost fragsv = fragments.deep_view();
    let mut body = String::new();
    proof {
        assert(fragsv.take(0) =~= Seq::<Seq<char>>::empty());
    }
    let mut i: usize = 0;
    while i < fragments.len()
        invariant
            i <= fragments@.len(),
            fragsv == fragments.deep_view(),
            fragsv.len() == fragments@.len(),
            body@ == spec_fragments(fragsv.take(i as int)),
        decreases fragments@.len() - i,
    {
        proof {
            assert(fragsv[i as int] == fragments@[i as int]@);
            assert(fragsv.take(i as int + 1).drop_last() =~= fragsv.take(i as int));
        }
        body.append(fragments[i].as_str());
        i = i + 1;
    }
    proof {
        assert(fragsv.take(fragments@.len() as int) =~= fragsv);
    }
    let mut out =
        "<!DOCTYPE html><html lang=\"en\"><head><meta charset=\"UTF-8\"><title>Issue Form Previewer</title></head><link rel=\"stylesheet\" type=\"text/css\" href=\"https://cdnjs.cloudflare.com/ajax/libs/github-markdown-css/5.1.0/github-markdown.min.css\"><link rel=\"stylesheet\" type=\"text/css\" href=\"/assets/extra.css\"><body class=\"markdown-body\"><div class=\"form-list-container\">".to_owned();
    out.append(body.as_str());
    out.append("</div></body></html>");
    out
}

} // verus!
