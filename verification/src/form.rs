//! The issue form schema: its field variants, their decoding from a YAML
//! tree, and their rendering to HTML.

use vstd::prelude::*;

use crate::error::{result_dv, DecodeError, DecodeErrorV};
use crate::markdown::{md_block_of, md_inline_of, Markdown, MarkdownInline};
use crate::markup::{escape_html, escaped};
use crate::yaml::{
    entries_dv, get_bool_or_false, get_opt_str, get_req_str, get_str_or_empty, items_dv,
    obj_get, obj_lookup, spec_bool_or_false, spec_opt_str, spec_req_str, spec_str_or_empty,
    yaml_dv, Yaml, YamlV,
};

verus! {

broadcast use vstd::std_specs::vec::group_vec_axioms, vstd::seq::group_seq_axioms;

/// A list-like value that may be authored either as a list of strings or as
/// one comma-delimited string.
#[derive(Debug)]
pub enum SequenceLike {
    Sequence(Vec<String>),
    CommaDelimited(String),
}

/// The mathematical image of a `SequenceLike`.
pub enum SequenceLikeV {
    Sequence(Seq<Seq<char>>),
    CommaDelimited(Seq<char>),
}

impl DeepView for SequenceLike {
    type V = SequenceLikeV;

    open spec fn deep_view(&self) -> SequenceLikeV {
        match self {
            SequenceLike::Sequence(items) => SequenceLikeV::Sequence(items.deep_view()),
            SequenceLike::CommaDelimited(s) => SequenceLikeV::CommaDelimited(s@),
        }
    }
}

/// Elements joined by `sep`, in order.
pub open spec fn joined(list: Seq<Seq<char>>, sep: Seq<char>) -> Seq<char>
    decreases list.len(),
{
    if list.len() == 0 {
        Seq::<char>::empty()
    } else if list.len() == 1 {
        list[0]
    } else {
        joined(list.drop_last(), sep) + sep + list.last()
    }
}

/// A comma-delimited string with every comma widened to a comma and a
/// space.
pub open spec fn comma_spaced(s: Seq<char>) -> Seq<char>
    decreases s.len(),
{
    if s.len() == 0 {
        Seq::<char>::empty()
    } else {
        comma_spaced(s.drop_last()) + (if s.last() == ',' {
            ", "@
        } else {
            seq![s.last()]
        })
    }
}

/// The display form of a sequence-or-CSV value: list entries joined by a
/// comma and a space; a comma-delimited string widened the same way.
pub open spec fn spec_join(v: SequenceLikeV) -> Seq<char> {
    match v {
        SequenceLikeV::Sequence(items) => joined(items, ", "@),
        SequenceLikeV::CommaDelimited(s) => comma_spaced(s),
    }
}

impl SequenceLike {
    /// The joined display string.
    pub fn join(&self) -> (r: String)
        ensures
            r@ == spec_join(self.deep_view()),
    {
        match self {
            SequenceLike::Sequence(items) => {
                let ghost itemsv = items.deep_view();
                let mut out = String::new();
                let mut i: usize = 0;
                while i < items.len()
                    invariant
                        i <= items@.len(),
                        itemsv == items.deep_view(),
                        itemsv.len() == items@.len(),
                        out@ == joined(itemsv.take(i as int), ", "@),
                    decreases items@.len() - i,
                {
                    if i > 0 {
                        out.append(", ");
                    }
                    out.append(items[i].as_str());
                    proof {
                        assert(itemsv[i as int] == items@[i as int]@);
                        assert(itemsv.take(i as int + 1).drop_last() =~= itemsv.take(i as int));
                    }
                    i = i + 1;
                }
                proof {
                    assert(itemsv.take(items@.len() as int) =~= itemsv);
                }
                out
            }
            SequenceLike::CommaDelimited(s) => {
                let n = s.as_str().unicode_len();
                let mut out = String::new();
                let mut i: usize = 0;
                while i < n
                    invariant
                        n == s@.len(),
                        i <= n,
                        out@ == comma_spaced(s@.take(i as int)),
                    decreases n - i,
                {
                    let c = s.as_str().get_char(i);
                    if c == ',' {
                        out.append(", ");
                    } else {
                        let piece = s.as_str().substring_char(i, i + 1);
                        proof {
                            assert(s@.subrange(i as int, i as int + 1) =~= seq![s@[i as int]]);
                        }
                        out.append(piece);
                    }
                    proof {
                        assert(s@.take(i as int + 1).drop_last() =~= s@.take(i as int));
                    }
                    i = i + 1;
                }
                proof {
                    assert(s@.take(n as int) =~= s@);
                }
                out
            }
        }
    }
}

/// One option of a checkboxes field.
#[derive(Debug)]
pub struct CheckboxesOption {
    pub label: MarkdownInline,
    pub required: bool,
}

/// The mathematical image of a `CheckboxesOption`.
pub struct CheckboxesOptionV {
    pub label: Seq<char>,
    pub required: bool,
}

impl DeepView for CheckboxesOption {
    type V = CheckboxesOptionV;

    open spec fn deep_view(&self) -> CheckboxesOptionV {
        CheckboxesOptionV { label: self.label.deep_view(), required: self.required }
    }
}

/// The attributes of a checkboxes field.
#[derive(Debug)]
pub struct CheckboxesAttribute {
    pub label: String,
    pub description: Markdown,
    pub options: Vec<CheckboxesOption>,
}

/// The mathematical image of a `CheckboxesAttribute`.
pub struct CheckboxesAttributeV {
    pub label: Seq<char>,
    pub description: Seq<char>,
    pub options: Seq<CheckboxesOptionV>,
}

impl DeepView for CheckboxesAttribute {
    type V = CheckboxesAttributeV;

    open spec fn deep_view(&self) -> CheckboxesAttributeV {
        CheckboxesAttributeV {
            label: self.label@,
            description: self.description.deep_view(),
            options: self.options.deep_view(),
        }
    }
}

/// The attributes of a dropdown field.
#[derive(Debug)]
pub struct DropdownAttribute {
    pub label: String,
    pub description: Markdown,
    pub multiple: bool,
    pub options: Vec<String>,
}

/// The mathematical image of a `DropdownAttribute`.
pub struct DropdownAttributeV {
    pub label: Seq<char>,
    pub description: Seq<char>,
    pub multiple: bool,
    pub options: Seq<Seq<char>>,
}

impl DeepView for DropdownAttribute {
    type V = DropdownAttributeV;

    open spec fn deep_view(&self) -> DropdownAttributeV {
        DropdownAttributeV {
            label: self.label@,
            description: self.description.deep_view(),
            multiple: self.multiple,
            options: self.options.deep_view(),
        }
    }
}

/// The attributes of a single-line input field.
#[derive(Debug)]
pub struct InputAttribute {
    pub label: String,
    pub description: Markdown,
    pub placeholder: String,
    pub value: Option<String>,
}

/// The mathematical image of an `InputAttribute`.
pub struct InputAttributeV {
    pub label: Seq<char>,
    pub description: Seq<char>,
    pub placeholder: Seq<char>,
    pub value: Option<Seq<char>>,
}

impl DeepView for InputAttribute {
    type V = InputAttributeV;

    open spec fn deep_view(&self) -> InputAttributeV {
        InputAttributeV {
            label: self.label@,
            description: self.description.deep_view(),
            placeholder: self.placeholder@,
            value: self.value.deep_view(),
        }
    }
}

/// The attributes of a markdown field: its content alone.
#[derive(Debug)]
pub struct MarkdownAttribute {
    pub value: Markdown,
}

/// The mathematical image of a `MarkdownAttribute`.
pub struct MarkdownAttributeV {
    pub value: Seq<char>,
}

impl DeepView for MarkdownAttribute {
    type V = MarkdownAttributeV;

    open spec fn deep_view(&self) -> MarkdownAttributeV {
        MarkdownAttributeV { value: self.value.deep_view() }
    }
}

/// The attributes of a multi-line text field.
#[derive(Debug)]
pub struct TextareaAttribute {
    pub label: String,
    pub description: Markdown,
    pub placeholder: String,
    pub value: String,
    pub render: Option<String>,
}

/// The mathematical image of a `TextareaAttribute`.
pub struct TextareaAttributeV {
    pub label: Seq<char>,
    pub description: Seq<char>,
    pub placeholder: Seq<char>,
    pub value: Seq<char>,
    pub render: Option<Seq<char>>,
}

impl DeepView for TextareaAttribute {
    type V = TextareaAttributeV;

    open spec fn deep_view(&self) -> TextareaAttributeV {
        TextareaAttributeV {
            label: self.label@,
            description: self.description.deep_view(),
            placeholder: self.placeholder@,
            value: self.value@,
            render: self.render.deep_view(),
        }
    }
}

/// Per-field validation metadata; display-only, never enforced.
#[derive(Debug)]
pub struct Validations {
    pub required: bool,
}

/// The mathematical image of a `Validations`.
pub struct ValidationsV {
    pub required: bool,
}

impl DeepView for Validations {
    type V = ValidationsV;

    open spec fn deep_view(&self) -> ValidationsV {
        ValidationsV { required: self.required }
    }
}

/// One entry of a form's body: the closed set of field kinds.
#[derive(Debug)]
pub enum BodyType {
    Checkboxes { id: String, attributes: CheckboxesAttribute },
    Dropdown { id: String, attributes: DropdownAttribute, validations: Option<Validations> },
    Input { id: String, attributes: InputAttribute, validations: Option<Validations> },
    Markdown { attributes: MarkdownAttribute },
    Textarea { id: String, attributes: TextareaAttribute, validations: Option<Validations> },
}

/// The mathematical image of a `BodyType`.
pub enum BodyTypeV {
    Checkboxes { id: Seq<char>, attributes: CheckboxesAttributeV },
    Dropdown { id: Seq<char>, attributes: DropdownAttributeV, validations: Option<ValidationsV> },
    Input { id: Seq<char>, attributes: InputAttributeV, validations: Option<ValidationsV> },
    Markdown { attributes: MarkdownAttributeV },
    Textarea { id: Seq<char>, attributes: TextareaAttributeV, validations: Option<ValidationsV> },
}

impl DeepView for BodyType {
    type V = BodyTypeV;

    open spec fn deep_view(&self) -> BodyTypeV {
        match self {
            BodyType::Checkboxes { id, attributes } => BodyTypeV::Checkboxes {
                id: id@,
                attributes: attributes.deep_view(),
            },
            BodyType::Dropdown { id, attributes, validations } => BodyTypeV::Dropdown {
                id: id@,
                attributes: attributes.deep_view(),
                validations: validations.deep_view(),
            },
            BodyType::Input { id, attributes, validations } => BodyTypeV::Input {
                id: id@,
                attributes: attributes.deep_view(),
                validations: validations.deep_view(),
            },
            BodyType::Markdown { attributes } => BodyTypeV::Markdown {
                attributes: attributes.deep_view(),
            },
            BodyType::Textarea { id, attributes, validations } => BodyTypeV::Textarea {
                id: id@,
                attributes: attributes.deep_view(),
                validations: validations.deep_view(),
            },
        }
    }
}

/// An issue form: header metadata and the ordered field list.
#[derive(Debug)]
pub struct Form {
    pub name: String,
    pub description: String,
    /// Part of the schema, not used for rendering.
    pub title: Option<String>,
    pub labels: SequenceLike,
    pub assignees: SequenceLike,
    pub body: Vec<BodyType>,
}

/// The mathematical image of a `Form`.
pub struct FormV {
    pub name: Seq<char>,
    pub description: Seq<char>,
    pub title: Option<Seq<char>>,
    pub labels: SequenceLikeV,
    pub assignees: SequenceLikeV,
    pub body: Seq<BodyTypeV>,
}

impl DeepView for Form {
    type V = FormV;

    open spec fn deep_view(&self) -> FormV {
        FormV {
            name: self.name@,
            description: self.description@,
            title: self.title.deep_view(),
            labels: self.labels.deep_view(),
            assignees: self.assignees.deep_view(),
            body: self.body.deep_view(),
        }
    }
}

/// An empty string, the default for absent string attributes.
pub fn default_empty_string() -> (r: String)
    ensures
        r@ == Seq::<char>::empty(),
{
    String::new()
}

/// An empty markdown value, the default for absent descriptions.
pub fn default_empty_markdown() -> (r: Markdown)
    ensures
        r.deep_view() == Seq::<char>::empty(),
{
    Markdown(default_empty_string())
}

/// False, the default for absent flags.
pub fn default_false() -> (r: bool)
    ensures
        r == false,
{
    false
}

/// An empty list, the default for absent list attributes.
pub fn default_empty_vec<T>() -> (r: Vec<T>)
    ensures
        r@ == Seq::<T>::empty(),
{
    Vec::new()
}

/// An empty sequence value, the default for absent labels and assignees.
pub fn default_empty_sequecelike() -> (r: SequenceLike)
    ensures
        r.deep_view() == (SequenceLikeV::Sequence(Seq::<Seq<char>>::empty())),
{
    let items: Vec<String> = Vec::new();
    proof {
        assert(items.deep_view() =~= Seq::<Seq<char>>::empty());
    }
    SequenceLike::Sequence(items)
}

/// The marker shown beside a field label: "required" when validations are
/// present with the flag set, "optional" in every other case.
pub open spec fn spec_marker(v: Option<ValidationsV>) -> Seq<char> {
    if v matches Some(w) && w.required {
        "required"@
    } else {
        "optional"@
    }
}

/// The required-or-optional marker a field's validations call for.
pub fn is_required(validations: &Option<Validations>) -> (r: &str)
    ensures
        r@ == spec_marker(validations.deep_view()),
{
    match validations {
        Some(v) => {
            if v.required {
                "required"
            } else {
                "optional"
            }
        }
        None => "optional",
    }
}

/// The entries under `attributes`: an absent or null node stands for an
/// empty mapping, so that every attribute takes its default.
pub open spec fn spec_attr_entries(es: Seq<(YamlV, YamlV)>) -> Result<
    Seq<(YamlV, YamlV)>,
    DecodeErrorV,
> {
    match obj_lookup(es, "attributes"@) {
        Option::None => Ok(Seq::<(YamlV, YamlV)>::empty()),
        Option::Some(YamlV::Null) => Ok(Seq::<(YamlV, YamlV)>::empty()),
        Option::Some(YamlV::Obj(aes)) => Ok(aes),
        Option::Some(_) => Err(DecodeErrorV::WrongType("attributes"@)),
    }
}

/// The validations block of a field: absent or null means none.
pub open spec fn spec_validations(es: Seq<(YamlV, YamlV)>) -> Result<
    Option<ValidationsV>,
    DecodeErrorV,
> {
    match obj_lookup(es, "validations"@) {
        Option::None => Ok(None),
        Option::Some(YamlV::Null) => Ok(None),
        Option::Some(YamlV::Obj(ves)) => match spec_bool_or_false(ves, "required"@) {
            Ok(b) => Ok(Some(ValidationsV { required: b })),
            Err(e) => Err(e),
        },
        Option::Some(_) => Err(DecodeErrorV::WrongType("validations"@)),
    }
}

/// One checkbox option: a mapping with a required `label` and an optional
/// `required` flag.
pub open spec fn spec_decode_checkbox_option(y: YamlV) -> Result<CheckboxesOptionV, DecodeErrorV> {
    match y {
        YamlV::Obj(es) => match spec_req_str(es, "label"@) {
            Err(e) => Err(e),
            Ok(label) => match spec_bool_or_false(es, "required"@) {
                Err(e) => Err(e),
                Ok(required) => Ok(CheckboxesOptionV { label, required }),
            },
        },
        _ => Err(DecodeErrorV::WrongType("options"@)),
    }
}

/// A list of checkbox options, stopped at the first failing element.
pub open spec fn spec_decode_checkbox_options(items: Seq<YamlV>) -> Result<
    Seq<CheckboxesOptionV>,
    DecodeErrorV,
>
    decreases items.len(),
{
    if items.len() == 0 {
        Ok(Seq::<CheckboxesOptionV>::empty())
    } else {
        match spec_decode_checkbox_options(items.drop_last()) {
            Err(e) => Err(e),
            Ok(pre) => match spec_decode_checkbox_option(items.last()) {
                Err(e) => Err(e),
                Ok(o) => Ok(pre.push(o)),
            },
        }
    }
}

/// A list of plain strings, stopped at the first element of another shape;
/// `key` names the list in the error.
pub open spec fn spec_decode_str_items(items: Seq<YamlV>, key: Seq<char>) -> Result<
    Seq<Seq<char>>,
    DecodeErrorV,
>
    decreases items.len(),
{
    if items.len() == 0 {
        Ok(Seq::<Seq<char>>::empty())
    } else {
        match spec_decode_str_items(items.drop_last(), key) {
            Err(e) => Err(e),
            Ok(pre) => match items.last() {
                YamlV::Str(s) => Ok(pre.push(s)),
                _ => Err(DecodeErrorV::WrongType(key)),
            },
        }
    }
}

/// A checkboxes field.
pub open spec fn spec_decode_checkboxes(es: Seq<(YamlV, YamlV)>) -> Result<
    BodyTypeV,
    DecodeErrorV,
> {
    match spec_req_str(es, "id"@) {
        Err(e) => Err(e),
        Ok(id) => match spec_attr_entries(es) {
            Err(e) => Err(e),
            Ok(aes) => match spec_str_or_empty(aes, "label"@) {
                Err(e) => Err(e),
                Ok(label) => match spec_str_or_empty(aes, "description"@) {
                    Err(e) => Err(e),
                    Ok(description) => match obj_lookup(aes, "options"@) {
                        Option::None => Err(DecodeErrorV::MissingField("options"@)),
                        Option::Some(YamlV::Arr(items)) => match spec_decode_checkbox_options(
                            items,
                        ) {
                            Err(e) => Err(e),
                            Ok(options) => Ok(
                                BodyTypeV::Checkboxes {
                                    id,
                                    attributes: CheckboxesAttributeV {
                                        label,
                                        description,
                                        options,
                                    },
                                },
                            ),
                        },
                        Option::Some(_) => Err(DecodeErrorV::WrongType("options"@)),
                    },
                },
            },
        },
    }
}

/// A dropdown field.
pub open spec fn spec_decode_dropdown(es: Seq<(YamlV, YamlV)>) -> Result<BodyTypeV, DecodeErrorV> {
    match spec_req_str(es, "id"@) {
        Err(e) => Err(e),
        Ok(id) => match spec_attr_entries(es) {
            Err(e) => Err(e),
            Ok(aes) => match spec_str_or_empty(aes, "label"@) {
                Err(e) => Err(e),
                Ok(label) => match spec_str_or_empty(aes, "description"@) {
                    Err(e) => Err(e),
                    Ok(description) => match spec_bool_or_false(aes, "multiple"@) {
                        Err(e) => Err(e),
                        Ok(multiple) => match obj_lookup(aes, "options"@) {
                            Option::None => Err(DecodeErrorV::MissingField("options"@)),
                            Option::Some(YamlV::Arr(items)) => match spec_decode_str_items(
                                items,
                                "options"@,
                            ) {
                                Err(e) => Err(e),
                                Ok(options) => match spec_validations(es) {
                                    Err(e) => Err(e),
                                    Ok(validations) => Ok(
                                        BodyTypeV::Dropdown {
                                            id,
                                            attributes: DropdownAttributeV {
                                                label,
                                                description,
                                                multiple,
                                                options,
                                            },
                                            validations,
                                        },
                                    ),
                                },
                            },
                            Option::Some(_) => Err(DecodeErrorV::WrongType("options"@)),
                        },
                    },
                },
            },
        },
    }
}

/// A single-line input field.
pub open spec fn spec_decode_input(es: Seq<(YamlV, YamlV)>) -> Result<BodyTypeV, DecodeErrorV> {
    match spec_req_str(es, "id"@) {
        Err(e) => Err(e),
        Ok(id) => match spec_attr_entries(es) {
            Err(e) => Err(e),
            Ok(aes) => match spec_str_or_empty(aes, "label"@) {
                Err(e) => Err(e),
                Ok(label) => match spec_str_or_empty(aes, "description"@) {
                    Err(e) => Err(e),
                    Ok(description) => match spec_str_or_empty(aes, "placeholder"@) {
                        Err(e) => Err(e),
                        Ok(placeholder) => match spec_opt_str(aes, "value"@) {
                            Err(e) => Err(e),
                            Ok(value) => match spec_validations(es) {
                                Err(e) => Err(e),
                                Ok(validations) => Ok(
                                    BodyTypeV::Input {
                                        id,
                                        attributes: InputAttributeV {
                                            label,
                                            description,
                                            placeholder,
                                            value,
                                        },
                                        validations,
                                    },
                                ),
                            },
                        },
                    },
                },
            },
        },
    }
}

/// A markdown field: its content alone.
pub open spec fn spec_decode_markdown(es: Seq<(YamlV, YamlV)>) -> Result<BodyTypeV, DecodeErrorV> {
    match spec_attr_entries(es) {
        Err(e) => Err(e),
        Ok(aes) => match spec_str_or_empty(aes, "value"@) {
            Err(e) => Err(e),
            Ok(value) => Ok(BodyTypeV::Markdown { attributes: MarkdownAttributeV { value } }),
        },
    }
}

/// A multi-line text field.
pub open spec fn spec_decode_textarea(es: Seq<(YamlV, YamlV)>) -> Result<BodyTypeV, DecodeErrorV> {
    match spec_req_str(es, "id"@) {
        Err(e) => Err(e),
        Ok(id) => match spec_attr_entries(es) {
            Err(e) => Err(e),
            Ok(aes) => match spec_str_or_empty(aes, "label"@) {
                Err(e) => Err(e),
                Ok(label) => match spec_str_or_empty(aes, "description"@) {
                    Err(e) => Err(e),
                    Ok(description) => match spec_str_or_empty(aes, "placeholder"@) {
                        Err(e) => Err(e),
                        Ok(placeholder) => match spec_str_or_empty(aes, "value"@) {
                            Err(e) => Err(e),
                            Ok(value) => match spec_opt_str(aes, "render"@) {
                                Err(e) => Err(e),
                                Ok(render) => match spec_validations(es) {
                                    Err(e) => Err(e),
                                    Ok(validations) => Ok(
                                        BodyTypeV::Textarea {
                                            id,
                                            attributes: TextareaAttributeV {
                                                label,
                                                description,
                                                placeholder,
                                                value,
                                                render,
                                            },
                                            validations,
                                        },
                                    ),
                                },
                            },
                        },
                    },
                },
            },
        },
    }
}

/// One body entry: a mapping whose `type` tag picks the field kind; a tag
/// outside the five known kinds is a decode failure, never dropped.
pub open spec fn spec_decode_field(y: YamlV) -> Result<BodyTypeV, DecodeErrorV> {
    match y {
        YamlV::Obj(es) => match obj_lookup(es, "type"@) {
            Option::None => Err(DecodeErrorV::MissingField("type"@)),
            Option::Some(YamlV::Str(t)) => if t == "checkboxes"@ {
                spec_decode_checkboxes(es)
            } else if t == "dropdown"@ {
                spec_decode_dropdown(es)
            } else if t == "input"@ {
                spec_decode_input(es)
            } else if t == "markdown"@ {
                spec_decode_markdown(es)
            } else if t == "textarea"@ {
                spec_decode_textarea(es)
            } else {
                Err(DecodeErrorV::UnknownFieldType(t))
            },
            Option::Some(_) => Err(DecodeErrorV::WrongType("type"@)),
        },
        _ => Err(DecodeErrorV::WrongType("body"@)),
    }
}

/// The body list, stopped at the first failing entry.
pub open spec fn spec_decode_fields(items: Seq<YamlV>) -> Result<Seq<BodyTypeV>, DecodeErrorV>
    decreases items.len(),
{
    if items.len() == 0 {
        Ok(Seq::<BodyTypeV>::empty())
    } else {
        match spec_decode_fields(items.drop_last()) {
            Err(e) => Err(e),
            Ok(pre) => match spec_decode_field(items.last()) {
                Err(e) => Err(e),
                Ok(f) => Ok(pre.push(f)),
            },
        }
    }
}

/// A sequence-or-CSV value under `key`: absent means the empty list; a list
/// must hold strings alone; a single string is kept comma-delimited.
pub open spec fn spec_seqlike(es: Seq<(YamlV, YamlV)>, key: Seq<char>) -> Result<
    SequenceLikeV,
    DecodeErrorV,
> {
    match obj_lookup(es, key) {
        Option::None => Ok(SequenceLikeV::Sequence(Seq::<Seq<char>>::empty())),
        Option::Some(YamlV::Arr(items)) => match spec_decode_str_items(items, key) {
            Err(e) => Err(e),
            Ok(l) => Ok(SequenceLikeV::Sequence(l)),
        },
        Option::Some(YamlV::Str(s)) => Ok(SequenceLikeV::CommaDelimited(s)),
        Option::Some(_) => Err(DecodeErrorV::WrongType(key)),
    }
}

/// A whole form document: its header fields and its body list.
pub open spec fn spec_decode_form_obj(es: Seq<(YamlV, YamlV)>) -> Result<FormV, DecodeErrorV> {
    match spec_req_str(es, "name"@) {
        Err(e) => Err(e),
        Ok(name) => match spec_req_str(es, "description"@) {
            Err(e) => Err(e),
            Ok(description) => match spec_opt_str(es, "title"@) {
                Err(e) => Err(e),
                Ok(title) => match spec_seqlike(es, "labels"@) {
                    Err(e) => Err(e),
                    Ok(labels) => match spec_seqlike(es, "assignees"@) {
                        Err(e) => Err(e),
                        Ok(assignees) => match obj_lookup(es, "body"@) {
                            Option::None => Err(DecodeErrorV::MissingField("body"@)),
                            Option::Some(YamlV::Arr(items)) => match spec_decode_fields(items) {
                                Err(e) => Err(e),
                                Ok(body) => Ok(
                                    FormV { name, description, title, labels, assignees, body },
                                ),
                            },
                            Option::Some(_) => Err(DecodeErrorV::WrongType("body"@)),
                        },
                    },
                },
            },
        },
    }
}

/// A form document: a mapping, decoded field by field.
pub open spec fn spec_decode_form(y: YamlV) -> Result<FormV, DecodeErrorV> {
    match y {
        YamlV::Obj(es) => spec_decode_form_obj(es),
        _ => Err(DecodeErrorV::NotAMapping),
    }
}

/// An error among the first `i` elements decides the whole option list.
proof fn lemma_checkbox_options_err(items: Seq<YamlV>, i: int)
    requires
        0 <= i <= items.len(),
        spec_decode_checkbox_options(items.take(i)) is Err,
    ensures
        spec_decode_checkbox_options(items) == spec_decode_checkbox_options(items.take(i)),
    decreases items.len() - i,
{
    if i == items.len() {
        assert(items.take(i) =~= items);
    } else {
        assert(items.take(i + 1).drop_last() =~= items.take(i));
        lemma_checkbox_options_err(items, i + 1);
    }
}

/// An error among the first `i` elements decides the whole string list.
proof fn lemma_str_items_err(items: Seq<YamlV>, key: Seq<char>, i: int)
    requires
        0 <= i <= items.len(),
        spec_decode_str_items(items.take(i), key) is Err,
    ensures
        spec_decode_str_items(items, key) == spec_decode_str_items(items.take(i), key),
    decreases items.len() - i,
{
    if i == items.len() {
        assert(items.take(i) =~= items);
    } else {
        assert(items.take(i + 1).drop_last() =~= items.take(i));
        lemma_str_items_err(items, key, i + 1);
    }
}

/// An error among the first `i` entries decides the whole body list.
proof fn lemma_fields_err(items: Seq<YamlV>, i: int)
    requires
        0 <= i <= items.len(),
        spec_decode_fields(items.take(i)) is Err,
    ensures
        spec_decode_fields(items) == spec_decode_fields(items.take(i)),
    decreases items.len() - i,
{
    if i == items.len() {
        assert(items.take(i) =~= items);
    } else {
        assert(items.take(i + 1).drop_last() =~= items.take(i));
        lemma_fields_err(items, i + 1);
    }
}

/// Reads the entries under `attributes`, if the field carries any.
fn attr_entries<'a>(entries: &'a Vec<(Yaml, Yaml)>) -> (r: Result<
    Option<&'a Vec<(Yaml, Yaml)>>,
    DecodeError,
>)
    ensures
        match r {
            Ok(a) => match a {
                Some(aes) => spec_attr_entries(entries_dv(entries@)) == Ok::<
                    Seq<(YamlV, YamlV)>,
                    DecodeErrorV,
                >(entries_dv(aes@)),
                None => spec_attr_entries(entries_dv(entries@)) == Ok::<
                    Seq<(YamlV, YamlV)>,
                    DecodeErrorV,
                >(Seq::<(YamlV, YamlV)>::empty()),
            },
            Err(e) => spec_attr_entries(entries_dv(entries@)) == Err::<
                Seq<(YamlV, YamlV)>,
                DecodeErrorV,
            >(e.deep_view()),
        },
{
    match obj_get(entries, &"attributes".to_owned()) {
        Option::None => Ok(None),
        Option::Some(y) => match y {
            Yaml::Null => Ok(None),
            Yaml::Obj(aes) => Ok(Some(aes)),
            _ => Err(DecodeError::WrongType("attributes".to_owned())),
        },
    }
}

/// Reads the validations block of a field, if any.
fn decode_validations(entries: &Vec<(Yaml, Yaml)>) -> (r: Result<Option<Validations>, DecodeError>)
    ensures
        result_dv(r) == spec_validations(entries_dv(entries@)),
{
    match obj_get(entries, &"validations".to_owned()) {
        Option::None => Ok(None),
        Option::Some(y) => match y {
            Yaml::Null => Ok(None),
            Yaml::Obj(ves) => match get_bool_or_false(ves, "required") {
                Ok(b) => Ok(Some(Validations { required: b })),
                Err(e) => Err(e),
            },
            _ => Err(DecodeError::WrongType("validations".to_owned())),
        },
    }
}

/// Reads one checkbox option.
fn decode_checkbox_option(y: &Yaml) -> (r: Result<CheckboxesOption, DecodeError>)
    ensures
        result_dv(r) == spec_decode_checkbox_option(yaml_dv(*y)),
{
    match y {
        Yaml::Obj(entries) => {
            let label = match get_req_str(entries, "label") {
                Ok(s) => s,
                Err(e) => {
                    return Err(e);
                }
            };
            let required = match get_bool_or_false(entries, "required") {
                Ok(b) => b,
                Err(e) => {
                    return Err(e);
                }
            };
            Ok(CheckboxesOption { label: MarkdownInline(label), required: required })
        }
        _ => Err(DecodeError::WrongType("options".to_owned())),
    }
}

/// Reads a list of checkbox options, stopping at the first failure.
fn decode_checkbox_options(items: &Vec<Yaml>) -> (r: Result<Vec<CheckboxesOption>, DecodeError>)
    ensures
        result_dv(r) == spec_decode_checkbox_options(items_dv(items@)),
{
    let ghost itemsv = items_dv(items@);
    let mut out: Vec<CheckboxesOption> = Vec::new();
    proof {
        assert(itemsv.take(0) =~= Seq::<YamlV>::empty());
        assert(out.deep_view() =~= Seq::<CheckboxesOptionV>::empty());
    }
    let mut i: usize = 0;
    while i < items.len()
        invariant
            i <= items@.len(),
            itemsv == items_dv(items@),
            itemsv.len() == items@.len(),
            spec_decode_checkbox_options(itemsv.take(i as int)) == Ok::<
                Seq<CheckboxesOptionV>,
                DecodeErrorV,
            >(out.deep_view()),
        decreases items@.len() - i,
    {
        proof {
            assert(itemsv[i as int] == yaml_dv(items@[i as int]));
            assert(itemsv.take(i as int + 1).drop_last() =~= itemsv.take(i as int));
        }
        match decode_checkbox_option(&items[i]) {
            Ok(o) => {
                let ghost prev = out.deep_view();
                out.push(o);
                proof {
                    assert(out.deep_view() =~= prev.push(o.deep_view()));
                }
            }
            Err(e) => {
                proof {
                    lemma_checkbox_options_err(itemsv, i as int + 1);
                }
                return Err(e);
            }
        }
        i = i + 1;
    }
    proof {
        assert(itemsv.take(items@.len() as int) =~= itemsv);
    }
    Ok(out)
}

/// Reads a list of plain strings; `key` names the list in any error.
fn decode_str_items(items: &Vec<Yaml>, key: &str) -> (r: Result<Vec<String>, DecodeError>)
    ensures
        result_dv(r) == spec_decode_str_items(items_dv(items@), key@),
{
    let ghost itemsv = items_dv(items@);
    let mut out: Vec<String> = Vec::new();
    proof {
        assert(itemsv.take(0) =~= Seq::<YamlV>::empty());
        assert(out.deep_view() =~= Seq::<Seq<char>>::empty());
    }
    let mut i: usize = 0;
    while i < items.len()
        invariant
            i <= items@.len(),
            itemsv == items_dv(items@),
            itemsv.len() == items@.len(),
            spec_decode_str_items(itemsv.take(i as int), key@) == Ok::<
                Seq<Seq<char>>,
                DecodeErrorV,
            >(out.deep_view()),
        decreases items@.len() - i,
    {
        proof {
            assert(itemsv[i as int] == yaml_dv(items@[i as int]));
            assert(itemsv.take(i as int + 1).drop_last() =~= itemsv.take(i as int));
        }
        match &items[i] {
            Yaml::Str(s) => {
                let ghost prev = out.deep_view();
                out.push(s.clone());
                proof {
                    assert(out.deep_view() =~= prev.push(s@));
                }
            }
            _ => {
                proof {
                    lemma_str_items_err(itemsv, key@, i as int + 1);
                }
                return Err(DecodeError::WrongType(key.to_owned()));
            }
        }
        i = i + 1;
    }
    proof {
        assert(itemsv.take(items@.len() as int) =~= itemsv);
    }
    Ok(out)
}

/// Reads a checkboxes field from its entries.
fn decode_checkboxes(entries: &Vec<(Yaml, Yaml)>) -> (r: Result<BodyType, DecodeError>)
    ensures
        result_dv(r) == spec_decode_checkboxes(entries_dv(entries@)),
{
    let id = match get_req_str(entries, "id") {
        Ok(s) => s,
        Err(e) => {
            return Err(e);
        }
    };
    let empty: Vec<(Yaml, Yaml)> = Vec::new();
    proof {
        assert(entries_dv(empty@) =~= Seq::<(YamlV, YamlV)>::empty());
    }
    let aes = match attr_entries(entries) {
        Ok(Some(a)) => a,
        Ok(None) => &empty,
        Err(e) => {
            return Err(e);
        }
    };
    let label = match get_str_or_empty(aes, "label") {
        Ok(s) => s,
        Err(e) => {
            return Err(e);
        }
    };
    let description = match get_str_or_empty(aes, "description") {
        Ok(s) => s,
        Err(e) => {
            return Err(e);
        }
    };
    let options = match obj_get(aes, &"options".to_owned()) {
        Option::None => {
            return Err(DecodeError::MissingField("options".to_owned()));
        }
        Option::Some(y) => match y {
            Yaml::Arr(items) => match decode_checkbox_options(items) {
                Ok(v) => v,
                Err(e) => {
                    return Err(e);
                }
            },
            _ => {
                return Err(DecodeError::WrongType("options".to_owned()));
            }
        },
    };
    Ok(
        BodyType::Checkboxes {
            id: id,
            attributes: CheckboxesAttribute {
                label: label,
                description: Markdown(description),
                options: options,
            },
        },
    )
}

/// Reads a dropdown field from its entries.
fn decode_dropdown(entries: &Vec<(Yaml, Yaml)>) -> (r: Result<BodyType, DecodeError>)
    ensures
        result_dv(r) == spec_decode_dropdown(entries_dv(entries@)),
{
    let id = match get_req_str(entries, "id") {
        Ok(s) => s,
        Err(e) => {
            return Err(e);
        }
    };
    let empty: Vec<(Yaml, Yaml)> = Vec::new();
    proof {
        assert(entries_dv(empty@) =~= Seq::<(YamlV, YamlV)>::empty());
    }
    let aes = match attr_entries(entries) {
        Ok(Some(a)) => a,
        Ok(None) => &empty,
        Err(e) => {
            return Err(e);
        }
    };
    let label = match get_str_or_empty(aes, "label") {
        Ok(s) => s,
        Err(e) => {
            return Err(e);
        }
    };
    let description = match get_str_or_empty(aes, "description") {
        Ok(s) => s,
        Err(e) => {
            return Err(e);
        }
    };
    let multiple = match get_bool_or_false(aes, "multiple") {
        Ok(b) => b,
        Err(e) => {
            return Err(e);
        }
    };
    let options = match obj_get(aes, &"options".to_owned()) {
        Option::None => {
            return Err(DecodeError::MissingField("options".to_owned()));
        }
        Option::Some(y) => match y {
            Yaml::Arr(items) => match decode_str_items(items, "options") {
                Ok(v) => v,
                Err(e) => {
                    return Err(e);
                }
            },
            _ => {
                return Err(DecodeError::WrongType("options".to_owned()));
            }
        },
    };
    let validations = match decode_validations(entries) {
        Ok(v) => v,
        Err(e) => {
            return Err(e);
        }
    };
    Ok(
        BodyType::Dropdown {
            id: id,
            attributes: DropdownAttribute {
                label: label,
                description: Markdown(description),
                multiple: multiple,
                options: options,
            },
            validations: validations,
        },
    )
}

/// Reads a single-line input field from its entries.
fn decode_input(entries: &Vec<(Yaml, Yaml)>) -> (r: Result<BodyType, DecodeError>)
    ensures
        result_dv(r) == spec_decode_input(entries_dv(entries@)),
{
    let id = match get_req_str(entries, "id") {
        Ok(s) => s,
        Err(e) => {
            return Err(e);
        }
    };
    let empty: Vec<(Yaml, Yaml)> = Vec::new();
    proof {
        assert(entries_dv(empty@) =~= Seq::<(YamlV, YamlV)>::empty());
    }
    let aes = match attr_entries(entries) {
        Ok(Some(a)) => a,
        Ok(None) => &empty,
        Err(e) => {
            return Err(e);
        }
    };
    let label = match get_str_or_empty(aes, "label") {
        Ok(s) => s,
        Err(e) => {
            return Err(e);
        }
    };
    let description = match get_str_or_empty(aes, "description") {
        Ok(s) => s,
        Err(e) => {
            return Err(e);
        }
    };
    let placeholder = match get_str_or_empty(aes, "placeholder") {
        Ok(s) => s,
        Err(e) => {
            return Err(e);
        }
    };
    let value = match get_opt_str(aes, "value") {
        Ok(v) => v,
        Err(e) => {
            return Err(e);
        }
    };
    let validations = match decode_validations(entries) {
        Ok(v) => v,
        Err(e) => {
            return Err(e);
        }
    };
    Ok(
        BodyType::Input {
            id: id,
            attributes: InputAttribute {
                label: label,
                description: Markdown(description),
                placeholder: placeholder,
                value: value,
            },
            validations: validations,
        },
    )
}

/// Reads a markdown field from its entries.
fn decode_markdown(entries: &Vec<(Yaml, Yaml)>) -> (r: Result<BodyType, DecodeError>)
    ensures
        result_dv(r) == spec_decode_markdown(entries_dv(entries@)),
{
    let empty: Vec<(Yaml, Yaml)> = Vec::new();
    proof {
        assert(entries_dv(empty@) =~= Seq::<(YamlV, YamlV)>::empty());
    }
    let aes = match attr_entries(entries) {
        Ok(Some(a)) => a,
        Ok(None) => &empty,
        Err(e) => {
            return Err(e);
        }
    };
    let value = match get_str_or_empty(aes, "value") {
        Ok(s) => s,
        Err(e) => {
            return Err(e);
        }
    };
    Ok(BodyType::Markdown { attributes: MarkdownAttribute { value: Markdown(value) } })
}

/// Reads a multi-line text field from its entries.
fn decode_textarea(entries: &Vec<(Yaml, Yaml)>) -> (r: Result<BodyType, DecodeError>)
    ensures
        result_dv(r) == spec_decode_textarea(entries_dv(entries@)),
{
    let id = match get_req_str(entries, "id") {
        Ok(s) => s,
        Err(e) => {
            return Err(e);
        }
    };
    let empty: Vec<(Yaml, Yaml)> = Vec::new();
    proof {
        assert(entries_dv(empty@) =~= Seq::<(YamlV, YamlV)>::empty());
    }
    let aes = match attr_entries(entries) {
        Ok(Some(a)) => a,
        Ok(None) => &empty,
        Err(e) => {
            return Err(e);
        }
    };
    let label = match get_str_or_empty(aes, "label") {
        Ok(s) => s,
        Err(e) => {
            return Err(e);
        }
    };
    let description = match get_str_or_empty(aes, "description") {
        Ok(s) => s,
        Err(e) => {
            return Err(e);
        }
    };
    let placeholder = match get_str_or_empty(aes, "placeholder") {
        Ok(s) => s,
        Err(e) => {
            return Err(e);
        }
    };
    let value = match get_str_or_empty(aes, "value") {
        Ok(s) => s,
        Err(e) => {
            return Err(e);
        }
    };
    let render = match get_opt_str(aes, "render") {
        Ok(v) => v,
        Err(e) => {
            return Err(e);
        }
    };
    let validations = match decode_validations(entries) {
        Ok(v) => v,
        Err(e) => {
            return Err(e);
        }
    };
    Ok(
        BodyType::Textarea {
            id: id,
            attributes: TextareaAttribute {
                label: label,
                description: Markdown(description),
                placeholder: placeholder,
                value: value,
                render: render,
            },
            validations: validations,
        },
    )
}

/// Reads one body entry, dispatching on its `type` tag.
pub fn decode_field(y: &Yaml) -> (r: Result<BodyType, DecodeError>)
    ensures
        result_dv(r) == spec_decode_field(yaml_dv(*y)),
{
    match y {
        Yaml::Obj(entries) => {
            let tag = match obj_get(entries, &"type".to_owned()) {
                Option::None => {
                    return Err(DecodeError::MissingField("type".to_owned()));
                }
                Option::Some(t) => t,
            };
            match tag {
                Yaml::Str(t) => {
                    if *t == "checkboxes".to_owned() {
                        decode_checkboxes(entries)
                    } else if *t == "dropdown".to_owned() {
                        decode_dropdown(entries)
                    } else if *t == "input".to_owned() {
                        decode_input(entries)
                    } else if *t == "markdown".to_owned() {
                        decode_markdown(entries)
                    } else if *t == "textarea".to_owned() {
                        decode_textarea(entries)
                    } else {
                        Err(DecodeError::UnknownFieldType(t.clone()))
                    }
                }
                _ => Err(DecodeError::WrongType("type".to_owned())),
            }
        }
        _ => Err(DecodeError::WrongType("body".to_owned())),
    }
}

/// Reads the body list, stopping at the first failing entry.
fn decode_fields(items: &Vec<Yaml>) -> (r: Result<Vec<BodyType>, DecodeError>)
    ensures
        result_dv(r) == spec_decode_fields(items_dv(items@)),
{
    let ghost itemsv = items_dv(items@);
    let mut out: Vec<BodyType> = Vec::new();
    proof {
        assert(itemsv.take(0) =~= Seq::<YamlV>::empty());
        assert(out.deep_view() =~= Seq::<BodyTypeV>::empty());
    }
    let mut i: usize = 0;
    while i < items.len()
        invariant
            i <= items@.len(),
            itemsv == items_dv(items@),
            itemsv.len() == items@.len(),
            spec_decode_fields(itemsv.take(i as int)) == Ok::<Seq<BodyTypeV>, DecodeErrorV>(
                out.deep_view(),
            ),
        decreases items@.len() - i,
    {
        proof {
            assert(itemsv[i as int] == yaml_dv(items@[i as int]));
            assert(itemsv.take(i as int + 1).drop_last() =~= itemsv.take(i as int));
        }
        match decode_field(&items[i]) {
            Ok(f) => {
                let ghost prev = out.deep_view();
                out.push(f);
                proof {
                    assert(out.deep_view() =~= prev.push(f.deep_view()));
                }
            }
            Err(e) => {
                proof {
                    lemma_fields_err(itemsv, i as int + 1);
                }
                return Err(e);
            }
        }
        i = i + 1;
    }
    proof {
        assert(itemsv.take(items@.len() as int) =~= itemsv);
    }
    Ok(out)
}

/// Reads a sequence-or-CSV value under `key`.
fn decode_seqlike(entries: &Vec<(Yaml, Yaml)>, key: &str) -> (r: Result<SequenceLike, DecodeError>)
    ensures
        result_dv(r) == spec_seqlike(entries_dv(entries@), key@),
{
    match obj_get(entries, &key.to_owned()) {
        Option::None => Ok(default_empty_sequecelike()),
        Option::Some(y) => match y {
            Yaml::Arr(items) => match decode_str_items(items, key) {
                Ok(v) => Ok(SequenceLike::Sequence(v)),
                Err(e) => Err(e),
            },
            Yaml::Str(s) => Ok(SequenceLike::CommaDelimited(s.clone())),
            _ => Err(DecodeError::WrongType(key.to_owned())),
        },
    }
}

/// Decodes a form document from a YAML tree. The result is exactly what
/// `spec_decode_form` gives for the tree's image: defaults filled in,
/// unknown keys ignored, and each failure the named one.
pub fn decode_form(y: &Yaml) -> (r: Result<Form, DecodeError>)
    ensures
        result_dv(r) == spec_decode_form(yaml_dv(*y)),
{
    match y {
        Yaml::Obj(entries) => {
            let name = match get_req_str(entries, "name") {
                Ok(s) => s,
                Err(e) => {
                    return Err(e);
                }
            };
            let description = match get_req_str(entries, "description") {
                Ok(s) => s,
                Err(e) => {
                    return Err(e);
                }
            };
            let title = match get_opt_str(entries, "title") {
                Ok(v) => v,
                Err(e) => {
                    return Err(e);
                }
            };
            let labels = match decode_seqlike(entries, "labels") {
                Ok(v) => v,
                Err(e) => {
                    return Err(e);
                }
            };
            let assignees = match decode_seqlike(entries, "assignees") {
                Ok(v) => v,
                Err(e) => {
                    return Err(e);
                }
            };
            let body = match obj_get(entries, &"body".to_owned()) {
                Option::None => {
                    return Err(DecodeError::MissingField("body".to_owned()));
                }
                Option::Some(b) => match b {
                    Yaml::Arr(items) => match decode_fields(items) {
                        Ok(v) => v,
                        Err(e) => {
                            return Err(e);
                        }
                    },
                    _ => {
                        return Err(DecodeError::WrongType("body".to_owned()));
                    }
                },
            };
            Ok(
                Form {
                    name: name,
                    description: description,
                    title: title,
                    labels: labels,
                    assignees: assignees,
                    body: body,
                },
            )
        }
        _ => Err(DecodeError::NotAMapping),
    }
}

/// Decodes a form document from its text: the decode of the text's parse
/// tree, or the syntax error with which the YAML engine refuses the text.
pub fn decode_form_str(text: &str) -> (r: Result<Form, DecodeError>)
    ensures
        result_dv(r) == (match crate::yaml::parse_of(text@) {
            Ok(y) => spec_decode_form(y),
            Err(m) => Err(DecodeErrorV::Syntax(m)),
        }),
{
    match crate::yaml::parse_yaml(text) {
        Err(m) => Err(DecodeError::Syntax(m)),
        Ok(y) => {
            let r = decode_form(&y);
            proof {
                assert(result_dv(r) == spec_decode_form(yaml_dv(y)));
            }
            r
        }
    }
}

/// The heading block of a field that carries no marker.
pub open spec fn spec_header_plain(id: Seq<char>, label: Seq<char>) -> Seq<char> {
    "<div id=\""@ + escaped(id) + "\"><label><h3>"@ + escaped(label) + "</h3></label></div>"@
}

/// The heading block of a field, with its required-or-optional marker.
pub open spec fn spec_header_marked(
    id: Seq<char>,
    label: Seq<char>,
    v: Option<ValidationsV>,
) -> Seq<char> {
    "<div id=\""@ + escaped(id) + "\"><label><h3 required=\""@ + spec_marker(v) + "\">"@
        + escaped(label) + "</h3></label></div>"@
}

/// The description block of a field: its markdown under block rules.
pub open spec fn spec_desc(d: Seq<char>) -> Seq<char> {
    "<div class=\"body-description\">"@ + md_block_of(d) + "</div>"@
}

/// The part of a rendered checkbox option before any marker: a disabled
/// checkbox whose display value is the option's inline HTML, then the
/// inline-rendered label. It depends on the label alone.
pub open spec fn spec_checkbox_option_head(label: Seq<char>) -> Seq<char> {
    "<div><input type=\"checkbox\" disabled=\"disabled\" value=\""@ + escaped(md_inline_of(label))
        + "\"><label class=\"checkbox-label\">"@ + md_inline_of(label) + "</label>"@
}

/// The required-marker glyph of a checkbox option.
pub open spec fn spec_checkbox_marker() -> Seq<char> {
    "<span class=\"checkbox-required\">*</span>"@
}

/// One rendered checkbox option: its head, the required marker exactly when
/// the option's own flag is set, and the closing tag.
pub open spec fn spec_render_checkbox_option(o: CheckboxesOptionV) -> Seq<char> {
    spec_checkbox_option_head(o.label) + (if o.required {
        spec_checkbox_marker()
    } else {
        Seq::<char>::empty()
    }) + "</div>"@
}

/// The rendered checkbox options, option by option, in order.
pub open spec fn spec_render_checkbox_options(opts: Seq<CheckboxesOptionV>) -> Seq<char>
    decreases opts.len(),
{
    if opts.len() == 0 {
        Seq::<char>::empty()
    } else {
        spec_render_checkbox_options(opts.drop_last()) + spec_render_checkbox_option(opts.last())
    }
}

/// A rendered checkboxes field.
pub open spec fn spec_render_checkboxes(id: Seq<char>, a: CheckboxesAttributeV) -> Seq<char> {
    spec_header_plain(id, a.label) + spec_desc(a.description) + "<div>"@
        + spec_render_checkbox_options(a.options) + "</div>"@
}

/// The input type of a dropdown entry: checkbox when the field takes
/// several values, radio otherwise.
pub open spec fn spec_dropdown_input_type(multiple: bool) -> Seq<char> {
    if multiple {
        "checkbox"@
    } else {
        "radio"@
    }
}

/// One rendered dropdown entry: an input whose type follows the field's
/// `multiple` flag, named for the field's id so that entries of one field
/// group together, then a checkmark glyph and the literal entry text. The
/// entry input carries `hidden`, with the styled checkmark standing in for
/// the control — unlike the other field kinds, whose inputs are disabled.
pub open spec fn spec_render_dropdown_option(
    id: Seq<char>,
    multiple: bool,
    opt: Seq<char>,
) -> Seq<char> {
    "<label class=\"checkbox-label\"><input type=\""@ + spec_dropdown_input_type(multiple)
        + "\" name=\"issue-form["@ + escaped(id) + "]\" hidden value=\""@ + escaped(opt)
        + "\"><div class=\"checkmark\">\u{2713}</div><div>"@ + escaped(opt) + "</div></label>"@
}

/// The rendered dropdown entries, in order.
pub open spec fn spec_render_dropdown_options(
    id: Seq<char>,
    multiple: bool,
    opts: Seq<Seq<char>>,
) -> Seq<char>
    decreases opts.len(),
{
    if opts.len() == 0 {
        Seq::<char>::empty()
    } else {
        spec_render_dropdown_options(id, multiple, opts.drop_last())
            + spec_render_dropdown_option(id, multiple, opts.last())
    }
}

/// A rendered dropdown field.
pub open spec fn spec_render_dropdown(
    id: Seq<char>,
    a: DropdownAttributeV,
    v: Option<ValidationsV>,
) -> Seq<char> {
    spec_header_marked(id, a.label, v) + spec_desc(a.description)
        + "<details class=\"dropdown-container\"><summary role=\"button\">Selection: </summary><div class=\"choices\">"@
        + spec_render_dropdown_options(id, a.multiple, a.options) + "</div></details>"@
}

/// The optional default-value attribute of an input field.
pub open spec fn spec_value_attr(v: Option<Seq<char>>) -> Seq<char> {
    match v {
        Some(s) => " value=\""@ + escaped(s) + "\""@,
        None => Seq::<char>::empty(),
    }
}

/// A rendered single-line input field.
pub open spec fn spec_render_input(
    id: Seq<char>,
    a: InputAttributeV,
    v: Option<ValidationsV>,
) -> Seq<char> {
    spec_header_marked(id, a.label, v) + spec_desc(a.description)
        + "<input class=\"form-input\" type=\"text\" disabled=\"disabled\" placeholder=\""@
        + escaped(a.placeholder) + "\""@ + spec_value_attr(a.value) + ">"@
}

/// A rendered markdown field: its block HTML inside one div, with no id,
/// no heading and no marker.
pub open spec fn spec_render_markdown_field(a: MarkdownAttributeV) -> Seq<char> {
    "<div class=\"markdown-description\">"@ + md_block_of(a.value) + "</div>"@
}

/// The optional language-hint attribute of a textarea field.
pub open spec fn spec_lang_attr(v: Option<Seq<char>>) -> Seq<char> {
    match v {
        Some(s) => " lang=\""@ + escaped(s) + "\""@,
        None => Seq::<char>::empty(),
    }
}

/// A rendered multi-line text field.
pub open spec fn spec_render_textarea(
    id: Seq<char>,
    a: TextareaAttributeV,
    v: Option<ValidationsV>,
) -> Seq<char> {
    spec_header_marked(id, a.label, v) + spec_desc(a.description)
        + "<textarea class=\"form-textarea\" disabled=\"disabled\" placeholder=\""@
        + escaped(a.placeholder) + "\""@ + spec_lang_attr(a.render) + ">"@ + escaped(a.value)
        + "</textarea>"@
}

/// A rendered field, by its kind.
pub open spec fn spec_render_field(f: BodyTypeV) -> Seq<char> {
    match f {
        BodyTypeV::Checkboxes { id, attributes } => spec_render_checkboxes(id, attributes),
        BodyTypeV::Dropdown { id, attributes, validations } => spec_render_dropdown(
            id,
            attributes,
            validations,
        ),
        BodyTypeV::Input { id, attributes, validations } => spec_render_input(
            id,
            attributes,
            validations,
        ),
        BodyTypeV::Markdown { attributes } => spec_render_markdown_field(attributes),
        BodyTypeV::Textarea { id, attributes, validations } => spec_render_textarea(
            id,
            attributes,
            validations,
        ),
    }
}

/// The rendered field list, in document order.
pub open spec fn spec_render_fields(body: Seq<BodyTypeV>) -> Seq<char>
    decreases body.len(),
{
    if body.len() == 0 {
        Seq::<char>::empty()
    } else {
        spec_render_fields(body.drop_last()) + spec_render_field(body.last())
    }
}

/// The full preview page of a form: the document head, the header metadata
/// table, and the field list in order.
pub open spec fn spec_render_document(f: FormV) -> Seq<char> {
    "<!DOCTYPE html><html lang=\"en\"><head><meta charset=\"UTF-8\"><title>Issue Form Previewer</title></head><link rel=\"stylesheet\" type=\"text/css\" href=\"https://cdnjs.cloudflare.com/ajax/libs/github-markdown-css/5.1.0/github-markdown.min.css\"><link rel=\"stylesheet\" type=\"text/css\" href=\"/assets/extra.css\"><body class=\"markdown-body\"><article><table role=\"table\"><thead><tr><th align=\"left\">Name</th><th align=\"left\">About</th><th align=\"left\">Labels</th><th align=\"left\">Assignees</th></tr></thead><tbody><tr><td align=\"left\">"@
        + escaped(f.name) + "</td><td align=\"left\">"@ + escaped(f.description)
        + "</td><td align=\"left\">"@ + escaped(spec_join(f.labels)) + "</td><td align=\"left\">"@
        + escaped(spec_join(f.assignees))
        + "</td></tr></tbody></table></article><table><tbody><tr><td>"@
        + spec_render_fields(f.body) + "</td></tr></tbody></table></body></html>"@
}

/// The summary card of a form: name, description, and a preview link.
pub open spec fn spec_render_summary(f: FormV, link: Seq<char>) -> Seq<char> {
    "<div class=\"summary\"><div><strong class=\"name\">"@ + escaped(f.name)
        + "</strong><div class=\"description\">"@ + escaped(f.description)
        + "</div></div><a class=\"button\" href=\""@ + escaped(link) + "\">Preview</a></div>"@
}

/// Renders the heading block without a marker.
fn render_header_plain(id: &String, label: &String) -> (r: String)
    ensures
        r@ == spec_header_plain(id@, label@),
{
    let mut out = "<div id=\"".to_owned();
    out.append(escape_html(id.as_str()).as_str());
    out.append("\"><label><h3>");
    out.append(escape_html(label.as_str()).as_str());
    out.append("</h3></label></div>");
    out
}

/// Renders the heading block with its marker.
fn render_header_marked(id: &String, label: &String, v: &Option<Validations>) -> (r: String)
    ensures
        r@ == spec_header_marked(id@, label@, v.deep_view()),
{
    let mut out = "<div id=\"".to_owned();
    out.append(escape_html(id.as_str()).as_str());
    out.append("\"><label><h3 required=\"");
    out.append(is_required(v));
    out.append("\">");
    out.append(escape_html(label.as_str()).as_str());
    out.append("</h3></label></div>");
    out
}

/// Renders the description block.
fn render_desc(d: &Markdown) -> (r: String)
    ensures
        r@ == spec_desc(d.deep_view()),
{
    let mut out = "<div class=\"body-description\">".to_owned();
    out.append(d.render().as_str());
    out.append("</div>");
    out
}

/// Renders one checkbox option.
fn render_checkbox_option(o: &CheckboxesOption) -> (r: String)
    ensures
        r@ == spec_render_checkbox_option(o.deep_view()),
{
    let inline = o.label.render();
    let mut out = "<div><input type=\"checkbox\" disabled=\"disabled\" value=\"".to_owned();
    out.append(escape_html(inline.as_str()).as_str());
    out.append("\"><label class=\"checkbox-label\">");
    out.append(inline.as_str());
    out.append("</label>");
    if o.required {
        out.append("<span class=\"checkbox-required\">*</span>");
    } else {
        proof {
            assert(out@ + Seq::<char>::empty() =~= out@);
        }
    }
    out.append("</div>");
    out
}

/// Renders the checkbox options in order.
fn render_checkbox_options(opts: &Vec<CheckboxesOption>) -> (r: String)
    ensures
        r@ == spec_render_checkbox_options(opts.deep_view()),
{
    let ghost optsv = opts.deep_view();
    let mut out = String::new();
    proof {
        assert(optsv.take(0) =~= Seq::<CheckboxesOptionV>::empty());
    }
    let mut i: usize = 0;
    while i < opts.len()
        invariant
            i <= opts@.len(),
            optsv == opts.deep_view(),
            optsv.len() == opts@.len(),
            out@ == spec_render_checkbox_options(optsv.take(i as int)),
        decreases opts@.len() - i,
    {
        proof {
            assert(optsv[i as int] == opts@[i as int].deep_view());
            assert(optsv.take(i as int + 1).drop_last() =~= optsv.take(i as int));
        }
        let piece = render_checkbox_option(&opts[i]);
        out.append(piece.as_str());
        i = i + 1;
    }
    proof {
        assert(optsv.take(opts@.len() as int) =~= optsv);
    }
    out
}

/// Renders a checkboxes field.
fn render_checkboxes(id: &String, a: &CheckboxesAttribute) -> (r: String)
    ensures
        r@ == spec_render_checkboxes(id@, a.deep_view()),
{
    let mut out = render_header_plain(id, &a.label);
    out.append(render_desc(&a.description).as_str());
    out.append("<div>");
    out.append(render_checkbox_options(&a.options).as_str());
    out.append("</div>");
    out
}

/// Renders one dropdown entry.
fn render_dropdown_option(id: &String, multiple: bool, opt: &String) -> (r: String)
    ensures
        r@ == spec_render_dropdown_option(id@, multiple, opt@),
{
    let mut out = "<label class=\"checkbox-label\"><input type=\"".to_owned();
    if multiple {
        out.append("checkbox");
    } else {
        out.append("radio");
    }
    out.append("\" name=\"issue-form[");
    out.append(escape_html(id.as_str()).as_str());
    out.append("]\" hidden value=\"");
    out.append(escape_html(opt.as_str()).as_str());
    out.append("\"><div class=\"checkmark\">\u{2713}</div><div>");
    out.append(escape_html(opt.as_str()).as_str());
    out.append("</div></label>");
    out
}

/// Renders the dropdown entries in order.
fn render_dropdown_options(id: &String, multiple: bool, opts: &Vec<String>) -> (r: String)
    ensures
        r@ == spec_render_dropdown_options(id@, multiple, opts.deep_view()),
{
    let ghost optsv = opts.deep_view();
    let mut out = String::new();
    proof {
        assert(optsv.take(0) =~= Seq::<Seq<char>>::empty());
    }
    let mut i: usize = 0;
    while i < opts.len()
        invariant
            i <= opts@.len(),
            optsv == opts.deep_view(),
            optsv.len() == opts@.len(),
            out@ == spec_render_dropdown_options(id@, multiple, optsv.take(i as int)),
        decreases opts@.len() - i,
    {
        proof {
            assert(optsv[i as int] == opts@[i as int]@);
            assert(optsv.take(i as int + 1).drop_last() =~= optsv.take(i as int));
        }
        let piece = render_dropdown_option(id, multiple, &opts[i]);
        out.append(piece.as_str());
        i = i + 1;
    }
    proof {
        assert(optsv.take(opts@.len() as int) =~= optsv);
    }
    out
}

/// Renders a dropdown field.
fn render_dropdown(id: &String, a: &DropdownAttribute, v: &Option<Validations>) -> (r: String)
    ensures
        r@ == spec_render_dropdown(id@, a.deep_view(), v.deep_view()),
{
    let mut out = render_header_marked(id, &a.label, v);
    out.append(render_desc(&a.description).as_str());
    out.append(
        "<details class=\"dropdown-container\"><summary role=\"button\">Selection: </summary><div class=\"choices\">",
    );
    out.append(render_dropdown_options(id, a.multiple, &a.options).as_str());
    out.append("</div></details>");
    out
}

/// Renders the optional default-value attribute.
fn render_value_attr(v: &Option<String>) -> (r: String)
    ensures
        r@ == spec_value_attr(v.deep_view()),
{
    match v {
        Some(s) => {
            let mut out = " value=\"".to_owned();
            out.append(escape_html(s.as_str()).as_str());
            out.append("\"");
            out
        }
        None => String::new(),
    }
}

/// Renders a single-line input field.
fn render_input(id: &String, a: &InputAttribute, v: &Option<Validations>) -> (r: String)
    ensures
        r@ == spec_render_input(id@, a.deep_view(), v.deep_view()),
{
    let mut out = render_header_marked(id, &a.label, v);
    out.append(render_desc(&a.description).as_str());
    out.append("<input class=\"form-input\" type=\"text\" disabled=\"disabled\" placeholder=\"");
    out.append(escape_html(a.placeholder.as_str()).as_str());
    out.append("\"");
    out.append(render_value_attr(&a.value).as_str());
    out.append(">");
    out
}

/// Renders a markdown field.
fn render_markdown_field(a: &MarkdownAttribute) -> (r: String)
    ensures
        r@ == spec_render_markdown_field(a.deep_view()),
{
    let mut out = "<div class=\"markdown-description\">".to_owned();
    out.append(a.value.render().as_str());
    out.append("</div>");
    out
}

/// Renders the optional language-hint attribute.
fn render_lang_attr(v: &Option<String>) -> (r: String)
    ensures
        r@ == spec_lang_attr(v.deep_view()),
{
    match v {
        Some(s) => {
            let mut out = " lang=\"".to_owned();
            out.append(escape_html(s.as_str()).as_str());
            out.append("\"");
            out
        }
        None => String::new(),
    }
}

/// Renders a multi-line text field.
fn render_textarea(id: &String, a: &TextareaAttribute, v: &Option<Validations>) -> (r: String)
    ensures
        r@ == spec_render_textarea(id@, a.deep_view(), v.deep_view()),
{
    let mut out = render_header_marked(id, &a.label, v);
    out.append(render_desc(&a.description).as_str());
    out.append(
        "<textarea class=\"form-textarea\" disabled=\"disabled\" placeholder=\"",
    );
    out.append(escape_html(a.placeholder.as_str()).as_str());
    out.append("\"");
    out.append(render_lang_attr(&a.render).as_str());
    out.append(">");
    out.append(escape_html(a.value.as_str()).as_str());
    out.append("</textarea>");
    out
}

impl BodyType {
    /// The HTML of one field, by its kind.
    pub fn render(&self) -> (r: String)
        ensures
            r@ == spec_render_field(self.deep_view()),
    {
        match self {
            BodyType::Checkboxes { id, attributes } => render_checkboxes(id, attributes),
            BodyType::Dropdown { id, attributes, validations } => render_dropdown(
                id,
                attributes,
                validations,
            ),
            BodyType::Input { id, attributes, validations } => render_input(
                id,
                attributes,
                validations,
            ),
            BodyType::Markdown { attributes } => render_markdown_field(attributes),
            BodyType::Textarea { id, attributes, validations } => render_textarea(
                id,
                attributes,
                validations,
            ),
        }
    }
}

/// Renders the field list in document order.
fn render_fields(body: &Vec<BodyType>) -> (r: String)
    ensures
        r@ == spec_render_fields(body.deep_view()),
{
    let ghost bodyv = body.deep_view();
    let mut out = String::new();
    proof {
        assert(bodyv.take(0) =~= Seq::<BodyTypeV>::empty());
    }
    let mut i: usize = 0;
    while i < body.len()
        invariant
            i <= body@.len(),
            bodyv == body.deep_view(),
            bodyv.len() == body@.len(),
            out@ == spec_render_fields(bodyv.take(i as int)),
        decreases body@.len() - i,
    {
        proof {
            assert(bodyv[i as int] == body@[i as int].deep_view());
            assert(bodyv.take(i as int + 1).drop_last() =~= bodyv.take(i as int));
        }
        let piece = body[i].render();
        out.append(piece.as_str());
        i = i + 1;
    }
    proof {
        assert(bodyv.take(body@.len() as int) =~= bodyv);
    }
    out
}

impl Form {
    /// The full preview page of this form.
    pub fn to_html(&self) -> (r: String)
        ensures
            r@ == spec_render_document(self.deep_view()),
    {
        let mut out =
            "<!DOCTYPE html><html lang=\"en\"><head><meta charset=\"UTF-8\"><title>Issue Form Previewer</title></head><link rel=\"stylesheet\" type=\"text/css\" href=\"https://cdnjs.cloudflare.com/ajax/libs/github-markdown-css/5.1.0/github-markdown.min.css\"><link rel=\"stylesheet\" type=\"text/css\" href=\"/assets/extra.css\"><body class=\"markdown-body\"><article><table role=\"table\"><thead><tr><th align=\"left\">Name</th><th align=\"left\">About</th><th align=\"left\">Labels</th><th align=\"left\">Assignees</th></tr></thead><tbody><tr><td align=\"left\">".to_owned();
        out.append(escape_html(self.name.as_str()).as_str());
        out.append("</td><td align=\"left\">");
        out.append(escape_html(self.description.as_str()).as_str());
        out.append("</td><td align=\"left\">");
        out.append(escape_html(self.labels.join().as_str()).as_str());
        out.append("</td><td align=\"left\">");
        out.append(escape_html(self.assignees.join().as_str()).as_str());
        out.append("</td></tr></tbody></table></article><table><tbody><tr><td>");
        out.append(render_fields(&self.body).as_str());
        out.append("</td></tr></tbody></table></body></html>");
        out
    }

    /// The summary card of this form; `link` is the caller-supplied preview
    /// target, escaped as an attribute value.
    pub fn summarize(&self, link: &str) -> (r: String)
        ensures
            r@ == spec_render_summary(self.deep_view(), link@),
    {
        let mut out = "<div class=\"summary\"><div><strong class=\"name\">".to_owned();
        out.append(escape_html(self.name.as_str()).as_str());
        out.append("</strong><div class=\"description\">");
        out.append(escape_html(self.description.as_str()).as_str());
        out.append("</div></div><a class=\"button\" href=\"");
        out.append(escape_html(link).as_str());
        out.append("\">Preview</a></div>");
        out
    }
}

/// Law: a checkbox option's markup carries exactly one required-marker
/// glyph after its head when its own `required` flag is set, and none
/// otherwise; the head depends on the option's label alone.
pub proof fn lemma_checkbox_option_marker(o: CheckboxesOptionV)
    ensures
        o.required ==> spec_render_checkbox_option(o) == spec_checkbox_option_head(o.label)
            + spec_checkbox_marker() + "</div>"@,
        !o.required ==> spec_render_checkbox_option(o) == spec_checkbox_option_head(o.label)
            + "</div>"@,
{
    if !o.required {
        assert(spec_checkbox_option_head(o.label) + Seq::<char>::empty()
            =~= spec_checkbox_option_head(o.label));
    }
}

/// Law: the rendered option list decomposes around any one option, so each
/// option's markup stands on its own, independent of its siblings.
pub proof fn lemma_checkbox_options_pointwise(opts: Seq<CheckboxesOptionV>, i: int)
    requires
        0 <= i < opts.len(),
    ensures
        spec_render_checkbox_options(opts) == spec_render_checkbox_options(opts.take(i))
            + spec_render_checkbox_option(opts[i]) + spec_render_checkbox_options(
            opts.skip(i + 1),
        ),
    decreases opts.len(),
{
    if i == opts.len() - 1 {
        assert(opts.take(i) =~= opts.drop_last());
        assert(opts.skip(i + 1) =~= Seq::<CheckboxesOptionV>::empty());
        assert(opts[i] == opts.last());
        assert(spec_render_checkbox_options(opts.take(i)) + spec_render_checkbox_option(opts[i])
            + Seq::<char>::empty() =~= spec_render_checkbox_options(opts.take(i))
            + spec_render_checkbox_option(opts[i]));
    } else {
        let pre = opts.drop_last();
        lemma_checkbox_options_pointwise(pre, i);
        assert(pre.take(i) =~= opts.take(i));
        assert(pre.skip(i + 1) =~= opts.skip(i + 1).drop_last());
        assert(opts.skip(i + 1).last() == opts.last());
        assert((spec_render_checkbox_options(opts.take(i)) + spec_render_checkbox_option(opts[i])
            + spec_render_checkbox_options(opts.skip(i + 1).drop_last()))
            + spec_render_checkbox_option(opts.last()) =~= spec_render_checkbox_options(
            opts.take(i),
        ) + spec_render_checkbox_option(opts[i]) + (spec_render_checkbox_options(
            opts.skip(i + 1).drop_last(),
        ) + spec_render_checkbox_option(opts.skip(i + 1).last())));
    }
}

/// Law: the marker value is exactly "required" when validations are present
/// with the flag set, and exactly "optional" in every other case.
pub proof fn lemma_marker_value(v: Option<ValidationsV>)
    ensures
        (v matches Some(w) && w.required) ==> spec_marker(v) == "required"@,
        !(v matches Some(w) && w.required) ==> spec_marker(v) == "optional"@,
{
}

/// Law: a markdown field renders as its block HTML inside one div — no id
/// attribute, no heading, no required marker, whatever the content.
pub proof fn lemma_markdown_field_render(a: MarkdownAttributeV)
    ensures
        spec_render_field(BodyTypeV::Markdown { attributes: a })
            == "<div class=\"markdown-description\">"@ + md_block_of(a.value) + "</div>"@,
{
}

/// Law: a body entry whose `type` tag is none of the five known kinds
/// decodes to the unknown-field-type error carrying that tag; it is neither
/// dropped nor admitted.
pub proof fn lemma_unknown_field_type(es: Seq<(YamlV, YamlV)>, t: Seq<char>)
    requires
        obj_lookup(es, "type"@) == Some(YamlV::Str(t)),
        t != "checkboxes"@,
        t != "dropdown"@,
        t != "input"@,
        t != "markdown"@,
        t != "textarea"@,
    ensures
        spec_decode_field(YamlV::Obj(es)) == Err::<BodyTypeV, DecodeErrorV>(
            DecodeErrorV::UnknownFieldType(t),
        ),
{
}

/// Law: a dropdown entry's input type is "checkbox" exactly when the field
/// has `multiple` set and "radio" otherwise, and the name attribute of every
/// entry of the field is the same, derived from the field's id alone.
pub proof fn lemma_dropdown_option_input(id: Seq<char>, multiple: bool, opt: Seq<char>)
    ensures
        multiple ==> spec_dropdown_input_type(multiple) == "checkbox"@,
        !multiple ==> spec_dropdown_input_type(multiple) == "radio"@,
        spec_render_dropdown_option(id, multiple, opt)
            == "<label class=\"checkbox-label\"><input type=\""@ + spec_dropdown_input_type(
            multiple,
        ) + "\" name=\"issue-form["@ + escaped(id) + "]\" hidden value=\""@ + escaped(opt)
            + "\"><div class=\"checkmark\">\u{2713}</div><div>"@ + escaped(opt) + "</div></label>"@,
{
}


/// Law: the optional title is part of the schema but plays no part in
/// rendering: two forms that differ only in their title render alike.
pub proof fn lemma_title_ignored(f: FormV, t: Option<Seq<char>>)
    ensures
        spec_render_document((FormV { title: t, ..f })) == spec_render_document(f),
{
}

} // verus!
