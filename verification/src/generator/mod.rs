//! The language-neutral description of a field, and what an emitter offers.

use crate::text::strings_view;
use vstd::prelude::*;

pub mod typescript;

pub use typescript::TypescriptGenerator;

verus! {

/// What every kind of field carries. A kind reads only the parts that
/// concern it: `fields` belongs to groups, `block_types` to blocks,
/// `reference_to` to references and global fields, `enumeration` to texts
/// and numbers.
#[derive(Debug)]
pub struct FieldConfig {
    pub name: String,
    pub optional: bool,
    pub multiple: bool,
    pub description: Option<String>,
    pub enumeration: Option<Vec<String>>,
    pub reference_to: Vec<String>,
    pub fields: Vec<Field>,
    pub block_types: Option<Vec<(String, Vec<Field>)>>,
}

/// What is declared at the top level: a name, a description and fields.
#[derive(Debug)]
pub struct GenerateConfig {
    pub name: String,
    pub description: Option<String>,
    pub fields: Vec<Field>,
}

/// A field, tagged by the kind of data it holds.
#[derive(Debug)]
pub enum Field {
    Text(FieldConfig),
    Number(FieldConfig),
    Date(FieldConfig),
    Bool(FieldConfig),
    File(FieldConfig),
    Link(FieldConfig),
    Json(FieldConfig),
    Reference(FieldConfig),
    Global(FieldConfig),
    Blocks(FieldConfig),
    Group(FieldConfig),
}

/// The kinds of field.
pub enum FieldKind {
    Text,
    Number,
    Date,
    Bool,
    File,
    Link,
    Json,
    Reference,
    Global,
    Blocks,
    Group,
}

/// Mathematical value of a [`FieldConfig`].
pub struct FieldConfigView {
    pub name: Seq<char>,
    pub optional: bool,
    pub multiple: bool,
    pub description: Option<Seq<char>>,
    pub enumeration: Option<Seq<Seq<char>>>,
    pub reference_to: Seq<Seq<char>>,
    pub fields: Seq<FieldView>,
    pub block_types: Option<Seq<(Seq<char>, Seq<FieldView>)>>,
}

/// Mathematical value of a [`Field`]: its kind and what it carries.
pub struct FieldView {
    pub kind: FieldKind,
    pub config: FieldConfigView,
}

/// Mathematical value of a [`GenerateConfig`].
pub struct GenerateConfigView {
    pub name: Seq<char>,
    pub description: Option<Seq<char>>,
    pub fields: Seq<FieldView>,
}

/// The text of an optional string.
pub open spec fn text_view(s: Option<String>) -> Option<Seq<char>> {
    match s {
        Some(t) => Some(t@),
        None => None,
    }
}

/// The values of a sequence of fields.
pub open spec fn fields_view(v: Seq<Field>) -> Seq<FieldView>
    decreases v,
{
    Seq::new(
        v.len(),
        |i: int|
            if 0 <= i < v.len() {
                field_view(v[i])
            } else {
                arbitrary()
            },
    )
}

/// The values of a sequence of block variants.
pub open spec fn blocks_view(v: Seq<(String, Vec<Field>)>) -> Seq<(Seq<char>, Seq<FieldView>)>
    decreases v,
{
    Seq::new(
        v.len(),
        |i: int|
            if 0 <= i < v.len() {
                (v[i].0@, fields_view(v[i].1@))
            } else {
                arbitrary()
            },
    )
}

/// The value of what a field carries.
pub open spec fn config_view(c: FieldConfig) -> FieldConfigView
    decreases c,
{
    FieldConfigView {
        name: c.name@,
        optional: c.optional,
        multiple: c.multiple,
        description: text_view(c.description),
        enumeration: match c.enumeration {
            Some(e) => Some(strings_view(e@)),
            None => None,
        },
        reference_to: strings_view(c.reference_to@),
        fields: fields_view(c.fields@),
        block_types: match c.block_types {
            Some(b) => Some(blocks_view(b@)),
            None => None,
        },
    }
}

/// The value of a field.
pub open spec fn field_view(f: Field) -> FieldView
    decreases f,
{
    match f {
        Field::Text(c) => FieldView { kind: FieldKind::Text, config: config_view(c) },
        Field::Number(c) => FieldView { kind: FieldKind::Number, config: config_view(c) },
        Field::Date(c) => FieldView { kind: FieldKind::Date, config: config_view(c) },
        Field::Bool(c) => FieldView { kind: FieldKind::Bool, config: config_view(c) },
        Field::File(c) => FieldView { kind: FieldKind::File, config: config_view(c) },
        Field::Link(c) => FieldView { kind: FieldKind::Link, config: config_view(c) },
        Field::Json(c) => FieldView { kind: FieldKind::Json, config: config_view(c) },
        Field::Reference(c) => FieldView { kind: FieldKind::Reference, config: config_view(c) },
        Field::Global(c) => FieldView { kind: FieldKind::Global, config: config_view(c) },
        Field::Blocks(c) => FieldView { kind: FieldKind::Blocks, config: config_view(c) },
        Field::Group(c) => FieldView { kind: FieldKind::Group, config: config_view(c) },
    }
}

/// Adding a field at the end adds its value at the end.
pub proof fn lemma_fields_view_push(v: Seq<Field>, f: Field)
    ensures
        fields_view(v.push(f)) == fields_view(v).push(f@),
{
    assert(fields_view(v.push(f)) =~= fields_view(v).push(f@));
}

/// Adding a block variant at the end adds its value at the end.
pub proof fn lemma_blocks_view_push(v: Seq<(String, Vec<Field>)>, b: (String, Vec<Field>))
    ensures
        blocks_view(v.push(b)) == blocks_view(v).push((b.0@, fields_view(b.1@))),
{
    assert(blocks_view(v.push(b)) =~= blocks_view(v).push((b.0@, fields_view(b.1@))));
}

impl View for FieldConfig {
    type V = FieldConfigView;

    open spec fn view(&self) -> FieldConfigView {
        config_view(*self)
    }
}

impl View for Field {
    type V = FieldView;

    open spec fn view(&self) -> FieldView {
        field_view(*self)
    }
}

impl View for GenerateConfig {
    type V = GenerateConfigView;

    open spec fn view(&self) -> GenerateConfigView {
        GenerateConfigView {
            name: self.name@,
            description: text_view(self.description),
            fields: fields_view(self.fields@),
        }
    }
}

impl Default for FieldConfig {
    /// A field without a name, required and single, that carries nothing.
    fn default() -> (r: FieldConfig)
        ensures
            r@ == (FieldConfigView {
                name: Seq::empty(),
                optional: false,
                multiple: false,
                description: None,
                enumeration: None,
                reference_to: Seq::empty(),
                fields: Seq::empty(),
                block_types: None,
            }),
    {
        let r = FieldConfig {
            name: String::new(),
            optional: false,
            multiple: false,
            description: None,
            enumeration: None,
            reference_to: Vec::new(),
            fields: Vec::new(),
            block_types: None,
        };
        assert(r@.reference_to =~= Seq::empty());
        assert(r@.fields =~= Seq::empty());
        r
    }
}

/// An emitter of declarations in one target language. Each method for a kind
/// of field gives the line, or lines, that declare a field of that kind;
/// `generate_interface` gives a whole top-level declaration, and
/// `get_builtins` the declarations that the others rely on.
pub trait Generator {
    fn generate_text(&self, config: &FieldConfig) -> String;

    fn generate_number(&self, config: &FieldConfig) -> String;

    fn generate_date(&self, config: &FieldConfig) -> String;

    fn generate_bool(&self, config: &FieldConfig) -> String;

    fn generate_file(&self, config: &FieldConfig) -> String;

    fn generate_link(&self, config: &FieldConfig) -> String;

    fn generate_json(&self, config: &FieldConfig) -> String;

    fn generate_reference(&self, config: &FieldConfig) -> String;

    fn generate_global_field(&self, config: &FieldConfig) -> String;

    fn generate_blocks(&self, config: &FieldConfig) -> String;

    fn generate_group(&self, config: &FieldConfig) -> String;

    fn generate_interface(&self, config: &GenerateConfig) -> String;

    fn get_builtins(&self) -> String;
}

} // verus!
