//! TypeScript declarations for fields and for top-level schemas.

use crate::generator::{
    blocks_view, fields_view, Field, FieldConfig, FieldConfigView, FieldKind, FieldView,
    GenerateConfig, GenerateConfigView, Generator,
};
use crate::naming::{normalize, pascal_case};
use crate::text::{
    indent_lines, indented, join, joined, lemma_strings_view_push, strings_view, trim, trimmed,
};
use vstd::prelude::*;

verus! {

/// `t` as the type of one value or, where `multiple`, of a list of values.
pub open spec fn array_of(multiple: bool, t: Seq<char>) -> Seq<char> {
    if multiple {
        "Array<"@ + t + ">"@
    } else {
        t
    }
}

/// The comment line for a description: none where there is no description
/// or where trimming leaves nothing of it, else the description as it stands
/// between the comment marks.
pub open spec fn doc_comment(description: Option<Seq<char>>) -> Seq<char> {
    match description {
        Some(d) => if trimmed(d).len() == 0 {
            Seq::empty()
        } else {
            "/** "@ + d + " */\n"@
        },
        None => Seq::empty(),
    }
}

/// The mark of a field that may be absent.
pub open spec fn optional_marker(optional: bool) -> Seq<char> {
    if optional {
        "?"@
    } else {
        Seq::empty()
    }
}

/// What stands before the type of a field: its comment, its name, the mark
/// of an optional field, and a colon.
pub open spec fn field_head(c: FieldConfigView) -> Seq<char> {
    doc_comment(c.description) + c.name + optional_marker(c.optional) + ": "@
}

/// Each choice between single quotes.
pub open spec fn quoted(choices: Seq<Seq<char>>) -> Seq<Seq<char>> {
    Seq::new(choices.len(), |i: int| "'"@ + choices[i] + "'"@)
}

/// The type of a text: the union of its choices as literals, or `string`.
pub open spec fn text_type(enumeration: Option<Seq<Seq<char>>>) -> Seq<char> {
    match enumeration {
        Some(choices) => joined(quoted(choices), " | "@),
        None => "string"@,
    }
}

/// The type of a number: the union of its choices as they stand, or
/// `number`.
pub open spec fn number_type(enumeration: Option<Seq<Seq<char>>>) -> Seq<char> {
    match enumeration {
        Some(choices) => joined(choices, " | "@),
        None => "number"@,
    }
}

/// What a reference to the content type `name` may hold: an entry of that
/// type, or a stub that names the type and the entry.
pub open spec fn reference_member(name: Seq<char>) -> Seq<char> {
    pascal_case(name) + " | { _content_type_uid: '"@ + name + "'; uid: string; }"@
}

/// The type of a reference: `any` without targets, else the union of what
/// each target may hold.
pub open spec fn reference_type(targets: Seq<Seq<char>>) -> Seq<char> {
    if targets.len() == 0 {
        "any"@
    } else {
        joined(Seq::new(targets.len(), |i: int| reference_member(targets[i])), " | "@)
    }
}

/// The type of a global field: `any` without targets, else the union of the
/// type names of its targets.
pub open spec fn global_type(targets: Seq<Seq<char>>) -> Seq<char> {
    if targets.len() == 0 {
        "any"@
    } else {
        joined(Seq::new(targets.len(), |i: int| pascal_case(targets[i])), " | "@)
    }
}

/// Whether the type of a field is a list: blocks always are, the other kinds
/// where the field holds several values.
pub open spec fn is_list(f: FieldView) -> bool {
    f.kind is Blocks || f.config.multiple
}

/// The type of one value of the field.
pub open spec fn item_type(f: FieldView) -> Seq<char>
    decreases f, 0int,
{
    let c = f.config;
    match f.kind {
        FieldKind::Text => text_type(c.enumeration),
        FieldKind::Number => number_type(c.enumeration),
        FieldKind::Date => "string"@,
        FieldKind::Bool => "boolean"@,
        FieldKind::File => "ContentstackFile"@,
        FieldKind::Link => "ContentstackLink"@,
        FieldKind::Json => "ContentstackJson"@,
        FieldKind::Reference => reference_type(c.reference_to),
        FieldKind::Global => global_type(c.reference_to),
        FieldKind::Group => if c.fields.len() == 0 {
            "any"@
        } else {
            "{\n"@ + members(c.fields, c.fields.len() as int, "  "@) + "}"@
        },
        FieldKind::Blocks => match c.block_types {
            Some(variants) => if variants.len() == 0 {
                "any"@
            } else {
                "{\n"@ + variant_members(variants, variants.len() as int) + "}"@
            },
            None => "any"@,
        },
    }
}

/// The type of the field: the type of one value, made a list once where the
/// field is one.
pub open spec fn field_type(f: FieldView) -> Seq<char>
    decreases f, 1int,
{
    array_of(is_list(f), item_type(f))
}

/// The declaration of a field: head, type and a semicolon.
pub open spec fn field_line(f: FieldView) -> Seq<char>
    decreases f, 2int,
{
    field_head(f.config) + field_type(f) + ";"@
}

/// The declarations of the first `n` fields, each line of each behind `pad`.
pub open spec fn members(fields: Seq<FieldView>, n: int, pad: Seq<char>) -> Seq<char>
    decreases fields, n,
{
    if 0 < n <= fields.len() {
        members(fields, n - 1, pad) + indented(field_line(fields[n - 1]), pad)
    } else {
        Seq::empty()
    }
}

/// The first `n` block variants, each as a property named after the variant
/// whose type is the record of the variant's fields.
pub open spec fn variant_members(variants: Seq<(Seq<char>, Seq<FieldView>)>, n: int) -> Seq<char>
    decreases variants, n,
{
    if 0 < n <= variants.len() {
        let v = variants[n - 1];
        variant_members(variants, n - 1) + "  "@ + v.0 + ": {\n"@ + members(
            v.1,
            v.1.len() as int,
            "    "@,
        ) + "  };\n"@
    } else {
        Seq::empty()
    }
}

/// The field `f` as an optional or as a required one.
pub open spec fn with_optional(f: FieldView, optional: bool) -> FieldView {
    FieldView { kind: f.kind, config: FieldConfigView { optional, ..f.config } }
}

/// The field `f` as one of several values or of a single value.
pub open spec fn with_multiple(f: FieldView, multiple: bool) -> FieldView {
    FieldView { kind: f.kind, config: FieldConfigView { multiple, ..f.config } }
}

/// The question mark stands between the name and the colon of an optional
/// field, and nothing stands there for a required one, whatever the kind of
/// the field, its choices, or the number of values it holds; the rest of the
/// declaration is the same for both.
pub proof fn lemma_optional_marker(f: FieldView)
    ensures
        field_line(with_optional(f, true)) == doc_comment(f.config.description) + f.config.name
            + "?"@ + ": "@ + field_type(f) + ";"@,
        field_line(with_optional(f, false)) == doc_comment(f.config.description) + f.config.name
            + ": "@ + field_type(f) + ";"@,
{
    assert(item_type(with_optional(f, true)) == item_type(f));
    assert(item_type(with_optional(f, false)) == item_type(f));
    assert(f.config.name + Seq::<char>::empty() =~= f.config.name);
}

/// The type of a field of several values is `Array<..>` around the type of
/// the same field with a single value, for every kind but blocks.
pub proof fn lemma_multiple_wraps_once(f: FieldView)
    requires
        !(f.kind is Blocks),
    ensures
        field_type(with_multiple(f, true)) == "Array<"@ + field_type(with_multiple(f, false))
            + ">"@,
{
    assert(item_type(with_multiple(f, true)) == item_type(with_multiple(f, false)));
}

/// The type of a blocks field is a list whether or not the field is said to
/// hold several values.
pub proof fn lemma_blocks_always_list(f: FieldView, multiple: bool)
    requires
        f.kind is Blocks,
    ensures
        field_type(with_multiple(f, multiple)) == "Array<"@ + item_type(f) + ">"@,
{
    assert(item_type(with_multiple(f, multiple)) == item_type(f));
}

/// The declarations that generated types refer to: an asset, the details of
/// a publication, a link, and an open record.
pub const BUILTINS: &'static str = "export interface ContentstackFile {
  uid: string;
  created_at: string;
  updated_at: string;
  created_by: string;
  updated_by: string;
  content_type: string;
  file_size: string;
  tags: string[];
  filename: string;
  url: string;
  ACL: any[] | object;
  is_dir: boolean;
  parent_uid: string;
  _version: number;
  title: string;
  _metadata?: object;
  description?: string;
  dimension?: {
    height: number;
    width: number;
  };
  publish_details: PublishDetails;
}

export interface PublishDetails {
  environment: string;
  locale: string;
  time: string;
  user: string;
}

export interface ContentstackLink {
  title: string;
  href: string;
}

export interface ContentstackJson {
  [key: string]: any;
}
";

/// The name under which a top-level schema is declared.
pub open spec fn declared_name(prefix: Seq<char>, name: Seq<char>, postfix: Seq<char>) -> Seq<
    char,
> {
    prefix + pascal_case(name) + postfix
}

/// The declaration of a top-level schema: its comment, the exported
/// interface under its declared name, the property that tells its content
/// type, and its fields, each line indented once.
pub open spec fn interface_text(
    prefix: Seq<char>,
    postfix: Seq<char>,
    g: GenerateConfigView,
) -> Seq<char> {
    doc_comment(g.description) + "export interface "@ + declared_name(prefix, g.name, postfix)
        + " {\n"@ + "  _content_type_uid: '"@ + g.name + "'\n"@ + members(
        g.fields,
        g.fields.len() as int,
        "  "@,
    ) + "}"@
}

/// Emits TypeScript. The prefix and the postfix go around the names of
/// top-level declarations and nowhere else.
pub struct TypescriptGenerator {
    prefix: String,
    postfix: String,
}

impl TypescriptGenerator {
    /// What is put before the name of a top-level declaration.
    pub closed spec fn prefix_text(&self) -> Seq<char> {
        self.prefix@
    }

    /// What is put behind the name of a top-level declaration.
    pub closed spec fn postfix_text(&self) -> Seq<char> {
        self.postfix@
    }

    /// The type name for a content type or a global field.
    pub fn get_type_name(&self, name: &str) -> (r: String)
        ensures
            r@ == pascal_case(name@),
    {
        self.to_pascal_case(name)
    }

    /// The type as it is, or as a list where `multiple` holds.
    pub fn get_mulitple_marker(&self, multiple: bool, content_type: &str) -> (r: String)
        ensures
            r@ == array_of(multiple, content_type@),
    {
        if multiple {
            let mut r = String::from_str("Array<");
            r.append(content_type);
            r.append(">");
            r
        } else {
            String::from_str(content_type)
        }
    }

    /// The words of `s`, capitalised and put together.
    pub fn to_pascal_case(&self, s: &str) -> (r: String)
        ensures
            r@ == pascal_case(s@),
    {
        normalize(s)
    }

    /// The comment line for a description, or nothing.
    pub fn get_jsdoc(&self, s: Option<&str>) -> (r: String)
        ensures
            r@ == doc_comment(
                match s {
                    Some(d) => Some(d@),
                    None => None,
                },
            ),
    {
        match s {
            Some(docs) => {
                if trim(docs).is_empty() {
                    String::new()
                } else {
                    let mut r = String::from_str("/** ");
                    r.append(docs);
                    r.append(" */\n");
                    r
                }
            },
            None => String::new(),
        }
    }

    /// An emitter with the given prefix and postfix; an absent one is empty.
    pub fn new(prefix: Option<&str>, postfix: Option<&str>) -> (r: Self)
        ensures
            r.prefix_text() == match prefix {
                Some(p) => p@,
                None => Seq::empty(),
            },
            r.postfix_text() == match postfix {
                Some(p) => p@,
                None => Seq::empty(),
            },
    {
        let prefix = match prefix {
            Some(p) => String::from_str(p),
            None => String::new(),
        };
        let postfix = match postfix {
            Some(p) => String::from_str(p),
            None => String::new(),
        };
        TypescriptGenerator { prefix, postfix }
    }

    /// What stands before the type in the declaration of a field.
    pub fn _generate_field_type(&self, config: &FieldConfig) -> (r: String)
        ensures
            r@ == field_head(config@),
    {
        let mut r = match &config.description {
            Some(d) => self.get_jsdoc(Some(d.as_str())),
            None => self.get_jsdoc(None),
        };
        r.append(config.name.as_str());
        if config.optional {
            r.append("?");
        }
        r.append(": ");
        assert(r@ =~= field_head(config@));
        r
    }

    /// The declaration of a field whose single value has the type
    /// `item_type`.
    fn declare(&self, config: &FieldConfig, list: bool, item_type: &str) -> (r: String)
        ensures
            r@ == field_head(config@) + array_of(list, item_type@) + ";"@,
    {
        let mut r = self._generate_field_type(config);
        let t = self.get_mulitple_marker(list, item_type);
        r.append(t.as_str());
        r.append(";");
        r
    }

    /// The declaration of a field of any kind.
    pub fn generate_field(&self, field: &Field) -> (r: String)
        ensures
            r@ == field_line(field@),
        decreases field,
    {
        match field {
            Field::Text(config) => self.generate_text(config),
            Field::Number(config) => self.generate_number(config),
            Field::Date(config) => self.generate_date(config),
            Field::Bool(config) => self.generate_bool(config),
            Field::File(config) => self.generate_file(config),
            Field::Link(config) => self.generate_link(config),
            Field::Json(config) => self.generate_json(config),
            Field::Reference(config) => self.generate_reference(config),
            Field::Global(config) => self.generate_global_field(config),
            Field::Blocks(config) => self.generate_blocks(config),
            Field::Group(config) => self.generate_group(config),
        }
    }

    /// The declarations of `fields`, each line of each behind `pad`.
    fn generate_members(&self, fields: &Vec<Field>, pad: &str) -> (r: String)
        ensures
            r@ == members(fields_view(fields@), fields.len() as int, pad@),
        decreases fields,
    {
        let mut r = String::new();
        let mut i: usize = 0;
        while i < fields.len()
            invariant
                i <= fields.len(),
                r@ == members(fields_view(fields@), i as int, pad@),
            decreases fields.len() - i,
        {
            let line = self.generate_field(&fields[i]);
            let block = indent_lines(line.as_str(), pad);
            r.append(block.as_str());
            i += 1;
        }
        r
    }
}

impl Generator for TypescriptGenerator {
    /// A text is `string`, or one of its choices as literals.
    fn generate_text(&self, config: &FieldConfig) -> (r: String)
        ensures
            r@ == field_line(FieldView { kind: FieldKind::Text, config: config@ }),
    {
        let item = match &config.enumeration {
            Some(choices) => {
                let mut literals: Vec<String> = Vec::new();
                let mut i: usize = 0;
                while i < choices.len()
                    invariant
                        i <= choices.len(),
                        strings_view(literals@) == quoted(strings_view(choices@)).take(i as int),
                    decreases choices.len() - i,
                {
                    let mut literal = String::from_str("'");
                    literal.append(choices[i].as_str());
                    literal.append("'");
                    proof {
                        lemma_strings_view_push(literals@, literal);
                    }
                    literals.push(literal);
                    i += 1;
                    assert(strings_view(literals@) =~= quoted(strings_view(choices@)).take(
                        i as int,
                    ));
                }
                assert(strings_view(literals@) =~= quoted(strings_view(choices@)));
                join(&literals, " | ")
            },
            None => String::from_str("string"),
        };
        self.declare(config, config.multiple, item.as_str())
    }

    /// A number is `number`, or one of its choices.
    fn generate_number(&self, config: &FieldConfig) -> (r: String)
        ensures
            r@ == field_line(FieldView { kind: FieldKind::Number, config: config@ }),
    {
        let item = match &config.enumeration {
            Some(choices) => join(choices, " | "),
            None => String::from_str("number"),
        };
        self.declare(config, config.multiple, item.as_str())
    }

    /// A date is the string that holds it.
    fn generate_date(&self, config: &FieldConfig) -> (r: String)
        ensures
            r@ == field_line(FieldView { kind: FieldKind::Date, config: config@ }),
    {
        self.declare(config, config.multiple, "string")
    }

    /// A truth value is `boolean`.
    fn generate_bool(&self, config: &FieldConfig) -> (r: String)
        ensures
            r@ == field_line(FieldView { kind: FieldKind::Bool, config: config@ }),
    {
        self.declare(config, config.multiple, "boolean")
    }

    /// A file is an asset.
    fn generate_file(&self, config: &FieldConfig) -> (r: String)
        ensures
            r@ == field_line(FieldView { kind: FieldKind::File, config: config@ }),
    {
        self.declare(config, config.multiple, "ContentstackFile")
    }

    /// A link is a title with an address.
    fn generate_link(&self, config: &FieldConfig) -> (r: String)
        ensures
            r@ == field_line(FieldView { kind: FieldKind::Link, config: config@ }),
    {
        self.declare(config, config.multiple, "ContentstackLink")
    }

    /// Free-form data is an open record.
    fn generate_json(&self, config: &FieldConfig) -> (r: String)
        ensures
            r@ == field_line(FieldView { kind: FieldKind::Json, config: config@ }),
    {
        self.declare(config, config.multiple, "ContentstackJson")
    }

    /// A reference holds an entry of one of its targets, or a stub of one.
    fn generate_reference(&self, config: &FieldConfig) -> (r: String)
        ensures
            r@ == field_line(FieldView { kind: FieldKind::Reference, config: config@ }),
    {
        let targets = &config.reference_to;
        if targets.len() == 0 {
            self.declare(config, config.multiple, "any")
        } else {
            let ghost wanted = Seq::new(
                targets@.len(),
                |i: int| reference_member(strings_view(targets@)[i]),
            );
            let mut parts: Vec<String> = Vec::new();
            let mut i: usize = 0;
            while i < targets.len()
                invariant
                    i <= targets.len(),
                    wanted == Seq::new(
                        targets@.len(),
                        |i: int| reference_member(strings_view(targets@)[i]),
                    ),
                    strings_view(parts@) == wanted.take(i as int),
                decreases targets.len() - i,
            {
                let mut part = self.get_type_name(targets[i].as_str());
                part.append(" | { _content_type_uid: '");
                part.append(targets[i].as_str());
                part.append("'; uid: string; }");
                proof {
                    lemma_strings_view_push(parts@, part);
                }
                parts.push(part);
                i += 1;
                assert(strings_view(parts@) =~= wanted.take(i as int));
            }
            assert(strings_view(parts@) =~= wanted);
            let item = join(&parts, " | ");
            self.declare(config, config.multiple, item.as_str())
        }
    }

    /// A global field holds what one of its targets declares.
    fn generate_global_field(&self, config: &FieldConfig) -> (r: String)
        ensures
            r@ == field_line(FieldView { kind: FieldKind::Global, config: config@ }),
    {
        let targets = &config.reference_to;
        if targets.len() == 0 {
            self.declare(config, config.multiple, "any")
        } else {
            let ghost wanted = Seq::new(
                targets@.len(),
                |i: int| pascal_case(strings_view(targets@)[i]),
            );
            let mut parts: Vec<String> = Vec::new();
            let mut i: usize = 0;
            while i < targets.len()
                invariant
                    i <= targets.len(),
                    wanted == Seq::new(
                        targets@.len(),
                        |i: int| pascal_case(strings_view(targets@)[i]),
                    ),
                    strings_view(parts@) == wanted.take(i as int),
                decreases targets.len() - i,
            {
                let part = self.get_type_name(targets[i].as_str());
                proof {
                    lemma_strings_view_push(parts@, part);
                }
                parts.push(part);
                i += 1;
                assert(strings_view(parts@) =~= wanted.take(i as int));
            }
            assert(strings_view(parts@) =~= wanted);
            let item = join(&parts, " | ");
            self.declare(config, config.multiple, item.as_str())
        }
    }

    /// Blocks are a list of records with one property for each variant.
    fn generate_blocks(&self, config: &FieldConfig) -> (r: String)
        ensures
            r@ == field_line(FieldView { kind: FieldKind::Blocks, config: config@ }),
        decreases config,
    {
        match &config.block_types {
            Some(variants) => {
                if variants.len() == 0 {
                    self.declare(config, true, "any")
                } else {
                    let mut item = String::from_str("{\n");
                    let ghost shapes = blocks_view(variants@);
                    let mut i: usize = 0;
                    while i < variants.len()
                        invariant
                            i <= variants.len(),
                            config.block_types is Some,
                            *variants == config.block_types->Some_0,
                            shapes == blocks_view(variants@),
                            item@ == "{\n"@ + variant_members(shapes, i as int),
                        decreases variants.len() - i,
                    {
                        let variant = &variants[i];
                        let inner = self.generate_members(&variant.1, "    ");
                        item.append("  ");
                        item.append(variant.0.as_str());
                        item.append(": {\n");
                        item.append(inner.as_str());
                        item.append("  };\n");
                        i += 1;
                        assert(item@ =~= "{\n"@ + variant_members(shapes, i as int));
                    }
                    item.append("}");
                    self.declare(config, true, item.as_str())
                }
            },
            None => self.declare(config, true, "any"),
        }
    }

    /// A group is the record of its fields, or `any` where it has none.
    fn generate_group(&self, config: &FieldConfig) -> (r: String)
        ensures
            r@ == field_line(FieldView { kind: FieldKind::Group, config: config@ }),
        decreases config,
    {
        if config.fields.len() == 0 {
            self.declare(config, config.multiple, "any")
        } else {
            let inner = self.generate_members(&config.fields, "  ");
            let mut item = String::from_str("{\n");
            item.append(inner.as_str());
            item.append("}");
            self.declare(config, config.multiple, item.as_str())
        }
    }

    /// The declaration of a top-level schema.
    fn generate_interface(&self, config: &GenerateConfig) -> (r: String)
        ensures
            r@ == interface_text(self.prefix_text(), self.postfix_text(), config@),
    {
        let mut r = match &config.description {
            Some(d) => self.get_jsdoc(Some(d.as_str())),
            None => self.get_jsdoc(None),
        };
        let declared = self.get_type_name(config.name.as_str());
        let inner = self.generate_members(&config.fields, "  ");
        r.append("export interface ");
        r.append(self.prefix.as_str());
        r.append(declared.as_str());
        r.append(self.postfix.as_str());
        r.append(" {\n");
        r.append("  _content_type_uid: '");
        r.append(config.name.as_str());
        r.append("'\n");
        r.append(inner.as_str());
        r.append("}");
        assert(r@ =~= interface_text(self.prefix_text(), self.postfix_text(), config@));
        r
    }

    /// The declarations that the generated ones rely on.
    fn get_builtins(&self) -> (r: String)
        ensures
            r@ == BUILTINS@,
    {
        String::from_str(BUILTINS)
    }
}

} // verus!
