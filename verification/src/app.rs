//! A run: from the schemas of a stack to the text of their declarations.

use crate::args::Args;
use crate::contentstack::response::{
    block_list_view, schemas_view, BlockView, ChoiceValue, ChoiceValueView, ContentType,
    DataType, EntryView, Enumeration, GlobalField, ReferenceTo, ReferenceToView, Schema,
    SchemaView,
};
use crate::contentstack::{
    base_url_of, missing_credential, Client, ClientView, ContentTypeResponse, ContentstackError,
    GlobalFieldResponse,
};
use crate::error::Error;
use crate::generator::typescript::{interface_text, BUILTINS};
use crate::generator::{
    blocks_view, fields_view, lemma_blocks_view_push, lemma_fields_view_push, text_view, Field,
    FieldConfig, FieldConfigView, FieldKind, FieldView, GenerateConfig, GenerateConfigView,
    Generator, TypescriptGenerator,
};
use crate::text::{decimal, decimal_text, lemma_strings_view_push, strings_view, trimmed};
use rayon::prelude::{IntoParallelRefIterator, ParallelIterator};
use vstd::prelude::*;

verus! {

/// The kind of field that stands for a kind of data.
pub open spec fn kind_of(data_type: DataType) -> FieldKind {
    match data_type {
        DataType::Text => FieldKind::Text,
        DataType::Number => FieldKind::Number,
        DataType::File => FieldKind::File,
        DataType::Reference => FieldKind::Reference,
        DataType::Date => FieldKind::Date,
        DataType::Boolean => FieldKind::Bool,
        DataType::Blocks => FieldKind::Blocks,
        DataType::Group => FieldKind::Group,
        DataType::GlobalField => FieldKind::Global,
        DataType::Link => FieldKind::Link,
        DataType::Json => FieldKind::Json,
    }
}

/// A choice as text: a text as it is, a number in base ten.
pub open spec fn choice_text(choice: ChoiceValueView) -> Seq<char> {
    match choice {
        ChoiceValueView::Text(t) => t,
        ChoiceValueView::Number(n) => decimal(n),
    }
}

/// The choices of an enumeration as texts, in order.
pub open spec fn choice_texts(choices: Seq<ChoiceValueView>) -> Seq<Seq<char>> {
    Seq::new(choices.len(), |i: int| choice_text(choices[i]))
}

/// The targets of a reference as a list: one name gives a list of one, a
/// list is taken as it is, and no target gives the empty list.
pub open spec fn targets_of(reference_to: Option<ReferenceToView>) -> Seq<Seq<char>> {
    match reference_to {
        Some(ReferenceToView::One(name)) => seq![name],
        Some(ReferenceToView::Many(names)) => names,
        None => Seq::empty(),
    }
}

/// Whether a node holds several values: it says so itself, or what is said
/// beside its shape does.
pub open spec fn holds_several(node: SchemaView) -> bool {
    node.multiple || (node.field_metadata matches Some(m) && m.ref_multiple == Some(true))
}

/// The description of a node, if it has one.
pub open spec fn description_of(node: SchemaView) -> Option<Seq<char>> {
    match node.field_metadata {
        Some(m) => m.description,
        None => None,
    }
}

/// What every kind of field takes from its node; the parts that belong to
/// single kinds are empty.
pub open spec fn shared_part(node: SchemaView) -> FieldConfigView {
    FieldConfigView {
        name: node.uid,
        optional: !node.mandatory,
        multiple: holds_several(node),
        description: description_of(node),
        enumeration: None,
        reference_to: Seq::empty(),
        fields: Seq::empty(),
        block_types: None,
    }
}

/// The field that stands for a schema node.
pub open spec fn converted(node: SchemaView) -> FieldView
    decreases node,
{
    let shared = shared_part(node);
    let config = match node.data_type {
        DataType::Text | DataType::Number => FieldConfigView {
            enumeration: match node.enumuration {
                Some(choices) => Some(choice_texts(choices)),
                None => None,
            },
            ..shared
        },
        DataType::Reference | DataType::GlobalField => FieldConfigView {
            reference_to: targets_of(node.reference_to),
            ..shared
        },
        DataType::Group => FieldConfigView {
            fields: match node.schema {
                Some(nested) => converted_all(nested),
                None => Seq::empty(),
            },
            ..shared
        },
        DataType::Blocks => FieldConfigView {
            block_types: Some(
                match node.blocks {
                    Some(blocks) => converted_blocks(blocks),
                    None => Seq::empty(),
                },
            ),
            ..shared
        },
        _ => shared,
    };
    FieldView { kind: kind_of(node.data_type), config }
}

/// The fields that stand for a list of schema nodes, in the same order.
pub open spec fn converted_all(nodes: Seq<SchemaView>) -> Seq<FieldView>
    decreases nodes,
{
    Seq::new(
        nodes.len(),
        |i: int|
            if 0 <= i < nodes.len() {
                converted(nodes[i])
            } else {
                arbitrary()
            },
    )
}

/// The variants of a blocks field, each with its name and its fields, in
/// the same order.
pub open spec fn converted_blocks(blocks: Seq<BlockView>) -> Seq<(Seq<char>, Seq<FieldView>)>
    decreases blocks,
{
    Seq::new(
        blocks.len(),
        |i: int|
            if 0 <= i < blocks.len() {
                (blocks[i].uid, converted_all(blocks[i].schema))
            } else {
                arbitrary()
            },
    )
}

/// What holds of the field of every node: it has the name of the node, it
/// is optional where the node is not mandatory, and it holds several values
/// where the node or what is said beside its shape says so. Its targets are a
/// list whatever the node gave, and a node of another kind has none. A group
/// without a nested schema has no fields, and blocks without variants have an
/// empty list of them.
pub proof fn lemma_converted_shape(node: SchemaView)
    ensures
        converted(node).kind == kind_of(node.data_type),
        converted(node).config.name == node.uid,
        converted(node).config.optional == !node.mandatory,
        converted(node).config.multiple == holds_several(node),
        converted(node).config.description == description_of(node),
        converted(node).config.enumeration is Some <==> (node.data_type is Text
            || node.data_type is Number) && node.enumuration is Some,
        converted(node).config.reference_to == if node.data_type is Reference
            || node.data_type is GlobalField {
            targets_of(node.reference_to)
        } else {
            Seq::empty()
        },
        !(node.data_type is Group && node.schema is Some) ==> converted(node).config.fields
            == Seq::<FieldView>::empty(),
        converted(node).config.block_types is Some <==> node.data_type is Blocks,
        node.data_type is Blocks && node.blocks is None ==> converted(node).config.block_types
            == Some(Seq::<(Seq<char>, Seq<FieldView>)>::empty()),
{
}

/// The declaration that a top-level schema asks for: its name, its
/// description and the fields that stand for its nodes.
pub open spec fn declaration_of(entry: EntryView) -> GenerateConfigView {
    GenerateConfigView {
        name: entry.uid,
        description: entry.description,
        fields: converted_all(entry.schema),
    }
}

/// The text that declares a top-level schema.
pub open spec fn rendered(prefix: Seq<char>, postfix: Seq<char>, entry: EntryView) -> Seq<char> {
    interface_text(prefix, postfix, declaration_of(entry))
}

/// The first `n` texts, each followed by a line feed.
pub open spec fn stacked(texts: Seq<Seq<char>>, n: int) -> Seq<char>
    decreases n,
{
    if 0 < n <= texts.len() {
        stacked(texts, n - 1) + texts[n - 1] + "\n"@
    } else {
        Seq::empty()
    }
}

/// The texts that declare the entries, in order.
pub open spec fn rendered_all(
    prefix: Seq<char>,
    postfix: Seq<char>,
    entries: Seq<EntryView>,
) -> Seq<Seq<char>> {
    Seq::new(entries.len(), |i: int| rendered(prefix, postfix, entries[i]))
}

/// The whole output: the built-in declarations and an empty line, then the
/// global fields in their order, then the content types in theirs, each
/// declaration followed by a line feed.
pub open spec fn output_text(
    prefix: Seq<char>,
    postfix: Seq<char>,
    global_fields: Seq<EntryView>,
    content_types: Seq<EntryView>,
) -> Seq<char> {
    BUILTINS@ + "\n"@ + stacked(
        rendered_all(prefix, postfix, global_fields),
        global_fields.len() as int,
    ) + stacked(rendered_all(prefix, postfix, content_types), content_types.len() as int)
}

/// For one global field and one content type the output is the built-in
/// declarations and an empty line, then the declaration of the global field,
/// then that of the content type, each followed by a line feed.
pub proof fn lemma_output_order(
    prefix: Seq<char>,
    postfix: Seq<char>,
    global_field: EntryView,
    content_type: EntryView,
)
    ensures
        output_text(prefix, postfix, seq![global_field], seq![content_type]) == BUILTINS@ + "\n"@
            + rendered(prefix, postfix, global_field) + "\n"@ + rendered(
            prefix,
            postfix,
            content_type,
        ) + "\n"@,
{
    let globals = rendered_all(prefix, postfix, seq![global_field]);
    let contents = rendered_all(prefix, postfix, seq![content_type]);
    assert(stacked(globals, 1) =~= rendered(prefix, postfix, global_field) + "\n"@) by {
        assert(stacked(globals, 0) =~= Seq::<char>::empty());
    }
    assert(stacked(contents, 1) =~= rendered(prefix, postfix, content_type) + "\n"@) by {
        assert(stacked(contents, 0) =~= Seq::<char>::empty());
    }
    assert(output_text(prefix, postfix, seq![global_field], seq![content_type]) =~= BUILTINS@
        + "\n"@ + rendered(prefix, postfix, global_field) + "\n"@ + rendered(
        prefix,
        postfix,
        content_type,
    ) + "\n"@);
}

/// rayon's `par_iter`, `map` and `collect` on a vector: `f` is applied to
/// every item, on whatever thread, and the results stand in the order of the
/// items.
#[verifier::external_body]
fn par_map<T: Sync, U: Send, F: Fn(&T) -> U + Sync + Send>(items: &Vec<T>, f: F) -> (r: Vec<U>)
    requires
        forall|i: int| 0 <= i < items.len() ==> call_requires(f, (&items[i],)),
    ensures
        r.len() == items.len(),
        forall|i: int| 0 <= i < items.len() ==> call_ensures(f, (&items[i],), #[trigger] r[i]),
{
    items.par_iter().map(f).collect()
}

/// The texts of results that all are successes, or else the first failure
/// in the order of the results.
pub fn in_order(results: Vec<Result<String, Error>>) -> (r: Result<Vec<String>, Error>)
    ensures
        match r {
            Ok(texts) => {
                &&& texts.len() == results.len()
                &&& forall|i: int|
                    0 <= i < results.len() ==> results[i] == Ok::<String, Error>(texts[i])
            },
            Err(e) => exists|k: int|
                {
                    &&& 0 <= k < results.len()
                    &&& results[k] == Err::<String, Error>(e)
                    &&& forall|j: int| 0 <= j < k ==> results[j] is Ok
                },
        },
{
    let mut texts: Vec<String> = Vec::new();
    for result in it: results.into_iter()
        invariant
            it.seq() == results@,
            texts.len() == it.index(),
            forall|i: int| 0 <= i < it.index() ==> results[i] == Ok::<String, Error>(texts[i]),
    {
        match result {
            Ok(text) => {
                texts.push(text);
            },
            Err(e) => {
                assert(results[it.index() as int] == Err::<String, Error>(e));
                return Err(e);
            },
        }
    }
    Ok(texts)
}

fn copy_text(text: &Option<String>) -> (r: Option<String>)
    ensures
        text_view(r) == text_view(*text),
{
    match text {
        Some(t) => Some(t.clone()),
        None => None,
    }
}

fn copy_texts(texts: &Vec<String>) -> (r: Vec<String>)
    ensures
        strings_view(r@) == strings_view(texts@),
{
    let mut r: Vec<String> = Vec::new();
    let mut i: usize = 0;
    while i < texts.len()
        invariant
            i <= texts.len(),
            strings_view(r@) == strings_view(texts@).take(i as int),
        decreases texts.len() - i,
    {
        let t = texts[i].clone();
        proof {
            lemma_strings_view_push(r@, t);
        }
        r.push(t);
        i += 1;
        assert(strings_view(r@) =~= strings_view(texts@).take(i as int));
    }
    assert(strings_view(texts@).take(texts.len() as int) =~= strings_view(texts@));
    r
}

fn choices_as_text(enumeration: &Option<Enumeration>) -> (r: Option<Vec<String>>)
    ensures
        match *enumeration {
            Some(e) => r is Some && strings_view(r->Some_0@) == choice_texts(e@),
            None => r is None,
        },
{
    match enumeration {
        Some(e) => {
            let mut r: Vec<String> = Vec::new();
            let mut i: usize = 0;
            while i < e.choices.len()
                invariant
                    i <= e.choices.len(),
                    strings_view(r@) == choice_texts(e@).take(i as int),
                decreases e.choices.len() - i,
            {
                let t = match &e.choices[i].value {
                    ChoiceValue::String(s) => s.clone(),
                    ChoiceValue::Number(n) => decimal_text(*n),
                };
                proof {
                    lemma_strings_view_push(r@, t);
                }
                r.push(t);
                i += 1;
                assert(strings_view(r@) =~= choice_texts(e@).take(i as int));
            }
            assert(choice_texts(e@).take(e.choices.len() as int) =~= choice_texts(e@));
            Some(r)
        },
        None => None,
    }
}

fn targets(reference_to: &Option<ReferenceTo>) -> (r: Vec<String>)
    ensures
        strings_view(r@) == targets_of(
            match *reference_to {
                Some(t) => Some(t@),
                None => None,
            },
        ),
{
    match reference_to {
        Some(ReferenceTo::String(name)) => {
            let mut r: Vec<String> = Vec::new();
            r.push(name.clone());
            assert(strings_view(r@) =~= seq![name@]);
            r
        },
        Some(ReferenceTo::Vec(names)) => copy_texts(names),
        None => {
            let r: Vec<String> = Vec::new();
            assert(strings_view(r@) =~= Seq::empty());
            r
        },
    }
}

/// Puts each text, followed by a line feed, at the end of `output`.
fn stack(output: &mut String, texts: &Vec<String>)
    ensures
        final(output)@ == old(output)@ + stacked(strings_view(texts@), texts.len() as int),
{
    let ghost start = output@;
    let mut i: usize = 0;
    assert(start + stacked(strings_view(texts@), 0) =~= start);
    while i < texts.len()
        invariant
            i <= texts.len(),
            output@ == start + stacked(strings_view(texts@), i as int),
        decreases texts.len() - i,
    {
        output.append(texts[i].as_str());
        output.append("\n");
        i += 1;
        assert(output@ =~= start + stacked(strings_view(texts@), i as int));
    }
}

/// An absent prefix or postfix is empty.
pub open spec fn affix(text: Option<String>) -> Seq<char> {
    match text {
        Some(t) => t@,
        None => Seq::empty(),
    }
}

/// Where the text of a run goes.
#[derive(Debug)]
pub enum Delivery {
    /// The text is written to the file at `path`, and `notice` is printed.
    File { path: String, content: String, notice: String },
    /// The text is printed.
    Print { content: String },
}

/// A run with its client, its arguments and its emitter.
pub struct App {
    client: Client,
    args: Args,
    generator: TypescriptGenerator,
}

impl App {
    /// The client of the run.
    pub closed spec fn client_spec(&self) -> Client {
        self.client
    }

    /// The arguments of the run.
    pub closed spec fn args_spec(&self) -> Args {
        self.args
    }

    /// The emitter of the run.
    pub closed spec fn generator_spec(&self) -> TypescriptGenerator {
        self.generator
    }

    /// What the emitter of the run puts before the name of a declaration.
    pub open spec fn prefix_text(&self) -> Seq<char> {
        self.generator_spec().prefix_text()
    }

    /// What the emitter of the run puts behind the name of a declaration.
    pub open spec fn postfix_text(&self) -> Seq<char> {
        self.generator_spec().postfix_text()
    }

    /// A run for the given arguments. It needs both credentials: where
    /// trimming leaves nothing of one, the failure names it.
    pub fn new(args: Args) -> (r: Result<App, Error>)
        ensures
            match r {
                Ok(app) => {
                    &&& missing_credential(args.api_key@, args.access_token@) is None
                    &&& app.args_spec() == args
                    &&& app.client_spec()@ == (ClientView {
                        api_key: trimmed(args.api_key@),
                        access_token: trimmed(args.access_token@),
                        base_url: base_url_of(args.region),
                    })
                    &&& app.prefix_text() == affix(args.prefix)
                    &&& app.postfix_text() == affix(args.postfix)
                },
                Err(e) => {
                    &&& e matches Error::Contentstack(inner)
                    &&& *inner matches ContentstackError::InvalidCredentials { field }
                    &&& missing_credential(args.api_key@, args.access_token@) == Some(field@)
                },
            },
    {
        let client = match Client::new(
            args.region,
            args.api_key.as_str(),
            args.access_token.as_str(),
        ) {
            Ok(client) => client,
            Err(e) => {
                return Err(Error::from(e));
            },
        };
        let generator = TypescriptGenerator::new(
            match &args.prefix {
                Some(p) => Some(p.as_str()),
                None => None,
            },
            match &args.postfix {
                Some(p) => Some(p.as_str()),
                None => None,
            },
        );
        Ok(App { client, args, generator })
    }

    /// The client of the run.
    pub fn client(&self) -> (r: &Client)
        ensures
            *r == self.client_spec(),
    {
        &self.client
    }

    /// The arguments of the run.
    pub fn args(&self) -> (r: &Args)
        ensures
            *r == self.args_spec(),
    {
        &self.args
    }

    /// The emitter of the run.
    pub fn generator(&self) -> (r: &TypescriptGenerator)
        ensures
            *r == self.generator_spec(),
    {
        &self.generator
    }

    /// Where `content` goes: to the file that the arguments name, with a
    /// notice that says so, or else to the standard output.
    pub fn delivery(&self, content: &str) -> (r: Delivery)
        ensures
            match self.args_spec().output {
                Some(wanted) => {
                    &&& r matches Delivery::File { path, content: written, notice }
                    &&& path@ == wanted@
                    &&& written@ == content@
                    &&& notice@ == "TypeScript types written to: "@ + wanted@
                },
                None => r matches Delivery::Print { content: printed } && printed@ == content@,
            },
    {
        match &self.args.output {
            Some(path) => {
                let mut notice = String::from_str("TypeScript types written to: ");
                notice.append(path.as_str());
                Delivery::File { path: path.clone(), content: String::from_str(content), notice }
            },
            None => Delivery::Print { content: String::from_str(content) },
        }
    }

    /// The text that declares one top-level schema.
    pub fn render_entry(
        &self,
        uid: &String,
        description: &Option<String>,
        schema: &Vec<Schema>,
    ) -> (r: Result<String, Error>)
        ensures
            r matches Ok(text) && text@ == rendered(
                self.prefix_text(),
                self.postfix_text(),
                EntryView {
                    uid: uid@,
                    description: text_view(*description),
                    schema: schemas_view(schema@),
                },
            ),
    {
        let fields = match self.convert_schema_to_fields(schema) {
            Ok(fields) => fields,
            Err(e) => {
                return Err(e);
            },
        };
        let config = GenerateConfig {
            name: uid.clone(),
            description: copy_text(description),
            fields,
        };
        Ok(self.generator.generate_interface(&config))
    }

    /// The whole output for the schemas of a stack: the built-in
    /// declarations, then the global fields, then the content types, each
    /// list in its own order. The declarations are worked out side by side.
    pub fn generate_typescript(
        &self,
        content_types: &ContentTypeResponse,
        global_fields: &GlobalFieldResponse,
    ) -> (r: Result<String, Error>)
        ensures
            r matches Ok(text) && text@ == output_text(
                self.prefix_text(),
                self.postfix_text(),
                global_fields@,
                content_types@,
            ),
    {
        let ghost prefix = self.prefix_text();
        let ghost postfix = self.postfix_text();
        let mut output = String::new();
        output.append(self.generator.get_builtins().as_str());
        output.append("\n");

        let render_global = |entry: &GlobalField| -> (r: Result<String, Error>)
            ensures
                r matches Ok(text) && text@ == rendered(
                    self.prefix_text(),
                    self.postfix_text(),
                    entry@,
                ),
            { self.render_entry(&entry.uid, &entry.description, &entry.schema) };
        let results = par_map(&global_fields.global_fields, render_global);
        let global_interfaces = match in_order(results) {
            Ok(texts) => texts,
            Err(e) => {
                return Err(e);
            },
        };
        assert(strings_view(global_interfaces@) =~= rendered_all(
            prefix,
            postfix,
            global_fields@,
        )) by {
            assert forall|i: int| 0 <= i < global_interfaces.len() implies global_interfaces[i]@
                == rendered(prefix, postfix, global_fields@[i]) by {
                assert(results[i] is Ok);
            }
        }
        stack(&mut output, &global_interfaces);

        let render_content = |entry: &ContentType| -> (r: Result<String, Error>)
            ensures
                r matches Ok(text) && text@ == rendered(
                    self.prefix_text(),
                    self.postfix_text(),
                    entry@,
                ),
            { self.render_entry(&entry.uid, &entry.description, &entry.schema) };
        let results = par_map(&content_types.content_types, render_content);
        let content_interfaces = match in_order(results) {
            Ok(texts) => texts,
            Err(e) => {
                return Err(e);
            },
        };
        assert(strings_view(content_interfaces@) =~= rendered_all(
            prefix,
            postfix,
            content_types@,
        )) by {
            assert forall|i: int| 0 <= i < content_interfaces.len() implies content_interfaces[i]@
                == rendered(prefix, postfix, content_types@[i]) by {
                assert(results[i] is Ok);
            }
        }
        stack(&mut output, &content_interfaces);

        Ok(output)
    }

    /// The fields that stand for the nodes of a schema, in the same order.
    pub fn convert_schema_to_fields(&self, schema: &Vec<Schema>) -> (r: Result<Vec<Field>, Error>)
        ensures
            r matches Ok(fields) && fields_view(fields@) == converted_all(schemas_view(schema@)),
        decreases schema,
    {
        let mut fields: Vec<Field> = Vec::new();
        let mut i: usize = 0;
        while i < schema.len()
            invariant
                i <= schema.len(),
                fields_view(fields@) == converted_all(schemas_view(schema@)).take(i as int),
            decreases schema.len() - i,
        {
            let converted_field = match self.convert_field(&schema[i]) {
                Ok(f) => f,
                Err(e) => {
                    return Err(e);
                },
            };
            proof {
                let all = converted_all(schemas_view(schema@));
                lemma_fields_view_push(fields@, converted_field);
                assert(all[i as int] == converted(schema@[i as int]@));
                assert(all.take(i + 1) =~= all.take(i as int).push(all[i as int]));
            }
            fields.push(converted_field);
            i += 1;
        }
        assert(converted_all(schemas_view(schema@)).take(schema.len() as int) =~= converted_all(
            schemas_view(schema@),
        ));
        Ok(fields)
    }

    /// The field that stands for a schema node. Every node has one.
    pub fn convert_field(&self, field: &Schema) -> (r: Result<Field, Error>)
        ensures
            r matches Ok(f) && f@ == converted(field@),
        decreases field,
    {
        let multiple = field.multiple || match &field.field_metadata {
            Some(m) => match m.ref_multiple {
                Some(b) => b,
                None => false,
            },
            None => false,
        };
        let description = match &field.field_metadata {
            Some(m) => copy_text(&m.description),
            None => None,
        };
        let mut config = FieldConfig {
            name: field.uid.clone(),
            optional: !field.mandatory,
            multiple,
            description,
            enumeration: None,
            reference_to: Vec::new(),
            fields: Vec::new(),
            block_types: None,
        };
        proof {
            assert(config@.reference_to =~= Seq::empty());
            assert(config@.fields =~= Seq::empty());
            assert(config@.description == description_of(field@));
            assert(config@ == shared_part(field@));
        }
        let converted_field = match field.data_type {
            DataType::Text => {
                config.enumeration = choices_as_text(&field.enumuration);
                Field::Text(config)
            },
            DataType::Number => {
                config.enumeration = choices_as_text(&field.enumuration);
                Field::Number(config)
            },
            DataType::Boolean => Field::Bool(config),
            DataType::Date => Field::Date(config),
            DataType::File => Field::File(config),
            DataType::Link => Field::Link(config),
            DataType::Json => Field::Json(config),
            DataType::Reference => {
                config.reference_to = targets(&field.reference_to);
                Field::Reference(config)
            },
            DataType::GlobalField => {
                config.reference_to = targets(&field.reference_to);
                Field::Global(config)
            },
            DataType::Group => {
                if let Some(nested_schema) = &field.schema {
                    config.fields = match self.convert_schema_to_fields(nested_schema) {
                        Ok(fields) => fields,
                        Err(e) => {
                            return Err(e);
                        },
                    };
                }
                Field::Group(config)
            },
            DataType::Blocks => {
                let mut block_types: Vec<(String, Vec<Field>)> = Vec::new();
                if let Some(blocks) = &field.blocks {
                    let mut i: usize = 0;
                    while i < blocks.len()
                        invariant
                            i <= blocks.len(),
                            field.blocks is Some,
                            *blocks == field.blocks->Some_0,
                            blocks_view(block_types@) == converted_blocks(
                                block_list_view(blocks@),
                            ).take(i as int),
                        decreases blocks.len() - i,
                    {
                        let block = &blocks[i];
                        let converted_fields = match self.convert_schema_to_fields(
                            &block.schema,
                        ) {
                            Ok(fields) => fields,
                            Err(e) => {
                                return Err(e);
                            },
                        };
                        let variant = (block.uid.clone(), converted_fields);
                        proof {
                            let all = converted_blocks(block_list_view(blocks@));
                            lemma_blocks_view_push(block_types@, variant);
                            assert(block_list_view(blocks@)[i as int] == blocks@[i as int]@);
                            assert(all[i as int] == (variant.0@, fields_view(variant.1@)));
                            assert(all.take(i + 1) =~= all.take(i as int).push(all[i as int]));
                        }
                        block_types.push(variant);
                        i += 1;
                    }
                    assert(converted_blocks(block_list_view(blocks@)).take(blocks.len() as int)
                        =~= converted_blocks(block_list_view(blocks@)));
                } else {
                    assert(blocks_view(block_types@) =~= Seq::empty());
                }
                config.block_types = Some(block_types);
                Field::Blocks(config)
            },
        };
        assert(converted_field@.config =~= converted(field@).config);
        Ok(converted_field)
    }
}

} // verus!
