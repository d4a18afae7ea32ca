//! The schema of a stack as the content delivery API describes it.

use crate::text::strings_view;
use vstd::prelude::*;

verus! {

/// The answer to a request for all content types.
#[derive(Debug)]
pub struct ContentTypeResponse {
    pub content_types: Vec<ContentType>,
}

/// The answer to a request for all global fields.
#[derive(Debug)]
pub struct GlobalFieldResponse {
    pub global_fields: Vec<GlobalField>,
}

/// A reusable group of fields.
#[derive(Debug)]
pub struct GlobalField {
    pub uid: String,
    pub description: Option<String>,
    pub schema: Vec<Schema>,
}

/// The shape of one kind of entry.
#[derive(Debug)]
pub struct ContentType {
    pub uid: String,
    pub description: Option<String>,
    pub schema: Vec<Schema>,
}

/// The kinds of data a schema node can hold.
#[derive(Debug)]
pub enum DataType {
    Text,
    Number,
    File,
    Reference,
    Date,
    Boolean,
    Blocks,
    Group,
    GlobalField,
    Link,
    Json,
}

/// The targets of a reference, given as one name or as a list of names.
#[derive(Debug)]
pub enum ReferenceTo {
    String(String),
    Vec(Vec<String>),
}

/// One node of a schema.
#[derive(Debug)]
pub struct Schema {
    pub uid: String,
    pub data_type: DataType,
    pub schema: Option<Vec<Schema>>,
    pub multiple: bool,
    pub mandatory: bool,
    pub field_metadata: Option<FieldMetaData>,
    pub reference_to: Option<ReferenceTo>,
    pub blocks: Option<Vec<Block>>,
    pub enumuration: Option<Enumeration>,
}

/// The values a field may take.
#[derive(Debug)]
pub struct Enumeration {
    pub choices: Vec<Choice>,
}

/// One of the values a field may take.
#[derive(Debug)]
pub struct Choice {
    pub value: ChoiceValue,
}

/// A choice is a text or a whole number.
#[derive(Debug)]
pub enum ChoiceValue {
    String(String),
    Number(i32),
}

/// What a schema node says beside its shape.
#[derive(Debug)]
pub struct FieldMetaData {
    pub description: Option<String>,
    pub ref_multiple: Option<bool>,
}

/// One variant of a blocks field.
#[derive(Debug)]
pub struct Block {
    pub uid: String,
    pub schema: Vec<Schema>,
}

/// Mathematical value of a [`ReferenceTo`].
pub enum ReferenceToView {
    One(Seq<char>),
    Many(Seq<Seq<char>>),
}

/// Mathematical value of a [`ChoiceValue`].
pub enum ChoiceValueView {
    Text(Seq<char>),
    Number(int),
}

/// Mathematical value of a [`FieldMetaData`].
pub struct FieldMetaDataView {
    pub description: Option<Seq<char>>,
    pub ref_multiple: Option<bool>,
}

/// Mathematical value of a [`Block`].
pub struct BlockView {
    pub uid: Seq<char>,
    pub schema: Seq<SchemaView>,
}

/// Mathematical value of a [`Schema`].
pub struct SchemaView {
    pub uid: Seq<char>,
    pub data_type: DataType,
    pub schema: Option<Seq<SchemaView>>,
    pub multiple: bool,
    pub mandatory: bool,
    pub field_metadata: Option<FieldMetaDataView>,
    pub reference_to: Option<ReferenceToView>,
    pub blocks: Option<Seq<BlockView>>,
    pub enumuration: Option<Seq<ChoiceValueView>>,
}

/// Mathematical value of a top-level schema, be it a [`ContentType`] or a
/// [`GlobalField`].
pub struct EntryView {
    pub uid: Seq<char>,
    pub description: Option<Seq<char>>,
    pub schema: Seq<SchemaView>,
}

impl View for ReferenceTo {
    type V = ReferenceToView;

    open spec fn view(&self) -> ReferenceToView {
        match *self {
            ReferenceTo::String(s) => ReferenceToView::One(s@),
            ReferenceTo::Vec(v) => ReferenceToView::Many(strings_view(v@)),
        }
    }
}

impl View for ChoiceValue {
    type V = ChoiceValueView;

    open spec fn view(&self) -> ChoiceValueView {
        match *self {
            ChoiceValue::String(s) => ChoiceValueView::Text(s@),
            ChoiceValue::Number(n) => ChoiceValueView::Number(n as int),
        }
    }
}

impl View for Choice {
    type V = ChoiceValueView;

    open spec fn view(&self) -> ChoiceValueView {
        self.value@
    }
}

impl View for Enumeration {
    type V = Seq<ChoiceValueView>;

    open spec fn view(&self) -> Seq<ChoiceValueView> {
        Seq::new(self.choices@.len(), |i: int| self.choices@[i]@)
    }
}

impl View for FieldMetaData {
    type V = FieldMetaDataView;

    open spec fn view(&self) -> FieldMetaDataView {
        FieldMetaDataView {
            description: match self.description {
                Some(d) => Some(d@),
                None => None,
            },
            ref_multiple: self.ref_multiple,
        }
    }
}

/// The values of a sequence of schema nodes.
pub open spec fn schemas_view(v: Seq<Schema>) -> Seq<SchemaView>
    decreases v,
{
    Seq::new(
        v.len(),
        |i: int|
            if 0 <= i < v.len() {
                schema_view(v[i])
            } else {
                arbitrary()
            },
    )
}

/// The values of a sequence of block variants.
pub open spec fn block_list_view(v: Seq<Block>) -> Seq<BlockView>
    decreases v,
{
    Seq::new(
        v.len(),
        |i: int|
            if 0 <= i < v.len() {
                BlockView { uid: v[i].uid@, schema: schemas_view(v[i].schema@) }
            } else {
                arbitrary()
            },
    )
}

/// The value of a schema node.
pub open spec fn schema_view(s: Schema) -> SchemaView
    decreases s,
{
    SchemaView {
        uid: s.uid@,
        data_type: s.data_type,
        schema: match s.schema {
            Some(nested) => Some(schemas_view(nested@)),
            None => None,
        },
        multiple: s.multiple,
        mandatory: s.mandatory,
        field_metadata: match s.field_metadata {
            Some(m) => Some(m@),
            None => None,
        },
        reference_to: match s.reference_to {
            Some(r) => Some(r@),
            None => None,
        },
        blocks: match s.blocks {
            Some(b) => Some(block_list_view(b@)),
            None => None,
        },
        enumuration: match s.enumuration {
            Some(e) => Some(e@),
            None => None,
        },
    }
}

impl View for Schema {
    type V = SchemaView;

    open spec fn view(&self) -> SchemaView {
        schema_view(*self)
    }
}

impl View for Block {
    type V = BlockView;

    open spec fn view(&self) -> BlockView {
        BlockView { uid: self.uid@, schema: schemas_view(self.schema@) }
    }
}

impl View for GlobalField {
    type V = EntryView;

    open spec fn view(&self) -> EntryView {
        EntryView {
            uid: self.uid@,
            description: match self.description {
                Some(d) => Some(d@),
                None => None,
            },
            schema: schemas_view(self.schema@),
        }
    }
}

impl View for ContentType {
    type V = EntryView;

    open spec fn view(&self) -> EntryView {
        EntryView {
            uid: self.uid@,
            description: match self.description {
                Some(d) => Some(d@),
                None => None,
            },
            schema: schemas_view(self.schema@),
        }
    }
}

impl View for GlobalFieldResponse {
    type V = Seq<EntryView>;

    open spec fn view(&self) -> Seq<EntryView> {
        Seq::new(self.global_fields@.len(), |i: int| self.global_fields@[i]@)
    }
}

impl View for ContentTypeResponse {
    type V = Seq<EntryView>;

    open spec fn view(&self) -> Seq<EntryView> {
        Seq::new(self.content_types@.len(), |i: int| self.content_types@[i]@)
    }
}

} // verus!
