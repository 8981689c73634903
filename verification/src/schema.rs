//! The schemas of the two indices: how they are built, what they hold, and
//! how the fields of an index are found in the schema it was made with.

use vstd::prelude::*;
use crate::error::SearchError;
use crate::record::{distinct_fields, RecordFields};

verus! {

/// The schema of an index.
#[verifier::external_type_specification]
#[verifier::external_body]
pub struct ExSchema(tantivy::schema::Schema);

/// A schema in the making.
#[verifier::external_type_specification]
#[verifier::external_body]
pub struct ExSchemaBuilder(tantivy::schema::SchemaBuilder);

/// The options of a text field.
#[verifier::external_type_specification]
#[verifier::external_body]
pub struct ExTextOptions(tantivy::schema::TextOptions);

/// How a text field is indexed.
#[verifier::external_type_specification]
#[verifier::external_body]
pub struct ExTextFieldIndexing(tantivy::schema::TextFieldIndexing);

/// How much is recorded of each term of an indexed field. The variants are the engine's own.
#[verifier::external_type_specification]
pub struct ExIndexRecordOption(tantivy::schema::IndexRecordOption);

/// The kinds of value that a field can hold. The variants are the engine's own.
#[verifier::external_type_specification]
pub struct ExValueType(tantivy::schema::Type);

/// The name of the only field of the word index.
pub const WORD_FIELD: &'static str = "word";

/// The name of the field that holds a record's identifier.
pub const IDENTIFIER_FIELD: &'static str = "track_id";

/// The name of the field that holds a record's searchable name.
pub const SEARCHABLE_NAME_FIELD: &'static str = "name";

/// The name of the field that holds a record's display name.
pub const DISPLAY_NAME_FIELD: &'static str = "raw_name";

/// The name of the field that holds a record's language.
pub const LANGUAGE_FIELD: &'static str = "lang";

/// The name of the tokenizer that cuts words and stems them.
pub const WORD_TOKENIZER: &'static str = "word";

/// The name of the tokenizer that gives the leading pieces of a word.
pub const NGRAM_TOKENIZER: &'static str = "ngram";

/// The name of the tokenizer that cuts a name into lower-case words.
pub const PHRASE_TOKENIZER: &'static str = "phrases";

/// How the terms of a text field are indexed.
pub struct Indexing {
    pub tokenizer: Seq<char>,
    pub record: tantivy::schema::IndexRecordOption,
}

/// How a text field is handled: whether and how it is indexed, and whether
/// its text is stored.
pub struct TextSetup {
    pub indexing: Option<Indexing>,
    pub stored: bool,
}

/// What kind of field a field is.
pub enum FieldKind {
    Text { setup: TextSetup },
    Other { indexed: bool },
}

/// A field of a schema.
pub struct FieldView {
    pub name: Seq<char>,
    pub kind: FieldKind,
}

impl FieldView {
    /// Whether the field is indexed.
    pub open spec fn indexed(self) -> bool {
        match self.kind {
            FieldKind::Text { setup } => setup.indexing is Some,
            FieldKind::Other { indexed } => indexed,
        }
    }

    /// Whether the field is a text field that is indexed.
    pub open spec fn indexed_text(self) -> bool {
        self.kind is Text && self.indexed()
    }
}

/// Whether a schema with the fields `layout` holds indexed text fields and
/// nothing else, and no more fields than there are field numbers.
pub open spec fn text_only(layout: Seq<FieldView>) -> bool {
    &&& layout.len() <= u32::MAX
    &&& forall|i: int| 0 <= i < layout.len() ==> (#[trigger] layout[i]).indexed_text()
}

/// The stored text field of a name, indexed by a tokenizer with positions.
pub open spec fn searched_field(name: Seq<char>, tokenizer: Seq<char>) -> FieldView {
    FieldView {
        name,
        kind: FieldKind::Text {
            setup: TextSetup {
                indexing: Some(
                    Indexing {
                        tokenizer,
                        record: tantivy::schema::IndexRecordOption::WithFreqsAndPositions,
                    },
                ),
                stored: true,
            },
        },
    }
}

/// The stored text field of a name, indexed whole as one term.
pub open spec fn keyword_field(name: Seq<char>) -> FieldView {
    FieldView {
        name,
        kind: FieldKind::Text {
            setup: TextSetup {
                indexing: Some(
                    Indexing {
                        tokenizer: "raw"@,
                        record: tantivy::schema::IndexRecordOption::Basic,
                    },
                ),
                stored: true,
            },
        },
    }
}

/// What an indexing configuration holds.
pub uninterp spec fn indexing_of(indexing: tantivy::schema::TextFieldIndexing) -> Indexing;

/// What the options of a text field hold.
pub uninterp spec fn text_setup(options: tantivy::schema::TextOptions) -> TextSetup;

/// The fields that were added to a schema builder, in the order of their numbers.
pub uninterp spec fn builder_fields(builder: tantivy::schema::SchemaBuilder) -> Seq<FieldView>;

/// The fields of a schema, in the order of their numbers.
pub uninterp spec fn schema_fields(schema: tantivy::schema::Schema) -> Seq<FieldView>;

/// `TextFieldIndexing::default`: the tokenizer called `default`, and only
/// the documents recorded.
#[verifier::external_body]
fn default_indexing() -> (indexing: tantivy::schema::TextFieldIndexing)
    ensures
        indexing_of(indexing).tokenizer == "default"@,
        indexing_of(indexing).record == tantivy::schema::IndexRecordOption::Basic,
{
    tantivy::schema::TextFieldIndexing::default()
}

/// `TextFieldIndexing::set_tokenizer`: the same with the tokenizer called `name`.
#[verifier::external_body]
fn set_tokenizer(indexing: tantivy::schema::TextFieldIndexing, name: &str) -> (changed:
    tantivy::schema::TextFieldIndexing)
    ensures
        indexing_of(changed).tokenizer == name@,
        indexing_of(changed).record == indexing_of(indexing).record,
{
    indexing.set_tokenizer(name)
}

/// `TextFieldIndexing::set_index_option`: the same with `record` as what is
/// recorded of each term.
#[verifier::external_body]
fn set_index_option(
    indexing: tantivy::schema::TextFieldIndexing,
    record: tantivy::schema::IndexRecordOption,
) -> (changed: tantivy::schema::TextFieldIndexing)
    ensures
        indexing_of(changed).tokenizer == indexing_of(indexing).tokenizer,
        indexing_of(changed).record == record,
{
    indexing.set_index_option(record)
}

/// `TextOptions::default`: neither indexed nor stored.
#[verifier::external_body]
fn default_options() -> (options: tantivy::schema::TextOptions)
    ensures
        text_setup(options).indexing is None,
        !text_setup(options).stored,
{
    tantivy::schema::TextOptions::default()
}

/// `TextOptions::set_indexing_options`: the same, indexed as `indexing` says.
#[verifier::external_body]
fn set_indexing_options(
    options: tantivy::schema::TextOptions,
    indexing: tantivy::schema::TextFieldIndexing,
) -> (changed: tantivy::schema::TextOptions)
    ensures
        text_setup(changed).indexing == Some(indexing_of(indexing)),
        text_setup(changed).stored == text_setup(options).stored,
{
    options.set_indexing_options(indexing)
}

/// `TextOptions::set_stored`: the same, stored.
#[verifier::external_body]
fn set_stored(options: tantivy::schema::TextOptions) -> (changed: tantivy::schema::TextOptions)
    ensures
        text_setup(changed).indexing == text_setup(options).indexing,
        text_setup(changed).stored,
{
    options.set_stored()
}

/// The constant `STRING` joined with the flag `STORED`: indexed whole by
/// the tokenizer called `raw`, only the documents recorded, and stored.
#[verifier::external_body]
fn stored_string_options() -> (options: tantivy::schema::TextOptions)
    ensures
        text_setup(options).indexing is Some,
        text_setup(options).indexing->0.tokenizer == "raw"@,
        text_setup(options).indexing->0.record == tantivy::schema::IndexRecordOption::Basic,
        text_setup(options).stored,
{
    tantivy::schema::STRING | tantivy::schema::STORED
}

/// The constant `TEXT` joined with the flag `STORED`: indexed by the
/// tokenizer called `default` with frequencies and positions, and stored.
#[verifier::external_body]
fn stored_text_options() -> (options: tantivy::schema::TextOptions)
    ensures
        text_setup(options).indexing is Some,
        text_setup(options).indexing->0.tokenizer == "default"@,
        text_setup(options).indexing->0.record
            == tantivy::schema::IndexRecordOption::WithFreqsAndPositions,
        text_setup(options).stored,
{
    tantivy::schema::TEXT | tantivy::schema::STORED
}

/// `Schema::builder`: a builder without fields.
#[verifier::external_body]
fn schema_builder() -> (builder: tantivy::schema::SchemaBuilder)
    ensures
        builder_fields(builder).len() == 0,
{
    tantivy::schema::Schema::builder()
}

/// `SchemaBuilder::add_text_field`: the builder has one more field, a text
/// field of this name and these options, whose number is the count of the
/// fields before it.
#[verifier::external_body]
fn add_text_field(
    builder: &mut tantivy::schema::SchemaBuilder,
    name: &str,
    options: tantivy::schema::TextOptions,
) -> (number: u32)
    ensures
        number == builder_fields(*old(builder)).len(),
        builder_fields(*final(builder)) == builder_fields(*old(builder)).push(
            FieldView { name: name@, kind: FieldKind::Text { setup: text_setup(options) } },
        ),
{
    builder.add_text_field(name, options).field_id()
}

/// `SchemaBuilder::build`: the schema of the fields of the builder.
#[verifier::external_body]
fn build_schema(builder: tantivy::schema::SchemaBuilder) -> (schema: tantivy::schema::Schema)
    ensures
        schema_fields(schema) == builder_fields(builder),
{
    builder.build()
}

/// `Schema::get_field`: the number of a field called `name`, or `None`
/// where the schema has no field of that name.
#[verifier::external_body]
fn schema_field(schema: &tantivy::schema::Schema, name: &str) -> (field: Option<u32>)
    ensures
        field matches Some(number) ==> number < schema_fields(*schema).len() && schema_fields(
            *schema,
        )[number as int].name == name@,
        field is None ==> forall|i: int|
            0 <= i < schema_fields(*schema).len() ==> (#[trigger] schema_fields(*schema)[i]).name
                != name@,
{
    schema.get_field(name).map(|field| field.field_id())
}

/// `FieldEntry::is_indexed` on the entry that `Schema::get_field_entry`
/// gives for `field`. The schema looks the entry up by the field's number,
/// so that number has to be one of its fields.
#[verifier::external_body]
pub(crate) fn field_is_indexed(schema: &tantivy::schema::Schema, field: u32) -> (indexed: bool)
    requires
        field < schema_fields(*schema).len(),
    ensures
        indexed == schema_fields(*schema)[field as int].indexed(),
{
    schema.get_field_entry(tantivy::schema::Field::from_field_id(field)).is_indexed()
}

/// `Schema::fields`, counted: how many fields the schema has.
#[verifier::external_body]
fn field_count(schema: &tantivy::schema::Schema) -> (count: usize)
    ensures
        count == schema_fields(*schema).len(),
{
    schema.fields().count()
}

/// `FieldType::value_type` on the entry that `Schema::get_field_entry`
/// gives for `field`: the kind of value that the field holds, which is
/// `Str` for a text field and for no other. The schema looks the entry up
/// by the field's number, so that number has to be one of its fields.
#[verifier::external_body]
fn field_value_type(schema: &tantivy::schema::Schema, field: u32) -> (kind: tantivy::schema::Type)
    requires
        field < schema_fields(*schema).len(),
    ensures
        kind is Str <==> schema_fields(*schema)[field as int].kind is Text,
{
    schema.get_field_entry(tantivy::schema::Field::from_field_id(field)).field_type().value_type()
}

/// Whether a schema holds indexed text fields and nothing else.
pub fn holds_text_only(schema: &tantivy::schema::Schema) -> (only: bool)
    ensures
        only == text_only(schema_fields(*schema)),
{
    let count = field_count(schema);
    if count > u32::MAX as usize {
        return false;
    }
    let mut field: u32 = 0;
    while (field as usize) < count
        invariant
            field <= count <= u32::MAX,
            count == schema_fields(*schema).len(),
            forall|i: int| 0 <= i < field ==> (#[trigger] schema_fields(*schema)[i]).indexed_text(),
        decreases count - field,
    {
        let text = match field_value_type(schema, field) {
            tantivy::schema::Type::Str => true,
            _ => false,
        };
        if !text || !field_is_indexed(schema, field) {
            assert(!schema_fields(*schema)[field as int].indexed_text());
            return false;
        }
        field += 1;
    }
    true
}

/// The fields of the schema of the word index.
pub open spec fn word_schema_fields() -> Seq<FieldView> {
    seq![searched_field(WORD_FIELD@, NGRAM_TOKENIZER@)]
}

/// The fields of the schema of the phrase index.
pub open spec fn phrase_schema_fields() -> Seq<FieldView> {
    seq![
        keyword_field(IDENTIFIER_FIELD@),
        searched_field(SEARCHABLE_NAME_FIELD@, PHRASE_TOKENIZER@),
        FieldView {
            name: DISPLAY_NAME_FIELD@,
            kind: FieldKind::Text {
                setup: TextSetup {
                    indexing: Some(
                        Indexing {
                            tokenizer: "default"@,
                            record: tantivy::schema::IndexRecordOption::WithFreqsAndPositions,
                        },
                    ),
                    stored: true,
                },
            },
        },
        keyword_field(LANGUAGE_FIELD@),
    ]
}

/// The options of a stored text field that is indexed by the tokenizer
/// called `tokenizer`, with frequencies and positions.
fn searched_options(tokenizer: &str) -> (options: tantivy::schema::TextOptions)
    ensures
        (FieldView { name: Seq::empty(), kind: FieldKind::Text { setup: text_setup(options) } })
            == searched_field(Seq::empty(), tokenizer@),
{
    let indexing = set_index_option(
        set_tokenizer(default_indexing(), tokenizer),
        tantivy::schema::IndexRecordOption::WithFreqsAndPositions,
    );
    let options = set_stored(set_indexing_options(default_options(), indexing));
    assert(text_setup(options).indexing->0 == (Indexing {
        tokenizer: tokenizer@,
        record: tantivy::schema::IndexRecordOption::WithFreqsAndPositions,
    }));
    options
}

/// Builds the schema of the word index: its one field holds a word, stored
/// and indexed by its leading pieces.
pub fn init_words_schema() -> (schema: tantivy::schema::Schema)
    ensures
        schema_fields(schema) == word_schema_fields(),
{
    let mut builder = schema_builder();
    add_text_field(&mut builder, WORD_FIELD, searched_options(NGRAM_TOKENIZER));
    assert(builder_fields(builder) =~= word_schema_fields());
    build_schema(builder)
}

/// Builds the schema of the phrase index: the identifier and the language
/// as keywords, the searchable name cut into lower-case words with their
/// positions, the display name as ordinary text; all four stored.
pub fn init_phrases_schema() -> (schema: tantivy::schema::Schema)
    ensures
        schema_fields(schema) == phrase_schema_fields(),
{
    let mut builder = schema_builder();
    let identifier = stored_string_options();
    assert(text_setup(identifier).indexing->0 == (Indexing {
        tokenizer: "raw"@,
        record: tantivy::schema::IndexRecordOption::Basic,
    }));
    add_text_field(&mut builder, IDENTIFIER_FIELD, identifier);
    add_text_field(&mut builder, SEARCHABLE_NAME_FIELD, searched_options(PHRASE_TOKENIZER));
    let display_name = stored_text_options();
    assert(text_setup(display_name).indexing->0 == (Indexing {
        tokenizer: "default"@,
        record: tantivy::schema::IndexRecordOption::WithFreqsAndPositions,
    }));
    add_text_field(&mut builder, DISPLAY_NAME_FIELD, display_name);
    let language = stored_string_options();
    assert(text_setup(language).indexing->0 == (Indexing {
        tokenizer: "raw"@,
        record: tantivy::schema::IndexRecordOption::Basic,
    }));
    add_text_field(&mut builder, LANGUAGE_FIELD, language);
    assert(builder_fields(builder) =~= phrase_schema_fields());
    build_schema(builder)
}

/// Whether a schema with the fields `layout` has no field called `name`.
pub open spec fn lacks(layout: Seq<FieldView>, name: Seq<char>) -> bool {
    forall|i: int| 0 <= i < layout.len() ==> (#[trigger] layout[i]).name != name
}

/// Whether `number` is the number of a field of `layout` that is called `name`.
pub open spec fn names(layout: Seq<FieldView>, number: u32, name: Seq<char>) -> bool {
    number < layout.len() && layout[number as int].name == name
}

/// Whether `fields` are the numbers of the four fields of the phrase index in `layout`.
pub open spec fn numbers_record_fields(layout: Seq<FieldView>, fields: RecordFields) -> bool {
    &&& names(layout, fields.identifier, IDENTIFIER_FIELD@)
    &&& names(layout, fields.searchable_name, SEARCHABLE_NAME_FIELD@)
    &&& names(layout, fields.display_name, DISPLAY_NAME_FIELD@)
    &&& names(layout, fields.language, LANGUAGE_FIELD@)
}

/// The four fields of the phrase index have four different names, so in a
/// schema that has them they have four different numbers.
pub proof fn lemma_record_fields_differ(layout: Seq<FieldView>, fields: RecordFields)
    requires
        numbers_record_fields(layout, fields),
    ensures
        distinct_fields(fields),
{
    reveal_strlit("track_id");
    reveal_strlit("name");
    reveal_strlit("raw_name");
    reveal_strlit("lang");
    assert(IDENTIFIER_FIELD@.len() == 8);
    assert(SEARCHABLE_NAME_FIELD@.len() == 4);
    assert(DISPLAY_NAME_FIELD@.len() == 8);
    assert(LANGUAGE_FIELD@.len() == 4);
    assert(IDENTIFIER_FIELD@[0] == 't');
    assert(DISPLAY_NAME_FIELD@[0] == 'r');
    assert(SEARCHABLE_NAME_FIELD@[0] == 'n');
    assert(LANGUAGE_FIELD@[0] == 'l');
}

/// The schema of the phrase index has the four fields under the numbers 0
/// to 3 and indexes the searchable name; that of the word index has the
/// word field under the number 0 and indexes it.
pub proof fn lemma_schemas_hold_their_fields()
    ensures
        numbers_record_fields(
            phrase_schema_fields(),
            RecordFields { identifier: 0, searchable_name: 1, display_name: 2, language: 3 },
        ),
        phrase_schema_fields()[1].indexed(),
        !lacks(phrase_schema_fields(), IDENTIFIER_FIELD@),
        !lacks(phrase_schema_fields(), SEARCHABLE_NAME_FIELD@),
        !lacks(phrase_schema_fields(), DISPLAY_NAME_FIELD@),
        !lacks(phrase_schema_fields(), LANGUAGE_FIELD@),
        names(word_schema_fields(), 0, WORD_FIELD@),
        word_schema_fields()[0].indexed(),
        !lacks(word_schema_fields(), WORD_FIELD@),
        text_only(word_schema_fields()),
{
    let phrases = phrase_schema_fields();
    assert(phrases[0].name == IDENTIFIER_FIELD@);
    assert(phrases[1].name == SEARCHABLE_NAME_FIELD@);
    assert(phrases[2].name == DISPLAY_NAME_FIELD@);
    assert(phrases[3].name == LANGUAGE_FIELD@);
    assert(word_schema_fields()[0].name == WORD_FIELD@);
}

/// In the schema of the phrase index no other numbers than 0 to 3 are
/// those of the four fields.
pub proof fn lemma_own_record_fields(fields: RecordFields)
    requires
        numbers_record_fields(phrase_schema_fields(), fields),
    ensures
        fields == (RecordFields { identifier: 0, searchable_name: 1, display_name: 2, language: 3 }),
{
    lemma_schemas_hold_their_fields();
    lemma_record_fields_differ(phrase_schema_fields(), fields);
    let found = RecordFields { identifier: 0, searchable_name: 1, display_name: 2, language: 3 };
    lemma_record_fields_differ(phrase_schema_fields(), found);
    reveal_strlit("track_id");
    reveal_strlit("name");
    reveal_strlit("raw_name");
    reveal_strlit("lang");
    let layout = phrase_schema_fields();
    assert(layout[0].name.len() == 8 && layout[0].name[0] == 't');
    assert(layout[1].name.len() == 4 && layout[1].name[0] == 'n');
    assert(layout[2].name.len() == 8 && layout[2].name[0] == 'r');
    assert(layout[3].name.len() == 4 && layout[3].name[0] == 'l');
}

/// The number of the field called `name` in a schema. It is missing
/// exactly when the schema has no field of that name.
pub fn field_number(schema: &tantivy::schema::Schema, name: &str) -> (field: Result<u32, SearchError>)
    ensures
        field matches Ok(number) ==> names(schema_fields(*schema), number, name@),
        field matches Err(error) ==> error == SearchError::MissingField,
        field is Err <==> lacks(schema_fields(*schema), name@),
{
    match schema_field(schema, name) {
        Some(number) => Ok(number),
        None => Err(SearchError::MissingField),
    }
}

/// The numbers of the four fields of the phrase index in a schema. They
/// are missing exactly when the schema lacks one of the four names.
pub fn record_fields(schema: &tantivy::schema::Schema) -> (fields: Result<RecordFields, SearchError>)
    ensures
        fields matches Ok(found) ==> numbers_record_fields(schema_fields(*schema), found),
        fields matches Err(error) ==> error == SearchError::MissingField,
        fields is Err <==> {
            ||| lacks(schema_fields(*schema), IDENTIFIER_FIELD@)
            ||| lacks(schema_fields(*schema), SEARCHABLE_NAME_FIELD@)
            ||| lacks(schema_fields(*schema), DISPLAY_NAME_FIELD@)
            ||| lacks(schema_fields(*schema), LANGUAGE_FIELD@)
        },
{
    let identifier = field_number(schema, IDENTIFIER_FIELD)?;
    let searchable_name = field_number(schema, SEARCHABLE_NAME_FIELD)?;
    let display_name = field_number(schema, DISPLAY_NAME_FIELD)?;
    let language = field_number(schema, LANGUAGE_FIELD)?;
    Ok(RecordFields { identifier, searchable_name, display_name, language })
}

/// The number of the only field of the word index in a schema. It is
/// missing exactly when the schema has no field of that name.
pub fn word_field(schema: &tantivy::schema::Schema) -> (field: Result<u32, SearchError>)
    ensures
        field matches Ok(number) ==> names(schema_fields(*schema), number, WORD_FIELD@),
        field matches Err(error) ==> error == SearchError::MissingField,
        field is Err <==> lacks(schema_fields(*schema), WORD_FIELD@),
{
    field_number(schema, WORD_FIELD)
}

} // verus!
