//! The schema that a structured answer must meet.

use crate::error::AppError;
use crate::json::{JsonValue, JsonView};
use crate::request::{ChatCompletionRequest, JsonSchemaConfig, ResponseFormatRequest};
use crate::usage::json_of;
use vstd::prelude::*;

verus! {

/// The members with one more, unless they have it.
pub open spec fn with_missing(
    members: Map<Seq<char>, JsonView>,
    name: Seq<char>,
    value: JsonView,
) -> Map<Seq<char>, JsonView> {
    if members.contains_key(name) {
        members
    } else {
        members.insert(name, value)
    }
}

/// A schema with a name: what it lacks is filled in, what it holds stays.
pub open spec fn completed_schema(
    schema: JsonView,
    name: Option<String>,
    strict: Option<bool>,
) -> JsonView {
    match (schema, name) {
        (JsonView::Object(members), Some(title)) => {
            let titled = with_missing(members, "title"@, JsonView::Text(title@));
            JsonView::Object(
                if strict == Some(true) {
                    with_missing(titled, "additionalProperties"@, JsonView::Bool(false))
                } else {
                    titled
                },
            )
        },
        _ => schema,
    }
}

/// The schema that a request asks its answer to meet.
pub open spec fn output_schema(format: Option<ResponseFormatRequest>) -> Option<JsonView> {
    match format {
        None => None,
        Some(ResponseFormatRequest::Text) => None,
        Some(ResponseFormatRequest::JsonObject) => Some(
            JsonView::Object(map!["type"@ => JsonView::Text("object"@)]),
        ),
        Some(ResponseFormatRequest::JsonSchema { json_schema }) => Some(
            completed_schema(json_schema.schema@, json_schema.name, json_schema.strict),
        ),
    }
}

fn fill_in(schema: JsonValue, name: &str, value: JsonValue) -> (filled: JsonValue)
    requires
        schema@ is Object,
    ensures
        filled@ == JsonView::Object(with_missing(schema@->Object_0, name@, value@)),
{
    if schema.get(name).is_some() {
        schema
    } else {
        schema.with(name, value)
    }
}

fn is_object(json: &JsonValue) -> (yes: bool)
    ensures
        yes == (json@ is Object),
{
    match json {
        JsonValue::Object(_) => true,
        _ => false,
    }
}

fn complete(schema: &JsonValue, name: &Option<String>, strict: Option<bool>) -> (completed:
    JsonValue)
    ensures
        completed@ == completed_schema(schema@, *name, strict),
{
    let copy = schema.copy();
    match name {
        Some(title) => {
            if !is_object(&copy) {
                return copy;
            }
            let titled = fill_in(copy, "title", JsonValue::from_text(title.as_str()));
            match strict {
                Some(true) => fill_in(titled, "additionalProperties", JsonValue::Bool(false)),
                _ => titled,
            }
        },
        None => copy,
    }
}

/// The schema that a request asks its answer to meet.
pub fn build_output_schema(request: &ChatCompletionRequest) -> (schema: Result<
    Option<JsonValue>,
    AppError,
>)
    ensures
        schema is Ok,
        json_of(schema->Ok_0) == output_schema(request.response_format),
{
    match &request.response_format {
        None => Ok(None),
        Some(format) => match format {
            ResponseFormatRequest::Text => Ok(None),
            ResponseFormatRequest::JsonObject => Ok(
                Some(JsonValue::object().with("type", JsonValue::from_text("object"))),
            ),
            ResponseFormatRequest::JsonSchema { json_schema } => Ok(
                Some(complete(&json_schema.schema, &json_schema.name, json_schema.strict)),
            ),
        },
    }
}

/// Completing a schema changes none of the members that the caller wrote.
pub proof fn law_completed_schema_keeps_what_the_caller_wrote(
    members: Map<Seq<char>, JsonView>,
    name: Option<String>,
    strict: Option<bool>,
    member: Seq<char>,
)
    requires
        members.contains_key(member),
    ensures
        completed_schema(JsonView::Object(members), name, strict).field(member) == Some(
            members[member],
        ),
{
}

/// A strict schema with a name always says whether it takes other properties.
pub proof fn law_strict_schema_settles_other_properties(
    members: Map<Seq<char>, JsonView>,
    name: String,
)
    ensures
        completed_schema(JsonView::Object(members), Some(name), Some(true)).field(
            "additionalProperties"@,
        ) is Some,
{
}

proof fn lemma_schema_names()
    ensures
        "title"@ != "additionalProperties"@,
{
    reveal_strlit("title");
    reveal_strlit("additionalProperties");
    assert("title"@.len() != "additionalProperties"@.len());
}

/// A request for text, or for nothing, asks for no schema; one for a JSON object asks for an
/// object; and one without a name for its schema asks for that schema as it stands.
pub proof fn law_formats_ask_for_their_schema(config: JsonSchemaConfig)
    ensures
        output_schema(None) is None,
        output_schema(Some(ResponseFormatRequest::Text)) is None,
        ({
            let schema = output_schema(Some(ResponseFormatRequest::JsonObject));
            &&& schema is Some
            &&& schema->0 is Object
            &&& schema->0->Object_0["type"@] == JsonView::Text("object"@)
        }),
        output_schema(Some(ResponseFormatRequest::JsonSchema { json_schema: config })) is Some,
        config.name is None ==> output_schema(
            Some(ResponseFormatRequest::JsonSchema { json_schema: config }),
        ) == Some(config.schema@),
        !(config.schema@ is Object) ==> output_schema(
            Some(ResponseFormatRequest::JsonSchema { json_schema: config }),
        ) == Some(config.schema@),
{
}

/// A named schema gets its name as its title, unless it has one; a strict one takes no other
/// properties, unless it says so; it keeps all that it holds and gets nothing else.
pub proof fn law_named_schema_is_completed(
    config: JsonSchemaConfig,
    name: String,
    members: Map<Seq<char>, JsonView>,
    member: Seq<char>,
) -> (shown: Map<Seq<char>, JsonView>)
    requires
        config.name == Some(name),
        config.schema@ == JsonView::Object(members),
    ensures
        output_schema(Some(ResponseFormatRequest::JsonSchema { json_schema: config })) == Some(
            JsonView::Object(shown),
        ),
        members.contains_key(member) ==> shown.contains_key(member) && shown[member]
            == members[member],
        !members.contains_key("title"@) ==> shown.contains_key("title"@) && shown["title"@]
            == JsonView::Text(name@),
        !members.contains_key("additionalProperties"@) && config.strict == Some(true)
            ==> shown.contains_key("additionalProperties"@) && shown["additionalProperties"@]
            == JsonView::Bool(false),
        !members.contains_key("additionalProperties"@) && config.strict != Some(true)
            ==> !shown.contains_key("additionalProperties"@),
        member != "title"@ && member != "additionalProperties"@ ==> (shown.contains_key(member)
            <==> members.contains_key(member)),
{
    lemma_schema_names();
    completed_schema(config.schema@, config.name, config.strict)->Object_0
}

} // verus!
