//! The two requests, and the entry points that decode them from text.
//!
//! A text is first parsed as one JSON document. The document must be an
//! object; its fields are then read as those of any entity are: required
//! fields, optional fields, nested values.

use crate::decode::{
    decode_array, decode_optional_array, decoded_items, decoded_optional_items,
};
use crate::error::{outcome, DecodeError, DecodeErrorView};
use crate::field::{
    get_optional, get_required, optional, optional_text_of, required, text_of, text_of_option,
};
use crate::json::{error_message, json_of, kind_of, parse_value, parsed, Json, JsonKind};
use crate::path::{member_path, root_path};
use crate::schema::{Chat, ChatView, Completion, CompletionView, Function, Message, Parameter};
use serde_json::Value;
use vstd::prelude::*;

verus! {

/// The fields of a chat at the top of a document: `version` and `engine`,
/// required strings, and `messages`, a required array; then `context`, an
/// optional string, and `parameters`, `examples` and `functions`, optional
/// arrays; then the elements of `messages`, of `parameters`, of `examples`
/// and of `functions`, in this order. An empty `messages` is accepted.
pub open spec fn chat_of_fields(fields: Map<Seq<char>, Json>) -> Result<ChatView, DecodeErrorView> {
    let at = root_path();
    let version = required(fields, at, "version"@, JsonKind::String);
    let engine = required(fields, at, "engine"@, JsonKind::String);
    let messages = required(fields, at, "messages"@, JsonKind::Array);
    let context = optional(fields, at, "context"@, JsonKind::String);
    let parameters = optional(fields, at, "parameters"@, JsonKind::Array);
    let examples = optional(fields, at, "examples"@, JsonKind::Array);
    let functions = optional(fields, at, "functions"@, JsonKind::Array);
    if version is Err {
        Err(version->Err_0)
    } else if engine is Err {
        Err(engine->Err_0)
    } else if messages is Err {
        Err(messages->Err_0)
    } else if context is Err {
        Err(context->Err_0)
    } else if parameters is Err {
        Err(parameters->Err_0)
    } else if examples is Err {
        Err(examples->Err_0)
    } else if functions is Err {
        Err(functions->Err_0)
    } else {
        let turns = decoded_items::<Message>(
            messages->Ok_0->Array_0,
            member_path(at, "messages"@),
        );
        let tuning = decoded_optional_items::<Parameter>(
            parameters->Ok_0,
            member_path(at, "parameters"@),
        );
        let shots = decoded_optional_items::<Message>(
            examples->Ok_0,
            member_path(at, "examples"@),
        );
        let tools = decoded_optional_items::<Function>(
            functions->Ok_0,
            member_path(at, "functions"@),
        );
        if turns is Err {
            Err(turns->Err_0)
        } else if tuning is Err {
            Err(tuning->Err_0)
        } else if shots is Err {
            Err(shots->Err_0)
        } else if tools is Err {
            Err(tools->Err_0)
        } else {
            Ok(
                ChatView {
                    version: version->Ok_0->String_0,
                    engine: engine->Ok_0->String_0,
                    context: text_of_option(context->Ok_0),
                    parameters: tuning->Ok_0,
                    examples: shots->Ok_0,
                    messages: turns->Ok_0,
                    functions: tools->Ok_0,
                },
            )
        }
    }
}

/// What a document decodes to as a chat.
pub open spec fn chat_of(j: Json) -> Result<ChatView, DecodeErrorView> {
    match j {
        Json::Object(fields) => chat_of_fields(fields),
        _ => Err(DecodeErrorView::SchemaMismatch),
    }
}

/// What a text decodes to as a chat.
pub open spec fn chat_of_text(text: Seq<char>) -> Result<ChatView, DecodeErrorView> {
    match parsed(text) {
        Ok(j) => chat_of(j),
        Err(message) => Err(DecodeErrorView::MalformedJson(message)),
    }
}

/// The fields of a completion at the top of a document: `version`, `engine`
/// and `prompt`, required strings; then `parameters`, an optional array; then
/// the elements of `parameters`.
pub open spec fn completion_of_fields(fields: Map<Seq<char>, Json>) -> Result<
    CompletionView,
    DecodeErrorView,
> {
    let at = root_path();
    let version = required(fields, at, "version"@, JsonKind::String);
    let engine = required(fields, at, "engine"@, JsonKind::String);
    let prompt = required(fields, at, "prompt"@, JsonKind::String);
    let parameters = optional(fields, at, "parameters"@, JsonKind::Array);
    if version is Err {
        Err(version->Err_0)
    } else if engine is Err {
        Err(engine->Err_0)
    } else if prompt is Err {
        Err(prompt->Err_0)
    } else if parameters is Err {
        Err(parameters->Err_0)
    } else {
        match decoded_optional_items::<Parameter>(
            parameters->Ok_0,
            member_path(at, "parameters"@),
        ) {
            Ok(tuning) => Ok(
                CompletionView {
                    version: version->Ok_0->String_0,
                    engine: engine->Ok_0->String_0,
                    prompt: prompt->Ok_0->String_0,
                    parameters: tuning,
                },
            ),
            Err(e) => Err(e),
        }
    }
}

/// What a document decodes to as a completion.
pub open spec fn completion_of(j: Json) -> Result<CompletionView, DecodeErrorView> {
    match j {
        Json::Object(fields) => completion_of_fields(fields),
        _ => Err(DecodeErrorView::SchemaMismatch),
    }
}

/// What a text decodes to as a completion.
pub open spec fn completion_of_text(text: Seq<char>) -> Result<CompletionView, DecodeErrorView> {
    match parsed(text) {
        Ok(j) => completion_of(j),
        Err(message) => Err(DecodeErrorView::MalformedJson(message)),
    }
}

impl Chat {
    /// Decodes a chat from the text of a JSON document.
    pub fn from(json: &str) -> (r: Result<Chat, DecodeError>)
        ensures
            outcome(r) == chat_of_text(json@),
    {
        match parse_value(json) {
            Ok(v) => Chat::from_value(&v),
            Err(e) => Err(DecodeError::MalformedJson(error_message(&e))),
        }
    }

    /// Decodes a chat from a parsed document.
    pub fn from_value(v: &Value) -> (r: Result<Chat, DecodeError>)
        ensures
            outcome(r) == chat_of(json_of(*v)),
    {
        if kind_of(v) != JsonKind::Object {
            return Err(DecodeError::SchemaMismatch);
        }
        proof {
            reveal_strlit("");
            assert(""@ =~= root_path());
        }
        let version = get_required(v, "", "version", JsonKind::String)?;
        let engine = get_required(v, "", "engine", JsonKind::String)?;
        let messages = get_required(v, "", "messages", JsonKind::Array)?;
        let context = get_optional(v, "", "context", JsonKind::String)?;
        let parameters = get_optional(v, "", "parameters", JsonKind::Array)?;
        let examples = get_optional(v, "", "examples", JsonKind::Array)?;
        let functions = get_optional(v, "", "functions", JsonKind::Array)?;
        let turns = decode_array::<Message>(messages, "", "messages")?;
        let tuning = decode_optional_array::<Parameter>(parameters, "", "parameters")?;
        let shots = decode_optional_array::<Message>(examples, "", "examples")?;
        let tools = decode_optional_array::<Function>(functions, "", "functions")?;
        Ok(
            Chat {
                version: text_of(version),
                engine: text_of(engine),
                context: optional_text_of(context),
                parameters: tuning,
                examples: shots,
                messages: turns,
                functions: tools,
            },
        )
    }
}

impl Completion {
    /// Decodes a completion from the text of a JSON document.
    pub fn from(json: &str) -> (r: Result<Completion, DecodeError>)
        ensures
            outcome(r) == completion_of_text(json@),
    {
        match parse_value(json) {
            Ok(v) => Completion::from_value(&v),
            Err(e) => Err(DecodeError::MalformedJson(error_message(&e))),
        }
    }

    /// Decodes a completion from a parsed document.
    pub fn from_value(v: &Value) -> (r: Result<Completion, DecodeError>)
        ensures
            outcome(r) == completion_of(json_of(*v)),
    {
        if kind_of(v) != JsonKind::Object {
            return Err(DecodeError::SchemaMismatch);
        }
        proof {
            reveal_strlit("");
            assert(""@ =~= root_path());
        }
        let version = get_required(v, "", "version", JsonKind::String)?;
        let engine = get_required(v, "", "engine", JsonKind::String)?;
        let prompt = get_required(v, "", "prompt", JsonKind::String)?;
        let parameters = get_optional(v, "", "parameters", JsonKind::Array)?;
        let tuning = decode_optional_array::<Parameter>(parameters, "", "parameters")?;
        Ok(
            Completion {
                version: text_of(version),
                engine: text_of(engine),
                prompt: text_of(prompt),
                parameters: tuning,
            },
        )
    }
}

/// Decodes untrusted text as a chat request.
pub fn decode_chat(raw_text: &str) -> (r: Result<Chat, DecodeError>)
    ensures
        outcome(r) == chat_of_text(raw_text@),
{
    Chat::from(raw_text)
}

/// Decodes untrusted text as a completion request.
pub fn decode_completion(raw_text: &str) -> (r: Result<Completion, DecodeError>)
    ensures
        outcome(r) == completion_of_text(raw_text@),
{
    Completion::from(raw_text)
}

} // verus!
