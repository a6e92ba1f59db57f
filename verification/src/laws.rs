//! What holds of decoding a whole request, proved from the definitions.

use crate::error::{outcome, DecodeError, DecodeErrorView};
use crate::field::{optional, required, text_of_option};
use crate::json::{parsed, Json, JsonKind};
use crate::path::{member_path, root_path};
use crate::request::{
    chat_of, chat_of_fields, chat_of_text, completion_of, completion_of_fields,
    completion_of_text,
};
use crate::schema::{
    Chat, ChatView, Completion, CompletionView, Function, Message, Parameter,
};
use crate::shape::{
    all_accepted, all_accepted_if_any, has, lemma_items_accepted, lemma_optional,
    lemma_optional_items_accepted, lemma_required, may_have, value_if_any, values_if_any,
    values_of,
};
use vstd::prelude::*;

verus! {

/// Whether a document is a chat: an object with `version` and `engine` as
/// strings and `messages` as an array of messages, in which `context`, if
/// there, is a string, and `parameters`, `examples` and `functions`, if
/// there, are arrays of parameters, of messages and of functions. Other
/// fields may be there and do not matter.
pub open spec fn chat_accepts(j: Json) -> bool {
    &&& j is Object
    &&& has(j->Object_0, "version"@, JsonKind::String)
    &&& has(j->Object_0, "engine"@, JsonKind::String)
    &&& has(j->Object_0, "messages"@, JsonKind::Array)
    &&& may_have(j->Object_0, "context"@, JsonKind::String)
    &&& may_have(j->Object_0, "parameters"@, JsonKind::Array)
    &&& may_have(j->Object_0, "examples"@, JsonKind::Array)
    &&& may_have(j->Object_0, "functions"@, JsonKind::Array)
    &&& all_accepted::<Message>(j->Object_0["messages"@]->Array_0)
    &&& all_accepted_if_any::<Parameter>(value_if_any(j->Object_0, "parameters"@))
    &&& all_accepted_if_any::<Message>(value_if_any(j->Object_0, "examples"@))
    &&& all_accepted_if_any::<Function>(value_if_any(j->Object_0, "functions"@))
}

/// The chat that a document describes: each field holds the value of the
/// field of the same name, element by element.
pub open spec fn chat_value(j: Json) -> ChatView {
    ChatView {
        version: j->Object_0["version"@]->String_0,
        engine: j->Object_0["engine"@]->String_0,
        context: text_of_option(value_if_any(j->Object_0, "context"@)),
        parameters: values_if_any::<Parameter>(value_if_any(j->Object_0, "parameters"@)),
        examples: values_if_any::<Message>(value_if_any(j->Object_0, "examples"@)),
        messages: values_of::<Message>(j->Object_0["messages"@]->Array_0),
        functions: values_if_any::<Function>(value_if_any(j->Object_0, "functions"@)),
    }
}

/// Whether a document is a completion: an object with `version`, `engine`
/// and `prompt` as strings, in which `parameters`, if there, is an array of
/// parameters.
pub open spec fn completion_accepts(j: Json) -> bool {
    &&& j is Object
    &&& has(j->Object_0, "version"@, JsonKind::String)
    &&& has(j->Object_0, "engine"@, JsonKind::String)
    &&& has(j->Object_0, "prompt"@, JsonKind::String)
    &&& may_have(j->Object_0, "parameters"@, JsonKind::Array)
    &&& all_accepted_if_any::<Parameter>(value_if_any(j->Object_0, "parameters"@))
}

/// The completion that a document describes.
pub open spec fn completion_value(j: Json) -> CompletionView {
    CompletionView {
        version: j->Object_0["version"@]->String_0,
        engine: j->Object_0["engine"@]->String_0,
        prompt: j->Object_0["prompt"@]->String_0,
        parameters: values_if_any::<Parameter>(value_if_any(j->Object_0, "parameters"@)),
    }
}

/// Decoding a document as a chat succeeds exactly when the document is a
/// chat, and then yields a value whose fields equal those of the document.
/// It fails with `SchemaMismatch` exactly when the document is no object, and
/// otherwise with an error that carries a path.
pub proof fn lemma_chat_accepted(j: Json)
    ensures
        chat_of(j) is Ok <==> chat_accepts(j),
        chat_accepts(j) ==> chat_of(j) == Ok::<ChatView, DecodeErrorView>(chat_value(j)),
        chat_of(j) == Err::<ChatView, DecodeErrorView>(DecodeErrorView::SchemaMismatch) <==> !(j is Object),
        chat_of(j) matches Err(e) ==> e is SchemaMismatch || e.located_within(root_path()),
{
    if j is Object {
        let fields = j->Object_0;
        let at = root_path();
        lemma_required(fields, at, "version"@, JsonKind::String);
        lemma_required(fields, at, "engine"@, JsonKind::String);
        lemma_required(fields, at, "messages"@, JsonKind::Array);
        lemma_optional(fields, at, "context"@, JsonKind::String);
        lemma_optional(fields, at, "parameters"@, JsonKind::Array);
        lemma_optional(fields, at, "examples"@, JsonKind::Array);
        lemma_optional(fields, at, "functions"@, JsonKind::Array);
        let messages = required(fields, at, "messages"@, JsonKind::Array);
        let parameters = optional(fields, at, "parameters"@, JsonKind::Array);
        let examples = optional(fields, at, "examples"@, JsonKind::Array);
        let functions = optional(fields, at, "functions"@, JsonKind::Array);
        if messages is Ok {
            lemma_items_accepted::<Message>(
                messages->Ok_0->Array_0,
                member_path(at, "messages"@),
            );
        }
        if parameters is Ok {
            lemma_optional_items_accepted::<Parameter>(
                parameters->Ok_0,
                member_path(at, "parameters"@),
            );
        }
        if examples is Ok {
            lemma_optional_items_accepted::<Message>(
                examples->Ok_0,
                member_path(at, "examples"@),
            );
        }
        if functions is Ok {
            lemma_optional_items_accepted::<Function>(
                functions->Ok_0,
                member_path(at, "functions"@),
            );
        }
        assert(forall|p: Seq<char>| at.is_prefix_of(p));
    }
}

/// Decoding a document as a completion succeeds exactly when the document is
/// a completion, and then yields a value whose fields equal those of the
/// document. It fails with `SchemaMismatch` exactly when the document is no
/// object, and otherwise with an error that carries a path.
pub proof fn lemma_completion_accepted(j: Json)
    ensures
        completion_of(j) is Ok <==> completion_accepts(j),
        completion_accepts(j) ==> completion_of(j) == Ok::<CompletionView, DecodeErrorView>(
            completion_value(j),
        ),
        completion_of(j) == Err::<CompletionView, DecodeErrorView>(
            DecodeErrorView::SchemaMismatch,
        ) <==> !(j is Object),
        completion_of(j) matches Err(e) ==> e is SchemaMismatch || e.located_within(root_path()),
{
    if j is Object {
        let fields = j->Object_0;
        let at = root_path();
        lemma_required(fields, at, "version"@, JsonKind::String);
        lemma_required(fields, at, "engine"@, JsonKind::String);
        lemma_required(fields, at, "prompt"@, JsonKind::String);
        lemma_optional(fields, at, "parameters"@, JsonKind::Array);
        let parameters = optional(fields, at, "parameters"@, JsonKind::Array);
        if parameters is Ok {
            lemma_optional_items_accepted::<Parameter>(
                parameters->Ok_0,
                member_path(at, "parameters"@),
            );
        }
        assert(forall|p: Seq<char>| at.is_prefix_of(p));
    }
}

/// A text that parses to a chat decodes to that chat, field for field.
pub proof fn lemma_chat_text_accepted(text: Seq<char>)
    ensures
        chat_of_text(text) is Ok <==> parsed(text) is Ok && chat_accepts(parsed(text)->Ok_0),
        parsed(text) is Ok && chat_accepts(parsed(text)->Ok_0) ==> chat_of_text(text) == Ok::<
            ChatView,
            DecodeErrorView,
        >(chat_value(parsed(text)->Ok_0)),
{
    if let Ok(j) = parsed(text) {
        lemma_chat_accepted(j);
    }
}

/// A text that parses to a completion decodes to that completion, field for
/// field.
pub proof fn lemma_completion_text_accepted(text: Seq<char>)
    ensures
        completion_of_text(text) is Ok <==> parsed(text) is Ok && completion_accepts(
            parsed(text)->Ok_0,
        ),
        parsed(text) is Ok && completion_accepts(parsed(text)->Ok_0) ==> completion_of_text(text)
            == Ok::<CompletionView, DecodeErrorView>(completion_value(parsed(text)->Ok_0)),
{
    if let Ok(j) = parsed(text) {
        lemma_completion_accepted(j);
    }
}

/// A chat without one of its required fields is rejected. The error names
/// the first required field that is absent, in the order `version`, `engine`,
/// `messages`, provided the required fields before it hold strings.
pub proof fn lemma_chat_missing_field(fields: Map<Seq<char>, Json>)
    ensures
        !fields.contains_key("version"@) || !fields.contains_key("engine"@) || !fields.contains_key(
            "messages"@,
        ) ==> chat_of_fields(fields) is Err,
        !fields.contains_key("version"@) ==> chat_of_fields(fields) == Err::<
            ChatView,
            DecodeErrorView,
        >(DecodeErrorView::MissingField("version"@)),
        has(fields, "version"@, JsonKind::String) && !fields.contains_key("engine"@)
            ==> chat_of_fields(fields) == Err::<ChatView, DecodeErrorView>(
            DecodeErrorView::MissingField("engine"@),
        ),
        has(fields, "version"@, JsonKind::String) && has(fields, "engine"@, JsonKind::String)
            && !fields.contains_key("messages"@) ==> chat_of_fields(fields) == Err::<
            ChatView,
            DecodeErrorView,
        >(DecodeErrorView::MissingField("messages"@)),
{
}

/// A completion without one of its required fields is rejected. The error
/// names the first required field that is absent, in the order `version`,
/// `engine`, `prompt`, provided the required fields before it hold strings.
pub proof fn lemma_completion_missing_field(fields: Map<Seq<char>, Json>)
    ensures
        !fields.contains_key("version"@) || !fields.contains_key("engine"@) || !fields.contains_key(
            "prompt"@,
        ) ==> completion_of_fields(fields) is Err,
        !fields.contains_key("version"@) ==> completion_of_fields(fields) == Err::<
            CompletionView,
            DecodeErrorView,
        >(DecodeErrorView::MissingField("version"@)),
        has(fields, "version"@, JsonKind::String) && !fields.contains_key("engine"@)
            ==> completion_of_fields(fields) == Err::<CompletionView, DecodeErrorView>(
            DecodeErrorView::MissingField("engine"@),
        ),
        has(fields, "version"@, JsonKind::String) && has(fields, "engine"@, JsonKind::String)
            && !fields.contains_key("prompt"@) ==> completion_of_fields(fields) == Err::<
            CompletionView,
            DecodeErrorView,
        >(DecodeErrorView::MissingField("prompt"@)),
{
}

/// A text is rejected as malformed exactly when the parser rejects it,
/// whichever request it is decoded as, and the error then carries the
/// parser's message.
pub proof fn lemma_malformed_text(text: Seq<char>)
    ensures
        chat_of_text(text) is Err && chat_of_text(text)->Err_0 is MalformedJson <==> parsed(
            text,
        ) is Err,
        completion_of_text(text) is Err && completion_of_text(text)->Err_0 is MalformedJson
            <==> parsed(text) is Err,
        parsed(text) matches Err(message) ==> {
            &&& chat_of_text(text) == Err::<ChatView, DecodeErrorView>(
                DecodeErrorView::MalformedJson(message),
            )
            &&& completion_of_text(text) == Err::<CompletionView, DecodeErrorView>(
                DecodeErrorView::MalformedJson(message),
            )
        },
{
    if let Ok(j) = parsed(text) {
        lemma_chat_accepted(j);
        lemma_completion_accepted(j);
    }
}

/// Decoding is a function of the text: two results for one text, each as
/// the decoder promises it, are equal in every field.
pub proof fn lemma_decode_chat_repeats(
    text: Seq<char>,
    first: Result<Chat, DecodeError>,
    second: Result<Chat, DecodeError>,
)
    requires
        outcome(first) == chat_of_text(text),
        outcome(second) == chat_of_text(text),
    ensures
        outcome(first) == outcome(second),
        first is Ok <==> second is Ok,
{
}

/// Decoding a completion is a function of the text, too.
pub proof fn lemma_decode_completion_repeats(
    text: Seq<char>,
    first: Result<Completion, DecodeError>,
    second: Result<Completion, DecodeError>,
)
    requires
        outcome(first) == completion_of_text(text),
        outcome(second) == completion_of_text(text),
    ensures
        outcome(first) == outcome(second),
        first is Ok <==> second is Ok,
{
}

} // verus!
