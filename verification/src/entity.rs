//! How each nested entity is read from a JSON value.
//!
//! Every entity but a plain string is an object, and is read in three steps
//! that end at the first defect: its required fields, in the order in which
//! the type declares them; its optional fields, in that order; then the
//! values nested in its fields, required ones first. In the first two steps
//! a field that holds an array or an object is examined for its kind only;
//! its contents wait for the third.

use crate::decode::{
    decode_array, decode_optional, decode_optional_array, decoded_items, decoded_optional,
    decoded_optional_items, Decode,
};
use crate::error::{DecodeError, DecodeErrorView};
use crate::field::{
    check_kind, flag_of_option, get_optional, get_present, get_required, of_kind, optional,
    optional_flag_of, optional_text_of, present, required, text_of, text_of_option,
};
use crate::json::{Json, JsonKind};
use crate::path::member_path;
use crate::schema::{
    Function, FunctionCall, FunctionCallView, FunctionParameter, FunctionParameterView,
    FunctionView, Message, MessageView, Parameter, ParameterView,
};
use serde_json::Value;
use vstd::prelude::*;

verus! {

/// A string that stands alone, as an element of an array.
impl Decode for String {
    open spec fn decoded(j: Json, at: Seq<char>) -> Result<Seq<char>, DecodeErrorView> {
        match of_kind(j, at, JsonKind::String) {
            Ok(text) => Ok(text->String_0),
            Err(e) => Err(e),
        }
    }

    fn decode(v: &Value, at: &str) -> (r: Result<String, DecodeError>) {
        let v = check_kind(v, at, JsonKind::String)?;
        Ok(text_of(v))
    }
}

/// The fields of a function call: `name` and `arguments`, both required
/// strings.
pub open spec fn function_call_of(fields: Map<Seq<char>, Json>, at: Seq<char>) -> Result<
    FunctionCallView,
    DecodeErrorView,
> {
    let name = required(fields, at, "name"@, JsonKind::String);
    let arguments = required(fields, at, "arguments"@, JsonKind::String);
    if name is Err {
        Err(name->Err_0)
    } else if arguments is Err {
        Err(arguments->Err_0)
    } else {
        Ok(FunctionCallView { name: name->Ok_0->String_0, arguments: arguments->Ok_0->String_0 })
    }
}

impl Decode for FunctionCall {
    open spec fn decoded(j: Json, at: Seq<char>) -> Result<FunctionCallView, DecodeErrorView> {
        match of_kind(j, at, JsonKind::Object) {
            Ok(object) => function_call_of(object->Object_0, at),
            Err(e) => Err(e),
        }
    }

    fn decode(v: &Value, at: &str) -> (r: Result<FunctionCall, DecodeError>) {
        let v = check_kind(v, at, JsonKind::Object)?;
        let name = get_required(v, at, "name", JsonKind::String)?;
        let arguments = get_required(v, at, "arguments", JsonKind::String)?;
        Ok(FunctionCall { name: text_of(name), arguments: text_of(arguments) })
    }
}

/// The fields of a function parameter: `name` and `type`, required strings;
/// then `required`, an optional boolean, `description`, an optional string,
/// and `enums`, an optional array; then the elements of `enums`, each a
/// string.
pub open spec fn function_parameter_of(fields: Map<Seq<char>, Json>, at: Seq<char>) -> Result<
    FunctionParameterView,
    DecodeErrorView,
> {
    let name = required(fields, at, "name"@, JsonKind::String);
    let parameter_type = required(fields, at, "type"@, JsonKind::String);
    let is_required = optional(fields, at, "required"@, JsonKind::Boolean);
    let description = optional(fields, at, "description"@, JsonKind::String);
    let enums = optional(fields, at, "enums"@, JsonKind::Array);
    if name is Err {
        Err(name->Err_0)
    } else if parameter_type is Err {
        Err(parameter_type->Err_0)
    } else if is_required is Err {
        Err(is_required->Err_0)
    } else if description is Err {
        Err(description->Err_0)
    } else if enums is Err {
        Err(enums->Err_0)
    } else {
        match decoded_optional_items::<String>(enums->Ok_0, member_path(at, "enums"@)) {
            Ok(allowed) => Ok(
                FunctionParameterView {
                    name: name->Ok_0->String_0,
                    parameter_type: parameter_type->Ok_0->String_0,
                    required: flag_of_option(is_required->Ok_0),
                    description: text_of_option(description->Ok_0),
                    enums: allowed,
                },
            ),
            Err(e) => Err(e),
        }
    }
}

impl Decode for FunctionParameter {
    open spec fn decoded(j: Json, at: Seq<char>) -> Result<
        FunctionParameterView,
        DecodeErrorView,
    > {
        match of_kind(j, at, JsonKind::Object) {
            Ok(object) => function_parameter_of(object->Object_0, at),
            Err(e) => Err(e),
        }
    }

    fn decode(v: &Value, at: &str) -> (r: Result<FunctionParameter, DecodeError>) {
        let v = check_kind(v, at, JsonKind::Object)?;
        let name = get_required(v, at, "name", JsonKind::String)?;
        let parameter_type = get_required(v, at, "type", JsonKind::String)?;
        let is_required = get_optional(v, at, "required", JsonKind::Boolean)?;
        let description = get_optional(v, at, "description", JsonKind::String)?;
        let enums = get_optional(v, at, "enums", JsonKind::Array)?;
        let allowed = decode_optional_array::<String>(enums, at, "enums")?;
        Ok(
            FunctionParameter {
                name: text_of(name),
                parameter_type: text_of(parameter_type),
                required: optional_flag_of(is_required),
                description: optional_text_of(description),
                enums: allowed,
            },
        )
    }
}

/// The fields of a function: `name`, a required string, and `parameters`, a
/// required array; then `description`, an optional string; then the elements
/// of `parameters`, each a function parameter.
pub open spec fn function_of(fields: Map<Seq<char>, Json>, at: Seq<char>) -> Result<
    FunctionView,
    DecodeErrorView,
> {
    let name = required(fields, at, "name"@, JsonKind::String);
    let parameters = required(fields, at, "parameters"@, JsonKind::Array);
    let description = optional(fields, at, "description"@, JsonKind::String);
    if name is Err {
        Err(name->Err_0)
    } else if parameters is Err {
        Err(parameters->Err_0)
    } else if description is Err {
        Err(description->Err_0)
    } else {
        match decoded_items::<FunctionParameter>(
            parameters->Ok_0->Array_0,
            member_path(at, "parameters"@),
        ) {
            Ok(accepted) => Ok(
                FunctionView {
                    name: name->Ok_0->String_0,
                    description: text_of_option(description->Ok_0),
                    parameters: accepted,
                },
            ),
            Err(e) => Err(e),
        }
    }
}

impl Decode for Function {
    open spec fn decoded(j: Json, at: Seq<char>) -> Result<FunctionView, DecodeErrorView> {
        match of_kind(j, at, JsonKind::Object) {
            Ok(object) => function_of(object->Object_0, at),
            Err(e) => Err(e),
        }
    }

    fn decode(v: &Value, at: &str) -> (r: Result<Function, DecodeError>) {
        let v = check_kind(v, at, JsonKind::Object)?;
        let name = get_required(v, at, "name", JsonKind::String)?;
        let parameters = get_required(v, at, "parameters", JsonKind::Array)?;
        let description = get_optional(v, at, "description", JsonKind::String)?;
        let accepted = decode_array::<FunctionParameter>(parameters, at, "parameters")?;
        Ok(
            Function {
                name: text_of(name),
                description: optional_text_of(description),
                parameters: accepted,
            },
        )
    }
}

/// The fields of a message: `role`, a required string; then `name` and
/// `content`, optional strings, and `function_call`, an optional object; then
/// the fields of `function_call`. Any text is accepted as a role, and no
/// role asks for, or rules out, any of the optional fields.
pub open spec fn message_of(fields: Map<Seq<char>, Json>, at: Seq<char>) -> Result<
    MessageView,
    DecodeErrorView,
> {
    let role = required(fields, at, "role"@, JsonKind::String);
    let name = optional(fields, at, "name"@, JsonKind::String);
    let content = optional(fields, at, "content"@, JsonKind::String);
    let call = optional(fields, at, "function_call"@, JsonKind::Object);
    if role is Err {
        Err(role->Err_0)
    } else if name is Err {
        Err(name->Err_0)
    } else if content is Err {
        Err(content->Err_0)
    } else if call is Err {
        Err(call->Err_0)
    } else {
        match decoded_optional::<FunctionCall>(call->Ok_0, member_path(at, "function_call"@)) {
            Ok(function_call) => Ok(
                MessageView {
                    role: role->Ok_0->String_0,
                    name: text_of_option(name->Ok_0),
                    content: text_of_option(content->Ok_0),
                    function_call,
                },
            ),
            Err(e) => Err(e),
        }
    }
}

impl Decode for Message {
    open spec fn decoded(j: Json, at: Seq<char>) -> Result<MessageView, DecodeErrorView> {
        match of_kind(j, at, JsonKind::Object) {
            Ok(object) => message_of(object->Object_0, at),
            Err(e) => Err(e),
        }
    }

    fn decode(v: &Value, at: &str) -> (r: Result<Message, DecodeError>) {
        let v = check_kind(v, at, JsonKind::Object)?;
        let role = get_required(v, at, "role", JsonKind::String)?;
        let name = get_optional(v, at, "name", JsonKind::String)?;
        let content = get_optional(v, at, "content", JsonKind::String)?;
        let call = get_optional(v, at, "function_call", JsonKind::Object)?;
        let function_call = decode_optional::<FunctionCall>(call, at, "function_call")?;
        Ok(
            Message {
                role: text_of(role),
                name: optional_text_of(name),
                content: optional_text_of(content),
                function_call,
            },
        )
    }
}

/// The fields of a parameter: `name`, a required string, and `value`, which
/// is required and may be any JSON value, `null` included.
pub open spec fn parameter_of(fields: Map<Seq<char>, Json>, at: Seq<char>) -> Result<
    ParameterView,
    DecodeErrorView,
> {
    let name = required(fields, at, "name"@, JsonKind::String);
    let value = present(fields, at, "value"@);
    if name is Err {
        Err(name->Err_0)
    } else if value is Err {
        Err(value->Err_0)
    } else {
        Ok(ParameterView { name: name->Ok_0->String_0, value: value->Ok_0 })
    }
}

impl Decode for Parameter {
    open spec fn decoded(j: Json, at: Seq<char>) -> Result<ParameterView, DecodeErrorView> {
        match of_kind(j, at, JsonKind::Object) {
            Ok(object) => parameter_of(object->Object_0, at),
            Err(e) => Err(e),
        }
    }

    fn decode(v: &Value, at: &str) -> (r: Result<Parameter, DecodeError>) {
        let v = check_kind(v, at, JsonKind::Object)?;
        let name = get_required(v, at, "name", JsonKind::String)?;
        let value = get_present(v, at, "value")?;
        Ok(Parameter { name: text_of(name), value: value.clone() })
    }
}

} // verus!
