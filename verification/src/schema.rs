//! The entities of a request, as plain values, each with its view.
//!
//! The types have no behaviour of their own beyond structural equality. A
//! view replaces every `String` by its characters, every `Vec` by the
//! sequence of its elements' views, and a free-form JSON value by the
//! document it holds.

use crate::json::{json_of, Json};
use serde_json::Value;
use vstd::prelude::*;

verus! {

/// The views of the elements of a sequence, in order.
pub open spec fn views<T: View>(items: Seq<T>) -> Seq<T::V> {
    items.map_values(|item: T| item@)
}

/// The view of an optional value.
pub open spec fn view_of_option<T: View>(item: Option<T>) -> Option<T::V> {
    match item {
        Some(value) => Some(value@),
        None => None,
    }
}

/// The views of the elements of an optional sequence.
pub open spec fn views_of_option<T: View>(items: Option<Vec<T>>) -> Option<Seq<T::V>> {
    match items {
        Some(values) => Some(views(values@)),
        None => None,
    }
}

/// A concrete invocation of a function, recorded inside a message. The
/// arguments are JSON kept as text: the backend that is called, not this
/// layer, decides what they may hold.
#[derive(Debug, PartialEq)]
pub struct FunctionCall {
    pub name: String,
    pub arguments: String,
}

pub struct FunctionCallView {
    pub name: Seq<char>,
    pub arguments: Seq<char>,
}

impl View for FunctionCall {
    type V = FunctionCallView;

    open spec fn view(&self) -> FunctionCallView {
        FunctionCallView { name: self.name@, arguments: self.arguments@ }
    }
}

/// One argument that a callable function accepts. In a document the field
/// `parameter_type` goes by the name `type`.
#[derive(Debug, PartialEq)]
pub struct FunctionParameter {
    pub name: String,
    pub parameter_type: String,
    pub required: Option<bool>,
    pub description: Option<String>,
    pub enums: Option<Vec<String>>,
}

pub struct FunctionParameterView {
    pub name: Seq<char>,
    pub parameter_type: Seq<char>,
    pub required: Option<bool>,
    pub description: Option<Seq<char>>,
    pub enums: Option<Seq<Seq<char>>>,
}

impl View for FunctionParameter {
    type V = FunctionParameterView;

    open spec fn view(&self) -> FunctionParameterView {
        FunctionParameterView {
            name: self.name@,
            parameter_type: self.parameter_type@,
            required: self.required,
            description: view_of_option(self.description),
            enums: views_of_option(self.enums),
        }
    }
}

/// A tool that the model may invoke.
#[derive(Debug, PartialEq)]
pub struct Function {
    pub name: String,
    pub description: Option<String>,
    pub parameters: Vec<FunctionParameter>,
}

pub struct FunctionView {
    pub name: Seq<char>,
    pub description: Option<Seq<char>>,
    pub parameters: Seq<FunctionParameterView>,
}

impl View for Function {
    type V = FunctionView;

    open spec fn view(&self) -> FunctionView {
        FunctionView {
            name: self.name@,
            description: view_of_option(self.description),
            parameters: views(self.parameters@),
        }
    }
}

/// One turn of a conversation. Which of the optional fields a role calls for
/// is not part of the schema: a message may carry any of them, or none.
#[derive(Debug, PartialEq)]
pub struct Message {
    pub role: String,
    pub name: Option<String>,
    pub content: Option<String>,
    pub function_call: Option<FunctionCall>,
}

pub struct MessageView {
    pub role: Seq<char>,
    pub name: Option<Seq<char>>,
    pub content: Option<Seq<char>>,
    pub function_call: Option<FunctionCallView>,
}

impl View for Message {
    type V = MessageView;

    open spec fn view(&self) -> MessageView {
        MessageView {
            role: self.role@,
            name: view_of_option(self.name),
            content: view_of_option(self.content),
            function_call: view_of_option(self.function_call),
        }
    }
}

/// A named tuning value. The value is any JSON at all: each backend defines
/// its own parameters.
#[derive(Debug, PartialEq)]
pub struct Parameter {
    pub name: String,
    pub value: Value,
}

pub struct ParameterView {
    pub name: Seq<char>,
    pub value: Json,
}

impl View for Parameter {
    type V = ParameterView;

    open spec fn view(&self) -> ParameterView {
        ParameterView { name: self.name@, value: json_of(self.value) }
    }
}

/// A multi-turn request.
#[derive(Debug, PartialEq)]
pub struct Chat {
    pub version: String,
    pub engine: String,
    pub context: Option<String>,
    pub parameters: Option<Vec<Parameter>>,
    pub examples: Option<Vec<Message>>,
    pub messages: Vec<Message>,
    pub functions: Option<Vec<Function>>,
}

pub struct ChatView {
    pub version: Seq<char>,
    pub engine: Seq<char>,
    pub context: Option<Seq<char>>,
    pub parameters: Option<Seq<ParameterView>>,
    pub examples: Option<Seq<MessageView>>,
    pub messages: Seq<MessageView>,
    pub functions: Option<Seq<FunctionView>>,
}

impl View for Chat {
    type V = ChatView;

    open spec fn view(&self) -> ChatView {
        ChatView {
            version: self.version@,
            engine: self.engine@,
            context: view_of_option(self.context),
            parameters: views_of_option(self.parameters),
            examples: views_of_option(self.examples),
            messages: views(self.messages@),
            functions: views_of_option(self.functions),
        }
    }
}

/// A single-shot request.
#[derive(Debug, PartialEq)]
pub struct Completion {
    pub version: String,
    pub engine: String,
    pub prompt: String,
    pub parameters: Option<Vec<Parameter>>,
}

pub struct CompletionView {
    pub version: Seq<char>,
    pub engine: Seq<char>,
    pub prompt: Seq<char>,
    pub parameters: Option<Seq<ParameterView>>,
}

impl View for Completion {
    type V = CompletionView;

    open spec fn view(&self) -> CompletionView {
        CompletionView {
            version: self.version@,
            engine: self.engine@,
            prompt: self.prompt@,
            parameters: views_of_option(self.parameters),
        }
    }
}

} // verus!
