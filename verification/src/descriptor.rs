use vstd::prelude::*;
use crate::error::{Failure, RequestError};

verus! {

/// `serde_json::Value`: a JSON value. The adaptor carries the variables of an
/// operation as one and never looks inside.
#[verifier::external_type_specification]
#[verifier::external_body]
pub struct ExJsonValue(serde_json::Value);

/// One operation as the client sent it: the query text, the name of the
/// operation to run, and the variables.
pub struct OperationDescriptor {
    pub query: String,
    pub operation_name: Option<String>,
    pub variables: Option<serde_json::Value>,
}

/// What an [`OperationDescriptor`] holds, the texts as plain values.
pub ghost struct DescriptorView {
    pub query: Seq<char>,
    pub operation_name: Option<Seq<char>>,
    pub variables: Option<serde_json::Value>,
}

impl View for OperationDescriptor {
    type V = DescriptorView;

    open spec fn view(&self) -> DescriptorView {
        DescriptorView {
            query: self.query@,
            operation_name: match self.operation_name {
                Some(name) => Some(name@),
                None => None,
            },
            variables: self.variables,
        }
    }
}

/// What a JSON body or the `operations` part of an upload parses to with
/// `serde_json`, as the request object of `async-graphql`: the descriptor,
/// or the message of the parser where the bytes do not parse as one.
pub uninterp spec fn json_operations(data: Seq<u8>) -> Result<DescriptorView, Seq<char>>;

/// Trusted: `serde_json::from_slice` at the type
/// `async_graphql::http::GQLRequest`. Of a parsed request the three fields
/// (`query`, `operationName`, `variables`) are moved into a descriptor; of an
/// error the message is taken, by `<serde_json::Error as Display>`. The
/// contract only names the outcome: the same bytes always parse to the same
/// descriptor, or fail with the same message.
#[verifier::external_body]
fn read_operations(data: &[u8]) -> (parsed: Result<OperationDescriptor, String>)
    ensures
        parsed matches Ok(descriptor) ==> json_operations(data@) is Ok && json_operations(
            data@,
        )->Ok_0 == descriptor@,
        parsed matches Err(message) ==> json_operations(data@) is Err && json_operations(
            data@,
        )->Err_0 == message@,
{
    match serde_json::from_slice::<async_graphql::http::GQLRequest>(data) {
        Ok(request) => Ok(
            OperationDescriptor {
                query: request.query,
                operation_name: request.operation_name,
                variables: request.variables,
            },
        ),
        Err(error) => Err(error.to_string()),
    }
}

/// What parsing an operation gives: the descriptor, or a parse error with
/// the parser's message.
pub open spec fn parsed_operations(data: Seq<u8>) -> Result<DescriptorView, Failure> {
    match json_operations(data) {
        Ok(descriptor) => Ok(descriptor),
        Err(message) => Err(Failure::ParseError(message)),
    }
}

impl OperationDescriptor {
    /// Parses one operation from JSON. Fails exactly where the bytes are not
    /// a JSON request object, with a parse error that carries the message of
    /// the parser.
    pub fn parse(data: &[u8]) -> (parsed: Result<OperationDescriptor, RequestError>)
        ensures
            match parsed_operations(data@) {
                Ok(descriptor) => parsed matches Ok(operation) && operation@ == descriptor,
                Err(failure) => parsed matches Err(error) && error@ == failure,
            },
    {
        match read_operations(data) {
            Ok(operation) => Ok(operation),
            Err(message) => Err(RequestError::ParseError(message)),
        }
    }
}

} // verus!
