//! The protocol request that a direct operation runs as.

use vstd::prelude::*;

use crate::direct::options::DirectOperationOptions;
use crate::error::Operation;
use crate::json::JsonValue;

verus! {

/// The arguments of an operation request.
#[derive(Debug, PartialEq)]
pub enum OperationArguments {
    Outline { limit: u32, page: u32, options: Option<Vec<(String, JsonValue)>> },
    Read { ref_id: String, limit: u32, page: u32, options: Option<Vec<(String, JsonValue)>> },
    Find { query: String, limit: u32, page: u32, options: Option<Vec<(String, JsonValue)>> },
    Info { options: Option<Vec<(String, JsonValue)>> },
}

/// A protocol request for one operation on one document.
#[derive(Debug, PartialEq)]
pub struct OperationRequest {
    pub protocol_version: String,
    pub request_id: String,
    pub operation: Operation,
    pub path: String,
    pub arguments: OperationArguments,
}

/// The native options a request carries: none when there are none.
pub open spec fn request_options(native: Vec<(String, JsonValue)>) -> Option<Vec<(String, JsonValue)>> {
    if native@.len() == 0 {
        None
    } else {
        Some(native)
    }
}

/// The request of a direct operation: the read operation needs its ref and
/// the find operation its query; the others take what applies to them.
pub fn operation_request(operation: Operation, options: DirectOperationOptions, protocol_version: &str, request_id: &str) -> (r: Result<OperationRequest, String>)
    ensures
        match r {
            Err(e) => {
                ||| operation == Operation::Read && options.ref_id is None && e@ == "read requires --ref <ref>"@
                ||| operation == Operation::Find && options.query is None && e@ == "find requires --query <text>"@
            },
            Ok(req) => {
                &&& req.protocol_version@ == protocol_version@
                &&& req.request_id@ == request_id@
                &&& req.operation == operation
                &&& req.path == options.path
                &&& match operation {
                    Operation::Outline => req.arguments == OperationArguments::Outline {
                        limit: options.limit,
                        page: options.page,
                        options: request_options(options.native_options),
                    },
                    Operation::Read => options.ref_id matches Some(ref_id) && req.arguments == OperationArguments::Read {
                        ref_id,
                        limit: options.limit,
                        page: options.page,
                        options: request_options(options.native_options),
                    },
                    Operation::Find => options.query matches Some(query) && req.arguments == OperationArguments::Find {
                        query,
                        limit: options.limit,
                        page: options.page,
                        options: request_options(options.native_options),
                    },
                    Operation::Info => req.arguments == OperationArguments::Info {
                        options: request_options(options.native_options),
                    },
                }
            },
        },
{
    let DirectOperationOptions { path, page, limit, output: _, ref_id, query, native_options } = options;
    let native = if native_options.len() == 0 {
        None
    } else {
        Some(native_options)
    };
    let arguments = match operation {
        Operation::Outline => OperationArguments::Outline { limit, page, options: native },
        Operation::Read => match ref_id {
            Some(ref_id) => OperationArguments::Read { ref_id, limit, page, options: native },
            None => {
                return Err(String::from_str("read requires --ref <ref>"));
            },
        },
        Operation::Find => match query {
            Some(query) => OperationArguments::Find { query, limit, page, options: native },
            None => {
                return Err(String::from_str("find requires --query <text>"));
            },
        },
        Operation::Info => OperationArguments::Info { options: native },
    };
    Ok(
        OperationRequest {
            protocol_version: String::from_str(protocol_version),
            request_id: String::from_str(request_id),
            operation,
            path,
            arguments,
        },
    )
}

/// Whether the arguments are those of the request's operation: a request
/// whose arguments belong to another operation is refused before it runs.
pub open spec fn arguments_fit(operation: Operation, arguments: OperationArguments) -> bool {
    match operation {
        Operation::Outline => arguments is Outline,
        Operation::Read => arguments is Read,
        Operation::Find => arguments is Find,
        Operation::Info => arguments is Info,
    }
}

/// Whether a request's arguments are those of its operation.
pub fn arguments_match_operation(request: &OperationRequest) -> (r: bool)
    ensures
        r == arguments_fit(request.operation, request.arguments),
{
    match (&request.operation, &request.arguments) {
        (Operation::Outline, OperationArguments::Outline { .. }) => true,
        (Operation::Read, OperationArguments::Read { .. }) => true,
        (Operation::Find, OperationArguments::Find { .. }) => true,
        (Operation::Info, OperationArguments::Info { .. }) => true,
        _ => false,
    }
}

} // verus!
