use vstd::prelude::*;
use crate::envelope::{JsonReply, Rejection};
use crate::text::same_str;

verus! {

/// The reductions that the compute route offers.
#[derive(Clone, Copy, Debug, PartialEq, Eq, Structural)]
pub enum Operation {
    Sum,
    Mean,
    Max,
    Min,
    Std,
}

/// What a compute request asks for: an operation, by name, on `data_len`
/// numbers. The numbers themselves stay with the caller.
#[derive(Clone, Debug, PartialEq, Eq)]
pub struct ComputeRequest {
    pub data_len: usize,
    pub operation: String,
}

/// A compute request that was accepted: the operation to run, its name as
/// the request wrote it, and the number of values.
#[derive(Clone, Debug, PartialEq, Eq)]
pub struct ComputePlan {
    pub operation: Operation,
    pub name: String,
    pub count: usize,
}

/// The operation that `name` names, if any. Names are case-sensitive.
pub open spec fn operation_named(name: Seq<char>) -> Option<Operation> {
    if name == "sum"@ {
        Some(Operation::Sum)
    } else if name == "mean"@ {
        Some(Operation::Mean)
    } else if name == "max"@ {
        Some(Operation::Max)
    } else if name == "min"@ {
        Some(Operation::Min)
    } else if name == "std"@ {
        Some(Operation::Std)
    } else {
        None
    }
}

/// The operation that `name` names, if any.
pub fn parse_operation(name: &str) -> (operation: Option<Operation>)
    ensures
        operation == operation_named(name@),
{
    if same_str(name, "sum") {
        Some(Operation::Sum)
    } else if same_str(name, "mean") {
        Some(Operation::Mean)
    } else if same_str(name, "max") {
        Some(Operation::Max)
    } else if same_str(name, "min") {
        Some(Operation::Min)
    } else if same_str(name, "std") {
        Some(Operation::Std)
    } else {
        None
    }
}

impl Operation {
    /// The name under which requests ask for this operation.
    pub fn name(self) -> (name: &'static str)
        ensures
            name@ == match self {
                Operation::Sum => "sum"@,
                Operation::Mean => "mean"@,
                Operation::Max => "max"@,
                Operation::Min => "min"@,
                Operation::Std => "std"@,
            },
    {
        match self {
            Operation::Sum => "sum",
            Operation::Mean => "mean",
            Operation::Max => "max",
            Operation::Min => "min",
            Operation::Std => "std",
        }
    }
}

/// Decides a compute request: `body` is the parsed request body, `None`
/// where it could not be parsed. A request without numbers is refused
/// whatever operation it names; one with numbers is refused if its
/// operation is unknown, and the refusal names it. Any other is accepted.
pub fn handle_compute(body: Option<ComputeRequest>) -> (out: Result<ComputePlan, JsonReply<()>>)
    ensures
        match body {
            None => out matches Err(reply) && reply.is_rejection(Rejection::InvalidJson),
            Some(request) => if request.data_len == 0 {
                out matches Err(reply) && reply.is_rejection(Rejection::EmptyData)
            } else {
                match operation_named(request.operation@) {
                    None => out matches Err(reply) && reply.is_rejection(
                        Rejection::UnknownOperation(request.operation),
                    ),
                    Some(operation) => out == Ok::<ComputePlan, JsonReply<()>>(
                        ComputePlan {
                            operation,
                            name: request.operation,
                            count: request.data_len,
                        },
                    ),
                }
            },
        },
        out matches Err(reply) ==> reply.status == 400 && reply.body.well_formed(),
{
    match body {
        None => Err(JsonReply::rejected(&Rejection::InvalidJson)),
        Some(request) => {
            if request.data_len == 0 {
                return Err(JsonReply::rejected(&Rejection::EmptyData));
            }
            match parse_operation(request.operation.as_str()) {
                None => Err(
                    JsonReply::rejected(&Rejection::UnknownOperation(request.operation)),
                ),
                Some(operation) => Ok(
                    ComputePlan { operation, name: request.operation, count: request.data_len },
                ),
            }
        },
    }
}

} // verus!
