//! The closed set of math operations and their decoding from a request string.

use vstd::prelude::*;

verus! {

/// One of the recognized elementwise operations.
#[derive(Clone, Copy, Debug, PartialEq, Eq, Structural)]
pub enum Operation {
    Embedding,
    Multiply,
    Add,
}

/// Decodes the request's operation string. Exactly the three recognized
/// strings are accepted; anything else is the error path of the math handler.
pub fn parse_operation(op: &String) -> (r: Option<Operation>)
    ensures
        r == (if op@ == "embedding"@ {
            Some(Operation::Embedding)
        } else if op@ == "multiply"@ {
            Some(Operation::Multiply)
        } else if op@ == "add"@ {
            Some(Operation::Add)
        } else {
            None::<Operation>
        }),
{
    if *op == "embedding".to_owned() {
        Some(Operation::Embedding)
    } else if *op == "multiply".to_owned() {
        Some(Operation::Multiply)
    } else if *op == "add".to_owned() {
        Some(Operation::Add)
    } else {
        None
    }
}

/// The fixed JSON body returned with status 400 for an unrecognized operation.
pub fn error_body() -> (r: String)
    ensures
        r@ == "{\"error\":\"Unknown operation\"}"@,
{
    "{\"error\":\"Unknown operation\"}".to_owned()
}

} // verus!
