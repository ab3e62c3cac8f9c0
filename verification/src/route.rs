//! The top of the core: deciding what an invocation does, and routing a
//! path to a destination and a delivery strategy.

use vstd::prelude::*;

use crate::config::{find_destination, Rule};
use crate::errors::PrintError;
use crate::pattern::regex_accepts;
use crate::selector::{extension_spec, pdf_ext, select_delivery, Delivery};

verus! {

/// What one process invocation is to do, decided from its argument list.
pub enum InvocationPlan {
    /// Too few arguments: emit the usage message and exit successfully.
    Usage,
    /// Route and deliver the named file.
    Print { file_path: String },
}

/// Decides the invocation: fewer than two arguments (the program name
/// included) ask for the usage message and a successful exit; otherwise
/// the second argument names the file to print.
pub fn plan_invocation(args: &Vec<String>) -> (r: InvocationPlan)
    ensures
        args@.len() < 2 ==> r is Usage,
        args@.len() >= 2 ==> (r matches InvocationPlan::Print { file_path } && file_path@
            == args@[1]@),
{
    if args.len() < 2 {
        InvocationPlan::Usage
    } else {
        InvocationPlan::Print { file_path: args[1].clone() }
    }
}

/// Routes a path: the destination of the first rule whose pattern
/// matches, paired with the delivery strategy the path's extension
/// selects. No matching rule is the `NoRuleMatched` error.
pub fn route(rules: &Vec<Rule>, path: &str) -> (r: Result<(String, Delivery), PrintError>)
    ensures
        match r {
            Ok(p) => {
                &&& exists|i: int|
                    0 <= i < rules@.len() && regex_accepts(rules@[i]@.0, path@) && p.0@
                        == rules@[i]@.1 && (forall|j: int|
                        0 <= j < i ==> !regex_accepts(rules@[j]@.0, path@))
                &&& p.1 is ExternalConverter <==> extension_spec(path@) == Some(pdf_ext())
            },
            Err(e) => {
                &&& e is NoRuleMatched
                &&& forall|i: int| 0 <= i < rules@.len() ==> !regex_accepts(rules@[i]@.0, path@)
            },
        },
{
    match find_destination(rules, path) {
        Some(dest) => {
            let d = select_delivery(path);
            Ok((dest, d))
        },
        None => Err(PrintError::NoRuleMatched),
    }
}

} // verus!
