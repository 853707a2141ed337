use vstd::prelude::*;
use vstd::string::StringExecFns;

use crate::error::UnraidError;

verus! {

/// One server-reported query error of a response envelope.
#[derive(Debug, Clone)]
pub struct GraphQlError {
    pub message: String,
}

/// The response envelope: optional payload and an optional error list, as
/// the wire protocol delivers it. The network and JSON layers outside this
/// crate fill it in; deciding what it means happens here.
#[derive(Debug, Clone)]
pub struct GraphQlResponse<T> {
    pub data: Option<T>,
    pub errors: Option<Vec<GraphQlError>>,
}

/// Whether the envelope carries a non-empty error list.
pub open spec fn has_graphql_errors<T>(r: GraphQlResponse<T>) -> bool {
    match r.errors {
        Some(es) => es@.len() > 0,
        None => false,
    }
}

/// The envelope's error list; empty when none was sent.
pub open spec fn error_list<T>(r: GraphQlResponse<T>) -> Seq<GraphQlError> {
    match r.errors {
        Some(es) => es@,
        None => Seq::empty(),
    }
}

/// The error messages joined with ", ", in order.
pub open spec fn joined_messages(msgs: Seq<GraphQlError>) -> Seq<char>
    decreases msgs.len(),
{
    if msgs.len() == 0 {
        Seq::empty()
    } else if msgs.len() == 1 {
        msgs[0].message@
    } else {
        joined_messages(msgs.drop_last()) + ", "@ + msgs.last().message@
    }
}

/// Joins the error messages with ", ".
pub fn join_messages(msgs: &Vec<GraphQlError>) -> (r: String)
    ensures
        r@ == joined_messages(msgs@),
{
    let mut r = String::new();
    let mut i: usize = 0;
    while i < msgs.len()
        invariant
            0 <= i <= msgs@.len(),
            r@ == joined_messages(msgs@.take(i as int)),
        decreases msgs@.len() - i,
    {
        if i > 0 {
            r.append(", ");
        }
        r.append(msgs[i].message.as_str());
        proof {
            let prefix = msgs@.take(i as int);
            let next = msgs@.take(i + 1);
            assert(next.drop_last() =~= prefix);
            assert(next.last() == msgs@[i as int]);
            assert(r@ =~= joined_messages(next));
        }
        i = i + 1;
    }
    proof {
        assert(msgs@.take(msgs@.len() as int) =~= msgs@);
    }
    r
}

/// Decides what a received envelope means: a non-empty error list fails with
/// `GraphQl` carrying every message joined by ", "; otherwise present data is
/// returned; otherwise the envelope is empty and fails with `NoData`.
pub fn process_response<T>(response: GraphQlResponse<T>) -> (r: Result<T, UnraidError>)
    ensures
        has_graphql_errors(response) ==> (r matches Err(e) && (e matches UnraidError::GraphQl {
            message,
        } && message@ == joined_messages(error_list(response)))),
        !has_graphql_errors(response) && response.data is Some ==> r == Ok::<T, UnraidError>(
            response.data->0,
        ),
        !has_graphql_errors(response) && response.data is None ==> (r matches Err(e)
            && e is NoData),
{
    let GraphQlResponse { data, errors } = response;
    if let Some(error_vec) = errors {
        if error_vec.len() > 0 {
            let message = join_messages(&error_vec);
            return Err(UnraidError::GraphQl { message });
        }
    }
    match data {
        Some(d) => Ok(d),
        None => Err(UnraidError::NoData),
    }
}

} // verus!
