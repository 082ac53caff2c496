//! Properties of the protocol that relate several operations or hold of
//! every reply.
use vstd::prelude::*;
use crate::facade::hash_value_of;
use crate::json::{JsonView, str_member_of};
use crate::protocol::{answer_of, envelope_of, load_module_request_of};
use crate::session::session_after;

verus! {

/// Loading the same module twice succeeds on each envelope that comes back,
/// and leaves the session with that module loaded both times; the two
/// requests differ in nothing but the token they carry.
pub proof fn lemma_load_module_idempotent(
    token: Seq<char>,
    module: Seq<char>,
    first: JsonView,
    second: JsonView,
)
    requires
        envelope_of(first) is Some,
        envelope_of(second) is Some,
    ensures
        ({
            let after_first = session_after(module, envelope_of(first)->0);
            let after_second = session_after(module, envelope_of(second)->0);
            &&& after_first.module == module
            &&& after_second.module == module
            &&& load_module_request_of(Some(after_first.token), module).method
                == load_module_request_of(Some(token), module).method
            &&& load_module_request_of(Some(after_first.token), module).params->Object_0[1]
                == load_module_request_of(Some(token), module).params->Object_0[1]
        }),
{
}

/// After a successful operation the session's token is exactly the `state`
/// of the reply's envelope, and never empty.
pub proof fn lemma_token_replaced(module: Seq<char>, reply: JsonView)
    requires
        envelope_of(reply) is Some,
    ensures
        session_after(module, envelope_of(reply)->0).token == str_member_of(reply, "state"@)->0,
        session_after(module, envelope_of(reply)->0).token.len() > 0,
{
}

/// An `answer` that is an array holds no `Answer`, and a value that is an
/// array holds no hash value: decoding either is a `DecodeError`.
pub proof fn lemma_array_is_not_decoded(items: Seq<JsonView>)
    ensures
        answer_of(JsonView::Array(items)) is None,
        hash_value_of(JsonView::Array(items)) is None,
{
}

} // verus!
