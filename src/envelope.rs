//! The request/response envelope around the engine, carrying a correlation id.
use crate::engine::{wobble, wobble_output, WobbleOptions};
use vstd::prelude::*;

verus! {

/// One transformation job. `id` is the UUID as its 128-bit big-endian value.
#[derive(Debug)]
pub struct WobbleRequest {
    pub id: u128,
    pub options: WobbleOptions,
    pub input: String,
}

/// The result of one job, under the id of its request.
#[derive(Debug)]
pub struct WobbleResponse {
    pub id: u128,
    pub output: String,
}

/// A version-4 (random) UUID of the RFC 4122 variant: version nibble 4 and
/// variant bits `10`.
pub open spec fn is_v4_id(id: u128) -> bool {
    &&& (id >> 76u128) & 0xfu128 == 4
    &&& (id >> 62u128) & 0x3u128 == 2
}

/// Relies on `uuid::Uuid::new_v4`, which masks a random `u128` and sets the
/// version and variant bits; `as_u128` gives that value back.
#[verifier::external_body]
fn new_v4_id() -> (id: u128)
    ensures
        is_v4_id(id),
{
    uuid::Uuid::new_v4().as_u128()
}

/// A version-4 id is never the nil UUID.
pub proof fn lemma_v4_not_nil(id: u128)
    requires
        is_v4_id(id),
    ensures
        id != 0,
{
    assert(is_v4_id(id) ==> id != 0) by (bit_vector);
}

impl WobbleRequest {
    /// A request for `input` under `options` with a freshly generated id.
    pub fn new(input: String, options: WobbleOptions) -> (r: WobbleRequest)
        ensures
            is_v4_id(r.id),
            r.id != 0,
            r.options == options,
            r.input@ == input@,
    {
        let id = new_v4_id();
        proof {
            lemma_v4_not_nil(id);
        }
        WobbleRequest { id, options, input }
    }
}

/// Runs the engine on the request's input and options and answers under the
/// request's id.
pub fn wobble_api(req: &WobbleRequest) -> (r: WobbleResponse)
    ensures
        r.id == req.id,
        r.output@ == wobble_output(req.input@, req.options),
{
    WobbleResponse { id: req.id, output: wobble(req.input.as_str(), &req.options) }
}

} // verus!
