//! Generator for a media-payload capability: given a description of an enum
//! whose variants each wrap one payload type, it validates the shape and the
//! declared content types, and emits the source text of an implementation
//! that registers every payload schema, reports documentation metadata, and
//! dispatches an incoming request body on its declared content type.

pub mod collect;
pub mod dispatch;
pub mod emit;
pub mod mimecheck;
pub mod model;
pub mod registry;
pub mod text;

use vstd::prelude::*;

use crate::collect::{collect, variant_error, variant_ok};
use crate::emit::{emit, spec_emit};
use crate::model::{GenError, ItemDesc, ItemShape};

verus! {

/// Runs one generation pass over a described item: validates its shape and
/// content types, and on success returns the source text of the emitted
/// capability implementation; on failure, the anchored error of the first
/// offending construct.
pub fn generate(desc: &ItemDesc) -> (r: Result<String, GenError>)
    ensures
        (desc.shape is Other ==> (r matches Err(e) && e.anchor is ItemName && e.message@
            == "ResponseMediaArgs can only be applied to an enum."@)),
        (desc.shape matches ItemShape::Enum(vs) ==> {
            &&& (r is Ok <==> (forall|i: int| 0 <= i < vs@.len() ==> variant_ok(vs@[i])))
            &&& (r matches Ok(out) ==> out@ == spec_emit(*desc))
            &&& (r matches Err(e) ==> exists|i: int|
                0 <= i < vs@.len() && !variant_ok(vs@[i]) && (forall|k: int|
                    0 <= k < i ==> variant_ok(vs@[k])) && variant_error(vs@[i], i, e))
        }),
{
    match collect(desc) {
        Ok(c) => Ok(emit(desc, &c)),
        Err(e) => Err(e),
    }
}

} // verus!
