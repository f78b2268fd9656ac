//! The shape validator and collector: walks the enum description in
//! declaration order, enforces the one-field-per-variant invariant,
//! validates explicit content types, and produces the four parallel ordered
//! sequences the emitter consumes.

use vstd::prelude::*;

use crate::emit::{
    render_content_type_spec, render_dispatch_arm, render_media_type_entry, spec_content_type_expr,
    spec_crate_path, spec_ct_spec_text, spec_dispatch_arm, spec_media_type_entry,
};
use crate::mimecheck::{is_mime_essence, mime_essence_ok};
use crate::model::{ContentTypeSpec, ErrorAnchor, GenError, ItemDesc, ItemShape, VariantDesc};

verus! {

/// A variant has the required shape: exactly one field, the payload.
pub open spec fn variant_shape_ok(v: VariantDesc) -> bool {
    v.field_types@.len() == 1
}

/// A variant's explicit content type, if any, is a parameterless MIME type.
pub open spec fn variant_content_type_ok(v: VariantDesc) -> bool {
    v.content_type matches Some(ct) ==> mime_essence_ok(ct@)
}

/// A variant passes validation entirely.
pub open spec fn variant_ok(v: VariantDesc) -> bool {
    variant_shape_ok(v) && variant_content_type_ok(v)
}

/// The error reported for the first failing variant: a malformed shape is
/// anchored to the variant's name, an invalid explicit content type to the
/// content-type literal.
pub open spec fn variant_error(v: VariantDesc, i: int, e: GenError) -> bool {
    if !variant_shape_ok(v) {
        &&& e.anchor matches ErrorAnchor::VariantName(j) && j == i
        &&& e.message@ == "Incorrect request definition."@
    } else {
        &&& e.anchor matches ErrorAnchor::ContentTypeLiteral(j) && j == i
        &&& e.message@ == "Invalid mime type"@
    }
}

/// The resolved content type corresponds to the variant's declaration.
pub open spec fn ct_spec_for_variant(s: ContentTypeSpec, v: VariantDesc) -> bool {
    match v.content_type {
        Option::Some(ct) => s matches ContentTypeSpec::Explicit(e) && e@ == ct@,
        Option::None => s matches ContentTypeSpec::DeferredToType(t) && t@ == v.field_types@[0]@,
    }
}

/// The four parallel ordered sequences produced for an enum, one entry per
/// variant in declaration order: rendered content-type expressions, rendered
/// dispatch arms, rendered documentation-metadata entries, and the payload
/// type references for schema registration.
pub struct Collected {
    pub content_types: Vec<String>,
    pub dispatch_arms: Vec<String>,
    pub doc_entries: Vec<String>,
    pub payload_types: Vec<String>,
}

/// Each collected sequence has one entry per variant, in declaration order,
/// with exactly the rendered text of that variant.
pub open spec fn collected_matches(c: Collected, vs: Seq<VariantDesc>, internal: bool) -> bool {
    let cr = spec_crate_path(internal);
    &&& c.content_types@.len() == vs.len()
    &&& c.dispatch_arms@.len() == vs.len()
    &&& c.doc_entries@.len() == vs.len()
    &&& c.payload_types@.len() == vs.len()
    &&& (forall|i: int|
        0 <= i < vs.len() ==> (#[trigger] c.content_types@[i])@ == spec_content_type_expr(
            cr,
            vs[i],
        ))
    &&& (forall|i: int|
        0 <= i < vs.len() ==> (#[trigger] c.dispatch_arms@[i])@ == spec_dispatch_arm(
            cr,
            vs[i].name@,
            vs[i].field_types@[0]@,
            i as nat,
        ))
    &&& (forall|i: int|
        0 <= i < vs.len() ==> (#[trigger] c.doc_entries@[i])@ == spec_media_type_entry(
            cr,
            spec_content_type_expr(cr, vs[i]),
            vs[i].field_types@[0]@,
        ))
    &&& (forall|i: int|
        0 <= i < vs.len() ==> (#[trigger] c.payload_types@[i])@ == vs[i].field_types@[0]@)
}

/// Resolves a variant's content type: validates an explicit literal as a
/// parameterless MIME type, or defers to the payload type's own declared
/// content type when no literal is given.
pub fn resolve_content_type(v: &VariantDesc, idx: usize) -> (r: Result<ContentTypeSpec, GenError>)
    requires
        variant_shape_ok(*v),
    ensures
        r is Ok <==> variant_content_type_ok(*v),
        (r matches Ok(s) ==> ct_spec_for_variant(s, *v)),
        (r matches Err(e) ==> e.anchor matches ErrorAnchor::ContentTypeLiteral(j) && j == idx
            && e.message@ == "Invalid mime type"@),
{
    match &v.content_type {
        Option::Some(ct) => {
            if is_mime_essence(ct.as_str()) {
                Ok(ContentTypeSpec::Explicit(ct.clone()))
            } else {
                Err(
                    GenError {
                        anchor: ErrorAnchor::ContentTypeLiteral(idx),
                        message: String::from_str("Invalid mime type"),
                    },
                )
            }
        },
        Option::None => Ok(ContentTypeSpec::DeferredToType(v.field_types[0].clone())),
    }
}

/// Validates the described item and collects the per-variant sequences.
///
/// A non-enum item is rejected at once. Variants are processed in
/// declaration order, and the first failing variant aborts the pass with
/// its error; on success every sequence has one entry per variant, in
/// declaration order.
pub fn collect(desc: &ItemDesc) -> (r: Result<Collected, GenError>)
    ensures
        (desc.shape is Other ==> (r matches Err(e) && e.anchor is ItemName && e.message@
            == "ResponseMediaArgs can only be applied to an enum."@)),
        (desc.shape matches ItemShape::Enum(vs) ==> {
            &&& (r is Ok <==> (forall|i: int| 0 <= i < vs@.len() ==> variant_ok(vs@[i])))
            &&& (r matches Ok(c) ==> collected_matches(c, vs@, desc.internal))
            &&& (r matches Err(e) ==> exists|i: int|
                0 <= i < vs@.len() && !variant_ok(vs@[i]) && (forall|k: int|
                    0 <= k < i ==> variant_ok(vs@[k])) && variant_error(vs@[i], i, e))
        }),
{
    let vs = match &desc.shape {
        ItemShape::Enum(vs) => vs,
        ItemShape::Other => {
            return Err(
                GenError {
                    anchor: ErrorAnchor::ItemName,
                    message: String::from_str("ResponseMediaArgs can only be applied to an enum."),
                },
            );
        },
    };
    let ghost cr = spec_crate_path(desc.internal);
    let mut content_types: Vec<String> = Vec::new();
    let mut dispatch_arms: Vec<String> = Vec::new();
    let mut doc_entries: Vec<String> = Vec::new();
    let mut payload_types: Vec<String> = Vec::new();
    let mut idx: usize = 0;
    while idx < vs.len()
        invariant
            0 <= idx <= vs@.len(),
            desc.shape matches ItemShape::Enum(vs2) && vs2@ == vs@,
            cr == spec_crate_path(desc.internal),
            forall|k: int| 0 <= k < idx ==> variant_ok(vs@[k]),
            content_types@.len() == idx,
            dispatch_arms@.len() == idx,
            doc_entries@.len() == idx,
            payload_types@.len() == idx,
            forall|i: int|
                0 <= i < idx ==> (#[trigger] content_types@[i])@ == spec_content_type_expr(
                    cr,
                    vs@[i],
                ),
            forall|i: int|
                0 <= i < idx ==> (#[trigger] dispatch_arms@[i])@ == spec_dispatch_arm(
                    cr,
                    vs@[i].name@,
                    vs@[i].field_types@[0]@,
                    i as nat,
                ),
            forall|i: int|
                0 <= i < idx ==> (#[trigger] doc_entries@[i])@ == spec_media_type_entry(
                    cr,
                    spec_content_type_expr(cr, vs@[i]),
                    vs@[i].field_types@[0]@,
                ),
            forall|i: int|
                0 <= i < idx ==> (#[trigger] payload_types@[i])@ == vs@[i].field_types@[0]@,
        decreases vs@.len() - idx,
    {
        let v = &vs[idx];
        if v.field_types.len() != 1 {
            return Err(
                GenError {
                    anchor: ErrorAnchor::VariantName(idx),
                    message: String::from_str("Incorrect request definition."),
                },
            );
        }
        let resolved = match resolve_content_type(v, idx) {
            Ok(s) => s,
            Err(e) => {
                return Err(e);
            },
        };
        let ct_text = render_content_type_spec(desc.internal, &resolved);
        proof {
            assert(spec_ct_spec_text(cr, resolved) == spec_content_type_expr(cr, vs@[idx as int]));
        }
        let arm = render_dispatch_arm(
            desc.internal,
            v.name.as_str(),
            v.field_types[0].as_str(),
            idx,
        );
        let entry = render_media_type_entry(
            desc.internal,
            ct_text.as_str(),
            v.field_types[0].as_str(),
        );
        let payload = v.field_types[0].clone();
        content_types.push(ct_text);
        dispatch_arms.push(arm);
        doc_entries.push(entry);
        payload_types.push(payload);
        idx += 1;
    }
    Ok(Collected { content_types, dispatch_arms, doc_entries, payload_types })
}

} // verus!
