//! The code emitter: a pure function from the collected per-variant data and
//! the enum's identity to the source text of the capability implementation.
//! Every rendering function carries a specification that pins the emitted
//! text exactly.

use vstd::prelude::*;

use crate::collect::{collected_matches, Collected};
use crate::model::{ContentTypeSpec, ItemDesc, ItemShape, VariantDesc};
use crate::text::{append_all, concat_views, dec_string, escape_text, lemma_seq_views_push, seq_views, spec_dec, spec_escape};

verus! {

/// The crate path the emitted code resolves the framework through: the
/// crate itself when the annotation is used from inside it, the external
/// path otherwise.
pub open spec fn spec_crate_path(internal: bool) -> Seq<char> {
    if internal {
        "crate"@
    } else {
        "::poem_openapi"@
    }
}

pub fn crate_path(internal: bool) -> (r: &'static str)
    ensures
        r@ == spec_crate_path(internal),
{
    if internal {
        "crate"
    } else {
        "::poem_openapi"
    }
}

/// The rendered content-type expression of a resolved spec: a quoted
/// literal for an explicit one, a symbolic lookup of the payload type's
/// declared constant for a deferred one.
pub open spec fn spec_ct_spec_text(cr: Seq<char>, s: ContentTypeSpec) -> Seq<char> {
    match s {
        ContentTypeSpec::Explicit(e) => "\""@ + spec_escape(e@) + "\""@,
        ContentTypeSpec::DeferredToType(t) => "<"@ + t@ + " as "@ + cr
            + "::payload::Payload>::CONTENT_TYPE"@,
    }
}

/// The rendered content-type expression of a variant: its explicit literal
/// when one is declared, else the deferred reference to its payload type.
pub open spec fn spec_content_type_expr(cr: Seq<char>, v: VariantDesc) -> Seq<char> {
    match v.content_type {
        Option::Some(ct) => "\""@ + spec_escape(ct@) + "\""@,
        Option::None => "<"@ + v.field_types@[0]@ + " as "@ + cr
            + "::payload::Payload>::CONTENT_TYPE"@,
    }
}

pub fn render_content_type_spec(internal: bool, s: &ContentTypeSpec) -> (r: String)
    ensures
        r@ == spec_ct_spec_text(spec_crate_path(internal), *s),
{
    match s {
        ContentTypeSpec::Explicit(e) => {
            let mut out = String::from_str("\"");
            let esc = escape_text(e.as_str());
            out.append(esc.as_str());
            out.append("\"");
            out
        },
        ContentTypeSpec::DeferredToType(t) => {
            let mut out = String::from_str("<");
            out.append(t.as_str());
            out.append(" as ");
            out.append(crate_path(internal));
            out.append("::payload::Payload>::CONTENT_TYPE");
            out
        },
    }
}

/// One line of the registration routine: forwards the schema registration
/// of one payload type.
pub open spec fn spec_register_line(cr: Seq<char>, payload: Seq<char>) -> Seq<char> {
    "        <"@ + payload + " as "@ + cr + "::payload::Payload>::register(registry);\n"@
}

pub fn render_register_line(internal: bool, payload: &str) -> (r: String)
    ensures
        r@ == spec_register_line(spec_crate_path(internal), payload@),
{
    let mut out = String::from_str("        <");
    out.append(payload);
    out.append(" as ");
    out.append(crate_path(internal));
    out.append("::payload::Payload>::register(registry);\n");
    out
}

/// One documentation-metadata entry: the variant's content type paired with
/// a reference to its payload type's schema.
pub open spec fn spec_media_type_entry(cr: Seq<char>, ct_text: Seq<char>, payload: Seq<char>) -> Seq<
    char,
> {
    "                "@ + cr + "::registry::MetaMediaType { content_type: "@ + ct_text
        + ", schema: <"@ + payload + " as "@ + cr + "::payload::Payload>::schema_ref() },\n"@
}

pub fn render_media_type_entry(internal: bool, ct_text: &str, payload: &str) -> (r: String)
    ensures
        r@ == spec_media_type_entry(spec_crate_path(internal), ct_text@, payload@),
{
    let mut out = String::from_str("                ");
    out.append(crate_path(internal));
    out.append("::registry::MetaMediaType { content_type: ");
    out.append(ct_text);
    out.append(", schema: <");
    out.append(payload);
    out.append(" as ");
    out.append(crate_path(internal));
    out.append("::payload::Payload>::schema_ref() },\n");
    out
}

/// One entry of the content-type table the emitted decoder builds.
pub open spec fn spec_table_line(ct_text: Seq<char>) -> Seq<char> {
    "                    "@ + ct_text + ",\n"@
}

pub fn render_table_line(ct_text: &str) -> (r: String)
    ensures
        r@ == spec_table_line(ct_text@),
{
    let mut out = String::from_str("                    ");
    out.append(ct_text);
    out.append(",\n");
    out
}

/// One dispatch arm: on a match at this index, decode the variant's payload
/// from the body and wrap it in the variant's constructor.
pub open spec fn spec_dispatch_arm(
    cr: Seq<char>,
    variant: Seq<char>,
    payload: Seq<char>,
    idx: nat,
) -> Seq<char> {
    "                    ::std::option::Option::Some("@ + spec_dec(idx)
        + "usize) => {\n                        let payload = <"@ + payload + " as "@ + cr
        + "::payload::Payload>::from_request(request, body, ::std::default::Default::default()).await?;\n                        ::std::result::Result::Ok(Self::"@
        + variant + "(payload))\n                    }\n"@
}

pub fn render_dispatch_arm(internal: bool, variant: &str, payload: &str, idx: usize) -> (r: String)
    ensures
        r@ == spec_dispatch_arm(spec_crate_path(internal), variant@, payload@, idx as nat),
{
    let mut out = String::from_str("                    ::std::option::Option::Some(");
    let num = dec_string(idx);
    out.append(num.as_str());
    out.append("usize) => {\n                        let payload = <");
    out.append(payload);
    out.append(" as ");
    out.append(crate_path(internal));
    out.append(
        "::payload::Payload>::from_request(request, body, ::std::default::Default::default()).await?;\n                        ::std::result::Result::Ok(Self::",
    );
    out.append(variant);
    out.append("(payload))\n                    }\n");
    out
}

/// The rendered description value: the item's documentation text as a
/// quoted literal when present, else an absent value.
pub open spec fn spec_description_expr(doc: Option<String>) -> Seq<char> {
    match doc {
        Option::Some(d) => "::std::option::Option::Some(\""@ + spec_escape(d@) + "\")"@,
        Option::None => "::std::option::Option::None"@,
    }
}

pub fn render_description_expr(doc: &Option<String>) -> (r: String)
    ensures
        r@ == spec_description_expr(*doc),
{
    match doc {
        Option::Some(d) => {
            let mut out = String::from_str("::std::option::Option::Some(\"");
            let esc = escape_text(d.as_str());
            out.append(esc.as_str());
            out.append("\")");
            out
        },
        Option::None => String::from_str("::std::option::Option::None"),
    }
}

/// The variants of a described item's shape; empty when it is not an enum.
pub open spec fn shape_variants(shape: ItemShape) -> Seq<VariantDesc> {
    match shape {
        ItemShape::Enum(vs) => vs@,
        ItemShape::Other => Seq::empty(),
    }
}

/// The head of the emitted implementation: the trait header and the
/// associated items that mark the capability as a request object with no
/// extracted parameters.
pub open spec fn spec_header(
    cr: Seq<char>,
    name: Seq<char>,
    impl_generics: Seq<char>,
    ty_generics: Seq<char>,
    where_clause: Seq<char>,
) -> Seq<char> {
    "#["@ + cr + "::__private::poem::async_trait]\nimpl "@ + impl_generics + " "@ + cr
        + "::Payload for "@ + name + ty_generics + " "@ + where_clause + " {\n    const TYPE: "@
        + cr + "::ApiExtractorType = "@ + cr
        + "::ApiExtractorType::RequestObject;\n\n    type ParamType = ();\n    type ParamRawType = ();\n\n"@
}

fn render_header(desc: &ItemDesc) -> (r: String)
    ensures
        r@ == spec_header(
            spec_crate_path(desc.internal),
            desc.name@,
            desc.generics.impl_generics@,
            desc.generics.ty_generics@,
            desc.generics.where_clause@,
        ),
{
    let mut out = String::from_str("#[");
    out.append(crate_path(desc.internal));
    out.append("::__private::poem::async_trait]\nimpl ");
    out.append(desc.generics.impl_generics.as_str());
    out.append(" ");
    out.append(crate_path(desc.internal));
    out.append("::Payload for ");
    out.append(desc.name.as_str());
    out.append(desc.generics.ty_generics.as_str());
    out.append(" ");
    out.append(desc.generics.where_clause.as_str());
    out.append(" {\n    const TYPE: ");
    out.append(crate_path(desc.internal));
    out.append("::ApiExtractorType = ");
    out.append(crate_path(desc.internal));
    out.append(
        "::ApiExtractorType::RequestObject;\n\n    type ParamType = ();\n    type ParamRawType = ();\n\n",
    );
    out
}

/// The emitted registration routine: one forwarded schema registration per
/// variant, in declaration order.
pub open spec fn spec_register_block(cr: Seq<char>, vs: Seq<VariantDesc>) -> Seq<char> {
    "    fn register(registry: &mut "@ + cr + "::registry::Registry) {\n"@ + concat_views(
        Seq::new(vs.len(), |i: int| spec_register_line(cr, vs[i].field_types@[0]@)),
    ) + "    }\n\n"@
}

fn register_block(internal: bool, payload_types: &Vec<String>, Ghost(vs): Ghost<Seq<VariantDesc>>) -> (r:
    String)
    requires
        payload_types@.len() == vs.len(),
        forall|i: int|
            0 <= i < vs.len() ==> (#[trigger] payload_types@[i])@ == vs[i].field_types@[0]@,
    ensures
        r@ == spec_register_block(spec_crate_path(internal), vs),
{
    let ghost cr = spec_crate_path(internal);
    let ghost target = Seq::new(vs.len(), |i: int| spec_register_line(cr, vs[i].field_types@[0]@));
    let mut lines: Vec<String> = Vec::new();
    let mut i: usize = 0;
    while i < payload_types.len()
        invariant
            0 <= i <= payload_types@.len(),
            payload_types@.len() == vs.len(),
            forall|k: int|
                0 <= k < vs.len() ==> (#[trigger] payload_types@[k])@ == vs[k].field_types@[0]@,
            cr == spec_crate_path(internal),
            target == Seq::new(vs.len(), |k: int| spec_register_line(cr, vs[k].field_types@[0]@)),
            seq_views(lines@) == target.take(i as int),
        decreases payload_types@.len() - i,
    {
        let line = render_register_line(internal, payload_types[i].as_str());
        let ghost prev = lines@;
        lines.push(line);
        proof {
            lemma_seq_views_push(prev, line);
            assert(target.take(i + 1) =~= target.take(i as int).push(target[i as int]));
        }
        i += 1;
    }
    proof {
        assert(target.take(vs.len() as int) =~= target);
    }
    let mut out = String::from_str("    fn register(registry: &mut ");
    out.append(crate_path(internal));
    out.append("::registry::Registry) {\n");
    append_all(&mut out, &lines);
    out.append("    }\n\n");
    out
}

/// The emitted documentation-metadata accessor: unconditionally a present
/// record holding the description, the ordered content entries, and a
/// required marker.
pub open spec fn spec_meta_block(cr: Seq<char>, doc: Option<String>, vs: Seq<VariantDesc>) -> Seq<
    char,
> {
    "    fn request_meta() -> ::std::option::Option<"@ + cr
        + "::registry::MetaRequest> {\n        ::std::option::Option::Some("@ + cr
        + "::registry::MetaRequest {\n            description: "@ + spec_description_expr(doc)
        + ",\n            content: ::std::vec![\n"@ + concat_views(
        Seq::new(
            vs.len(),
            |i: int|
                spec_media_type_entry(cr, spec_content_type_expr(cr, vs[i]), vs[i].field_types@[0]@),
        ),
    ) + "            ],\n            required: true,\n        })\n    }\n\n"@
}

fn meta_block(
    internal: bool,
    doc: &Option<String>,
    doc_entries: &Vec<String>,
    Ghost(vs): Ghost<Seq<VariantDesc>>,
) -> (r: String)
    requires
        doc_entries@.len() == vs.len(),
        forall|i: int|
            0 <= i < vs.len() ==> (#[trigger] doc_entries@[i])@ == spec_media_type_entry(
                spec_crate_path(internal),
                spec_content_type_expr(spec_crate_path(internal), vs[i]),
                vs[i].field_types@[0]@,
            ),
    ensures
        r@ == spec_meta_block(spec_crate_path(internal), *doc, vs),
{
    let ghost cr = spec_crate_path(internal);
    let mut out = String::from_str("    fn request_meta() -> ::std::option::Option<");
    out.append(crate_path(internal));
    out.append("::registry::MetaRequest> {\n        ::std::option::Option::Some(");
    out.append(crate_path(internal));
    out.append("::registry::MetaRequest {\n            description: ");
    let desc_expr = render_description_expr(doc);
    out.append(desc_expr.as_str());
    out.append(",\n            content: ::std::vec![\n");
    proof {
        assert(seq_views(doc_entries@) =~= Seq::new(
            vs.len(),
            |i: int|
                spec_media_type_entry(cr, spec_content_type_expr(cr, vs[i]), vs[i].field_types@[0]@),
        ));
    }
    append_all(&mut out, doc_entries);
    out.append("            ],\n            required: true,\n        })\n    }\n\n");
    out
}

/// The emitted asynchronous decoder: on an absent content type it fails at
/// once; on a present one it builds the ordered content-type table, takes
/// the first match's arm, and reports an unsupported content type when no
/// entry matches.
pub open spec fn spec_decode_block(cr: Seq<char>, vs: Seq<VariantDesc>) -> Seq<char> {
    "    async fn from_request(request: &'__request "@ + cr + "::__private::poem::Request, body: &mut "@ + cr
        + "::__private::poem::RequestBody, _param_opts: "@ + cr
        + "::ExtractParamOptions<Self::ParamType>) -> "@ + cr
        + "::__private::poem::Result<Self> {\n        match request.content_type() {\n            ::std::option::Option::Some(content_type) => {\n                let table = "@
        + cr + "::__private::ContentTypeTable::new(&[\n"@ + concat_views(
        Seq::new(vs.len(), |i: int| spec_table_line(spec_content_type_expr(cr, vs[i]))),
    )
        + "                ]);\n                match table.matches(content_type) {\n"@
        + concat_views(
        Seq::new(
            vs.len(),
            |i: int| spec_dispatch_arm(cr, vs[i].name@, vs[i].field_types@[0]@, i as nat),
        ),
    )
        + "                    _ => {\n                        ::std::result::Result::Err(::std::convert::Into::into("@
        + cr
        + "::error::ContentTypeError::NotSupported { content_type: ::std::string::ToString::to_string(content_type) }))\n                    }\n                }\n            }\n            ::std::option::Option::None => {\n                ::std::result::Result::Err(::std::convert::Into::into("@
        + cr
        + "::error::ContentTypeError::ExpectContentType))\n            }\n        }\n    }\n"@
}

fn decode_block(
    internal: bool,
    content_types: &Vec<String>,
    dispatch_arms: &Vec<String>,
    Ghost(vs): Ghost<Seq<VariantDesc>>,
) -> (r: String)
    requires
        content_types@.len() == vs.len(),
        dispatch_arms@.len() == vs.len(),
        forall|i: int|
            0 <= i < vs.len() ==> (#[trigger] content_types@[i])@ == spec_content_type_expr(
                spec_crate_path(internal),
                vs[i],
            ),
        forall|i: int|
            0 <= i < vs.len() ==> (#[trigger] dispatch_arms@[i])@ == spec_dispatch_arm(
                spec_crate_path(internal),
                vs[i].name@,
                vs[i].field_types@[0]@,
                i as nat,
            ),
    ensures
        r@ == spec_decode_block(spec_crate_path(internal), vs),
{
    let ghost cr = spec_crate_path(internal);
    let ghost table_target = Seq::new(
        vs.len(),
        |i: int| spec_table_line(spec_content_type_expr(cr, vs[i])),
    );
    let mut table_lines: Vec<String> = Vec::new();
    let mut i: usize = 0;
    while i < content_types.len()
        invariant
            0 <= i <= content_types@.len(),
            content_types@.len() == vs.len(),
            forall|k: int|
                0 <= k < vs.len() ==> (#[trigger] content_types@[k])@ == spec_content_type_expr(
                    cr,
                    vs[k],
                ),
            cr == spec_crate_path(internal),
            table_target == Seq::new(
                vs.len(),
                |k: int| spec_table_line(spec_content_type_expr(cr, vs[k])),
            ),
            seq_views(table_lines@) == table_target.take(i as int),
        decreases content_types@.len() - i,
    {
        let line = render_table_line(content_types[i].as_str());
        let ghost prev = table_lines@;
        table_lines.push(line);
        proof {
            lemma_seq_views_push(prev, line);
            assert(table_target.take(i + 1) =~= table_target.take(i as int).push(
                table_target[i as int],
            ));
        }
        i += 1;
    }
    proof {
        assert(table_target.take(vs.len() as int) =~= table_target);
    }
    let mut out = String::from_str("    async fn from_request(request: &'__request ");
    out.append(crate_path(internal));
    out.append("::__private::poem::Request, body: &mut ");
    out.append(crate_path(internal));
    out.append("::__private::poem::RequestBody, _param_opts: ");
    out.append(crate_path(internal));
    out.append("::ExtractParamOptions<Self::ParamType>) -> ");
    out.append(crate_path(internal));
    out.append(
        "::__private::poem::Result<Self> {\n        match request.content_type() {\n            ::std::option::Option::Some(content_type) => {\n                let table = ",
    );
    out.append(crate_path(internal));
    out.append("::__private::ContentTypeTable::new(&[\n");
    append_all(&mut out, &table_lines);
    out.append("                ]);\n                match table.matches(content_type) {\n");
    proof {
        assert(seq_views(dispatch_arms@) =~= Seq::new(
            vs.len(),
            |k: int| spec_dispatch_arm(cr, vs[k].name@, vs[k].field_types@[0]@, k as nat),
        ));
    }
    append_all(&mut out, dispatch_arms);
    out.append(
        "                    _ => {\n                        ::std::result::Result::Err(::std::convert::Into::into(",
    );
    out.append(crate_path(internal));
    out.append(
        "::error::ContentTypeError::NotSupported { content_type: ::std::string::ToString::to_string(content_type) }))\n                    }\n                }\n            }\n            ::std::option::Option::None => {\n                ::std::result::Result::Err(::std::convert::Into::into(",
    );
    out.append(crate_path(internal));
    out.append("::error::ContentTypeError::ExpectContentType))\n            }\n        }\n    }\n");
    out
}

/// The whole emitted source fragment for a validated enum description.
pub open spec fn spec_emit(desc: ItemDesc) -> Seq<char> {
    let cr = spec_crate_path(desc.internal);
    let vs = shape_variants(desc.shape);
    spec_header(
        cr,
        desc.name@,
        desc.generics.impl_generics@,
        desc.generics.ty_generics@,
        desc.generics.where_clause@,
    ) + spec_register_block(cr, vs) + spec_meta_block(cr, desc.doc, vs) + spec_decode_block(cr, vs)
        + "}\n"@
}

/// Emits the capability implementation from the collected sequences and the
/// enum's identity, generics, and documentation.
pub fn emit(desc: &ItemDesc, c: &Collected) -> (r: String)
    requires
        desc.shape is Enum,
        collected_matches(*c, shape_variants(desc.shape), desc.internal),
    ensures
        r@ == spec_emit(*desc),
{
    let ghost vs = shape_variants(desc.shape);
    let mut out = render_header(desc);
    let reg = register_block(desc.internal, &c.payload_types, Ghost(vs));
    out.append(reg.as_str());
    let meta = meta_block(desc.internal, &desc.doc, &c.doc_entries, Ghost(vs));
    out.append(meta.as_str());
    let dec = decode_block(desc.internal, &c.content_types, &c.dispatch_arms, Ghost(vs));
    out.append(dec.as_str());
    out.append("}\n");
    out
}

} // verus!
