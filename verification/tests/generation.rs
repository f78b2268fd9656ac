use response_media::collect::collect;
use response_media::generate;
use response_media::model::{ErrorAnchor, GenericsText, ItemDesc, ItemShape, VariantDesc};
use response_media::text::{dec_string, escape_text};

fn variant(name: &str, tys: &[&str], content_type: Option<&str>) -> VariantDesc {
    VariantDesc {
        name: name.to_string(),
        field_types: tys.iter().map(|t| t.to_string()).collect(),
        content_type: content_type.map(|c| c.to_string()),
    }
}

fn enum_desc(name: &str, internal: bool, doc: Option<&str>, variants: Vec<VariantDesc>) -> ItemDesc {
    ItemDesc {
        name: name.to_string(),
        generics: GenericsText {
            impl_generics: String::new(),
            ty_generics: String::new(),
            where_clause: String::new(),
        },
        doc: doc.map(|d| d.to_string()),
        internal,
        shape: ItemShape::Enum(variants),
    }
}

#[test]
fn all_single_field_variants_succeed_in_order() {
    let desc = enum_desc(
        "Req",
        false,
        None,
        vec![variant("A", &["TyA"], None), variant("B", &["TyB"], None)],
    );
    let c = collect(&desc).unwrap();
    assert_eq!(c.doc_entries.len(), 2);
    assert_eq!(c.content_types.len(), 2);
    assert_eq!(c.dispatch_arms.len(), 2);
    assert_eq!(c.payload_types, vec!["TyA".to_string(), "TyB".to_string()]);
    assert_eq!(
        c.content_types[0],
        "<TyA as ::poem_openapi::payload::Payload>::CONTENT_TYPE"
    );
    assert_eq!(
        c.content_types[1],
        "<TyB as ::poem_openapi::payload::Payload>::CONTENT_TYPE"
    );
    assert!(generate(&desc).is_ok());
}

#[test]
fn one_variant_succeeds() {
    let desc = enum_desc("Req", false, None, vec![variant("A", &["TyA"], None)]);
    let c = collect(&desc).unwrap();
    assert_eq!(c.doc_entries.len(), 1);
}

#[test]
fn zero_field_variant_is_rejected() {
    let desc = enum_desc(
        "Req",
        false,
        None,
        vec![variant("A", &["TyA"], None), variant("B", &[], None)],
    );
    let e = generate(&desc).unwrap_err();
    assert_eq!(e.message, "Incorrect request definition.");
    assert!(matches!(e.anchor, ErrorAnchor::VariantName(1)));
}

#[test]
fn two_field_variant_is_rejected() {
    let desc = enum_desc("Req", false, None, vec![variant("A", &["TyA", "TyB"], None)]);
    let e = generate(&desc).unwrap_err();
    assert_eq!(e.message, "Incorrect request definition.");
    assert!(matches!(e.anchor, ErrorAnchor::VariantName(0)));
}

#[test]
fn non_enum_is_rejected() {
    let desc = ItemDesc {
        name: "NotAnEnum".to_string(),
        generics: GenericsText {
            impl_generics: String::new(),
            ty_generics: String::new(),
            where_clause: String::new(),
        },
        doc: None,
        internal: false,
        shape: ItemShape::Other,
    };
    let e = generate(&desc).unwrap_err();
    assert_eq!(e.message, "ResponseMediaArgs can only be applied to an enum.");
    assert!(matches!(e.anchor, ErrorAnchor::ItemName));
}

#[test]
fn plain_explicit_content_type_succeeds() {
    let desc = enum_desc("Req", false, None, vec![variant("A", &["TyA"], Some("text/plain"))]);
    let r = generate(&desc).unwrap();
    assert!(r.contains("content_type: \"text/plain\""));
}

#[test]
fn content_type_with_parameter_is_rejected() {
    let desc = enum_desc(
        "Req",
        false,
        None,
        vec![variant("A", &["TyA"], Some("text/plain; charset=utf-8"))],
    );
    let e = generate(&desc).unwrap_err();
    assert_eq!(e.message, "Invalid mime type");
    assert!(matches!(e.anchor, ErrorAnchor::ContentTypeLiteral(0)));
}

#[test]
fn unparsable_content_type_is_rejected() {
    let desc = enum_desc("Req", false, None, vec![variant("A", &["TyA"], Some("not a mime"))]);
    let e = generate(&desc).unwrap_err();
    assert_eq!(e.message, "Invalid mime type");
    assert!(matches!(e.anchor, ErrorAnchor::ContentTypeLiteral(0)));
}

#[test]
fn first_failing_variant_wins() {
    let desc = enum_desc(
        "Req",
        false,
        None,
        vec![
            variant("A", &[], None),
            variant("B", &["TyB"], Some("text/plain; charset=utf-8")),
        ],
    );
    let e = generate(&desc).unwrap_err();
    assert_eq!(e.message, "Incorrect request definition.");
    assert!(matches!(e.anchor, ErrorAnchor::VariantName(0)));
}

#[test]
fn description_is_escaped_and_emitted() {
    let desc = enum_desc(
        "Req",
        false,
        Some("say \"hi\" to a\\b"),
        vec![variant("A", &["TyA"], None)],
    );
    let r = generate(&desc).unwrap();
    assert!(r.contains("description: ::std::option::Option::Some(\"say \\\"hi\\\" to a\\\\b\")"));
}

#[test]
fn missing_description_is_emitted_as_none() {
    let desc = enum_desc("Req", false, None, vec![variant("A", &["TyA"], None)]);
    let r = generate(&desc).unwrap();
    assert!(r.contains("description: ::std::option::Option::None"));
}

#[test]
fn decimal_rendering_is_exact() {
    assert_eq!(dec_string(0), "0");
    assert_eq!(dec_string(9), "9");
    assert_eq!(dec_string(10), "10");
    assert_eq!(dec_string(42), "42");
    assert_eq!(dec_string(1234567), "1234567");
}

#[test]
fn escaping_is_exact() {
    assert_eq!(escape_text("plain"), "plain");
    assert_eq!(escape_text("a\"b\\c"), "a\\\"b\\\\c");
    assert_eq!(escape_text("a\rb"), "a\\rb");
    assert_eq!(escape_text(""), "");
}

#[test]
fn emitted_text_is_exact_for_one_variant() {
    let desc = enum_desc("Req", true, None, vec![variant("A", &["J"], None)]);
    let r = generate(&desc).unwrap();
    let expected = "#[crate::__private::poem::async_trait]
impl  crate::Payload for Req  {
    const TYPE: crate::ApiExtractorType = crate::ApiExtractorType::RequestObject;

    type ParamType = ();
    type ParamRawType = ();

    fn register(registry: &mut crate::registry::Registry) {
        <J as crate::payload::Payload>::register(registry);
    }

    fn request_meta() -> ::std::option::Option<crate::registry::MetaRequest> {
        ::std::option::Option::Some(crate::registry::MetaRequest {
            description: ::std::option::Option::None,
            content: ::std::vec![
                crate::registry::MetaMediaType { content_type: <J as crate::payload::Payload>::CONTENT_TYPE, schema: <J as crate::payload::Payload>::schema_ref() },
            ],
            required: true,
        })
    }

    async fn from_request(request: &'__request crate::__private::poem::Request, body: &mut crate::__private::poem::RequestBody, _param_opts: crate::ExtractParamOptions<Self::ParamType>) -> crate::__private::poem::Result<Self> {
        match request.content_type() {
            ::std::option::Option::Some(content_type) => {
                let table = crate::__private::ContentTypeTable::new(&[
                    <J as crate::payload::Payload>::CONTENT_TYPE,
                ]);
                match table.matches(content_type) {
                    ::std::option::Option::Some(0usize) => {
                        let payload = <J as crate::payload::Payload>::from_request(request, body, ::std::default::Default::default()).await?;
                        ::std::result::Result::Ok(Self::A(payload))
                    }
                    _ => {
                        ::std::result::Result::Err(::std::convert::Into::into(crate::error::ContentTypeError::NotSupported { content_type: ::std::string::ToString::to_string(content_type) }))
                    }
                }
            }
            ::std::option::Option::None => {
                ::std::result::Result::Err(::std::convert::Into::into(crate::error::ContentTypeError::ExpectContentType))
            }
        }
    }
}
";
    assert_eq!(r, expected);
}

#[test]
fn generics_are_spliced_into_the_header() {
    let mut desc = enum_desc("Req", false, None, vec![variant("A", &["TyA"], None)]);
    desc.generics = GenericsText {
        impl_generics: "<T: Clone>".to_string(),
        ty_generics: "<T>".to_string(),
        where_clause: "where T: Send".to_string(),
    };
    let r = generate(&desc).unwrap();
    assert!(r.contains("impl <T: Clone> ::poem_openapi::Payload for Req<T> where T: Send {\n"));
}

#[test]
fn empty_enum_succeeds_with_no_entries() {
    let desc = enum_desc("Req", false, None, vec![]);
    let c = collect(&desc).unwrap();
    assert_eq!(c.doc_entries.len(), 0);
    assert_eq!(c.content_types.len(), 0);
    assert!(generate(&desc).is_ok());
}
