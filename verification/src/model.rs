//! The in-memory description of an annotated item, as handed over by the
//! annotation front end, and the structured error a failed generation returns.

use vstd::prelude::*;

verus! {

/// The three rendered pieces of an item's generic parameter list, split the
/// way an `impl` block needs them.
pub struct GenericsText {
    /// The parameter list that follows `impl`, e.g. `<T: Clone>`.
    pub impl_generics: String,
    /// The argument list that follows the type's name, e.g. `<T>`.
    pub ty_generics: String,
    /// The `where` clause, or the empty string when there is none.
    pub where_clause: String,
}

/// One enum variant: its name, the rendered types of its fields, and the
/// optional explicit content-type literal from its annotation.
pub struct VariantDesc {
    pub name: String,
    pub field_types: Vec<String>,
    pub content_type: Option<String>,
}

/// What kind of item the annotation was placed on.
pub enum ItemShape {
    /// An enum with its variants, in declaration order.
    Enum(Vec<VariantDesc>),
    /// Anything else; generation rejects it.
    Other,
}

/// The description of the annotated item.
pub struct ItemDesc {
    pub name: String,
    pub generics: GenericsText,
    /// The item's documentation text, verbatim, if any.
    pub doc: Option<String>,
    /// Selects the crate-path resolution strategy of the emitted code.
    pub internal: bool,
    pub shape: ItemShape,
}

/// A variant's resolved content type: either an explicit literal, already
/// validated as a parameterless MIME type, or a deferred symbolic reference
/// to the payload type's own declared content-type constant, resolved only
/// when the emitted code runs.
pub enum ContentTypeSpec {
    Explicit(String),
    DeferredToType(String),
}

/// Which construct of the input a generation error is anchored to; the
/// front end maps it back to a source span.
#[derive(Debug)]
pub enum ErrorAnchor {
    /// The annotated item's name.
    ItemName,
    /// The name of the variant at this index.
    VariantName(usize),
    /// The content-type literal of the variant at this index.
    ContentTypeLiteral(usize),
}

/// A generation error: a fixed message anchored to the offending construct.
#[derive(Debug)]
pub struct GenError {
    pub anchor: ErrorAnchor,
    pub message: String,
}

} // verus!
