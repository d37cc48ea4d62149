//! The schema-generation capability, consumed as a black box.
//!
//! Turning a structured-output type into a machine-readable JSON-Schema
//! document is delegated to the `schemars` crate; serializing that document is
//! delegated to `serde_json`. Both calls stand behind trusted declarations
//! here, and everything that decides what the caller finally sees (including
//! the `{}` fallback) is verified in [`crate::call`].

use vstd::prelude::*;

verus! {

/// Declares `schemars::schema::RootSchema`, the root object of a JSON-Schema
/// document, so that it can be carried through signatures here. The value is
/// opaque to the verifier.
#[verifier::external_type_specification]
#[verifier::external_body]
pub struct ExRootSchema(schemars::schema::RootSchema);

/// Relies on `schemars::gen::SchemaGenerator`: a freshly made default
/// generator derives the JSON-Schema document that describes `T`'s shape.
#[verifier::external_body]
fn derive_root_schema<T: schemars::JsonSchema>() -> schemars::schema::RootSchema {
    schemars::gen::SchemaGenerator::default().into_root_schema_for::<T>()
}

/// Relies on `serde_json::to_string`: serializes the schema document to one
/// JSON string, or fails; the failure is handed back as `None`.
#[verifier::external_body]
fn schema_to_json(schema: &schemars::schema::RootSchema) -> Option<String> {
    serde_json::to_string(schema).ok()
}

/// The JSON-Schema document of `T`, serialized, or `None` where the document
/// could not be produced. Nothing is claimed of the document's content: the
/// verified rendering logic treats it as an opaque string.
pub fn introspect_schema<T: schemars::JsonSchema>() -> Option<String> {
    let root = derive_root_schema::<T>();
    schema_to_json(&root)
}

} // verus!
