//! Compile-time reflection modelled as a verified code-generation pipeline.
//!
//! A type declaration is mirrored by the intermediate representation in
//! [`decl`]; its attributes are decoded by the parser in [`attrs`] into the
//! metadata model of [`metadata`]; the rename engine in [`rename`] resolves
//! every item's external name; and the emitter in [`emit`] and
//! [`enum_variants`] turns the declaration into structured descriptions of
//! the visitor trait implementations a derive front end would print.
//!
//! This root module holds the visitor vocabulary those implementations are
//! written against: the traversal traits and the small carrier types
//! (`Named`, `Static`, `Variant`) together with the descriptor structs
//! (`StructInfoData`, `EnumInfoData`).

use vstd::prelude::*;

pub mod attrs;
pub mod decl;
pub mod emit;
pub mod enum_variants;
pub mod metadata;
pub mod order;
pub mod rename;
pub mod text;

verus! {

/// Descriptor of a struct shape, or of one enum variant's shape: the
/// resolved external name, whether the fields are named, and how many
/// fields remain once skipped fields are excluded.
#[derive(Debug, Clone, PartialEq, Eq)]
pub struct StructInfoData {
    pub name: String,
    pub named_fields: bool,
    pub field_count: usize,
}

/// Ghost model of a `StructInfoData`.
pub ghost struct StructInfoV {
    pub name: Seq<char>,
    pub named_fields: bool,
    pub field_count: nat,
}

impl View for StructInfoData {
    type V = StructInfoV;

    open spec fn view(&self) -> StructInfoV {
        StructInfoV {
            name: self.name@,
            named_fields: self.named_fields,
            field_count: self.field_count as nat,
        }
    }
}

/// Descriptor of an enum: the resolved external name and the number of
/// declared variants.
#[derive(Debug, Clone, PartialEq, Eq)]
pub struct EnumInfoData {
    pub name: String,
    pub variant_count: usize,
}

/// Ghost model of an `EnumInfoData`.
pub ghost struct EnumInfoV {
    pub name: Seq<char>,
    pub variant_count: nat,
}

impl View for EnumInfoData {
    type V = EnumInfoV;

    open spec fn view(&self) -> EnumInfoV {
        EnumInfoV { name: self.name@, variant_count: self.variant_count as nat }
    }
}

/// A visitor: the object a traversal hands each field to. The visitor
/// chooses the result type every visit yields.
pub trait Visitor {
    type Result;
}

/// A value that can be visited.
pub trait Visit<V: Visitor> {
    fn visit(&self, visitor: &mut V) -> V::Result;
}

/// Compile-time facts about a struct shape, available without an
/// instance.
pub trait StructInfo {
    fn data() -> StructInfoData;
}

/// By-value field traversal: one result per kept field, in declaration
/// order.
pub trait VisitFields<V: Visitor>: StructInfo {
    fn visit_fields(&self, visitor: &mut V) -> Vec<V::Result>;
}

/// By-value field traversal through the coverage wrapper, so one generic
/// visitor implementation can serve every field type.
pub trait VisitFieldsCovered<V: Visitor>: StructInfo {
    fn visit_fields_covered(&self, visitor: &mut V) -> Vec<V::Result>;
}

/// Instance-free field traversal: visits one type tag per kept field.
pub trait VisitFieldsStatic<V: Visitor>: StructInfo {
    fn visit_fields_static(visitor: &mut V) -> Vec<V::Result>;
}

/// By-value field traversal with each field wrapped together with its
/// resolved external name.
pub trait VisitFieldsNamed<V: Visitor>: StructInfo {
    fn visit_fields_named(&self, visitor: &mut V) -> Vec<V::Result>;
}

/// Instance-free named field traversal.
pub trait VisitFieldsStaticNamed<V: Visitor>: StructInfo {
    fn visit_fields_static_named(visitor: &mut V) -> Vec<V::Result>;
}

/// A field wrapped together with its resolved external name (`None` for
/// a positional field).
pub struct Named<'a, T: ?Sized> {
    pub name: Option<&'static str>,
    pub value: &'a T,
}

/// The coverage wrapper: marks a field so that a blanket visitor
/// implementation is selected for it instead of one for the field's
/// bare type.
pub struct Covered<'a, T: ?Sized>(pub &'a T);

/// A zero-size type tag standing in for a value of `T` in instance-free
/// traversal: always constructible, and it carries no data.
pub struct Static<T: ?Sized> {
    _phantom: core::marker::PhantomData<T>,
}

impl<T: ?Sized> Static<T> {
    /// The tag is always validly constructible and carries no data.
    pub fn new() -> Static<T> {
        Static { _phantom: core::marker::PhantomData }
    }
}

impl<T: ?Sized> Default for Static<T> {
    fn default() -> Static<T> {
        Static::new()
    }
}

impl<T: ?Sized> Clone for Static<T> {
    fn clone(&self) -> (r: Static<T>) {
        Static::new()
    }
}

impl<T: ?Sized> Copy for Static<T> {

}

/// Compile-time facts about an enum, available without an instance.
pub trait EnumInfo {
    fn data() -> EnumInfoData;

    fn variants() -> Vec<StructInfoData>;

    fn variant_info(&self) -> StructInfoData;

    fn variant_info_by_name(name: &str) -> Option<StructInfoData>;
}

/// An enum value (or type tag) paired with the descriptor of its active
/// variant.
pub struct Variant<'a, T: ?Sized> {
    pub info: StructInfoData,
    pub value: &'a T,
}

/// Visits the active variant of an enum value as one item.
pub trait VisitVariant<V: Visitor>: EnumInfo {
    fn visit_variant(&self, visitor: &mut V) -> V::Result;
}

/// Instance-free traversal over every variant descriptor, in declaration
/// order.
pub trait VisitVariantsStatic<V: Visitor>: EnumInfo {
    fn visit_variants_static(visitor: &mut V) -> Vec<V::Result>;
}

/// By-value traversal of the active variant's kept fields, in
/// declaration order.
pub trait VisitVariantFields<V: Visitor>: EnumInfo {
    fn visit_variant_fields(&self, visitor: &mut V) -> Vec<V::Result>;
}

/// By-value traversal of the active variant's kept fields through the
/// coverage wrapper.
pub trait VisitVariantFieldsCovered<V: Visitor>: EnumInfo {
    fn visit_variant_fields_covered(&self, visitor: &mut V) -> Vec<V::Result>;
}

/// Instance-free traversal of one variant's fields, dispatched by the
/// variant's resolved name in its descriptor.
pub trait VisitVariantFieldsStatic<V: Visitor>: EnumInfo {
    fn visit_variant_fields_static(info: &StructInfoData, visitor: &mut V) -> Vec<V::Result>;
}

/// By-value named traversal of the active variant's kept fields.
pub trait VisitVariantFieldsNamed<V: Visitor>: EnumInfo {
    fn visit_variant_fields_named(&self, visitor: &mut V) -> Vec<V::Result>;
}

/// Instance-free named traversal of one variant's fields, dispatched by
/// the variant's resolved name.
pub trait VisitVariantFieldsStaticNamed<V: Visitor>: EnumInfo {
    fn visit_variant_fields_static_named(info: &StructInfoData, visitor: &mut V) -> Vec<
        V::Result,
    >;
}

} // verus!
