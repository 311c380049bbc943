//! The intermediate representation of a type declaration, and the shape
//! introspector over it.
//!
//! A declaration is an identifier, its generic-parameter names, its
//! attributes, and either an ordered field list (a struct), an ordered
//! variant list (an enum), or a union. The introspector classifies field
//! lists as `Unit`, `Positional` or `Named`, excludes fields carrying the
//! skip marker from every count and traversal, and resolves each item's
//! external name through the rename engine.

use vstd::prelude::*;

use crate::attrs::RawAttr;
use crate::attrs::is_skip_attr;
use crate::attrs::get_explicit_str;
use crate::attrs::spec_explicit_str;
use crate::attrs::spec_is_skip_attr;
use crate::rename::RenameRule;
use crate::rename::spec_apply;
use crate::StructInfoV;

verus! {

/// One declared field: its identifier (absent for positional fields),
/// the text of its declared type, and its attached attributes.
#[derive(Debug, PartialEq, Eq)]
pub struct FieldDecl {
    pub ident: Option<String>,
    pub ty: String,
    pub attrs: Vec<RawAttr>,
}

/// One declared enum variant: its identifier, its ordered fields, and
/// its attached attributes.
#[derive(Debug, PartialEq, Eq)]
pub struct VariantDecl {
    pub ident: String,
    pub fields: Vec<FieldDecl>,
    pub attrs: Vec<RawAttr>,
}

/// The body of a declaration.
#[derive(Debug, PartialEq, Eq)]
pub enum DeclBody {
    Struct(Vec<FieldDecl>),
    Enum(Vec<VariantDecl>),
    Union,
}

/// A whole type declaration as the generator receives it.
#[derive(Debug, PartialEq, Eq)]
pub struct TypeDecl {
    pub ident: String,
    pub generics: Vec<String>,
    pub attrs: Vec<RawAttr>,
    pub body: DeclBody,
}

// ---------------------------------------------------------------------
// Shape classification.
// ---------------------------------------------------------------------
/// The shape of a field list: no fields, ordered unnamed fields, or
/// ordered named fields.
#[derive(Debug, Clone, Copy, PartialEq, Eq, Structural)]
pub enum FieldsShape {
    Unit,
    Positional,
    Named,
}

/// Classification of a declared field list: empty lists are `Unit`,
/// otherwise the first field's namedness decides (a Rust declaration
/// never mixes the two).
pub open spec fn spec_classify(fields: Seq<FieldDecl>) -> FieldsShape {
    if fields.len() == 0 {
        FieldsShape::Unit
    } else if fields[0].ident is Some {
        FieldsShape::Named
    } else {
        FieldsShape::Positional
    }
}

/// Classifies a field list as exactly one of the three shapes. The
/// result is a function of the field list alone, so reclassifying the
/// same list always yields the same shape.
pub fn classify_fields(fields: &Vec<FieldDecl>) -> (r: FieldsShape)
    ensures
        r == spec_classify(fields@),
        (r == FieldsShape::Unit) <==> fields@.len() == 0,
        fields@.len() > 0 ==> ((r == FieldsShape::Named) <==> fields@[0].ident is Some),
{
    if fields.len() == 0 {
        FieldsShape::Unit
    } else {
        match &fields[0].ident {
            Some(_) => FieldsShape::Named,
            None => FieldsShape::Positional,
        }
    }
}

// ---------------------------------------------------------------------
// Skip exclusion.
// ---------------------------------------------------------------------
/// Whether some attribute of the field is the skip marker.
pub open spec fn spec_is_skip(f: FieldDecl) -> bool {
    exists|k: int| 0 <= k < f.attrs@.len() && spec_is_skip_attr(#[trigger] f.attrs@[k])
}

pub fn field_is_skipped(f: &FieldDecl) -> (r: bool)
    ensures
        r == spec_is_skip(*f),
{
    let mut i: usize = 0;
    while i < f.attrs.len()
        invariant
            i <= f.attrs@.len(),
            forall|k: int| 0 <= k < i ==> !spec_is_skip_attr(#[trigger] f.attrs@[k]),
        decreases f.attrs@.len() - i,
    {
        if is_skip_attr(&f.attrs[i]) {
            return true;
        }
        i += 1;
    }
    false
}

/// How many fields from position `i` on stay once skipped fields are
/// excluded.
pub open spec fn spec_kept_count(fields: Seq<FieldDecl>, i: int) -> nat
    decreases fields.len() - i,
{
    if i < 0 || i >= fields.len() {
        0
    } else if spec_is_skip(fields[i]) {
        spec_kept_count(fields, i + 1)
    } else {
        1 + spec_kept_count(fields, i + 1)
    }
}

/// The number of kept fields never exceeds the number declared.
pub proof fn lemma_kept_count_le_len(fields: Seq<FieldDecl>, i: int)
    requires
        0 <= i <= fields.len(),
    ensures
        spec_kept_count(fields, i) <= fields.len() - i,
    decreases fields.len() - i,
{
    if i < fields.len() {
        lemma_kept_count_le_len(fields, i + 1);
    }
}

// ---------------------------------------------------------------------
// Name resolution over declarations.
// ---------------------------------------------------------------------
/// The resolved external name of a field: its explicit rename if one is
/// attached, otherwise the blanket rule applied to its identifier; no
/// name at all for a positional field.
pub open spec fn spec_field_name(f: FieldDecl, rule: RenameRule) -> Option<Seq<char>> {
    match f.ident {
        Some(id) => match spec_explicit_str(f.attrs@, 0, "rename"@) {
            Some(e) => Some(e),
            None => Some(spec_apply(rule, id@)),
        },
        None => None,
    }
}

/// Resolves a field's external name under the given blanket rule.
pub fn get_field_rename(field: &FieldDecl, default_rule: RenameRule) -> (r: Option<String>)
    ensures
        match (r, spec_field_name(*field, default_rule)) {
            (Some(a), Some(b)) => a@ == b,
            (None, None) => true,
            _ => false,
        },
{
    let id = match &field.ident {
        Some(id) => id,
        None => {
            return None;
        },
    };
    match get_explicit_str(&field.attrs, "rename") {
        Some(e) => Some(e),
        None => Some(default_rule.apply(id.as_str())),
    }
}

/// The resolved external name of a variant: its explicit rename if one
/// is attached, otherwise the blanket rule applied to its identifier.
pub open spec fn spec_variant_name(v: VariantDecl, rule: RenameRule) -> Seq<char> {
    match spec_explicit_str(v.attrs@, 0, "rename"@) {
        Some(e) => e,
        None => spec_apply(rule, v.ident@),
    }
}

/// Resolves a variant's external name under the given blanket rule.
pub fn get_variant_rename(variant: &VariantDecl, default_rule: RenameRule) -> (r: String)
    ensures
        r@ == spec_variant_name(*variant, default_rule),
{
    match get_explicit_str(&variant.attrs, "rename") {
        Some(e) => e,
        None => default_rule.apply(variant.ident.as_str()),
    }
}

/// The shape descriptor a variant contributes: resolved name, declared
/// namedness, and the kept field count.
pub open spec fn spec_variant_info(v: VariantDecl, rule: RenameRule) -> StructInfoV {
    StructInfoV {
        name: spec_variant_name(v, rule),
        named_fields: spec_classify(v.fields@) == FieldsShape::Named,
        field_count: spec_kept_count(v.fields@, 0),
    }
}

// ---------------------------------------------------------------------
// Field steps: the per-field traversal slots.
// ---------------------------------------------------------------------
/// One per-field traversal slot of an emitted implementation: the
/// 0-based running position, the field's index in the declaration, its
/// resolved external name, and its declared type text.
#[derive(Debug, Clone, PartialEq, Eq)]
pub struct FieldStep {
    pub position: usize,
    pub decl_index: usize,
    pub name: Option<String>,
    pub ty: String,
}

/// Ghost model of a `FieldStep`, without the running position (the
/// position is always the slot's rank).
pub ghost struct FieldStepV {
    pub decl_index: int,
    pub name: Option<Seq<char>>,
    pub ty: Seq<char>,
}

impl View for FieldStep {
    type V = FieldStepV;

    open spec fn view(&self) -> FieldStepV {
        FieldStepV {
            decl_index: self.decl_index as int,
            name: match self.name {
                Some(n) => Some(n@),
                None => None,
            },
            ty: self.ty@,
        }
    }
}

/// The traversal slots of the kept fields from position `i` on, in
/// declaration order, with names resolved under `rule`.
pub open spec fn spec_steps(fields: Seq<FieldDecl>, i: int, rule: RenameRule) -> Seq<FieldStepV>
    decreases fields.len() - i,
{
    if i < 0 || i >= fields.len() {
        Seq::empty()
    } else if spec_is_skip(fields[i]) {
        spec_steps(fields, i + 1, rule)
    } else {
        seq![
            FieldStepV {
                decl_index: i,
                name: spec_field_name(fields[i], rule),
                ty: fields[i].ty@,
            },
        ] + spec_steps(fields, i + 1, rule)
    }
}

/// Exactly one slot per kept field.
pub proof fn lemma_steps_len_is_kept_count(fields: Seq<FieldDecl>, i: int, rule: RenameRule)
    requires
        0 <= i <= fields.len(),
    ensures
        spec_steps(fields, i, rule).len() == spec_kept_count(fields, i),
    decreases fields.len() - i,
{
    if i < fields.len() {
        lemma_steps_len_is_kept_count(fields, i + 1, rule);
    }
}

/// The slots address fields in strict declaration order: a later slot
/// always points at a later field, and a skipped field owns no slot.
pub proof fn lemma_steps_in_declaration_order(fields: Seq<FieldDecl>, i: int, rule: RenameRule)
    requires
        0 <= i <= fields.len(),
    ensures
        forall|a: int|
            0 <= a < spec_steps(fields, i, rule).len() ==> i <= #[trigger] spec_steps(
                fields,
                i,
                rule,
            )[a].decl_index < fields.len(),
        forall|a: int, b: int|
            0 <= a < b < spec_steps(fields, i, rule).len() ==> #[trigger] spec_steps(
                fields,
                i,
                rule,
            )[a].decl_index < #[trigger] spec_steps(fields, i, rule)[b].decl_index,
    decreases fields.len() - i,
{
    if i < fields.len() {
        lemma_steps_in_declaration_order(fields, i + 1, rule);
    }
}

/// Builds the traversal slots of a field list: one slot per kept field,
/// in declaration order, with consecutive positions from zero.
pub fn field_steps(fields: &Vec<FieldDecl>, rule: RenameRule) -> (r: Vec<FieldStep>)
    ensures
        r@.map_values(|s: FieldStep| s@) == spec_steps(fields@, 0, rule),
        forall|k: int| 0 <= k < r@.len() ==> #[trigger] r@[k].position == k,
{
    let mut r: Vec<FieldStep> = Vec::new();
    let mut i: usize = 0;
    proof {
        assert(r@.map_values(|s: FieldStep| s@) =~= Seq::empty());
    }
    while i < fields.len()
        invariant
            i <= fields@.len(),
            r@.len() <= i,
            r@.map_values(|s: FieldStep| s@) + spec_steps(fields@, i as int, rule) == spec_steps(
                fields@,
                0,
                rule,
            ),
            forall|k: int| 0 <= k < r@.len() ==> #[trigger] r@[k].position == k,
        decreases fields@.len() - i,
    {
        if !field_is_skipped(&fields[i]) {
            let name = get_field_rename(&fields[i], rule);
            let step = FieldStep {
                position: r.len(),
                decl_index: i,
                name,
                ty: fields[i].ty.clone(),
            };
            proof {
                assert(step@ == spec_steps(fields@, i as int, rule)[0]);
            }
            let ghost prev = r@;
            r.push(step);
            proof {
                assert(r@.map_values(|s: FieldStep| s@) =~= prev.map_values(
                    |s: FieldStep| s@,
                ).push(step@));
                assert(r@.map_values(|s: FieldStep| s@) + spec_steps(fields@, i + 1 as int, rule)
                    =~= prev.map_values(|s: FieldStep| s@) + spec_steps(fields@, i as int, rule));
            }
        }
        i += 1;
    }
    proof {
        assert(r@.map_values(|s: FieldStep| s@) =~= spec_steps(fields@, 0, rule));
    }
    r
}

} // verus!
