//! The implementation emitter, enum side.
//!
//! An enum crosses every field-traversal axis with variant dispatch: a
//! value-visiting entry point that matches on the active variant, and an
//! instance-free entry point that dispatches on a variant's resolved
//! name. Every emitted implementation carries one arm per variant, in
//! declaration order, and one trait-bound obligation per distinct kept
//! field type across all variants.

use vstd::prelude::*;

use crate::EnumInfoData;
use crate::StructInfoData;
use crate::StructInfoV;
use crate::attrs::get_rename_all_attribute;
use crate::attrs::spec_rename_all;
use crate::decl::DeclBody;
use crate::decl::FieldsShape;
use crate::decl::TypeDecl;
use crate::decl::VariantDecl;
use crate::decl::classify_fields;
use crate::decl::field_steps;
use crate::decl::get_variant_rename;
use crate::decl::spec_classify;
use crate::decl::spec_steps;
use crate::decl::spec_variant_info;
use crate::decl::spec_variant_name;
use crate::emit::DeriveError;
use crate::emit::ImplAxes;
use crate::emit::ImplKind;
use crate::emit::TraitImpl;
use crate::emit::TraitImplV;
use crate::emit::VariantArm;
use crate::emit::VariantArmV;
use crate::emit::clone_strings;
use crate::emit::dedup_types;
use crate::emit::kept_count;
use crate::emit::resolved_type_name;
use crate::emit::spec_dedup;
use crate::emit::spec_positions_consecutive;
use crate::emit::spec_step_tys;
use crate::emit::spec_type_name;
use crate::emit::steps_tys;
use crate::rename::RenameRule;
use crate::text::str_eq;

verus! {

// ---------------------------------------------------------------------
// The enum descriptor.
// ---------------------------------------------------------------------
/// Everything the generated enum-info implementation knows without an
/// instance: the enum descriptor and one shape descriptor per variant,
/// in declaration order, under resolved names.
#[derive(Debug, PartialEq, Eq)]
pub struct EnumInfoDef {
    pub data: EnumInfoData,
    pub variants: Vec<StructInfoData>,
}

/// The compile-time descriptor family of an enum: its own resolved name
/// and count, and each variant's descriptor under its resolved name.
pub fn derive_enum_info(decl: &TypeDecl, variants: &Vec<VariantDecl>) -> (r: EnumInfoDef)
    ensures
        r.data@.name == spec_type_name(*decl),
        r.data@.variant_count == variants@.len(),
        r.variants@.len() == variants@.len(),
        forall|k: int|
            0 <= k < variants@.len() ==> #[trigger] r.variants@[k]@ == spec_variant_info(
                variants@[k],
                spec_rename_all(decl.attrs@, 0),
            ),
{
    let name = resolved_type_name(decl);
    let rule = get_rename_all_attribute(&decl.attrs);
    let mut infos: Vec<StructInfoData> = Vec::new();
    let mut i: usize = 0;
    while i < variants.len()
        invariant
            i <= variants@.len(),
            infos@.len() == i,
            rule == spec_rename_all(decl.attrs@, 0),
            forall|k: int|
                0 <= k < i ==> #[trigger] infos@[k]@ == spec_variant_info(variants@[k], rule),
        decreases variants@.len() - i,
    {
        let v = &variants[i];
        let vname = get_variant_rename(v, rule);
        let shape = classify_fields(&v.fields);
        let named_fields = match shape {
            FieldsShape::Named => true,
            _ => false,
        };
        let field_count = kept_count(&v.fields);
        infos.push(StructInfoData { name: vname, named_fields, field_count });
        i += 1;
    }
    let data = EnumInfoData { name, variant_count: variants.len() };
    EnumInfoDef { data, variants: infos }
}

// ---------------------------------------------------------------------
// By-resolved-name lookup.
// ---------------------------------------------------------------------
/// The first descriptor whose name is `name`, scanning from `i`.
pub open spec fn spec_lookup(infos: Seq<StructInfoV>, name: Seq<char>, i: int) -> Option<
    StructInfoV,
>
    decreases infos.len() - i,
{
    if i < 0 || i >= infos.len() {
        None
    } else if infos[i].name == name {
        Some(infos[i])
    } else {
        spec_lookup(infos, name, i + 1)
    }
}

/// The lookup finds a descriptor exactly when some descriptor carries
/// the queried name, and what it finds carries that name.
pub proof fn lemma_lookup_found(infos: Seq<StructInfoV>, name: Seq<char>, i: int)
    requires
        0 <= i <= infos.len(),
    ensures
        (spec_lookup(infos, name, i) is Some) <==> exists|k: int|
            i <= k < infos.len() && #[trigger] infos[k].name == name,
        spec_lookup(infos, name, i) is Some ==> spec_lookup(infos, name, i).unwrap().name == name,
    decreases infos.len() - i,
{
    if i < infos.len() {
        lemma_lookup_found(infos, name, i + 1);
    }
}

/// Law: by-resolved-name lookup succeeds only on the resolved form.
/// When a variant's resolved name appears among the descriptors and its
/// source identifier does not, looking the resolved name up succeeds
/// while looking the source identifier up finds nothing.
pub proof fn lemma_lookup_only_resolved(
    infos: Seq<StructInfoV>,
    resolved: Seq<char>,
    source: Seq<char>,
)
    requires
        exists|k: int| 0 <= k < infos.len() && #[trigger] infos[k].name == resolved,
        forall|k: int| 0 <= k < infos.len() ==> #[trigger] infos[k].name != source,
    ensures
        spec_lookup(infos, resolved, 0) is Some,
        spec_lookup(infos, source, 0) is None,
{
    lemma_lookup_found(infos, resolved, 0);
    lemma_lookup_found(infos, source, 0);
}

fn clone_info(info: &StructInfoData) -> (r: StructInfoData)
    ensures
        r@ == info@,
{
    StructInfoData {
        name: info.name.clone(),
        named_fields: info.named_fields,
        field_count: info.field_count,
    }
}

/// Looks a variant descriptor up by its resolved external name: the
/// instance-free dispatch of the generated enum-info implementation.
/// Returns the first matching descriptor, and nothing when no variant
/// resolves to the queried name.
pub fn variant_info_by_name(variants: &Vec<StructInfoData>, name: &str) -> (r: Option<
    StructInfoData,
>)
    ensures
        match r {
            Some(info) => spec_lookup(variants@.map_values(|d: StructInfoData| d@), name@, 0)
                == Some(info@),
            None => spec_lookup(variants@.map_values(|d: StructInfoData| d@), name@, 0) is None,
        },
{
    let ghost m = variants@.map_values(|d: StructInfoData| d@);
    let mut i: usize = 0;
    while i < variants.len()
        invariant
            i <= variants@.len(),
            m == variants@.map_values(|d: StructInfoData| d@),
            spec_lookup(m, name@, 0) == spec_lookup(m, name@, i as int),
        decreases variants@.len() - i,
    {
        if str_eq(variants[i].name.as_str(), name) {
            proof {
                assert(m[i as int].name == name@);
            }
            return Some(clone_info(&variants[i]));
        }
        proof {
            assert(m[i as int].name != name@);
        }
        i += 1;
    }
    None
}

// ---------------------------------------------------------------------
// Arms and bounds.
// ---------------------------------------------------------------------
/// The dispatch arm a variant contributes: its source identifier for
/// the value match, its resolved name for instance-free dispatch, its
/// shape, and its kept fields' traversal slots in declaration order.
pub open spec fn spec_arm(v: VariantDecl, rule: RenameRule) -> VariantArmV {
    VariantArmV {
        variant_ident: v.ident@,
        dispatch_name: spec_variant_name(v, rule),
        shape: spec_classify(v.fields@),
        steps: spec_steps(v.fields@, 0, rule),
    }
}

/// The declared types of all variants' kept fields from variant `i` on,
/// in declaration order.
pub open spec fn spec_enum_tys(variants: Seq<VariantDecl>, i: int, rule: RenameRule) -> Seq<
    Seq<char>,
>
    decreases variants.len() - i,
{
    if i < 0 || i >= variants.len() {
        Seq::empty()
    } else {
        spec_step_tys(spec_steps(variants[i].fields@, 0, rule)) + spec_enum_tys(
            variants,
            i + 1,
            rule,
        )
    }
}

/// The trait-bound obligations of an enum: the distinct kept field
/// types across all variants, in first-occurrence order.
pub open spec fn spec_enum_bounds(variants: Seq<VariantDecl>, rule: RenameRule) -> Seq<Seq<char>> {
    spec_dedup(spec_enum_tys(variants, 0, rule))
}

fn build_arms(variants: &Vec<VariantDecl>, rule: RenameRule) -> (r: Vec<VariantArm>)
    ensures
        r@.len() == variants@.len(),
        forall|k: int| 0 <= k < variants@.len() ==> #[trigger] r@[k]@ == spec_arm(variants@[k], rule),
        spec_positions_consecutive(r@),
{
    let mut arms: Vec<VariantArm> = Vec::new();
    let mut i: usize = 0;
    while i < variants.len()
        invariant
            i <= variants@.len(),
            arms@.len() == i,
            forall|k: int| 0 <= k < i ==> #[trigger] arms@[k]@ == spec_arm(variants@[k], rule),
            spec_positions_consecutive(arms@),
        decreases variants@.len() - i,
    {
        let v = &variants[i];
        let steps = field_steps(&v.fields, rule);
        let dispatch_name = get_variant_rename(v, rule);
        let shape = classify_fields(&v.fields);
        let arm = VariantArm { variant_ident: v.ident.clone(), dispatch_name, shape, steps };
        arms.push(arm);
        i += 1;
    }
    arms
}

fn enum_tys(variants: &Vec<VariantDecl>, rule: RenameRule) -> (r: Vec<String>)
    ensures
        r@.map_values(|t: String| t@) == spec_enum_tys(variants@, 0, rule),
{
    let mut out: Vec<String> = Vec::new();
    let mut i: usize = 0;
    proof {
        assert(out@.map_values(|t: String| t@) =~= Seq::empty());
    }
    while i < variants.len()
        invariant
            i <= variants@.len(),
            out@.map_values(|t: String| t@) + spec_enum_tys(variants@, i as int, rule)
                == spec_enum_tys(variants@, 0, rule),
        decreases variants@.len() - i,
    {
        let steps = field_steps(&variants[i].fields, rule);
        let mut tys = steps_tys(&steps);
        let ghost prev = out@;
        let ghost block = tys@;
        out.append(&mut tys);
        proof {
            assert(out@.map_values(|t: String| t@) =~= prev.map_values(|t: String| t@)
                + block.map_values(|t: String| t@));
            assert(block.map_values(|t: String| t@) == spec_step_tys(
                spec_steps(variants@[i as int].fields@, 0, rule),
            ));
            assert(out@.map_values(|t: String| t@) + spec_enum_tys(variants@, i + 1 as int, rule)
                =~= prev.map_values(|t: String| t@) + spec_enum_tys(variants@, i as int, rule));
        }
        i += 1;
    }
    out
}

// ---------------------------------------------------------------------
// The emitted implementations.
// ---------------------------------------------------------------------
/// What every emitted enum implementation must look like: attached to
/// the declared type with its generics passed through, one arm per
/// variant in declaration order (resolved dispatch names, kept fields
/// only), and — for field traversal — one bound obligation per distinct
/// kept field type; the two entry-point kinds carry no field bounds.
pub open spec fn spec_variants_impl(
    d: TypeDecl,
    variants: Seq<VariantDecl>,
    kind: ImplKind,
    axes: ImplAxes,
    r: TraitImplV,
) -> bool {
    let rule = spec_rename_all(d.attrs@, 0);
    &&& r.kind == kind
    &&& r.axes == axes
    &&& r.type_ident == d.ident@
    &&& r.generics == d.generics@.map_values(|g: String| g@)
    &&& r.bounds == if kind == ImplKind::VariantFields {
        spec_enum_bounds(variants, rule)
    } else {
        Seq::<Seq<char>>::empty()
    }
    &&& r.arms.len() == variants.len()
    &&& forall|k: int| 0 <= k < variants.len() ==> r.arms[k] == spec_arm(#[trigger] variants[k], rule)
}

fn make_variants_impl(
    decl: &TypeDecl,
    variants: &Vec<VariantDecl>,
    kind: ImplKind,
    axes: ImplAxes,
) -> (r: TraitImpl)
    ensures
        spec_variants_impl(*decl, variants@, kind, axes, r@),
        spec_positions_consecutive(r.arms@),
{
    let rule = get_rename_all_attribute(&decl.attrs);
    let arms = build_arms(variants, rule);
    let needs_bounds = match kind {
        ImplKind::VariantFields => true,
        _ => false,
    };
    let bounds: Vec<String> = if needs_bounds {
        let tys = enum_tys(variants, rule);
        dedup_types(&tys)
    } else {
        Vec::new()
    };
    let r = TraitImpl {
        kind,
        axes,
        type_ident: decl.ident.clone(),
        generics: clone_strings(&decl.generics),
        bounds,
        arms,
    };
    proof {
        if !needs_bounds {
            assert(r@.bounds =~= Seq::<Seq<char>>::empty());
        }
        assert(forall|k: int|
            0 <= k < variants@.len() ==> r@.arms[k] == spec_arm(
                #[trigger] variants@[k],
                rule,
            ));
    }
    r
}

/// The entry point that visits the active variant as one item, paired
/// with its resolved descriptor.
pub fn derive_visit_variant(decl: &TypeDecl, variants: &Vec<VariantDecl>) -> (r: TraitImpl)
    ensures
        spec_variants_impl(
            *decl,
            variants@,
            ImplKind::Variant,
            ImplAxes { asynchronous: false, is_static: false, named: false, covered: false },
            r@,
        ),
        spec_positions_consecutive(r.arms@),
{
    make_variants_impl(
        decl,
        variants,
        ImplKind::Variant,
        ImplAxes { asynchronous: false, is_static: false, named: false, covered: false },
    )
}

/// Instance-free traversal over every variant descriptor, in
/// declaration order.
pub fn derive_visit_variants_static(decl: &TypeDecl, variants: &Vec<VariantDecl>) -> (r: TraitImpl)
    ensures
        spec_variants_impl(
            *decl,
            variants@,
            ImplKind::VariantsStatic,
            ImplAxes { asynchronous: false, is_static: true, named: false, covered: false },
            r@,
        ),
        spec_positions_consecutive(r.arms@),
{
    make_variants_impl(
        decl,
        variants,
        ImplKind::VariantsStatic,
        ImplAxes { asynchronous: false, is_static: true, named: false, covered: false },
    )
}

/// Synchronous by-value traversal of the active variant's fields.
pub fn derive_visit_variant_fields(decl: &TypeDecl, variants: &Vec<VariantDecl>) -> (r: TraitImpl)
    ensures
        spec_variants_impl(
            *decl,
            variants@,
            ImplKind::VariantFields,
            ImplAxes { asynchronous: false, is_static: false, named: false, covered: false },
            r@,
        ),
        spec_positions_consecutive(r.arms@),
{
    make_variants_impl(
        decl,
        variants,
        ImplKind::VariantFields,
        ImplAxes { asynchronous: false, is_static: false, named: false, covered: false },
    )
}

/// Synchronous by-value traversal through the coverage wrapper.
pub fn derive_visit_variant_fields_covered(decl: &TypeDecl, variants: &Vec<VariantDecl>) -> (r:
    TraitImpl)
    ensures
        spec_variants_impl(
            *decl,
            variants@,
            ImplKind::VariantFields,
            ImplAxes { asynchronous: false, is_static: false, named: false, covered: true },
            r@,
        ),
        spec_positions_consecutive(r.arms@),
{
    make_variants_impl(
        decl,
        variants,
        ImplKind::VariantFields,
        ImplAxes { asynchronous: false, is_static: false, named: false, covered: true },
    )
}

/// Synchronous instance-free traversal of one variant's fields,
/// dispatched by resolved name.
pub fn derive_visit_variant_fields_static(decl: &TypeDecl, variants: &Vec<VariantDecl>) -> (r:
    TraitImpl)
    ensures
        spec_variants_impl(
            *decl,
            variants@,
            ImplKind::VariantFields,
            ImplAxes { asynchronous: false, is_static: true, named: false, covered: false },
            r@,
        ),
        spec_positions_consecutive(r.arms@),
{
    make_variants_impl(
        decl,
        variants,
        ImplKind::VariantFields,
        ImplAxes { asynchronous: false, is_static: true, named: false, covered: false },
    )
}

/// Synchronous by-value named traversal of the active variant's fields.
pub fn derive_visit_variant_fields_named(decl: &TypeDecl, variants: &Vec<VariantDecl>) -> (r:
    TraitImpl)
    ensures
        spec_variants_impl(
            *decl,
            variants@,
            ImplKind::VariantFields,
            ImplAxes { asynchronous: false, is_static: false, named: true, covered: false },
            r@,
        ),
        spec_positions_consecutive(r.arms@),
{
    make_variants_impl(
        decl,
        variants,
        ImplKind::VariantFields,
        ImplAxes { asynchronous: false, is_static: false, named: true, covered: false },
    )
}

/// Synchronous instance-free named traversal, dispatched by resolved
/// name.
pub fn derive_visit_variant_fields_static_named(decl: &TypeDecl, variants: &Vec<VariantDecl>) -> (r:
    TraitImpl)
    ensures
        spec_variants_impl(
            *decl,
            variants@,
            ImplKind::VariantFields,
            ImplAxes { asynchronous: false, is_static: true, named: true, covered: false },
            r@,
        ),
        spec_positions_consecutive(r.arms@),
{
    make_variants_impl(
        decl,
        variants,
        ImplKind::VariantFields,
        ImplAxes { asynchronous: false, is_static: true, named: true, covered: false },
    )
}

/// Sequential asynchronous by-value traversal of the active variant's
/// fields.
pub fn derive_visit_variant_fields_async(decl: &TypeDecl, variants: &Vec<VariantDecl>) -> (r:
    TraitImpl)
    ensures
        spec_variants_impl(
            *decl,
            variants@,
            ImplKind::VariantFields,
            ImplAxes { asynchronous: true, is_static: false, named: false, covered: false },
            r@,
        ),
        spec_positions_consecutive(r.arms@),
{
    make_variants_impl(
        decl,
        variants,
        ImplKind::VariantFields,
        ImplAxes { asynchronous: true, is_static: false, named: false, covered: false },
    )
}

/// Sequential asynchronous traversal through the coverage wrapper.
pub fn derive_visit_variant_fields_covered_async(decl: &TypeDecl, variants: &Vec<VariantDecl>) -> (r:
    TraitImpl)
    ensures
        spec_variants_impl(
            *decl,
            variants@,
            ImplKind::VariantFields,
            ImplAxes { asynchronous: true, is_static: false, named: false, covered: true },
            r@,
        ),
        spec_positions_consecutive(r.arms@),
{
    make_variants_impl(
        decl,
        variants,
        ImplKind::VariantFields,
        ImplAxes { asynchronous: true, is_static: false, named: false, covered: true },
    )
}

/// Sequential asynchronous instance-free traversal, dispatched by
/// resolved name.
pub fn derive_visit_variant_fields_static_async(decl: &TypeDecl, variants: &Vec<VariantDecl>) -> (r:
    TraitImpl)
    ensures
        spec_variants_impl(
            *decl,
            variants@,
            ImplKind::VariantFields,
            ImplAxes { asynchronous: true, is_static: true, named: false, covered: false },
            r@,
        ),
        spec_positions_consecutive(r.arms@),
{
    make_variants_impl(
        decl,
        variants,
        ImplKind::VariantFields,
        ImplAxes { asynchronous: true, is_static: true, named: false, covered: false },
    )
}

/// Sequential asynchronous by-value named traversal.
pub fn derive_visit_variant_fields_named_async(decl: &TypeDecl, variants: &Vec<VariantDecl>) -> (r:
    TraitImpl)
    ensures
        spec_variants_impl(
            *decl,
            variants@,
            ImplKind::VariantFields,
            ImplAxes { asynchronous: true, is_static: false, named: true, covered: false },
            r@,
        ),
        spec_positions_consecutive(r.arms@),
{
    make_variants_impl(
        decl,
        variants,
        ImplKind::VariantFields,
        ImplAxes { asynchronous: true, is_static: false, named: true, covered: false },
    )
}

/// Sequential asynchronous instance-free named traversal, dispatched by
/// resolved name.
pub fn derive_visit_variant_fields_static_named_async(
    decl: &TypeDecl,
    variants: &Vec<VariantDecl>,
) -> (r: TraitImpl)
    ensures
        spec_variants_impl(
            *decl,
            variants@,
            ImplKind::VariantFields,
            ImplAxes { asynchronous: true, is_static: true, named: true, covered: false },
            r@,
        ),
        spec_positions_consecutive(r.arms@),
{
    make_variants_impl(
        decl,
        variants,
        ImplKind::VariantFields,
        ImplAxes { asynchronous: true, is_static: true, named: true, covered: false },
    )
}

/// Law: the per-variant field count is consistent everywhere. Whatever
/// the axes, every emitted enum implementation gives each variant
/// exactly as many slots as that variant's descriptor reports: the kept
/// fields, with skipped fields excluded from both.
pub proof fn lemma_variant_field_count_uniform(
    d: TypeDecl,
    variants: Seq<VariantDecl>,
    kind: ImplKind,
    axes: ImplAxes,
    r: TraitImplV,
)
    requires
        spec_variants_impl(d, variants, kind, axes, r),
    ensures
        forall|k: int|
            0 <= k < variants.len() ==> #[trigger] r.arms[k].steps.len() == spec_variant_info(
                variants[k],
                spec_rename_all(d.attrs@, 0),
            ).field_count,
{
    let rule = spec_rename_all(d.attrs@, 0);
    assert forall|k: int|
        0 <= k < variants.len() implies #[trigger] r.arms[k].steps.len() == spec_variant_info(
        variants[k],
        rule,
    ).field_count by {
        crate::decl::lemma_steps_len_is_kept_count(variants[k].fields@, 0, rule);
        assert(r.arms[k] == spec_arm(variants[k], rule));
    }
}

// ---------------------------------------------------------------------
// The derive entry point for enums.
// ---------------------------------------------------------------------
/// Everything the enum derive emits: the descriptor family and the
/// twelve implementations.
#[derive(Debug, PartialEq, Eq)]
pub struct EnumDerive {
    pub info: EnumInfoDef,
    pub impls: Vec<TraitImpl>,
}

/// The kind of the `j`-th emitted enum implementation, in emission
/// order.
pub open spec fn spec_enum_impl_kind(j: int) -> ImplKind {
    if j == 0 {
        ImplKind::Variant
    } else if j == 1 {
        ImplKind::VariantsStatic
    } else {
        ImplKind::VariantFields
    }
}

/// The axis choices of the `j`-th emitted enum implementation, in
/// emission order: the two entry points, then the five synchronous
/// field traversals, then their asynchronous counterparts.
pub open spec fn spec_enum_axes(j: int) -> ImplAxes {
    if j == 0 {
        ImplAxes { asynchronous: false, is_static: false, named: false, covered: false }
    } else if j == 1 {
        ImplAxes { asynchronous: false, is_static: true, named: false, covered: false }
    } else {
        ImplAxes {
            asynchronous: j >= 7,
            is_static: (j == 4 || j == 6 || j == 9 || j == 11),
            named: (j == 5 || j == 6 || j == 10 || j == 11),
            covered: (j == 3 || j == 8),
        }
    }
}

/// The derive entry point for enums. Succeeds exactly on enum
/// declarations, emitting the descriptor family and all twelve
/// implementations; a struct or union aborts with the structural error
/// and no output.
pub fn derive_all_variant_traits(decl: &TypeDecl) -> (r: Result<EnumDerive, DeriveError>)
    ensures
        match r {
            Ok(d) => decl.body is Enum && match decl.body {
                DeclBody::Enum(variants) => {
                    &&& d.info.data@.name == spec_type_name(*decl)
                    &&& d.info.data@.variant_count == variants@.len()
                    &&& d.info.variants@.len() == variants@.len()
                    &&& forall|k: int|
                        0 <= k < variants@.len() ==> #[trigger] d.info.variants@[k]@
                            == spec_variant_info(variants@[k], spec_rename_all(decl.attrs@, 0))
                    &&& d.impls@.len() == 12
                    &&& forall|j: int|
                        0 <= j < 12 ==> spec_variants_impl(
                            *decl,
                            variants@,
                            spec_enum_impl_kind(j),
                            spec_enum_axes(j),
                            #[trigger] d.impls@[j]@,
                        )
                    &&& forall|j: int|
                        0 <= j < 12 ==> spec_positions_consecutive(#[trigger] d.impls@[j].arms@)
                },
                _ => false,
            },
            Err(e) => !(decl.body is Enum) && e == DeriveError::NotAnEnum,
        },
{
    let variants = match &decl.body {
        DeclBody::Enum(variants) => variants,
        _ => {
            return Err(DeriveError::NotAnEnum);
        },
    };
    let info = derive_enum_info(decl, variants);
    let mut impls: Vec<TraitImpl> = Vec::new();
    impls.push(derive_visit_variant(decl, variants));
    impls.push(derive_visit_variants_static(decl, variants));
    impls.push(derive_visit_variant_fields(decl, variants));
    impls.push(derive_visit_variant_fields_covered(decl, variants));
    impls.push(derive_visit_variant_fields_static(decl, variants));
    impls.push(derive_visit_variant_fields_named(decl, variants));
    impls.push(derive_visit_variant_fields_static_named(decl, variants));
    impls.push(derive_visit_variant_fields_async(decl, variants));
    impls.push(derive_visit_variant_fields_covered_async(decl, variants));
    impls.push(derive_visit_variant_fields_static_async(decl, variants));
    impls.push(derive_visit_variant_fields_named_async(decl, variants));
    impls.push(derive_visit_variant_fields_static_named_async(decl, variants));
    Ok(EnumDerive { info, impls })
}

} // verus!
