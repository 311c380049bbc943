//! The implementation emitter, struct side.
//!
//! For a struct declaration the emitter produces one structured
//! description per traversal trait — synchronous or asynchronous, by
//! value or instance-free, positional or named — instead of printed
//! source text; a derive front end renders each [`TraitImpl`] into the
//! corresponding trait implementation. The description pins down the
//! parts that matter: the per-field traversal slots in declaration order
//! with skipped fields excluded, and the deduplicated trait-bound
//! obligations, one per distinct field type.

use vstd::prelude::*;

use crate::StructInfoData;
use crate::decl::DeclBody;
use crate::decl::FieldDecl;
use crate::decl::FieldStep;
use crate::decl::FieldStepV;
use crate::decl::FieldsShape;
use crate::decl::TypeDecl;
use crate::decl::classify_fields;
use crate::decl::field_steps;
use crate::decl::lemma_kept_count_le_len;
use crate::decl::spec_classify;
use crate::decl::spec_kept_count;
use crate::decl::spec_steps;
use crate::attrs::get_rename_attribute;
use crate::attrs::get_rename_all_attribute;
use crate::attrs::spec_explicit_str;
use crate::attrs::spec_rename_all;
use crate::rename::RenameRule;
use crate::text::str_eq;

verus! {

/// Which trait family an emitted implementation belongs to.
#[derive(Debug, Clone, Copy, PartialEq, Eq, Structural)]
pub enum ImplKind {
    /// Struct field traversal.
    Fields,
    /// Enum per-variant field traversal.
    VariantFields,
    /// The enum entry point that visits the active variant as one item.
    Variant,
    /// Instance-free traversal over an enum's variant descriptors.
    VariantsStatic,
}

/// The axis choices of one emitted implementation.
#[derive(Debug, Clone, Copy, PartialEq, Eq, Structural)]
pub struct ImplAxes {
    /// Suspends between fields, awaiting each visit in order.
    pub asynchronous: bool,
    /// Visits type tags instead of live field values.
    pub is_static: bool,
    /// Wraps each field together with its resolved external name.
    pub named: bool,
    /// Routes each field through the coverage wrapper.
    pub covered: bool,
}

/// One dispatch arm of an emitted implementation: for an enum, one
/// variant; for a struct, the single arm describing its field list.
#[derive(Debug, PartialEq, Eq)]
pub struct VariantArm {
    /// The source identifier the value match binds on.
    pub variant_ident: String,
    /// The resolved external name, the key of instance-free dispatch.
    pub dispatch_name: String,
    /// The shape of the arm's field list.
    pub shape: FieldsShape,
    /// The traversal slots of the kept fields, in declaration order.
    pub steps: Vec<FieldStep>,
}

/// Ghost model of a `VariantArm`.
pub ghost struct VariantArmV {
    pub variant_ident: Seq<char>,
    pub dispatch_name: Seq<char>,
    pub shape: FieldsShape,
    pub steps: Seq<FieldStepV>,
}

impl View for VariantArm {
    type V = VariantArmV;

    open spec fn view(&self) -> VariantArmV {
        VariantArmV {
            variant_ident: self.variant_ident@,
            dispatch_name: self.dispatch_name@,
            shape: self.shape,
            steps: self.steps@.map_values(|s: FieldStep| s@),
        }
    }
}

/// One emitted trait implementation, as structured output.
#[derive(Debug, PartialEq, Eq)]
pub struct TraitImpl {
    pub kind: ImplKind,
    pub axes: ImplAxes,
    /// The identifier of the type the implementation is attached to.
    pub type_ident: String,
    /// The declaration's generic-parameter names, passed through.
    pub generics: Vec<String>,
    /// The trait-bound obligations: the distinct kept field types, in
    /// first-occurrence order, each contributing exactly one obligation.
    pub bounds: Vec<String>,
    /// The dispatch arms; a struct implementation has exactly one.
    pub arms: Vec<VariantArm>,
}

/// Ghost model of a `TraitImpl`.
pub ghost struct TraitImplV {
    pub kind: ImplKind,
    pub axes: ImplAxes,
    pub type_ident: Seq<char>,
    pub generics: Seq<Seq<char>>,
    pub bounds: Seq<Seq<char>>,
    pub arms: Seq<VariantArmV>,
}

impl View for TraitImpl {
    type V = TraitImplV;

    open spec fn view(&self) -> TraitImplV {
        TraitImplV {
            kind: self.kind,
            axes: self.axes,
            type_ident: self.type_ident@,
            generics: self.generics@.map_values(|g: String| g@),
            bounds: self.bounds@.map_values(|b: String| b@),
            arms: self.arms@.map_values(|a: VariantArm| a@),
        }
    }
}

// ---------------------------------------------------------------------
// The declaration's own name.
// ---------------------------------------------------------------------
/// The external name of the declared type itself: its explicit rename if
/// one is attached, otherwise its identifier (the blanket rule never
/// applies to the type's own name).
pub open spec fn spec_type_name(d: TypeDecl) -> Seq<char> {
    match spec_explicit_str(d.attrs@, 0, "rename"@) {
        Some(e) => e,
        None => d.ident@,
    }
}

pub(crate) fn resolved_type_name(decl: &TypeDecl) -> (r: String)
    ensures
        r@ == spec_type_name(*decl),
{
    match get_rename_attribute(&decl.attrs) {
        Some(e) => e,
        None => decl.ident.clone(),
    }
}

// ---------------------------------------------------------------------
// Trait-bound deduplication.
// ---------------------------------------------------------------------
/// First-occurrence deduplication of a type list: each distinct entry
/// appears exactly once, at the rank of its first occurrence.
pub open spec fn spec_dedup(tys: Seq<Seq<char>>) -> Seq<Seq<char>>
    decreases tys.len(),
{
    if tys.len() == 0 {
        Seq::empty()
    } else {
        let rest = spec_dedup(tys.drop_last());
        if tys.drop_last().contains(tys.last()) {
            rest
        } else {
            rest.push(tys.last())
        }
    }
}

/// Law: deduplication loses no obligation and invents none — a type is
/// among the deduplicated bounds exactly when some field has it.
pub proof fn lemma_dedup_contains(tys: Seq<Seq<char>>, x: Seq<char>)
    ensures
        spec_dedup(tys).contains(x) <==> tys.contains(x),
    decreases tys.len(),
{
    if tys.len() > 0 {
        lemma_dedup_contains(tys.drop_last(), x);
        assert(tys.contains(x) <==> (tys.drop_last().contains(x) || tys.last() == x)) by {
            if tys.contains(x) {
                let i = choose|i: int| 0 <= i < tys.len() && tys[i] == x;
                if i < tys.len() - 1 {
                    assert(tys.drop_last()[i] == x);
                }
            }
            if tys.drop_last().contains(x) {
                let i = choose|i: int| 0 <= i < tys.drop_last().len() && tys.drop_last()[i] == x;
                assert(tys[i] == x);
            }
        }
        if !tys.drop_last().contains(tys.last()) {
            let rest = spec_dedup(tys.drop_last());
            assert(rest.push(tys.last()).contains(x) <==> (rest.contains(x) || tys.last() == x))
                by {
                if rest.contains(x) {
                    let i = choose|i: int| 0 <= i < rest.len() && rest[i] == x;
                    assert(rest.push(tys.last())[i] == x);
                }
                if rest.push(tys.last()).contains(x) {
                    let i = choose|i: int|
                        0 <= i < rest.push(tys.last()).len() && rest.push(tys.last())[i] == x;
                    if i < rest.len() {
                        assert(rest[i] == x);
                    }
                }
                assert(rest.push(tys.last())[rest.len() as int] == tys.last());
            }
        }
    }
}

/// Law: a duplicate obligation is never emitted — the deduplicated
/// bounds hold each type at most once.
pub proof fn lemma_dedup_distinct(tys: Seq<Seq<char>>)
    ensures
        forall|a: int, b: int|
            0 <= a < b < spec_dedup(tys).len() ==> #[trigger] spec_dedup(tys)[a]
                != #[trigger] spec_dedup(tys)[b],
    decreases tys.len(),
{
    if tys.len() > 0 {
        lemma_dedup_distinct(tys.drop_last());
        if !tys.drop_last().contains(tys.last()) {
            let rest = spec_dedup(tys.drop_last());
            assert(!rest.contains(tys.last())) by {
                lemma_dedup_contains(tys.drop_last(), tys.last());
            }
            assert forall|a: int, b: int|
                0 <= a < b < rest.push(tys.last()).len() implies #[trigger] rest.push(
                tys.last(),
            )[a] != #[trigger] rest.push(tys.last())[b] by {
                if b < rest.len() {
                } else {
                    assert(rest.push(tys.last())[b] == tys.last());
                    assert(rest.push(tys.last())[a] == rest[a]);
                    if rest[a] == tys.last() {
                        assert(rest.contains(tys.last()));
                    }
                }
            }
        }
    }
}

fn contains_str(v: &Vec<String>, s: &str) -> (r: bool)
    ensures
        r == v@.map_values(|t: String| t@).contains(s@),
{
    let ghost m = v@.map_values(|t: String| t@);
    let mut i: usize = 0;
    while i < v.len()
        invariant
            i <= v@.len(),
            m == v@.map_values(|t: String| t@),
            forall|k: int| 0 <= k < i ==> #[trigger] v@[k]@ != s@,
        decreases v@.len() - i,
    {
        if str_eq(v[i].as_str(), s) {
            proof {
                assert(m[i as int] == s@);
            }
            return true;
        }
        i += 1;
    }
    proof {
        assert(!m.contains(s@)) by {
            if m.contains(s@) {
                let k = choose|k: int| 0 <= k < m.len() && m[k] == s@;
                assert(v@[k]@ == s@);
            }
        }
    }
    false
}

/// Deduplicates a type list, keeping first occurrences in order.
pub fn dedup_types(tys: &Vec<String>) -> (r: Vec<String>)
    ensures
        r@.map_values(|t: String| t@) == spec_dedup(tys@.map_values(|t: String| t@)),
{
    let ghost all = tys@.map_values(|t: String| t@);
    let mut r: Vec<String> = Vec::new();
    let mut i: usize = 0;
    proof {
        assert(r@.map_values(|t: String| t@) =~= spec_dedup(all.take(0)));
    }
    while i < tys.len()
        invariant
            i <= tys@.len(),
            all == tys@.map_values(|t: String| t@),
            r@.map_values(|t: String| t@) == spec_dedup(all.take(i as int)),
        decreases tys@.len() - i,
    {
        let present = contains_str(&r, tys[i].as_str());
        proof {
            lemma_dedup_contains(all.take(i as int), all[i as int]);
            assert(all.take(i + 1 as int).drop_last() =~= all.take(i as int));
            assert(all.take(i + 1 as int).last() == all[i as int]);
        }
        if !present {
            let ghost prev = r@;
            r.push(tys[i].clone());
            proof {
                assert(r@.map_values(|t: String| t@) =~= prev.map_values(|t: String| t@).push(
                    all[i as int],
                ));
            }
        }
        i += 1;
    }
    proof {
        assert(all.take(tys@.len() as int) =~= all);
    }
    r
}

// ---------------------------------------------------------------------
// From field steps to bound obligations.
// ---------------------------------------------------------------------
/// The declared types of a slot sequence, in order.
pub open spec fn spec_step_tys(steps: Seq<FieldStepV>) -> Seq<Seq<char>> {
    steps.map_values(|s: FieldStepV| s.ty)
}

/// The trait-bound obligations of a struct's field list: the distinct
/// kept field types, in first-occurrence order.
pub open spec fn spec_struct_bounds(fields: Seq<FieldDecl>, rule: RenameRule) -> Seq<Seq<char>> {
    spec_dedup(spec_step_tys(spec_steps(fields, 0, rule)))
}

pub(crate) fn steps_tys(steps: &Vec<FieldStep>) -> (r: Vec<String>)
    ensures
        r@.map_values(|t: String| t@) == spec_step_tys(steps@.map_values(|s: FieldStep| s@)),
{
    let mut r: Vec<String> = Vec::new();
    let mut i: usize = 0;
    while i < steps.len()
        invariant
            i <= steps@.len(),
            r@.len() == i,
            forall|k: int| 0 <= k < i ==> #[trigger] r@[k]@ == steps@[k]@.ty,
        decreases steps@.len() - i,
    {
        r.push(steps[i].ty.clone());
        i += 1;
    }
    proof {
        assert(r@.map_values(|t: String| t@) =~= spec_step_tys(
            steps@.map_values(|s: FieldStep| s@),
        ));
    }
    r
}

// ---------------------------------------------------------------------
// The struct descriptor.
// ---------------------------------------------------------------------
pub(crate) fn kept_count(fields: &Vec<FieldDecl>) -> (r: usize)
    ensures
        r as nat == spec_kept_count(fields@, 0),
{
    proof {
        lemma_kept_count_le_len(fields@, 0);
    }
    let mut n: usize = 0;
    let mut i: usize = 0;
    while i < fields.len()
        invariant
            i <= fields@.len(),
            n as nat + spec_kept_count(fields@, i as int) == spec_kept_count(fields@, 0),
            n <= i,
        decreases fields@.len() - i,
    {
        proof {
            lemma_kept_count_le_len(fields@, i as int);
        }
        if !crate::decl::field_is_skipped(&fields[i]) {
            n += 1;
        }
        i += 1;
    }
    n
}

/// The compile-time descriptor of a struct: resolved name, declared
/// namedness, and the kept field count.
pub fn derive_struct_info(decl: &TypeDecl, fields: &Vec<FieldDecl>) -> (r: StructInfoData)
    ensures
        r@.name == spec_type_name(*decl),
        r@.named_fields == (spec_classify(fields@) == FieldsShape::Named),
        r@.field_count == spec_kept_count(fields@, 0),
{
    let name = resolved_type_name(decl);
    let shape = classify_fields(fields);
    let named_fields = match shape {
        FieldsShape::Named => true,
        _ => false,
    };
    let field_count = kept_count(fields);
    StructInfoData { name, named_fields, field_count }
}

// ---------------------------------------------------------------------
// The emitted implementations.
// ---------------------------------------------------------------------
/// What every field-traversal implementation of a struct must look
/// like: attached to the declared type with its generics passed through,
/// one arm whose slots are the kept fields in declaration order with
/// consecutive positions, dispatching on the resolved type name, and one
/// bound obligation per distinct kept field type.
pub open spec fn spec_fields_impl(
    d: TypeDecl,
    fields: Seq<FieldDecl>,
    kind: ImplKind,
    axes: ImplAxes,
    r: TraitImplV,
) -> bool {
    let rule = spec_rename_all(d.attrs@, 0);
    &&& r.kind == kind
    &&& r.axes == axes
    &&& r.type_ident == d.ident@
    &&& r.generics == d.generics@.map_values(|g: String| g@)
    &&& r.bounds == spec_struct_bounds(fields, rule)
    &&& r.arms.len() == 1
    &&& r.arms[0].variant_ident == d.ident@
    &&& r.arms[0].dispatch_name == spec_type_name(d)
    &&& r.arms[0].shape == spec_classify(fields)
    &&& r.arms[0].steps == spec_steps(fields, 0, rule)
}

/// Consecutive positions from zero in every arm.
pub open spec fn spec_positions_consecutive(arms: Seq<VariantArm>) -> bool {
    forall|a: int, k: int|
        0 <= a < arms.len() && 0 <= k < arms[a].steps@.len() ==> #[trigger] arms[a].steps@[k].position
            == k
}

fn make_fields_impl(decl: &TypeDecl, fields: &Vec<FieldDecl>, kind: ImplKind, axes: ImplAxes) -> (r:
    TraitImpl)
    ensures
        spec_fields_impl(*decl, fields@, kind, axes, r@),
        spec_positions_consecutive(r.arms@),
{
    let rule = get_rename_all_attribute(&decl.attrs);
    let steps = field_steps(fields, rule);
    let tys = steps_tys(&steps);
    let bounds = dedup_types(&tys);
    let shape = classify_fields(fields);
    let dispatch_name = resolved_type_name(decl);
    let arm = VariantArm { variant_ident: decl.ident.clone(), dispatch_name, shape, steps };
    let arms = vec![arm];
    let r = TraitImpl {
        kind,
        axes,
        type_ident: decl.ident.clone(),
        generics: clone_strings(&decl.generics),
        bounds,
        arms,
    };
    proof {
        assert(r.arms@.map_values(|a: VariantArm| a@) =~= seq![r.arms@[0]@]);
        assert(r@.arms[0].steps =~= spec_steps(fields@, 0, rule));
        assert(r@.generics =~= decl.generics@.map_values(|g: String| g@));
    }
    r
}

pub(crate) fn clone_strings(v: &Vec<String>) -> (r: Vec<String>)
    ensures
        r@.map_values(|s: String| s@) == v@.map_values(|s: String| s@),
{
    let mut r: Vec<String> = Vec::new();
    let mut i: usize = 0;
    while i < v.len()
        invariant
            i <= v@.len(),
            r@.len() == i,
            forall|k: int| 0 <= k < i ==> #[trigger] r@[k]@ == v@[k]@,
        decreases v@.len() - i,
    {
        r.push(v[i].clone());
        i += 1;
    }
    proof {
        assert(r@.map_values(|s: String| s@) =~= v@.map_values(|s: String| s@));
    }
    r
}

/// Synchronous by-value positional traversal.
pub fn derive_visit_fields(decl: &TypeDecl, fields: &Vec<FieldDecl>) -> (r: TraitImpl)
    ensures
        spec_fields_impl(
            *decl,
            fields@,
            ImplKind::Fields,
            ImplAxes { asynchronous: false, is_static: false, named: false, covered: false },
            r@,
        ),
        spec_positions_consecutive(r.arms@),
{
    make_fields_impl(
        decl,
        fields,
        ImplKind::Fields,
        ImplAxes { asynchronous: false, is_static: false, named: false, covered: false },
    )
}

/// Sequential asynchronous by-value positional traversal.
pub fn derive_visit_fields_async(decl: &TypeDecl, fields: &Vec<FieldDecl>) -> (r: TraitImpl)
    ensures
        spec_fields_impl(
            *decl,
            fields@,
            ImplKind::Fields,
            ImplAxes { asynchronous: true, is_static: false, named: false, covered: false },
            r@,
        ),
        spec_positions_consecutive(r.arms@),
{
    make_fields_impl(
        decl,
        fields,
        ImplKind::Fields,
        ImplAxes { asynchronous: true, is_static: false, named: false, covered: false },
    )
}

/// Synchronous by-value named traversal.
pub fn derive_visit_fields_named(decl: &TypeDecl, fields: &Vec<FieldDecl>) -> (r: TraitImpl)
    ensures
        spec_fields_impl(
            *decl,
            fields@,
            ImplKind::Fields,
            ImplAxes { asynchronous: false, is_static: false, named: true, covered: false },
            r@,
        ),
        spec_positions_consecutive(r.arms@),
{
    make_fields_impl(
        decl,
        fields,
        ImplKind::Fields,
        ImplAxes { asynchronous: false, is_static: false, named: true, covered: false },
    )
}

/// Sequential asynchronous by-value named traversal.
pub fn derive_visit_fields_named_async(decl: &TypeDecl, fields: &Vec<FieldDecl>) -> (r: TraitImpl)
    ensures
        spec_fields_impl(
            *decl,
            fields@,
            ImplKind::Fields,
            ImplAxes { asynchronous: true, is_static: false, named: true, covered: false },
            r@,
        ),
        spec_positions_consecutive(r.arms@),
{
    make_fields_impl(
        decl,
        fields,
        ImplKind::Fields,
        ImplAxes { asynchronous: true, is_static: false, named: true, covered: false },
    )
}

/// Synchronous instance-free positional traversal.
pub fn derive_visit_fields_static(decl: &TypeDecl, fields: &Vec<FieldDecl>) -> (r: TraitImpl)
    ensures
        spec_fields_impl(
            *decl,
            fields@,
            ImplKind::Fields,
            ImplAxes { asynchronous: false, is_static: true, named: false, covered: false },
            r@,
        ),
        spec_positions_consecutive(r.arms@),
{
    make_fields_impl(
        decl,
        fields,
        ImplKind::Fields,
        ImplAxes { asynchronous: false, is_static: true, named: false, covered: false },
    )
}

/// Sequential asynchronous instance-free positional traversal.
pub fn derive_visit_fields_static_async(decl: &TypeDecl, fields: &Vec<FieldDecl>) -> (r: TraitImpl)
    ensures
        spec_fields_impl(
            *decl,
            fields@,
            ImplKind::Fields,
            ImplAxes { asynchronous: true, is_static: true, named: false, covered: false },
            r@,
        ),
        spec_positions_consecutive(r.arms@),
{
    make_fields_impl(
        decl,
        fields,
        ImplKind::Fields,
        ImplAxes { asynchronous: true, is_static: true, named: false, covered: false },
    )
}

/// Synchronous instance-free named traversal.
pub fn derive_visit_fields_static_named(decl: &TypeDecl, fields: &Vec<FieldDecl>) -> (r: TraitImpl)
    ensures
        spec_fields_impl(
            *decl,
            fields@,
            ImplKind::Fields,
            ImplAxes { asynchronous: false, is_static: true, named: true, covered: false },
            r@,
        ),
        spec_positions_consecutive(r.arms@),
{
    make_fields_impl(
        decl,
        fields,
        ImplKind::Fields,
        ImplAxes { asynchronous: false, is_static: true, named: true, covered: false },
    )
}

/// Sequential asynchronous instance-free named traversal.
pub fn derive_visit_fields_static_named_async(decl: &TypeDecl, fields: &Vec<FieldDecl>) -> (r:
    TraitImpl)
    ensures
        spec_fields_impl(
            *decl,
            fields@,
            ImplKind::Fields,
            ImplAxes { asynchronous: true, is_static: true, named: true, covered: false },
            r@,
        ),
        spec_positions_consecutive(r.arms@),
{
    make_fields_impl(
        decl,
        fields,
        ImplKind::Fields,
        ImplAxes { asynchronous: true, is_static: true, named: true, covered: false },
    )
}

/// Law: the field count is consistent everywhere. Whatever the axes,
/// every field-traversal implementation of a struct carries exactly as
/// many slots as the descriptor's field count: the kept fields, with
/// skipped fields excluded from both.
pub proof fn lemma_field_count_uniform(
    d: TypeDecl,
    fields: Seq<FieldDecl>,
    kind: ImplKind,
    axes: ImplAxes,
    r: TraitImplV,
)
    requires
        spec_fields_impl(d, fields, kind, axes, r),
    ensures
        r.arms[0].steps.len() == spec_kept_count(fields, 0),
{
    crate::decl::lemma_steps_len_is_kept_count(fields, 0, spec_rename_all(d.attrs@, 0));
}

/// Synchronous by-value traversal through the coverage wrapper, so one
/// blanket visitor implementation can serve every field type.
pub fn derive_visit_fields_covered(decl: &TypeDecl, fields: &Vec<FieldDecl>) -> (r: TraitImpl)
    ensures
        spec_fields_impl(
            *decl,
            fields@,
            ImplKind::Fields,
            ImplAxes { asynchronous: false, is_static: false, named: false, covered: true },
            r@,
        ),
        spec_positions_consecutive(r.arms@),
{
    make_fields_impl(
        decl,
        fields,
        ImplKind::Fields,
        ImplAxes { asynchronous: false, is_static: false, named: false, covered: true },
    )
}

/// Sequential asynchronous traversal through the coverage wrapper.
pub fn derive_visit_fields_covered_async(decl: &TypeDecl, fields: &Vec<FieldDecl>) -> (r:
    TraitImpl)
    ensures
        spec_fields_impl(
            *decl,
            fields@,
            ImplKind::Fields,
            ImplAxes { asynchronous: true, is_static: false, named: false, covered: true },
            r@,
        ),
        spec_positions_consecutive(r.arms@),
{
    make_fields_impl(
        decl,
        fields,
        ImplKind::Fields,
        ImplAxes { asynchronous: true, is_static: false, named: false, covered: true },
    )
}

// ---------------------------------------------------------------------
// The derive entry point for structs.
// ---------------------------------------------------------------------
/// A structural error of generation: the derive entry point was applied
/// to a declaration shape it does not support. Generation aborts
/// entirely; no partial output is ever emitted for this class.
#[derive(Debug, Clone, Copy, PartialEq, Eq, Structural)]
pub enum DeriveError {
    /// The field-traversal derive was applied to an enum or a union.
    NotAStruct,
    /// The variant-traversal derive was applied to a struct or a union.
    NotAnEnum,
}

impl DeriveError {
    /// The diagnostic a front end reports for this error.
    pub fn message(&self) -> (r: String)
        ensures
            *self == DeriveError::NotAStruct ==> r@ == "VisitFields can only be derived for structs"@,
            *self == DeriveError::NotAnEnum ==> r@ == "VisitVariants can only be derived for enums"@,
    {
        match self {
            DeriveError::NotAStruct => "VisitFields can only be derived for structs".to_owned(),
            DeriveError::NotAnEnum => "VisitVariants can only be derived for enums".to_owned(),
        }
    }
}

/// Everything the struct derive emits: the descriptor and the eight
/// field-traversal implementations.
#[derive(Debug, PartialEq, Eq)]
pub struct StructDerive {
    pub info: StructInfoData,
    pub impls: Vec<TraitImpl>,
}

/// The axis choices of the ten struct implementations, in emission
/// order: positional, named, then their instance-free forms, each
/// synchronous first, and the coverage-wrapper pair last.
pub open spec fn spec_struct_axes(j: int) -> ImplAxes {
    ImplAxes {
        asynchronous: j % 2 == 1,
        is_static: (4 <= j < 8),
        named: (j == 2 || j == 3 || j == 6 || j == 7),
        covered: j >= 8,
    }
}

/// The derive entry point for structs. Succeeds exactly on struct
/// declarations, emitting the descriptor and all ten traversal
/// implementations; an enum or union aborts with the structural error
/// and no output.
pub fn derive_visit_fields_(decl: &TypeDecl) -> (r: Result<StructDerive, DeriveError>)
    ensures
        match r {
            Ok(d) => decl.body is Struct && match decl.body {
                DeclBody::Struct(fields) => {
                    &&& d.info@.name == spec_type_name(*decl)
                    &&& d.info@.named_fields == (spec_classify(fields@) == FieldsShape::Named)
                    &&& d.info@.field_count == spec_kept_count(fields@, 0)
                    &&& d.impls@.len() == 10
                    &&& forall|j: int|
                        0 <= j < 10 ==> spec_fields_impl(
                            *decl,
                            fields@,
                            ImplKind::Fields,
                            spec_struct_axes(j),
                            #[trigger] d.impls@[j]@,
                        )
                    &&& forall|j: int|
                        0 <= j < 10 ==> spec_positions_consecutive(#[trigger] d.impls@[j].arms@)
                },
                _ => false,
            },
            Err(e) => !(decl.body is Struct) && e == DeriveError::NotAStruct,
        },
{
    let fields = match &decl.body {
        DeclBody::Struct(fields) => fields,
        _ => {
            return Err(DeriveError::NotAStruct);
        },
    };
    let info = derive_struct_info(decl, fields);
    let mut impls: Vec<TraitImpl> = Vec::new();
    impls.push(derive_visit_fields(decl, fields));
    impls.push(derive_visit_fields_async(decl, fields));
    impls.push(derive_visit_fields_named(decl, fields));
    impls.push(derive_visit_fields_named_async(decl, fields));
    impls.push(derive_visit_fields_static(decl, fields));
    impls.push(derive_visit_fields_static_async(decl, fields));
    impls.push(derive_visit_fields_static_named(decl, fields));
    impls.push(derive_visit_fields_static_named_async(decl, fields));
    impls.push(derive_visit_fields_covered(decl, fields));
    impls.push(derive_visit_fields_covered_async(decl, fields));
    Ok(StructDerive { info, impls })
}

} // verus!
