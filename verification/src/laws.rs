//! The engine's laws, stated and proved once over the transformation's
//! mathematical model.

use vstd::prelude::*;

use crate::ast::{BodyView, DeclarationView, VariantView};
use crate::engine::{
    spec_transform, spec_wrapper_name, struct_message, union_message,
};
use crate::error::{spec_diagnostic, DiagnosticView};
use crate::output::GeneratedView;
use crate::params::{
    candidate_of, lemma_trait_ident_found, missing_name_message, spec_trait_ident, ParamsView,
};

verus! {

/// Law: the transformation is deterministic. Two invocations over equal
/// parameter sets and equal declarations yield equal results, success or
/// failure alike.
pub proof fn lemma_deterministic(
    p1: ParamsView,
    p2: ParamsView,
    d1: DeclarationView,
    d2: DeclarationView,
)
    requires
        p1 == p2,
        d1 == d2,
    ensures
        spec_transform(p1, d1) == spec_transform(p2, d2),
{
}

/// Law: variant count and names are preserved. On any successful
/// transformation the rewritten enum has exactly as many variants as the
/// input, under the same names, in the same order, and the companion
/// trait declares exactly one associated type per variant, named after
/// it.
pub proof fn lemma_variant_names_preserved(
    p: ParamsView,
    d: DeclarationView,
    variants: Seq<VariantView>,
    g: GeneratedView,
)
    requires
        d.body == BodyView::Enum(variants),
        spec_transform(p, d) == Ok::<GeneratedView, DiagnosticView>(g),
    ensures
        g.enum_decl.variants.len() == variants.len(),
        forall|i: int| 0 <= i < variants.len() ==> (#[trigger] g.enum_decl.variants[i]).name
            == variants[i].name,
        g.trait_decl.assoc_types.len() == variants.len(),
        forall|i: int| 0 <= i < variants.len() ==> #[trigger] g.trait_decl.assoc_types[i]
            == variants[i].name,
{
}

/// Law: round-trip construction. For every variant, the generated wrapper
/// record carries exactly that variant's fields under the prefixed name,
/// the generated conversion turns exactly that wrapper into exactly that
/// variant of the enum, and the trait implementation binds the associated
/// type named after the variant to that same wrapper. Constructing the
/// wrapper with the variant's original field values and converting it
/// therefore lands on the same variant with the same values.
pub proof fn lemma_round_trip(
    p: ParamsView,
    d: DeclarationView,
    variants: Seq<VariantView>,
    g: GeneratedView,
    i: int,
)
    requires
        d.body == BodyView::Enum(variants),
        spec_transform(p, d) == Ok::<GeneratedView, DiagnosticView>(g),
        0 <= i < variants.len(),
    ensures
        g.helpers.records.len() == variants.len(),
        g.helpers.conversions.len() == variants.len(),
        g.helpers.trait_impl.bindings.len() == variants.len(),
        g.helpers.records[i].name == spec_wrapper_name(variants[i].name),
        g.helpers.records[i].fields == variants[i].fields,
        g.helpers.conversions[i].wrapper == g.helpers.records[i].name,
        g.helpers.conversions[i].variant == variants[i].name,
        g.helpers.conversions[i].enum_name == d.name,
        g.helpers.trait_impl.bindings[i].assoc == variants[i].name,
        g.helpers.trait_impl.bindings[i].wrapper == g.helpers.records[i].name,
{
}

/// Law: once a trait name resolves, non-enum input is rejected and enum
/// input accepted. Given a valid trait name, a struct body fails with the
/// struct diagnostic at the declaration's span, a union body with the
/// union diagnostic there, and an enum body always succeeds.
pub proof fn lemma_non_enum_rejected(p: ParamsView, d: DeclarationView)
    requires
        spec_trait_ident(p.entries) is Some,
    ensures
        d.body is Struct ==> spec_transform(p, d) == Err::<GeneratedView, DiagnosticView>(
            spec_diagnostic(d.span, struct_message()),
        ),
        d.body is Union ==> spec_transform(p, d) == Err::<GeneratedView, DiagnosticView>(
            spec_diagnostic(d.span, union_message()),
        ),
        d.body is Enum ==> spec_transform(p, d) is Ok,
{
}

/// Law: missing-name rejection. The parameter parser runs first, so the
/// invocation fails with the missing-name diagnostic at the parameter
/// list's span exactly when no entry's value is a bare single-segment
/// identifier — whatever the declaration's body is, and however many
/// other well-formed entries the list holds.
pub proof fn lemma_missing_name_rejected(p: ParamsView, d: DeclarationView)
    ensures
        (spec_transform(p, d) == Err::<GeneratedView, DiagnosticView>(
            spec_diagnostic(p.span, missing_name_message()),
        )) <==> (forall|i: int|
            0 <= i < p.entries.len() ==> candidate_of(#[trigger] p.entries[i]) is None),
{
    lemma_trait_ident_found(p.entries);
    reveal_strlit("cannot find valid `name` parameter");
    reveal_strlit("cannot use `#enum_newtype` on `struct` types");
    reveal_strlit("cannot use `#enum_newtype` on `union` types");
    assert(missing_name_message().len() != struct_message().len());
    assert(missing_name_message().len() != union_message().len());
    let miss = spec_diagnostic(p.span, missing_name_message());
    if spec_trait_ident(p.entries) is Some {
        if d.body is Struct {
            let shape = spec_diagnostic(d.span, struct_message());
            assert(shape.reports[0].message == struct_message());
            assert(miss.reports[0].message == missing_name_message());
            assert(shape != miss);
        }
        if d.body is Union {
            let shape = spec_diagnostic(d.span, union_message());
            assert(shape.reports[0].message == union_message());
            assert(miss.reports[0].message == missing_name_message());
            assert(shape != miss);
        }
    }
}

} // verus!
