//! The transform engine.
//!
//! Given a parameter set and a parsed declaration, the engine first
//! resolves the trait identifier from the parameters, then validates that
//! the declaration is an enum, and produces the generated declarations: the rewritten enum, the companion trait, and the helper
//! scope with one wrapper record, one conversion and one associated-type
//! binding per variant, all in declaration order. Any failure surfaces as
//! a single diagnostic in place of the output.

use vstd::prelude::*;

use crate::ast::{AttrView, Attribute, Body, BodyView, Declaration, Variant, VariantView};
use crate::error::{spec_diagnostic, Diagnostic, DiagnosticView};
use crate::output::{
    Binding, BindingView, Conversion, ConversionView, EnumDecl, EnumDeclView, Generated,
    GeneratedView, HelperScope, HelperScopeView, RecordDecl, RecordDeclView, RewrittenVariant,
    RewrittenVariantView, TraitDecl, TraitDeclView, TraitImpl, TraitImplView,
};
use crate::params::{missing_name_message, spec_trait_ident, Params, ParamsView};
use crate::utils::{duplicate_attrs, spec_is_derive};

verus! {

/// The reserved marker prefixed to every wrapper record's name. Wrapper
/// names cannot collide with ordinary user identifiers as long as users do
/// not themselves use this prefix.
pub open spec fn wrapper_prefix() -> Seq<char> {
    "__enum_newtype_"@
}

/// The name of the wrapper record generated for a variant of this name.
pub open spec fn spec_wrapper_name(name: Seq<char>) -> Seq<char> {
    wrapper_prefix() + name
}

/// The `derive`-class annotations of an annotation list, in order.
pub open spec fn spec_derives(attrs: Seq<AttrView>) -> Seq<AttrView> {
    attrs.filter(|a: AttrView| spec_is_derive(a))
}

/// A variant of the rewritten enum: the source variant's name and
/// annotations, with the payload re-expressed as the trait's associated
/// type named after the variant.
pub open spec fn spec_rewritten_variant(
    v: VariantView,
    trait_ident: Seq<char>,
) -> RewrittenVariantView {
    RewrittenVariantView {
        name: v.name,
        attrs: v.attrs,
        payload_trait: trait_ident,
        payload_assoc: v.name,
    }
}

/// The wrapper record of a variant: the variant's own annotations
/// followed by the declaration's derive-class annotations, the prefixed
/// name, the enclosing generics verbatim, and the variant's fields
/// verbatim.
pub open spec fn spec_record(
    v: VariantView,
    generics: Seq<char>,
    derives: Seq<AttrView>,
) -> RecordDeclView {
    RecordDeclView {
        attrs: v.attrs + derives,
        name: spec_wrapper_name(v.name),
        generics,
        fields: v.fields,
    }
}

/// The conversion generated for a variant: its wrapper record into the
/// enum, as that variant's payload.
pub open spec fn spec_conversion(
    v: VariantView,
    enum_name: Seq<char>,
    generics: Seq<char>,
) -> ConversionView {
    ConversionView { wrapper: spec_wrapper_name(v.name), enum_name, generics, variant: v.name }
}

/// The associated-type binding generated for a variant: the type named
/// after the variant is bound to its wrapper record.
pub open spec fn spec_binding(v: VariantView) -> BindingView {
    BindingView { assoc: v.name, wrapper: spec_wrapper_name(v.name) }
}

/// The full output generated for an enum declaration with these variants
/// and this trait identifier.
pub open spec fn spec_generated(
    d: crate::ast::DeclarationView,
    variants: Seq<VariantView>,
    trait_ident: Seq<char>,
) -> GeneratedView {
    GeneratedView {
        enum_decl: EnumDeclView {
            attrs: d.attrs,
            vis: d.vis,
            name: d.name,
            generics: d.generics,
            variants: variants.map_values(
                |v: VariantView| spec_rewritten_variant(v, trait_ident),
            ),
        },
        trait_decl: TraitDeclView {
            name: trait_ident,
            generics: d.generics,
            assoc_types: variants.map_values(|v: VariantView| v.name),
        },
        helpers: HelperScopeView {
            records: variants.map_values(
                |v: VariantView| spec_record(v, d.generics, spec_derives(d.attrs)),
            ),
            conversions: variants.map_values(
                |v: VariantView| spec_conversion(v, d.name, d.generics),
            ),
            trait_impl: TraitImplView {
                trait_name: trait_ident,
                enum_name: d.name,
                generics: d.generics,
                bindings: variants.map_values(|v: VariantView| spec_binding(v)),
            },
        },
    }
}

/// The message of the diagnostic raised for a struct declaration.
pub open spec fn struct_message() -> Seq<char> {
    "cannot use `#enum_newtype` on `struct` types"@
}

/// The message of the diagnostic raised for a union declaration.
pub open spec fn union_message() -> Seq<char> {
    "cannot use `#enum_newtype` on `union` types"@
}

/// What one transformation invocation yields. The parameter parser runs
/// first: when no entry names the trait, the missing-name diagnostic at
/// the parameter list's span comes back whatever the declaration's body
/// is. Only then is the body validated: the shape diagnostic at the
/// declaration's span for a struct or a union, the generated declarations
/// for an enum.
pub open spec fn spec_transform(
    p: ParamsView,
    d: crate::ast::DeclarationView,
) -> Result<GeneratedView, DiagnosticView> {
    match spec_trait_ident(p.entries) {
        Some(trait_ident) => match d.body {
            BodyView::Enum(variants) => Ok(spec_generated(d, variants, trait_ident)),
            BodyView::Struct => Err(spec_diagnostic(d.span, struct_message())),
            BodyView::Union => Err(spec_diagnostic(d.span, union_message())),
        },
        None => Err(spec_diagnostic(p.span, missing_name_message())),
    }
}

/// Filtering distributes over appending one element at the end.
proof fn lemma_filter_push(s: Seq<AttrView>, a: AttrView)
    ensures
        (s.push(a)).filter(|x: AttrView| spec_is_derive(x)) == if spec_is_derive(a) {
            s.filter(|x: AttrView| spec_is_derive(x)).push(a)
        } else {
            s.filter(|x: AttrView| spec_is_derive(x))
        },
{
    reveal(Seq::filter);
    assert((s.push(a)).drop_last() =~= s);
}

/// The derive-class annotations of the list, in order, as fresh copies.
pub fn derive_attributes(attrs: &Vec<Attribute>) -> (r: Vec<Attribute>)
    ensures
        r.deep_view() == spec_derives(attrs.deep_view()),
{
    let ghost attr_views = attrs.deep_view();
    let mut out: Vec<Attribute> = Vec::new();
    let mut i: usize = 0;
    proof {
        assert(attr_views.take(0) =~= Seq::<AttrView>::empty());
        assert(out.deep_view() =~= spec_derives(attr_views.take(0)));
    }
    while i < attrs.len()
        invariant
            i <= attrs.len(),
            attr_views == attrs.deep_view(),
            out.deep_view() == spec_derives(attr_views.take(i as int)),
        decreases attrs.len() - i,
    {
        let ghost pre = out.deep_view();
        if attrs[i].is_derive_attribute() {
            out.push(attrs[i].duplicate());
            proof {
                assert(out.deep_view() =~= pre.push(attr_views[i as int]));
            }
        }
        proof {
            assert(attr_views.take(i + 1) =~= attr_views.take(i as int).push(
                attr_views[i as int],
            ));
            lemma_filter_push(attr_views.take(i as int), attr_views[i as int]);
        }
        i = i + 1;
    }
    proof {
        assert(attr_views.take(attrs@.len() as int) =~= attr_views);
    }
    out
}

/// The variants of the declaration, or the shape diagnostic: a struct or
/// union body is rejected with a message spanning the whole declaration.
/// This is the sole structural gate; empty, single-variant and generic
/// enums are all accepted.
pub fn enum_data(input: &Declaration) -> (r: Result<&Vec<Variant>, Diagnostic>)
    ensures
        match r {
            Ok(variants) => input.body.deep_view() == BodyView::Enum(variants.deep_view()),
            Err(d) => (input.body is Struct && d.deep_view() == spec_diagnostic(
                input.span,
                struct_message(),
            )) || (input.body is Union && d.deep_view() == spec_diagnostic(
                input.span,
                union_message(),
            )),
        },
{
    match &input.body {
        Body::Enum(variants) => Ok(variants),
        Body::Struct => Err(
            Diagnostic::new(
                input.span,
                String::from_str("cannot use `#enum_newtype` on `struct` types"),
            ),
        ),
        Body::Union => Err(
            Diagnostic::new(
                input.span,
                String::from_str("cannot use `#enum_newtype` on `union` types"),
            ),
        ),
    }
}

/// The wrapper record's name for a variant of this name: the reserved
/// prefix followed by the variant's name.
pub fn variant_struct_ident(ident: &String) -> (r: String)
    ensures
        r@ == spec_wrapper_name(ident@),
{
    let prefix = String::from_str("__enum_newtype_");
    prefix.concat(ident.as_str())
}

/// The rewritten variant: same name and annotations, payload re-expressed
/// as the companion trait's associated type named after the variant.
pub fn variant_to_newtype(variant: &Variant, trait_ident: &String) -> (r: RewrittenVariant)
    ensures
        r.deep_view() == spec_rewritten_variant(variant.deep_view(), trait_ident@),
{
    let out = RewrittenVariant {
        name: variant.name.clone(),
        attrs: duplicate_attrs(&variant.attrs),
        payload_trait: trait_ident.clone(),
        payload_assoc: variant.name.clone(),
    };
    proof {
        assert(out.deep_view() =~= spec_rewritten_variant(variant.deep_view(), trait_ident@));
    }
    out
}

/// The companion trait's associated type declared for a variant: it bears
/// the variant's own name.
pub fn variant_to_assoc_type(variant: &Variant) -> (r: String)
    ensures
        r@ == variant.name@,
{
    variant.name.clone()
}

/// The associated-type binding of the generated trait implementation for
/// a variant: the type named after the variant, bound to its wrapper
/// record.
pub fn variant_to_assoc_type_impl(variant: &Variant) -> (r: Binding)
    ensures
        r.deep_view() == spec_binding(variant.deep_view()),
{
    Binding {
        assoc: variant.name.clone(),
        wrapper: variant_struct_ident(&variant.name),
    }
}

/// The wrapper record of a variant: the variant's fields and annotations
/// verbatim, the declaration's derive-class annotations appended, the
/// enclosing generics copied verbatim even when unused.
pub fn variant_to_struct(
    variant: &Variant,
    generics: &String,
    derives: &Vec<Attribute>,
) -> (r: RecordDecl)
    ensures
        r.deep_view() == spec_record(variant.deep_view(), generics@, derives.deep_view()),
{
    let mut attrs = duplicate_attrs(&variant.attrs);
    let mut more = duplicate_attrs(derives);
    let ghost own_views = attrs.deep_view();
    let ghost derive_views = more.deep_view();
    attrs.append(&mut more);
    proof {
        assert(attrs.deep_view() =~= own_views + derive_views);
    }
    let out = RecordDecl {
        attrs,
        name: variant_struct_ident(&variant.name),
        generics: generics.clone(),
        fields: variant.fields.duplicate(),
    };
    proof {
        assert(out.deep_view() =~= spec_record(
            variant.deep_view(),
            generics@,
            derives.deep_view(),
        ));
    }
    out
}

/// One transformation invocation: trait-name resolution, then structural
/// validation, then uniform per-variant generation in declaration order,
/// with no reordering and no deduplication. The result is pinned to
/// [`spec_transform`] of the two inputs.
pub fn enum_newtype(params: &Params, input: &Declaration) -> (r: Result<Generated, Diagnostic>)
    ensures
        match r {
            Ok(g) => spec_transform(params.deep_view(), input.deep_view())
                == Ok::<GeneratedView, DiagnosticView>(g.deep_view()),
            Err(d) => spec_transform(params.deep_view(), input.deep_view())
                == Err::<GeneratedView, DiagnosticView>(d.deep_view()),
        },
{
    let trait_ident = match params.name() {
        Ok(trait_ident) => trait_ident,
        Err(diagnostic) => {
            return Err(diagnostic);
        },
    };
    let variants = match enum_data(input) {
        Ok(variants) => variants,
        Err(diagnostic) => {
            return Err(diagnostic);
        },
    };
    let derives = derive_attributes(&input.attrs);
    let ghost variant_views = variants.deep_view();
    let ghost decl_view = input.deep_view();
    let mut newtype_variants: Vec<RewrittenVariant> = Vec::new();
    let mut newtype_aliases: Vec<String> = Vec::new();
    let mut newtype_alias_impls: Vec<Binding> = Vec::new();
    let mut variant_structs: Vec<RecordDecl> = Vec::new();
    let mut conversions: Vec<Conversion> = Vec::new();
    let mut i: usize = 0;
    while i < variants.len()
        invariant
            i <= variants.len(),
            variant_views == variants.deep_view(),
            decl_view == input.deep_view(),
            derives.deep_view() == spec_derives(decl_view.attrs),
            newtype_variants@.len() == i,
            newtype_aliases@.len() == i,
            newtype_alias_impls@.len() == i,
            variant_structs@.len() == i,
            conversions@.len() == i,
            forall|j: int| 0 <= j < i ==> newtype_variants.deep_view()[j]
                == spec_rewritten_variant(variant_views[j], trait_ident@),
            forall|j: int| 0 <= j < i ==> newtype_aliases.deep_view()[j]
                == variant_views[j].name,
            forall|j: int| 0 <= j < i ==> newtype_alias_impls.deep_view()[j]
                == spec_binding(variant_views[j]),
            forall|j: int| 0 <= j < i ==> variant_structs.deep_view()[j]
                == spec_record(variant_views[j], decl_view.generics, spec_derives(decl_view.attrs)),
            forall|j: int| 0 <= j < i ==> conversions.deep_view()[j]
                == spec_conversion(variant_views[j], decl_view.name, decl_view.generics),
        decreases variants.len() - i,
    {
        let variant = &variants[i];
        let ghost pre_variants = newtype_variants.deep_view();
        let ghost pre_aliases = newtype_aliases.deep_view();
        let ghost pre_alias_impls = newtype_alias_impls.deep_view();
        let ghost pre_structs = variant_structs.deep_view();
        let ghost pre_conversions = conversions.deep_view();
        newtype_variants.push(variant_to_newtype(variant, &trait_ident));
        newtype_aliases.push(variant_to_assoc_type(variant));
        newtype_alias_impls.push(variant_to_assoc_type_impl(variant));
        variant_structs.push(variant_to_struct(variant, &input.generics, &derives));
        conversions.push(
            Conversion {
                wrapper: variant_struct_ident(&variant.name),
                enum_name: input.name.clone(),
                generics: input.generics.clone(),
                variant: variant.name.clone(),
            },
        );
        proof {
            assert(variant_views[i as int] == variant.deep_view());
            assert(newtype_variants.deep_view() =~= pre_variants.push(
                spec_rewritten_variant(variant_views[i as int], trait_ident@),
            ));
            assert(newtype_aliases.deep_view() =~= pre_aliases.push(
                variant_views[i as int].name,
            ));
            assert(newtype_alias_impls.deep_view() =~= pre_alias_impls.push(
                spec_binding(variant_views[i as int]),
            ));
            assert(variant_structs.deep_view() =~= pre_structs.push(
                spec_record(
                    variant_views[i as int],
                    decl_view.generics,
                    spec_derives(decl_view.attrs),
                ),
            ));
            assert(conversions.deep_view() =~= pre_conversions.push(
                spec_conversion(variant_views[i as int], decl_view.name, decl_view.generics),
            ));
        }
        i = i + 1;
    }
    let generated = Generated {
        enum_decl: EnumDecl {
            attrs: duplicate_attrs(&input.attrs),
            vis: input.vis.clone(),
            name: input.name.clone(),
            generics: input.generics.clone(),
            variants: newtype_variants,
        },
        trait_decl: TraitDecl {
            name: trait_ident.clone(),
            generics: input.generics.clone(),
            assoc_types: newtype_aliases,
        },
        helpers: HelperScope {
            records: variant_structs,
            conversions,
            trait_impl: TraitImpl {
                trait_name: trait_ident.clone(),
                enum_name: input.name.clone(),
                generics: input.generics.clone(),
                bindings: newtype_alias_impls,
            },
        },
    };
    proof {
        let target = spec_generated(decl_view, variant_views, trait_ident@);
        assert(generated.deep_view().enum_decl.variants =~= target.enum_decl.variants);
        assert(generated.deep_view().trait_decl.assoc_types =~= target.trait_decl.assoc_types);
        assert(generated.deep_view().helpers.records =~= target.helpers.records);
        assert(generated.deep_view().helpers.conversions =~= target.helpers.conversions);
        assert(generated.deep_view().helpers.trait_impl.bindings
            =~= target.helpers.trait_impl.bindings);
        assert(generated.deep_view() =~= target);
    }
    Ok(generated)
}

} // verus!
