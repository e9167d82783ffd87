//! The model of the generated declarations.
//!
//! A successful transformation yields, in fixed order: the rewritten enum,
//! the companion trait, and one anonymous helper scope holding the wrapper
//! records, the wrapper-to-enum conversions and the single trait
//! implementation. Everything is plain data; a host back end renders it to
//! concrete syntax.

use vstd::prelude::*;

use crate::ast::{AttrView, Attribute, FieldList, FieldListView};

verus! {

/// A variant of the rewritten enum: the original name and annotations,
/// with the field list replaced by one positional field whose type is the
/// associated type `payload_assoc` of the trait `payload_trait`, projected
/// through `Self`.
#[derive(Debug, PartialEq, Eq)]
pub struct RewrittenVariant {
    pub name: String,
    pub attrs: Vec<Attribute>,
    pub payload_trait: String,
    pub payload_assoc: String,
}

/// The view of a [`RewrittenVariant`].
#[verifier::ext_equal]
pub ghost struct RewrittenVariantView {
    pub name: Seq<char>,
    pub attrs: Seq<AttrView>,
    pub payload_trait: Seq<char>,
    pub payload_assoc: Seq<char>,
}

impl DeepView for RewrittenVariant {
    type V = RewrittenVariantView;

    open spec fn deep_view(&self) -> RewrittenVariantView {
        RewrittenVariantView {
            name: self.name@,
            attrs: self.attrs.deep_view(),
            payload_trait: self.payload_trait@,
            payload_assoc: self.payload_assoc@,
        }
    }
}

/// The rewritten enum: the original outer annotations, visibility, name
/// and generics, with every variant rewritten.
#[derive(Debug, PartialEq, Eq)]
pub struct EnumDecl {
    pub attrs: Vec<Attribute>,
    pub vis: String,
    pub name: String,
    pub generics: String,
    pub variants: Vec<RewrittenVariant>,
}

/// The view of an [`EnumDecl`].
#[verifier::ext_equal]
pub ghost struct EnumDeclView {
    pub attrs: Seq<AttrView>,
    pub vis: Seq<char>,
    pub name: Seq<char>,
    pub generics: Seq<char>,
    pub variants: Seq<RewrittenVariantView>,
}

impl DeepView for EnumDecl {
    type V = EnumDeclView;

    open spec fn deep_view(&self) -> EnumDeclView {
        EnumDeclView {
            attrs: self.attrs.deep_view(),
            vis: self.vis@,
            name: self.name@,
            generics: self.generics@,
            variants: self.variants.deep_view(),
        }
    }
}

/// The companion trait: a public trait under the resolved identifier,
/// carrying the original declaration's generics verbatim and one
/// associated type per variant, named identically to the variant, with no
/// bounds and no default.
#[derive(Debug, PartialEq, Eq)]
pub struct TraitDecl {
    pub name: String,
    pub generics: String,
    pub assoc_types: Vec<String>,
}

/// The view of a [`TraitDecl`].
#[verifier::ext_equal]
pub ghost struct TraitDeclView {
    pub name: Seq<char>,
    pub generics: Seq<char>,
    pub assoc_types: Seq<Seq<char>>,
}

impl DeepView for TraitDecl {
    type V = TraitDeclView;

    open spec fn deep_view(&self) -> TraitDeclView {
        TraitDeclView {
            name: self.name@,
            generics: self.generics@,
            assoc_types: self.assoc_types.deep_view(),
        }
    }
}

/// A wrapper record: a public, freestanding record reusing one variant's
/// original field shape and fields verbatim, under the variant's name
/// behind the reserved prefix, with the enclosing declaration's generics
/// copied verbatim.
#[derive(Debug, PartialEq, Eq)]
pub struct RecordDecl {
    pub attrs: Vec<Attribute>,
    pub name: String,
    pub generics: String,
    pub fields: FieldList,
}

/// The view of a [`RecordDecl`].
#[verifier::ext_equal]
pub ghost struct RecordDeclView {
    pub attrs: Seq<AttrView>,
    pub name: Seq<char>,
    pub generics: Seq<char>,
    pub fields: FieldListView,
}

impl DeepView for RecordDecl {
    type V = RecordDeclView;

    open spec fn deep_view(&self) -> RecordDeclView {
        RecordDeclView {
            attrs: self.attrs.deep_view(),
            name: self.name@,
            generics: self.generics@,
            fields: self.fields.deep_view(),
        }
    }
}

/// A one-directional conversion from a wrapper record into the rewritten
/// enum, wrapping the record as the named variant's payload.
#[derive(Debug, PartialEq, Eq)]
pub struct Conversion {
    pub wrapper: String,
    pub enum_name: String,
    pub generics: String,
    pub variant: String,
}

/// The view of a [`Conversion`].
#[verifier::ext_equal]
pub ghost struct ConversionView {
    pub wrapper: Seq<char>,
    pub enum_name: Seq<char>,
    pub generics: Seq<char>,
    pub variant: Seq<char>,
}

impl DeepView for Conversion {
    type V = ConversionView;

    open spec fn deep_view(&self) -> ConversionView {
        ConversionView {
            wrapper: self.wrapper@,
            enum_name: self.enum_name@,
            generics: self.generics@,
            variant: self.variant@,
        }
    }
}

/// One associated-type binding of the generated trait implementation:
/// the associated type under `assoc` is bound to the wrapper record named
/// `wrapper`.
#[derive(Debug, PartialEq, Eq)]
pub struct Binding {
    pub assoc: String,
    pub wrapper: String,
}

/// The view of a [`Binding`].
#[verifier::ext_equal]
pub ghost struct BindingView {
    pub assoc: Seq<char>,
    pub wrapper: Seq<char>,
}

impl DeepView for Binding {
    type V = BindingView;

    open spec fn deep_view(&self) -> BindingView {
        BindingView { assoc: self.assoc@, wrapper: self.wrapper@ }
    }
}

/// The one generated implementation of the companion trait, for the
/// rewritten enum, binding each associated type to its wrapper record.
#[derive(Debug, PartialEq, Eq)]
pub struct TraitImpl {
    pub trait_name: String,
    pub enum_name: String,
    pub generics: String,
    pub bindings: Vec<Binding>,
}

/// The view of a [`TraitImpl`].
#[verifier::ext_equal]
pub ghost struct TraitImplView {
    pub trait_name: Seq<char>,
    pub enum_name: Seq<char>,
    pub generics: Seq<char>,
    pub bindings: Seq<BindingView>,
}

impl DeepView for TraitImpl {
    type V = TraitImplView;

    open spec fn deep_view(&self) -> TraitImplView {
        TraitImplView {
            trait_name: self.trait_name@,
            enum_name: self.enum_name@,
            generics: self.generics@,
            bindings: self.bindings.deep_view(),
        }
    }
}

/// The anonymous, non-re-exported scope that holds all generated helper
/// entities: the wrapper records, the conversions, and the trait
/// implementation.
#[derive(Debug, PartialEq, Eq)]
pub struct HelperScope {
    pub records: Vec<RecordDecl>,
    pub conversions: Vec<Conversion>,
    pub trait_impl: TraitImpl,
}

/// The view of a [`HelperScope`].
#[verifier::ext_equal]
pub ghost struct HelperScopeView {
    pub records: Seq<RecordDeclView>,
    pub conversions: Seq<ConversionView>,
    pub trait_impl: TraitImplView,
}

impl DeepView for HelperScope {
    type V = HelperScopeView;

    open spec fn deep_view(&self) -> HelperScopeView {
        HelperScopeView {
            records: self.records.deep_view(),
            conversions: self.conversions.deep_view(),
            trait_impl: self.trait_impl.deep_view(),
        }
    }
}

/// The full output of one successful transformation, in emission order:
/// the rewritten enum, the companion trait, the helper scope.
#[derive(Debug, PartialEq, Eq)]
pub struct Generated {
    pub enum_decl: EnumDecl,
    pub trait_decl: TraitDecl,
    pub helpers: HelperScope,
}

/// The view of a [`Generated`].
#[verifier::ext_equal]
pub ghost struct GeneratedView {
    pub enum_decl: EnumDeclView,
    pub trait_decl: TraitDeclView,
    pub helpers: HelperScopeView,
}

impl DeepView for Generated {
    type V = GeneratedView;

    open spec fn deep_view(&self) -> GeneratedView {
        GeneratedView {
            enum_decl: self.enum_decl.deep_view(),
            trait_decl: self.trait_decl.deep_view(),
            helpers: self.helpers.deep_view(),
        }
    }
}

} // verus!
