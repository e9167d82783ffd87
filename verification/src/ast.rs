//! The model of the declaration being transformed.
//!
//! A declaration is plain data: annotations, a visibility, a name, a
//! verbatim generics clause, and a body that is an enum, a struct or a
//! union. Each type carries a deep view into mathematical values so that
//! contracts can speak of sequences of characters rather than heap
//! strings.

use vstd::prelude::*;

verus! {

/// A source location: the byte range a node was read from. Diagnostics
/// point at one of these; the host front end maps them back to real
/// positions.
#[derive(Clone, Copy, Debug, PartialEq, Eq, Structural)]
pub struct Span {
    pub lo: usize,
    pub hi: usize,
}

/// One outer annotation on a declaration or a variant: its path (the name
/// it is invoked by) and the verbatim text of whatever arguments follow.
#[derive(Debug, PartialEq, Eq)]
pub struct Attribute {
    pub path: String,
    pub tokens: String,
}

/// The view of an [`Attribute`]: both parts as character sequences.
#[verifier::ext_equal]
pub ghost struct AttrView {
    pub path: Seq<char>,
    pub tokens: Seq<char>,
}

impl DeepView for Attribute {
    type V = AttrView;

    open spec fn deep_view(&self) -> AttrView {
        AttrView { path: self.path@, tokens: self.tokens@ }
    }
}

impl Attribute {
    /// A field-for-field copy.
    pub fn duplicate(&self) -> (r: Attribute)
        ensures
            r == *self,
    {
        Attribute { path: self.path.clone(), tokens: self.tokens.clone() }
    }
}

/// One named field of a variant or record: its name and the verbatim text
/// of its type.
#[derive(Debug, PartialEq, Eq)]
pub struct Field {
    pub name: String,
    pub ty: String,
}

/// The view of a [`Field`].
#[verifier::ext_equal]
pub ghost struct FieldView {
    pub name: Seq<char>,
    pub ty: Seq<char>,
}

impl DeepView for Field {
    type V = FieldView;

    open spec fn deep_view(&self) -> FieldView {
        FieldView { name: self.name@, ty: self.ty@ }
    }
}

impl Field {
    /// A field-for-field copy.
    pub fn duplicate(&self) -> (r: Field)
        ensures
            r == *self,
    {
        Field { name: self.name.clone(), ty: self.ty.clone() }
    }
}

/// The field shape of a variant or record: named fields, positional
/// fields (each just a type), or no fields at all.
#[derive(Debug, PartialEq, Eq)]
pub enum FieldList {
    Named(Vec<Field>),
    Unnamed(Vec<String>),
    Unit,
}

/// The view of a [`FieldList`].
#[verifier::ext_equal]
pub ghost enum FieldListView {
    Named(Seq<FieldView>),
    Unnamed(Seq<Seq<char>>),
    Unit,
}

impl DeepView for FieldList {
    type V = FieldListView;

    open spec fn deep_view(&self) -> FieldListView {
        match self {
            FieldList::Named(fields) => FieldListView::Named(fields.deep_view()),
            FieldList::Unnamed(tys) => FieldListView::Unnamed(tys.deep_view()),
            FieldList::Unit => FieldListView::Unit,
        }
    }
}

impl FieldList {
    /// A field-for-field copy.
    pub fn duplicate(&self) -> (r: FieldList)
        ensures
            r.deep_view() == self.deep_view(),
    {
        match self {
            FieldList::Named(fields) => {
                let mut out: Vec<Field> = Vec::new();
                let mut i: usize = 0;
                while i < fields.len()
                    invariant
                        i <= fields.len(),
                        out@.len() == i,
                        forall|j: int| 0 <= j < i ==> out@[j] == fields@[j],
                    decreases fields.len() - i,
                {
                    out.push(fields[i].duplicate());
                    i = i + 1;
                }
                proof {
                    assert(out.deep_view() =~= fields.deep_view());
                }
                FieldList::Named(out)
            },
            FieldList::Unnamed(tys) => {
                let mut out: Vec<String> = Vec::new();
                let mut i: usize = 0;
                while i < tys.len()
                    invariant
                        i <= tys.len(),
                        out@.len() == i,
                        forall|j: int| 0 <= j < i ==> out@[j] == tys@[j],
                    decreases tys.len() - i,
                {
                    out.push(tys[i].clone());
                    i = i + 1;
                }
                proof {
                    assert(out.deep_view() =~= tys.deep_view());
                }
                FieldList::Unnamed(out)
            },
            FieldList::Unit => FieldList::Unit,
        }
    }
}

/// One case of the enum being transformed: its name, its own annotations
/// (documentation and the like), and its field shape.
#[derive(Debug, PartialEq, Eq)]
pub struct Variant {
    pub name: String,
    pub attrs: Vec<Attribute>,
    pub fields: FieldList,
}

/// The view of a [`Variant`].
#[verifier::ext_equal]
pub ghost struct VariantView {
    pub name: Seq<char>,
    pub attrs: Seq<AttrView>,
    pub fields: FieldListView,
}

impl DeepView for Variant {
    type V = VariantView;

    open spec fn deep_view(&self) -> VariantView {
        VariantView {
            name: self.name@,
            attrs: self.attrs.deep_view(),
            fields: self.fields.deep_view(),
        }
    }
}

/// The body of the input declaration. Only an enum body can be
/// transformed; the other two shapes are rejected with a diagnostic.
#[derive(Debug, PartialEq, Eq)]
pub enum Body {
    Enum(Vec<Variant>),
    Struct,
    Union,
}

/// The view of a [`Body`].
#[verifier::ext_equal]
pub ghost enum BodyView {
    Enum(Seq<VariantView>),
    Struct,
    Union,
}

impl DeepView for Body {
    type V = BodyView;

    open spec fn deep_view(&self) -> BodyView {
        match self {
            Body::Enum(variants) => BodyView::Enum(variants.deep_view()),
            Body::Struct => BodyView::Struct,
            Body::Union => BodyView::Union,
        }
    }
}

/// The input declaration: outer annotations, visibility and generics kept
/// as verbatim text, the declared name, the body, and the span the whole
/// declaration was read from.
#[derive(Debug, PartialEq, Eq)]
pub struct Declaration {
    pub span: Span,
    pub attrs: Vec<Attribute>,
    pub vis: String,
    pub name: String,
    pub generics: String,
    pub body: Body,
}

/// The view of a [`Declaration`].
#[verifier::ext_equal]
pub ghost struct DeclarationView {
    pub span: Span,
    pub attrs: Seq<AttrView>,
    pub vis: Seq<char>,
    pub name: Seq<char>,
    pub generics: Seq<char>,
    pub body: BodyView,
}

impl DeepView for Declaration {
    type V = DeclarationView;

    open spec fn deep_view(&self) -> DeclarationView {
        DeclarationView {
            span: self.span,
            attrs: self.attrs.deep_view(),
            vis: self.vis@,
            name: self.name@,
            generics: self.generics@,
            body: self.body.deep_view(),
        }
    }
}

} // verus!
