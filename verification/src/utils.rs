//! Inspection helpers for annotations.
//!
//! Whether an annotation is documentation or a `derive` is decided purely
//! by its path token — by name matching, never by resolving what the
//! annotation expands to.

use vstd::prelude::*;

use crate::ast::{AttrView, Attribute};

verus! {

/// Whether an annotation's path names the documentation attribute.
pub open spec fn spec_is_docs(attr: AttrView) -> bool {
    attr.path == "doc"@
}

/// Whether an annotation's path names the derive attribute.
pub open spec fn spec_is_derive(attr: AttrView) -> bool {
    attr.path == "derive"@
}

impl Attribute {
    /// Returns `true` if the annotation is a documentation attribute.
    pub fn is_docs_attribute(&self) -> (r: bool)
        ensures
            r == spec_is_docs(self.deep_view()),
    {
        let docs_path = String::from_str("doc");
        self.path == docs_path
    }

    /// Returns `Some` if the annotation is a documentation attribute.
    pub fn filter_docs(&self) -> (r: Option<&Attribute>)
        ensures
            r == if spec_is_docs(self.deep_view()) {
                Some(self)
            } else {
                None::<&Attribute>
            },
    {
        if self.is_docs_attribute() {
            return Some(self);
        }
        None
    }

    /// Returns `true` if the annotation is a `derive` attribute.
    pub fn is_derive_attribute(&self) -> (r: bool)
        ensures
            r == spec_is_derive(self.deep_view()),
    {
        let derive_path = String::from_str("derive");
        self.path == derive_path
    }

    /// Returns `Some` if the annotation is a `derive` attribute.
    pub fn filter_derive(&self) -> (r: Option<&Attribute>)
        ensures
            r == if spec_is_derive(self.deep_view()) {
                Some(self)
            } else {
                None::<&Attribute>
            },
    {
        if self.is_derive_attribute() {
            return Some(self);
        }
        None
    }
}

/// An element-for-element copy of an annotation list.
pub fn duplicate_attrs(attrs: &Vec<Attribute>) -> (r: Vec<Attribute>)
    ensures
        r@ == attrs@,
{
    let mut out: Vec<Attribute> = Vec::new();
    let mut i: usize = 0;
    while i < attrs.len()
        invariant
            i <= attrs.len(),
            out@.len() == i,
            forall|j: int| 0 <= j < i ==> out@[j] == attrs@[j],
        decreases attrs.len() - i,
    {
        out.push(attrs[i].duplicate());
        i = i + 1;
    }
    proof {
        assert(out@ =~= attrs@);
    }
    out
}

} // verus!
