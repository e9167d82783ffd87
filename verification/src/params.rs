//! The parameter set of a transformation invocation.
//!
//! The configuration arguments are a comma-separated list of entries, each
//! a bare path, a name with a parenthesised argument list, or a
//! `name = value` pair. The one entry this engine requires is a
//! `name = value` pair whose value is a bare single-segment identifier:
//! the first such value names the generated companion trait.

use vstd::prelude::*;

use crate::ast::Span;
use crate::error::{spec_diagnostic, Diagnostic};

verus! {

/// The value of a `name = value` entry: either a bare path of exactly one
/// segment (a plain identifier), or anything else, kept as verbatim text.
#[derive(Debug, PartialEq, Eq)]
pub enum ParamValue {
    Ident(String),
    Other(String),
}

/// The view of a [`ParamValue`].
#[verifier::ext_equal]
pub ghost enum ParamValueView {
    Ident(Seq<char>),
    Other(Seq<char>),
}

impl DeepView for ParamValue {
    type V = ParamValueView;

    open spec fn deep_view(&self) -> ParamValueView {
        match self {
            ParamValue::Ident(id) => ParamValueView::Ident(id@),
            ParamValue::Other(text) => ParamValueView::Other(text@),
        }
    }
}

/// One configuration entry, in the shape it was written: a bare path, a
/// name with an argument list, or a `name = value` pair.
#[derive(Debug, PartialEq, Eq)]
pub enum ParamEntry {
    Path(String),
    List { name: String, tokens: String },
    NameValue { name: String, value: ParamValue },
}

/// The view of a [`ParamEntry`].
#[verifier::ext_equal]
pub ghost enum ParamEntryView {
    Path(Seq<char>),
    List { name: Seq<char>, tokens: Seq<char> },
    NameValue { name: Seq<char>, value: ParamValueView },
}

impl DeepView for ParamEntry {
    type V = ParamEntryView;

    open spec fn deep_view(&self) -> ParamEntryView {
        match self {
            ParamEntry::Path(path) => ParamEntryView::Path(path@),
            ParamEntry::List { name, tokens } => ParamEntryView::List {
                name: name@,
                tokens: tokens@,
            },
            ParamEntry::NameValue { name, value } => ParamEntryView::NameValue {
                name: name@,
                value: value.deep_view(),
            },
        }
    }
}

/// The parameter set of one invocation: the entries in the order they
/// were written, and the span of the whole list.
#[derive(Debug, PartialEq, Eq)]
pub struct Params {
    pub span: Span,
    pub entries: Vec<ParamEntry>,
}

/// The view of [`Params`].
#[verifier::ext_equal]
pub ghost struct ParamsView {
    pub span: Span,
    pub entries: Seq<ParamEntryView>,
}

impl DeepView for Params {
    type V = ParamsView;

    open spec fn deep_view(&self) -> ParamsView {
        ParamsView { span: self.span, entries: self.entries.deep_view() }
    }
}

/// The candidate trait identifier an entry offers: the value of a
/// `name = value` entry when that value is a plain identifier, nothing
/// otherwise. The entry's own name plays no part.
pub open spec fn candidate_of(entry: ParamEntryView) -> Option<Seq<char>> {
    match entry {
        ParamEntryView::NameValue { name, value: ParamValueView::Ident(id) } => Some(id),
        _ => None,
    }
}

/// The resolved trait identifier of an entry list: the first candidate in
/// entry order, if any. Duplicate candidates are settled by position
/// alone.
pub open spec fn spec_trait_ident(entries: Seq<ParamEntryView>) -> Option<Seq<char>>
    decreases entries.len(),
{
    if entries.len() == 0 {
        None
    } else if candidate_of(entries[0]) is Some {
        candidate_of(entries[0])
    } else {
        spec_trait_ident(entries.drop_first())
    }
}

/// The message of the diagnostic raised when no entry names the trait.
pub open spec fn missing_name_message() -> Seq<char> {
    "cannot find valid `name` parameter"@
}

/// The resolution succeeds exactly when some entry offers a candidate.
pub proof fn lemma_trait_ident_found(entries: Seq<ParamEntryView>)
    ensures
        (spec_trait_ident(entries) is Some) <==> (exists|i: int|
            0 <= i < entries.len() && candidate_of(#[trigger] entries[i]) is Some),
    decreases entries.len(),
{
    if entries.len() > 0 && candidate_of(entries[0]) is None {
        lemma_trait_ident_found(entries.drop_first());
        if spec_trait_ident(entries) is Some {
            let i = choose|i: int|
                0 <= i < entries.drop_first().len() && candidate_of(
                    #[trigger] entries.drop_first()[i],
                ) is Some;
            assert(entries[i + 1] == entries.drop_first()[i]);
        }
        if exists|i: int| 0 <= i < entries.len() && candidate_of(#[trigger] entries[i]) is Some {
            let i = choose|i: int|
                0 <= i < entries.len() && candidate_of(#[trigger] entries[i]) is Some;
            assert(entries.drop_first()[i - 1] == entries[i]);
        }
    }
}

/// The resolved identifier is the candidate of the first entry that
/// offers one: entries before it offer none.
pub proof fn lemma_trait_ident_first_match(entries: Seq<ParamEntryView>, i: int)
    requires
        0 <= i < entries.len(),
        candidate_of(entries[i]) is Some,
        forall|j: int| 0 <= j < i ==> candidate_of(#[trigger] entries[j]) is None,
    ensures
        spec_trait_ident(entries) == candidate_of(entries[i]),
    decreases i,
{
    if i > 0 {
        assert(entries.drop_first()[i - 1] == entries[i]);
        assert(forall|j: int|
            0 <= j < i - 1 ==> candidate_of(#[trigger] entries.drop_first()[j]) == candidate_of(
                entries[j + 1],
            ));
        lemma_trait_ident_first_match(entries.drop_first(), i - 1);
    }
}

impl Params {
    /// Returns the identifier of the `name` parameter: the value of the
    /// first entry whose value is a plain identifier. When no entry
    /// qualifies, fails with a diagnostic spanning the whole list.
    pub fn name(&self) -> (r: Result<String, Diagnostic>)
        ensures
            match r {
                Ok(id) => spec_trait_ident(self.entries.deep_view()) == Some(id@),
                Err(d) => spec_trait_ident(self.entries.deep_view()) is None && d.deep_view()
                    == spec_diagnostic(self.span, missing_name_message()),
            },
    {
        let ghost entry_views = self.entries.deep_view();
        let mut i: usize = 0;
        while i < self.entries.len()
            invariant
                i <= self.entries.len(),
                entry_views == self.entries.deep_view(),
                forall|j: int| 0 <= j < i ==> candidate_of(#[trigger] entry_views[j]) is None,
            decreases self.entries.len() - i,
        {
            if let ParamEntry::NameValue { name: _, value: ParamValue::Ident(id) } =
                &self.entries[i] {
                proof {
                    assert(candidate_of(entry_views[i as int]) == Some(id@));
                    lemma_trait_ident_first_match(entry_views, i as int);
                }
                return Ok(id.clone());
            }
            proof {
                assert(candidate_of(entry_views[i as int]) is None);
            }
            i = i + 1;
        }
        proof {
            lemma_trait_ident_found(entry_views);
        }
        Err(Diagnostic::new(self.span, String::from_str("cannot find valid `name` parameter")))
    }
}

} // verus!
