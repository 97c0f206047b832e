//! The annotation tree as this library sees it: plain data mirroring the
//! host grammar's meta forms, together with the spec-level models that the
//! contracts speak of.

use vstd::prelude::*;

verus! {

/// A literal value attached to a `name = value` entry.
#[derive(Debug, Clone, PartialEq, Eq)]
pub enum Lit {
    /// A string literal, with its decoded contents.
    Str(String),
    /// An integer literal.
    Int(u64),
    /// A boolean literal.
    Bool(bool),
    /// Any other literal kind (byte string, character, ...).
    Other,
}

/// Spec-level value of a literal.
pub ghost enum LitModel {
    Str(Seq<char>),
    Int(u64),
    Bool(bool),
    Other,
}

impl View for Lit {
    type V = LitModel;

    open spec fn view(&self) -> LitModel {
        match self {
            Lit::Str(s) => LitModel::Str(s@),
            Lit::Int(n) => LitModel::Int(*n),
            Lit::Bool(b) => LitModel::Bool(*b),
            Lit::Other => LitModel::Other,
        }
    }
}

/// A structured annotation body: a bare identifier, a parenthesized list of
/// entries, or a single `name = literal` pair.
#[derive(Debug, PartialEq, Eq)]
pub enum Meta {
    /// A bare identifier: `name`.
    Word(String),
    /// A parenthesized list: `name(entry, entry, ...)`.
    List(String, Vec<Entry>),
    /// A single pair: `name = literal`.
    NameValue(String, Lit),
}

/// One item inside a list-shaped body.
#[derive(Debug, PartialEq, Eq)]
pub enum Entry {
    /// A nested structured form.
    Meta(Meta),
    /// A bare literal with no name.
    Literal(Lit),
}

/// Spec-level value of an entry. The contents of a nested list never matter
/// (such an entry is always rejected), so the model keeps only its name.
pub ghost enum EntryModel {
    /// A bare identifier entry.
    Word(Seq<char>),
    /// An `identifier = literal` entry.
    NameValue(Seq<char>, LitModel),
    /// A nested list-shaped entry.
    NestedList(Seq<char>),
    /// A bare literal entry.
    Literal(LitModel),
}

impl View for Entry {
    type V = EntryModel;

    open spec fn view(&self) -> EntryModel {
        match self {
            Entry::Meta(m) => match m {
                Meta::Word(id) => EntryModel::Word(id@),
                Meta::List(name, _) => EntryModel::NestedList(name@),
                Meta::NameValue(id, lit) => EntryModel::NameValue(id@, lit@),
            },
            Entry::Literal(l) => EntryModel::Literal(l@),
        }
    }
}

/// The views of a sequence of entries.
pub open spec fn entries_view(s: Seq<Entry>) -> Seq<EntryModel> {
    s.map_values(|e: Entry| e@)
}

/// Spec-level value of a structured annotation body.
pub ghost enum MetaModel {
    Word(Seq<char>),
    List(Seq<char>, Seq<EntryModel>),
    NameValue(Seq<char>, LitModel),
}

impl View for Meta {
    type V = MetaModel;

    open spec fn view(&self) -> MetaModel {
        match self {
            Meta::Word(id) => MetaModel::Word(id@),
            Meta::List(name, entries) => MetaModel::List(name@, entries_view(entries@)),
            Meta::NameValue(id, lit) => MetaModel::NameValue(id@, lit@),
        }
    }
}

/// One annotation as it stands on the target struct.
#[derive(Debug, PartialEq, Eq)]
pub enum Attr {
    /// An annotation that cannot be interpreted as a structured meta form.
    Unstructured,
    /// An annotation with a structured body.
    Meta(Meta),
}

/// Spec-level value of an annotation.
pub ghost enum AttrModel {
    Unstructured,
    Meta(MetaModel),
}

impl View for Attr {
    type V = AttrModel;

    open spec fn view(&self) -> AttrModel {
        match self {
            Attr::Unstructured => AttrModel::Unstructured,
            Attr::Meta(m) => AttrModel::Meta(m@),
        }
    }
}

/// The views of a sequence of annotations.
pub open spec fn attrs_view(s: Seq<Attr>) -> Seq<AttrModel> {
    s.map_values(|a: Attr| a@)
}

} // verus!
