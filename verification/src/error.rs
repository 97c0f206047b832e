//! The errors with which annotation processing aborts. Every error is fatal:
//! no configuration is produced once one is raised.

use vstd::prelude::*;

verus! {

/// Why processing of a struct's `model` annotations aborted.
#[derive(Debug, Clone, PartialEq, Eq)]
pub enum ModelAttrError {
    /// Structural: the `model` annotation, or an entry inside it, is not in
    /// the accepted form — the annotation must take list form, and an entry
    /// must be a structured form rather than a bare literal.
    AttrNotList,
    /// Structural: an entry inside the list is a nested list; only bare
    /// words and `name = value` pairs are supported at that level.
    UnsupportedEntry,
    /// A bare word or a `name = value` key is outside the recognized
    /// vocabulary; carries the offending name.
    UnrecognizedOption(String),
    /// A `name = value` option was given a non-string literal.
    ValueNotString,
    /// `collection_name` was given an empty value.
    EmptyCollectionName,
}

/// Spec-level value of an error.
pub ghost enum ErrorModel {
    AttrNotList,
    UnsupportedEntry,
    UnrecognizedOption(Seq<char>),
    ValueNotString,
    EmptyCollectionName,
}

impl View for ModelAttrError {
    type V = ErrorModel;

    open spec fn view(&self) -> ErrorModel {
        match self {
            ModelAttrError::AttrNotList => ErrorModel::AttrNotList,
            ModelAttrError::UnsupportedEntry => ErrorModel::UnsupportedEntry,
            ModelAttrError::UnrecognizedOption(name) => ErrorModel::UnrecognizedOption(name@),
            ModelAttrError::ValueNotString => ErrorModel::ValueNotString,
            ModelAttrError::EmptyCollectionName => ErrorModel::EmptyCollectionName,
        }
    }
}

} // verus!
