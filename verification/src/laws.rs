//! The general properties of the pipeline, stated and proved over the spec
//! functions that the executable functions' contracts use.

use vstd::prelude::*;

use crate::meta::AttrModel;
use crate::meta::EntryModel;
use crate::meta::LitModel;
use crate::meta::MetaModel;
use crate::model::ConfigModel;
use crate::model::apply_attr;
use crate::model::apply_entries;
use crate::model::collection_name_key;
use crate::model::derived_collection_name;
use crate::model::extract;
use crate::model::finalize;
use crate::model::fold_attrs;
use crate::model::initial_config;
use crate::model::is_model_attr;
use crate::model::skip_serde_checks_word;

verus! {

/// A recognized, well-formed entry of a `model` annotation: the one bare
/// word, or the one key given a non-empty string.
pub open spec fn valid_entry(e: EntryModel) -> bool {
    match e {
        EntryModel::Word(ident) => ident == skip_serde_checks_word(),
        EntryModel::NameValue(ident, lit) => ident == collection_name_key() && match lit {
            LitModel::Str(value) => value.len() > 0,
            _ => false,
        },
        _ => false,
    }
}

/// The entries of an annotation's list-shaped body; empty when the body is
/// not list shaped.
pub open spec fn model_entries(a: AttrModel) -> Seq<EntryModel> {
    match a {
        AttrModel::Meta(m) => match m {
            MetaModel::List(_, es) => es,
            _ => Seq::empty(),
        },
        AttrModel::Unstructured => Seq::empty(),
    }
}

/// An annotation the pipeline accepts: either outside the `model` namespace,
/// or list shaped with every entry recognized and well formed.
pub open spec fn valid_attr(a: AttrModel) -> bool {
    if is_model_attr(a) {
        match a {
            AttrModel::Meta(m) => match m {
                MetaModel::List(_, es) => forall|j: int|
                    0 <= j < es.len() ==> valid_entry(#[trigger] es[j]),
                _ => false,
            },
            AttrModel::Unstructured => false,
        }
    } else {
        true
    }
}

/// An annotation sequence the pipeline accepts whole.
pub open spec fn valid_attrs(attrs: Seq<AttrModel>) -> bool {
    forall|i: int| 0 <= i < attrs.len() ==> valid_attr(#[trigger] attrs[i])
}

proof fn lemma_apply_entries_ok(cfg: ConfigModel, es: Seq<EntryModel>)
    ensures
        apply_entries(cfg, es) is Ok <==> (forall|j: int|
            0 <= j < es.len() ==> valid_entry(#[trigger] es[j])),
    decreases es.len(),
{
    if es.len() == 0 {
    } else {
        lemma_apply_entries_ok(cfg, es.drop_last());
        if apply_entries(cfg, es) is Ok {
            assert forall|j: int| 0 <= j < es.len() implies valid_entry(#[trigger] es[j]) by {
                if j < es.len() - 1 {
                    assert(es.drop_last()[j] == es[j]);
                } else {
                    assert(es[j] == es.last());
                }
            }
        }
        if forall|j: int| 0 <= j < es.len() ==> valid_entry(#[trigger] es[j]) {
            assert forall|j: int| 0 <= j < es.drop_last().len() implies valid_entry(
                #[trigger] es.drop_last()[j],
            ) by {
                assert(es.drop_last()[j] == es[j]);
            }
            assert(valid_entry(es.last()));
        }
    }
}

proof fn lemma_apply_attr_ok(cfg: ConfigModel, a: AttrModel)
    ensures
        apply_attr(cfg, a) is Ok <==> valid_attr(a),
{
    if is_model_attr(a) {
        match a {
            AttrModel::Meta(m) => match m {
                MetaModel::List(_, es) => {
                    lemma_apply_entries_ok(cfg, es);
                },
                _ => {},
            },
            AttrModel::Unstructured => {},
        }
    }
}

proof fn lemma_fold_attrs_ok(cfg: ConfigModel, attrs: Seq<AttrModel>)
    ensures
        fold_attrs(cfg, attrs) is Ok <==> valid_attrs(attrs),
    decreases attrs.len(),
{
    if attrs.len() == 0 {
    } else {
        lemma_fold_attrs_ok(cfg, attrs.drop_last());
        if fold_attrs(cfg, attrs.drop_last()) is Ok {
            lemma_apply_attr_ok(fold_attrs(cfg, attrs.drop_last())->Ok_0, attrs.last());
        }
        if fold_attrs(cfg, attrs) is Ok {
            assert forall|i: int| 0 <= i < attrs.len() implies valid_attr(
                #[trigger] attrs[i],
            ) by {
                if i < attrs.len() - 1 {
                    assert(attrs.drop_last()[i] == attrs[i]);
                } else {
                    assert(attrs[i] == attrs.last());
                }
            }
        }
        if valid_attrs(attrs) {
            assert forall|i: int| 0 <= i < attrs.drop_last().len() implies valid_attr(
                #[trigger] attrs.drop_last()[i],
            ) by {
                assert(attrs.drop_last()[i] == attrs[i]);
            }
            assert(valid_attr(attrs.last()));
        }
    }
}

/// Success is owed exactly on well-formed input: extraction yields a
/// configuration if and only if every `model` annotation is list shaped and
/// every entry inside one is a recognized, well-formed option. Annotations
/// outside the namespace never count against validity.
pub proof fn lemma_extract_ok_iff_valid(attrs: Seq<AttrModel>, ident: Seq<char>)
    ensures
        extract(attrs, ident) is Ok <==> valid_attrs(attrs),
{
    lemma_fold_attrs_ok(initial_config(), attrs);
}

/// The explicit collection name that a list of entries supplies, if any:
/// the string of its last `collection_name = "..."` entry.
pub open spec fn entries_explicit_name(es: Seq<EntryModel>) -> Option<Seq<char>>
    decreases es.len(),
{
    if es.len() == 0 {
        None
    } else {
        match es.last() {
            EntryModel::NameValue(ident, lit) => match lit {
                LitModel::Str(value) => if ident == collection_name_key() {
                    Some(value)
                } else {
                    entries_explicit_name(es.drop_last())
                },
                _ => entries_explicit_name(es.drop_last()),
            },
            _ => entries_explicit_name(es.drop_last()),
        }
    }
}

/// The explicit collection name that one annotation supplies, if any.
pub open spec fn attr_explicit_name(a: AttrModel) -> Option<Seq<char>> {
    if is_model_attr(a) {
        entries_explicit_name(model_entries(a))
    } else {
        None
    }
}

/// The explicit collection name that an annotation sequence supplies, if
/// any: the one of the last annotation that supplies one.
pub open spec fn attrs_explicit_name(attrs: Seq<AttrModel>) -> Option<Seq<char>>
    decreases attrs.len(),
{
    if attrs.len() == 0 {
        None
    } else {
        match attr_explicit_name(attrs.last()) {
            Some(v) => Some(v),
            None => attrs_explicit_name(attrs.drop_last()),
        }
    }
}

proof fn lemma_entries_name(cfg: ConfigModel, es: Seq<EntryModel>)
    requires
        apply_entries(cfg, es) is Ok,
    ensures
        match entries_explicit_name(es) {
            Some(v) => (apply_entries(cfg, es)->Ok_0).collection_name == v && v.len() > 0,
            None => (apply_entries(cfg, es)->Ok_0).collection_name == cfg.collection_name,
        },
    decreases es.len(),
{
    if es.len() == 0 {
    } else {
        lemma_entries_name(cfg, es.drop_last());
    }
}

proof fn lemma_fold_name(cfg: ConfigModel, attrs: Seq<AttrModel>)
    requires
        fold_attrs(cfg, attrs) is Ok,
    ensures
        match attrs_explicit_name(attrs) {
            Some(v) => (fold_attrs(cfg, attrs)->Ok_0).collection_name == v && v.len() > 0,
            None => (fold_attrs(cfg, attrs)->Ok_0).collection_name == cfg.collection_name,
        },
    decreases attrs.len(),
{
    if attrs.len() == 0 {
    } else {
        lemma_fold_name(cfg, attrs.drop_last());
        let c = fold_attrs(cfg, attrs.drop_last())->Ok_0;
        let a = attrs.last();
        if is_model_attr(a) {
            match a {
                AttrModel::Meta(m) => match m {
                    MetaModel::List(_, es) => {
                        lemma_entries_name(c, es);
                    },
                    _ => {},
                },
                AttrModel::Unstructured => {},
            }
        }
    }
}

/// With no explicit `collection_name` anywhere in the annotations, a
/// successful extraction derives the collection name from the type's own
/// identifier: its table-cased form, pluralized.
pub proof fn lemma_default_collection_name(attrs: Seq<AttrModel>, ident: Seq<char>)
    requires
        extract(attrs, ident) is Ok,
        attrs_explicit_name(attrs) is None,
    ensures
        (extract(attrs, ident)->Ok_0).collection_name == derived_collection_name(ident),
{
    lemma_fold_name(initial_config(), attrs);
}

/// An explicitly supplied collection name is taken exactly as given — the
/// last one, where several annotations supply one — whatever the type's own
/// identifier; it is always non-empty.
pub proof fn lemma_explicit_collection_name(
    attrs: Seq<AttrModel>,
    ident: Seq<char>,
    v: Seq<char>,
)
    requires
        extract(attrs, ident) is Ok,
        attrs_explicit_name(attrs) == Some(v),
    ensures
        (extract(attrs, ident)->Ok_0).collection_name == v,
        v.len() > 0,
{
    lemma_fold_name(initial_config(), attrs);
}

/// Whether a list of entries contains the bare `skip_serde_checks` word.
pub open spec fn entries_mention_skip(es: Seq<EntryModel>) -> bool {
    exists|j: int| 0 <= j < es.len() && #[trigger] es[j] == EntryModel::Word(
        skip_serde_checks_word(),
    )
}

/// Whether one annotation supplies the bare `skip_serde_checks` word.
pub open spec fn attr_mentions_skip(a: AttrModel) -> bool {
    is_model_attr(a) && entries_mention_skip(model_entries(a))
}

/// Whether any annotation supplies the bare `skip_serde_checks` word.
pub open spec fn attrs_mention_skip(attrs: Seq<AttrModel>) -> bool {
    exists|i: int| 0 <= i < attrs.len() && attr_mentions_skip(#[trigger] attrs[i])
}

proof fn lemma_entries_skip(cfg: ConfigModel, es: Seq<EntryModel>)
    requires
        apply_entries(cfg, es) is Ok,
    ensures
        (apply_entries(cfg, es)->Ok_0).skip_serde_checks == (cfg.skip_serde_checks
            || entries_mention_skip(es)),
    decreases es.len(),
{
    if es.len() == 0 {
    } else {
        lemma_entries_skip(cfg, es.drop_last());
        let sub = es.drop_last();
        if es.last() == EntryModel::Word(skip_serde_checks_word()) {
            assert(es[es.len() - 1] == EntryModel::Word(skip_serde_checks_word()));
            assert(entries_mention_skip(es));
        } else {
            if entries_mention_skip(es) {
                let j = choose|j: int|
                    0 <= j < es.len() && #[trigger] es[j] == EntryModel::Word(
                        skip_serde_checks_word(),
                    );
                assert(j < es.len() - 1);
                assert(sub[j] == es[j]);
                assert(entries_mention_skip(sub));
            }
            if entries_mention_skip(sub) {
                let j = choose|j: int|
                    0 <= j < sub.len() && #[trigger] sub[j] == EntryModel::Word(
                        skip_serde_checks_word(),
                    );
                assert(es[j] == sub[j]);
                assert(entries_mention_skip(es));
            }
        }
    }
}

proof fn lemma_fold_skip(cfg: ConfigModel, attrs: Seq<AttrModel>)
    requires
        fold_attrs(cfg, attrs) is Ok,
    ensures
        (fold_attrs(cfg, attrs)->Ok_0).skip_serde_checks == (cfg.skip_serde_checks
            || attrs_mention_skip(attrs)),
    decreases attrs.len(),
{
    if attrs.len() == 0 {
    } else {
        lemma_fold_skip(cfg, attrs.drop_last());
        let sub = attrs.drop_last();
        let c = fold_attrs(cfg, sub)->Ok_0;
        let a = attrs.last();
        if is_model_attr(a) {
            match a {
                AttrModel::Meta(m) => match m {
                    MetaModel::List(_, es) => {
                        lemma_entries_skip(c, es);
                    },
                    _ => {},
                },
                AttrModel::Unstructured => {},
            }
        }
        if attr_mentions_skip(a) {
            assert(attrs[attrs.len() - 1] == a);
            assert(attrs_mention_skip(attrs));
        } else {
            if attrs_mention_skip(attrs) {
                let i = choose|i: int|
                    0 <= i < attrs.len() && attr_mentions_skip(#[trigger] attrs[i]);
                assert(i < attrs.len() - 1);
                assert(sub[i] == attrs[i]);
                assert(attrs_mention_skip(sub));
            }
            if attrs_mention_skip(sub) {
                let i = choose|i: int| 0 <= i < sub.len() && attr_mentions_skip(#[trigger] sub[i]);
                assert(attrs[i] == sub[i]);
                assert(attrs_mention_skip(attrs));
            }
        }
    }
}

/// The skip flag is `false` when the bare `skip_serde_checks` word is absent
/// and `true` when it is present; presence is what counts, so declaring the
/// word twice has the same effect as declaring it once.
pub proof fn lemma_skip_serde_checks(attrs: Seq<AttrModel>, ident: Seq<char>)
    requires
        extract(attrs, ident) is Ok,
    ensures
        (extract(attrs, ident)->Ok_0).skip_serde_checks == attrs_mention_skip(attrs),
{
    lemma_fold_skip(initial_config(), attrs);
}

proof fn lemma_invalid_entry_rejected(attrs: Seq<AttrModel>, ident: Seq<char>, i: int, j: int)
    requires
        0 <= i < attrs.len(),
        is_model_attr(attrs[i]),
        0 <= j < model_entries(attrs[i]).len(),
        !valid_entry(model_entries(attrs[i])[j]),
    ensures
        extract(attrs, ident) is Err,
{
    assert(!valid_attr(attrs[i]));
    lemma_extract_ok_iff_valid(attrs, ident);
}

/// A `model` annotation containing `collection_name = ""` aborts extraction:
/// no configuration is ever produced from it.
pub proof fn lemma_empty_name_rejected(attrs: Seq<AttrModel>, ident: Seq<char>, i: int, j: int)
    requires
        0 <= i < attrs.len(),
        is_model_attr(attrs[i]),
        0 <= j < model_entries(attrs[i]).len(),
        model_entries(attrs[i])[j] matches EntryModel::NameValue(k, lit) && k
            == collection_name_key() && lit == LitModel::Str(Seq::<char>::empty()),
    ensures
        extract(attrs, ident) is Err,
{
    lemma_invalid_entry_rejected(attrs, ident, i, j);
}

/// A `model` annotation giving any option a non-string literal aborts
/// extraction, whatever the key.
pub proof fn lemma_non_string_value_rejected(
    attrs: Seq<AttrModel>,
    ident: Seq<char>,
    i: int,
    j: int,
)
    requires
        0 <= i < attrs.len(),
        is_model_attr(attrs[i]),
        0 <= j < model_entries(attrs[i]).len(),
        model_entries(attrs[i])[j] matches EntryModel::NameValue(k, lit) && !(lit is Str),
    ensures
        extract(attrs, ident) is Err,
{
    lemma_invalid_entry_rejected(attrs, ident, i, j);
}

/// A `model` annotation containing an unrecognized bare word aborts
/// extraction.
pub proof fn lemma_unknown_word_rejected(
    attrs: Seq<AttrModel>,
    ident: Seq<char>,
    i: int,
    j: int,
    w: Seq<char>,
)
    requires
        0 <= i < attrs.len(),
        is_model_attr(attrs[i]),
        0 <= j < model_entries(attrs[i]).len(),
        model_entries(attrs[i])[j] == EntryModel::Word(w),
        w != skip_serde_checks_word(),
    ensures
        extract(attrs, ident) is Err,
{
    lemma_invalid_entry_rejected(attrs, ident, i, j);
}

/// A `model` annotation containing an unrecognized `name = value` key aborts
/// extraction.
pub proof fn lemma_unknown_key_rejected(
    attrs: Seq<AttrModel>,
    ident: Seq<char>,
    i: int,
    j: int,
    k: Seq<char>,
    v: Seq<char>,
)
    requires
        0 <= i < attrs.len(),
        is_model_attr(attrs[i]),
        0 <= j < model_entries(attrs[i]).len(),
        model_entries(attrs[i])[j] == EntryModel::NameValue(k, LitModel::Str(v)),
        k != collection_name_key(),
    ensures
        extract(attrs, ident) is Err,
{
    lemma_invalid_entry_rejected(attrs, ident, i, j);
}

proof fn lemma_fold_remove_foreign(cfg: ConfigModel, attrs: Seq<AttrModel>, i: int)
    requires
        0 <= i < attrs.len(),
        !is_model_attr(attrs[i]),
    ensures
        fold_attrs(cfg, attrs.remove(i)) == fold_attrs(cfg, attrs),
    decreases attrs.len(),
{
    if i == attrs.len() - 1 {
        assert(attrs.remove(i) =~= attrs.drop_last());
    } else {
        assert(attrs.drop_last()[i] == attrs[i]);
        lemma_fold_remove_foreign(cfg, attrs.drop_last(), i);
        assert(attrs.remove(i).drop_last() =~= attrs.drop_last().remove(i));
        assert(attrs.remove(i).last() == attrs.last());
    }
}

/// An annotation outside the `model` namespace never affects the result:
/// removing it from the sequence leaves the extraction unchanged, whether
/// that is a configuration or an error.
pub proof fn lemma_foreign_attr_ignored(attrs: Seq<AttrModel>, ident: Seq<char>, i: int)
    requires
        0 <= i < attrs.len(),
        !is_model_attr(attrs[i]),
    ensures
        extract(attrs.remove(i), ident) == extract(attrs, ident),
{
    lemma_fold_remove_foreign(initial_config(), attrs, i);
}

/// The defaulting pass is idempotent: finalizing an already-finalized
/// configuration changes nothing, since the derivation only fires on an
/// empty collection name and always produces the same derived name.
pub proof fn lemma_finalize_idempotent(cfg: ConfigModel, ident: Seq<char>)
    ensures
        finalize(finalize(cfg, ident), ident) == finalize(cfg, ident),
{
}

/// Determinism: extraction is a pure function of the annotation models and
/// the identifier, so processing equal inputs always yields equal
/// configurations — this is also what the `ensures` of
/// `MetaModelStructData::new` pins down for the executable pipeline.
pub proof fn lemma_deterministic(
    attrs_a: Seq<AttrModel>,
    ident_a: Seq<char>,
    attrs_b: Seq<AttrModel>,
    ident_b: Seq<char>,
)
    requires
        attrs_a == attrs_b,
        ident_a == ident_b,
    ensures
        extract(attrs_a, ident_a) == extract(attrs_b, ident_b),
{
}

} // verus!
