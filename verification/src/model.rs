//! The annotation-processing pipeline: select the `model` annotations among
//! all annotations on a struct, unpack their nested grammar, apply the
//! recognized options, and finalize the configuration by deriving a default
//! collection name from the struct's own identifier.

use vstd::prelude::*;

use crate::error::ErrorModel;
use crate::error::ModelAttrError;
use crate::inflect::plural_of;
use crate::inflect::pluralize;
use crate::inflect::table_case;
use crate::inflect::table_case_of;
use crate::meta::Attr;
use crate::meta::AttrModel;
use crate::meta::Entry;
use crate::meta::EntryModel;
use crate::meta::Lit;
use crate::meta::LitModel;
use crate::meta::Meta;
use crate::meta::MetaModel;
use crate::meta::attrs_view;
use crate::meta::entries_view;

verus! {

/// The validated configuration extracted from a struct's `model` annotations.
#[derive(Debug, Clone, PartialEq, Eq)]
pub struct MetaModelStructData {
    /// The name to be used for the model's collection; never empty once the
    /// extraction pipeline has finished.
    pub collection_name: String,
    /// Whether generated code should skip checking for serde attributes.
    pub skip_serde_checks: bool,
}

/// Spec-level value of a configuration.
pub ghost struct ConfigModel {
    pub collection_name: Seq<char>,
    pub skip_serde_checks: bool,
}

impl View for MetaModelStructData {
    type V = ConfigModel;

    open spec fn view(&self) -> ConfigModel {
        ConfigModel {
            collection_name: self.collection_name@,
            skip_serde_checks: self.skip_serde_checks,
        }
    }
}

/// The reserved namespace: only annotations under this name are processed.
pub open spec fn namespace_ident() -> Seq<char> {
    "model"@
}

/// The one recognized `name = value` key.
pub open spec fn collection_name_key() -> Seq<char> {
    "collection_name"@
}

/// The one recognized bare word.
pub open spec fn skip_serde_checks_word() -> Seq<char> {
    "skip_serde_checks"@
}

/// The configuration before any annotation has been applied.
pub open spec fn initial_config() -> ConfigModel {
    ConfigModel { collection_name: Seq::empty(), skip_serde_checks: false }
}

/// The default collection name derived from the struct's identifier: its
/// table-cased form, pluralized.
pub open spec fn derived_collection_name(ident: Seq<char>) -> Seq<char> {
    plural_of(table_case_of(ident))
}

/// What applying one bare-word option does: the one recognized word sets the
/// skip flag; any other word is an unrecognized-option error.
pub open spec fn apply_word(cfg: ConfigModel, ident: Seq<char>) -> Result<ConfigModel, ErrorModel> {
    if ident == skip_serde_checks_word() {
        Ok(ConfigModel { skip_serde_checks: true, ..cfg })
    } else {
        Err(ErrorModel::UnrecognizedOption(ident))
    }
}

/// What applying one `name = value` option does: the value must be a string
/// literal, the key must be recognized, and the string must be non-empty.
pub open spec fn apply_kv(cfg: ConfigModel, ident: Seq<char>, lit: LitModel) -> Result<
    ConfigModel,
    ErrorModel,
> {
    match lit {
        LitModel::Str(value) => {
            if ident == collection_name_key() {
                if value.len() == 0 {
                    Err(ErrorModel::EmptyCollectionName)
                } else {
                    Ok(ConfigModel { collection_name: value, ..cfg })
                }
            } else {
                Err(ErrorModel::UnrecognizedOption(ident))
            }
        },
        _ => Err(ErrorModel::ValueNotString),
    }
}

/// What applying one entry of a list-shaped `model` annotation does: words
/// and `name = value` pairs are dispatched to their handlers; any other
/// entry shape is a structural error.
pub open spec fn apply_entry(cfg: ConfigModel, e: EntryModel) -> Result<ConfigModel, ErrorModel> {
    match e {
        EntryModel::Word(ident) => apply_word(cfg, ident),
        EntryModel::NameValue(ident, lit) => apply_kv(cfg, ident, lit),
        EntryModel::NestedList(_) => Err(ErrorModel::UnsupportedEntry),
        EntryModel::Literal(_) => Err(ErrorModel::AttrNotList),
    }
}

/// Applying a list of entries in order; the first error aborts.
pub open spec fn apply_entries(cfg: ConfigModel, es: Seq<EntryModel>) -> Result<
    ConfigModel,
    ErrorModel,
>
    decreases es.len(),
{
    if es.len() == 0 {
        Ok(cfg)
    } else {
        match apply_entries(cfg, es.drop_last()) {
            Ok(c) => apply_entry(c, es.last()),
            Err(e) => Err(e),
        }
    }
}

/// What one matched `model` annotation does to the configuration: its body
/// must take list form, and its entries are applied in order.
pub open spec fn apply_meta(cfg: ConfigModel, m: MetaModel) -> Result<ConfigModel, ErrorModel> {
    match m {
        MetaModel::List(_, es) => apply_entries(cfg, es),
        _ => Err(ErrorModel::AttrNotList),
    }
}

/// Whether an annotation belongs to the reserved `model` namespace.
pub open spec fn is_model_attr(a: AttrModel) -> bool {
    match a {
        AttrModel::Meta(m) => match m {
            MetaModel::Word(name) => name == namespace_ident(),
            MetaModel::List(name, _) => name == namespace_ident(),
            MetaModel::NameValue(name, _) => name == namespace_ident(),
        },
        AttrModel::Unstructured => false,
    }
}

/// What one annotation does to the configuration: annotations outside the
/// namespace are skipped; matching ones are unpacked.
pub open spec fn apply_attr(cfg: ConfigModel, a: AttrModel) -> Result<ConfigModel, ErrorModel> {
    if is_model_attr(a) {
        match a {
            AttrModel::Meta(m) => apply_meta(cfg, m),
            AttrModel::Unstructured => Ok(cfg),
        }
    } else {
        Ok(cfg)
    }
}

/// Folding the whole annotation sequence, in order, over a starting
/// configuration; the first error aborts.
pub open spec fn fold_attrs(cfg: ConfigModel, attrs: Seq<AttrModel>) -> Result<
    ConfigModel,
    ErrorModel,
>
    decreases attrs.len(),
{
    if attrs.len() == 0 {
        Ok(cfg)
    } else {
        match fold_attrs(cfg, attrs.drop_last()) {
            Ok(c) => apply_attr(c, attrs.last()),
            Err(e) => Err(e),
        }
    }
}

/// The defaulting pass: a collection name left empty is replaced by the one
/// derived from the struct's identifier; anything else is kept as it is.
pub open spec fn finalize(cfg: ConfigModel, ident: Seq<char>) -> ConfigModel {
    if cfg.collection_name.len() == 0 {
        ConfigModel { collection_name: derived_collection_name(ident), ..cfg }
    } else {
        cfg
    }
}

/// The whole pipeline: fold every annotation over the zero configuration,
/// then run the defaulting pass.
pub open spec fn extract(attrs: Seq<AttrModel>, ident: Seq<char>) -> Result<
    ConfigModel,
    ErrorModel,
> {
    match fold_attrs(initial_config(), attrs) {
        Ok(c) => Ok(finalize(c, ident)),
        Err(e) => Err(e),
    }
}

/// The view of an extraction result.
pub open spec fn result_view(r: Result<MetaModelStructData, ModelAttrError>) -> Result<
    ConfigModel,
    ErrorModel,
> {
    match r {
        Ok(d) => Ok(d@),
        Err(e) => Err(e@),
    }
}

impl Default for MetaModelStructData {
    /// The zero configuration: empty collection name, checks not skipped.
    fn default() -> (r: Self)
        ensures
            r@ == initial_config(),
    {
        MetaModelStructData { collection_name: String::new(), skip_serde_checks: false }
    }
}

/// Whether a string holds exactly the given word.
fn string_is(s: &String, w: &str) -> (r: bool)
    ensures
        r == (s@ == w@),
{
    let owned: String = w.to_owned();
    s.eq(&owned)
}

/// The name under which a structured annotation stands.
pub fn meta_name(m: &Meta) -> (r: &String)
    ensures
        match m@ {
            MetaModel::Word(name) => r@ == name,
            MetaModel::List(name, _) => r@ == name,
            MetaModel::NameValue(name, _) => r@ == name,
        },
{
    match m {
        Meta::Word(name) => name,
        Meta::List(name, _) => name,
        Meta::NameValue(name, _) => name,
    }
}

/// Apply one recognized-or-rejected bare word to the configuration.
pub fn handle_ident_attr(ident: &String, struct_data: &mut MetaModelStructData) -> (r: Result<
    (),
    ModelAttrError,
>)
    ensures
        match r {
            Ok(_) => apply_word(old(struct_data)@, ident@) == Ok::<ConfigModel, ErrorModel>(
                final(struct_data)@,
            ),
            Err(e) => apply_word(old(struct_data)@, ident@) == Err::<ConfigModel, ErrorModel>(e@)
                && final(struct_data)@ == old(struct_data)@,
        },
{
    if string_is(ident, "skip_serde_checks") {
        struct_data.skip_serde_checks = true;
        Ok(())
    } else {
        Err(ModelAttrError::UnrecognizedOption(ident.clone()))
    }
}

/// Apply one recognized-or-rejected `name = value` pair to the configuration.
pub fn handle_kv_attr(ident: &String, lit: &Lit, struct_data: &mut MetaModelStructData) -> (r:
    Result<(), ModelAttrError>)
    ensures
        match r {
            Ok(_) => apply_kv(old(struct_data)@, ident@, lit@) == Ok::<ConfigModel, ErrorModel>(
                final(struct_data)@,
            ),
            Err(e) => apply_kv(old(struct_data)@, ident@, lit@) == Err::<ConfigModel, ErrorModel>(
                e@,
            ) && final(struct_data)@ == old(struct_data)@,
        },
{
    match lit {
        Lit::Str(value) => {
            if string_is(ident, "collection_name") {
                if value.as_str().is_empty() {
                    Err(ModelAttrError::EmptyCollectionName)
                } else {
                    struct_data.collection_name = value.clone();
                    Ok(())
                }
            } else {
                Err(ModelAttrError::UnrecognizedOption(ident.clone()))
            }
        },
        _ => Err(ModelAttrError::ValueNotString),
    }
}

/// If a prefix of the entries applies cleanly and the next entry fails, the
/// whole list fails with that same error.
proof fn lemma_apply_entries_err_at(cfg: ConfigModel, es: Seq<EntryModel>, i: int)
    requires
        0 <= i < es.len(),
        apply_entries(cfg, es.take(i)) is Ok,
        apply_entry(apply_entries(cfg, es.take(i))->Ok_0, es[i]) is Err,
    ensures
        apply_entries(cfg, es) == apply_entry(apply_entries(cfg, es.take(i))->Ok_0, es[i]),
    decreases es.len(),
{
    if i == es.len() - 1 {
        assert(es.take(i) =~= es.drop_last());
    } else {
        assert(es.drop_last().take(i) =~= es.take(i));
        lemma_apply_entries_err_at(cfg, es.drop_last(), i);
    }
}

/// If a prefix of the annotations folds cleanly and the next annotation
/// fails, the whole fold fails with that same error.
proof fn lemma_fold_attrs_err_at(cfg: ConfigModel, s: Seq<AttrModel>, i: int)
    requires
        0 <= i < s.len(),
        fold_attrs(cfg, s.take(i)) is Ok,
        apply_attr(fold_attrs(cfg, s.take(i))->Ok_0, s[i]) is Err,
    ensures
        fold_attrs(cfg, s) == apply_attr(fold_attrs(cfg, s.take(i))->Ok_0, s[i]),
    decreases s.len(),
{
    if i == s.len() - 1 {
        assert(s.take(i) =~= s.drop_last());
    } else {
        assert(s.drop_last().take(i) =~= s.take(i));
        lemma_fold_attrs_err_at(cfg, s.drop_last(), i);
    }
}

/// Unpack one `model` annotation's body into the configuration: the body
/// must take list form, and every entry must be a recognized bare word or
/// `name = value` pair.
pub fn unpack_model_attr(meta: &Meta, struct_data: &mut MetaModelStructData) -> (r: Result<
    (),
    ModelAttrError,
>)
    ensures
        match r {
            Ok(_) => apply_meta(old(struct_data)@, meta@) == Ok::<ConfigModel, ErrorModel>(
                final(struct_data)@,
            ),
            Err(e) => apply_meta(old(struct_data)@, meta@) == Err::<ConfigModel, ErrorModel>(e@),
        },
{
    let ghost cfg0 = old(struct_data)@;
    match meta {
        Meta::List(name, entries) => {
            let ghost evs = entries_view(entries@);
            let n = entries.len();
            let mut i: usize = 0;
            #[verifier::loop_isolation(false)]
            while i < n
                invariant
                    n == entries@.len(),
                    i <= n,
                    evs == entries_view(entries@),
                    apply_entries(cfg0, evs.take(i as int)) == Ok::<ConfigModel, ErrorModel>(
                        struct_data@,
                    ),
                decreases n - i,
            {
                let ghost before = struct_data@;
                let step: Result<(), ModelAttrError> = match &entries[i] {
                    Entry::Meta(inner) => match inner {
                        Meta::Word(id) => handle_ident_attr(id, struct_data),
                        Meta::NameValue(id, lit) => handle_kv_attr(id, lit, struct_data),
                        Meta::List(_, _) => Err(ModelAttrError::UnsupportedEntry),
                    },
                    Entry::Literal(_) => Err(ModelAttrError::AttrNotList),
                };
                proof {
                    assert(evs[i as int] == entries@[i as int]@);
                }
                match step {
                    Ok(_) => {
                        proof {
                            assert(evs.take(i + 1).drop_last() =~= evs.take(i as int));
                            assert(evs.take(i + 1).last() == evs[i as int]);
                            assert(apply_entries(cfg0, evs.take(i + 1)) == Ok::<
                                ConfigModel,
                                ErrorModel,
                            >(struct_data@));
                        }
                        i += 1;
                    },
                    Err(e) => {
                        proof {
                            assert(apply_entry(before, evs[i as int]) == Err::<
                                ConfigModel,
                                ErrorModel,
                            >(e@));
                            lemma_apply_entries_err_at(cfg0, evs, i as int);
                        }
                        return Err(e);
                    },
                }
            }
            proof {
                assert(evs.take(n as int) =~= evs);
            }
            Ok(())
        },
        _ => Err(ModelAttrError::AttrNotList),
    }
}

impl MetaModelStructData {
    /// Extract the configuration from the target struct's annotations: fold
    /// every `model` annotation over the zero configuration, skipping all
    /// others, then derive a default collection name from the struct's own
    /// identifier if none was supplied.
    pub fn new(attrs: &Vec<Attr>, target_ident: &str) -> (r: Result<
        MetaModelStructData,
        ModelAttrError,
    >)
        ensures
            result_view(r) == extract(attrs_view(attrs@), target_ident@),
    {
        let ghost avs = attrs_view(attrs@);
        let mut data = MetaModelStructData::default();
        let n = attrs.len();
        let mut i: usize = 0;
        while i < n
            invariant
                n == attrs@.len(),
                avs == attrs_view(attrs@),
                i <= n,
                fold_attrs(initial_config(), avs.take(i as int)) == Ok::<ConfigModel, ErrorModel>(
                    data@,
                ),
            decreases n - i,
        {
            let ghost before = data@;
            proof {
                assert(avs[i as int] == attrs@[i as int]@);
            }
            match &attrs[i] {
                Attr::Unstructured => {},
                Attr::Meta(m) => {
                    let name = meta_name(m);
                    if string_is(name, "model") {
                        match unpack_model_attr(m, &mut data) {
                            Ok(_) => {},
                            Err(e) => {
                                proof {
                                    assert(apply_attr(before, avs[i as int]) == Err::<
                                        ConfigModel,
                                        ErrorModel,
                                    >(e@));
                                    lemma_fold_attrs_err_at(initial_config(), avs, i as int);
                                }
                                return Err(e);
                            },
                        }
                    }
                },
            }
            proof {
                assert(avs.take(i + 1).drop_last() =~= avs.take(i as int));
                assert(avs.take(i + 1).last() == avs[i as int]);
                assert(fold_attrs(initial_config(), avs.take(i + 1)) == Ok::<
                    ConfigModel,
                    ErrorModel,
                >(data@));
            }
            i += 1;
        }
        proof {
            assert(avs.take(n as int) =~= avs);
        }
        if data.collection_name.as_str().is_empty() {
            let table_form = table_case(target_ident);
            data.collection_name = pluralize(table_form.as_str());
        }
        Ok(data)
    }
}

} // verus!

