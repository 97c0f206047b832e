use wither_derive::Attr;
use wither_derive::Entry;
use wither_derive::Lit;
use wither_derive::Meta;
use wither_derive::MetaModelStructData;
use wither_derive::ModelAttrError;

fn model_list(entries: Vec<Entry>) -> Attr {
    Attr::Meta(Meta::List("model".to_owned(), entries))
}

fn word(w: &str) -> Entry {
    Entry::Meta(Meta::Word(w.to_owned()))
}

fn kv(k: &str, v: Lit) -> Entry {
    Entry::Meta(Meta::NameValue(k.to_owned(), v))
}

fn s(v: &str) -> Lit {
    Lit::Str(v.to_owned())
}

#[test]
fn derives_default_collection_name() {
    let data = MetaModelStructData::new(&vec![], "UserProfile").unwrap();
    assert_eq!(data.collection_name, "user_profiles");
    assert!(!data.skip_serde_checks);
}

#[test]
fn derives_default_collection_name_single_word() {
    let data = MetaModelStructData::new(&vec![], "Movie").unwrap();
    assert_eq!(data.collection_name, "movies");
}

#[test]
fn derives_default_when_model_attr_sets_other_option() {
    let attrs = vec![model_list(vec![word("skip_serde_checks")])];
    let data = MetaModelStructData::new(&attrs, "UserProfile").unwrap();
    assert_eq!(data.collection_name, "user_profiles");
    assert!(data.skip_serde_checks);
}

#[test]
fn explicit_collection_name_wins_over_ident() {
    let attrs = vec![model_list(vec![kv("collection_name", s("users"))])];
    let data = MetaModelStructData::new(&attrs, "SomethingElseEntirely").unwrap();
    assert_eq!(data.collection_name, "users");
    assert!(!data.skip_serde_checks);
}

#[test]
fn last_collection_name_wins_within_one_attr() {
    let attrs = vec![model_list(vec![
        kv("collection_name", s("first")),
        kv("collection_name", s("second")),
    ])];
    let data = MetaModelStructData::new(&attrs, "User").unwrap();
    assert_eq!(data.collection_name, "second");
}

#[test]
fn last_collection_name_wins_across_attrs() {
    let attrs = vec![
        model_list(vec![kv("collection_name", s("first"))]),
        model_list(vec![kv("collection_name", s("second"))]),
    ];
    let data = MetaModelStructData::new(&attrs, "User").unwrap();
    assert_eq!(data.collection_name, "second");
}

#[test]
fn skip_serde_checks_false_when_absent() {
    let attrs = vec![model_list(vec![kv("collection_name", s("users"))])];
    let data = MetaModelStructData::new(&attrs, "User").unwrap();
    assert!(!data.skip_serde_checks);
}

#[test]
fn skip_serde_checks_true_when_present() {
    let attrs = vec![model_list(vec![word("skip_serde_checks")])];
    let data = MetaModelStructData::new(&attrs, "User").unwrap();
    assert!(data.skip_serde_checks);
}

#[test]
fn skip_serde_checks_is_idempotent() {
    let once = MetaModelStructData::new(
        &vec![model_list(vec![word("skip_serde_checks")])],
        "User",
    )
    .unwrap();
    let twice = MetaModelStructData::new(
        &vec![model_list(vec![word("skip_serde_checks"), word("skip_serde_checks")])],
        "User",
    )
    .unwrap();
    assert_eq!(once, twice);
}

#[test]
fn empty_collection_name_is_rejected() {
    let attrs = vec![model_list(vec![kv("collection_name", s(""))])];
    let err = MetaModelStructData::new(&attrs, "User").unwrap_err();
    assert_eq!(err, ModelAttrError::EmptyCollectionName);
}

#[test]
fn non_string_collection_name_is_rejected() {
    let attrs = vec![model_list(vec![kv("collection_name", Lit::Int(42))])];
    let err = MetaModelStructData::new(&attrs, "User").unwrap_err();
    assert_eq!(err, ModelAttrError::ValueNotString);
}

#[test]
fn non_string_value_is_rejected_before_the_key_is_read() {
    let attrs = vec![model_list(vec![kv("bar", Lit::Bool(true))])];
    let err = MetaModelStructData::new(&attrs, "User").unwrap_err();
    assert_eq!(err, ModelAttrError::ValueNotString);
}

#[test]
fn unknown_word_is_rejected_by_name() {
    let attrs = vec![model_list(vec![word("foo")])];
    let err = MetaModelStructData::new(&attrs, "User").unwrap_err();
    assert_eq!(err, ModelAttrError::UnrecognizedOption("foo".to_owned()));
}

#[test]
fn unknown_key_is_rejected_by_name() {
    let attrs = vec![model_list(vec![kv("bar", s("x"))])];
    let err = MetaModelStructData::new(&attrs, "User").unwrap_err();
    assert_eq!(err, ModelAttrError::UnrecognizedOption("bar".to_owned()));
}

#[test]
fn model_attr_must_take_list_form() {
    let bare = vec![Attr::Meta(Meta::Word("model".to_owned()))];
    assert_eq!(
        MetaModelStructData::new(&bare, "User").unwrap_err(),
        ModelAttrError::AttrNotList
    );
    let scalar = vec![Attr::Meta(Meta::NameValue("model".to_owned(), s("users")))];
    assert_eq!(
        MetaModelStructData::new(&scalar, "User").unwrap_err(),
        ModelAttrError::AttrNotList
    );
}

#[test]
fn nested_list_entry_is_rejected() {
    let attrs = vec![model_list(vec![Entry::Meta(Meta::List(
        "index".to_owned(),
        vec![],
    ))])];
    let err = MetaModelStructData::new(&attrs, "User").unwrap_err();
    assert_eq!(err, ModelAttrError::UnsupportedEntry);
}

#[test]
fn bare_literal_entry_is_rejected() {
    let attrs = vec![model_list(vec![Entry::Literal(s("stray"))])];
    let err = MetaModelStructData::new(&attrs, "User").unwrap_err();
    assert_eq!(err, ModelAttrError::AttrNotList);
}

#[test]
fn foreign_attrs_are_ignored() {
    let with_foreign = vec![
        Attr::Unstructured,
        Attr::Meta(Meta::List(
            "serde".to_owned(),
            vec![kv("rename_all", s("camelCase"))],
        )),
        Attr::Meta(Meta::NameValue("doc".to_owned(), s("a model"))),
        model_list(vec![kv("collection_name", s("users"))]),
    ];
    let without = vec![model_list(vec![kv("collection_name", s("users"))])];
    assert_eq!(
        MetaModelStructData::new(&with_foreign, "User").unwrap(),
        MetaModelStructData::new(&without, "User").unwrap()
    );
}

#[test]
fn foreign_attrs_alone_leave_the_default() {
    let attrs = vec![
        Attr::Unstructured,
        Attr::Meta(Meta::List("serde".to_owned(), vec![word("deny_unknown_fields")])),
    ];
    let data = MetaModelStructData::new(&attrs, "UserProfile").unwrap();
    assert_eq!(data.collection_name, "user_profiles");
    assert!(!data.skip_serde_checks);
}

#[test]
fn extraction_is_deterministic() {
    let make = || {
        vec![model_list(vec![
            kv("collection_name", s("users")),
            word("skip_serde_checks"),
        ])]
    };
    let a = MetaModelStructData::new(&make(), "User").unwrap();
    let b = MetaModelStructData::new(&make(), "User").unwrap();
    assert_eq!(a, b);
    assert_eq!(a.collection_name, "users");
    assert!(a.skip_serde_checks);
}

#[test]
fn errors_abort_even_with_a_valid_attr_after() {
    let attrs = vec![
        model_list(vec![word("foo")]),
        model_list(vec![kv("collection_name", s("users"))]),
    ];
    let err = MetaModelStructData::new(&attrs, "User").unwrap_err();
    assert_eq!(err, ModelAttrError::UnrecognizedOption("foo".to_owned()));
}

#[test]
fn default_is_the_zero_configuration() {
    let data = MetaModelStructData::default();
    assert_eq!(data.collection_name, "");
    assert!(!data.skip_serde_checks);
}
