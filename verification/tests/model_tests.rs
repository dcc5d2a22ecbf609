use changelog::doc::DocValue;
use changelog::{
    Changelog, FormatError, HandAuthoredEntry, Meta, Reference, SchemaError, SdkAffected,
    SdkModelChangeKind, SdkModelEntry, ValidationError,
};

#[test]
fn audience_decode_is_case_insensitive() {
    assert_eq!(SdkAffected::from_str("CLIENT").unwrap(), SdkAffected::Client);
    assert_eq!(SdkAffected::from_str("Client").unwrap(), SdkAffected::Client);
    assert_eq!(SdkAffected::from_str("client").unwrap(), SdkAffected::Client);
    assert_eq!(SdkAffected::from_str("SeRvEr").unwrap(), SdkAffected::Server);
    assert_eq!(SdkAffected::from_str("both").unwrap(), SdkAffected::Both);
    let err = SdkAffected::from_str("everyone").unwrap_err();
    match err {
        FormatError::UnrecognizedAudience { value } => assert_eq!("everyone", value),
        other => panic!("unexpected error {:?}", other),
    }
    assert_eq!(
        "An invalid type of SDK type everyone has been mentioned in the meta tags",
        SdkAffected::from_str("everyone").unwrap_err().message()
    );
}

#[test]
fn audience_encode_is_fixed() {
    assert_eq!("client", SdkAffected::Client.to_string());
    assert_eq!("server", SdkAffected::Server.to_string());
    assert_eq!("all", SdkAffected::Both.to_string());
    assert_eq!(SdkAffected::default(), SdkAffected::Both);
}

#[test]
fn reference_decode_then_encode_is_identity() {
    for s in ["smithy-rs#920", "aws-sdk-rust#123", "smithy-rs#0"] {
        let r = Reference::from_str(s).unwrap();
        assert_eq!(s, r.to_string());
    }
    let r = Reference::from_str("aws-sdk-rust#123").unwrap();
    assert_eq!("aws-sdk-rust", r.repo);
    assert_eq!(123, r.number);
}

#[test]
fn reference_encode_then_decode_is_identity() {
    let r = Reference { repo: "smithy-rs".to_string(), number: 907 };
    let back = Reference::from_str(&r.to_string()).unwrap();
    assert_eq!(r, back);
}

#[test]
fn reference_errors_name_their_cause() {
    match Reference::from_str("smithy-rs/920").unwrap_err() {
        FormatError::MissingSeparator { input } => assert_eq!("smithy-rs/920", input),
        other => panic!("unexpected error {:?}", other),
    }
    match Reference::from_str("smithy-rs#nine").unwrap_err() {
        FormatError::InvalidNumber { text } => assert_eq!("nine", text),
        other => panic!("unexpected error {:?}", other),
    }
    match Reference::from_str("smithy-rs#99999999999999999999999").unwrap_err() {
        FormatError::InvalidNumber { text } => assert_eq!("99999999999999999999999", text),
        other => panic!("unexpected error {:?}", other),
    }
    match Reference::from_str("rust#7").unwrap_err() {
        FormatError::UnexpectedRepo { repo } => assert_eq!("rust", repo),
        other => panic!("unexpected error {:?}", other),
    }
    // A leading plus sign is tolerated by the number reading, as the
    // standard integer parse tolerates it.
    assert_eq!(7, Reference::from_str("smithy-rs#+7").unwrap().number);
}

fn meta_doc(fields: Vec<(&str, DocValue)>) -> DocValue {
    DocValue::Obj(fields.into_iter().map(|(k, v)| (k.to_string(), v)).collect())
}

#[test]
fn meta_rejects_unknown_fields() {
    let doc = meta_doc(vec![
        ("bug", DocValue::Bool(false)),
        ("breaking", DocValue::Bool(false)),
        ("tada", DocValue::Bool(false)),
        ("sdk", DocValue::Text("client".to_string())),
    ]);
    match Meta::from_doc(&doc).unwrap_err() {
        SchemaError::UnknownField { field } => assert_eq!("sdk", field),
        other => panic!("unexpected error {:?}", other),
    }
}

#[test]
fn meta_requires_its_booleans() {
    let doc = meta_doc(vec![("bug", DocValue::Bool(false)), ("tada", DocValue::Bool(false))]);
    match Meta::from_doc(&doc).unwrap_err() {
        SchemaError::MissingField { field } => assert_eq!("breaking", field),
        other => panic!("unexpected error {:?}", other),
    }
    let doc = meta_doc(vec![
        ("bug", DocValue::Text("yes".to_string())),
        ("breaking", DocValue::Bool(false)),
        ("tada", DocValue::Bool(false)),
    ]);
    match Meta::from_doc(&doc).unwrap_err() {
        SchemaError::ExpectedBool { field } => assert_eq!("bug", field),
        other => panic!("unexpected error {:?}", other),
    }
    match Meta::from_doc(&DocValue::Text("not an object".to_string())).unwrap_err() {
        SchemaError::ExpectedObject => {}
        other => panic!("unexpected error {:?}", other),
    }
}

#[test]
fn entry_requires_a_string_message() {
    let doc = meta_doc(vec![
        ("message", DocValue::Bool(true)),
        ("author", DocValue::Text("dev".to_string())),
    ]);
    match HandAuthoredEntry::from_doc(&doc).unwrap_err() {
        SchemaError::ExpectedString { field } => assert_eq!("message", field),
        other => panic!("unexpected error {:?}", other),
    }
}

#[test]
fn meta_target_accepts_any_case_and_null() {
    let doc = meta_doc(vec![
        ("bug", DocValue::Bool(true)),
        ("breaking", DocValue::Bool(false)),
        ("tada", DocValue::Bool(false)),
        ("target", DocValue::Text("SERVER".to_string())),
    ]);
    let meta = Meta::from_doc(&doc).unwrap();
    assert_eq!(Some(SdkAffected::Server), meta.target);
    assert!(meta.bug);
    let doc = meta_doc(vec![
        ("bug", DocValue::Bool(true)),
        ("breaking", DocValue::Bool(false)),
        ("tada", DocValue::Bool(false)),
        ("target", DocValue::Null),
    ]);
    assert_eq!(None, Meta::from_doc(&doc).unwrap().target);
    let doc = meta_doc(vec![
        ("bug", DocValue::Bool(true)),
        ("breaking", DocValue::Bool(false)),
        ("tada", DocValue::Bool(false)),
        ("target", DocValue::Text("nobody".to_string())),
    ]);
    match Meta::from_doc(&doc).unwrap_err() {
        SchemaError::UnrecognizedAudience { value } => assert_eq!("nobody", value),
        other => panic!("unexpected error {:?}", other),
    }
}

fn entry_with_author(author: &str) -> HandAuthoredEntry {
    HandAuthoredEntry {
        message: "m".to_string(),
        meta: Meta { bug: false, breaking: false, tada: false, target: None },
        author: author.to_string(),
        references: vec![Reference { repo: "smithy-rs".to_string(), number: 1 }],
        since_commit: None,
    }
}

#[test]
fn validate_rejects_bad_authors() {
    match entry_with_author("").validate().unwrap_err() {
        ValidationError::EmptyAuthor => {}
        other => panic!("unexpected error {:?}", other),
    }
    assert_eq!(
        "Author must be set (was empty)",
        entry_with_author("").validate().unwrap_err().message()
    );
    match entry_with_author("two words").validate().unwrap_err() {
        ValidationError::InvalidAuthor => {}
        other => panic!("unexpected error {:?}", other),
    }
    match entry_with_author("under_score").validate().unwrap_err() {
        ValidationError::InvalidAuthor => {}
        other => panic!("unexpected error {:?}", other),
    }
    assert_eq!(
        "Author must be valid GitHub username: [a-zA-Z0-9\\-]",
        entry_with_author("a b").validate().unwrap_err().message()
    );
}

#[test]
fn validate_accepts_handle_authors() {
    assert!(entry_with_author("rcoh").validate().is_ok());
    assert!(entry_with_author("test-dev-123").validate().is_ok());
    assert!(entry_with_author("A1-b2").validate().is_ok());
}

#[test]
fn validate_requires_a_reference() {
    let mut entry = entry_with_author("dev");
    entry.references = Vec::new();
    match entry.validate().unwrap_err() {
        ValidationError::NoReferences => {}
        other => panic!("unexpected error {:?}", other),
    }
}

fn named_entry(message: &str) -> HandAuthoredEntry {
    let mut e = entry_with_author("dev");
    e.message = message.to_string();
    e
}

#[test]
fn merge_appends_in_order() {
    let mut first = Changelog::new();
    first.smithy_rs = vec![named_entry("a"), named_entry("b")];
    let mut second = Changelog::new();
    second.smithy_rs = vec![named_entry("c"), named_entry("d"), named_entry("e")];
    second.sdk_models = vec![SdkModelEntry {
        module: "aws-sdk-s3".to_string(),
        version: "0.14.0".to_string(),
        kind: SdkModelChangeKind::Feature,
        message: "f".to_string(),
    }];
    first.merge(second);
    assert_eq!(5, first.smithy_rs.len());
    let messages: Vec<&str> = first.smithy_rs.iter().map(|e| e.message.as_str()).collect();
    assert_eq!(vec!["a", "b", "c", "d", "e"], messages);
    assert_eq!(1, first.sdk_models.len());
    assert!(first.aws_sdk_rust.is_empty());
}

#[test]
fn validate_collects_every_bad_entry_in_order() {
    let mut c = Changelog::new();
    c.aws_sdk_rust = vec![entry_with_author("good-dev"), entry_with_author("bad dev")];
    let mut no_refs = entry_with_author("fine");
    no_refs.references = Vec::new();
    c.smithy_rs = vec![no_refs];
    let errors = c.validate().unwrap_err();
    assert_eq!(2, errors.len());
    assert_eq!("Author must be valid GitHub username: [a-zA-Z0-9\\-]", errors[0]);
    assert_eq!(
        "Changelog entry must refer to at least one pull request or issue",
        errors[1]
    );
}

#[test]
fn sdk_model_entry_decodes_and_rejects_bad_kinds() {
    let doc = meta_doc(vec![
        ("module", DocValue::Text("aws-sdk-ec2".to_string())),
        ("version", DocValue::Text("0.12.0".to_string())),
        ("kind", DocValue::Text("Feature".to_string())),
        ("message", DocValue::Text("Some API change".to_string())),
    ]);
    let entry = SdkModelEntry::from_doc(&doc).unwrap();
    assert_eq!(SdkModelChangeKind::Feature, entry.kind);
    assert_eq!("aws-sdk-ec2", entry.module);
    let doc = meta_doc(vec![
        ("module", DocValue::Text("aws-sdk-ec2".to_string())),
        ("version", DocValue::Text("0.12.0".to_string())),
        ("kind", DocValue::Text("feature".to_string())),
        ("message", DocValue::Text("Some API change".to_string())),
    ]);
    match SdkModelEntry::from_doc(&doc).unwrap_err() {
        SchemaError::UnrecognizedKind { value } => assert_eq!("feature", value),
        other => panic!("unexpected error {:?}", other),
    }
}

#[test]
fn entry_decode_rejects_bad_references() {
    let doc = meta_doc(vec![
        ("message", DocValue::Text("m".to_string())),
        ("author", DocValue::Text("dev".to_string())),
        (
            "meta",
            meta_doc(vec![
                ("bug", DocValue::Bool(false)),
                ("breaking", DocValue::Bool(false)),
                ("tada", DocValue::Bool(false)),
            ]),
        ),
        (
            "references",
            DocValue::Arr(vec![DocValue::Text("rust#1".to_string())]),
        ),
    ]);
    match HandAuthoredEntry::from_doc(&doc).unwrap_err() {
        SchemaError::InvalidReference { message } => {
            assert_eq!("unexpected repo: rust", message)
        }
        other => panic!("unexpected error {:?}", other),
    }
    let doc = meta_doc(vec![
        ("message", DocValue::Text("m".to_string())),
        ("author", DocValue::Text("dev".to_string())),
        (
            "meta",
            meta_doc(vec![
                ("bug", DocValue::Bool(false)),
                ("breaking", DocValue::Bool(false)),
                ("tada", DocValue::Bool(false)),
            ]),
        ),
        ("references", DocValue::Text("smithy-rs#1".to_string())),
    ]);
    match HandAuthoredEntry::from_doc(&doc).unwrap_err() {
        SchemaError::ExpectedArray { field } => assert_eq!("references", field),
        other => panic!("unexpected error {:?}", other),
    }
}
