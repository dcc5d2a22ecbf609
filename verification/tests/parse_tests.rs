use changelog::{Changelog, FormatError, SdkAffected};

#[test]
fn parse_json() {
    let json = r#"
            # Example changelog entries
            # [[aws-sdk-rust]]
            # message = "Fix typos in module documentation for generated crates"
            # references = ["smithy-rs#920"]
            # meta = { "breaking" = false, "tada" = false, "bug" = false }
            # author = "rcoh"
            #
            # [[smithy-rs]]
            # message = "Fix typos in module documentation for generated crates"
            # references = ["smithy-rs#920"]
            # meta = { "breaking" = false, "tada" = false, "bug" = false }
            # author = "rcoh"
            {
                "smithy-rs": [],
                "aws-sdk-rust": [
                    {
                        "message": "Some change",
                        "meta": { "bug": true, "breaking": false, "tada": false },
                        "author": "test-dev",
                        "references": [
                            "aws-sdk-rust#123",
                            "smithy-rs#456"
                        ]
                    }
                ],
                "aws-sdk-model": [
                    {
                        "module": "aws-sdk-ec2",
                        "version": "0.12.0",
                        "kind": "Feature",
                        "message": "Some API change"
                    }
                ]
            }
        "#;
    let changelog = Changelog::parse_str(json).unwrap();
    assert!(changelog.smithy_rs.is_empty());
    assert_eq!(1, changelog.aws_sdk_rust.len());
    assert_eq!("Some change", changelog.aws_sdk_rust[0].message);
    assert_eq!(1, changelog.sdk_models.len());
    assert_eq!("Some API change", changelog.sdk_models[0].message);
}

fn parse_single_entry(entry_toml: &str) -> Result<Changelog, FormatError> {
    Changelog::parse_str(&format!("[[smithy-rs]]\n{}", entry_toml))
}

#[test]
fn test_hand_authored_sdk() {
    // server target
    let value = r#"
            message = "Fix typos in module documentation for generated crates"
            references = ["smithy-rs#920"]
            meta = { "breaking" = false, "tada" = false, "bug" = false, "target" = "Server" }
            author = "rcoh"
        "#;
    {
        let value = parse_single_entry(value).expect("String should have parsed");
        assert_eq!(value.smithy_rs[0].meta.target, Some(SdkAffected::Server));
    }

    // client target
    let value = r#"
            message = "Fix typos in module documentation for generated crates"
            references = ["smithy-rs#920"]
            meta = { "breaking" = false, "tada" = false, "bug" = false, "target" = "Client" }
            author = "rcoh"
        "#;
    {
        let value = parse_single_entry(value).expect("String should have parsed");
        assert_eq!(value.smithy_rs[0].meta.target, Some(SdkAffected::Client));
    }
    // Both target
    let value = r#"
            message = "Fix typos in module documentation for generated crates"
            references = ["smithy-rs#920"]
            meta = { "breaking" = false, "tada" = false, "bug" = false, "target" = "Both" }
            author = "rcoh"
        "#;
    {
        let value = parse_single_entry(value).expect("String should have parsed");
        assert_eq!(value.smithy_rs[0].meta.target, Some(SdkAffected::Both));
    }
    // an invalid sdk value
    let value = r#"
            message = "Fix typos in module documentation for generated crates"
            references = ["smithy-rs#920"]
            meta = { "breaking" = false, "tada" = false, "bug" = false, "target" = "Some other invalid" }
            author = "rcoh"
        "#;
    {
        let value = parse_single_entry(value);
        assert!(value.is_err(), "String should not have parsed");
    }
    // missing sdk in the meta tag
    let value = r#"
            message = "Fix typos in module documentation for generated crates"
            references = ["smithy-rs#920"]
            meta = { "breaking" = false, "tada" = false, "bug" = false }
            author = "rcoh"
        "#;
    {
        let value = parse_single_entry(value)
            .expect("String should have parsed as it has none meta.sdk");
        assert_eq!(value.smithy_rs[0].meta.target, None);
    }
}

#[test]
fn toml_with_comment_lines_parses_as_toml() {
    // Format A carries its own comments, anywhere in the document; the
    // stripped text is not JSON, so only the TOML attempt can succeed.
    let value = r#"# leading banner
[[aws-sdk-rust]]
# a comment between entries
message = "Some change"
references = ["smithy-rs#920"]
meta = { "breaking" = false, "tada" = false, "bug" = true }
author = "rcoh"
"#;
    let parsed = Changelog::parse_str(value).unwrap();
    assert_eq!(1, parsed.aws_sdk_rust.len());
    assert_eq!("Some change", parsed.aws_sdk_rust[0].message);
    assert!(parsed.aws_sdk_rust[0].meta.bug);
}

#[test]
fn json_without_comments_parses() {
    let value = r#"{"smithy-rs": [], "aws-sdk-rust": [], "aws-sdk-model": []}"#;
    let parsed = Changelog::parse_str(value).unwrap();
    assert!(parsed.smithy_rs.is_empty());
    assert!(parsed.aws_sdk_rust.is_empty());
    assert!(parsed.sdk_models.is_empty());
}

#[test]
fn unreadable_document_reports_both_errors() {
    let err = Changelog::parse_str("not toml = = and not json").unwrap_err();
    match err {
        FormatError::BothFormatsFailed { toml_error, json_error } => {
            assert!(!toml_error.is_empty());
            assert!(!json_error.is_empty());
        }
        other => panic!("expected a combined format error, got {:?}", other),
    }
    let msg = Changelog::parse_str("not toml = = and not json")
        .unwrap_err()
        .message();
    assert!(msg.starts_with("Invalid JSON or TOML changelog format:\n"));
}

#[test]
fn combined_error_embeds_schema_message_verbatim() {
    // The TOML attempt parses but the strict meta schema rejects the tree;
    // the combined error must carry that exact message as the TOML side.
    let value = "[[smithy-rs]]\nmessage = \"m\"\nauthor = \"dev\"\nreferences = [\"smithy-rs#1\"]\nmeta = { \"bug\" = false, \"breaking\" = false, \"tada\" = false, \"extra\" = true }\n";
    match Changelog::parse_str(value).unwrap_err() {
        FormatError::BothFormatsFailed { toml_error, json_error } => {
            assert_eq!("unknown field `extra`", toml_error);
            assert!(!json_error.is_empty());
        }
        other => panic!("expected a combined format error, got {:?}", other),
    }
}

#[test]
fn meta_unknown_field_fails_whole_decode() {
    let value = r#"
            [[smithy-rs]]
            message = "m"
            references = ["smithy-rs#920"]
            meta = { "breaking" = false, "tada" = false, "bug" = false, "extra" = true }
            author = "rcoh"
        "#;
    assert!(Changelog::parse_str(value).is_err());
}

#[test]
fn end_to_end_entry_with_reference_validates() {
    let json = r#"{"smithy-rs": [], "aws-sdk-rust": [{"message":"m","meta":{"bug":true,"breaking":false,"tada":false},"author":"dev","references":["aws-sdk-rust#123"]}], "aws-sdk-model": []}"#;
    let parsed = Changelog::parse_str(json).unwrap();
    assert_eq!(1, parsed.aws_sdk_rust.len());
    assert!(parsed.aws_sdk_rust[0].validate().is_ok());
    assert!(parsed.validate().is_ok());
}

#[test]
fn end_to_end_entry_without_reference_reports_one_error() {
    let json = r#"{"smithy-rs": [], "aws-sdk-rust": [{"message":"m","meta":{"bug":true,"breaking":false,"tada":false},"author":"dev","references":[]}], "aws-sdk-model": []}"#;
    let parsed = Changelog::parse_str(json).unwrap();
    let errors = parsed.validate().unwrap_err();
    assert_eq!(1, errors.len());
    assert_eq!(
        "Changelog entry must refer to at least one pull request or issue",
        errors[0]
    );
}

#[test]
fn since_commit_is_carried_through() {
    let value = r#"
            [[aws-sdk-rust]]
            message = "m"
            references = ["smithy-rs#1"]
            meta = { "breaking" = false, "tada" = false, "bug" = false }
            author = "dev"
            since-commit = "abc123"
        "#;
    let parsed = Changelog::parse_str(value).unwrap();
    assert_eq!(Some("abc123".to_string()), parsed.aws_sdk_rust[0].since_commit);
}

#[test]
fn encode_empty_changelog_to_json() {
    let c = Changelog::new();
    let text = c.to_json_string().unwrap();
    assert_eq!(
        "{\n  \"smithy-rs\": [],\n  \"aws-sdk-rust\": [],\n  \"aws-sdk-model\": []\n}",
        text
    );
}

#[test]
fn encode_one_entry_to_json() {
    let json = r#"{"smithy-rs": [], "aws-sdk-rust": [{"message":"m","meta":{"bug":true,"breaking":false,"tada":false},"author":"dev","references":["aws-sdk-rust#123"]}], "aws-sdk-model": []}"#;
    let parsed = Changelog::parse_str(json).unwrap();
    let expected = "{\n  \"smithy-rs\": [],\n  \"aws-sdk-rust\": [\n    {\n      \"message\": \"m\",\n      \"meta\": {\n        \"bug\": true,\n        \"breaking\": false,\n        \"tada\": false\n      },\n      \"author\": \"dev\",\n      \"references\": [\n        \"aws-sdk-rust#123\"\n      ],\n      \"since-commit\": null\n    }\n  ],\n  \"aws-sdk-model\": []\n}";
    assert_eq!(expected, parsed.to_json_string().unwrap());
}

#[test]
fn canonical_encode_then_decode_round_trips() {
    let json = r#"{"smithy-rs": [{"message":"s","meta":{"bug":false,"breaking":true,"tada":false,"target":"client"},"author":"a-1","references":["smithy-rs#7"]}], "aws-sdk-rust": [], "aws-sdk-model": [{"module":"aws-sdk-s3","version":"0.14.0","kind":"Documentation","message":"docs"}]}"#;
    let parsed = Changelog::parse_str(json).unwrap();
    let encoded = parsed.to_json_string().unwrap();
    let reparsed = Changelog::parse_str(&encoded).unwrap();
    assert_eq!(parsed, reparsed);
}

#[test]
fn comment_lines_inside_json_are_stripped() {
    // A blank-padded comment line must be recognized by its first
    // non-whitespace character.
    let value = "   \t# banner\n{\"smithy-rs\": [], \"aws-sdk-rust\": [], \"aws-sdk-model\": []}\n\t # trailing banner";
    let parsed = Changelog::parse_str(value).unwrap();
    assert!(parsed.smithy_rs.is_empty());
}
