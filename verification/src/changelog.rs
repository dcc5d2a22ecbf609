//! The changelog aggregate: collections of each entry kind, merging,
//! dual-format decoding from raw text, canonical re-encoding, and bulk
//! validation.

use vstd::prelude::*;
use crate::doc::{
    json_doc, json_pretty_text, lookup_field, obj_entries_view, parse_json_doc, parse_toml_doc,
    pretty_json_doc, spec_lookup, toml_doc, Doc, DocValue,
};
use crate::entry::{
    spec_first_violation, spec_hand_entry, spec_hand_entry_doc, spec_hand_entry_err_text,
    spec_sdk_entry, spec_sdk_entry_doc, spec_sdk_entry_err_text, HandAuthoredEntry,
    HandAuthoredEntryView, SdkModelEntry, SdkModelEntryView,
};
use crate::errors::{spec_schema_message, spec_validation_message, FormatError, SchemaError};
use crate::text::{spec_strip, strip_comment_lines};

verus! {

/// The aggregate of changelog records from every source.
#[derive(Clone, Debug, PartialEq, Eq)]
pub struct Changelog {
    pub smithy_rs: Vec<HandAuthoredEntry>,
    pub aws_sdk_rust: Vec<HandAuthoredEntry>,
    pub sdk_models: Vec<SdkModelEntry>,
}

/// The mathematical shape of a changelog.
pub struct ChangelogView {
    pub smithy_rs: Seq<HandAuthoredEntryView>,
    pub aws_sdk_rust: Seq<HandAuthoredEntryView>,
    pub sdk_models: Seq<SdkModelEntryView>,
}

impl View for Changelog {
    type V = ChangelogView;

    open spec fn view(&self) -> ChangelogView {
        ChangelogView {
            smithy_rs: self.smithy_rs@.map_values(|e: HandAuthoredEntry| e@),
            aws_sdk_rust: self.aws_sdk_rust@.map_values(|e: HandAuthoredEntry| e@),
            sdk_models: self.sdk_models@.map_values(|e: SdkModelEntry| e@),
        }
    }
}

/// What an array of hand-authored entry nodes decodes to, all or nothing.
pub open spec fn spec_hand_entries(items: Seq<Doc>) -> Option<Seq<HandAuthoredEntryView>>
    decreases items.len(),
{
    if items.len() == 0 {
        Some(Seq::<HandAuthoredEntryView>::empty())
    } else {
        match (spec_hand_entry(items[0]), spec_hand_entries(items.drop_first())) {
            (Some(e), Some(rest)) => Some(seq![e] + rest),
            _ => None,
        }
    }
}

/// What an array of model-change entry nodes decodes to, all or nothing.
pub open spec fn spec_sdk_entries(items: Seq<Doc>) -> Option<Seq<SdkModelEntryView>>
    decreases items.len(),
{
    if items.len() == 0 {
        Some(Seq::<SdkModelEntryView>::empty())
    } else {
        match (spec_sdk_entry(items[0]), spec_sdk_entries(items.drop_first())) {
            (Some(e), Some(rest)) => Some(seq![e] + rest),
            _ => None,
        }
    }
}

/// What an optional array field of hand-authored entries decodes to:
/// absent means empty.
pub open spec fn spec_hand_field(v: Option<Doc>) -> Option<Seq<HandAuthoredEntryView>> {
    match v {
        None => Some(Seq::<HandAuthoredEntryView>::empty()),
        Some(Doc::Arr(items)) => spec_hand_entries(items),
        Some(_) => None,
    }
}

/// What an optional array field of model-change entries decodes to:
/// absent means empty.
pub open spec fn spec_sdk_field(v: Option<Doc>) -> Option<Seq<SdkModelEntryView>> {
    match v {
        None => Some(Seq::<SdkModelEntryView>::empty()),
        Some(Doc::Arr(items)) => spec_sdk_entries(items),
        Some(_) => None,
    }
}

/// The message an array of hand-authored entry nodes is rejected with:
/// that of its first bad element.
pub open spec fn spec_hand_entries_err_text(items: Seq<Doc>) -> Seq<char>
    decreases items.len(),
{
    if items.len() == 0 {
        Seq::<char>::empty()
    } else if spec_hand_entry(items[0]) is None {
        spec_hand_entry_err_text(items[0])
    } else {
        spec_hand_entries_err_text(items.drop_first())
    }
}

/// The message an array of model-change entry nodes is rejected with:
/// that of its first bad element.
pub open spec fn spec_sdk_entries_err_text(items: Seq<Doc>) -> Seq<char>
    decreases items.len(),
{
    if items.len() == 0 {
        Seq::<char>::empty()
    } else if spec_sdk_entry(items[0]) is None {
        spec_sdk_entry_err_text(items[0])
    } else {
        spec_sdk_entries_err_text(items.drop_first())
    }
}

/// The message a hand-authored section is rejected with.
pub open spec fn spec_hand_field_err_text(v: Option<Doc>, name: Seq<char>) -> Seq<char> {
    match v {
        Some(Doc::Arr(items)) => spec_hand_entries_err_text(items),
        _ => "expected an array in field `"@ + name + "`"@,
    }
}

/// The message a model-change section is rejected with.
pub open spec fn spec_sdk_field_err_text(v: Option<Doc>, name: Seq<char>) -> Seq<char> {
    match v {
        Some(Doc::Arr(items)) => spec_sdk_entries_err_text(items),
        _ => "expected an array in field `"@ + name + "`"@,
    }
}

/// The message a whole document node is rejected with, following the order
/// its sections are read in.
pub open spec fn spec_changelog_err_text(d: Doc) -> Seq<char> {
    match d {
        Doc::Obj(fs) => {
            if spec_hand_field(spec_lookup(fs, "smithy-rs"@)) is None {
                spec_hand_field_err_text(spec_lookup(fs, "smithy-rs"@), "smithy-rs"@)
            } else if spec_hand_field(spec_lookup(fs, "aws-sdk-rust"@)) is None {
                spec_hand_field_err_text(spec_lookup(fs, "aws-sdk-rust"@), "aws-sdk-rust"@)
            } else {
                spec_sdk_field_err_text(spec_lookup(fs, "aws-sdk-model"@), "aws-sdk-model"@)
            }
        },
        _ => "expected an object"@,
    }
}

/// What a whole document node decodes to: an object whose three known keys
/// hold entry arrays; other keys are ignored.
pub open spec fn spec_changelog_of_doc(d: Doc) -> Option<ChangelogView> {
    match d {
        Doc::Obj(fs) => {
            match (
                spec_hand_field(spec_lookup(fs, "smithy-rs"@)),
                spec_hand_field(spec_lookup(fs, "aws-sdk-rust"@)),
                spec_sdk_field(spec_lookup(fs, "aws-sdk-model"@)),
            ) {
                (Some(smithy_rs), Some(aws_sdk_rust), Some(sdk_models)) => Some(
                    ChangelogView { smithy_rs, aws_sdk_rust, sdk_models },
                ),
                _ => None,
            }
        },
        _ => None,
    }
}

/// One decode attempt: the text must parse and the tree must fit the schema.
pub open spec fn spec_attempt(parsed: Result<Doc, Seq<char>>) -> Option<ChangelogView> {
    match parsed {
        Err(m) => None,
        Ok(d) => spec_changelog_of_doc(d),
    }
}

/// The message a failed decode attempt carries: the parser's own text, or
/// the message of the schema violation found in the parsed tree.
pub open spec fn spec_attempt_err_text(parsed: Result<Doc, Seq<char>>) -> Seq<char> {
    match parsed {
        Err(m) => m,
        Ok(d) => spec_changelog_err_text(d),
    }
}

/// What dual-format decoding yields: the TOML reading of the text if it
/// succeeds whole, else the JSON reading of the text with its comment lines
/// stripped.
pub open spec fn spec_parse(s: Seq<char>) -> Option<ChangelogView> {
    if spec_attempt(toml_doc(s)) is Some {
        spec_attempt(toml_doc(s))
    } else {
        spec_attempt(json_doc(spec_strip(s)))
    }
}

/// Whether `e` is the right rejection of the raw text `s`: the combined
/// error, embedding verbatim the message of the failed TOML attempt and the
/// message of the failed JSON attempt on the comment-stripped text.
pub open spec fn combined_error_matches(e: FormatError, s: Seq<char>) -> bool {
    match e {
        FormatError::BothFormatsFailed { toml_error, json_error } => toml_error@
            == spec_attempt_err_text(toml_doc(s)) && json_error@ == spec_attempt_err_text(
            json_doc(spec_strip(s)),
        ),
        _ => false,
    }
}

/// The document node a changelog encodes to: its three sections in fixed
/// order, each an array of entry nodes.
pub open spec fn spec_changelog_doc(c: ChangelogView) -> Doc {
    Doc::Obj(
        seq![
            (
                "smithy-rs"@,
                Doc::Arr(c.smithy_rs.map_values(|e: HandAuthoredEntryView| spec_hand_entry_doc(e))),
            ),
            (
                "aws-sdk-rust"@,
                Doc::Arr(
                    c.aws_sdk_rust.map_values(|e: HandAuthoredEntryView| spec_hand_entry_doc(e)),
                ),
            ),
            (
                "aws-sdk-model"@,
                Doc::Arr(c.sdk_models.map_values(|e: SdkModelEntryView| spec_sdk_entry_doc(e))),
            ),
        ],
    )
}

/// The messages of the entries of `entries` that break an authoring rule,
/// one per bad entry, in order.
pub open spec fn spec_validate_msgs(entries: Seq<HandAuthoredEntryView>) -> Seq<Seq<char>>
    decreases entries.len(),
{
    if entries.len() == 0 {
        Seq::<Seq<char>>::empty()
    } else {
        let rest = spec_validate_msgs(entries.drop_first());
        match spec_first_violation(entries[0]) {
            Some(v) => seq![spec_validation_message(v)] + rest,
            None => rest,
        }
    }
}

/// Bulk validation reports nothing exactly when every entry, checked on its
/// own, breaks no authoring rule.
pub proof fn lemma_validate_msgs_empty(entries: Seq<HandAuthoredEntryView>)
    ensures
        (spec_validate_msgs(entries).len() == 0) <==> (forall|i: int|
            0 <= i < entries.len() ==> spec_first_violation(entries[i]) is None),
    decreases entries.len(),
{
    if entries.len() > 0 {
        lemma_validate_msgs_empty(entries.drop_first());
        assert(forall|i: int|
            1 <= i < entries.len() ==> entries[i] == entries.drop_first()[i - 1]);
        match spec_first_violation(entries[0]) {
            Some(v) => {
                assert(spec_validate_msgs(entries).len() >= 1);
            },
            None => {
                assert(spec_validate_msgs(entries) == spec_validate_msgs(entries.drop_first()));
                if spec_validate_msgs(entries).len() == 0 {
                    assert(forall|i: int|
                        0 <= i < entries.len() ==> spec_first_violation(entries[i]) is None);
                }
            },
        }
    }
}

/// Decode an array of hand-authored entry nodes.
fn hand_entries_from_doc(items: &Vec<DocValue>) -> (r: Result<Vec<HandAuthoredEntry>, SchemaError>)
    ensures
        r is Ok <==> spec_hand_entries(crate::doc::arr_items_view(*items)) is Some,
        r is Ok ==> Some(r->Ok_0@.map_values(|x: HandAuthoredEntry| x@)) == spec_hand_entries(
            crate::doc::arr_items_view(*items),
        ),
        r is Err ==> spec_schema_message(r->Err_0) == spec_hand_entries_err_text(
            crate::doc::arr_items_view(*items),
        ),
{
    let ghost av = crate::doc::arr_items_view(*items);
    let n = items.len();
    let mut out: Vec<HandAuthoredEntry> = Vec::new();
    let mut i: usize = 0;
    proof {
        assert(av.skip(0) =~= av);
        assert(out@.map_values(|x: HandAuthoredEntry| x@) =~= Seq::<HandAuthoredEntryView>::empty());
    }
    while i < n
        invariant
            0 <= i <= n,
            n == items@.len(),
            av == crate::doc::arr_items_view(*items),
            av.len() == n,
            forall|j: int| 0 <= j < av.len() ==> av[j] == items@[j]@,
            spec_hand_entries(av) == match spec_hand_entries(av.skip(i as int)) {
                Some(rest) => Some(out@.map_values(|x: HandAuthoredEntry| x@) + rest),
                None => None,
            },
            spec_hand_entries(av.skip(i as int)) is None ==> spec_hand_entries_err_text(av)
                == spec_hand_entries_err_text(av.skip(i as int)),
        decreases n - i,
    {
        proof {
            assert(av.skip(i as int)[0] == av[i as int]);
            assert(av.skip(i as int).drop_first() =~= av.skip(i + 1));
        }
        match HandAuthoredEntry::from_doc(&items[i]) {
            Ok(entry) => {
                let ghost prev = out@.map_values(|x: HandAuthoredEntry| x@);
                out.push(entry);
                proof {
                    assert(out@.map_values(|x: HandAuthoredEntry| x@) =~= prev + seq![entry@]);
                    assert(forall|rest: Seq<HandAuthoredEntryView>|
                        prev + (seq![entry@] + rest) =~= (prev + seq![entry@]) + rest);
                    assert(spec_hand_entries(av.skip(i + 1)) is None ==> spec_hand_entries(
                        av.skip(i as int),
                    ) is None);
                    assert(spec_hand_entries_err_text(av.skip(i as int))
                        == spec_hand_entries_err_text(av.skip(i + 1)));
                }
            },
            Err(e) => {
                proof {
                    assert(spec_hand_entries(av.skip(i as int)) is None);
                    assert(spec_hand_entries_err_text(av.skip(i as int))
                        == spec_hand_entry_err_text(av[i as int]));
                }
                return Err(e);
            },
        }
        i = i + 1;
    }
    proof {
        assert(av.skip(n as int).len() == 0);
        assert(out@.map_values(|x: HandAuthoredEntry| x@) + Seq::<HandAuthoredEntryView>::empty()
            =~= out@.map_values(|x: HandAuthoredEntry| x@));
    }
    Ok(out)
}

/// Decode an array of model-change entry nodes.
fn sdk_entries_from_doc(items: &Vec<DocValue>) -> (r: Result<Vec<SdkModelEntry>, SchemaError>)
    ensures
        r is Ok <==> spec_sdk_entries(crate::doc::arr_items_view(*items)) is Some,
        r is Ok ==> Some(r->Ok_0@.map_values(|x: SdkModelEntry| x@)) == spec_sdk_entries(
            crate::doc::arr_items_view(*items),
        ),
        r is Err ==> spec_schema_message(r->Err_0) == spec_sdk_entries_err_text(
            crate::doc::arr_items_view(*items),
        ),
{
    let ghost av = crate::doc::arr_items_view(*items);
    let n = items.len();
    let mut out: Vec<SdkModelEntry> = Vec::new();
    let mut i: usize = 0;
    proof {
        assert(av.skip(0) =~= av);
        assert(out@.map_values(|x: SdkModelEntry| x@) =~= Seq::<SdkModelEntryView>::empty());
    }
    while i < n
        invariant
            0 <= i <= n,
            n == items@.len(),
            av == crate::doc::arr_items_view(*items),
            av.len() == n,
            forall|j: int| 0 <= j < av.len() ==> av[j] == items@[j]@,
            spec_sdk_entries(av) == match spec_sdk_entries(av.skip(i as int)) {
                Some(rest) => Some(out@.map_values(|x: SdkModelEntry| x@) + rest),
                None => None,
            },
            spec_sdk_entries(av.skip(i as int)) is None ==> spec_sdk_entries_err_text(av)
                == spec_sdk_entries_err_text(av.skip(i as int)),
        decreases n - i,
    {
        proof {
            assert(av.skip(i as int)[0] == av[i as int]);
            assert(av.skip(i as int).drop_first() =~= av.skip(i + 1));
        }
        match SdkModelEntry::from_doc(&items[i]) {
            Ok(entry) => {
                let ghost prev = out@.map_values(|x: SdkModelEntry| x@);
                out.push(entry);
                proof {
                    assert(out@.map_values(|x: SdkModelEntry| x@) =~= prev + seq![entry@]);
                    assert(forall|rest: Seq<SdkModelEntryView>|
                        prev + (seq![entry@] + rest) =~= (prev + seq![entry@]) + rest);
                    assert(spec_sdk_entries(av.skip(i + 1)) is None ==> spec_sdk_entries(
                        av.skip(i as int),
                    ) is None);
                    assert(spec_sdk_entries_err_text(av.skip(i as int))
                        == spec_sdk_entries_err_text(av.skip(i + 1)));
                }
            },
            Err(e) => {
                proof {
                    assert(spec_sdk_entries(av.skip(i as int)) is None);
                    assert(spec_sdk_entries_err_text(av.skip(i as int)) == spec_sdk_entry_err_text(
                        av[i as int],
                    ));
                }
                return Err(e);
            },
        }
        i = i + 1;
    }
    proof {
        assert(av.skip(n as int).len() == 0);
        assert(out@.map_values(|x: SdkModelEntry| x@) + Seq::<SdkModelEntryView>::empty() =~= out@
            .map_values(|x: SdkModelEntry| x@));
    }
    Ok(out)
}

impl Changelog {
    /// An empty aggregate.
    pub fn new() -> (r: Changelog)
        ensures
            r@.smithy_rs == Seq::<HandAuthoredEntryView>::empty(),
            r@.aws_sdk_rust == Seq::<HandAuthoredEntryView>::empty(),
            r@.sdk_models == Seq::<SdkModelEntryView>::empty(),
    {
        let r = Changelog { smithy_rs: Vec::new(), aws_sdk_rust: Vec::new(), sdk_models: Vec::new() };
        proof {
            assert(r@.smithy_rs =~= Seq::<HandAuthoredEntryView>::empty());
            assert(r@.aws_sdk_rust =~= Seq::<HandAuthoredEntryView>::empty());
            assert(r@.sdk_models =~= Seq::<SdkModelEntryView>::empty());
        }
        r
    }

    /// Append every record of `other` after this aggregate's own, keeping
    /// each side's relative order.
    pub fn merge(&mut self, other: Changelog)
        ensures
            final(self)@.smithy_rs == old(self)@.smithy_rs + other@.smithy_rs,
            final(self)@.aws_sdk_rust == old(self)@.aws_sdk_rust + other@.aws_sdk_rust,
            final(self)@.sdk_models == old(self)@.sdk_models + other@.sdk_models,
    {
        let mut other = other;
        let ghost other0 = other;
        self.smithy_rs.append(&mut other.smithy_rs);
        self.aws_sdk_rust.append(&mut other.aws_sdk_rust);
        self.sdk_models.append(&mut other.sdk_models);
        proof {
            assert(final(self)@.smithy_rs =~= old(self)@.smithy_rs + other0@.smithy_rs);
            assert(final(self)@.aws_sdk_rust =~= old(self)@.aws_sdk_rust + other0@.aws_sdk_rust);
            assert(final(self)@.sdk_models =~= old(self)@.sdk_models + other0@.sdk_models);
        }
    }

    /// Decode a whole document node.
    pub fn from_doc(d: &DocValue) -> (r: Result<Changelog, SchemaError>)
        ensures
            r is Ok <==> spec_changelog_of_doc(d@) is Some,
            r is Ok ==> Some(r->Ok_0@) == spec_changelog_of_doc(d@),
            r is Err ==> spec_schema_message(r->Err_0) == spec_changelog_err_text(d@),
    {
        let entries = match d {
            DocValue::Obj(entries) => entries,
            _ => {
                return Err(SchemaError::ExpectedObject);
            },
        };
        let smithy_rs = match lookup_field(entries, "smithy-rs") {
            None => Vec::new(),
            Some(DocValue::Arr(items)) => match hand_entries_from_doc(items) {
                Ok(v) => v,
                Err(e) => {
                    return Err(e);
                },
            },
            Some(_) => {
                return Err(SchemaError::ExpectedArray { field: String::from_str("smithy-rs") });
            },
        };
        let aws_sdk_rust = match lookup_field(entries, "aws-sdk-rust") {
            None => Vec::new(),
            Some(DocValue::Arr(items)) => match hand_entries_from_doc(items) {
                Ok(v) => v,
                Err(e) => {
                    return Err(e);
                },
            },
            Some(_) => {
                return Err(SchemaError::ExpectedArray { field: String::from_str("aws-sdk-rust") });
            },
        };
        let sdk_models = match lookup_field(entries, "aws-sdk-model") {
            None => Vec::new(),
            Some(DocValue::Arr(items)) => match sdk_entries_from_doc(items) {
                Ok(v) => v,
                Err(e) => {
                    return Err(e);
                },
            },
            Some(_) => {
                return Err(SchemaError::ExpectedArray { field: String::from_str("aws-sdk-model") });
            },
        };
        let r = Changelog { smithy_rs, aws_sdk_rust, sdk_models };
        proof {
            let fs = obj_entries_view(*entries);
            if spec_hand_field(spec_lookup(fs, "smithy-rs"@)) is Some {
                assert(r@.smithy_rs =~= spec_hand_field(spec_lookup(fs, "smithy-rs"@))->0);
            }
            if spec_hand_field(spec_lookup(fs, "aws-sdk-rust"@)) is Some {
                assert(r@.aws_sdk_rust =~= spec_hand_field(spec_lookup(fs, "aws-sdk-rust"@))->0);
            }
            if spec_sdk_field(spec_lookup(fs, "aws-sdk-model"@)) is Some {
                assert(r@.sdk_models =~= spec_sdk_field(spec_lookup(fs, "aws-sdk-model"@))->0);
            }
        }
        Ok(r)
    }

    /// Decode raw text: first as TOML, which carries its own comments; on
    /// any failure, strip comment lines and decode as JSON; if both fail,
    /// report both underlying messages together.
    pub fn parse_str(value: &str) -> (r: Result<Changelog, FormatError>)
        ensures
            r is Ok <==> spec_parse(value@) is Some,
            r is Ok ==> Some(r->Ok_0@) == spec_parse(value@),
            r is Err ==> spec_parse(value@) is None && combined_error_matches(r->Err_0, value@),
    {
        let toml_error: String = match parse_toml_doc(value) {
            Ok(docv) => match Changelog::from_doc(&docv) {
                Ok(c) => {
                    return Ok(c);
                },
                Err(e) => e.message(),
            },
            Err(m) => m,
        };
        let stripped = strip_comment_lines(value);
        let json_error: String = match parse_json_doc(stripped.as_str()) {
            Ok(docv) => match Changelog::from_doc(&docv) {
                Ok(c) => {
                    return Ok(c);
                },
                Err(e) => e.message(),
            },
            Err(m) => m,
        };
        Err(FormatError::BothFormatsFailed { toml_error, json_error })
    }

    /// The document node this aggregate encodes to.
    pub fn to_doc(&self) -> (r: DocValue)
        ensures
            r@ == spec_changelog_doc(self@),
    {
        let mut smithy_docs: Vec<DocValue> = Vec::new();
        let n1 = self.smithy_rs.len();
        let mut i: usize = 0;
        while i < n1
            invariant
                0 <= i <= n1,
                n1 == self.smithy_rs@.len(),
                smithy_docs@.len() == i,
                forall|j: int|
                    0 <= j < i ==> smithy_docs@[j]@ == spec_hand_entry_doc(self.smithy_rs@[j]@),
            decreases n1 - i,
        {
            smithy_docs.push(self.smithy_rs[i].to_doc());
            i = i + 1;
        }
        let mut sdk_rust_docs: Vec<DocValue> = Vec::new();
        let n2 = self.aws_sdk_rust.len();
        let mut i2: usize = 0;
        while i2 < n2
            invariant
                0 <= i2 <= n2,
                n2 == self.aws_sdk_rust@.len(),
                sdk_rust_docs@.len() == i2,
                forall|j: int|
                    0 <= j < i2 ==> sdk_rust_docs@[j]@ == spec_hand_entry_doc(
                        self.aws_sdk_rust@[j]@,
                    ),
            decreases n2 - i2,
        {
            sdk_rust_docs.push(self.aws_sdk_rust[i2].to_doc());
            i2 = i2 + 1;
        }
        let mut model_docs: Vec<DocValue> = Vec::new();
        let n3 = self.sdk_models.len();
        let mut i3: usize = 0;
        while i3 < n3
            invariant
                0 <= i3 <= n3,
                n3 == self.sdk_models@.len(),
                model_docs@.len() == i3,
                forall|j: int|
                    0 <= j < i3 ==> model_docs@[j]@ == spec_sdk_entry_doc(self.sdk_models@[j]@),
            decreases n3 - i3,
        {
            model_docs.push(self.sdk_models[i3].to_doc());
            i3 = i3 + 1;
        }
        let mut fields: Vec<(String, DocValue)> = Vec::new();
        fields.push((String::from_str("smithy-rs"), DocValue::Arr(smithy_docs)));
        fields.push((String::from_str("aws-sdk-rust"), DocValue::Arr(sdk_rust_docs)));
        fields.push((String::from_str("aws-sdk-model"), DocValue::Arr(model_docs)));
        let r = DocValue::Obj(fields);
        proof {
            assert(crate::doc::arr_items_view(smithy_docs) =~= self@.smithy_rs.map_values(
                |e: HandAuthoredEntryView| spec_hand_entry_doc(e),
            ));
            assert(crate::doc::arr_items_view(sdk_rust_docs) =~= self@.aws_sdk_rust.map_values(
                |e: HandAuthoredEntryView| spec_hand_entry_doc(e),
            ));
            assert(crate::doc::arr_items_view(model_docs) =~= self@.sdk_models.map_values(
                |e: SdkModelEntryView| spec_sdk_entry_doc(e),
            ));
            assert(obj_entries_view(fields) =~= spec_changelog_doc(self@)->Obj_0);
        }
        r
    }

    /// Re-encode into canonical pretty-printed JSON. This always succeeds:
    /// the result type only mirrors the fallible shape callers expect of an
    /// encoder.
    pub fn to_json_string(&self) -> (r: Result<String, FormatError>)
        ensures
            r is Ok,
            r->Ok_0@ == json_pretty_text(spec_changelog_doc(self@)),
    {
        let docv = self.to_doc();
        Ok(pretty_json_doc(&docv))
    }

    /// Check every hand-authored entry — the SDK section first, then the
    /// project section — and collect the message of each entry's first
    /// broken rule; machine-generated entries are trusted and not checked.
    pub fn validate(&self) -> (r: Result<(), Vec<String>>)
        ensures
            ({
                let msgs = spec_validate_msgs(self@.aws_sdk_rust + self@.smithy_rs);
                match r {
                    Ok(u) => msgs.len() == 0,
                    Err(es) => es@.len() > 0 && es@.map_values(|s: String| s@) == msgs,
                }
            }),
    {
        let ghost total = self@.aws_sdk_rust + self@.smithy_rs;
        let mut errors: Vec<String> = Vec::new();
        let n1 = self.aws_sdk_rust.len();
        let mut i: usize = 0;
        proof {
            assert(total.skip(0) =~= total);
            assert(errors@.map_values(|s: String| s@) =~= Seq::<Seq<char>>::empty());
        }
        while i < n1
            invariant
                0 <= i <= n1,
                n1 == self.aws_sdk_rust@.len(),
                total == self@.aws_sdk_rust + self@.smithy_rs,
                total.len() == n1 + self.smithy_rs@.len(),
                spec_validate_msgs(total) == errors@.map_values(|s: String| s@)
                    + spec_validate_msgs(total.skip(i as int)),
            decreases n1 - i,
        {
            proof {
                assert(total.skip(i as int)[0] == total[i as int]);
                assert(total[i as int] == self@.aws_sdk_rust[i as int]);
                assert(total.skip(i as int).drop_first() =~= total.skip(i + 1));
            }
            match self.aws_sdk_rust[i].validate() {
                Ok(_) => {},
                Err(v) => {
                    let ghost prev = errors@.map_values(|s: String| s@);
                    errors.push(v.message());
                    proof {
                        assert(errors@.map_values(|s: String| s@) =~= prev + seq![
                            spec_validation_message(v),
                        ]);
                        assert(forall|rest: Seq<Seq<char>>|
                            prev + (seq![spec_validation_message(v)] + rest) =~= (prev + seq![
                                spec_validation_message(v),
                            ]) + rest);
                    }
                },
            }
            i = i + 1;
        }
        let n2 = self.smithy_rs.len();
        let mut i2: usize = 0;
        while i2 < n2
            invariant
                0 <= i2 <= n2,
                n1 == self.aws_sdk_rust@.len(),
                n2 == self.smithy_rs@.len(),
                total == self@.aws_sdk_rust + self@.smithy_rs,
                total.len() == n1 + n2,
                spec_validate_msgs(total) == errors@.map_values(|s: String| s@)
                    + spec_validate_msgs(total.skip(n1 + i2)),
            decreases n2 - i2,
        {
            proof {
                assert(total.skip(n1 + i2)[0] == total[n1 + i2]);
                assert(total[n1 + i2] == self@.smithy_rs[i2 as int]);
                assert(total.skip(n1 + i2).drop_first() =~= total.skip(n1 + i2 + 1));
            }
            match self.smithy_rs[i2].validate() {
                Ok(_) => {},
                Err(v) => {
                    let ghost prev = errors@.map_values(|s: String| s@);
                    errors.push(v.message());
                    proof {
                        assert(errors@.map_values(|s: String| s@) =~= prev + seq![
                            spec_validation_message(v),
                        ]);
                        assert(forall|rest: Seq<Seq<char>>|
                            prev + (seq![spec_validation_message(v)] + rest) =~= (prev + seq![
                                spec_validation_message(v),
                            ]) + rest);
                    }
                },
            }
            i2 = i2 + 1;
        }
        proof {
            assert(total.skip(n1 + n2).len() == 0);
            assert(spec_validate_msgs(total.skip(n1 + n2)) == Seq::<Seq<char>>::empty());
            assert(errors@.map_values(|s: String| s@) + Seq::<Seq<char>>::empty() =~= errors@
                .map_values(|s: String| s@));
        }
        if errors.len() == 0 {
            proof {
                assert(errors@.map_values(|s: String| s@).len() == 0);
            }
            Ok(())
        } else {
            Err(errors)
        }
    }
}

impl Default for Changelog {
    /// The empty aggregate.
    fn default() -> (r: Changelog)
        ensures
            r@.smithy_rs == Seq::<HandAuthoredEntryView>::empty(),
            r@.aws_sdk_rust == Seq::<HandAuthoredEntryView>::empty(),
            r@.sdk_models == Seq::<SdkModelEntryView>::empty(),
    {
        Changelog::new()
    }
}

} // verus!
