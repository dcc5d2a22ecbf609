//! The two record shapes of a changelog — the hand-authored entry with its
//! strict metadata sub-record, and the machine-generated model-change entry —
//! with their decoding from a document node, their encoding back into one,
//! and the authoring rules checked by `validate`.

use vstd::prelude::*;
use crate::audience::{
    spec_audience, spec_audience_doc_text, SdkAffected,
};
use crate::doc::{obj_entries_view, lookup_field, spec_lookup, Doc, DocValue};
use crate::errors::{spec_schema_message, SchemaError, ValidationError};
use crate::reference::{spec_encode_reference, spec_reference, Reference, ReferenceView};
use crate::text::is_alphanumeric_char;

verus! {

/// Classification flags of a hand-authored entry; its decode is strict and
/// rejects any field outside `bug`, `breaking`, `tada` and `target`.
#[derive(Clone, Copy, Debug, PartialEq, Eq)]
pub struct Meta {
    pub bug: bool,
    pub breaking: bool,
    pub tada: bool,
    pub target: Option<SdkAffected>,
}

/// A changelog record written by a human contributor.
#[derive(Clone, Debug, PartialEq, Eq)]
pub struct HandAuthoredEntry {
    pub message: String,
    pub meta: Meta,
    pub author: String,
    pub references: Vec<Reference>,
    /// Optional commit hash to indicate "since when" these changes were made.
    pub since_commit: Option<String>,
}

/// The mathematical shape of a hand-authored entry.
pub struct HandAuthoredEntryView {
    pub message: Seq<char>,
    pub meta: Meta,
    pub author: Seq<char>,
    pub references: Seq<ReferenceView>,
    pub since_commit: Option<Seq<char>>,
}

impl View for HandAuthoredEntry {
    type V = HandAuthoredEntryView;

    open spec fn view(&self) -> HandAuthoredEntryView {
        HandAuthoredEntryView {
            message: self.message@,
            meta: self.meta,
            author: self.author@,
            references: self.references@.map_values(|r: Reference| r@),
            since_commit: match self.since_commit {
                Some(s) => Some(s@),
                None => None,
            },
        }
    }
}

/// What kind of change a machine-generated entry records.
#[derive(Clone, Copy, Debug, PartialEq, Eq, Structural)]
pub enum SdkModelChangeKind {
    Documentation,
    Feature,
}

/// A changelog record generated from machine-tracked model changes.
#[derive(Clone, Debug, PartialEq, Eq)]
pub struct SdkModelEntry {
    /// SDK module name (e.g., "aws-sdk-s3" for S3).
    pub module: String,
    /// SDK module version number (e.g., "0.14.0").
    pub version: String,
    /// What changed.
    pub kind: SdkModelChangeKind,
    /// More details about the change.
    pub message: String,
}

/// The mathematical shape of a model-change entry.
pub struct SdkModelEntryView {
    pub module: Seq<char>,
    pub version: Seq<char>,
    pub kind: SdkModelChangeKind,
    pub message: Seq<char>,
}

impl View for SdkModelEntry {
    type V = SdkModelEntryView;

    open spec fn view(&self) -> SdkModelEntryView {
        SdkModelEntryView {
            module: self.module@,
            version: self.version@,
            kind: self.kind,
            message: self.message@,
        }
    }
}

/// Compare a stored string with a key.
fn str_eq(a: &String, b: &str) -> (r: bool)
    ensures
        r == (a@ == b@),
{
    let bs = String::from_str(b);
    *a == bs
}

/// Whether `k` is a field name of the strict metadata schema.
pub open spec fn known_meta_key(k: Seq<char>) -> bool {
    k == "bug"@ || k == "breaking"@ || k == "tada"@ || k == "target"@
}

/// Every field name of a metadata object lies in its strict schema.
pub open spec fn meta_fields_known(fs: Seq<(Seq<char>, Doc)>) -> bool {
    forall|i: int| 0 <= i < fs.len() ==> known_meta_key(#[trigger] fs[i].0)
}

/// `k` is the position of the first field outside the strict schema.
pub open spec fn is_first_unknown(fs: Seq<(Seq<char>, Doc)>, k: int) -> bool {
    0 <= k < fs.len() && !known_meta_key(fs[k].0) && (forall|j: int|
        0 <= j < k ==> known_meta_key(#[trigger] fs[j].0))
}

/// The name of the first field outside the strict schema.
pub open spec fn first_unknown_key(fs: Seq<(Seq<char>, Doc)>) -> Seq<char> {
    fs[choose|k: int| is_first_unknown(fs, k)].0
}

proof fn lemma_first_unknown_unique(fs: Seq<(Seq<char>, Doc)>, k: int)
    requires
        is_first_unknown(fs, k),
    ensures
        first_unknown_key(fs) == fs[k].0,
{
    let k0 = choose|k0: int| is_first_unknown(fs, k0);
    assert(is_first_unknown(fs, k0));
    if k0 < k {
        assert(known_meta_key(fs[k0].0));
    } else if k0 > k {
        assert(known_meta_key(fs[k].0));
    }
}

/// Whether an optional field holds a boolean.
pub open spec fn is_bool_doc(v: Option<Doc>) -> bool {
    match v {
        Some(Doc::Bool(b)) => true,
        _ => false,
    }
}

/// Whether an optional field holds a string.
pub open spec fn is_text_doc(v: Option<Doc>) -> bool {
    match v {
        Some(Doc::Text(s)) => true,
        _ => false,
    }
}

/// The message when a field expected to hold a boolean does not.
pub open spec fn spec_bool_err_text(v: Option<Doc>, name: Seq<char>) -> Seq<char> {
    match v {
        None => "missing field `"@ + name + "`"@,
        _ => "expected a boolean in field `"@ + name + "`"@,
    }
}

/// The message when a field expected to hold a string does not.
pub open spec fn spec_text_err_text(v: Option<Doc>, name: Seq<char>) -> Seq<char> {
    match v {
        None => "missing field `"@ + name + "`"@,
        _ => "expected a string in field `"@ + name + "`"@,
    }
}

/// The message when the `target` field is rejected.
pub open spec fn spec_target_err_text(v: Option<Doc>) -> Seq<char> {
    match v {
        Some(Doc::Text(s)) => "An invalid type of SDK type "@ + s
            + " has been mentioned in the meta tags"@,
        _ => "expected a string in field `"@ + "target"@ + "`"@,
    }
}

/// The message a metadata node is rejected with: the first unknown field,
/// then each required boolean in order, then the target tag.
pub open spec fn spec_meta_err_text(d: Doc) -> Seq<char> {
    match d {
        Doc::Obj(fs) => {
            if !meta_fields_known(fs) {
                "unknown field `"@ + first_unknown_key(fs) + "`"@
            } else if !is_bool_doc(spec_lookup(fs, "bug"@)) {
                spec_bool_err_text(spec_lookup(fs, "bug"@), "bug"@)
            } else if !is_bool_doc(spec_lookup(fs, "breaking"@)) {
                spec_bool_err_text(spec_lookup(fs, "breaking"@), "breaking"@)
            } else if !is_bool_doc(spec_lookup(fs, "tada"@)) {
                spec_bool_err_text(spec_lookup(fs, "tada"@), "tada"@)
            } else {
                spec_target_err_text(spec_lookup(fs, "target"@))
            }
        },
        _ => "expected an object"@,
    }
}

/// What the optional `target` field decodes to: absent or null is no target,
/// a string must be a recognized audience tag, anything else is rejected.
pub open spec fn spec_target(v: Option<Doc>) -> Option<Option<SdkAffected>> {
    match v {
        None => Some(None),
        Some(Doc::Null) => Some(None),
        Some(Doc::Text(s)) => match spec_audience(s) {
            Some(a) => Some(Some(a)),
            None => None,
        },
        Some(_) => None,
    }
}

/// What a metadata node decodes to: an object with only known fields, the
/// three required booleans, and an optional audience target.
pub open spec fn spec_meta(d: Doc) -> Option<Meta> {
    match d {
        Doc::Obj(fs) => {
            if !meta_fields_known(fs) {
                None
            } else {
                match (
                    spec_lookup(fs, "bug"@),
                    spec_lookup(fs, "breaking"@),
                    spec_lookup(fs, "tada"@),
                ) {
                    (Some(Doc::Bool(bug)), Some(Doc::Bool(breaking)), Some(Doc::Bool(tada))) => {
                        match spec_target(spec_lookup(fs, "target"@)) {
                            Some(target) => Some(Meta { bug, breaking, tada, target }),
                            None => None,
                        }
                    },
                    _ => None,
                }
            }
        },
        _ => None,
    }
}

impl Meta {
    /// Decode a metadata node, rejecting unknown fields.
    pub fn from_doc(d: &DocValue) -> (r: Result<Meta, SchemaError>)
        ensures
            r is Ok <==> spec_meta(d@) is Some,
            r is Ok ==> Some(r->Ok_0) == spec_meta(d@),
            r is Err ==> spec_schema_message(r->Err_0) == spec_meta_err_text(d@),
    {
        let entries = match d {
            DocValue::Obj(entries) => entries,
            _ => {
                return Err(SchemaError::ExpectedObject);
            },
        };
        let ghost es = obj_entries_view(*entries);
        let n = entries.len();
        let mut i: usize = 0;
        while i < n
            invariant
                0 <= i <= n,
                n == entries@.len(),
                es == obj_entries_view(*entries),
                es.len() == n,
                d@ == Doc::Obj(es),
                forall|j: int| 0 <= j < es.len() ==> es[j] == (entries@[j].0@, entries@[j].1@),
                forall|j: int|
                    0 <= j < i ==> es[j].0 == "bug"@ || es[j].0 == "breaking"@ || es[j].0
                        == "tada"@ || es[j].0 == "target"@,
            decreases n - i,
        {
            let known = str_eq(&entries[i].0, "bug") || str_eq(&entries[i].0, "breaking")
                || str_eq(&entries[i].0, "tada") || str_eq(&entries[i].0, "target");
            if !known {
                proof {
                    let k = i as int;
                    assert(es[k].0 == entries@[k].0@);
                    assert(!(es[k].0 == "bug"@ || es[k].0 == "breaking"@ || es[k].0 == "tada"@
                        || es[k].0 == "target"@));
                    assert(!meta_fields_known(es));
                    assert(d@ == Doc::Obj(es));
                    assert(spec_meta(d@) is None);
                    assert(is_first_unknown(es, k)) by {
                        assert(forall|j: int| 0 <= j < k ==> known_meta_key(#[trigger] es[j].0));
                    }
                    lemma_first_unknown_unique(es, k);
                }
                return Err(SchemaError::UnknownField { field: entries[i].0.clone() });
            }
            i = i + 1;
        }
        proof {
            assert(meta_fields_known(es));
        }
        let bug = match lookup_field(entries, "bug") {
            Some(DocValue::Bool(b)) => *b,
            Some(_) => {
                return Err(SchemaError::ExpectedBool { field: String::from_str("bug") });
            },
            None => {
                return Err(SchemaError::MissingField { field: String::from_str("bug") });
            },
        };
        let breaking = match lookup_field(entries, "breaking") {
            Some(DocValue::Bool(b)) => *b,
            Some(_) => {
                return Err(SchemaError::ExpectedBool { field: String::from_str("breaking") });
            },
            None => {
                return Err(SchemaError::MissingField { field: String::from_str("breaking") });
            },
        };
        let tada = match lookup_field(entries, "tada") {
            Some(DocValue::Bool(b)) => *b,
            Some(_) => {
                return Err(SchemaError::ExpectedBool { field: String::from_str("tada") });
            },
            None => {
                return Err(SchemaError::MissingField { field: String::from_str("tada") });
            },
        };
        let target = match lookup_field(entries, "target") {
            None => None,
            Some(DocValue::Null) => None,
            Some(DocValue::Text(s)) => match SdkAffected::from_str(s.as_str()) {
                Ok(a) => Some(a),
                Err(_) => {
                    return Err(SchemaError::UnrecognizedAudience { value: s.clone() });
                },
            },
            Some(_) => {
                return Err(SchemaError::ExpectedString { field: String::from_str("target") });
            },
        };
        Ok(Meta { bug, breaking, tada, target })
    }
}

/// The document node a metadata record encodes to: the three flags in fixed
/// order, then the target tag when one is set.
pub open spec fn spec_meta_doc(m: Meta) -> Doc {
    Doc::Obj(
        seq![
            ("bug"@, Doc::Bool(m.bug)),
            ("breaking"@, Doc::Bool(m.breaking)),
            ("tada"@, Doc::Bool(m.tada)),
        ] + match m.target {
            Some(a) => seq![("target"@, Doc::Text(spec_audience_doc_text(a)))],
            None => Seq::<(Seq<char>, Doc)>::empty(),
        },
    )
}

/// What a single reference element decodes to: a string in reference form.
pub open spec fn spec_reference_item(d: Doc) -> Option<ReferenceView> {
    match d {
        Doc::Text(s) => spec_reference(s),
        _ => None,
    }
}

/// What an array of reference elements decodes to, all or nothing.
pub open spec fn spec_references(items: Seq<Doc>) -> Option<Seq<ReferenceView>>
    decreases items.len(),
{
    if items.len() == 0 {
        Some(Seq::<ReferenceView>::empty())
    } else {
        match (spec_reference_item(items[0]), spec_references(items.drop_first())) {
            (Some(r), Some(rest)) => Some(seq![r] + rest),
            _ => None,
        }
    }
}

/// The message a single reference element is rejected with.
pub open spec fn spec_ref_item_err_text(d: Doc) -> Seq<char> {
    match d {
        Doc::Text(s) => "invalid reference: "@ + crate::reference::spec_reference_err_text(s),
        _ => "expected a string in field `"@ + "references"@ + "`"@,
    }
}

/// The message a reference array is rejected with: that of its first bad
/// element.
pub open spec fn spec_refs_err_text(items: Seq<Doc>) -> Seq<char>
    decreases items.len(),
{
    if items.len() == 0 {
        Seq::<char>::empty()
    } else if spec_reference_item(items[0]) is None {
        spec_ref_item_err_text(items[0])
    } else {
        spec_refs_err_text(items.drop_first())
    }
}

/// What the optional `references` field decodes to: absent means none.
pub open spec fn spec_refs_field(v: Option<Doc>) -> Option<Seq<ReferenceView>> {
    match v {
        None => Some(Seq::<ReferenceView>::empty()),
        Some(Doc::Arr(items)) => spec_references(items),
        Some(_) => None,
    }
}

/// What the optional `since-commit` field decodes to: absent or null means
/// none, and only a string is accepted otherwise.
pub open spec fn spec_opt_text(v: Option<Doc>) -> Option<Option<Seq<char>>> {
    match v {
        None => Some(None),
        Some(Doc::Null) => Some(None),
        Some(Doc::Text(s)) => Some(Some(s)),
        Some(_) => None,
    }
}

/// What a hand-authored entry node decodes to: required `message`, `meta`
/// and `author`, optional `references` and `since-commit`; fields outside
/// these are ignored.
pub open spec fn spec_hand_entry(d: Doc) -> Option<HandAuthoredEntryView> {
    match d {
        Doc::Obj(fs) => {
            match (spec_lookup(fs, "message"@), spec_lookup(fs, "author"@)) {
                (Some(Doc::Text(message)), Some(Doc::Text(author))) => {
                    match spec_lookup(fs, "meta"@) {
                        Some(md) => match spec_meta(md) {
                            Some(meta) => match spec_refs_field(spec_lookup(fs, "references"@)) {
                                Some(references) => match spec_opt_text(
                                    spec_lookup(fs, "since-commit"@),
                                ) {
                                    Some(since_commit) => Some(
                                        HandAuthoredEntryView {
                                            message,
                                            meta,
                                            author,
                                            references,
                                            since_commit,
                                        },
                                    ),
                                    None => None,
                                },
                                None => None,
                            },
                            None => None,
                        },
                        None => None,
                    }
                },
                _ => None,
            }
        },
        _ => None,
    }
}

/// The message a hand-authored entry node is rejected with, following the
/// order its fields are read in.
pub open spec fn spec_hand_entry_err_text(d: Doc) -> Seq<char> {
    match d {
        Doc::Obj(fs) => {
            if !is_text_doc(spec_lookup(fs, "message"@)) {
                spec_text_err_text(spec_lookup(fs, "message"@), "message"@)
            } else if !is_text_doc(spec_lookup(fs, "author"@)) {
                spec_text_err_text(spec_lookup(fs, "author"@), "author"@)
            } else {
                match spec_lookup(fs, "meta"@) {
                    None => "missing field `"@ + "meta"@ + "`"@,
                    Some(md) => {
                        if spec_meta(md) is None {
                            spec_meta_err_text(md)
                        } else {
                            match spec_lookup(fs, "references"@) {
                                Some(Doc::Arr(items)) => if spec_references(items) is None {
                                    spec_refs_err_text(items)
                                } else {
                                    "expected a string in field `"@ + "since-commit"@ + "`"@
                                },
                                None => "expected a string in field `"@ + "since-commit"@ + "`"@,
                                Some(_) => "expected an array in field `"@ + "references"@ + "`"@,
                            }
                        }
                    },
                }
            }
        },
        _ => "expected an object"@,
    }
}

/// Decode the `references` array of an entry.
fn references_from_doc(items: &Vec<DocValue>) -> (r: Result<Vec<Reference>, SchemaError>)
    ensures
        r is Ok <==> spec_references(crate::doc::arr_items_view(*items)) is Some,
        r is Ok ==> Some(r->Ok_0@.map_values(|x: Reference| x@)) == spec_references(
            crate::doc::arr_items_view(*items),
        ),
        r is Err ==> spec_schema_message(r->Err_0) == spec_refs_err_text(
            crate::doc::arr_items_view(*items),
        ),
{
    let ghost av = crate::doc::arr_items_view(*items);
    let n = items.len();
    let mut out: Vec<Reference> = Vec::new();
    let mut i: usize = 0;
    proof {
        assert(av.skip(0) =~= av);
        assert(out@.map_values(|x: Reference| x@) =~= Seq::<ReferenceView>::empty());
    }
    while i < n
        invariant
            0 <= i <= n,
            n == items@.len(),
            av == crate::doc::arr_items_view(*items),
            av.len() == n,
            forall|j: int| 0 <= j < av.len() ==> av[j] == items@[j]@,
            spec_references(av) == match spec_references(av.skip(i as int)) {
                Some(rest) => Some(out@.map_values(|x: Reference| x@) + rest),
                None => None,
            },
            spec_references(av.skip(i as int)) is None ==> spec_refs_err_text(av)
                == spec_refs_err_text(av.skip(i as int)),
        decreases n - i,
    {
        proof {
            assert(av.skip(i as int)[0] == av[i as int]);
            assert(av.skip(i as int).drop_first() =~= av.skip(i + 1));
        }
        let item_ref = &items[i];
        let s = match item_ref {
            DocValue::Text(s) => s,
            _ => {
                proof {
                    assert(spec_reference_item(av[i as int]) is None);
                    assert(spec_references(av.skip(i as int)) is None);
                    assert(spec_refs_err_text(av.skip(i as int)) == spec_ref_item_err_text(
                        av[i as int],
                    ));
                }
                return Err(SchemaError::ExpectedString { field: String::from_str("references") });
            },
        };
        match Reference::from_str(s.as_str()) {
            Ok(reference) => {
                let ghost prev = out@.map_values(|x: Reference| x@);
                out.push(reference);
                proof {
                    assert(out@.map_values(|x: Reference| x@) =~= prev + seq![reference@]);
                    assert(spec_reference_item(av[i as int]) == Some(reference@));
                    assert(forall|rest: Seq<ReferenceView>|
                        prev + (seq![reference@] + rest) =~= (prev + seq![reference@]) + rest);
                    assert(spec_references(av.skip(i + 1)) is None ==> spec_references(
                        av.skip(i as int),
                    ) is None);
                    assert(spec_refs_err_text(av.skip(i as int)) == spec_refs_err_text(
                        av.skip(i + 1),
                    ));
                }
            },
            Err(e) => {
                proof {
                    assert(spec_reference_item(av[i as int]) is None);
                    assert(spec_references(av.skip(i as int)) is None);
                    crate::reference::lemma_reference_err_text(e, s@);
                    assert(spec_refs_err_text(av.skip(i as int)) == spec_ref_item_err_text(
                        av[i as int],
                    ));
                }
                return Err(SchemaError::InvalidReference { message: e.message() });
            },
        }
        i = i + 1;
    }
    proof {
        assert(av.skip(n as int).len() == 0);
        assert(spec_references(av.skip(n as int)) == Some(Seq::<ReferenceView>::empty()));
        assert(out@.map_values(|x: Reference| x@) + Seq::<ReferenceView>::empty() =~= out@
            .map_values(|x: Reference| x@));
    }
    Ok(out)
}

impl HandAuthoredEntry {
    /// Decode a hand-authored entry node.
    pub fn from_doc(d: &DocValue) -> (r: Result<HandAuthoredEntry, SchemaError>)
        ensures
            r is Ok <==> spec_hand_entry(d@) is Some,
            r is Ok ==> Some(r->Ok_0@) == spec_hand_entry(d@),
            r is Err ==> spec_schema_message(r->Err_0) == spec_hand_entry_err_text(d@),
    {
        let entries = match d {
            DocValue::Obj(entries) => entries,
            _ => {
                return Err(SchemaError::ExpectedObject);
            },
        };
        let message = match lookup_field(entries, "message") {
            Some(DocValue::Text(s)) => s.clone(),
            Some(_) => {
                return Err(SchemaError::ExpectedString { field: String::from_str("message") });
            },
            None => {
                return Err(SchemaError::MissingField { field: String::from_str("message") });
            },
        };
        let author = match lookup_field(entries, "author") {
            Some(DocValue::Text(s)) => s.clone(),
            Some(_) => {
                return Err(SchemaError::ExpectedString { field: String::from_str("author") });
            },
            None => {
                return Err(SchemaError::MissingField { field: String::from_str("author") });
            },
        };
        let meta = match lookup_field(entries, "meta") {
            Some(md) => match Meta::from_doc(md) {
                Ok(meta) => meta,
                Err(e) => {
                    return Err(e);
                },
            },
            None => {
                return Err(SchemaError::MissingField { field: String::from_str("meta") });
            },
        };
        let references = match lookup_field(entries, "references") {
            None => Vec::new(),
            Some(DocValue::Arr(items)) => match references_from_doc(items) {
                Ok(refs) => refs,
                Err(e) => {
                    return Err(e);
                },
            },
            Some(_) => {
                return Err(SchemaError::ExpectedArray { field: String::from_str("references") });
            },
        };
        let since_commit = match lookup_field(entries, "since-commit") {
            None => None,
            Some(DocValue::Null) => None,
            Some(DocValue::Text(s)) => Some(s.clone()),
            Some(_) => {
                return Err(SchemaError::ExpectedString { field: String::from_str("since-commit") });
            },
        };
        let entry = HandAuthoredEntry { message, meta, author, references, since_commit };
        proof {
            if spec_refs_field(spec_lookup(obj_entries_view(*entries), "references"@)) is Some {
                assert(entry@.references =~= spec_refs_field(
                    spec_lookup(obj_entries_view(*entries), "references"@),
                )->0);
            }
        }
        Ok(entry)
    }

    /// Check the authoring rules: a nonempty author of letters, digits and
    /// hyphens, and at least one reference. The first broken rule is
    /// reported.
    pub fn validate(&self) -> (r: Result<(), ValidationError>)
        ensures
            r is Ok <==> spec_first_violation(self@) is None,
            r is Err ==> Some(r->Err_0) == spec_first_violation(self@),
    {
        let n = self.author.as_str().unicode_len();
        if n == 0 {
            return Err(ValidationError::EmptyAuthor);
        }
        let mut i: usize = 0;
        while i < n
            invariant
                0 <= i <= n,
                n == self.author@.len(),
                forall|j: int|
                    0 <= j < i ==> is_alphanumeric_char(self.author@[j]) || self.author@[j] == '-',
            decreases n - i,
        {
            let c = self.author.as_str().get_char(i);
            if !(c.is_alphanumeric() || c == '-') {
                return Err(ValidationError::InvalidAuthor);
            }
            i = i + 1;
        }
        if self.references.len() == 0 {
            return Err(ValidationError::NoReferences);
        }
        proof {
            assert(self@.references.len() == self.references@.len());
        }
        Ok(())
    }

    /// The document node this entry encodes to.
    pub fn to_doc(&self) -> (r: DocValue)
        ensures
            r@ == spec_hand_entry_doc(self@),
    {
        let mut fields: Vec<(String, DocValue)> = Vec::new();
        fields.push((String::from_str("message"), DocValue::Text(self.message.clone())));
        fields.push((String::from_str("meta"), self.meta.to_doc()));
        fields.push((String::from_str("author"), DocValue::Text(self.author.clone())));
        let mut refs: Vec<DocValue> = Vec::new();
        let m = self.references.len();
        let mut i: usize = 0;
        while i < m
            invariant
                0 <= i <= m,
                m == self.references@.len(),
                refs@.len() == i,
                forall|j: int|
                    0 <= j < i ==> refs@[j]@ == Doc::Text(
                        spec_encode_reference(self.references@[j]@),
                    ),
            decreases m - i,
        {
            refs.push(DocValue::Text(self.references[i].to_string()));
            i = i + 1;
        }
        fields.push((String::from_str("references"), DocValue::Arr(refs)));
        let since = match &self.since_commit {
            Some(s) => DocValue::Text(s.clone()),
            None => DocValue::Null,
        };
        fields.push((String::from_str("since-commit"), since));
        let r = DocValue::Obj(fields);
        proof {
            let target = spec_hand_entry_doc(self@);
            assert(crate::doc::arr_items_view(refs) =~= self@.references.map_values(
                |x: ReferenceView| Doc::Text(spec_encode_reference(x)),
            ));
            assert(obj_entries_view(fields) =~= target->Obj_0);
        }
        r
    }
}

impl Meta {
    /// The document node this metadata encodes to.
    pub fn to_doc(&self) -> (r: DocValue)
        ensures
            r@ == spec_meta_doc(*self),
    {
        let mut fields: Vec<(String, DocValue)> = Vec::new();
        fields.push((String::from_str("bug"), DocValue::Bool(self.bug)));
        fields.push((String::from_str("breaking"), DocValue::Bool(self.breaking)));
        fields.push((String::from_str("tada"), DocValue::Bool(self.tada)));
        match self.target {
            Some(a) => {
                fields.push((String::from_str("target"), DocValue::Text(
                    String::from_str(a.doc_text()),
                )));
            },
            None => {},
        }
        let r = DocValue::Obj(fields);
        proof {
            assert(obj_entries_view(fields) =~= spec_meta_doc(*self)->Obj_0);
        }
        r
    }
}

/// The document node a hand-authored entry encodes to: its fields in fixed
/// order, references as encoded strings, and an absent commit as null.
pub open spec fn spec_hand_entry_doc(e: HandAuthoredEntryView) -> Doc {
    Doc::Obj(
        seq![
            ("message"@, Doc::Text(e.message)),
            ("meta"@, spec_meta_doc(e.meta)),
            ("author"@, Doc::Text(e.author)),
            (
                "references"@,
                Doc::Arr(
                    e.references.map_values(|x: ReferenceView| Doc::Text(spec_encode_reference(x))),
                ),
            ),
            (
                "since-commit"@,
                match e.since_commit {
                    Some(s) => Doc::Text(s),
                    None => Doc::Null,
                },
            ),
        ],
    )
}

/// Whether an author string is a plausible account handle: nonempty, all
/// letters, digits or hyphens.
pub open spec fn valid_author(author: Seq<char>) -> bool {
    author.len() > 0 && (forall|i: int|
        0 <= i < author.len() ==> is_alphanumeric_char(author[i]) || author[i] == '-')
}

/// The first authoring rule an entry breaks, if any: an empty author, then
/// a bad author character, then an empty reference list.
pub open spec fn spec_first_violation(e: HandAuthoredEntryView) -> Option<ValidationError> {
    if e.author.len() == 0 {
        Some(ValidationError::EmptyAuthor)
    } else if !valid_author(e.author) {
        Some(ValidationError::InvalidAuthor)
    } else if e.references.len() == 0 {
        Some(ValidationError::NoReferences)
    } else {
        None
    }
}

/// The fixed names of the two model-change kinds.
pub open spec fn spec_kind_text(k: SdkModelChangeKind) -> Seq<char> {
    match k {
        SdkModelChangeKind::Documentation => "Documentation"@,
        SdkModelChangeKind::Feature => "Feature"@,
    }
}

/// What a kind tag decodes to: one of the two names, exactly.
pub open spec fn spec_kind(s: Seq<char>) -> Option<SdkModelChangeKind> {
    if s == "Documentation"@ {
        Some(SdkModelChangeKind::Documentation)
    } else if s == "Feature"@ {
        Some(SdkModelChangeKind::Feature)
    } else {
        None
    }
}

/// The message a model-change entry node is rejected with, following the
/// order its fields are read in.
pub open spec fn spec_sdk_entry_err_text(d: Doc) -> Seq<char> {
    match d {
        Doc::Obj(fs) => {
            if !is_text_doc(spec_lookup(fs, "module"@)) {
                spec_text_err_text(spec_lookup(fs, "module"@), "module"@)
            } else if !is_text_doc(spec_lookup(fs, "version"@)) {
                spec_text_err_text(spec_lookup(fs, "version"@), "version"@)
            } else if !is_text_doc(spec_lookup(fs, "kind"@)) {
                spec_text_err_text(spec_lookup(fs, "kind"@), "kind"@)
            } else {
                match spec_lookup(fs, "kind"@) {
                    Some(Doc::Text(s)) => {
                        if spec_kind(s) is None {
                            "unrecognized change kind "@ + s
                        } else {
                            spec_text_err_text(spec_lookup(fs, "message"@), "message"@)
                        }
                    },
                    _ => Seq::<char>::empty(),
                }
            }
        },
        _ => "expected an object"@,
    }
}

/// What a model-change entry node decodes to: required `module`, `version`,
/// `kind` and `message`; fields outside these are ignored.
pub open spec fn spec_sdk_entry(d: Doc) -> Option<SdkModelEntryView> {
    match d {
        Doc::Obj(fs) => {
            match (
                spec_lookup(fs, "module"@),
                spec_lookup(fs, "version"@),
                spec_lookup(fs, "kind"@),
                spec_lookup(fs, "message"@),
            ) {
                (
                    Some(Doc::Text(module)),
                    Some(Doc::Text(version)),
                    Some(Doc::Text(kind_text)),
                    Some(Doc::Text(message)),
                ) => {
                    match spec_kind(kind_text) {
                        Some(kind) => Some(SdkModelEntryView { module, version, kind, message }),
                        None => None,
                    }
                },
                _ => None,
            }
        },
        _ => None,
    }
}

impl SdkModelEntry {
    /// Decode a model-change entry node.
    pub fn from_doc(d: &DocValue) -> (r: Result<SdkModelEntry, SchemaError>)
        ensures
            r is Ok <==> spec_sdk_entry(d@) is Some,
            r is Ok ==> Some(r->Ok_0@) == spec_sdk_entry(d@),
            r is Err ==> spec_schema_message(r->Err_0) == spec_sdk_entry_err_text(d@),
    {
        let entries = match d {
            DocValue::Obj(entries) => entries,
            _ => {
                return Err(SchemaError::ExpectedObject);
            },
        };
        let module = match lookup_field(entries, "module") {
            Some(DocValue::Text(s)) => s.clone(),
            Some(_) => {
                return Err(SchemaError::ExpectedString { field: String::from_str("module") });
            },
            None => {
                return Err(SchemaError::MissingField { field: String::from_str("module") });
            },
        };
        let version = match lookup_field(entries, "version") {
            Some(DocValue::Text(s)) => s.clone(),
            Some(_) => {
                return Err(SchemaError::ExpectedString { field: String::from_str("version") });
            },
            None => {
                return Err(SchemaError::MissingField { field: String::from_str("version") });
            },
        };
        let kind_text = match lookup_field(entries, "kind") {
            Some(DocValue::Text(s)) => s,
            Some(_) => {
                return Err(SchemaError::ExpectedString { field: String::from_str("kind") });
            },
            None => {
                return Err(SchemaError::MissingField { field: String::from_str("kind") });
            },
        };
        let kind = if str_eq(kind_text, "Documentation") {
            SdkModelChangeKind::Documentation
        } else if str_eq(kind_text, "Feature") {
            SdkModelChangeKind::Feature
        } else {
            return Err(SchemaError::UnrecognizedKind { value: kind_text.clone() });
        };
        let message = match lookup_field(entries, "message") {
            Some(DocValue::Text(s)) => s.clone(),
            Some(_) => {
                return Err(SchemaError::ExpectedString { field: String::from_str("message") });
            },
            None => {
                return Err(SchemaError::MissingField { field: String::from_str("message") });
            },
        };
        Ok(SdkModelEntry { module, version, kind, message })
    }

    /// The document node this entry encodes to.
    pub fn to_doc(&self) -> (r: DocValue)
        ensures
            r@ == spec_sdk_entry_doc(self@),
    {
        let mut fields: Vec<(String, DocValue)> = Vec::new();
        fields.push((String::from_str("module"), DocValue::Text(self.module.clone())));
        fields.push((String::from_str("version"), DocValue::Text(self.version.clone())));
        let kind_text = match self.kind {
            SdkModelChangeKind::Documentation => "Documentation",
            SdkModelChangeKind::Feature => "Feature",
        };
        fields.push((String::from_str("kind"), DocValue::Text(String::from_str(kind_text))));
        fields.push((String::from_str("message"), DocValue::Text(self.message.clone())));
        let r = DocValue::Obj(fields);
        proof {
            assert(obj_entries_view(fields) =~= spec_sdk_entry_doc(self@)->Obj_0);
        }
        r
    }
}

/// The document node a model-change entry encodes to, fields in fixed order.
pub open spec fn spec_sdk_entry_doc(e: SdkModelEntryView) -> Doc {
    Doc::Obj(
        seq![
            ("module"@, Doc::Text(e.module)),
            ("version"@, Doc::Text(e.version)),
            ("kind"@, Doc::Text(spec_kind_text(e.kind))),
            ("message"@, Doc::Text(e.message)),
        ],
    )
}

} // verus!
