//! The document value tree: the library's own model of a parsed TOML or
//! JSON document. Trusted readers parse raw text into the tree; a trusted
//! writer lays a tree back out as pretty-printed JSON; everything that
//! interprets the tree is ordinary verified code.

use vstd::prelude::*;

verus! {

broadcast use vstd::std_specs::vec::group_vec_axioms;

/// A node of a parsed document, as the record logic reads it. Numbers are
/// kept only as a mark: no record field holds one, so their value is
/// irrelevant and any number in a record position is a schema violation.
pub enum DocValue {
    Null,
    Bool(bool),
    Num,
    Text(String),
    Arr(Vec<DocValue>),
    Obj(Vec<(String, DocValue)>),
}

/// The mathematical shape of a document node.
pub enum Doc {
    Null,
    Bool(bool),
    Num,
    Text(Seq<char>),
    Arr(Seq<Doc>),
    Obj(Seq<(Seq<char>, Doc)>),
}

/// The shapes of the items of an array node.
pub open spec fn arr_items_view(v: Vec<DocValue>) -> Seq<Doc>
    decreases v,
{
    Seq::new(
        v@.len(),
        |i: int|
            if 0 <= i < v@.len() {
                v@[i].view()
            } else {
                Doc::Null
            },
    )
}

/// The shapes of the entries of an object node, in document order.
pub open spec fn obj_entries_view(v: Vec<(String, DocValue)>) -> Seq<(Seq<char>, Doc)>
    decreases v,
{
    Seq::new(
        v@.len(),
        |i: int|
            if 0 <= i < v@.len() {
                (v@[i].0@, v@[i].1.view())
            } else {
                (Seq::<char>::empty(), Doc::Null)
            },
    )
}

impl View for DocValue {
    type V = Doc;

    open spec fn view(&self) -> Doc
        decreases self,
    {
        match self {
            DocValue::Null => Doc::Null,
            DocValue::Bool(b) => Doc::Bool(*b),
            DocValue::Num => Doc::Num,
            DocValue::Text(s) => Doc::Text(s@),
            DocValue::Arr(items) => Doc::Arr(arr_items_view(*items)),
            DocValue::Obj(entries) => Doc::Obj(obj_entries_view(*entries)),
        }
    }
}

/// The value under the first occurrence of `key` among `entries`.
pub open spec fn spec_lookup(entries: Seq<(Seq<char>, Doc)>, key: Seq<char>) -> Option<Doc>
    decreases entries.len(),
{
    if entries.len() == 0 {
        None
    } else if entries[0].0 == key {
        Some(entries[0].1)
    } else {
        spec_lookup(entries.drop_first(), key)
    }
}

/// Find the first entry of an object node under `key`.
pub fn lookup_field<'a>(entries: &'a Vec<(String, DocValue)>, key: &str) -> (r: Option<
    &'a DocValue,
>)
    ensures
        match r {
            Some(d) => spec_lookup(obj_entries_view(*entries), key@) == Some(d@),
            None => spec_lookup(obj_entries_view(*entries), key@) is None,
        },
{
    let ghost es = obj_entries_view(*entries);
    let n = entries.len();
    let mut i: usize = 0;
    proof {
        assert(es.skip(0) =~= es);
    }
    while i < n
        invariant
            0 <= i <= n,
            n == entries@.len(),
            es == obj_entries_view(*entries),
            es.len() == n,
            spec_lookup(es, key@) == spec_lookup(es.skip(i as int), key@),
            forall|j: int| 0 <= j < es.len() ==> es[j] == (entries@[j].0@, entries@[j].1@),
        decreases n - i,
    {
        proof {
            assert(es.skip(i as int)[0] == es[i as int]);
            assert(es.skip(i as int).drop_first() =~= es.skip(i + 1));
        }
        if entries[i].0 == String::from_str(key) {
            proof {
                assert(es[i as int].0 == key@);
                assert(spec_lookup(es.skip(i as int), key@) == Some(es[i as int].1));
            }
            return Some(&entries[i].1);
        }
        proof {
            assert(es[i as int].0 != key@);
        }
        i = i + 1;
    }
    proof {
        assert(es.skip(n as int).len() == 0);
    }
    None
}

/// Declares the outside JSON value type that the trusted readers and writer
/// pass through; the verified logic never looks inside one.
#[verifier::external_type_specification]
#[verifier::external_body]
pub struct ExValue(serde_json::Value);

/// The outcome of parsing TOML text: the tree it parses to, or the
/// parser's message.
pub uninterp spec fn toml_doc(s: Seq<char>) -> Result<Doc, Seq<char>>;

/// The outcome of parsing JSON text: the tree it parses to, or the
/// parser's message.
pub uninterp spec fn json_doc(s: Seq<char>) -> Result<Doc, Seq<char>>;

/// The pretty-printed JSON text of a document tree.
pub uninterp spec fn json_pretty_text(d: Doc) -> Seq<char>;

/// Relies on the variants of serde_json::Value: each is carried to the
/// matching document node, one arm per variant, array elements and object
/// entries one for one in order.
#[verifier::external_body]
fn doc_of_value(v: serde_json::Value) -> DocValue {
    match v {
        serde_json::Value::Null => DocValue::Null,
        serde_json::Value::Bool(b) => DocValue::Bool(b),
        serde_json::Value::Number(_) => DocValue::Num,
        serde_json::Value::String(s) => DocValue::Text(s),
        serde_json::Value::Array(a) => DocValue::Arr(a.into_iter().map(doc_of_value).collect()),
        serde_json::Value::Object(m) => DocValue::Obj(
            m.into_iter().map(|(k, w)| (k, doc_of_value(w))).collect(),
        ),
    }
}

/// Relies on the constructors of serde_json::Value: each document node is
/// carried to the matching value, one arm per variant, in order. A bare
/// number mark carries no value and maps to null; the encoder never emits
/// one.
#[verifier::external_body]
fn value_of_doc(d: &DocValue) -> serde_json::Value {
    match d {
        DocValue::Null => serde_json::Value::Null,
        DocValue::Bool(b) => serde_json::Value::Bool(*b),
        DocValue::Num => serde_json::Value::Null,
        DocValue::Text(s) => serde_json::Value::String(s.clone()),
        DocValue::Arr(items) => serde_json::Value::Array(items.iter().map(value_of_doc).collect()),
        DocValue::Obj(entries) => serde_json::Value::Object(
            entries.iter().map(|(k, w)| (k.clone(), value_of_doc(w))).collect(),
        ),
    }
}

/// Relies on toml::from_str, read into a serde_json::Value: whether TOML
/// text parses, the tree it parses to, and the message it is rejected
/// with all depend on the text alone.
#[verifier::external_body]
pub(crate) fn parse_toml_doc(s: &str) -> (r: Result<DocValue, String>)
    ensures
        r is Ok <==> toml_doc(s@) is Ok,
        r is Ok ==> Ok::<Doc, Seq<char>>(r->Ok_0@) == toml_doc(s@),
        r is Err ==> r->Err_0@ == toml_doc(s@)->Err_0,
{
    match toml::from_str::<serde_json::Value>(s) {
        Ok(v) => Ok(doc_of_value(v)),
        Err(e) => Err(e.to_string()),
    }
}

/// Relies on serde_json::from_str: whether JSON text parses, the tree it
/// parses to, and the message it is rejected with all depend on the text
/// alone.
#[verifier::external_body]
pub(crate) fn parse_json_doc(s: &str) -> (r: Result<DocValue, String>)
    ensures
        r is Ok <==> json_doc(s@) is Ok,
        r is Ok ==> Ok::<Doc, Seq<char>>(r->Ok_0@) == json_doc(s@),
        r is Err ==> r->Err_0@ == json_doc(s@)->Err_0,
{
    match serde_json::from_str::<serde_json::Value>(s) {
        Ok(v) => Ok(doc_of_value(v)),
        Err(e) => Err(e.to_string()),
    }
}

/// Relies on serde_json::to_string_pretty: the text depends on the tree
/// alone, with object entries laid out in their stored order; serializing a
/// value tree to a string has no failing path, so the call always succeeds.
#[verifier::external_body]
pub(crate) fn pretty_json_doc(d: &DocValue) -> (r: String)
    ensures
        r@ == json_pretty_text(d@),
{
    serde_json::to_string_pretty(&value_of_doc(d)).expect("value trees always serialize")
}

} // verus!
