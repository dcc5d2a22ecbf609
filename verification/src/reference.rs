//! The compact cross-repository reference: a `repo#number` string restricted
//! to a fixed pair of project names, with its decode and encode and the
//! round-trip facts between them.

use vstd::prelude::*;
use crate::errors::FormatError;
use crate::numbers::{
    all_digits, digits_val, lemma_dec_digits_val, lemma_digits_val_inverse, numeral_body,
    parse_dec_usize, push_dec_digits, spec_dec_digits, spec_parse_usize,
};

verus! {

/// A pointer to a pull request or issue: a project name and a number.
#[derive(Clone, Debug, PartialEq, Eq)]
pub struct Reference {
    pub repo: String,
    pub number: usize,
}

/// The mathematical shape of a `Reference`.
pub struct ReferenceView {
    pub repo: Seq<char>,
    pub number: usize,
}

impl View for Reference {
    type V = ReferenceView;

    open spec fn view(&self) -> ReferenceView {
        ReferenceView { repo: self.repo@, number: self.number }
    }
}

/// The two project names a reference may point into.
pub open spec fn valid_repo(repo: Seq<char>) -> bool {
    repo == "smithy-rs"@ || repo == "aws-sdk-rust"@
}

/// The textual form of a reference: `repo#number` with the number in
/// canonical decimal.
pub open spec fn spec_encode_reference(r: ReferenceView) -> Seq<char> {
    r.repo + seq!['#'] + spec_dec_digits(r.number as nat)
}

/// `k` is the position of the first `#` in `s`.
pub open spec fn is_first_hash(s: Seq<char>, k: int) -> bool {
    0 <= k < s.len() && s[k] == '#' && (forall|j: int| 0 <= j < k ==> s[j] != '#')
}

/// Whether `s` holds a `#` at all.
pub open spec fn has_hash(s: Seq<char>) -> bool {
    exists|k: int| is_first_hash(s, k)
}

/// The position of the first `#` in `s`.
pub open spec fn hash_pos(s: Seq<char>) -> int {
    choose|k: int| is_first_hash(s, k)
}

/// What decoding a reference string yields: split at the first `#`, read
/// the number, and accept only an allowed project name.
pub open spec fn spec_reference(s: Seq<char>) -> Option<ReferenceView> {
    if !has_hash(s) {
        None
    } else {
        let k = hash_pos(s);
        let num = spec_parse_usize(s.skip(k + 1));
        if num is Some && valid_repo(s.take(k)) {
            Some(ReferenceView { repo: s.take(k), number: num->0 })
        } else {
            None
        }
    }
}

/// Whether `e` is the right rejection of reference string `s`: a missing
/// separator, then a bad number, then an unexpected project name.
pub open spec fn reference_error_matches(e: FormatError, s: Seq<char>) -> bool {
    if !has_hash(s) {
        match e {
            FormatError::MissingSeparator { input } => input@ == s,
            _ => false,
        }
    } else if spec_parse_usize(s.skip(hash_pos(s) + 1)) is None {
        match e {
            FormatError::InvalidNumber { text } => text@ == s.skip(hash_pos(s) + 1),
            _ => false,
        }
    } else {
        match e {
            FormatError::UnexpectedRepo { repo } => repo@ == s.take(hash_pos(s)),
            _ => false,
        }
    }
}

/// The message text a reference string is rejected with.
pub open spec fn spec_reference_err_text(s: Seq<char>) -> Seq<char> {
    if !has_hash(s) {
        "Reference must of the form `repo#number` but found "@ + s
    } else if spec_parse_usize(s.skip(hash_pos(s) + 1)) is None {
        "invalid reference number: "@ + s.skip(hash_pos(s) + 1)
    } else {
        "unexpected repo: "@ + s.take(hash_pos(s))
    }
}

/// The rejection of a reference string carries exactly the text
/// `spec_reference_err_text` gives for it.
pub proof fn lemma_reference_err_text(e: FormatError, s: Seq<char>)
    requires
        reference_error_matches(e, s),
    ensures
        crate::errors::spec_format_message(e) == spec_reference_err_text(s),
{
}

proof fn lemma_first_hash_unique(s: Seq<char>, k: int)
    requires
        is_first_hash(s, k),
    ensures
        hash_pos(s) == k,
        has_hash(s),
{
    let k0 = hash_pos(s);
    assert(is_first_hash(s, k0));
    if k0 < k {
        assert(s[k0] != '#');
    } else if k0 > k {
        assert(s[k] != '#');
    }
}

impl Reference {
    /// Decode a `repo#number` string.
    pub fn from_str(s: &str) -> (r: Result<Reference, FormatError>)
        ensures
            r is Ok <==> spec_reference(s@) is Some,
            r is Ok ==> r->Ok_0@ == spec_reference(s@)->0,
            r is Err ==> spec_reference(s@) is None && reference_error_matches(r->Err_0, s@),
    {
        let n = s.unicode_len();
        let mut h: usize = 0;
        let mut found = false;
        while h < n && !found
            invariant
                0 <= h <= n,
                n == s@.len(),
                forall|j: int| 0 <= j < h ==> s@[j] != '#',
                found ==> h < n && s@[h as int] == '#',
            decreases n - h + (if found { 0int } else { 1int }),
        {
            if s.get_char(h) == '#' {
                found = true;
            } else {
                h = h + 1;
            }
        }
        if !found {
            proof {
                assert(forall|k: int| !is_first_hash(s@, k));
                assert(!has_hash(s@));
            }
            return Err(FormatError::MissingSeparator { input: String::from_str(s) });
        }
        proof {
            assert(is_first_hash(s@, h as int));
            lemma_first_hash_unique(s@, h as int);
        }
        let num_str = s.substring_char(h + 1, n);
        proof {
            assert(num_str@ == s@.skip(h + 1));
        }
        match parse_dec_usize(num_str) {
            None => Err(FormatError::InvalidNumber { text: String::from_str(num_str) }),
            Some(number) => {
                let repo = s.substring_char(0, h);
                proof {
                    assert(repo@ == s@.take(h as int));
                }
                let repo_string = String::from_str(repo);
                if repo_string == String::from_str("smithy-rs") || repo_string == String::from_str(
                    "aws-sdk-rust",
                ) {
                    Ok(Reference { repo: repo_string, number })
                } else {
                    Err(FormatError::UnexpectedRepo { repo: repo_string })
                }
            },
        }
    }

    /// Encode as `repo#number`.
    pub fn to_string(&self) -> (r: String)
        ensures
            r@ == spec_encode_reference(self@),
    {
        let mut out = self.repo.clone();
        proof {
            reveal_strlit("#");
        }
        out.append("#");
        push_dec_digits(&mut out, self.number);
        proof {
            assert(self.repo@ + "#"@ + spec_dec_digits(self.number as nat) =~= spec_encode_reference(
                self@,
            ));
        }
        out
    }
}

/// Decoding a canonical reference string and encoding the result reproduces
/// the string exactly: `repo` is an allowed project name and the digits after
/// `#` are canonical decimal (no sign, no leading zero) in machine range.
pub proof fn lemma_reference_decode_encode(s: Seq<char>)
    requires
        has_hash(s),
        valid_repo(s.take(hash_pos(s))),
        all_digits(s.skip(hash_pos(s) + 1)),
        s.skip(hash_pos(s) + 1).len() >= 1,
        s.skip(hash_pos(s) + 1).len() > 1 ==> s.skip(hash_pos(s) + 1)[0] != '0',
        digits_val(s.skip(hash_pos(s) + 1)) <= usize::MAX as int,
    ensures
        spec_reference(s) is Some,
        spec_encode_reference(spec_reference(s)->0) == s,
{
    let k = hash_pos(s);
    assert(is_first_hash(s, k));
    let body = s.skip(k + 1);
    assert(numeral_body(body) == body) by {
        assert(body[0] != '+') by {
            assert(48 <= body[0] as int <= 57);
            assert('+' as int == 43);
        }
    }
    assert(spec_parse_usize(body) == Some(digits_val(body) as usize));
    lemma_digits_val_inverse(body);
    assert(spec_dec_digits((digits_val(body) as usize) as nat) == body);
    assert(spec_encode_reference(spec_reference(s)->0) == s.take(k) + seq!['#'] + body);
    assert(s.take(k) + seq!['#'] + body =~= s);
}

/// Encoding a reference and decoding the text gives the reference back.
pub proof fn lemma_reference_encode_decode(r: ReferenceView)
    requires
        valid_repo(r.repo),
    ensures
        spec_reference(spec_encode_reference(r)) == Some(r),
{
    let s = spec_encode_reference(r);
    let digits = spec_dec_digits(r.number as nat);
    lemma_dec_digits_val(r.number as nat);
    assert(r.repo.len() > 0) by {
        reveal_strlit("smithy-rs");
        reveal_strlit("aws-sdk-rust");
    }
    let k = r.repo.len() as int;
    assert(s[k] == '#');
    assert(forall|j: int| 0 <= j < k ==> s[j] == r.repo[j]);
    assert(forall|j: int| 0 <= j < k ==> r.repo[j] != '#') by {
        reveal_strlit("smithy-rs");
        reveal_strlit("aws-sdk-rust");
        assert('#' as int == 35);
    }
    assert(is_first_hash(s, k));
    lemma_first_hash_unique(s, k);
    let body = s.skip(k + 1);
    assert(body =~= digits);
    assert(numeral_body(body) == body) by {
        assert(48 <= body[0] as int <= 57);
        assert('+' as int == 43);
    }
    assert(digits_val(body) == r.number);
    assert(spec_parse_usize(body) == Some(r.number));
    assert(s.take(k) =~= r.repo);
    assert(spec_reference(s) == Some(ReferenceView { repo: s.take(k), number: r.number }));
}

} // verus!
