//! The affected-audience tag: a closed set of values with case-insensitive
//! decoding and fixed encodings.

use vstd::prelude::*;
use crate::errors::FormatError;

verus! {

/// Which consumer surface a change affects.
#[derive(Clone, Copy, Debug, PartialEq, Eq, Structural)]
pub enum SdkAffected {
    Client,
    Server,
    Both,
}

impl Default for SdkAffected {
    /// An unstated audience means both surfaces.
    fn default() -> (r: Self)
        ensures
            r == SdkAffected::Both,
    {
        SdkAffected::Both
    }
}

/// `a` matches the lower-case pattern character `b` regardless of case:
/// either exactly, or as its ASCII upper-case form.
pub open spec fn ci_char_matches(a: char, b: char) -> bool {
    a == b || (65 <= a as int <= 90 && a as int + 32 == b as int)
}

/// `s` equals the lower-case ASCII pattern `pat` up to ASCII case.
pub open spec fn ci_eq(s: Seq<char>, pat: Seq<char>) -> bool {
    s.len() == pat.len() && (forall|i: int| 0 <= i < s.len() ==> ci_char_matches(s[i], pat[i]))
}

/// What decoding an audience tag yields: `client`, `server` or `both`,
/// compared without regard to case; anything else is rejected.
pub open spec fn spec_audience(s: Seq<char>) -> Option<SdkAffected> {
    if ci_eq(s, "client"@) {
        Some(SdkAffected::Client)
    } else if ci_eq(s, "server"@) {
        Some(SdkAffected::Server)
    } else if ci_eq(s, "both"@) {
        Some(SdkAffected::Both)
    } else {
        None
    }
}

/// The fixed display form of an audience tag.
pub open spec fn spec_audience_text(a: SdkAffected) -> Seq<char> {
    match a {
        SdkAffected::Client => "client"@,
        SdkAffected::Server => "server"@,
        SdkAffected::Both => "all"@,
    }
}

/// The fixed form an audience tag takes inside an encoded document.
pub open spec fn spec_audience_doc_text(a: SdkAffected) -> Seq<char> {
    match a {
        SdkAffected::Client => "Client"@,
        SdkAffected::Server => "Server"@,
        SdkAffected::Both => "Both"@,
    }
}

/// `a` and `c` are the same character up to ASCII case.
pub open spec fn ascii_ci_char(a: char, c: char) -> bool {
    a == c || (65 <= a as int <= 90 && a as int + 32 == c as int) || (65 <= c as int <= 90 && c
        as int + 32 == a as int)
}

/// Decoding an audience tag is case-insensitive: two tags that agree up to
/// ASCII case decode to the same result — the same value, or both rejected.
pub proof fn lemma_audience_case_insensitive(s1: Seq<char>, s2: Seq<char>)
    requires
        s1.len() == s2.len(),
        forall|i: int| 0 <= i < s1.len() ==> ascii_ci_char(s1[i], s2[i]),
    ensures
        spec_audience(s1) == spec_audience(s2),
{
    reveal_strlit("client");
    reveal_strlit("server");
    reveal_strlit("both");
    lemma_ci_eq_respects_case(s1, s2, "client"@);
    lemma_ci_eq_respects_case(s1, s2, "server"@);
    lemma_ci_eq_respects_case(s1, s2, "both"@);
}

/// Matching against a lower-case ASCII pattern cannot tell two strings
/// apart that agree up to ASCII case.
proof fn lemma_ci_eq_respects_case(s1: Seq<char>, s2: Seq<char>, pat: Seq<char>)
    requires
        s1.len() == s2.len(),
        forall|i: int| 0 <= i < s1.len() ==> ascii_ci_char(s1[i], s2[i]),
        forall|i: int| 0 <= i < pat.len() ==> 97 <= #[trigger] (pat[i] as int) <= 122,
    ensures
        ci_eq(s1, pat) == ci_eq(s2, pat),
{
    if s1.len() == pat.len() {
        assert forall|i: int| 0 <= i < s1.len() implies ci_char_matches(s1[i], pat[i])
            == ci_char_matches(s2[i], pat[i]) by {
            let a = s1[i];
            let c = s2[i];
            let b = pat[i];
            assert(97 <= b as int <= 122);
            if a != c {
                assert(a as int != c as int) by {
                    if a as int == c as int {
                        assert(a == (a as int) as char);
                        assert(c == (c as int) as char);
                    }
                }
            }
        }
    }
}
pub open spec fn audience_error_matches(e: FormatError, s: Seq<char>) -> bool {
    match e {
        FormatError::UnrecognizedAudience { value } => value@ == s,
        _ => false,
    }
}

/// Compare `s` with the lower-case ASCII pattern `pat` without regard to
/// ASCII case.
fn ci_match(s: &str, pat: &str) -> (r: bool)
    ensures
        r == ci_eq(s@, pat@),
{
    let n = s.unicode_len();
    if n != pat.unicode_len() {
        return false;
    }
    let mut i: usize = 0;
    while i < n
        invariant
            0 <= i <= n,
            n == s@.len(),
            n == pat@.len(),
            forall|j: int| 0 <= j < i ==> ci_char_matches(s@[j], pat@[j]),
        decreases n - i,
    {
        let a = s.get_char(i);
        let b = pat.get_char(i);
        let au = a as u32;
        let bu = b as u32;
        if !(a == b || (65 <= au && au <= 90 && au + 32 == bu)) {
            proof {
                assert(!ci_char_matches(s@[i as int], pat@[i as int]));
            }
            return false;
        }
        i = i + 1;
    }
    true
}

impl SdkAffected {
    /// Decode an audience tag, accepting any mix of case.
    pub fn from_str(s: &str) -> (r: Result<SdkAffected, FormatError>)
        ensures
            r is Ok <==> spec_audience(s@) is Some,
            r is Ok ==> r->Ok_0 == spec_audience(s@)->0,
            r is Err ==> audience_error_matches(r->Err_0, s@),
    {
        if ci_match(s, "client") {
            Ok(SdkAffected::Client)
        } else if ci_match(s, "server") {
            Ok(SdkAffected::Server)
        } else if ci_match(s, "both") {
            Ok(SdkAffected::Both)
        } else {
            Err(FormatError::UnrecognizedAudience { value: String::from_str(s) })
        }
    }

    /// The fixed display form: `client`, `server`, or `all` for both.
    pub fn to_string(&self) -> (r: String)
        ensures
            r@ == spec_audience_text(*self),
    {
        match self {
            SdkAffected::Client => String::from_str("client"),
            SdkAffected::Server => String::from_str("server"),
            SdkAffected::Both => String::from_str("all"),
        }
    }

    /// The form written into an encoded document.
    pub fn doc_text(&self) -> (r: &'static str)
        ensures
            r@ == spec_audience_doc_text(*self),
    {
        match self {
            SdkAffected::Client => "Client",
            SdkAffected::Server => "Server",
            SdkAffected::Both => "Both",
        }
    }
}

} // verus!
