//! Decimal codec for the numeric part of a reference string: parsing an
//! unsigned integer from decimal text and producing the canonical decimal
//! text of an unsigned integer, with the round-trip facts between them.

use vstd::prelude::*;

verus! {

/// Whether `c` is a decimal digit.
pub open spec fn is_digit_char(c: char) -> bool {
    48 <= c as int && c as int <= 57
}

/// The numeric value of a digit character.
pub open spec fn digit_val(c: char) -> int {
    c as int - 48
}

/// Whether every character of `s` is a decimal digit.
pub open spec fn all_digits(s: Seq<char>) -> bool {
    forall|i: int| 0 <= i < s.len() ==> is_digit_char(s[i])
}

/// The value of a digit sequence read as a base-10 numeral.
pub open spec fn digits_val(s: Seq<char>) -> int
    decreases s.len(),
{
    if s.len() == 0 {
        0
    } else {
        digits_val(s.drop_last()) * 10 + digit_val(s.last())
    }
}

/// The digit character for a value in `0 ..= 9`.
pub open spec fn digit_char(d: int) -> char {
    if d == 0 {
        '0'
    } else if d == 1 {
        '1'
    } else if d == 2 {
        '2'
    } else if d == 3 {
        '3'
    } else if d == 4 {
        '4'
    } else if d == 5 {
        '5'
    } else if d == 6 {
        '6'
    } else if d == 7 {
        '7'
    } else if d == 8 {
        '8'
    } else {
        '9'
    }
}

/// The canonical decimal text of `n`: no sign, no leading zero.
pub open spec fn spec_dec_digits(n: nat) -> Seq<char>
    decreases n,
{
    if n < 10 {
        seq![digit_char(n as int)]
    } else {
        spec_dec_digits(n / 10).push(digit_char((n % 10) as int))
    }
}

/// The digits of a decimal numeral, once an optional leading `+` is gone.
pub open spec fn numeral_body(s: Seq<char>) -> Seq<char> {
    if s.len() > 0 && s[0] == '+' {
        s.drop_first()
    } else {
        s
    }
}

/// What parsing decimal text as an unsigned machine integer yields: an
/// optional leading `+`, then at least one digit, and a value in range.
pub open spec fn spec_parse_usize(s: Seq<char>) -> Option<usize> {
    if numeral_body(s).len() > 0 && all_digits(numeral_body(s)) && digits_val(numeral_body(s))
        <= usize::MAX as int {
        Some(digits_val(numeral_body(s)) as usize)
    } else {
        None
    }
}

pub proof fn lemma_digits_val_nonneg(s: Seq<char>)
    requires
        all_digits(s),
    ensures
        digits_val(s) >= 0,
    decreases s.len(),
{
    if s.len() > 0 {
        assert(all_digits(s.drop_last()));
        lemma_digits_val_nonneg(s.drop_last());
    }
}

pub proof fn lemma_digits_val_take_succ(s: Seq<char>, k: int)
    requires
        0 <= k < s.len(),
    ensures
        digits_val(s.take(k + 1)) == digits_val(s.take(k)) * 10 + digit_val(s[k]),
{
    assert(s.take(k + 1).drop_last() =~= s.take(k));
    assert(s.take(k + 1).last() == s[k]);
}

pub proof fn lemma_digits_val_prefix_le(s: Seq<char>, k: int)
    requires
        0 <= k <= s.len(),
        all_digits(s),
    ensures
        digits_val(s.take(k)) <= digits_val(s),
    decreases s.len() - k,
{
    if k == s.len() {
        assert(s.take(k) =~= s);
    } else {
        lemma_digits_val_take_succ(s, k);
        assert(all_digits(s.take(k))) by {
            assert(forall|i: int| 0 <= i < k ==> s.take(k)[i] == s[i]);
        }
        lemma_digits_val_nonneg(s.take(k));
        lemma_digits_val_prefix_le(s, k + 1);
    }
}

/// A numeral whose first digit is not `0` has a positive value.
pub proof fn lemma_digits_val_pos(s: Seq<char>)
    requires
        all_digits(s),
        s.len() >= 1,
        s[0] != '0',
    ensures
        digits_val(s) >= 1,
    decreases s.len(),
{
    if s.len() == 1 {
        assert(s.last() == s[0]);
        assert(s.drop_last().len() == 0);
        assert(digits_val(s.drop_last()) == 0);
        assert(digit_val(s[0]) >= 1) by {
            assert(s[0] as int != 48) by {
                if s[0] as int == 48 {
                    assert(s[0] == 48 as char);
                    assert('0' as int == 48);
                    assert('0' == 48 as char);
                }
            }
        }
    } else {
        let dl = s.drop_last();
        assert(all_digits(dl));
        assert(dl[0] == s[0]);
        lemma_digits_val_pos(dl);
        assert(digit_val(s.last()) >= 0);
    }
}

/// The canonical decimal text of `n` is all digits, nonempty, reads back to
/// `n`, and starts with `0` only for `n == 0` itself.
pub proof fn lemma_dec_digits_val(n: nat)
    ensures
        all_digits(spec_dec_digits(n)),
        spec_dec_digits(n).len() >= 1,
        digits_val(spec_dec_digits(n)) == n,
        n > 0 ==> spec_dec_digits(n)[0] != '0',
    decreases n,
{
    if n < 10 {
        let c = digit_char(n as int);
        assert(is_digit_char(c));
        assert(spec_dec_digits(n) =~= seq![c]);
        assert(seq![c].last() == c);
        assert(seq![c].drop_last().len() == 0);
        assert(digits_val(seq![c].drop_last()) == 0);
        assert(digits_val(seq![c]) == digit_val(c));
        assert(digit_val(c) == n);
        if n > 0 {
            assert(c != '0');
        }
    } else {
        lemma_dec_digits_val(n / 10);
        let prefix = spec_dec_digits(n / 10);
        let d = digit_char((n % 10) as int);
        assert(is_digit_char(d));
        assert(digit_val(d) == n % 10);
        let whole = prefix.push(d);
        assert(whole.drop_last() =~= prefix);
        assert(whole.last() == d);
        assert(digits_val(whole) == digits_val(prefix) * 10 + digit_val(d));
        assert((n / 10) * 10 + n % 10 == n) by {
            vstd::arithmetic::div_mod::lemma_fundamental_div_mod(n as int, 10);
        }
        assert(all_digits(whole)) by {
            assert(forall|i: int| 0 <= i < prefix.len() ==> whole[i] == prefix[i]);
        }
        assert(whole[0] == prefix[0]);
        assert(n / 10 > 0);
    }
}

/// A canonical numeral (no leading zero) is reproduced exactly by encoding
/// its own value.
pub proof fn lemma_digits_val_inverse(s: Seq<char>)
    requires
        all_digits(s),
        s.len() >= 1,
        s.len() > 1 ==> s[0] != '0',
    ensures
        digits_val(s) >= 0,
        spec_dec_digits(digits_val(s) as nat) == s,
    decreases s.len(),
{
    lemma_digits_val_nonneg(s);
    if s.len() == 1 {
        let c = s[0];
        assert(s.last() == c);
        assert(s.drop_last().len() == 0);
        assert(digits_val(s.drop_last()) == 0);
        assert(digits_val(s) == digit_val(c));
        assert(digit_char(digit_val(c)) == c) by {
            lemma_digit_char_of_val(c);
        }
        assert(spec_dec_digits(digits_val(s) as nat) =~= s);
    } else {
        let dl = s.drop_last();
        let c = s.last();
        assert(all_digits(dl));
        assert(dl[0] == s[0]);
        lemma_digits_val_nonneg(dl);
        lemma_digits_val_pos(dl);
        let q = digits_val(dl);
        let d = digit_val(c);
        let n = digits_val(s);
        assert(n == q * 10 + d);
        assert(n / 10 == q && n % 10 == d) by {
            vstd::arithmetic::div_mod::lemma_fundamental_div_mod_converse(n, 10, q, d);
        }
        assert(n >= 10) by {
            assert(q >= 1);
            assert(q * 10 >= 10) by (nonlinear_arith)
                requires q >= 1;
        }
        lemma_digits_val_inverse(dl);
        assert(digit_char(d) == c) by {
            lemma_digit_char_of_val(c);
        }
        assert(spec_dec_digits(n as nat) == spec_dec_digits((n / 10) as nat).push(
            digit_char(n % 10),
        ));
        assert(spec_dec_digits(n as nat) =~= s) by {
            assert(dl.push(c) =~= s);
        }
    }
}

/// Encoding the value of a digit character gives that character back.
pub proof fn lemma_digit_char_of_val(c: char)
    requires
        is_digit_char(c),
    ensures
        digit_char(digit_val(c)) == c,
{
    let v = c as int;
    assert(48 <= v <= 57);
    assert(c == v as char);
    if v == 48 {
        assert('0' as int == 48);
        assert(digit_char(0) == '0');
        assert('0' == 48 as char);
    } else if v == 49 {
        assert('1' == 49 as char);
    } else if v == 50 {
        assert('2' == 50 as char);
    } else if v == 51 {
        assert('3' == 51 as char);
    } else if v == 52 {
        assert('4' == 52 as char);
    } else if v == 53 {
        assert('5' == 53 as char);
    } else if v == 54 {
        assert('6' == 54 as char);
    } else if v == 55 {
        assert('7' == 55 as char);
    } else if v == 56 {
        assert('8' == 56 as char);
    } else {
        assert('9' == 57 as char);
    }
}

/// Parse decimal text as a `usize`: an optional leading `+`, then digits.
pub fn parse_dec_usize(s: &str) -> (r: Option<usize>)
    ensures
        r == spec_parse_usize(s@),
{
    let n = s.unicode_len();
    let start: usize = if n > 0 && s.get_char(0) == '+' {
        1
    } else {
        0
    };
    let ghost body = numeral_body(s@);
    proof {
        assert(body =~= s@.skip(start as int));
    }
    if start == n {
        proof {
            assert(body.len() == 0);
        }
        return None;
    }
    let mut acc: usize = 0;
    let mut i: usize = start;
    proof {
        assert(body.take(0).len() == 0);
        assert(digits_val(body.take(0)) == 0);
        assert(all_digits(body.take(0)));
    }
    while i < n
        invariant
            start <= i <= n,
            n == s@.len(),
            start <= 1,
            body == numeral_body(s@),
            body == s@.skip(start as int),
            all_digits(body.take(i - start)),
            acc == digits_val(body.take(i - start)),
        decreases n - i,
    {
        let c = s.get_char(i);
        let u = c as u32;
        proof {
            assert(body[i - start] == s@[i as int]);
        }
        if u < 48 || u > 57 {
            proof {
                assert(c as int == u as int);
                assert(!is_digit_char(body[i - start]));
                assert(!all_digits(body));
                assert(spec_parse_usize(s@) is None);
            }
            return None;
        }
        let d = (u - 48) as usize;
        proof {
            assert(d == digit_val(body[i - start]));
        }
        if acc > (usize::MAX - d) / 10 {
            proof {
                let k = i - start;
                lemma_digits_val_take_succ(body, k);
                let m = (usize::MAX - d) as int;
                vstd::arithmetic::div_mod::lemma_fundamental_div_mod(m, 10);
                assert(acc * 10 + d > usize::MAX as int);
                assert(all_digits(body.take(k + 1)));
                if all_digits(body) && digits_val(body) <= usize::MAX as int {
                    lemma_digits_val_prefix_le(body, k + 1);
                    assert(false);
                }
                assert(spec_parse_usize(s@) is None);
            }
            return None;
        }
        proof {
            let k = i - start;
            lemma_digits_val_take_succ(body, k);
            let m = (usize::MAX - d) as int;
            vstd::arithmetic::div_mod::lemma_fundamental_div_mod(m, 10);
            assert(acc * 10 + d <= usize::MAX as int);
            assert(body.take(k + 1)[k] == body[k]);
            assert(forall|j: int| 0 <= j < k ==> body.take(k + 1)[j] == body.take(k)[j]);
            assert(all_digits(body.take(k + 1)));
        }
        acc = acc * 10 + d;
        i = i + 1;
    }
    proof {
        assert(body.take(n - start) =~= body);
    }
    Some(acc)
}

/// A digit as a one-character string slice.
fn digit_str(d: usize) -> (r: &'static str)
    requires
        d < 10,
    ensures
        r@ == seq![digit_char(d as int)],
{
    let r: &'static str = match d {
        0 => "0",
        1 => "1",
        2 => "2",
        3 => "3",
        4 => "4",
        5 => "5",
        6 => "6",
        7 => "7",
        8 => "8",
        _ => "9",
    };
    proof {
        reveal_strlit("0");
        reveal_strlit("1");
        reveal_strlit("2");
        reveal_strlit("3");
        reveal_strlit("4");
        reveal_strlit("5");
        reveal_strlit("6");
        reveal_strlit("7");
        reveal_strlit("8");
        reveal_strlit("9");
        assert(r@ =~= seq![digit_char(d as int)]);
    }
    r
}

/// Append the canonical decimal text of `n` to `out`.
pub fn push_dec_digits(out: &mut String, n: usize)
    ensures
        final(out)@ == old(out)@ + spec_dec_digits(n as nat),
    decreases n,
{
    if n >= 10 {
        push_dec_digits(out, n / 10);
        out.append(digit_str(n % 10));
        proof {
            assert(spec_dec_digits((n / 10) as nat).push(digit_char((n % 10) as int))
                =~= spec_dec_digits((n / 10) as nat) + seq![digit_char((n % 10) as int)]);
            assert(old(out)@ + spec_dec_digits((n / 10) as nat) + seq![
                digit_char((n % 10) as int),
            ] =~= old(out)@ + spec_dec_digits(n as nat));
        }
    } else {
        out.append(digit_str(n));
        proof {
            assert(old(out)@ + seq![digit_char(n as int)] =~= old(out)@ + spec_dec_digits(
                n as nat,
            ));
        }
    }
}

} // verus!
