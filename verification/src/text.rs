//! Line-oriented text handling for the dual-format decoder: splitting a
//! document into lines, recognizing comment lines (first non-blank character
//! `#`), and rebuilding the document without them.

use vstd::prelude::*;

verus! {

/// Whether a character counts as whitespace, as the standard library's
/// Unicode classification has it.
pub uninterp spec fn is_whitespace_char(c: char) -> bool;

/// Whether a character counts as alphanumeric, as the standard library's
/// Unicode classification has it.
pub uninterp spec fn is_alphanumeric_char(c: char) -> bool;

/// Relies on char::is_whitespace: the result depends on the character alone.
/// A space and a tab are whitespace; `#` is punctuation, not whitespace.
pub assume_specification[ char::is_whitespace ](c: char) -> (r: bool)
    ensures
        r == is_whitespace_char(c),
        c == ' ' || c == '\t' ==> r,
        c == '#' ==> !r,
;

/// Relies on char::is_alphanumeric: the result depends on the character
/// alone. ASCII letters and digits are alphanumeric; a space, an underscore
/// and a hyphen are not letters or numbers.
pub assume_specification[ char::is_alphanumeric ](c: char) -> (r: bool)
    ensures
        r == is_alphanumeric_char(c),
        ('0' <= c && c <= '9') || ('a' <= c && c <= 'z') || ('A' <= c && c <= 'Z') ==> r,
        c == ' ' || c == '_' || c == '-' ==> !r,
;

/// `k` is the position of the first line break in `s`.
pub open spec fn is_first_nl(s: Seq<char>, k: int) -> bool {
    0 <= k < s.len() && s[k] == '\n' && (forall|j: int| 0 <= j < k ==> s[j] != '\n')
}

/// Whether `s` holds a line break at all.
pub open spec fn has_nl(s: Seq<char>) -> bool {
    exists|k: int| is_first_nl(s, k)
}

/// The lines of `s`, split at each line break; a trailing break yields a
/// final empty line, and a break-free text is one single line.
pub open spec fn split_lines(s: Seq<char>) -> Seq<Seq<char>>
    decreases s.len(),
{
    if !has_nl(s) {
        seq![s]
    } else {
        let k = choose|k: int| is_first_nl(s, k);
        seq![s.take(k)] + split_lines(s.skip(k + 1))
    }
}

/// `k` is the position of the first non-whitespace character of `l`.
pub open spec fn is_first_non_ws(l: Seq<char>, k: int) -> bool {
    0 <= k < l.len() && !is_whitespace_char(l[k]) && (forall|j: int|
        0 <= j < k ==> is_whitespace_char(l[j]))
}

/// A line survives stripping unless its first non-whitespace character is
/// `#`; a blank line always survives.
pub open spec fn line_kept(l: Seq<char>) -> bool {
    forall|k: int| is_first_non_ws(l, k) ==> l[k] != '#'
}

/// The lines of `ls` that survive stripping, in order.
pub open spec fn kept_lines(ls: Seq<Seq<char>>) -> Seq<Seq<char>>
    decreases ls.len(),
{
    if ls.len() == 0 {
        Seq::empty()
    } else if line_kept(ls[0]) {
        seq![ls[0]] + kept_lines(ls.drop_first())
    } else {
        kept_lines(ls.drop_first())
    }
}

/// The lines of `ls` joined with single line breaks between them.
pub open spec fn join_lines(ls: Seq<Seq<char>>) -> Seq<char>
    decreases ls.len(),
{
    if ls.len() == 0 {
        Seq::empty()
    } else if ls.len() == 1 {
        ls[0]
    } else {
        join_lines(ls.drop_last()) + seq!['\n'] + ls.last()
    }
}

/// The text of `s` with every comment line removed.
pub open spec fn spec_strip(s: Seq<char>) -> Seq<char> {
    join_lines(kept_lines(split_lines(s)))
}

/// Remove every line whose first non-whitespace character is `#`, keeping
/// the rest joined by single line breaks.
pub fn strip_comment_lines(value: &str) -> (out: String)
    ensures
        out@ == spec_strip(value@),
{
    let n = value.unicode_len();
    let mut out = String::new();
    let mut pos: usize = 0;
    let mut any_emitted: bool = false;
    let ghost mut processed: Seq<Seq<char>> = Seq::<Seq<char>>::empty();
    proof {
        assert(join_lines(processed) == Seq::<char>::empty());
        assert(value@.skip(0) =~= value@);
        assert(processed + kept_lines(split_lines(value@)) =~= kept_lines(split_lines(value@)));
    }
    loop
        invariant_except_break
            pos <= n,
            n == value@.len(),
            kept_lines(split_lines(value@)) == processed + kept_lines(
                split_lines(value@.skip(pos as int)),
            ),
            out@ == join_lines(processed),
            any_emitted == (processed.len() > 0),
        ensures
            out@ == spec_strip(value@),
        decreases n - pos,
    {
        // End of the current line: the next line break, or the end of text.
        let mut e: usize = pos;
        while e < n && value.get_char(e) != '\n'
            invariant
                pos <= e <= n,
                n == value@.len(),
                forall|j: int| pos <= j < e ==> value@[j] != '\n',
            decreases n - e,
        {
            e = e + 1;
        }
        let ghost line = value@.subrange(pos as int, e as int);
        // First non-whitespace character of the line, if any.
        let mut k: usize = pos;
        let mut found = false;
        let mut first_c = ' ';
        while k < e && !found
            invariant
                pos <= k <= e <= n,
                n == value@.len(),
                forall|j: int| pos <= j < k ==> is_whitespace_char(value@[j]),
                found ==> k < e && first_c == value@[k as int] && !is_whitespace_char(
                    value@[k as int],
                ),
            decreases e - k + (if found { 0int } else { 1int }),
        {
            let c = value.get_char(k);
            if !c.is_whitespace() {
                found = true;
                first_c = c;
            } else {
                k = k + 1;
            }
        }
        let keep = !found || first_c != '#';
        proof {
            lemma_line_kept(value@, pos as int, e as int, k as int, found, first_c);
            assert(keep == line_kept(line));
            let rest = value@.skip(pos as int);
            if e < n {
                assert(rest[e - pos] == value@[e as int]);
                assert(forall|j: int| 0 <= j < e - pos ==> rest[j] == value@[pos + j]);
                assert(is_first_nl(rest, e - pos));
                let k0 = choose|k0: int| is_first_nl(rest, k0);
                assert(k0 == e - pos) by {
                    if k0 < e - pos {
                        assert(rest[k0] == value@[pos + k0]);
                    } else if k0 > e - pos {
                        assert(rest[e - pos] != '\n');
                    }
                }
                assert(split_lines(rest) == seq![rest.take(k0)] + split_lines(rest.skip(k0 + 1)));
                assert(rest.take(e - pos) =~= line);
                assert(rest.skip(e - pos + 1) =~= value@.skip(e + 1));
                assert(split_lines(rest) == seq![line] + split_lines(value@.skip(e + 1)));
            } else {
                assert(forall|k1: int| !is_first_nl(rest, k1)) by {
                    assert(forall|k1: int| 0 <= k1 < rest.len() ==> rest[k1] == value@[pos + k1]
                        && rest[k1] != '\n');
                }
                assert(!has_nl(rest));
                assert(rest =~= line);
                assert(split_lines(rest) == seq![line]);
            }
        }
        let ghost tail = if e < n {
            kept_lines(split_lines(value@.skip(e + 1)))
        } else {
            Seq::<Seq<char>>::empty()
        };
        proof {
            let rest = value@.skip(pos as int);
            if e < n {
                let whole = seq![line] + split_lines(value@.skip(e + 1));
                assert(whole[0] == line);
                assert(whole.drop_first() =~= split_lines(value@.skip(e + 1)));
                assert(kept_lines(split_lines(rest)) == if line_kept(line) {
                    seq![line] + tail
                } else {
                    tail
                });
            } else {
                let whole = seq![line];
                assert(whole[0] == line);
                assert(whole.drop_first().len() == 0);
                assert(kept_lines(whole.drop_first()) == Seq::<Seq<char>>::empty());
                assert(kept_lines(split_lines(rest)) == if line_kept(line) {
                    seq![line] + tail
                } else {
                    tail
                });
                assert(seq![line] + tail =~= seq![line]);
            }
        }
        if keep {
            if any_emitted {
                proof {
                    reveal_strlit("\n");
                }
                out.append("\n");
            }
            out.append(value.substring_char(pos, e));
            proof {
                let joined = processed.push(line);
                assert(joined.drop_last() =~= processed);
                assert(joined.last() == line);
                if processed.len() == 0 {
                    assert(join_lines(joined) == line);
                    assert(out@ =~= join_lines(joined));
                } else {
                    assert(join_lines(joined) == join_lines(processed) + seq!['\n'] + line);
                    assert(out@ =~= join_lines(joined));
                }
                assert(joined =~= processed + seq![line]);
                processed = joined;
            }
            any_emitted = true;
        }
        proof {
            assert(kept_lines(split_lines(value@)) == processed + tail);
        }
        if e == n {
            proof {
                assert(tail.len() == 0);
                assert(processed + tail =~= processed);
            }
            break;
        }
        pos = e + 1;
    }
    out
}

/// The scan for the first non-whitespace character decides exactly whether
/// the line is kept.
proof fn lemma_line_kept(s: Seq<char>, pos: int, e: int, k: int, found: bool, first_c: char)
    requires
        0 <= pos <= e <= s.len(),
        pos <= k <= e,
        forall|j: int| pos <= j < k ==> is_whitespace_char(s[j]),
        found ==> k < e && first_c == s[k] && !is_whitespace_char(s[k]),
        !found ==> k == e,
    ensures
        (!found || first_c != '#') == line_kept(s.subrange(pos, e)),
{
    let line = s.subrange(pos, e);
    assert(forall|j: int| 0 <= j < line.len() ==> line[j] == s[pos + j]);
    if !found {
        assert(forall|m: int| 0 <= m < line.len() ==> is_whitespace_char(line[m]));
        assert(forall|m: int| !is_first_non_ws(line, m));
    } else {
        let kk = k - pos;
        assert(is_first_non_ws(line, kk));
        assert(forall|m: int| is_first_non_ws(line, m) ==> m == kk) by {
            assert forall|m: int| is_first_non_ws(line, m) implies m == kk by {
                if m < kk {
                    assert(is_whitespace_char(line[m]));
                } else if m > kk {
                    assert(is_whitespace_char(line[kk]));
                }
            }
        }
        if first_c == '#' {
            assert(line[kk] == '#');
            assert(!line_kept(line));
        } else {
            assert(line_kept(line));
        }
    }
}

} // verus!
