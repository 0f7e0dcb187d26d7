//! Verified string primitives used by the matchers.
//!
//! All operations are specified over the character sequences (`Seq<char>`)
//! that Verus assigns to `&str` and `String` values. Case folding is
//! ASCII-only: exactly the letters `A`..`Z` are mapped to their lowercase
//! counterparts.

use vstd::prelude::*;

verus! {

use vstd::string::StrSliceExecFns;
use vstd::string::StringExecFns;

/// ASCII-only lowercase folding of a single character.
pub open spec fn lower_char(c: char) -> char {
    if 65 <= c as u32 && c as u32 <= 90 {
        (((c as u8) + 32) as char)
    } else {
        c
    }
}

/// ASCII-only lowercase folding of a character sequence.
pub open spec fn lower_seq(s: Seq<char>) -> Seq<char> {
    s.map_values(|c: char| lower_char(c))
}

/// The pattern `p` occurs in `s` starting at position `i`.
pub open spec fn matches_at(s: Seq<char>, p: Seq<char>, i: int) -> bool {
    0 <= i && i + p.len() <= s.len() && s.subrange(i, i + p.len()) == p
}

/// The pattern `p` occurs somewhere in `s`.
pub open spec fn contains_seq(s: Seq<char>, p: Seq<char>) -> bool {
    exists|i: int| matches_at(s, p, i)
}

/// ASCII lowercase folding of one character.
pub fn to_lower_char(c: char) -> (r: char)
    ensures
        r == lower_char(c),
{
    let u = c as u32;
    if 65 <= u && u <= 90 {
        ((c as u8) + 32) as char
    } else {
        c
    }
}

/// Appends one character to a string.
///
/// Relies on `String::push`, which appends the given `char` to the end of
/// the string.
#[verifier::external_body]
fn push_char(s: &mut String, c: char)
    ensures
        final(s)@ == old(s)@.push(c),
{
    s.push(c);
}

/// ASCII-lowercases a string, leaving every character outside `A`..`Z`
/// unchanged.
pub fn str_to_lower(s: &str) -> (r: String)
    ensures
        r@ == lower_seq(s@),
{
    let n = s.unicode_len();
    let mut out = String::new();
    let mut i: usize = 0;
    while i < n
        invariant
            n == s@.len(),
            i <= n,
            out@ == lower_seq(s@.subrange(0, i as int)),
        decreases n - i,
    {
        let c = to_lower_char(s.get_char(i));
        push_char(&mut out, c);
        i += 1;
        proof {
            assert(s@.subrange(0, i as int) =~= s@.subrange(0, i - 1).push(s@[i - 1]));
            assert(lower_seq(s@.subrange(0, i as int)) =~= lower_seq(
                s@.subrange(0, i - 1),
            ).push(lower_char(s@[i - 1])));
        }
    }
    proof {
        assert(s@.subrange(0, n as int) =~= s@);
    }
    out
}

/// Tests whether `p`, folded with `fold`, occurs at position `i` of `s`,
/// folded with `fold`.
fn chars_match_at(s: &str, p: &str, i: usize, fold: bool) -> (r: bool)
    requires
        i + p@.len() <= s@.len(),
    ensures
        fold ==> r == matches_at(lower_seq(s@), lower_seq(p@), i as int),
        !fold ==> r == matches_at(s@, p@, i as int),
{
    let sn = s.unicode_len();
    let pn = p.unicode_len();
    let mut j: usize = 0;
    while j < pn
        invariant
            sn == s@.len(),
            pn == p@.len(),
            i + pn <= s@.len(),
            j <= pn,
            fold ==> forall|k: int| 0 <= k < j ==> lower_char(s@[i + k]) == lower_char(p@[k]),
            !fold ==> forall|k: int| 0 <= k < j ==> s@[i + k] == p@[k],
        decreases pn - j,
    {
        let mut sc = s.get_char(i + j);
        let mut pc = p.get_char(j);
        if fold {
            sc = to_lower_char(sc);
            pc = to_lower_char(pc);
        }
        if sc as u32 != pc as u32 {
            proof {
                if fold {
                    assert(lower_char(s@[i + j]) != lower_char(p@[j as int]));
                    assert(lower_seq(s@)[i + j] != lower_seq(p@)[j as int]);
                    assert(!matches_at(lower_seq(s@), lower_seq(p@), i as int)) by {
                        if matches_at(lower_seq(s@), lower_seq(p@), i as int) {
                            assert(lower_seq(s@).subrange(
                                i as int,
                                i + lower_seq(p@).len(),
                            )[j as int] == lower_seq(p@)[j as int]);
                        }
                    }
                } else {
                    assert(!matches_at(s@, p@, i as int)) by {
                        if matches_at(s@, p@, i as int) {
                            assert(s@.subrange(i as int, i + p@.len())[j as int] == p@[j as int]);
                        }
                    }
                }
            }
            return false;
        }
        j += 1;
    }
    proof {
        if fold {
            assert(lower_seq(s@).subrange(i as int, i + lower_seq(p@).len()) =~= lower_seq(p@));
        } else {
            assert(s@.subrange(i as int, i + p@.len()) =~= p@);
        }
    }
    true
}

/// Character-for-character equality of two strings.
pub fn str_eq(a: &str, b: &str) -> (r: bool)
    ensures
        r == (a@ == b@),
{
    let an = a.unicode_len();
    let bn = b.unicode_len();
    if an != bn {
        proof {
            assert(a@ != b@) by {
                assert(a@.len() != b@.len());
            }
        }
        return false;
    }
    let r = chars_match_at(a, b, 0, false);
    proof {
        if r {
            assert(a@.subrange(0, b@.len() as int) =~= a@);
        } else {
            if a@ == b@ {
                assert(a@.subrange(0, b@.len() as int) =~= b@);
            }
        }
    }
    r
}

/// Equality of two strings under ASCII case folding.
pub fn str_eq_ignore_case(a: &str, b: &str) -> (r: bool)
    ensures
        r == (lower_seq(a@) == lower_seq(b@)),
{
    let an = a.unicode_len();
    let bn = b.unicode_len();
    if an != bn {
        proof {
            assert(lower_seq(a@) != lower_seq(b@)) by {
                assert(lower_seq(a@).len() != lower_seq(b@).len());
            }
        }
        return false;
    }
    let r = chars_match_at(a, b, 0, true);
    proof {
        if r {
            assert(lower_seq(a@).subrange(0, lower_seq(b@).len() as int) =~= lower_seq(a@));
        } else {
            if lower_seq(a@) == lower_seq(b@) {
                assert(lower_seq(a@).subrange(0, lower_seq(b@).len() as int) =~= lower_seq(b@));
            }
        }
    }
    r
}

/// Tests whether `s` starts with `p`. When `fold` is set, both sides are
/// folded to ASCII lowercase first.
pub fn str_starts_with(s: &str, p: &str, fold: bool) -> (r: bool)
    ensures
        fold ==> r == lower_seq(p@).is_prefix_of(lower_seq(s@)),
        !fold ==> r == p@.is_prefix_of(s@),
{
    let sn = s.unicode_len();
    let pn = p.unicode_len();
    if pn > sn {
        return false;
    }
    let r = chars_match_at(s, p, 0, fold);
    proof {
        if fold {
            assert(r == lower_seq(p@).is_prefix_of(lower_seq(s@))) by {
                assert(matches_at(lower_seq(s@), lower_seq(p@), 0) == lower_seq(
                    p@,
                ).is_prefix_of(lower_seq(s@)));
            }
        } else {
            assert(matches_at(s@, p@, 0) == p@.is_prefix_of(s@));
        }
    }
    r
}

/// Tests whether `s` ends with `p`. When `fold` is set, both sides are
/// folded to ASCII lowercase first.
pub fn str_ends_with(s: &str, p: &str, fold: bool) -> (r: bool)
    ensures
        fold ==> r == lower_seq(p@).is_suffix_of(lower_seq(s@)),
        !fold ==> r == p@.is_suffix_of(s@),
{
    let sn = s.unicode_len();
    let pn = p.unicode_len();
    if pn > sn {
        return false;
    }
    let r = chars_match_at(s, p, sn - pn, fold);
    proof {
        let ls = lower_seq(s@);
        let lp = lower_seq(p@);
        if fold {
            assert(r == lp.is_suffix_of(ls)) by {
                assert(ls.subrange(ls.len() - lp.len(), ls.len() as int) =~= ls.subrange(
                    sn - pn,
                    sn - pn + lp.len(),
                ));
            }
        } else {
            assert(r == p@.is_suffix_of(s@)) by {
                assert(s@.subrange(s@.len() - p@.len(), s@.len() as int) =~= s@.subrange(
                    sn - pn,
                    sn - pn + p@.len(),
                ));
            }
        }
    }
    r
}

/// Tests whether `p` occurs anywhere in `s`. When `fold` is set, both sides
/// are folded to ASCII lowercase first.
pub fn str_contains(s: &str, p: &str, fold: bool) -> (r: bool)
    ensures
        fold ==> r == contains_seq(lower_seq(s@), lower_seq(p@)),
        !fold ==> r == contains_seq(s@, p@),
{
    let sn = s.unicode_len();
    let pn = p.unicode_len();
    if pn > sn {
        proof {
            assert(!contains_seq(s@, p@));
            assert(!contains_seq(lower_seq(s@), lower_seq(p@)));
        }
        return false;
    }
    let limit = sn - pn;
    let mut i: usize = 0;
    loop
        invariant
            sn == s@.len(),
            pn == p@.len(),
            pn <= sn,
            limit == sn - pn,
            i <= limit,
            fold ==> forall|k: int| 0 <= k < i ==> !matches_at(lower_seq(s@), lower_seq(p@), k),
            !fold ==> forall|k: int| 0 <= k < i ==> !matches_at(s@, p@, k),
        decreases limit - i,
    {
        if chars_match_at(s, p, i, fold) {
            proof {
                if fold {
                    assert(matches_at(lower_seq(s@), lower_seq(p@), i as int));
                } else {
                    assert(matches_at(s@, p@, i as int));
                }
            }
            return true;
        }
        if i == limit {
            proof {
                if fold {
                    assert(!contains_seq(lower_seq(s@), lower_seq(p@))) by {
                        if contains_seq(lower_seq(s@), lower_seq(p@)) {
                            let k = choose|k: int| matches_at(lower_seq(s@), lower_seq(p@), k);
                            assert(k <= limit);
                            assert(k < i || k == i);
                        }
                    }
                } else {
                    assert(!contains_seq(s@, p@)) by {
                        if contains_seq(s@, p@) {
                            let k = choose|k: int| matches_at(s@, p@, k);
                            assert(k <= limit);
                            assert(k < i || k == i);
                        }
                    }
                }
            }
            return false;
        }
        i += 1;
    }
}

/// Lexicographic order on character sequences, by Unicode scalar value.
pub open spec fn lex_le(a: Seq<char>, b: Seq<char>) -> bool
    decreases a.len(),
{
    if a.len() == 0 {
        true
    } else if b.len() == 0 {
        false
    } else if (a[0] as u32) < (b[0] as u32) {
        true
    } else if (a[0] as u32) > (b[0] as u32) {
        false
    } else {
        lex_le(a.skip(1), b.skip(1))
    }
}

/// The order is total: any two sequences are comparable.
pub proof fn lemma_lex_le_total(a: Seq<char>, b: Seq<char>)
    ensures
        lex_le(a, b) || lex_le(b, a),
    decreases a.len(),
{
    if a.len() > 0 && b.len() > 0 && (a[0] as u32) == (b[0] as u32) {
        lemma_lex_le_total(a.skip(1), b.skip(1));
    }
}

/// Lexicographic comparison of two strings.
pub fn str_lex_le(a: &str, b: &str) -> (r: bool)
    ensures
        r == lex_le(a@, b@),
{
    let an = a.unicode_len();
    let bn = b.unicode_len();
    let mut i: usize = 0;
    proof {
        assert(a@.skip(0) =~= a@);
        assert(b@.skip(0) =~= b@);
    }
    loop
        invariant
            an == a@.len(),
            bn == b@.len(),
            i <= an,
            i <= bn,
            lex_le(a@, b@) == lex_le(a@.skip(i as int), b@.skip(i as int)),
            lex_le(b@, a@) == lex_le(b@.skip(i as int), a@.skip(i as int)),
        decreases an - i,
    {
        if i == an {
            return true;
        }
        if i == bn {
            return false;
        }
        let ca = a.get_char(i) as u32;
        let cb = b.get_char(i) as u32;
        proof {
            assert(a@.skip(i as int)[0] == a@[i as int]);
            assert(b@.skip(i as int)[0] == b@[i as int]);
        }
        if ca < cb {
            return true;
        }
        if ca > cb {
            return false;
        }
        proof {
            assert(a@.skip(i as int).skip(1) =~= a@.skip(i + 1));
            assert(b@.skip(i as int).skip(1) =~= b@.skip(i + 1));
        }
        i += 1;
    }
}

/// The decimal digit character for `d`.
pub open spec fn digit_char(d: int) -> char {
    ((48 + d) as u8) as char
}

/// The decimal rendering of a natural number.
pub open spec fn dec_str(n: nat) -> Seq<char>
    decreases n,
{
    if n < 10 {
        seq![digit_char(n as int)]
    } else {
        dec_str(n / 10) + seq![digit_char((n % 10) as int)]
    }
}

/// The string holding one decimal digit.
fn digit_str(d: usize) -> (r: &'static str)
    requires
        d < 10,
    ensures
        r@ == seq![digit_char(d as int)],
{
    proof {
        reveal_strlit("0");
        reveal_strlit("1");
        reveal_strlit("2");
        reveal_strlit("3");
        reveal_strlit("4");
        reveal_strlit("5");
        reveal_strlit("6");
        reveal_strlit("7");
        reveal_strlit("8");
        reveal_strlit("9");
    }
    let r = match d {
        0 => "0",
        1 => "1",
        2 => "2",
        3 => "3",
        4 => "4",
        5 => "5",
        6 => "6",
        7 => "7",
        8 => "8",
        _ => "9",
    };
    proof {
        assert(r@ =~= seq![digit_char(d as int)]);
    }
    r
}

/// The decimal rendering of an integer, with a leading minus sign when
/// negative.
pub open spec fn dec_str_int(n: int) -> Seq<char> {
    if n < 0 {
        seq!['-'] + dec_str((-n) as nat)
    } else {
        dec_str(n as nat)
    }
}

/// Renders a signed number in decimal.
pub fn i64_to_string(n: i64) -> (r: String)
    ensures
        r@ == dec_str_int(n as int),
{
    if n >= 0 {
        let r = u64_to_string(n as u64);
        proof {
            assert(r@ =~= dec_str_int(n as int));
        }
        r
    } else {
        let mag: u64 = ((-(n + 1)) as u64) + 1;
        let mut out = "-".to_owned();
        out.append(u64_to_string(mag).as_str());
        proof {
            assert(mag == -(n as int));
            assert("-"@ =~= seq!['-']) by {
                reveal_strlit("-");
            }
            assert(out@ =~= dec_str_int(n as int));
        }
        out
    }
}

/// Renders an unsigned number in decimal.
pub fn u64_to_string(n: u64) -> (r: String)
    ensures
        r@ == dec_str(n as nat),
    decreases n,
{
    if n < 10 {
        digit_str((n % 10) as usize).to_owned()
    } else {
        let head = u64_to_string(n / 10);
        let tail = digit_str((n % 10) as usize);
        let r = head.concat(tail);
        proof {
            assert(r@ =~= dec_str(n as nat));
        }
        r
    }
}

/// Renders a number in decimal.
pub fn usize_to_string(n: usize) -> (r: String)
    ensures
        r@ == dec_str(n as nat),
    decreases n,
{
    if n < 10 {
        digit_str(n).to_owned()
    } else {
        let head = usize_to_string(n / 10);
        let tail = digit_str(n % 10);
        let r = head.concat(tail);
        proof {
            assert(r@ =~= dec_str(n as nat));
        }
        r
    }
}

} // verus!
