//! String helpers: removing every occurrence of a substring, and decimal
//! formatting and parsing of unsigned integers.

use vstd::prelude::*;

verus! {

/// The characters of `s` with every occurrence of `pat` removed, scanning
/// left to right. A removal never re-examines characters already kept, so an
/// occurrence formed by joining the text around a removed one survives; this
/// matches replacing each occurrence with the empty string in one pass.
pub open spec fn remove_all(s: Seq<char>, pat: Seq<char>) -> Seq<char>
    decreases s.len(),
{
    if pat.len() == 0 || s.len() < pat.len() {
        s
    } else if s.take(pat.len() as int) == pat {
        remove_all(s.skip(pat.len() as int), pat)
    } else {
        seq![s[0]] + remove_all(s.skip(1), pat)
    }
}

/// `pat` occurs in `s` starting at index `i`.
pub open spec fn occurs_at(s: Seq<char>, pat: Seq<char>, i: int) -> bool {
    0 <= i && i + pat.len() <= s.len() && s.subrange(i, i + pat.len() as int) == pat
}

/// `pat` occurs somewhere in `s`.
pub open spec fn contains_seq(s: Seq<char>, pat: Seq<char>) -> bool {
    exists|i: int| occurs_at(s, pat, i)
}

proof fn lemma_occurs_in_skip(s: Seq<char>, pat: Seq<char>, k: int, i: int)
    requires
        0 <= k <= s.len(),
        occurs_at(s.skip(k), pat, i),
    ensures
        occurs_at(s, pat, i + k),
{
    assert(s.subrange(i + k, i + k + pat.len() as int) =~= s.skip(k).subrange(
        i,
        i + pat.len() as int,
    ));
}

/// A string without any occurrence of the pattern is left unchanged.
pub proof fn lemma_remove_all_absent(s: Seq<char>, pat: Seq<char>)
    requires
        !contains_seq(s, pat),
    ensures
        remove_all(s, pat) == s,
    decreases s.len(),
{
    if pat.len() == 0 {
        assert(s.subrange(0, 0) =~= pat);
        assert(occurs_at(s, pat, 0));
    } else if s.len() < pat.len() {
    } else {
        assert(s.take(pat.len() as int) == s.subrange(0, pat.len() as int));
        assert(s.take(pat.len() as int) != pat) by {
            if s.take(pat.len() as int) == pat {
                assert(occurs_at(s, pat, 0));
            }
        }
        assert(!contains_seq(s.skip(1), pat)) by {
            if contains_seq(s.skip(1), pat) {
                let i = choose|i: int| occurs_at(s.skip(1), pat, i);
                lemma_occurs_in_skip(s, pat, 1, i);
            }
        }
        lemma_remove_all_absent(s.skip(1), pat);
        assert(seq![s[0]] + s.skip(1) =~= s);
    }
}

/// Removing every occurrence keeps the text before the first occurrence as it
/// stands, drops that occurrence, and goes on after it.
pub proof fn lemma_remove_all_at_first(s: Seq<char>, pat: Seq<char>, i: int)
    requires
        pat.len() > 0,
        occurs_at(s, pat, i),
        forall|j: int| 0 <= j < i ==> !occurs_at(s, pat, j),
    ensures
        remove_all(s, pat) == s.take(i) + remove_all(s.skip(i + pat.len() as int), pat),
    decreases s.len(),
{
    if i == 0 {
        assert(s.take(pat.len() as int) == s.subrange(0, pat.len() as int));
        assert(s.take(0) + remove_all(s.skip(pat.len() as int), pat) =~= remove_all(
            s.skip(pat.len() as int),
            pat,
        ));
    } else {
        assert(pat.len() <= s.len());
        assert(s.take(pat.len() as int) == s.subrange(0, pat.len() as int));
        assert(s.take(pat.len() as int) != pat) by {
            if s.take(pat.len() as int) == pat {
                assert(occurs_at(s, pat, 0));
            }
        }
        assert(occurs_at(s.skip(1), pat, i - 1)) by {
            assert(s.skip(1).subrange(i - 1, i - 1 + pat.len() as int) =~= s.subrange(
                i,
                i + pat.len() as int,
            ));
        }
        assert(forall|j: int| 0 <= j < i - 1 ==> !occurs_at(s.skip(1), pat, j)) by {
            assert forall|j: int| 0 <= j < i - 1 implies !occurs_at(s.skip(1), pat, j) by {
                if occurs_at(s.skip(1), pat, j) {
                    lemma_occurs_in_skip(s, pat, 1, j);
                }
            }
        }
        lemma_remove_all_at_first(s.skip(1), pat, i - 1);
        assert(s.skip(1).take(i - 1) =~= s.subrange(1, i));
        assert(s.skip(1).skip(i - 1 + pat.len() as int) =~= s.skip(i + pat.len() as int));
        assert(seq![s[0]] + (s.subrange(1, i) + remove_all(s.skip(i + pat.len() as int), pat))
            =~= s.take(i) + remove_all(s.skip(i + pat.len() as int), pat));
    }
}

/// Whether `pat` occurs in `s` starting at character index `i`.
fn matches_at(s: &str, i: usize, pat: &str) -> (r: bool)
    requires
        i + pat@.len() <= s@.len(),
        s@.len() <= usize::MAX,
    ensures
        r == (s@.subrange(i as int, i + pat@.len() as int) == pat@),
{
    let pn: usize = pat.unicode_len();
    let mut j: usize = 0;
    while j < pn
        invariant
            0 <= j <= pn,
            pn == pat@.len(),
            i + pn <= s@.len() <= usize::MAX,
            forall|k: int| 0 <= k < j ==> s@[i + k] == pat@[k],
        decreases pn - j,
    {
        if s.get_char(i + j) != pat.get_char(j) {
            proof {
                assert(s@.subrange(i as int, i + pat@.len() as int)[j as int] == s@[i + j]);
            }
            return false;
        }
        j += 1;
    }
    proof {
        assert(s@.subrange(i as int, i + pat@.len() as int) =~= pat@);
    }
    true
}

/// Remove every occurrence of `pat` from `s`, scanning left to right.
pub fn remove_all_str(s: &str, pat: &str) -> (r: String)
    requires
        pat@.len() >= 1,
    ensures
        r@ == remove_all(s@, pat@),
{
    let n: usize = s.unicode_len();
    let pn: usize = pat.unicode_len();
    let mut r = String::new();
    let mut i: usize = 0;
    proof {
        assert(s@.skip(0) =~= s@);
        assert(r@ + remove_all(s@.skip(0), pat@) =~= remove_all(s@, pat@));
    }
    while i < n
        invariant
            0 <= i <= n,
            n == s@.len(),
            pn == pat@.len(),
            pn >= 1,
            r@ + remove_all(s@.skip(i as int), pat@) == remove_all(s@, pat@),
        decreases n - i,
    {
        if pn <= n - i && matches_at(s, i, pat) {
            proof {
                assert(s@.skip(i as int).take(pn as int) =~= s@.subrange(i as int, i + pn));
                assert(s@.skip(i as int).skip(pn as int) =~= s@.skip(i + pn));
                assert(remove_all(s@.skip(i as int), pat@) == remove_all(s@.skip(i + pn), pat@));
            }
            i += pn;
        } else {
            let c = s.substring_char(i, i + 1);
            proof {
                assert(s@.skip(i as int)[0] == s@[i as int]);
                assert(s@.skip(i as int).skip(1) =~= s@.skip(i + 1));
                if s@.skip(i as int).len() >= pn {
                    assert(s@.skip(i as int).take(pn as int) =~= s@.subrange(i as int, i + pn));
                }
                assert(remove_all(s@.skip(i as int), pat@) == seq![s@[i as int]] + remove_all(
                    s@.skip(i + 1),
                    pat@,
                )) by {
                    if s@.skip(i as int).len() < pn {
                        assert(remove_all(s@.skip(i as int), pat@) == s@.skip(i as int));
                        assert(remove_all(s@.skip(i + 1), pat@) == s@.skip(i + 1));
                        assert(s@.skip(i as int) =~= seq![s@[i as int]] + s@.skip(i + 1));
                    }
                }
                assert(c@ =~= seq![s@[i as int]]);
                assert((r@ + c@) + remove_all(s@.skip(i + 1), pat@) =~= r@ + (seq![s@[i as int]]
                    + remove_all(s@.skip(i + 1), pat@)));
            }
            r.append(c);
            i += 1;
        }
    }
    proof {
        assert(s@.skip(n as int) =~= Seq::<char>::empty());
        assert(remove_all(Seq::<char>::empty(), pat@) == Seq::<char>::empty());
        assert(r@ + Seq::<char>::empty() =~= r@);
    }
    r
}

/// The decimal digit character for a value below ten.
pub open spec fn dec_digit_char(d: nat) -> char {
    if d == 0 {
        '0'
    } else if d == 1 {
        '1'
    } else if d == 2 {
        '2'
    } else if d == 3 {
        '3'
    } else if d == 4 {
        '4'
    } else if d == 5 {
        '5'
    } else if d == 6 {
        '6'
    } else if d == 7 {
        '7'
    } else if d == 8 {
        '8'
    } else {
        '9'
    }
}

/// The decimal digits of `n`, most significant first, with no leading zero
/// except for `n == 0` itself.
pub open spec fn dec_digits(n: nat) -> Seq<char>
    decreases n,
{
    if n < 10 {
        seq![dec_digit_char(n)]
    } else {
        dec_digits(n / 10) + seq![dec_digit_char(n % 10)]
    }
}

fn dec_digit_to_str(d: u64) -> (r: &'static str)
    requires
        d < 10,
    ensures
        r@ == seq![dec_digit_char(d as nat)],
{
    proof {
        reveal_strlit("0");
        reveal_strlit("1");
        reveal_strlit("2");
        reveal_strlit("3");
        reveal_strlit("4");
        reveal_strlit("5");
        reveal_strlit("6");
        reveal_strlit("7");
        reveal_strlit("8");
        reveal_strlit("9");
    }
    let r: &'static str = if d == 0 {
        "0"
    } else if d == 1 {
        "1"
    } else if d == 2 {
        "2"
    } else if d == 3 {
        "3"
    } else if d == 4 {
        "4"
    } else if d == 5 {
        "5"
    } else if d == 6 {
        "6"
    } else if d == 7 {
        "7"
    } else if d == 8 {
        "8"
    } else {
        "9"
    };
    proof {
        assert(r@ =~= seq![dec_digit_char(d as nat)]);
    }
    r
}

/// Render `n` in decimal.
pub fn u64_to_dec(n: u64) -> (r: String)
    ensures
        r@ == dec_digits(n as nat),
    decreases n,
{
    if n < 10 {
        String::from_str(dec_digit_to_str(n))
    } else {
        let mut s = u64_to_dec(n / 10);
        s.append(dec_digit_to_str(n % 10));
        s
    }
}

/// `c` is a decimal digit character.
pub open spec fn is_dec_digit(c: char) -> bool {
    '0' as int <= c as int <= '9' as int
}

/// The numeric value of a digit character.
pub open spec fn dec_digit_val(c: char) -> nat {
    (c as int - '0' as int) as nat
}

/// Every character of `s` is a decimal digit.
pub open spec fn all_dec_digits(s: Seq<char>) -> bool {
    forall|i: int| 0 <= i < s.len() ==> is_dec_digit(s[i])
}

/// The value of a digit string read in base ten.
pub open spec fn dec_val(s: Seq<char>) -> nat
    decreases s.len(),
{
    if s.len() == 0 {
        0
    } else {
        dec_val(s.drop_last()) * 10 + dec_digit_val(s.last())
    }
}

proof fn lemma_dec_val_prefix_le(s: Seq<char>, i: int)
    requires
        0 <= i <= s.len(),
    ensures
        dec_val(s.take(i)) <= dec_val(s),
    decreases s.len() - i,
{
    if i == s.len() {
        assert(s.take(i) =~= s);
    } else {
        assert(s.take(i + 1).drop_last() =~= s.take(i));
        assert(s.take(i + 1).last() == s[i]);
        assert(dec_val(s.take(i + 1)) == dec_val(s.take(i)) * 10 + dec_digit_val(s[i]));
        lemma_dec_val_prefix_le(s, i + 1);
    }
}

/// Parse a decimal digit string. The result is the value of `s` exactly when
/// `s` is non-empty, all digits, and its value fits in a `u64`.
pub fn parse_u64(s: &str) -> (r: Option<u64>)
    ensures
        match r {
            Some(n) => s@.len() > 0 && all_dec_digits(s@) && dec_val(s@) <= u64::MAX && n
                == dec_val(s@),
            None => s@.len() == 0 || !all_dec_digits(s@) || dec_val(s@) > u64::MAX,
        },
{
    let n: usize = s.unicode_len();
    if n == 0 {
        return None;
    }
    let mut acc: u64 = 0;
    let mut i: usize = 0;
    proof {
        assert(s@.take(0) =~= Seq::<char>::empty());
    }
    while i < n
        invariant
            0 <= i <= n,
            n == s@.len(),
            all_dec_digits(s@.take(i as int)),
            acc == dec_val(s@.take(i as int)),
        decreases n - i,
    {
        let c = s.get_char(i);
        let u: u32 = c as u32;
        if u < 48 || u > 57 {
            proof {
                assert(!is_dec_digit(s@[i as int]));
            }
            return None;
        }
        let d: u64 = (u - 48) as u64;
        proof {
            assert(s@.take(i + 1).drop_last() =~= s@.take(i as int));
            assert(s@.take(i + 1).last() == s@[i as int]);
            assert(dec_val(s@.take(i + 1)) == dec_val(s@.take(i as int)) * 10 + dec_digit_val(
                s@[i as int],
            ));
            assert(d == dec_digit_val(s@[i as int]));
        }
        match acc.checked_mul(10) {
            Some(m) => match m.checked_add(d) {
                Some(v) => {
                    acc = v;
                },
                None => {
                    proof {
                        lemma_dec_val_prefix_le(s@, i + 1);
                    }
                    return None;
                },
            },
            None => {
                proof {
                    lemma_dec_val_prefix_le(s@, i + 1);
                }
                return None;
            },
        }
        i += 1;
    }
    proof {
        assert(s@.take(n as int) =~= s@);
    }
    Some(acc)
}

} // verus!
