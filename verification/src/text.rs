//! Small verified text helpers: string comparison, joining lines, and
//! decimal rendering of integers.

use vstd::prelude::*;

verus! {

/// Character-by-character string equality.
pub fn str_eq(a: &str, b: &str) -> (r: bool)
    ensures
        r == (a@ == b@),
{
    let an = a.unicode_len();
    let bn = b.unicode_len();
    if an != bn {
        assert(a@ != b@);
        return false;
    }
    let mut i: usize = 0;
    while i < an
        invariant
            an == a@.len() && an == b@.len(),
            0 <= i <= an,
            forall|j: int| 0 <= j < i ==> a@[j] == b@[j],
        decreases an - i,
    {
        if a.get_char(i) != b.get_char(i) {
            return false;
        }
        i = i + 1;
    }
    proof {
        assert(a@ =~= b@);
    }
    true
}

/// The digit character for one decimal digit.
pub open spec fn digit_char(d: nat) -> char {
    if d == 0 {
        '0'
    } else if d == 1 {
        '1'
    } else if d == 2 {
        '2'
    } else if d == 3 {
        '3'
    } else if d == 4 {
        '4'
    } else if d == 5 {
        '5'
    } else if d == 6 {
        '6'
    } else if d == 7 {
        '7'
    } else if d == 8 {
        '8'
    } else {
        '9'
    }
}

/// The decimal spelling of `n`: most significant digit first, no sign, no
/// leading zeroes (a single `'0'` for zero).
pub open spec fn dec_str(n: nat) -> Seq<char>
    decreases n,
{
    if n < 10 {
        seq![digit_char(n)]
    } else {
        dec_str(n / 10).push(digit_char(n % 10))
    }
}

fn digit_str(d: u64) -> (s: &'static str)
    requires
        d < 10,
    ensures
        s@ =~= seq![digit_char(d as nat)],
{
    proof {
        reveal_strlit("0");
        reveal_strlit("1");
        reveal_strlit("2");
        reveal_strlit("3");
        reveal_strlit("4");
        reveal_strlit("5");
        reveal_strlit("6");
        reveal_strlit("7");
        reveal_strlit("8");
        reveal_strlit("9");
    }
    if d == 0 {
        "0"
    } else if d == 1 {
        "1"
    } else if d == 2 {
        "2"
    } else if d == 3 {
        "3"
    } else if d == 4 {
        "4"
    } else if d == 5 {
        "5"
    } else if d == 6 {
        "6"
    } else if d == 7 {
        "7"
    } else if d == 8 {
        "8"
    } else {
        "9"
    }
}

/// The digits of `n`, least significant first.
spec fn rev_digits(v: Seq<u64>) -> Seq<char> {
    Seq::new(v.len(), |i: int| digit_char(v[v.len() - 1 - i] as nat))
}

/// Renders `n` in decimal.
pub fn u64_to_string(n: u64) -> (s: String)
    ensures
        s@ == dec_str(n as nat),
{
    let mut v: Vec<u64> = Vec::new();
    let mut m: u64 = n;
    loop
        invariant_except_break
            if v@.len() == 0 {
                m == n
            } else {
                m > 0 && dec_str(n as nat) == dec_str(m as nat) + rev_digits(v@)
            },
        invariant
            m <= n,
            forall|j: int| 0 <= j < v@.len() ==> v@[j] < 10,
        ensures
            v@.len() > 0,
            dec_str(n as nat) == rev_digits(v@),
        decreases m + (if v@.len() == 0 { 1int } else { 0int }),
    {
        let ghost old_m = m as nat;
        let ghost old_v = v@;
        let d = m % 10;
        v.push(d);
        m = m / 10;
        proof {
            assert(rev_digits(v@) =~= seq![digit_char(d as nat)] + rev_digits(old_v));
            if old_m >= 10 {
                assert(dec_str(old_m) == dec_str(old_m / 10).push(digit_char(old_m % 10)));
                assert(dec_str(old_m / 10).push(digit_char(old_m % 10)) =~= dec_str(old_m / 10)
                    + seq![digit_char(d as nat)]);
            } else {
                assert(dec_str(old_m) =~= seq![digit_char(d as nat)]);
            }
            if old_v.len() == 0 {
                if m > 0 {
                    assert(dec_str(n as nat) =~= dec_str(m as nat) + rev_digits(v@));
                } else {
                    assert(dec_str(n as nat) =~= rev_digits(v@));
                }
            } else {
                if m > 0 {
                    assert(dec_str(n as nat) =~= dec_str(m as nat) + rev_digits(v@));
                } else {
                    assert(dec_str(n as nat) =~= rev_digits(v@));
                }
            }
        }
        if m == 0 {
            break;
        }
    }
    let mut s = String::new();
    let mut i: usize = v.len();
    while i > 0
        invariant
            i <= v@.len(),
            forall|j: int| 0 <= j < v@.len() ==> v@[j] < 10,
            s@ =~= rev_digits(v@).take(v@.len() - i),
        decreases i,
    {
        i = i - 1;
        let d = digit_str(v[i]);
        s.append(d);
        proof {
            let r = rev_digits(v@);
            let k = v@.len() - i - 1;
            assert(r.take(k + 1).drop_last() =~= r.take(k));
            assert(r.take(k + 1).last() == digit_char(v@[i as int] as nat));
            assert(r.take(k + 1) =~= r.take(k).push(digit_char(v@[i as int] as nat)));
            assert(s@ =~= r.take(v@.len() - i));
        }
    }
    proof {
        assert(rev_digits(v@).take(v@.len() as int) =~= rev_digits(v@));
    }
    s
}

/// `parts` joined with `sep` between neighbours.
pub open spec fn spec_join(parts: Seq<Seq<char>>, sep: Seq<char>) -> Seq<char>
    decreases parts.len(),
{
    if parts.len() == 0 {
        Seq::empty()
    } else if parts.len() == 1 {
        parts[0]
    } else {
        spec_join(parts.drop_last(), sep) + sep + parts.last()
    }
}

/// Joins strings with a separator, as `[str]::join` does.
pub fn join_strings(parts: &Vec<String>, sep: &str) -> (r: String)
    ensures
        r@ == spec_join(parts.deep_view(), sep@),
{
    let mut r = String::new();
    let mut i: usize = 0;
    while i < parts.len()
        invariant
            0 <= i <= parts@.len(),
            parts.deep_view().len() == parts@.len(),
            forall|j: int| 0 <= j < parts@.len() ==> parts.deep_view()[j] == parts@[j]@,
            r@ =~= spec_join(parts.deep_view().take(i as int), sep@),
        decreases parts@.len() - i,
    {
        if i > 0 {
            s_append(&mut r, sep);
        }
        s_append(&mut r, parts[i].as_str());
        proof {
            let dv = parts.deep_view();
            assert(dv.take(i + 1).drop_last() =~= dv.take(i as int));
            assert(dv.take(i + 1).last() == dv[i as int]);
            if i == 0 {
                assert(r@ =~= spec_join(dv.take(i + 1), sep@));
            }
        }
        i = i + 1;
    }
    proof {
        assert(parts.deep_view().take(parts@.len() as int) =~= parts.deep_view());
    }
    r
}

/// Appends `t` to `s`; a named front for `String::append`.
pub fn s_append(s: &mut String, t: &str)
    ensures
        final(s)@ == old(s)@ + t@,
{
    s.append(t);
}

} // verus!
