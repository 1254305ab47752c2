//! Byte-size units and their power-of-1024 multipliers.

use vstd::prelude::*;

verus! {

/// A byte-size unit token of a limit string, ordered KB < MB < GB < TB.
#[derive(Clone, Copy, Debug, PartialEq, Eq, Structural)]
pub enum ByteUnit {
    KB,
    MB,
    GB,
    TB,
}

/// 1024 raised to `k`.
pub open spec fn pow1024(k: nat) -> nat
    decreases k,
{
    if k == 0 {
        1
    } else {
        1024 * pow1024((k - 1) as nat)
    }
}

pub proof fn lemma_pow1024_pos(k: nat)
    ensures
        pow1024(k) >= 1,
    decreases k,
{
    if k > 0 {
        lemma_pow1024_pos((k - 1) as nat);
    }
}

/// The exponent a unit stands for: KB is 1024^1, MB 1024^2, GB 1024^3, TB 1024^4.
pub open spec fn unit_exp(u: ByteUnit) -> nat {
    match u {
        ByteUnit::KB => 1,
        ByteUnit::MB => 2,
        ByteUnit::GB => 3,
        ByteUnit::TB => 4,
    }
}

/// How many bytes one of `u` is.
pub open spec fn spec_bytes_per_unit(u: ByteUnit) -> nat {
    match u {
        ByteUnit::KB => 1024,
        ByteUnit::MB => 1048576,
        ByteUnit::GB => 1073741824,
        ByteUnit::TB => 1099511627776,
    }
}

/// Each unit's multiplier is 1024 to its exponent.
pub proof fn lemma_bytes_per_unit_is_pow1024(u: ByteUnit)
    ensures
        spec_bytes_per_unit(u) == pow1024(unit_exp(u)),
{
    reveal_with_fuel(pow1024, 5);
}

/// The multipliers grow strictly along KB < MB < GB < TB.
pub proof fn lemma_bytes_per_unit_monotonic(a: ByteUnit, b: ByteUnit)
    requires
        unit_exp(a) < unit_exp(b),
    ensures
        spec_bytes_per_unit(a) < spec_bytes_per_unit(b),
{
}

/// The number of bytes one of `u` is.
pub fn bytes_per_unit(u: ByteUnit) -> (r: u64)
    ensures
        r == spec_bytes_per_unit(u),
        r == pow1024(unit_exp(u)),
{
    proof {
        lemma_bytes_per_unit_is_pow1024(u);
    }
    match u {
        ByteUnit::KB => 1024,
        ByteUnit::MB => 1048576,
        ByteUnit::GB => 1073741824,
        ByteUnit::TB => 1099511627776,
    }
}

/// What `size_conversion` answers for a given token: the exponent `n` with
/// 1024^n bytes per unit, or 0 for a token that is no known byte-size unit.
pub open spec fn spec_size_conversion(s: Seq<char>) -> u32 {
    if s.len() == 2 && s[1] == 'B' {
        if s[0] == 'K' {
            1u32
        } else if s[0] == 'M' {
            2u32
        } else if s[0] == 'G' {
            3u32
        } else if s[0] == 'T' {
            4u32
        } else {
            0u32
        }
    } else {
        0u32
    }
}

/// Maps an upper-case byte-size token to its power-of-1024 exponent:
/// `"KB"` to 1, `"MB"` to 2, `"GB"` to 3, `"TB"` to 4. Any other token maps
/// to 0, meaning the token names no byte-size unit; the limit parser rejects
/// such tokens before any conversion is asked for.
pub fn size_conversion(size_string: &String) -> (r: u32)
    ensures
        r == spec_size_conversion(size_string@),
        r == 0 <==> spec_unit_of_upper_token(size_string@) is None,
        forall|u: ByteUnit|
            spec_unit_of_upper_token(size_string@) == Some(u) ==> r == unit_exp(u),
{
    let s = size_string.as_str();
    if s.unicode_len() == 2 && s.get_char(1) == 'B' {
        let c = s.get_char(0);
        if c == 'K' {
            1
        } else if c == 'M' {
            2
        } else if c == 'G' {
            3
        } else if c == 'T' {
            4
        } else {
            0
        }
    } else {
        0
    }
}

/// The byte-size unit an already upper-cased token names, if any.
pub open spec fn spec_unit_of_upper_token(s: Seq<char>) -> Option<ByteUnit> {
    if s.len() == 2 && s[1] == 'B' {
        if s[0] == 'K' {
            Some(ByteUnit::KB)
        } else if s[0] == 'M' {
            Some(ByteUnit::MB)
        } else if s[0] == 'G' {
            Some(ByteUnit::GB)
        } else if s[0] == 'T' {
            Some(ByteUnit::TB)
        } else {
            None
        }
    } else {
        None
    }
}

} // verus!
