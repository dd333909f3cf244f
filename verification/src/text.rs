use vstd::prelude::*;

verus! {

/// The Unicode lowercasing of a text. The result of `str::to_lowercase`
/// depends on the characters alone, so it can be given a name that contracts
/// elsewhere in the crate speak of.
pub uninterp spec fn lower_of(s: Seq<char>) -> Seq<char>;

/// Relies on `str::to_lowercase`: the lowercased text is a function of the
/// input characters alone.
#[verifier::external_body]
pub(crate) fn to_lowercase(s: &str) -> (r: String)
    ensures
        r@ == lower_of(s@),
{
    s.to_lowercase()
}

/// Relies on `String::from_iter` (through `Iterator::collect`): collecting
/// characters yields the string of exactly those characters.
#[verifier::external_body]
pub(crate) fn chars_to_string(v: &Vec<char>) -> (s: String)
    ensures
        s@ == v@,
{
    v.iter().collect()
}

/// The character standing for one decimal digit.
pub open spec fn digit_char(d: int) -> char {
    if d == 0 {
        '0'
    } else if d == 1 {
        '1'
    } else if d == 2 {
        '2'
    } else if d == 3 {
        '3'
    } else if d == 4 {
        '4'
    } else if d == 5 {
        '5'
    } else if d == 6 {
        '6'
    } else if d == 7 {
        '7'
    } else if d == 8 {
        '8'
    } else {
        '9'
    }
}

/// A number written out in decimal, most significant digit first, without
/// leading zeroes (zero itself is the single digit `0`).
pub open spec fn spec_decimal(n: nat) -> Seq<char>
    decreases n,
{
    if n < 10 {
        seq![digit_char(n as int)]
    } else {
        spec_decimal(n / 10).push(digit_char((n % 10) as int))
    }
}

/// One decimal digit as a character.
fn to_digit_char(d: usize) -> (c: char)
    requires
        d < 10,
    ensures
        c == digit_char(d as int),
{
    match d {
        0 => '0',
        1 => '1',
        2 => '2',
        3 => '3',
        4 => '4',
        5 => '5',
        6 => '6',
        7 => '7',
        8 => '8',
        _ => '9',
    }
}

/// Writes a number out in decimal, as `spec_decimal` says.
pub fn decimal_chars(n: usize) -> (r: Vec<char>)
    ensures
        r@ == spec_decimal(n as nat),
{
    let mut backwards: Vec<char> = Vec::new();
    let mut rest: usize = n;
    while rest >= 10
        invariant
            spec_decimal(n as nat) == spec_decimal(rest as nat) + backwards@.reverse(),
        decreases rest,
    {
        let ghost before = backwards@;
        backwards.push(to_digit_char(rest % 10));
        proof {
            assert(backwards@.reverse() =~= seq![digit_char((rest % 10) as int)]
                + before.reverse());
            assert(spec_decimal((rest / 10) as nat) + backwards@.reverse() =~= spec_decimal(
                rest as nat,
            ) + before.reverse());
        }
        rest = rest / 10;
    }
    let ghost before_last = backwards@;
    backwards.push(to_digit_char(rest));
    proof {
        assert(backwards@.reverse() =~= seq![digit_char(rest as int)] + before_last.reverse());
        assert(spec_decimal(rest as nat) + before_last.reverse() =~= backwards@.reverse());
    }
    let mut forwards: Vec<char> = Vec::new();
    let mut k: usize = 0;
    let count = backwards.len();
    while k < count
        invariant
            k <= count,
            count == backwards@.len(),
            forwards@.len() == k,
            forall|j: int| 0 <= j < k ==> forwards@[j] == backwards@[count - 1 - j],
        decreases count - k,
    {
        forwards.push(backwards[count - 1 - k]);
        k = k + 1;
    }
    proof {
        assert(forwards@ =~= backwards@.reverse());
    }
    forwards
}

} // verus!
