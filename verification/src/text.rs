//! Decimal rendering of integers, and the list and option renderings that
//! the library's human-readable messages are built from.

use vstd::prelude::*;
use vstd::string::*;

verus! {

/// The character of a decimal digit.
pub open spec fn digit_char(d: nat) -> char {
    if d == 0 { '0' }
    else if d == 1 { '1' }
    else if d == 2 { '2' }
    else if d == 3 { '3' }
    else if d == 4 { '4' }
    else if d == 5 { '5' }
    else if d == 6 { '6' }
    else if d == 7 { '7' }
    else if d == 8 { '8' }
    else { '9' }
}

/// The decimal representation of a natural number, most significant digit
/// first, with no leading zeros.
pub open spec fn decimal(n: nat) -> Seq<char>
    decreases n,
{
    if n < 10 {
        seq![digit_char(n)]
    } else {
        decimal(n / 10) + seq![digit_char(n % 10)]
    }
}

/// The decimal representation of an integer, with a leading `-` when it is
/// negative.
pub open spec fn signed_decimal(i: int) -> Seq<char> {
    if i < 0 {
        seq!['-'] + decimal((-i) as nat)
    } else {
        decimal(i as nat)
    }
}

/// The entries of a list of integers, separated by `", "`.
pub open spec fn joined_decimals(s: Seq<i32>) -> Seq<char>
    decreases s.len(),
{
    if s.len() == 0 {
        seq![]
    } else if s.len() == 1 {
        signed_decimal(s[0] as int)
    } else {
        joined_decimals(s.drop_last()) + seq![',', ' '] + signed_decimal(s.last() as int)
    }
}

/// A list of integers as `[a, b, c]`.
pub open spec fn bracketed_decimals(s: Seq<i32>) -> Seq<char> {
    seq!['['] + joined_decimals(s) + seq![']']
}

/// An optional integer as `Some(n)` or `None`.
pub open spec fn optional_decimal(o: Option<i32>) -> Seq<char> {
    match o {
        Some(i) => seq!['S', 'o', 'm', 'e', '('] + signed_decimal(i as int) + seq![')'],
        None => seq!['N', 'o', 'n', 'e'],
    }
}

/// The number a string of decimal digits reads as, most significant digit
/// first, each character standing for its distance from `'0'`.
pub open spec fn decimal_value(s: Seq<char>) -> int
    decreases s.len(),
{
    if s.len() == 0 {
        0
    } else {
        decimal_value(s.drop_last()) * 10 + (s.last() as int - '0' as int)
    }
}

/// Every character is one of `'0'` to `'9'`.
pub open spec fn all_digits(s: Seq<char>) -> bool {
    forall|i: int| 0 <= i < s.len() ==> '0' <= #[trigger] s[i] <= '9'
}

/// Each digit is rendered as the character `d` places after `'0'`.
pub proof fn lemma_digit_char_code(d: nat)
    requires
        d < 10,
    ensures
        digit_char(d) as int == '0' as int + d,
{
}

/// The rendering of a natural number consists of digits and reads back as
/// the number: it has no leading zero, and it is never empty.
pub proof fn lemma_decimal_reads_back(n: nat)
    ensures
        decimal_value(decimal(n)) == n,
        all_digits(decimal(n)),
        decimal(n).len() >= 1,
        decimal(n).len() > 1 ==> decimal(n)[0] != '0',
    decreases n,
{
    if n < 10 {
        lemma_digit_char_code(n);
        assert(decimal(n).drop_last() =~= Seq::<char>::empty());
        assert(decimal_value(Seq::<char>::empty()) == 0);
        assert(decimal(n).last() == digit_char(n));
    } else {
        lemma_decimal_reads_back(n / 10);
        lemma_digit_char_code(n % 10);
        let s = decimal(n);
        assert(s.drop_last() =~= decimal(n / 10));
        assert(s.last() == digit_char(n % 10));
        assert((n / 10) * 10 + n % 10 == n);
        assert(decimal_value(s) == decimal_value(decimal(n / 10)) * 10 + (digit_char(n % 10) as int
            - '0' as int));
        assert(s[0] == decimal(n / 10)[0]);
        if n / 10 < 10 {
            assert(decimal(n / 10)[0] == digit_char(n / 10));
            lemma_digit_char_code(n / 10);
        } else {
            assert(decimal(n / 10) == decimal(n / 100) + seq![digit_char((n / 10) % 10)]);
        }
    }
}

/// The signed rendering of an integer is its magnitude's rendering, with a
/// leading `-` exactly when it is negative.
pub proof fn lemma_signed_decimal_reads_back(i: int)
    ensures
        i >= 0 ==> signed_decimal(i) == decimal(i as nat) && decimal_value(signed_decimal(i)) == i,
        i < 0 ==> signed_decimal(i)[0] == '-' && signed_decimal(i).drop_first() == decimal(
            (-i) as nat,
        ) && decimal_value(signed_decimal(i).drop_first()) == -i,
{
    if i >= 0 {
        lemma_decimal_reads_back(i as nat);
    } else {
        lemma_decimal_reads_back((-i) as nat);
        assert(signed_decimal(i).drop_first() =~= decimal((-i) as nat));
    }
}

fn digit_str(d: u64) -> (s: &'static str)
    requires
        d < 10,
    ensures
        s@ == seq![digit_char(d as nat)],
{
    proof {
        reveal_strlit("0");
        reveal_strlit("1");
        reveal_strlit("2");
        reveal_strlit("3");
        reveal_strlit("4");
        reveal_strlit("5");
        reveal_strlit("6");
        reveal_strlit("7");
        reveal_strlit("8");
        reveal_strlit("9");
    }
    if d == 0 { "0" }
    else if d == 1 { "1" }
    else if d == 2 { "2" }
    else if d == 3 { "3" }
    else if d == 4 { "4" }
    else if d == 5 { "5" }
    else if d == 6 { "6" }
    else if d == 7 { "7" }
    else if d == 8 { "8" }
    else { "9" }
}

/// Appends the decimal representation of `n` to `out`.
pub fn push_decimal(out: &mut String, n: u64)
    ensures
        final(out)@ == old(out)@ + decimal(n as nat),
    decreases n,
{
    if n >= 10 {
        push_decimal(out, n / 10);
    }
    out.append(digit_str(n % 10));
    assert(out@ =~= old(out)@ + decimal(n as nat));
}

/// Appends the decimal representation of `i`, signed, to `out`.
pub fn push_signed_decimal(out: &mut String, i: i64)
    ensures
        final(out)@ == old(out)@ + signed_decimal(i as int),
{
    if i < 0 {
        proof { reveal_strlit("-"); }
        out.append("-");
        let magnitude: u64 = if i == i64::MIN {
            9223372036854775808u64
        } else {
            (-i) as u64
        };
        push_decimal(out, magnitude);
        assert(out@ =~= old(out)@ + signed_decimal(i as int));
    } else {
        push_decimal(out, i as u64);
    }
}

/// Appends `[a, b, c]`, the bracketed list of `codes`, to `out`.
pub fn push_bracketed_decimals(out: &mut String, codes: &Vec<i32>)
    ensures
        final(out)@ == old(out)@ + bracketed_decimals(codes@),
{
    proof {
        reveal_strlit("[");
        reveal_strlit("]");
        reveal_strlit(", ");
    }
    out.append("[");
    let ghost start = out@;
    let mut i: usize = 0;
    while i < codes.len()
        invariant
            i <= codes.len(),
            out@ == start + joined_decimals(codes@.take(i as int)),
        decreases codes.len() - i,
    {
        let ghost before = out@;
        if i > 0 {
            proof { reveal_strlit(", "); }
            out.append(", ");
            assert(out@ =~= before + seq![',', ' ']);
        }
        let ghost mid = out@;
        let code = codes[i];
        push_signed_decimal(out, code as i64);
        assert(out@ == mid + signed_decimal(codes@[i as int] as int));
        proof {
            let t = codes@.take(i + 1);
            assert(t.len() == i + 1);
            assert(t.drop_last() =~= codes@.take(i as int));
            assert(t.last() == codes@[i as int]);
            if i == 0 {
                assert(t[0] == codes@[0]);
                assert(joined_decimals(codes@.take(0)) =~= Seq::<char>::empty());
                assert(joined_decimals(t) == signed_decimal(codes@[0] as int));
            } else {
                assert(joined_decimals(t) == joined_decimals(codes@.take(i as int)) + seq![',', ' ']
                    + signed_decimal(codes@[i as int] as int));
            }
        }
        assert(out@ =~= start + joined_decimals(codes@.take(i + 1)));
        i = i + 1;
    }
    assert(codes@.take(codes.len() as int) =~= codes@);
    out.append("]");
    assert(out@ =~= old(out)@ + bracketed_decimals(codes@));
}

/// Appends `Some(n)` or `None` to `out`.
pub fn push_optional_decimal(out: &mut String, code: Option<i32>)
    ensures
        final(out)@ == old(out)@ + optional_decimal(code),
{
    match code {
        Some(c) => {
            proof {
                reveal_strlit("Some(");
                reveal_strlit(")");
            }
            out.append("Some(");
            push_signed_decimal(out, c as i64);
            out.append(")");
            assert(out@ =~= old(out)@ + optional_decimal(code));
        },
        None => {
            proof { reveal_strlit("None"); }
            out.append("None");
            assert(out@ =~= old(out)@ + optional_decimal(code));
        },
    }
}

} // verus!
