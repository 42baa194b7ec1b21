use vstd::prelude::*;
use vstd::string::StringExecFns;

verus! {

/// The ASCII digit for a value below ten.
pub open spec fn digit_char(d: nat) -> char {
    ((d % 10 + 48) as u8) as char
}

/// The decimal notation of `n`, most significant digit first, without leading zeros.
pub open spec fn decimal(n: nat) -> Seq<char>
    decreases n,
{
    if n < 10 {
        seq![digit_char(n)]
    } else {
        decimal(n / 10).push(digit_char(n % 10))
    }
}

fn digit_str(d: usize) -> (s: &'static str)
    requires
        d < 10,
    ensures
        s@ == seq![digit_char(d as nat)],
{
    proof {
        reveal_strlit("0");
        reveal_strlit("1");
        reveal_strlit("2");
        reveal_strlit("3");
        reveal_strlit("4");
        reveal_strlit("5");
        reveal_strlit("6");
        reveal_strlit("7");
        reveal_strlit("8");
        reveal_strlit("9");
    }
    match d {
        0 => "0",
        1 => "1",
        2 => "2",
        3 => "3",
        4 => "4",
        5 => "5",
        6 => "6",
        7 => "7",
        8 => "8",
        _ => "9",
    }
}

/// Writes `n` in decimal notation.
pub fn decimal_string(n: usize) -> (r: String)
    ensures
        r@ == decimal(n as nat),
    decreases n,
{
    if n < 10 {
        digit_str(n).to_owned()
    } else {
        let mut r = decimal_string(n / 10);
        r.append(digit_str(n % 10));
        r
    }
}

/// Whether `c` is one of the ASCII digits `0` to `9`.
pub open spec fn is_digit(c: char) -> bool {
    '0' <= c && c <= '9'
}

/// Whether `s` is one or more ASCII digits.
pub open spec fn all_digits(s: Seq<char>) -> bool {
    s.len() > 0 && forall|i: int| 0 <= i < s.len() ==> is_digit(#[trigger] s[i])
}

/// The number that a run of ASCII digits writes in base ten.
pub open spec fn digits_value(s: Seq<char>) -> int
    decreases s.len(),
{
    if s.len() == 0 {
        0
    } else {
        digits_value(s.drop_last()) * 10 + ((s.last() as u32) as int - 48)
    }
}

/// The integer that `s` writes, where `s` is an optional `+` or `-` sign followed
/// by one or more ASCII digits and nothing else.
pub open spec fn signed_decimal_value(s: Seq<char>) -> Option<int> {
    if s.len() > 0 && (s[0] == '+' || s[0] == '-') {
        if all_digits(s.drop_first()) {
            if s[0] == '-' {
                Some(-digits_value(s.drop_first()))
            } else {
                Some(digits_value(s.drop_first()))
            }
        } else {
            None
        }
    } else if all_digits(s) {
        Some(digits_value(s))
    } else {
        None
    }
}

/// Whether `s` writes an integer above zero in decimal, of any size. Text that
/// writes no integer counts as zero.
pub open spec fn is_positive_amount_text(s: Seq<char>) -> bool {
    match signed_decimal_value(s) {
        Some(v) => v > 0,
        None => false,
    }
}

/// A run of ASCII digits never writes a negative number, and writes one above
/// zero exactly when some digit is not `0`.
proof fn lemma_digits_value_positive(s: Seq<char>)
    requires
        forall|i: int| 0 <= i < s.len() ==> is_digit(#[trigger] s[i]),
    ensures
        digits_value(s) >= 0,
        digits_value(s) > 0 <==> exists|i: int| 0 <= i < s.len() && s[i] != '0',
    decreases s.len(),
{
    if s.len() > 0 {
        let p = s.drop_last();
        assert forall|i: int| 0 <= i < p.len() implies is_digit(#[trigger] p[i]) by {
            assert(p[i] == s[i]);
        }
        lemma_digits_value_positive(p);
        assert(is_digit(s[s.len() - 1]));
        if exists|i: int| 0 <= i < s.len() && s[i] != '0' {
            let i = choose|i: int| 0 <= i < s.len() && s[i] != '0';
            if i < s.len() - 1 {
                assert(p[i] == s[i]);
            }
        }
        if exists|i: int| 0 <= i < p.len() && p[i] != '0' {
            let i = choose|i: int| 0 <= i < p.len() && p[i] != '0';
            assert(s[i] == p[i]);
        }
    }
}

/// Whether an amount written as text is an integer above zero: an optional `+`
/// or `-` sign, then one or more ASCII digits and nothing else, not all of them
/// `0`, with no `-` sign.
pub fn is_positive_amount(s: &str) -> (r: bool)
    ensures
        r == is_positive_amount_text(s@),
{
    let n = s.unicode_len();
    if n == 0 {
        return false;
    }
    let first = s.get_char(0);
    let signed = first == '+' || first == '-';
    let start: usize = if signed {
        1
    } else {
        0
    };
    let ghost body = s@.subrange(start as int, n as int);
    proof {
        if signed {
            assert(body =~= s@.drop_first());
        } else {
            assert(body =~= s@);
        }
    }
    if start == n {
        return false;
    }
    let mut i: usize = start;
    let mut nonzero = false;
    while i < n
        invariant
            n == s@.len(),
            start <= i <= n,
            body == s@.subrange(start as int, n as int),
            s@[0] == first,
            signed == (first == '+' || first == '-'),
            signed ==> body == s@.drop_first(),
            !signed ==> body == s@,
            forall|j: int| 0 <= j < i - start ==> is_digit(#[trigger] body[j]),
            nonzero == exists|j: int| 0 <= j < i - start && body[j] != '0',
        decreases n - i,
    {
        let c = s.get_char(i);
        assert(body[i - start] == c);
        if !('0' <= c && c <= '9') {
            assert(!is_digit(body[i - start]));
            assert(!all_digits(body));
            return false;
        }
        if c != '0' {
            nonzero = true;
        }
        proof {
            if exists|j: int| 0 <= j < i + 1 - start && body[j] != '0' {
                let j = choose|j: int| 0 <= j < i + 1 - start && body[j] != '0';
                if j < i - start {
                    assert(exists|k: int| 0 <= k < i - start && body[k] != '0');
                }
            }
            if c != '0' {
                assert(body[i - start] != '0');
            }
        }
        i = i + 1;
    }
    proof {
        lemma_digits_value_positive(body);
    }
    nonzero && first != '-'
}

} // verus!
