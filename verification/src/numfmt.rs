use vstd::prelude::*;
use vstd::string::StringExecFns;

verus! {

/// The decimal digit character for a value in `0..10`.
pub open spec fn digit_char(d: int) -> char {
    if d == 0 {
        '0'
    } else if d == 1 {
        '1'
    } else if d == 2 {
        '2'
    } else if d == 3 {
        '3'
    } else if d == 4 {
        '4'
    } else if d == 5 {
        '5'
    } else if d == 6 {
        '6'
    } else if d == 7 {
        '7'
    } else if d == 8 {
        '8'
    } else {
        '9'
    }
}

/// The decimal rendering of `n`, most significant digit first, no sign and
/// no leading zeros (a lone `'0'` for zero).
pub open spec fn spec_dec(n: nat) -> Seq<char>
    decreases n,
{
    if n < 10 {
        seq![digit_char(n as int)]
    } else {
        spec_dec(n / 10).push(digit_char((n % 10) as int))
    }
}

/// The decimal rendering of a signed value: a `'-'` before the magnitude
/// for negative values.
pub open spec fn spec_dec_signed(n: int) -> Seq<char> {
    if n < 0 {
        seq!['-'] + spec_dec((-n) as nat)
    } else {
        spec_dec(n as nat)
    }
}

/// A decimal rendering is never empty, and is a single digit exactly for
/// values below ten.
pub proof fn lemma_dec_len(n: nat)
    ensures
        spec_dec(n).len() >= 1,
        n < 10 <==> spec_dec(n).len() == 1,
    decreases n,
{
    if n >= 10 {
        lemma_dec_len(n / 10);
    }
}

/// Decimal renderings consist of digit characters only; in particular they
/// never contain a line break.
pub proof fn lemma_dec_no_newline(n: nat)
    ensures
        !spec_dec(n).contains('\n'),
    decreases n,
{
    if n >= 10 {
        lemma_dec_no_newline(n / 10);
        assert forall|i: int| 0 <= i < spec_dec(n).len() implies spec_dec(n)[i] != '\n' by {
            if i < spec_dec(n).len() - 1 {
                assert(spec_dec(n / 10).contains('\n') ==> spec_dec(n / 10)[i] == '\n'
                    ==> spec_dec(n / 10).contains('\n'));
                assert(spec_dec(n)[i] == spec_dec(n / 10)[i]);
                if spec_dec(n)[i] == '\n' {
                    assert(spec_dec(n / 10).contains('\n'));
                }
            }
        }
        if spec_dec(n).contains('\n') {
            let i = choose|i: int| 0 <= i < spec_dec(n).len() && spec_dec(n)[i] == '\n';
            assert(spec_dec(n)[i] != '\n');
        }
    }
}

/// A `'-'` never introduces a line break either.
pub proof fn lemma_dec_signed_no_newline(n: int)
    ensures
        !spec_dec_signed(n).contains('\n'),
{
    if n < 0 {
        lemma_dec_no_newline((-n) as nat);
        if spec_dec_signed(n).contains('\n') {
            let i = choose|i: int|
                0 <= i < spec_dec_signed(n).len() && spec_dec_signed(n)[i] == '\n';
            assert(spec_dec((-n) as nat)[i - 1] == '\n');
            assert(spec_dec((-n) as nat).contains('\n'));
        }
    } else {
        lemma_dec_no_newline(n as nat);
    }
}

/// The one-character string for a decimal digit.
fn digit_str(d: u8) -> (r: &'static str)
    requires
        d < 10,
    ensures
        r@ == seq![digit_char(d as int)],
{
    proof {
        reveal_strlit("0");
        reveal_strlit("1");
        reveal_strlit("2");
        reveal_strlit("3");
        reveal_strlit("4");
        reveal_strlit("5");
        reveal_strlit("6");
        reveal_strlit("7");
        reveal_strlit("8");
        reveal_strlit("9");
    }
    let r = if d == 0 {
        "0"
    } else if d == 1 {
        "1"
    } else if d == 2 {
        "2"
    } else if d == 3 {
        "3"
    } else if d == 4 {
        "4"
    } else if d == 5 {
        "5"
    } else if d == 6 {
        "6"
    } else if d == 7 {
        "7"
    } else if d == 8 {
        "8"
    } else {
        "9"
    };
    proof {
        assert(r@ =~= seq![digit_char(d as int)]);
    }
    r
}

/// Renders `n` in decimal.
pub fn fmt_u64(n: u64) -> (r: String)
    ensures
        r@ == spec_dec(n as nat),
    decreases n,
{
    if n < 10 {
        String::from_str(digit_str(n as u8))
    } else {
        let mut s = fmt_u64(n / 10);
        s.append(digit_str((n % 10) as u8));
        proof {
            assert(s@ =~= spec_dec(n as nat));
        }
        s
    }
}

/// Renders a signed value in decimal.
pub fn fmt_i32(n: i32) -> (r: String)
    ensures
        r@ == spec_dec_signed(n as int),
{
    if n < 0 {
        let m: u64 = (-(n as i64)) as u64;
        let mut s = String::from_str("-");
        let digits = fmt_u64(m);
        s.append(digits.as_str());
        proof {
            reveal_strlit("-");
            assert(s@ =~= spec_dec_signed(n as int));
        }
        s
    } else {
        fmt_u64(n as u64)
    }
}

/// A rendering padded on the left with spaces to a width of two, as the
/// clock ratio column of the report uses.
pub open spec fn spec_pad2(s: Seq<char>) -> Seq<char> {
    if s.len() >= 2 {
        s
    } else if s.len() == 1 {
        seq![' '] + s
    } else {
        seq![' ', ' ']
    }
}

/// Renders `n` in decimal, right-aligned in a column at least two wide.
pub fn fmt_u64_pad2(n: u64) -> (r: String)
    ensures
        r@ == spec_pad2(spec_dec(n as nat)),
{
    proof {
        lemma_dec_len(n as nat);
    }
    if n < 10 {
        let mut s = String::from_str(" ");
        let digits = fmt_u64(n);
        s.append(digits.as_str());
        proof {
            reveal_strlit(" ");
            assert(s@ =~= spec_pad2(spec_dec(n as nat)));
        }
        s
    } else {
        fmt_u64(n)
    }
}

/// True for an ASCII decimal digit.
pub open spec fn is_digit(b: u8) -> bool {
    48 <= b <= 57
}

/// The numeric value of a digit byte.
pub open spec fn digit_val(b: u8) -> int {
    b - 48
}

/// True when `s` is a non-empty, all-digit token.
pub open spec fn spec_is_number(s: Seq<u8>) -> bool {
    s.len() > 0 && forall|i: int| 0 <= i < s.len() ==> is_digit(s[i])
}

/// The value of an all-digit token, most significant digit first.
pub open spec fn spec_num(s: Seq<u8>) -> int
    decreases s.len(),
{
    if s.len() == 0 {
        0
    } else {
        spec_num(s.drop_last()) * 10 + digit_val(s.last())
    }
}

/// What decimal parsing of a token yields: its value when the token is a
/// non-empty digit string whose value fits, nothing otherwise.
pub open spec fn spec_parse_u32(s: Seq<u8>) -> Option<u32> {
    if spec_is_number(s) && spec_num(s) <= u32::MAX {
        Some(spec_num(s) as u32)
    } else {
        None
    }
}

/// The value of an all-digit token is non-negative.
pub proof fn lemma_num_nonneg(s: Seq<u8>)
    requires
        forall|i: int| 0 <= i < s.len() ==> is_digit(s[i]),
    ensures
        spec_num(s) >= 0,
    decreases s.len(),
{
    if s.len() > 0 {
        lemma_num_nonneg(s.drop_last());
    }
}

/// Extending an all-digit token never shrinks its value.
pub proof fn lemma_num_prefix_le(s: Seq<u8>, i: int)
    requires
        forall|k: int| 0 <= k < s.len() ==> is_digit(s[k]),
        0 <= i <= s.len(),
    ensures
        spec_num(s) >= spec_num(s.subrange(0, i)),
    decreases s.len() - i,
{
    if i == s.len() {
        assert(s.subrange(0, i) =~= s);
    } else {
        lemma_num_prefix_le(s, i + 1);
        let p = s.subrange(0, i);
        let q = s.subrange(0, i + 1);
        assert(q.drop_last() =~= p);
        assert(forall|k: int| 0 <= k < p.len() ==> is_digit(p[k]));
        lemma_num_nonneg(p);
        assert(spec_num(q) == spec_num(p) * 10 + digit_val(q.last()));
        assert(spec_num(q) >= spec_num(p));
    }
}

/// Parses a non-empty all-digit token as an unsigned 32-bit value. Fails on
/// an empty token, a non-digit byte, or overflow.
pub fn parse_u32(token: &Vec<u8>) -> (r: Option<u32>)
    ensures
        r == spec_parse_u32(token@),
{
    if token.len() == 0 {
        return None;
    }
    let mut acc: u32 = 0;
    let mut i: usize = 0;
    while i < token.len()
        invariant
            0 < token@.len(),
            i <= token@.len(),
            forall|j: int| 0 <= j < i ==> is_digit(token@[j]),
            acc == spec_num(token@.subrange(0, i as int)),
        decreases token@.len() - i,
    {
        let b = token[i];
        if b < 48 || b > 57 {
            return None;
        }
        let d: u32 = (b - 48) as u32;
        if acc > (u32::MAX - d) / 10 {
            proof {
                let q = token@.subrange(0, i + 1);
                assert(q.drop_last() =~= token@.subrange(0, i as int));
                assert(spec_num(q) == acc * 10 + d);
                if spec_is_number(token@) {
                    lemma_num_prefix_le(token@, i + 1);
                    assert(acc * 10 + d > u32::MAX) by {
                        assert(acc >= (u32::MAX - d) / 10 + 1);
                    };
                }
            }
            return None;
        }
        proof {
            assert(acc * 10 + d <= u32::MAX) by {
                assert(acc <= (u32::MAX - d) / 10);
            };
            let q = token@.subrange(0, i + 1);
            assert(q.drop_last() =~= token@.subrange(0, i as int));
            assert(spec_num(q) == acc * 10 + d);
        }
        acc = acc * 10 + d;
        i = i + 1;
    }
    proof {
        assert(token@.subrange(0, token@.len() as int) =~= token@);
    }
    Some(acc)
}

} // verus!
