//! Small verified text helpers: ASCII case folding and case-insensitive
//! comparison, used to read gender tags.

use vstd::prelude::*;

verus! {

/// `c` with an ASCII capital letter folded to its small form.
pub open spec fn spec_lower_char(c: char) -> char {
    if 'A' <= c && c <= 'Z' {
        ((((c as u32) as u8) + 32) as char)
    } else {
        c
    }
}

/// `s` with every ASCII capital letter folded to its small form.
pub open spec fn spec_lower(s: Seq<char>) -> Seq<char> {
    s.map_values(|c: char| spec_lower_char(c))
}

/// `c` with an ASCII capital letter folded to its small form.
pub fn lower_char(c: char) -> (r: char)
    ensures
        r == spec_lower_char(c),
{
    if 'A' <= c && c <= 'Z' {
        (((c as u32) as u8) + 32) as char
    } else {
        c
    }
}

/// The digit character for `d` (meaningful for `0 <= d < 10`).
pub open spec fn spec_digit_char(d: int) -> char {
    (((48 + d) as u8) as char)
}

/// The decimal numeral of `n`, most significant digit first.
pub open spec fn spec_decimal(n: nat) -> Seq<char>
    decreases n,
{
    if n < 10 {
        seq![spec_digit_char(n as int)]
    } else {
        spec_decimal(n / 10).push(spec_digit_char((n % 10) as int))
    }
}

/// The decimal numeral of `n`, zero-padded on the left to three digits.
pub open spec fn spec_pad3(n: nat) -> Seq<char> {
    if n < 10 {
        seq!['0', '0'] + spec_decimal(n)
    } else if n < 100 {
        seq!['0'] + spec_decimal(n)
    } else {
        spec_decimal(n)
    }
}

/// The digit character for `d`, as a one-character string.
fn digit_str(d: u64) -> (r: &'static str)
    requires
        d < 10,
    ensures
        r@ == seq![spec_digit_char(d as int)],
{
    proof {
        reveal_strlit("0");
        reveal_strlit("1");
        reveal_strlit("2");
        reveal_strlit("3");
        reveal_strlit("4");
        reveal_strlit("5");
        reveal_strlit("6");
        reveal_strlit("7");
        reveal_strlit("8");
        reveal_strlit("9");
    }
    match d {
        0 => "0",
        1 => "1",
        2 => "2",
        3 => "3",
        4 => "4",
        5 => "5",
        6 => "6",
        7 => "7",
        8 => "8",
        _ => "9",
    }
}

/// Append the decimal numeral of `n` to `out`.
pub fn push_decimal(n: u64, out: &mut String)
    ensures
        final(out)@ == old(out)@ + spec_decimal(n as nat),
    decreases n,
{
    if n >= 10 {
        push_decimal(n / 10, out);
    }
    let ghost mid = out@;
    out.append(digit_str(n % 10));
    proof {
        if n < 10 {
            assert(out@ =~= old(out)@ + spec_decimal(n as nat));
        } else {
            assert(mid == old(out)@ + spec_decimal((n / 10) as nat));
            assert(out@ =~= old(out)@ + spec_decimal(n as nat));
        }
    }
}

/// The decimal numeral of `n` as a string.
pub fn u64_to_string(n: u64) -> (r: String)
    ensures
        r@ == spec_decimal(n as nat),
{
    let mut out = String::new();
    push_decimal(n, &mut out);
    proof {
        assert(Seq::<char>::empty() + spec_decimal(n as nat) =~= spec_decimal(n as nat));
    }
    out
}

/// The decimal numeral of `n`, zero-padded on the left to three digits.
pub fn u64_to_padded3(n: u64) -> (r: String)
    ensures
        r@ == spec_pad3(n as nat),
{
    let mut out = String::new();
    if n < 10 {
        out.append("00");
        proof {
            reveal_strlit("00");
            assert("00"@ =~= seq!['0', '0']);
        }
    } else if n < 100 {
        out.append("0");
        proof {
            reveal_strlit("0");
            assert("0"@ =~= seq!['0']);
        }
    }
    let ghost mid = out@;
    push_decimal(n, &mut out);
    proof {
        assert(out@ =~= mid + spec_decimal(n as nat));
        assert(out@ =~= spec_pad3(n as nat));
    }
    out
}

/// `s` with every occurrence of the marker `"Year "` removed, scanning
/// left to right.
pub open spec fn spec_strip_year(s: Seq<char>) -> Seq<char>
    decreases s.len(),
{
    if s.len() < 5 {
        s
    } else if s.subrange(0, 5) == "Year "@ {
        spec_strip_year(s.skip(5))
    } else {
        seq![s[0]] + spec_strip_year(s.skip(1))
    }
}

/// An ASCII whitespace character.
pub open spec fn spec_is_space(c: char) -> bool {
    c == ' ' || c == '\t' || c == '\r' || c == '\n'
}

/// `s` without its leading whitespace.
pub open spec fn spec_trim_front(s: Seq<char>) -> Seq<char>
    decreases s.len(),
{
    if s.len() > 0 && spec_is_space(s[0]) {
        spec_trim_front(s.skip(1))
    } else {
        s
    }
}

/// `s` without its trailing whitespace.
pub open spec fn spec_trim_back(s: Seq<char>) -> Seq<char>
    decreases s.len(),
{
    if s.len() > 0 && spec_is_space(s.last()) {
        spec_trim_back(s.drop_last())
    } else {
        s
    }
}

/// `s` without leading and trailing whitespace.
pub open spec fn spec_trim(s: Seq<char>) -> Seq<char> {
    spec_trim_back(spec_trim_front(s))
}

/// The value of a digit string, most significant digit first.
pub open spec fn spec_digits_val(s: Seq<char>) -> int
    decreases s.len(),
{
    if s.len() == 0 {
        0
    } else {
        spec_digits_val(s.drop_last()) * 10 + (s.last() as int - 48)
    }
}

/// Every character is a decimal digit.
pub open spec fn spec_all_digits(s: Seq<char>) -> bool {
    forall|i: int| 0 <= i < s.len() ==> '0' <= #[trigger] s[i] && s[i] <= '9'
}

/// Whether `s` is a well-formed decimal literal within the range of a
/// 32-bit signed integer: an optional sign, then at least one digit.
pub open spec fn spec_parse_i32_ok(s: Seq<char>) -> bool {
    let signed = s.len() > 0 && (s[0] == '+' || s[0] == '-');
    let body = if signed {
        s.skip(1)
    } else {
        s
    };
    let neg = s.len() > 0 && s[0] == '-';
    &&& body.len() > 0
    &&& spec_all_digits(body)
    &&& (if neg {
        spec_digits_val(body) <= 0x8000_0000
    } else {
        spec_digits_val(body) <= 0x7fff_ffff
    })
}

/// A digit string's value is never negative.
proof fn lemma_digits_val_nonneg(s: Seq<char>)
    requires
        spec_all_digits(s),
    ensures
        spec_digits_val(s) >= 0,
    decreases s.len(),
{
    if s.len() > 0 {
        assert(spec_all_digits(s.drop_last())) by {
            assert(forall|i: int| 0 <= i < s.len() - 1 ==> s.drop_last()[i] == #[trigger] s[i]);
        }
        lemma_digits_val_nonneg(s.drop_last());
        assert(s.last() as int - 48 >= 0);
    }
}

/// A digit string's value only grows as digits are appended.
proof fn lemma_digits_val_monotone(s: Seq<char>, k: int)
    requires
        spec_all_digits(s),
        0 <= k <= s.len(),
    ensures
        spec_digits_val(s) >= spec_digits_val(s.take(k)),
    decreases s.len() - k,
{
    if k < s.len() {
        lemma_digits_val_monotone(s, k + 1);
        let t = s.take(k + 1);
        assert(t.drop_last() =~= s.take(k));
        assert(spec_all_digits(s.take(k))) by {
            assert(forall|i: int| 0 <= i < k ==> s.take(k)[i] == #[trigger] s[i]);
        }
        lemma_digits_val_nonneg(s.take(k));
        assert(t.last() == s[k]);
        assert(spec_digits_val(t) == spec_digits_val(s.take(k)) * 10 + (s[k] as int - 48));
    } else {
        assert(s.take(k) =~= s);
    }
}

/// `s` with every occurrence of the marker `"Year "` removed.
pub fn strip_year(s: &str) -> (r: String)
    ensures
        r@ == spec_strip_year(s@),
{
    let n = s.unicode_len();
    let mut out = String::new();
    let mut i: usize = 0;
    proof {
        reveal_strlit("Year ");
        assert(s@.skip(0) =~= s@);
        assert(Seq::<char>::empty() + spec_strip_year(s@) =~= spec_strip_year(s@));
    }
    while i < n
        invariant
            n == s@.len(),
            i <= n,
            spec_strip_year(s@) == out@ + spec_strip_year(s@.skip(i as int)),
            "Year "@ =~= seq!['Y', 'e', 'a', 'r', ' '],
        decreases n - i,
    {
        let ghost tail = s@.skip(i as int);
        let marker = n - i >= 5 && s.get_char(i) == 'Y' && s.get_char(i + 1) == 'e' && s.get_char(
            i + 2,
        ) == 'a' && s.get_char(i + 3) == 'r' && s.get_char(i + 4) == ' ';
        if marker {
            proof {
                assert(tail.subrange(0, 5) =~= "Year "@);
                assert(tail.skip(5) =~= s@.skip(i + 5));
            }
            i += 5;
        } else {
            proof {
                if tail.len() >= 5 && tail.subrange(0, 5) == "Year "@ {
                    assert(s@[i as int] == tail.subrange(0, 5)[0]);
                    assert(s@[i + 1] == tail.subrange(0, 5)[1]);
                    assert(s@[i + 2] == tail.subrange(0, 5)[2]);
                    assert(s@[i + 3] == tail.subrange(0, 5)[3]);
                    assert(s@[i + 4] == tail.subrange(0, 5)[4]);
                    assert(false);
                }
                assert(tail[0] == s@[i as int]);
                assert(tail.skip(1) =~= s@.skip(i + 1));
            }
            let piece = s.substring_char(i, i + 1);
            out.append(piece);
            proof {
                assert(piece@ =~= seq![s@[i as int]]);
                assert(out@ + spec_strip_year(s@.skip(i + 1)) =~= spec_strip_year(s@));
            }
            i += 1;
        }
    }
    proof {
        assert(s@.skip(n as int).len() == 0);
        assert(out@ + s@.skip(n as int) =~= out@);
    }
    out
}

/// `s` without leading and trailing ASCII whitespace.
pub fn trim_spaces(s: &str) -> (r: &str)
    ensures
        r@ == spec_trim(s@),
{
    let n = s.unicode_len();
    let mut i: usize = 0;
    proof {
        assert(s@.skip(0) =~= s@);
    }
    while i < n && is_space_char(s.get_char(i))
        invariant
            n == s@.len(),
            i <= n,
            spec_trim_front(s@) == spec_trim_front(s@.skip(i as int)),
        decreases n - i,
    {
        proof {
            let tail = s@.skip(i as int);
            assert(tail[0] == s@[i as int]);
            assert(tail.skip(1) =~= s@.skip(i + 1));
        }
        i += 1;
    }
    let ghost front = s@.skip(i as int);
    proof {
        if i < n {
            assert(front[0] == s@[i as int]);
        }
        assert(spec_trim_front(s@) == front);
    }
    let mut j: usize = n;
    proof {
        assert(front.take((j - i) as int) =~= front);
    }
    while j > i && is_space_char(s.get_char(j - 1))
        invariant
            n == s@.len(),
            i <= j <= n,
            front == s@.skip(i as int),
            spec_trim_back(front) == spec_trim_back(front.take((j - i) as int)),
        decreases j,
    {
        proof {
            let t = front.take((j - i) as int);
            assert(t.last() == s@[j - 1]);
            assert(t.drop_last() =~= front.take((j - 1 - i) as int));
        }
        j -= 1;
    }
    proof {
        let t = front.take((j - i) as int);
        if j > i {
            assert(t.last() == s@[j - 1]);
        }
        assert(spec_trim_back(t) == t);
        assert(t =~= s@.subrange(i as int, j as int));
    }
    s.substring_char(i, j)
}

/// An ASCII whitespace character.
fn is_space_char(c: char) -> (r: bool)
    ensures
        r == spec_is_space(c),
{
    c == ' ' || c == '\t' || c == '\r' || c == '\n'
}

/// Whether `s` is a well-formed decimal literal within the range of a
/// 32-bit signed integer.
pub fn parse_i32_ok(s: &str) -> (r: bool)
    ensures
        r == spec_parse_i32_ok(s@),
{
    let n = s.unicode_len();
    let mut i: usize = 0;
    let mut neg = false;
    if n > 0 {
        let c = s.get_char(0);
        if c == '+' || c == '-' {
            i = 1;
            neg = c == '-';
        }
    }
    let ghost body = if i == 1 {
        s@.skip(1)
    } else {
        s@
    };
    if i >= n {
        proof {
            assert(body.len() == 0);
        }
        return false;
    }
    let mut acc: u64 = 0;
    let mut k = i;
    while k < n
        invariant
            n == s@.len(),
            i <= k <= n,
            i <= 1,
            (i == 1) == (s@.len() > 0 && (s@[0] == '+' || s@[0] == '-')),
            neg == (s@.len() > 0 && s@[0] == '-'),
            body == (if i == 1 {
                s@.skip(1)
            } else {
                s@
            }),
            acc as int == spec_digits_val(body.take((k - i) as int)),
            spec_all_digits(body.take((k - i) as int)),
            acc <= 0x8000_0000,
        decreases n - k,
    {
        let c = s.get_char(k);
        proof {
            assert(body[(k - i) as int] == s@[k as int]);
        }
        if !('0' <= c && c <= '9') {
            proof {
                assert(!spec_all_digits(body));
            }
            return false;
        }
        let d = ((c as u32) as u8) - 48;
        proof {
            assert(48 <= (c as u32) && (c as u32) <= 57);
            assert(d as int == c as int - 48);
            assert(body.take((k + 1 - i) as int).drop_last() =~= body.take((k - i) as int));
            assert(body.take((k + 1 - i) as int).last() == body[(k - i) as int]);
            assert(forall|q: int|
                0 <= q < (k + 1 - i) ==> body.take((k + 1 - i) as int)[q] == #[trigger] body[q]);
        }
        acc = acc * 10 + (d as u64);
        k += 1;
        proof {
            assert(acc as int == spec_digits_val(body.take((k - i) as int)));
        }
        if acc > 0x8000_0000 {
            proof {
                if spec_all_digits(body) {
                    lemma_digits_val_monotone(body, (k - i) as int);
                    assert(spec_digits_val(body) >= acc as int);
                }
            }
            return false;
        }
    }
    proof {
        assert(body.take((n - i) as int) =~= body);
    }
    if neg {
        true
    } else {
        acc <= 0x7fff_ffff
    }
}

/// Whether `s`, folded to ASCII lower case, reads exactly `t`.
pub fn eq_lowercased(s: &str, t: &str) -> (r: bool)
    ensures
        r == (spec_lower(s@) == t@),
{
    let ns = s.unicode_len();
    let nt = t.unicode_len();
    if ns != nt {
        proof {
            assert(spec_lower(s@).len() == s@.len());
        }
        return false;
    }
    for i in 0..ns
        invariant
            ns == s@.len(),
            ns == t@.len(),
            forall|j: int| 0 <= j < i ==> spec_lower(s@)[j] == t@[j],
    {
        let cs = lower_char(s.get_char(i));
        let ct = t.get_char(i);
        if cs != ct {
            proof {
                assert(spec_lower(s@)[i as int] != t@[i as int]);
            }
            return false;
        }
    }
    proof {
        assert(spec_lower(s@) =~= t@);
    }
    true
}

} // verus!
