//! Decimal digits in text: what a run of digits is worth, how a number is
//! written, and the executable readers and writers that the codecs share.

use vstd::prelude::*;
use vstd::string::*;

verus! {

/// `c` is one of the ten ASCII digits.
pub open spec fn is_digit(c: char) -> bool {
    48 <= c as u32 && c as u32 <= 57
}

/// The value of the digit `c`.
pub open spec fn digit_of(c: char) -> nat
    recommends
        is_digit(c),
{
    (c as u32 - 48) as nat
}

/// The character that writes the digit `d`.
pub open spec fn digit_char(d: nat) -> char
    recommends
        d < 10,
{
    if d == 0 {
        '0'
    } else if d == 1 {
        '1'
    } else if d == 2 {
        '2'
    } else if d == 3 {
        '3'
    } else if d == 4 {
        '4'
    } else if d == 5 {
        '5'
    } else if d == 6 {
        '6'
    } else if d == 7 {
        '7'
    } else if d == 8 {
        '8'
    } else {
        '9'
    }
}

/// Every character of `s` is a digit.
pub open spec fn all_digits(s: Seq<char>) -> bool {
    forall|i: int| 0 <= i < s.len() ==> is_digit(#[trigger] s[i])
}

/// The number that the digits of `s` write, most significant digit first.
/// The empty text is worth zero.
pub open spec fn digits_value(s: Seq<char>) -> nat
    decreases s.len(),
{
    if s.len() == 0 {
        0
    } else {
        digits_value(s.drop_last()) * 10 + digit_of(s.last())
    }
}

/// The shortest decimal text of `n`: no leading zero, and `"0"` for zero.
pub open spec fn decimal_text(n: nat) -> Seq<char>
    decreases n,
{
    if n < 10 {
        seq![digit_char(n)]
    } else {
        decimal_text(n / 10).push(digit_char(n % 10))
    }
}

/// The last `width` decimal digits of `n`, padded with zeros on the left.
pub open spec fn fixed_text(n: nat, width: nat) -> Seq<char>
    decreases width,
{
    if width == 0 {
        Seq::empty()
    } else {
        fixed_text(n / 10, (width - 1) as nat).push(digit_char(n % 10))
    }
}

/// Ten to the power `e`.
pub open spec fn pow10(e: nat) -> nat
    decreases e,
{
    if e == 0 {
        1
    } else {
        10 * pow10((e - 1) as nat)
    }
}

/// `s` is the shortest decimal text of some number.
pub open spec fn is_minimal_decimal(s: Seq<char>) -> bool {
    &&& s.len() > 0
    &&& all_digits(s)
    &&& (s.len() == 1 || s[0] != '0')
}

/// The character of a digit is a digit, and is worth that digit.
pub proof fn lemma_digit_char(d: nat)
    requires
        d < 10,
    ensures
        is_digit(digit_char(d)),
        digit_of(digit_char(d)) == d,
{
}

/// A digit is worth less than ten, and is the character of its worth.
pub proof fn lemma_digit_of(c: char)
    requires
        is_digit(c),
    ensures
        digit_of(c) < 10,
        digit_char(digit_of(c)) == c,
{
}

/// A run of digits is worth less than ten to the power of its length.
pub proof fn lemma_digits_value_bound(s: Seq<char>)
    requires
        all_digits(s),
    ensures
        digits_value(s) < pow10(s.len()),
    decreases s.len(),
{
    if s.len() > 0 {
        lemma_digits_value_bound(s.drop_last());
        lemma_digit_of(s.last());
    }
}

/// A run of digits is worth at least what any of its prefixes is worth.
pub proof fn lemma_digits_value_prefix(s: Seq<char>, k: int)
    requires
        0 <= k <= s.len(),
    ensures
        digits_value(s.subrange(0, k)) <= digits_value(s),
    decreases s.len(),
{
    if k == s.len() {
        assert(s.subrange(0, k) =~= s);
    } else {
        assert(s.drop_last().subrange(0, k) =~= s.subrange(0, k));
        lemma_digits_value_prefix(s.drop_last(), k);
    }
}

/// What the fixed-width text of a number looks like, and that reading it
/// gives the number back when the number fits the width.
pub proof fn lemma_fixed_text(n: nat, width: nat)
    ensures
        fixed_text(n, width).len() == width,
        all_digits(fixed_text(n, width)),
        n < pow10(width) ==> digits_value(fixed_text(n, width)) == n,
    decreases width,
{
    if width > 0 {
        lemma_fixed_text(n / 10, (width - 1) as nat);
        lemma_digit_char(n % 10);
        let t = fixed_text(n, width);
        assert(t.drop_last() =~= fixed_text(n / 10, (width - 1) as nat));
        assert(t.last() == digit_char(n % 10));
    }
}

/// Writing the value of a run of digits at the run's own length gives the
/// run back.
pub proof fn lemma_fixed_text_of_value(s: Seq<char>)
    requires
        all_digits(s),
    ensures
        fixed_text(digits_value(s), s.len()) == s,
    decreases s.len(),
{
    if s.len() > 0 {
        let v = digits_value(s);
        lemma_fixed_text_of_value(s.drop_last());
        lemma_digit_of(s.last());
        assert(v / 10 == digits_value(s.drop_last()));
        assert(v % 10 == digit_of(s.last()));
        assert(fixed_text(v, s.len()) =~= s);
    } else {
        assert(fixed_text(digits_value(s), s.len()) =~= s);
    }
}

/// The shortest text of a number is minimal, and is worth the number.
pub proof fn lemma_decimal_text(n: nat)
    ensures
        is_minimal_decimal(decimal_text(n)),
        digits_value(decimal_text(n)) == n,
    decreases n,
{
    if n < 10 {
        lemma_digit_char(n);
        let t = decimal_text(n);
        assert(t.drop_last() =~= Seq::<char>::empty());
        assert(digits_value(t.drop_last()) == 0);
    } else {
        lemma_decimal_text(n / 10);
        lemma_digit_char(n % 10);
        let t = decimal_text(n);
        let head = decimal_text(n / 10);
        assert(t.drop_last() =~= head);
        assert(t.last() == digit_char(n % 10));
        assert(t[0] == head[0]);
        if head.len() == 1 {
            assert(head.drop_last() =~= Seq::<char>::empty());
            assert(digits_value(head.drop_last()) == 0);
            assert(digit_of(head[0]) == n / 10);
            assert(head[0] != '0');
        }
    }
}

/// A minimal text is the shortest text of what it is worth.
pub proof fn lemma_decimal_text_of_value(s: Seq<char>)
    requires
        is_minimal_decimal(s),
    ensures
        decimal_text(digits_value(s)) == s,
    decreases s.len(),
{
    let v = digits_value(s);
    lemma_digit_of(s.last());
    if s.len() == 1 {
        assert(s.drop_last() =~= Seq::<char>::empty());
        assert(digits_value(s.drop_last()) == 0);
        assert(decimal_text(v) =~= s);
    } else {
        let head = s.drop_last();
        assert(head[0] == s[0]);
        assert(is_minimal_decimal(head));
        lemma_decimal_text_of_value(head);
        lemma_leading_digit(head);
        assert(v / 10 == digits_value(head));
        assert(v % 10 == digit_of(s.last()));
        assert(decimal_text(v) =~= s);
    }
}

/// A run of digits that does not start with a zero is worth at least one.
pub proof fn lemma_leading_digit(s: Seq<char>)
    requires
        s.len() > 0,
        all_digits(s),
        s[0] != '0',
    ensures
        digits_value(s) >= 1,
    decreases s.len(),
{
    if s.len() == 1 {
        assert(s.drop_last() =~= Seq::<char>::empty());
        assert(digits_value(s.drop_last()) == 0);
        assert(s.last() == s[0]);
        lemma_digit_of(s[0]);
    } else {
        let head = s.drop_last();
        assert(head[0] == s[0]);
        assert forall|i: int| 0 <= i < head.len() implies is_digit(#[trigger] head[i]) by {
            assert(head[i] == s[i]);
        }
        lemma_leading_digit(head);
    }
}

/// The texts that a sequence of strings holds, one by one.
pub open spec fn texts(values: Seq<String>) -> Seq<Seq<char>> {
    values.map_values(|s: String| s@)
}

/// The characters of `s`, one by one.
pub fn chars_of(s: &str) -> (r: Vec<char>)
    ensures
        r@ == s@,
{
    let n: usize = s.unicode_len();
    let mut out: Vec<char> = Vec::new();
    let mut i: usize = 0;
    while i < n
        invariant
            n == s@.len(),
            i <= n,
            out@ == s@.subrange(0, i as int),
        decreases n - i,
    {
        out.push(s.get_char(i));
        i += 1;
        assert(out@ =~= s@.subrange(0, i as int));
    }
    assert(s@.subrange(0, n as int) =~= s@);
    out
}

/// The value of `c` when it is a digit.
pub fn digit_value(c: char) -> (r: Option<u8>)
    ensures
        r.is_some() == is_digit(c),
        r matches Some(d) ==> d as nat == digit_of(c) && d < 10,
{
    let code: u32 = c as u32;
    if 48 <= code && code <= 57 {
        Some((code - 48) as u8)
    } else {
        None
    }
}

/// Reads `chars[from..to]` as a decimal number. `None` when a character
/// there is no digit, or when the number does not fit in a `u64`.
pub fn read_digits(chars: &Vec<char>, from: usize, to: usize) -> (r: Option<u64>)
    requires
        from <= to <= chars@.len(),
    ensures
        r.is_some() == (all_digits(chars@.subrange(from as int, to as int)) && digits_value(
            chars@.subrange(from as int, to as int),
        ) <= u64::MAX),
        r matches Some(v) ==> v as nat == digits_value(chars@.subrange(from as int, to as int)),
{
    let ghost all = chars@.subrange(from as int, to as int);
    let mut acc: u64 = 0;
    let mut i: usize = from;
    proof {
        assert(all.subrange(0, 0) =~= Seq::<char>::empty());
    }
    while i < to
        invariant
            from <= i <= to <= chars@.len(),
            all == chars@.subrange(from as int, to as int),
            all_digits(all.subrange(0, i - from)),
            acc as nat == digits_value(all.subrange(0, i - from)),
        decreases to - i,
    {
        let ghost seen = all.subrange(0, i - from);
        let ghost next = all.subrange(0, i + 1 - from);
        proof {
            assert(next.drop_last() =~= seen);
            assert(next.last() == chars@[i as int]);
            assert(all[i - from] == chars@[i as int]);
            lemma_digits_value_prefix(all, i + 1 - from);
        }
        let d: u8 = match digit_value(chars[i]) {
            Some(d) => d,
            None => {
                return None;
            },
        };
        if acc > (u64::MAX - d as u64) / 10 {
            proof {
                assert(digits_value(next) == acc * 10 + d);
                assert(acc * 10 + d > u64::MAX);
            }
            return None;
        }
        acc = acc * 10 + d as u64;
        i += 1;
        proof {
            assert forall|k: int| 0 <= k < next.len() implies is_digit(#[trigger] next[k]) by {
                if k < seen.len() {
                    assert(next[k] == seen[k]);
                }
            }
        }
    }
    proof {
        assert(all.subrange(0, to - from) =~= all);
    }
    Some(acc)
}

/// The one-character text of the digit `d`.
pub fn digit_str(d: u8) -> (r: &'static str)
    requires
        d < 10,
    ensures
        r@ == seq![digit_char(d as nat)],
{
    proof {
        reveal_strlit("0");
        reveal_strlit("1");
        reveal_strlit("2");
        reveal_strlit("3");
        reveal_strlit("4");
        reveal_strlit("5");
        reveal_strlit("6");
        reveal_strlit("7");
        reveal_strlit("8");
        reveal_strlit("9");
    }
    let r: &'static str = if d == 0 {
        "0"
    } else if d == 1 {
        "1"
    } else if d == 2 {
        "2"
    } else if d == 3 {
        "3"
    } else if d == 4 {
        "4"
    } else if d == 5 {
        "5"
    } else if d == 6 {
        "6"
    } else if d == 7 {
        "7"
    } else if d == 8 {
        "8"
    } else {
        "9"
    };
    assert(r@ =~= seq![digit_char(d as nat)]);
    r
}

/// Appends the shortest decimal text of `n` to `out`.
pub fn push_decimal(out: &mut String, n: u64)
    ensures
        final(out)@ == old(out)@ + decimal_text(n as nat),
    decreases n,
{
    if n >= 10 {
        push_decimal(out, n / 10);
    }
    out.append(digit_str((n % 10) as u8));
    proof {
        if n >= 10 {
            assert(final(out)@ =~= old(out)@ + decimal_text(n as nat));
        } else {
            assert(final(out)@ =~= old(out)@ + decimal_text(n as nat));
        }
    }
}

/// Appends the last `width` digits of `n` to `out`, zeros on the left.
pub fn push_fixed(out: &mut String, n: u32, width: usize)
    ensures
        final(out)@ == old(out)@ + fixed_text(n as nat, width as nat),
    decreases width,
{
    if width > 0 {
        push_fixed(out, n / 10, width - 1);
        out.append(digit_str((n % 10) as u8));
    }
    proof {
        assert(final(out)@ =~= old(out)@ + fixed_text(n as nat, width as nat));
    }
}

/// Whether two texts hold the same characters.
pub fn same_text(a: &str, b: &str) -> (r: bool)
    ensures
        r == (a@ == b@),
{
    let n: usize = a.unicode_len();
    if n != b.unicode_len() {
        return false;
    }
    let mut i: usize = 0;
    while i < n
        invariant
            n == a@.len(),
            n == b@.len(),
            i <= n,
            a@.subrange(0, i as int) == b@.subrange(0, i as int),
        decreases n - i,
    {
        if a.get_char(i) != b.get_char(i) {
            return false;
        }
        i += 1;
        assert(a@.subrange(0, i as int) =~= b@.subrange(0, i as int)) by {
            assert forall|k: int| 0 <= k < i implies a@[k] == b@[k] by {
                if k < i - 1 {
                    assert(a@.subrange(0, i - 1)[k] == b@.subrange(0, i - 1)[k]);
                }
            }
        }
    }
    assert(a@.subrange(0, n as int) =~= a@);
    assert(b@.subrange(0, n as int) =~= b@);
    true
}

} // verus!
