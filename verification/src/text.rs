//! Text building blocks: decimal rendering of integers and line splitting.
use vstd::prelude::*;
use vstd::string::StrSliceExecFns;
use vstd::string::StringExecFns;

verus! {

/// The character of a decimal digit `d` (0..=9).
pub open spec fn digit_char(d: nat) -> char {
    if d == 0 { '0' }
    else if d == 1 { '1' }
    else if d == 2 { '2' }
    else if d == 3 { '3' }
    else if d == 4 { '4' }
    else if d == 5 { '5' }
    else if d == 6 { '6' }
    else if d == 7 { '7' }
    else if d == 8 { '8' }
    else { '9' }
}

/// The decimal digits of `n`, most significant first, without leading zeros.
pub open spec fn decimal_digits(n: nat) -> Seq<char>
    decreases n,
{
    if n < 10 {
        seq![digit_char(n)]
    } else {
        decimal_digits(n / 10).push(digit_char(n % 10))
    }
}

/// `String::push`: appends the character `c` at the end of `s`, as its
/// documentation says; nothing else of the string changes.
#[verifier::external_body]
pub(crate) fn push_char(s: &mut String, c: char)
    ensures
        final(s)@ == old(s)@.push(c),
{
    s.push(c);
}

fn digit(d: u64) -> (c: char)
    requires
        d < 10,
    ensures
        c == digit_char(d as nat),
{
    match d {
        0 => '0',
        1 => '1',
        2 => '2',
        3 => '3',
        4 => '4',
        5 => '5',
        6 => '6',
        7 => '7',
        8 => '8',
        _ => '9',
    }
}

/// Appends the decimal digits of `n` to `s`.
pub fn push_decimal(s: &mut String, n: u64)
    ensures
        final(s)@ == old(s)@ + decimal_digits(n as nat),
    decreases n,
{
    if n >= 10 {
        push_decimal(s, n / 10);
    }
    push_char(s, digit(n % 10));
}


/// `line` without one trailing carriage return, if it ends in one.
pub open spec fn strip_cr(line: Seq<char>) -> Seq<char> {
    if line.len() > 0 && line.last() == '\r' {
        line.drop_last()
    } else {
        line
    }
}

/// Index of the first newline in `s`, or `s.len()` when there is none.
pub open spec fn first_newline(s: Seq<char>) -> int
    decreases s.len(),
{
    if s.len() == 0 {
        0
    } else if s[0] == '\n' {
        0
    } else {
        1 + first_newline(s.drop_first())
    }
}

/// The first newline index lies within the text.
pub proof fn lemma_first_newline_bounds(s: Seq<char>)
    ensures
        0 <= first_newline(s) <= s.len(),
        first_newline(s) < s.len() ==> s[first_newline(s)] == '\n',
        forall|j: int| 0 <= j < first_newline(s) ==> s[j] != '\n',
    decreases s.len(),
{
    if s.len() > 0 && s[0] != '\n' {
        lemma_first_newline_bounds(s.drop_first());
        assert forall|j: int| 0 <= j < first_newline(s) implies s[j] != '\n' by {
            if j > 0 {
                assert(s[j] == s.drop_first()[j - 1]);
            }
        }
    }
}

/// The lines of `s`: pieces separated by `\n`, a `\r` right before a `\n`
/// dropped, and no empty last line after a final `\n`.
pub open spec fn text_lines(s: Seq<char>) -> Seq<Seq<char>>
    decreases s.len(),
{
    if s.len() == 0 {
        seq![]
    } else {
        let i = first_newline(s);
        proof {
            lemma_first_newline_bounds(s);
        }
        if i >= s.len() {
            seq![s]
        } else {
            seq![strip_cr(s.take(i))] + text_lines(s.skip(i + 1))
        }
    }
}


/// `first_newline` is the position of the first `\n`, whichever the text.
pub proof fn lemma_first_newline_at(t: Seq<char>, k: int)
    requires
        0 <= k <= t.len(),
        k < t.len() ==> t[k] == '\n',
        forall|j: int| 0 <= j < k ==> t[j] != '\n',
    ensures
        first_newline(t) == k,
    decreases t.len(),
{
    if t.len() > 0 && k > 0 {
        assert forall|j: int| 0 <= j < k - 1 implies t.drop_first()[j] != '\n' by {
            assert(t.drop_first()[j] == t[j + 1]);
        }
        lemma_first_newline_at(t.drop_first(), k - 1);
    }
}

/// Splits `s` into its lines, as `str::lines` does.
pub fn split_lines(s: &str) -> (lines: Vec<String>)
    ensures
        lines@.len() == text_lines(s@).len(),
        forall|k: int| 0 <= k < lines@.len() ==> #[trigger] lines@[k]@ == text_lines(s@)[k],
{
    let n = s.unicode_len();
    let mut lines: Vec<String> = Vec::new();
    let mut cur = String::new();
    let mut pending_cr = false;
    let mut i: usize = 0;
    let mut start: usize = 0;
    let ghost mut done: Seq<Seq<char>> = seq![];
    assert(s@.skip(0) == s@);
    while i < n
        invariant
            n == s@.len(),
            0 <= start <= i <= n,
            lines@.len() == done.len(),
            forall|k: int| 0 <= k < lines@.len() ==> #[trigger] lines@[k]@ == done[k],
            text_lines(s@) == done + text_lines(s@.skip(start as int)),
            (if pending_cr { cur@.push('\r') } else { cur@ }) == s@.subrange(start as int, i as int),
            forall|j: int| start <= j < i ==> s@[j] != '\n',
            !pending_cr ==> (cur@.len() == 0 || cur@.last() != '\r'),
        decreases n - i,
    {
        let c = s.get_char(i);
        proof {
            assert(s@.subrange(start as int, i + 1) == s@.subrange(start as int, i as int).push(c));
        }
        if c == '\n' {
            let ghost t = s@.skip(start as int);
            let ghost k = i - start;
            proof {
                assert forall|j: int| 0 <= j < k implies t[j] != '\n' by {
                    assert(t[j] == s@[start + j]);
                }
                lemma_first_newline_at(t, k);
                assert(t.take(k) == s@.subrange(start as int, i as int));
                assert(t.skip(k + 1) == s@.skip(i + 1));
                assert(text_lines(t) == seq![strip_cr(t.take(k))] + text_lines(t.skip(k + 1)));
                assert(strip_cr(t.take(k)) == cur@);
                assert(done + text_lines(t) == done.push(cur@) + text_lines(s@.skip(i + 1)));
                done = done.push(cur@);
            }
            lines.push(cur);
            cur = String::new();
            pending_cr = false;
            start = i + 1;
        } else if c == '\r' {
            if pending_cr {
                push_char(&mut cur, '\r');
            }
            pending_cr = true;
        } else {
            if pending_cr {
                push_char(&mut cur, '\r');
            }
            push_char(&mut cur, c);
            pending_cr = false;
        }
        i = i + 1;
    }
    if pending_cr {
        push_char(&mut cur, '\r');
    }
    if start < n {
        let ghost t = s@.skip(start as int);
        proof {
            assert forall|j: int| 0 <= j < t.len() implies t[j] != '\n' by {
                assert(t[j] == s@[start + j]);
            }
            lemma_first_newline_at(t, t.len() as int);
            assert(t == s@.subrange(start as int, n as int));
            done = done.push(cur@);
        }
        lines.push(cur);
    } else {
        proof {
            assert(s@.skip(start as int).len() == 0);
        }
    }
    proof {
        assert(done == text_lines(s@));
    }
    lines
}


/// The text of an integer as `{}` writes it: a minus sign for negative
/// values, then the decimal digits of its magnitude.
pub open spec fn int_text(n: int) -> Seq<char> {
    if n < 0 {
        seq!['-'] + decimal_digits((-n) as nat)
    } else {
        decimal_digits(n as nat)
    }
}

/// `count` zeros.
pub open spec fn zeros(count: nat) -> Seq<char> {
    Seq::new(count, |_i: int| '0')
}

/// The text of an integer as `{:0width$}` writes it: the sign first, then
/// zeros until the whole text is `width` long, then the digits.
pub open spec fn zero_padded_text(n: int, width: nat) -> Seq<char> {
    let sign: Seq<char> = if n < 0 { seq!['-'] } else { seq![] };
    let digits = decimal_digits(if n < 0 { (-n) as nat } else { n as nat });
    let used = sign.len() + digits.len();
    let fill: nat = if used < width { (width - used) as nat } else { 0 };
    sign + zeros(fill) + digits
}

fn magnitude(n: i32) -> (m: u64)
    ensures
        m as int == if n < 0 { -n } else { n as int },
{
    if n < 0 {
        (-(n as i64)) as u64
    } else {
        n as u64
    }
}

/// Appends the text of `n` as `{}` writes it.
pub fn push_int(s: &mut String, n: i32)
    ensures
        final(s)@ == old(s)@ + int_text(n as int),
{
    let ghost before = s@;
    if n < 0 {
        push_char(s, '-');
    }
    push_decimal(s, magnitude(n));
    proof {
        if n < 0 {
            assert(before.push('-') + decimal_digits((-n) as nat)
                == before + (seq!['-'] + decimal_digits((-n) as nat)));
        }
    }
}

/// Appends the text of `n` as `{:0width$}` writes it.
pub fn push_zero_padded(s: &mut String, n: i32, width: usize)
    ensures
        final(s)@ == old(s)@ + zero_padded_text(n as int, width as nat),
{
    let ghost before = s@;
    let mut digits = String::new();
    push_decimal(&mut digits, magnitude(n));
    let len = digits.as_str().unicode_len();
    let sign: usize = if n < 0 { 1 } else { 0 };
    let ghost sign_seq: Seq<char> = if n < 0 { seq!['-'] } else { seq![] };
    let fill: usize = if len < width && sign < width - len { width - len - sign } else { 0 };
    if n < 0 {
        push_char(s, '-');
    }
    let mut k: usize = 0;
    while k < fill
        invariant
            k <= fill,
            s@ == before + sign_seq + zeros(k as nat),
        decreases fill - k,
    {
        push_char(s, '0');
        k = k + 1;
        proof {
            assert(zeros((k - 1) as nat).push('0') == zeros(k as nat));
        }
    }
    s.append(digits.as_str());
    proof {
        assert(s@ == before + (sign_seq + zeros(fill as nat) + digits@));
    }
}


/// The value of a decimal digit character, or -1 for any other character.
pub open spec fn digit_value(c: char) -> int {
    if c == '0' { 0 }
    else if c == '1' { 1 }
    else if c == '2' { 2 }
    else if c == '3' { 3 }
    else if c == '4' { 4 }
    else if c == '5' { 5 }
    else if c == '6' { 6 }
    else if c == '7' { 7 }
    else if c == '8' { 8 }
    else if c == '9' { 9 }
    else { -1 }
}

/// The number that a string of decimal digits denotes.
pub open spec fn digits_value(s: Seq<char>) -> int
    decreases s.len(),
{
    if s.len() == 0 {
        0
    } else {
        digits_value(s.drop_last()) * 10 + digit_value(s.last())
    }
}

proof fn lemma_digit_value(k: nat)
    requires
        k < 10,
    ensures
        digit_value(digit_char(k)) == k,
{
}

/// The digits written for a number are decimal digits, start with a
/// nonzero digit unless the number is zero, and read back as the number.
pub proof fn law_decimal_digits_read_back(n: nat)
    ensures
        decimal_digits(n).len() >= 1,
        forall|i: int| 0 <= i < decimal_digits(n).len() ==> 0 <= #[trigger] digit_value(decimal_digits(n)[i]) <= 9,
        n != 0 ==> decimal_digits(n)[0] != '0',
        digits_value(decimal_digits(n)) == n,
    decreases n,
{
    if n < 10 {
        lemma_digit_value(n);
        let d = decimal_digits(n);
        assert(d.drop_last() =~= Seq::<char>::empty());
        assert(digits_value(d.drop_last()) == 0);
        assert(d.last() == digit_char(n));
        assert(digits_value(d) == digits_value(d.drop_last()) * 10 + digit_value(d.last()));
    } else {
        law_decimal_digits_read_back(n / 10);
        lemma_digit_value(n % 10);
        assert((n / 10) * 10 + n % 10 == n) by (nonlinear_arith);
        let d = decimal_digits(n);
        let prefix = decimal_digits(n / 10);
        assert(d.drop_last() == prefix);
        assert(d[0] == prefix[0]);
        assert(d.last() == digit_char(n % 10));
        assert(digits_value(d) == digits_value(prefix) * 10 + digit_value(d.last()));
        assert forall|i: int| 0 <= i < d.len() implies 0 <= #[trigger] digit_value(d[i]) <= 9 by {
            if i < prefix.len() {
                assert(d[i] == prefix[i]);
            }
        }
    }
}

} // verus!
