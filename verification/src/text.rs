//! Character classes and trimming of names, as Unicode and `str::trim` define them.
use vstd::prelude::*;

verus! {

/// Unicode `White_Space` (what `char::is_whitespace` tests).
pub open spec fn is_whitespace_char(c: char) -> bool {
    let u = c as u32;
    ||| (0x09 <= u && u <= 0x0d)
    ||| u == 0x20
    ||| u == 0x85
    ||| u == 0xa0
    ||| u == 0x1680
    ||| (0x2000 <= u && u <= 0x200a)
    ||| u == 0x2028
    ||| u == 0x2029
    ||| u == 0x202f
    ||| u == 0x205f
    ||| u == 0x3000
}

/// Unicode general category `Cc` (what `char::is_control` tests).
pub open spec fn is_control_char(c: char) -> bool {
    let u = c as u32;
    u <= 0x1f || (0x7f <= u && u <= 0x9f)
}

/// Number of bytes of the UTF-8 encoding of `c`.
pub open spec fn utf8_width(c: char) -> int {
    let u = c as u32;
    if u < 0x80 {
        1
    } else if u < 0x800 {
        2
    } else if u < 0x10000 {
        3
    } else {
        4
    }
}

/// Number of bytes of the UTF-8 encoding of `s`.
pub open spec fn utf8_len(s: Seq<char>) -> int
    decreases s.len(),
{
    if s.len() == 0 {
        0
    } else {
        utf8_len(s.drop_last()) + utf8_width(s.last())
    }
}

/// `s` without its leading white space.
pub open spec fn trim_front(s: Seq<char>) -> Seq<char>
    decreases s.len(),
{
    if s.len() > 0 && is_whitespace_char(s[0]) {
        trim_front(s.drop_first())
    } else {
        s
    }
}

/// `s` without its trailing white space.
pub open spec fn trim_back(s: Seq<char>) -> Seq<char>
    decreases s.len(),
{
    if s.len() > 0 && is_whitespace_char(s.last()) {
        trim_back(s.drop_last())
    } else {
        s
    }
}

/// `s` without leading and trailing white space (what `str::trim` returns).
pub open spec fn trimmed(s: Seq<char>) -> Seq<char> {
    trim_back(trim_front(s))
}

/// A sequence that starts with a character other than white space keeps at least that
/// character when trimmed.
pub proof fn lemma_trimmed_nonempty(s: Seq<char>)
    requires
        s.len() > 0,
        !is_whitespace_char(s[0]),
    ensures
        trimmed(s).len() > 0,
{
    assert(trim_front(s) == s);
    lemma_trim_back_keeps_first(s);
}

proof fn lemma_trim_back_keeps_first(s: Seq<char>)
    requires
        s.len() > 0,
        !is_whitespace_char(s[0]),
    ensures
        trim_back(s).len() > 0,
    decreases s.len(),
{
    if is_whitespace_char(s.last()) {
        assert(s.len() > 1);
        assert(s.drop_last()[0] == s[0]);
        lemma_trim_back_keeps_first(s.drop_last());
    }
}

/// Whether `c` is white space.
pub fn is_whitespace(c: char) -> (r: bool)
    ensures
        r == is_whitespace_char(c),
{
    let u = c as u32;
    (0x09 <= u && u <= 0x0d) || u == 0x20 || u == 0x85 || u == 0xa0 || u == 0x1680 || (0x2000
        <= u && u <= 0x200a) || u == 0x2028 || u == 0x2029 || u == 0x202f || u == 0x205f || u
        == 0x3000
}

/// Whether `c` is a control character.
pub fn is_control(c: char) -> (r: bool)
    ensures
        r == is_control_char(c),
{
    let u = c as u32;
    u <= 0x1f || (0x7f <= u && u <= 0x9f)
}

/// Number of bytes of the UTF-8 encoding of `c`.
pub fn char_utf8_width(c: char) -> (r: usize)
    ensures
        r == utf8_width(c),
{
    let u = c as u32;
    if u < 0x80 {
        1
    } else if u < 0x800 {
        2
    } else if u < 0x10000 {
        3
    } else {
        4
    }
}

proof fn lemma_trim_front_step(s: Seq<char>, i: int)
    requires
        0 <= i < s.len(),
        is_whitespace_char(s[i]),
    ensures
        trim_front(s.subrange(i, s.len() as int)) == trim_front(s.subrange(i + 1, s.len() as int)),
{
    let t = s.subrange(i, s.len() as int);
    assert(t.drop_first() =~= s.subrange(i + 1, s.len() as int));
}

proof fn lemma_trim_back_subrange(s: Seq<char>, start: int, j: int)
    requires
        0 <= start <= j <= s.len(),
        start < j ==> is_whitespace_char(s[j - 1]),
    ensures
        start < j ==> trim_back(s.subrange(start, j)) == trim_back(s.subrange(start, j - 1)),
{
    if start < j {
        let t = s.subrange(start, j);
        assert(t.drop_last() =~= s.subrange(start, j - 1));
    }
}

/// Char positions `(start, end)` such that `trimmed(name@) == name@[start..end]`.
pub fn trim_bounds(name: &str) -> (r: (usize, usize))
    ensures
        r.0 <= r.1 <= name@.len(),
        trimmed(name@) == name@.subrange(r.0 as int, r.1 as int),
        (r.0 == r.1) <==> (forall|i: int| 0 <= i < name@.len() ==> is_whitespace_char(name@[i])),
{
    let n = name.unicode_len();
    let ghost s = name@;
    let mut start: usize = 0;
    assert(s.subrange(0, s.len() as int) =~= s);
    while start < n && is_whitespace(name.get_char(start))
        invariant
            n == s.len(),
            s == name@,
            start <= n,
            trim_front(s) == trim_front(s.subrange(start as int, n as int)),
            forall|i: int| 0 <= i < start ==> is_whitespace_char(s[i]),
        decreases n - start,
    {
        proof {
            lemma_trim_front_step(s, start as int);
        }
        start = start + 1;
    }
    let ghost front = s.subrange(start as int, n as int);
    assert(trim_front(s) == front) by {
        if start < n {
            assert(!is_whitespace_char(front[0]));
        }
    }
    let mut end: usize = n;
    assert(front.subrange(0, front.len() as int) =~= front);
    while end > start && is_whitespace(name.get_char(end - 1))
        invariant
            n == s.len(),
            s == name@,
            start <= end <= n,
            front == s.subrange(start as int, n as int),
            trim_back(front) == trim_back(s.subrange(start as int, end as int)),
            forall|i: int| end <= i < n ==> is_whitespace_char(s[i]),
        decreases end,
    {
        proof {
            lemma_trim_back_subrange(s, start as int, end as int);
        }
        end = end - 1;
    }
    assert(trim_back(s.subrange(start as int, end as int)) == s.subrange(start as int, end as int))
        by {
        let t = s.subrange(start as int, end as int);
        if start < end {
            assert(t.last() == s[end - 1]);
        }
    }
    proof {
        if start == end {
            assert forall|i: int| 0 <= i < s.len() implies is_whitespace_char(s[i]) by {
                if i >= start {
                    assert(end <= i);
                }
            }
        } else {
            assert(!is_whitespace_char(s[start as int]));
        }
    }
    (start, end)
}

/// Whether `name` is empty once trimmed (holds only white space).
pub fn is_blank(name: &str) -> (r: bool)
    ensures
        r == (trimmed(name@).len() == 0),
        r == (forall|i: int| 0 <= i < name@.len() ==> is_whitespace_char(name@[i])),
{
    let (start, end) = trim_bounds(name);
    start == end
}

/// The digit character for `d < 10`.
pub open spec fn digit_char(d: nat) -> char {
    if d == 0 {
        '0'
    } else if d == 1 {
        '1'
    } else if d == 2 {
        '2'
    } else if d == 3 {
        '3'
    } else if d == 4 {
        '4'
    } else if d == 5 {
        '5'
    } else if d == 6 {
        '6'
    } else if d == 7 {
        '7'
    } else if d == 8 {
        '8'
    } else {
        '9'
    }
}

/// Decimal notation of a natural number, as `Display` writes it.
pub open spec fn decimal(n: nat) -> Seq<char>
    decreases n,
{
    if n < 10 {
        seq![digit_char(n)]
    } else {
        decimal(n / 10).push(digit_char(n % 10))
    }
}

/// Decimal notation of an integer, with a leading `-` when negative.
pub open spec fn signed_decimal(n: int) -> Seq<char> {
    if n < 0 {
        seq!['-'] + decimal((-n) as nat)
    } else {
        decimal(n as nat)
    }
}

fn digit_str(d: u64) -> (r: &'static str)
    requires
        d < 10,
    ensures
        r@ == seq![digit_char(d as nat)],
{
    proof {
        reveal_strlit("0");
        reveal_strlit("1");
        reveal_strlit("2");
        reveal_strlit("3");
        reveal_strlit("4");
        reveal_strlit("5");
        reveal_strlit("6");
        reveal_strlit("7");
        reveal_strlit("8");
        reveal_strlit("9");
    }
    if d == 0 {
        "0"
    } else if d == 1 {
        "1"
    } else if d == 2 {
        "2"
    } else if d == 3 {
        "3"
    } else if d == 4 {
        "4"
    } else if d == 5 {
        "5"
    } else if d == 6 {
        "6"
    } else if d == 7 {
        "7"
    } else if d == 8 {
        "8"
    } else {
        "9"
    }
}

/// Appends the decimal notation of `n` to `s`.
pub fn append_decimal(s: &mut String, n: u64)
    ensures
        final(s)@ == old(s)@ + decimal(n as nat),
    decreases n,
{
    if n >= 10 {
        append_decimal(s, n / 10);
    }
    let d = digit_str(n % 10);
    s.append(d);
    proof {
        if n >= 10 {
            assert(decimal(n as nat) == decimal((n / 10) as nat).push(digit_char((n % 10) as nat)));
        }
    }
    assert(final(s)@ =~= old(s)@ + decimal(n as nat));
}

/// Appends the decimal notation of `n` (with `-` when negative) to `s`.
pub fn append_signed_decimal(s: &mut String, n: i64)
    ensures
        final(s)@ == old(s)@ + signed_decimal(n as int),
{
    if n < 0 {
        proof {
            reveal_strlit("-");
        }
        s.append("-");
        let m: u64 = if n == i64::MIN {
            0x8000_0000_0000_0000u64
        } else {
            (-n) as u64
        };
        append_decimal(s, m);
        assert(final(s)@ =~= old(s)@ + signed_decimal(n as int));
    } else {
        append_decimal(s, n as u64);
    }
}

/// `prefix`, the decimal notation of `n`, then `suffix`, as one string.
pub fn text_with_number(prefix: &str, n: i64, suffix: &str) -> (r: String)
    ensures
        r@ == prefix@ + signed_decimal(n as int) + suffix@,
{
    let mut s = String::from_str(prefix);
    append_signed_decimal(&mut s, n);
    s.append(suffix);
    assert(s@ =~= prefix@ + signed_decimal(n as int) + suffix@);
    s
}

} // verus!
