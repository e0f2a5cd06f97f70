use vstd::prelude::*;

verus! {

/// The character of a decimal digit.
pub open spec fn digit_char(d: nat) -> char {
    seq!['0', '1', '2', '3', '4', '5', '6', '7', '8', '9'][d as int]
}

/// The decimal digits of `n`, most significant first, without leading zeros.
pub open spec fn decimal(n: nat) -> Seq<char>
    decreases n,
{
    if n < 10 {
        seq![digit_char(n)]
    } else {
        decimal(n / 10).push(digit_char(n % 10))
    }
}

/// A length in seconds written as minutes, a colon and the remaining seconds,
/// neither padded: 271 seconds is "4:31", 61 seconds is "1:1".
pub open spec fn duration_text(seconds: nat) -> Seq<char> {
    decimal(seconds / 60) + seq![':'] + decimal(seconds % 60)
}

fn digit_str(d: u64) -> (r: &'static str)
    requires
        d < 10,
    ensures
        r@ == seq![digit_char(d as nat)],
{
    let r = match d {
        0 => "0",
        1 => "1",
        2 => "2",
        3 => "3",
        4 => "4",
        5 => "5",
        6 => "6",
        7 => "7",
        8 => "8",
        _ => "9",
    };
    proof {
        reveal_strlit("0");
        reveal_strlit("1");
        reveal_strlit("2");
        reveal_strlit("3");
        reveal_strlit("4");
        reveal_strlit("5");
        reveal_strlit("6");
        reveal_strlit("7");
        reveal_strlit("8");
        reveal_strlit("9");
    }
    assert(r@ =~= seq![digit_char(d as nat)]);
    r
}

/// The decimal text of `n`.
pub fn digits_of(n: u64) -> (r: String)
    ensures
        r@ == decimal(n as nat),
    decreases n,
{
    if n < 10 {
        String::from_str(digit_str(n))
    } else {
        let mut s = digits_of(n / 10);
        s.append(digit_str(n % 10));
        s
    }
}

/// Writes a length in seconds as "minutes:seconds".
pub fn duration_to_string(seconds: u64) -> (r: String)
    ensures
        r@ == duration_text(seconds as nat),
{
    let mut s = digits_of(seconds / 60);
    s.append(":");
    proof {
        reveal_strlit(":");
    }
    let rest = digits_of(seconds % 60);
    s.append(rest.as_str());
    s
}

/// Whether `c` has Unicode's White_Space property, which `str::trim` strips.
pub open spec fn is_white(c: char) -> bool {
    let u = c as u32;
    (9 <= u <= 13) || u == 32 || u == 0x85 || u == 0xA0 || u == 0x1680 || (0x2000 <= u <= 0x200A)
        || u == 0x2028 || u == 0x2029 || u == 0x202F || u == 0x205F || u == 0x3000
}

/// `s` without its leading white space.
pub open spec fn trim_start(s: Seq<char>) -> Seq<char>
    decreases s.len(),
{
    if s.len() > 0 && is_white(s[0]) {
        trim_start(s.drop_first())
    } else {
        s
    }
}

/// `s` without its trailing white space.
pub open spec fn trim_end(s: Seq<char>) -> Seq<char>
    decreases s.len(),
{
    if s.len() > 0 && is_white(s.last()) {
        trim_end(s.drop_last())
    } else {
        s
    }
}

/// Whether `c` is an ASCII decimal digit.
pub open spec fn is_digit(c: char) -> bool {
    48 <= c as u32 <= 57
}

/// Whether `s` is one or more ASCII decimal digits.
pub open spec fn is_digits(s: Seq<char>) -> bool {
    s.len() > 0 && forall|i: int| 0 <= i < s.len() ==> is_digit(#[trigger] s[i])
}

/// The number that the digits `s` write in base ten.
pub open spec fn digits_value(s: Seq<char>) -> nat
    decreases s.len(),
{
    if s.len() == 0 {
        0
    } else {
        digits_value(s.drop_last()) * 10 + ((s.last() as u32) - 48) as nat
    }
}

/// What one side of "minutes:seconds" counts: the number that the trimmed text
/// writes (a leading '+' allowed), or 0 where it writes no number that fits in a `u64`.
pub open spec fn field_value(s: Seq<char>) -> nat {
    let t = trim_end(trim_start(s));
    let d = if t.len() > 0 && t[0] == '+' {
        t.drop_first()
    } else {
        t
    };
    if is_digits(d) && digits_value(d) <= u64::MAX {
        digits_value(d)
    } else {
        0
    }
}

/// Whether `i` is the position of the first colon of `s`.
pub open spec fn first_colon(s: Seq<char>, i: int) -> bool {
    &&& 0 <= i < s.len()
    &&& s[i] == ':'
    &&& forall|j: int| 0 <= j < i ==> s[j] != ':'
}

/// The seconds that "minutes:seconds" text stands for, split at its first colon.
pub open spec fn duration_seconds(s: Seq<char>) -> nat {
    let i = choose|i: int| first_colon(s, i);
    60 * field_value(s.subrange(0, i)) + field_value(s.subrange(i + 1, s.len() as int))
}

fn is_white_char(c: char) -> (r: bool)
    ensures
        r == is_white(c),
{
    let u = c as u32;
    (9 <= u && u <= 13) || u == 32 || u == 0x85 || u == 0xA0 || u == 0x1680 || (0x2000 <= u && u
        <= 0x200A) || u == 0x2028 || u == 0x2029 || u == 0x202F || u == 0x205F || u == 0x3000
}

proof fn lemma_digits_prefix(t: Seq<char>, k: int)
    requires
        0 <= k <= t.len(),
        forall|i: int| 0 <= i < t.len() ==> is_digit(#[trigger] t[i]),
    ensures
        digits_value(t) >= digits_value(t.subrange(0, k)),
    decreases t.len(),
{
    if k == t.len() {
        assert(t.subrange(0, k) =~= t);
    } else {
        let u = t.drop_last();
        assert forall|i: int| 0 <= i < u.len() implies is_digit(#[trigger] u[i]) by {
            assert(u[i] == t[i]);
        }
        lemma_digits_prefix(u, k);
        assert(u.subrange(0, k) =~= t.subrange(0, k));
    }
}

/// The number written by the characters `s[a..b]`, or 0 where they are not
/// all digits, are none, or write a number past `u64::MAX`.
fn parse_digits(s: &str, a: usize, b: usize) -> (r: u64)
    requires
        a <= b <= s@.len(),
    ensures
        r == (if is_digits(s@.subrange(a as int, b as int)) && digits_value(
            s@.subrange(a as int, b as int),
        ) <= u64::MAX {
            digits_value(s@.subrange(a as int, b as int))
        } else {
            0
        }),
{
    let ghost t = s@.subrange(a as int, b as int);
    if a == b {
        return 0;
    }
    let mut acc: u64 = 0;
    let mut k: usize = a;
    assert(s@.subrange(a as int, a as int) =~= Seq::<char>::empty());
    while k < b
        invariant
            a <= k <= b <= s@.len(),
            t == s@.subrange(a as int, b as int),
            a < b,
            acc as nat == digits_value(s@.subrange(a as int, k as int)),
            forall|i: int| a <= i < k ==> is_digit(#[trigger] s@[i]),
        decreases b - k,
    {
        let c = s.get_char(k);
        let u = c as u32;
        if !(48 <= u && u <= 57) {
            assert(t[k - a] == c);
            return 0;
        }
        let d: u64 = (u - 48) as u64;
        let ghost next = s@.subrange(a as int, k + 1);
        assert(next.drop_last() =~= s@.subrange(a as int, k as int));
        if acc > (u64::MAX - d) / 10 {
            assert(acc * 10 + d > u64::MAX) by (nonlinear_arith)
                requires
                    acc > (u64::MAX - d) / 10,
                    d <= 9,
            ;
            proof {
                if is_digits(t) {
                    assert(t.subrange(0, k + 1 - a) =~= next);
                    lemma_digits_prefix(t, k + 1 - a);
                }
            }
            return 0;
        }
        assert(acc * 10 + d <= u64::MAX) by (nonlinear_arith)
            requires
                acc <= (u64::MAX - d) / 10,
                d <= 9,
        ;
        acc = acc * 10 + d;
        k += 1;
    }
    assert(s@.subrange(a as int, k as int) =~= t);
    assert forall|i: int| 0 <= i < t.len() implies is_digit(#[trigger] t[i]) by {
        assert(t[i] == s@[a + i]);
    }
    acc
}

/// One side of "minutes:seconds": the characters `s[lo..hi]`, trimmed and read as a number.
fn parse_field(s: &str, lo: usize, hi: usize) -> (r: u64)
    requires
        lo <= hi <= s@.len(),
    ensures
        r as nat == field_value(s@.subrange(lo as int, hi as int)),
{
    let mut a: usize = lo;
    while a < hi && is_white_char(s.get_char(a))
        invariant
            lo <= a <= hi <= s@.len(),
            trim_start(s@.subrange(lo as int, hi as int)) == trim_start(s@.subrange(a as int, hi as int)),
        decreases hi - a,
    {
        assert(s@.subrange(a as int, hi as int).drop_first() =~= s@.subrange(a + 1, hi as int));
        a += 1;
    }
    assert(trim_start(s@.subrange(a as int, hi as int)) == s@.subrange(a as int, hi as int));
    let mut b: usize = hi;
    while b > a && is_white_char(s.get_char(b - 1))
        invariant
            lo <= a <= b <= hi <= s@.len(),
            trim_end(s@.subrange(a as int, hi as int)) == trim_end(s@.subrange(a as int, b as int)),
        decreases b - a,
    {
        assert(s@.subrange(a as int, b as int).drop_last() =~= s@.subrange(a as int, b - 1));
        b -= 1;
    }
    assert(trim_end(s@.subrange(a as int, b as int)) == s@.subrange(a as int, b as int));
    let ghost t = s@.subrange(a as int, b as int);
    if a < b && s.get_char(a) == '+' {
        assert(t.drop_first() =~= s@.subrange(a + 1, b as int));
        parse_digits(s, a + 1, b)
    } else {
        parse_digits(s, a, b)
    }
}

/// Reads "minutes:seconds" text as a number of seconds. Each side is trimmed
/// of white space and counts 0 where it is not a number.
pub fn duration_from_string(inp: &str) -> (r: u64)
    requires
        inp@.contains(':'),
        duration_seconds(inp@) <= u64::MAX,
    ensures
        r as nat == duration_seconds(inp@),
{
    let n = inp.unicode_len();
    let mut i: usize = 0;
    while i < n && inp.get_char(i) != ':'
        invariant
            i <= n == inp@.len(),
            inp@.contains(':'),
            forall|j: int| 0 <= j < i ==> inp@[j] != ':',
        decreases n - i,
    {
        i += 1;
    }
    assert(first_colon(inp@, i as int));
    let ghost k = choose|k: int| first_colon(inp@, k);
    assert(k == i);
    let minutes = parse_field(inp, 0, i);
    let seconds = parse_field(inp, i + 1, n);
    minutes * 60 + seconds
}

proof fn lemma_digit_char(d: nat)
    requires
        d < 10,
    ensures
        digit_char(d) as u32 == 48 + d,
{
    let t = seq!['0', '1', '2', '3', '4', '5', '6', '7', '8', '9'];
    if d == 0 {
        assert(t[0] == '0');
    } else if d == 1 {
        assert(t[1] == '1');
    } else if d == 2 {
        assert(t[2] == '2');
    } else if d == 3 {
        assert(t[3] == '3');
    } else if d == 4 {
        assert(t[4] == '4');
    } else if d == 5 {
        assert(t[5] == '5');
    } else if d == 6 {
        assert(t[6] == '6');
    } else if d == 7 {
        assert(t[7] == '7');
    } else if d == 8 {
        assert(t[8] == '8');
    } else {
        assert(t[9] == '9');
    }
}

/// The decimal text of `n` is digits that read back as `n`.
pub proof fn lemma_decimal_reads_back(n: nat)
    ensures
        is_digits(decimal(n)),
        digits_value(decimal(n)) == n,
    decreases n,
{
    if n < 10 {
        lemma_digit_char(n);
        let s = decimal(n);
        assert(s.drop_last() =~= Seq::<char>::empty());
        assert(s.last() == digit_char(n));
        assert(digits_value(s) == digits_value(s.drop_last()) * 10 + ((s.last() as u32) - 48) as nat);
    } else {
        lemma_decimal_reads_back(n / 10);
        lemma_digit_char(n % 10);
        let s = decimal(n);
        assert(s.drop_last() =~= decimal(n / 10));
        assert(s.last() == digit_char(n % 10));
        assert(digits_value(s) == digits_value(s.drop_last()) * 10 + ((s.last() as u32) - 48) as nat);
        assert((n / 10) * 10 + n % 10 == n);
        assert forall|i: int| 0 <= i < s.len() implies is_digit(#[trigger] s[i]) by {
            if i < s.len() - 1 {
                assert(s[i] == decimal(n / 10)[i]);
            }
        }
    }
}

/// Digits are their own trimmed text and read back as their value.
pub proof fn lemma_field_of_digits(d: Seq<char>)
    requires
        is_digits(d),
        digits_value(d) <= u64::MAX,
    ensures
        field_value(d) == digits_value(d),
{
    assert(!is_white(d[0]));
    assert(trim_start(d) == d);
    assert(!is_white(d.last()));
    assert(trim_end(d) == d);
    assert(d[0] != '+');
}

} // verus!
