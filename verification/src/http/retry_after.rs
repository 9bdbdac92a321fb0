//! Reading a `Retry-After` header: surrounding whitespace is dropped, then the
//! text must be an unsigned decimal number of seconds that fits in a `u64`.

use vstd::prelude::*;

verus! {

/// Unicode `White_Space`, the set that `char::is_whitespace` tests.
pub open spec fn is_whitespace(c: char) -> bool {
    let u = c as u32;
    ||| 0x9 <= u <= 0xd
    ||| u == 0x20
    ||| u == 0x85
    ||| u == 0xa0
    ||| u == 0x1680
    ||| 0x2000 <= u <= 0x200a
    ||| u == 0x2028
    ||| u == 0x2029
    ||| u == 0x202f
    ||| u == 0x205f
    ||| u == 0x3000
}

/// `s` without its leading whitespace.
pub open spec fn trim_start(s: Seq<char>) -> Seq<char>
    decreases s.len(),
{
    if s.len() > 0 && is_whitespace(s[0]) {
        trim_start(s.drop_first())
    } else {
        s
    }
}

/// `s` without its trailing whitespace.
pub open spec fn trim_end(s: Seq<char>) -> Seq<char>
    decreases s.len(),
{
    if s.len() > 0 && is_whitespace(s.last()) {
        trim_end(s.drop_last())
    } else {
        s
    }
}

/// `s` without leading or trailing whitespace (`str::trim`).
pub open spec fn trim(s: Seq<char>) -> Seq<char> {
    trim_end(trim_start(s))
}

pub open spec fn is_digit(c: char) -> bool {
    '0' <= c <= '9'
}

pub open spec fn all_digits(d: Seq<char>) -> bool {
    forall|i: int| 0 <= i < d.len() ==> #[trigger] is_digit(d[i])
}

/// The number that the decimal digits `d` denote.
pub open spec fn digits_value(d: Seq<char>) -> int
    decreases d.len(),
{
    if d.len() == 0 {
        0
    } else {
        digits_value(d.drop_last()) * 10 + ((d.last() as int) - 48)
    }
}

/// The digits of an unsigned number: an optional leading `+` is dropped.
pub open spec fn unsigned_digits(t: Seq<char>) -> Seq<char> {
    if t.len() > 0 && t[0] == '+' {
        t.drop_first()
    } else {
        t
    }
}

/// `u64::from_str` on `t`: an optional `+`, then at least one decimal digit
/// and nothing else, denoting a number no larger than `u64::MAX`.
pub open spec fn parse_u64(t: Seq<char>) -> Option<u64> {
    let d = unsigned_digits(t);
    if d.len() > 0 && all_digits(d) && digits_value(d) <= u64::MAX {
        Some(digits_value(d) as u64)
    } else {
        None
    }
}

proof fn lemma_digits_value_nonneg(d: Seq<char>)
    requires
        all_digits(d),
    ensures
        digits_value(d) >= 0,
    decreases d.len(),
{
    if d.len() > 0 {
        assert(all_digits(d.drop_last())) by {
            assert forall|i: int| 0 <= i < d.drop_last().len() implies #[trigger] is_digit(
                d.drop_last()[i],
            ) by {
                assert(is_digit(d[i]));
            }
        }
        lemma_digits_value_nonneg(d.drop_last());
        assert(is_digit(d[d.len() - 1]));
    }
}

/// A longer run of digits never denotes a smaller number.
proof fn lemma_digits_value_prefix(d: Seq<char>, k: int)
    requires
        all_digits(d),
        0 <= k <= d.len(),
    ensures
        digits_value(d.take(k)) <= digits_value(d),
    decreases d.len() - k,
{
    if k < d.len() {
        lemma_digits_value_prefix(d, k + 1);
        let p = d.take(k + 1);
        assert(p.drop_last() =~= d.take(k));
        assert(all_digits(p)) by {
            assert forall|i: int| 0 <= i < p.len() implies #[trigger] is_digit(p[i]) by {
                assert(is_digit(d[i]));
            }
        }
        assert(all_digits(d.take(k))) by {
            assert forall|i: int| 0 <= i < k implies #[trigger] is_digit(d.take(k)[i]) by {
                assert(is_digit(d[i]));
            }
        }
        lemma_digits_value_nonneg(d.take(k));
        assert(is_digit(d[k]));
    } else {
        assert(d.take(k) =~= d);
    }
}

/// Parses the text of a `Retry-After` header as whole seconds. `None` when
/// the trimmed text is not an unsigned decimal number that fits in a `u64`.
pub fn parse_retry_after(value: &str) -> (r: Option<u64>)
    ensures
        r == parse_u64(trim(value@)),
{
    let n = value.unicode_len();
    let ghost s = value@;
    // Leading whitespace.
    let mut a: usize = 0;
    assert(s.subrange(0, n as int) =~= s);
    while a < n && is_ws(value.get_char(a))
        invariant
            n == s.len(),
            s == value@,
            a <= n,
            trim_start(s) == trim_start(s.subrange(a as int, n as int)),
        decreases n - a,
    {
        assert(s.subrange(a as int, n as int).drop_first() =~= s.subrange(a + 1, n as int));
        a = a + 1;
    }
    let ghost front = s.subrange(a as int, n as int);
    assert(trim_start(s) == front) by {
        if a < n {
            assert(front[0] == s[a as int]);
        }
    }
    // Trailing whitespace.
    let mut b: usize = n;
    assert(front.subrange(0, (b - a) as int) =~= front);
    while b > a && is_ws(value.get_char(b - 1))
        invariant
            n == s.len(),
            s == value@,
            a <= b <= n,
            front == s.subrange(a as int, n as int),
            trim_end(front) == trim_end(s.subrange(a as int, b as int)),
        decreases b - a,
    {
        assert(s.subrange(a as int, b as int).drop_last() =~= s.subrange(a as int, b - 1));
        b = b - 1;
    }
    let ghost t = s.subrange(a as int, b as int);
    assert(trim(s) == t) by {
        if b > a {
            assert(t.last() == s[b - 1]);
        }
    }
    // Optional sign.
    let mut i: usize = a;
    if i < b && value.get_char(i) == '+' {
        i = i + 1;
    }
    let ghost d = s.subrange(i as int, b as int);
    assert(unsigned_digits(t) =~= d);
    if i == b {
        return None;
    }
    let mut v: u64 = 0;
    let start = i;
    assert(d.take(0) =~= Seq::<char>::empty());
    while i < b
        invariant
            s == value@,
            a <= start <= i <= b <= n,
            n == s.len(),
            d == s.subrange(start as int, b as int),
            unsigned_digits(trim(s)) == d,
            d.len() > 0,
            all_digits(d.take(i - start)),
            v == digits_value(d.take(i - start)),
        decreases b - i,
    {
        let c = value.get_char(i);
        let ghost k: int = i - start;
        assert(d[k] == c);
        if c < '0' || c > '9' {
            assert(!is_digit(d[k]));
            assert(!all_digits(d));
            return None;
        }
        let dv: u64 = (c as u32 - 48) as u64;
        assert(d.take(k + 1).drop_last() =~= d.take(k));
        assert(all_digits(d.take(k + 1))) by {
            assert forall|j: int| 0 <= j < k + 1 implies #[trigger] is_digit(d.take(k + 1)[j]) by {
                if j < k {
                    assert(is_digit(d.take(k)[j]));
                }
            }
        }
        if v > 1844674407370955161 || (v == 1844674407370955161 && dv > 5) {
            proof {
                assert(digits_value(d.take(k + 1)) > u64::MAX);
                if all_digits(d) {
                    lemma_digits_value_prefix(d, k + 1);
                }
            }
            return None;
        }
        v = v * 10 + dv;
        i = i + 1;
    }
    assert(d.take(d.len() as int) =~= d);
    Some(v)
}

fn is_ws(c: char) -> (r: bool)
    ensures
        r == is_whitespace(c),
{
    let u = c as u32;
    (0x9 <= u && u <= 0xd) || u == 0x20 || u == 0x85 || u == 0xa0 || u == 0x1680 || (0x2000 <= u
        && u <= 0x200a) || u == 0x2028 || u == 0x2029 || u == 0x202f || u == 0x205f || u == 0x3000
}

} // verus!
