use vstd::prelude::*;

verus! {

pub open spec fn is_digit(c: char) -> bool {
    '0' <= c && c <= '9'
}

pub open spec fn digit_value(c: char) -> int {
    (c as u32) - ('0' as u32)
}

pub open spec fn all_digits(s: Seq<char>) -> bool {
    forall|i: int| 0 <= i < s.len() ==> is_digit(#[trigger] s[i])
}

/// Value of a string of decimal digits.
pub open spec fn digits_value(s: Seq<char>) -> int
    decreases s.len(),
{
    if s.len() == 0 {
        0
    } else {
        digits_value(s.drop_last()) * 10 + digit_value(s.last())
    }
}

/// An unsigned decimal number as `u64`'s `from_str` reads it: an optional
/// `+`, then one or more digits, with a value that fits in `u64`.
pub open spec fn parse_u64_spec(s: Seq<char>) -> Option<u64> {
    let body = if s.len() > 0 && s[0] == '+' {
        s.drop_first()
    } else {
        s
    };
    if body.len() > 0 && all_digits(body) && digits_value(body) <= u64::MAX {
        Some(digits_value(body) as u64)
    } else {
        None
    }
}

/// Index of the first `:` at or after `start`, or the length when there is none.
pub open spec fn colon_from(s: Seq<char>, start: int) -> int
    decreases s.len() - start,
{
    if start >= s.len() {
        s.len() as int
    } else if s[start] == ':' {
        start
    } else {
        colon_from(s, start + 1)
    }
}

/// Why a seek position was refused.
#[derive(PartialEq, Eq, Structural, Clone, Copy, Debug)]
pub enum SeekError {
    /// The part before the first `:` is not a number of minutes.
    Minutes,
    /// There is no part after the first `:`, or it is not a number of seconds.
    Seconds,
    /// The position in seconds does not fit in `u64`.
    TooLarge,
}

/// The position, in seconds, that a `minutes:seconds` text asks for. Parts
/// after a second `:` are ignored.
pub open spec fn seek_seconds_spec(s: Seq<char>) -> Result<u64, SeekError> {
    let c1 = colon_from(s, 0);
    match parse_u64_spec(s.subrange(0, c1)) {
        None => Err(SeekError::Minutes),
        Some(m) => if c1 >= s.len() {
            Err(SeekError::Seconds)
        } else {
            match parse_u64_spec(s.subrange(c1 + 1, colon_from(s, c1 + 1))) {
                None => Err(SeekError::Seconds),
                Some(sec) => if m * 60 + sec <= u64::MAX {
                    Ok((m * 60 + sec) as u64)
                } else {
                    Err(SeekError::TooLarge)
                },
            }
        },
    }
}

proof fn lemma_digits_value_grows(s: Seq<char>, i: int)
    requires
        0 <= i <= s.len(),
        forall|j: int| 0 <= j < s.len() ==> is_digit(#[trigger] s[j]),
    ensures
        digits_value(s.subrange(0, i)) <= digits_value(s),
    decreases s.len() - i,
{
    if i < s.len() {
        lemma_digits_value_grows(s.subrange(0, s.len() - 1), i);
        assert(s.subrange(0, s.len() - 1).subrange(0, i) =~= s.subrange(0, i));
        assert(s.drop_last() =~= s.subrange(0, s.len() - 1));
        assert(digits_value(s.drop_last()) >= 0) by {
            lemma_digits_value_nonneg(s.drop_last());
        }
    } else {
        assert(s.subrange(0, i) =~= s);
    }
}

proof fn lemma_digits_value_nonneg(s: Seq<char>)
    requires
        forall|j: int| 0 <= j < s.len() ==> is_digit(#[trigger] s[j]),
    ensures
        digits_value(s) >= 0,
    decreases s.len(),
{
    if s.len() > 0 {
        lemma_digits_value_nonneg(s.drop_last());
    }
}

/// Parses `s[lo..hi]` as `u64`'s `from_str` does.
pub fn parse_u64_range(s: &str, lo: usize, hi: usize) -> (r: Option<u64>)
    requires
        lo <= hi <= s@.len(),
    ensures
        r == parse_u64_spec(s@.subrange(lo as int, hi as int)),
{
    let ghost whole = s@.subrange(lo as int, hi as int);
    let mut start = lo;
    if lo < hi && s.get_char(lo) == '+' {
        start = lo + 1;
    }
    let ghost body = s@.subrange(start as int, hi as int);
    assert(body =~= (if whole.len() > 0 && whole[0] == '+' {
        whole.drop_first()
    } else {
        whole
    }));
    if start == hi {
        return None;
    }
    let mut v: u64 = 0;
    let mut over = false;
    let mut i = start;
    while i < hi
        invariant
            lo <= start <= i <= hi <= s@.len(),
            body == s@.subrange(start as int, hi as int),
            whole == s@.subrange(lo as int, hi as int),
            body == (if whole.len() > 0 && whole[0] == '+' {
                whole.drop_first()
            } else {
                whole
            }),
            forall|j: int| start <= j < i ==> is_digit(#[trigger] s@[j]),
            !over ==> v == digits_value(s@.subrange(start as int, i as int)),
            over ==> digits_value(s@.subrange(start as int, i as int)) > u64::MAX,
        decreases hi - i,
    {
        let c = s.get_char(i);
        if !('0' <= c && c <= '9') {
            assert(body[i - start] == c);
            assert(!is_digit(body[i - start]));
            assert(!all_digits(body));
            return None;
        }
        let ghost prev = s@.subrange(start as int, i as int);
        let ghost next = s@.subrange(start as int, i + 1);
        assert(next.drop_last() =~= prev);
        assert(next.last() == c);
        let d = (c as u32 - '0' as u32) as u64;
        if !over {
            match v.checked_mul(10) {
                Some(t) => match t.checked_add(d) {
                    Some(u) => {
                        v = u;
                    },
                    None => {
                        over = true;
                    },
                },
                None => {
                    over = true;
                },
            }
        } else {
            proof {
                lemma_digits_value_nonneg(prev);
            }
        }
        i += 1;
    }
    assert(s@.subrange(start as int, i as int) =~= body);
    if over {
        return None;
    }
    Some(v)
}

/// Finds the first `:` at or after `start`, or the length when there is none.
fn find_colon(s: &str, start: usize) -> (r: usize)
    requires
        start <= s@.len(),
    ensures
        r == colon_from(s@, start as int),
{
    let n = s.unicode_len();
    let mut i = start;
    while i < n
        invariant
            n == s@.len(),
            start <= i <= n,
            colon_from(s@, start as int) == colon_from(s@, i as int),
        decreases n - i,
    {
        if s.get_char(i) == ':' {
            return i;
        }
        i += 1;
    }
    i
}

proof fn lemma_colon_from_bounds(s: Seq<char>, start: int)
    requires
        0 <= start <= s.len(),
    ensures
        start <= colon_from(s, start) <= s.len(),
    decreases s.len() - start,
{
    if start < s.len() && s[start] != ':' {
        lemma_colon_from_bounds(s, start + 1);
    }
}

/// Reads a `minutes:seconds` seek position and returns it in seconds.
pub fn seek_seconds(s: &str) -> (r: Result<u64, SeekError>)
    ensures
        r == seek_seconds_spec(s@),
{
    let n = s.unicode_len();
    let c1 = find_colon(s, 0);
    proof {
        lemma_colon_from_bounds(s@, 0);
    }
    let minutes = match parse_u64_range(s, 0, c1) {
        Some(m) => m,
        None => {
            return Err(SeekError::Minutes);
        },
    };
    if c1 >= n {
        return Err(SeekError::Seconds);
    }
    let c2 = find_colon(s, c1 + 1);
    proof {
        lemma_colon_from_bounds(s@, c1 + 1);
    }
    let seconds = match parse_u64_range(s, c1 + 1, c2) {
        Some(x) => x,
        None => {
            return Err(SeekError::Seconds);
        },
    };
    match minutes.checked_mul(60) {
        Some(t) => match t.checked_add(seconds) {
            Some(total) => Ok(total),
            None => Err(SeekError::TooLarge),
        },
        None => Err(SeekError::TooLarge),
    }
}

} // verus!
