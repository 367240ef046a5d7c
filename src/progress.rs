use vstd::prelude::*;
use vstd::string::*;

verus! {

/// A character that may be part of the number in front of a percent sign.
pub open spec fn is_number_char(c: char) -> bool {
    ('0' <= c && c <= '9') || c == '.'
}

pub open spec fn is_digit(c: char) -> bool {
    '0' <= c && c <= '9'
}

/// Index of the first `%` at or after position `i`.
pub open spec fn percent_from(s: Seq<char>, i: int) -> Option<int>
    decreases s.len() - i,
{
    if i < 0 || i >= s.len() {
        None
    } else if s[i] == '%' {
        Some(i)
    } else {
        percent_from(s, i + 1)
    }
}

/// Index of the first `%` in `s`.
pub open spec fn first_percent(s: Seq<char>) -> Option<int> {
    percent_from(s, 0)
}

/// Start of the longest run of digits and dots that ends right before `end`.
pub open spec fn number_start(s: Seq<char>, end: int) -> int
    decreases end,
{
    if 0 < end <= s.len() && is_number_char(s[end - 1]) {
        number_start(s, end - 1)
    } else {
        end
    }
}

/// A text that reads as a non-negative decimal number: digits with at most
/// one dot, and at least one digit (`5`, `5.`, `.5`, `45.5`).
pub open spec fn is_decimal(t: Seq<char>) -> bool {
    &&& forall|i: int| 0 <= i < t.len() ==> is_number_char(#[trigger] t[i])
    &&& exists|i: int| 0 <= i < t.len() && is_digit(#[trigger] t[i])
    &&& forall|i: int, j: int|
        0 <= i < t.len() && 0 <= j < t.len() && #[trigger] t[i] == '.' && #[trigger] t[j] == '.'
            ==> i == j
}

/// The percentage that a log line reports: the digits and dots right before
/// its first `%`, when they read as a decimal number.
pub open spec fn progress_text(s: Seq<char>) -> Option<Seq<char>> {
    match first_percent(s) {
        None => None,
        Some(p) => {
            let t = s.subrange(number_start(s, p), p);
            if is_decimal(t) {
                Some(t)
            } else {
                None
            }
        },
    }
}

fn is_number_char_exec(c: char) -> (r: bool)
    ensures
        r == is_number_char(c),
{
    ('0' <= c && c <= '9') || c == '.'
}

/// Finds the percentage reported by a log line, as the text of a decimal
/// number; the caller turns it into a fraction by dividing by one hundred.
pub fn parse_progress(line: &str) -> (r: Option<String>)
    ensures
        match progress_text(line@) {
            Some(t) => r is Some && r->0@ == t,
            None => r is None,
        },
{
    let n = line.unicode_len();
    let mut p: usize = 0;
    while p < n && line.get_char(p) != '%'
        invariant
            p <= n,
            n == line@.len(),
            percent_from(line@, 0) == percent_from(line@, p as int),
        decreases n - p,
    {
        p = p + 1;
    }
    if p == n {
        return None;
    }
    assert(first_percent(line@) == Some(p as int));
    let mut start: usize = p;
    while start > 0 && is_number_char_exec(line.get_char(start - 1))
        invariant
            start <= p < n,
            n == line@.len(),
            number_start(line@, p as int) == number_start(line@, start as int),
            forall|k: int| start <= k < p ==> is_number_char(#[trigger] line@[k]),
        decreases start,
    {
        start = start - 1;
    }
    let ghost t = line@.subrange(start as int, p as int);
    let mut dots: usize = 0;
    let mut digits: usize = 0;
    let mut dot_at: usize = 0;
    let mut i: usize = start;
    while i < p
        invariant
            start <= i <= p < n,
            n == line@.len(),
            t == line@.subrange(start as int, p as int),
            forall|k: int| start <= k < p ==> is_number_char(#[trigger] line@[k]),
            dots <= i - start,
            digits <= i - start,
            dots == 0 ==> forall|k: int| start <= k < i ==> line@[k] != '.',
            dots == 1 ==> start <= dot_at < i && line@[dot_at as int] == '.' && forall|k: int|
                start <= k < i && k != dot_at ==> line@[k] != '.',
            dots >= 2 ==> exists|a: int, b: int|
                start <= a < b < i && line@[a] == '.' && line@[b] == '.',
            digits == 0 ==> forall|k: int| start <= k < i ==> !is_digit(line@[k]),
            digits > 0 ==> exists|k: int| start <= k < i && is_digit(line@[k]),
        decreases p - i,
    {
        let c = line.get_char(i);
        if c == '.' {
            if dots == 0 {
                dot_at = i;
            } else if dots == 1 {
                assert(line@[dot_at as int] == '.' && line@[i as int] == '.');
            }
            dots = dots + 1;
        } else {
            digits = digits + 1;
        }
        i = i + 1;
    }
    if dots <= 1 && digits > 0 {
        assert(is_decimal(t)) by {
            assert forall|k: int| 0 <= k < t.len() implies is_number_char(#[trigger] t[k]) by {
                assert(t[k] == line@[start + k]);
            }
            let k = choose|k: int| start <= k < p && is_digit(line@[k]);
            assert(t[k - start] == line@[k]);
        }
        Some(line.substring_char(start, p).to_owned())
    } else {
        proof {
            if dots == 0 {
                assert(forall|k: int| 0 <= k < t.len() ==> !is_digit(#[trigger] t[k])) by {
                    assert forall|k: int| 0 <= k < t.len() implies !is_digit(#[trigger] t[k]) by {
                        assert(t[k] == line@[start + k]);
                    }
                }
            }
            if digits == 0 {
                assert forall|k: int| 0 <= k < t.len() implies !is_digit(#[trigger] t[k]) by {
                    assert(t[k] == line@[start + k]);
                }
            }
            if dots >= 2 {
                let (a, b) = choose|a: int, b: int|
                    start <= a < b < p && line@[a] == '.' && line@[b] == '.';
                assert(t[a - start] == '.' && t[b - start] == '.');
            }
        }
        None
    }
}

proof fn lemma_percent_from_skips(s: Seq<char>, i: int, k: int)
    requires
        0 <= i <= k < s.len(),
        s[k] == '%',
        forall|j: int| i <= j < k ==> s[j] != '%',
    ensures
        percent_from(s, i) == Some(k),
    decreases k - i,
{
    if i < k {
        lemma_percent_from_skips(s, i + 1, k);
    }
}

proof fn lemma_number_start_run(s: Seq<char>, lo: int, end: int)
    requires
        0 <= lo <= end <= s.len(),
        forall|j: int| lo <= j < end ==> is_number_char(#[trigger] s[j]),
        lo == 0 || !is_number_char(s[lo - 1]),
    ensures
        number_start(s, end) == lo,
    decreases end - lo,
{
    if lo < end {
        lemma_number_start_run(s, lo, end - 1);
    }
}

/// A line that holds a decimal number `num` followed by `%`, with no `%`
/// earlier in the line and no digit or dot right before the number, reports
/// exactly `num`.
pub proof fn lemma_progress_recovers_number(pre: Seq<char>, num: Seq<char>, post: Seq<char>)
    requires
        is_decimal(num),
        forall|j: int| 0 <= j < pre.len() ==> #[trigger] pre[j] != '%',
        pre.len() == 0 || !is_number_char(pre[pre.len() - 1]),
    ensures
        progress_text(pre + num + seq!['%'] + post) == Some(num),
{
    let s = pre + num + seq!['%'] + post;
    let p: int = (pre.len() + num.len()) as int;
    assert(s[p] == '%');
    assert forall|j: int| 0 <= j < p implies s[j] != '%' by {
        if j < pre.len() {
            assert(s[j] == pre[j]);
        } else {
            assert(s[j] == num[j - pre.len()]);
        }
    }
    lemma_percent_from_skips(s, 0, p);
    assert forall|j: int| pre.len() <= j < p implies is_number_char(#[trigger] s[j]) by {
        assert(s[j] == num[j - pre.len()]);
    }
    if pre.len() > 0 {
        assert(s[pre.len() - 1] == pre[pre.len() - 1]);
    }
    lemma_number_start_run(s, pre.len() as int, p);
    assert(s.subrange(pre.len() as int, p) =~= num);
}

} // verus!
