//! Small text helpers shared by the configuration and record types:
//! whitespace trimming and extraction of the first run of digits.

use vstd::prelude::*;

verus! {

use vstd::string::StrSliceExecFns;
use vstd::string::StringExecFns;

/// Relies on `str`'s `PartialEq`: two string slices are equal exactly when
/// their character sequences are.
#[verifier::external_body]
pub(crate) fn str_eq(a: &str, b: &str) -> (r: bool)
    ensures
        r == (a@ == b@),
{
    a == b
}

/// The characters Rust's `str::trim` removes: code points with the Unicode
/// `White_Space` property.
pub open spec fn is_space_char(c: char) -> bool {
    let u = c as int;
    u == 0x20 || (0x9 <= u && u <= 0xD) || u == 0x85 || u == 0xA0 || u == 0x1680 || (0x2000 <= u
        && u <= 0x200A) || u == 0x2028 || u == 0x2029 || u == 0x202F || u == 0x205F || u == 0x3000
}

fn is_space(c: char) -> (r: bool)
    ensures
        r == is_space_char(c),
{
    let u = c as u32;
    u == 0x20 || (0x9 <= u && u <= 0xD) || u == 0x85 || u == 0xA0 || u == 0x1680 || (0x2000 <= u
        && u <= 0x200A) || u == 0x2028 || u == 0x2029 || u == 0x202F || u == 0x205F || u == 0x3000
}

/// `s` with its leading whitespace removed.
pub open spec fn trim_front(s: Seq<char>) -> Seq<char>
    decreases s.len(),
{
    if s.len() == 0 {
        s
    } else if is_space_char(s[0]) {
        trim_front(s.drop_first())
    } else {
        s
    }
}

/// `s` with its trailing whitespace removed.
pub open spec fn trim_back(s: Seq<char>) -> Seq<char>
    decreases s.len(),
{
    if s.len() == 0 {
        s
    } else if is_space_char(s.last()) {
        trim_back(s.drop_last())
    } else {
        s
    }
}

/// `s` with leading and trailing whitespace removed.
pub open spec fn trimmed(s: Seq<char>) -> Seq<char> {
    trim_back(trim_front(s))
}

proof fn lemma_trim_front_subrange(s: Seq<char>, i: int)
    requires
        0 <= i <= s.len(),
        forall|k: int| 0 <= k < i ==> is_space_char(s[k]),
        i == s.len() || !is_space_char(s[i]),
    ensures
        trim_front(s) == s.subrange(i, s.len() as int),
    decreases i,
{
    if i == 0 {
        assert(s.subrange(0, s.len() as int) =~= s);
    } else {
        assert(is_space_char(s[0]));
        lemma_trim_front_subrange(s.drop_first(), i - 1);
        assert(s.drop_first().subrange(i - 1, s.drop_first().len() as int) =~= s.subrange(
            i,
            s.len() as int,
        ));
    }
}

proof fn lemma_trim_back_subrange(s: Seq<char>, j: int)
    requires
        0 <= j <= s.len(),
        forall|k: int| j <= k < s.len() ==> is_space_char(s[k]),
        j == 0 || !is_space_char(s[j - 1]),
    ensures
        trim_back(s) == s.subrange(0, j),
    decreases s.len() - j,
{
    if j == s.len() {
        assert(s.subrange(0, j) =~= s);
    } else {
        assert(is_space_char(s.last()));
        lemma_trim_back_subrange(s.drop_last(), j);
        assert(s.drop_last().subrange(0, j) =~= s.subrange(0, j));
    }
}

/// The text with leading and trailing whitespace removed, as `str::trim`
/// would leave it.
pub fn clean_text(s: &str) -> (r: String)
    ensures
        r@ == trimmed(s@),
{
    let n = s.unicode_len();
    let mut i: usize = 0;
    while i < n
        invariant
            n == s@.len(),
            i <= n,
            forall|k: int| 0 <= k < i ==> is_space_char(s@[k]),
        ensures
            n == s@.len(),
            i <= n,
            forall|k: int| 0 <= k < i ==> is_space_char(s@[k]),
            i == n || !is_space_char(s@[i as int]),
        decreases n - i,
    {
        if !is_space(s.get_char(i)) {
            break ;
        }
        i = i + 1;
    }
    let mut j: usize = n;
    while j > i
        invariant
            n == s@.len(),
            i <= j <= n,
            forall|k: int| j <= k < n ==> is_space_char(s@[k]),
        ensures
            n == s@.len(),
            i <= j <= n,
            forall|k: int| j <= k < n ==> is_space_char(s@[k]),
            j == i || !is_space_char(s@[j - 1]),
        decreases j - i,
    {
        if !is_space(s.get_char(j - 1)) {
            break ;
        }
        j = j - 1;
    }
    proof {
        lemma_trim_front_subrange(s@, i as int);
        let t = s@.subrange(i as int, n as int);
        lemma_trim_back_subrange(t, j - i);
        assert(t.subrange(0, j - i) =~= s@.subrange(i as int, j as int));
    }
    let sub = s.substring_char(i, j);
    String::from_str(sub)
}

/// Decimal digits, the characters `'0'` through `'9'`.
pub open spec fn is_digit_char(c: char) -> bool {
    48 <= c as int && c as int <= 57
}

fn is_digit(c: char) -> (r: bool)
    ensures
        r == is_digit_char(c),
{
    let u = c as u32;
    48 <= u && u <= 57
}

/// The numeric value of a sequence of decimal digits, most significant first.
pub open spec fn digits_value(s: Seq<char>) -> int
    decreases s.len(),
{
    if s.len() == 0 {
        0
    } else {
        digits_value(s.drop_last()) * 10 + (s.last() as int - 48)
    }
}

/// The first position at or after `i` holding a digit, or the length of `s`.
pub open spec fn digit_run_start(s: Seq<char>, i: int) -> int
    decreases s.len() - i,
{
    if i < s.len() && 0 <= i && !is_digit_char(s[i]) {
        digit_run_start(s, i + 1)
    } else {
        i
    }
}

/// The first position at or after `i` not holding a digit, or the length of `s`.
pub open spec fn digit_run_end(s: Seq<char>, i: int) -> int
    decreases s.len() - i,
{
    if i < s.len() && 0 <= i && is_digit_char(s[i]) {
        digit_run_end(s, i + 1)
    } else {
        i
    }
}

/// The value of the first contiguous run of decimal digits in `text`, if
/// there is one and it fits in an `i32`; `None` otherwise.
pub fn extract_number(text: &str) -> (r: Option<i32>)
    ensures
        ({
            let st = digit_run_start(text@, 0);
            let en = digit_run_end(text@, st);
            if st == text@.len() {
                r is None
            } else if digits_value(text@.subrange(st, en)) <= i32::MAX {
                r == Some(digits_value(text@.subrange(st, en)) as i32)
            } else {
                r is None
            }
        }),
{
    let n = text.unicode_len();
    let mut st: usize = 0;
    while st < n
        invariant
            n == text@.len(),
            st <= n,
            digit_run_start(text@, 0) == digit_run_start(text@, st as int),
        ensures
            n == text@.len(),
            st <= n,
            digit_run_start(text@, 0) == st as int,
        decreases n - st,
    {
        if is_digit(text.get_char(st)) {
            break ;
        }
        st = st + 1;
    }
    if st == n {
        return None;
    }
    let ghost start = st as int;
    let mut k: usize = st;
    let mut acc: u64 = 0;
    let mut overflow: bool = false;
    while k < n
        invariant
            n == text@.len(),
            start == st as int,
            st <= k <= n,
            digit_run_end(text@, start) == digit_run_end(text@, k as int),
            !overflow ==> acc == digits_value(text@.subrange(start, k as int)) && acc
                <= i32::MAX as u64,
            overflow ==> digits_value(text@.subrange(start, k as int)) > i32::MAX,
        ensures
            n == text@.len(),
            st <= k <= n,
            digit_run_end(text@, start) == k as int,
            !overflow ==> acc == digits_value(text@.subrange(start, k as int)) && acc
                <= i32::MAX as u64,
            overflow ==> digits_value(text@.subrange(start, k as int)) > i32::MAX,
        decreases n - k,
    {
        let c = text.get_char(k);
        if !is_digit(c) {
            break ;
        }
        proof {
            assert(text@.subrange(start, k + 1).drop_last() =~= text@.subrange(start, k as int));
            assert(text@.subrange(start, k + 1).last() == text@[k as int]);
        }
        let d = (c as u32) - 48;
        if !overflow {
            let next = acc * 10 + (d as u64);
            if next > i32::MAX as u64 {
                overflow = true;
            } else {
                acc = next;
            }
        }
        k = k + 1;
    }
    if overflow {
        None
    } else {
        Some(acc as i32)
    }
}

} // verus!
