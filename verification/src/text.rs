use vstd::prelude::*;

verus! {

/// Unicode `White_Space`, the property that `char::is_whitespace` tests.
pub open spec fn is_whitespace(c: char) -> bool {
    let u = c as u32;
    (0x09 <= u && u <= 0x0D) || u == 0x20 || u == 0x85 || u == 0xA0 || u == 0x1680
        || (0x2000 <= u && u <= 0x200A) || u == 0x2028 || u == 0x2029 || u == 0x202F
        || u == 0x205F || u == 0x3000
}

/// `s` without its leading whitespace.
pub open spec fn trim_start(s: Seq<char>) -> Seq<char>
    decreases s.len(),
{
    if s.len() > 0 && is_whitespace(s[0]) {
        trim_start(s.drop_first())
    } else {
        s
    }
}

/// `s` without its trailing whitespace.
pub open spec fn trim_end(s: Seq<char>) -> Seq<char>
    decreases s.len(),
{
    if s.len() > 0 && is_whitespace(s.last()) {
        trim_end(s.drop_last())
    } else {
        s
    }
}

/// `s` without leading and trailing whitespace, as `str::trim` gives it.
pub open spec fn trimmed(s: Seq<char>) -> Seq<char> {
    trim_end(trim_start(s))
}

/// ASCII lower case of one character; other characters stay as they are.
pub open spec fn ascii_lower(c: char) -> char {
    if 'A' <= c && c <= 'Z' {
        ((c as u32) + 32) as char
    } else {
        c
    }
}

/// ASCII upper case of one character; other characters stay as they are.
pub open spec fn ascii_upper(c: char) -> char {
    if 'a' <= c && c <= 'z' {
        ((c as u32) - 32) as char
    } else {
        c
    }
}

/// `str::to_ascii_lowercase` on a character sequence.
pub open spec fn ascii_lowercase(s: Seq<char>) -> Seq<char> {
    s.map_values(|c: char| ascii_lower(c))
}

proof fn lemma_trim_start_skip(s: Seq<char>, k: int)
    requires
        0 <= k <= s.len(),
        forall|i: int| 0 <= i < k ==> is_whitespace(#[trigger] s[i]),
        k == s.len() || !is_whitespace(s[k]),
    ensures
        trim_start(s) == s.skip(k),
    decreases k,
{
    if k == 0 {
        assert(s.skip(0) =~= s);
    } else {
        let t = s.drop_first();
        assert forall|i: int| 0 <= i < k - 1 implies is_whitespace(#[trigger] t[i]) by {
            assert(t[i] == s[i + 1]);
        }
        lemma_trim_start_skip(t, k - 1);
        assert(t.skip(k - 1) =~= s.skip(k));
    }
}

/// When everything from `k` on is whitespace and the character before `k`
/// is not, trimming the end keeps exactly the first `k` characters.
pub proof fn lemma_trim_end_take(s: Seq<char>, k: int)
    requires
        0 <= k <= s.len(),
        forall|i: int| k <= i < s.len() ==> is_whitespace(#[trigger] s[i]),
        k == 0 || !is_whitespace(s[k - 1]),
    ensures
        trim_end(s) == s.take(k),
    decreases s.len() - k,
{
    if k == s.len() {
        assert(s.take(k) =~= s);
    } else {
        let t = s.drop_last();
        assert forall|i: int| k <= i < t.len() implies is_whitespace(#[trigger] t[i]) by {
            assert(t[i] == s[i]);
        }
        lemma_trim_end_take(t, k);
        assert(t.take(k) =~= s.take(k));
    }
}

/// Whether `c` is whitespace in the sense of `char::is_whitespace`.
pub fn char_is_whitespace(c: char) -> (b: bool)
    ensures
        b == is_whitespace(c),
{
    let u = c as u32;
    (0x09 <= u && u <= 0x0D) || u == 0x20 || u == 0x85 || u == 0xA0 || u == 0x1680
        || (0x2000 <= u && u <= 0x200A) || u == 0x2028 || u == 0x2029 || u == 0x202F
        || u == 0x205F || u == 0x3000
}

/// ASCII lower case of one character.
pub fn char_ascii_lower(c: char) -> (r: char)
    ensures
        r == ascii_lower(c),
{
    if 'A' <= c && c <= 'Z' {
        let u = (c as u32) + 32;
        let b = u as u8;
        b as char
    } else {
        c
    }
}

/// ASCII upper case of one character.
pub fn char_ascii_upper(c: char) -> (r: char)
    ensures
        r == ascii_upper(c),
{
    if 'a' <= c && c <= 'z' {
        let u = (c as u32) - 32;
        let b = u as u8;
        b as char
    } else {
        c
    }
}

/// Append one character to a string: `String::push`, which std documents as
/// appending the given char to the end of the string.
#[verifier::external_body]
pub(crate) fn push_char(s: &mut String, c: char)
    ensures
        final(s)@ == old(s)@.push(c),
{
    s.push(c);
}

/// The characters of a string slice.
pub fn chars_of(s: &str) -> (v: Vec<char>)
    ensures
        v@ == s@,
{
    let n = s.unicode_len();
    let mut v: Vec<char> = Vec::new();
    let mut i: usize = 0;
    while i < n
        invariant
            n == s@.len(),
            i <= n,
            v@ == s@.take(i as int),
        decreases n - i,
    {
        let c = s.get_char(i);
        v.push(c);
        i = i + 1;
        assert(v@ =~= s@.take(i as int));
    }
    assert(s@.take(n as int) =~= s@);
    v
}

/// The characters of `s` without leading and trailing whitespace.
pub fn trim_chars(s: &Vec<char>) -> (t: Vec<char>)
    ensures
        t@ == trimmed(s@),
{
    let n = s.len();
    let mut start: usize = 0;
    while start < n && char_is_whitespace(s[start])
        invariant
            start <= n,
            n == s@.len(),
            forall|i: int| 0 <= i < start ==> is_whitespace(#[trigger] s@[i]),
        decreases n - start,
    {
        start = start + 1;
    }
    proof {
        lemma_trim_start_skip(s@, start as int);
    }
    let ghost rest = s@.skip(start as int);
    let mut end: usize = n;
    while end > start && char_is_whitespace(s[end - 1])
        invariant
            start <= end <= n,
            n == s@.len(),
            rest == s@.skip(start as int),
            forall|i: int| end <= i < n ==> is_whitespace(#[trigger] s@[i]),
        decreases end - start,
    {
        end = end - 1;
    }
    proof {
        let k = end - start;
        assert forall|i: int| k <= i < rest.len() implies is_whitespace(#[trigger] rest[i]) by {
            assert(rest[i] == s@[i + start]);
        }
        if k > 0 {
            assert(rest[k - 1] == s@[end - 1]);
        }
        lemma_trim_end_take(rest, k as int);
    }
    let mut t: Vec<char> = Vec::new();
    let mut i: usize = start;
    while i < end
        invariant
            start <= i <= end <= n,
            n == s@.len(),
            t@ == s@.subrange(start as int, i as int),
        decreases end - i,
    {
        t.push(s[i]);
        i = i + 1;
        assert(t@ =~= s@.subrange(start as int, i as int));
    }
    assert(t@ =~= rest.take((end - start) as int));
    t
}

/// ASCII lower case of every character, as `to_ascii_lowercase` gives it.
pub fn lowercase_chars(s: &Vec<char>) -> (t: Vec<char>)
    ensures
        t@ == ascii_lowercase(s@),
{
    let mut t: Vec<char> = Vec::new();
    let mut i: usize = 0;
    while i < s.len()
        invariant
            i <= s.len(),
            t@ == ascii_lowercase(s@.take(i as int)),
        decreases s.len() - i,
    {
        t.push(char_ascii_lower(s[i]));
        i = i + 1;
        assert(t@ =~= ascii_lowercase(s@.take(i as int)));
    }
    assert(s@.take(s.len() as int) =~= s@);
    t
}

/// Whether the characters in `v` spell out the string `lit`.
pub fn chars_equal(v: &Vec<char>, lit: &str) -> (b: bool)
    ensures
        b == (v@ == lit@),
{
    let w = chars_of(lit);
    if v.len() != w.len() {
        return false;
    }
    let mut i: usize = 0;
    while i < v.len()
        invariant
            i <= v.len(),
            v.len() == w.len(),
            w@ == lit@,
            forall|j: int| 0 <= j < i ==> v@[j] == w@[j],
        decreases v.len() - i,
    {
        if v[i] != w[i] {
            return false;
        }
        i = i + 1;
    }
    assert(v@ =~= w@);
    true
}

/// Whether every character is an ASCII digit.
pub open spec fn all_digits(s: Seq<char>) -> bool {
    forall|i: int| 0 <= i < s.len() ==> '0' <= #[trigger] s[i] <= '9'
}

/// The value of a string of ASCII digits.
pub open spec fn digits_value(s: Seq<char>) -> int
    decreases s.len(),
{
    if s.len() == 0 {
        0
    } else {
        digits_value(s.drop_last()) * 10 + (s.last() as int - 48)
    }
}

/// The integer a decimal numeral stands for, as `str::parse` reads it: an
/// optional `+` or `-` sign followed by at least one ASCII digit.
pub open spec fn numeral_value(s: Seq<char>) -> Option<int> {
    if s.len() > 0 && (s[0] == '-' || s[0] == '+') {
        let digits = s.drop_first();
        if digits.len() > 0 && all_digits(digits) {
            Some(if s[0] == '-' { -digits_value(digits) } else { digits_value(digits) })
        } else {
            None
        }
    } else if s.len() > 0 && all_digits(s) {
        Some(digits_value(s))
    } else {
        None
    }
}

/// What `str::parse::<i32>` gives: the numeral's value when it fits in `i32`.
pub open spec fn parsed_i32(s: Seq<char>) -> Option<i32> {
    match numeral_value(s) {
        Some(v) => if i32::MIN <= v <= i32::MAX { Some(v as i32) } else { None },
        None => None,
    }
}

proof fn lemma_digits_value_nonneg(s: Seq<char>)
    requires
        all_digits(s),
    ensures
        digits_value(s) >= 0,
    decreases s.len(),
{
    if s.len() > 0 {
        assert(all_digits(s.drop_last())) by {
            assert forall|i: int| 0 <= i < s.drop_last().len() implies '0' <= #[trigger] s.drop_last()[i] <= '9' by {
                assert(s.drop_last()[i] == s[i]);
            }
        }
        lemma_digits_value_nonneg(s.drop_last());
        assert('0' <= s[s.len() - 1] <= '9');
    }
}

/// Parse the characters of `v` from `start` on as an `i32` (`str::parse::<i32>`).
pub fn parse_i32_from(v: &Vec<char>, start: usize) -> (r: Option<i32>)
    requires
        start <= v.len(),
    ensures
        r == parsed_i32(v@.skip(start as int)),
{
    let ghost s = v@.skip(start as int);
    let n = v.len();
    if start >= n {
        return None;
    }
    let mut i = start;
    let mut negative = false;
    if v[start] == '-' || v[start] == '+' {
        negative = v[start] == '-';
        i = start + 1;
        if i >= n {
            return None;
        }
    }
    let first = i;
    let ghost digits = v@.skip(first as int);
    assert(s.len() > 0 && (s[0] == '-' || s[0] == '+') ==> digits =~= s.drop_first());
    assert(!(s.len() > 0 && (s[0] == '-' || s[0] == '+')) ==> digits =~= s);
    // Magnitude so far; once it passes 2^31 it stays saturated there.
    let mut acc: i64 = 0;
    let mut saturated = false;
    while i < n
        invariant
            first <= i <= n,
            n == v@.len(),
            digits == v@.skip(first as int),
            s == v@.skip(start as int),
            s.len() > 0 && (s[0] == '-' || s[0] == '+') ==> digits == s.drop_first(),
            !(s.len() > 0 && (s[0] == '-' || s[0] == '+')) ==> digits == s,
            negative == (s.len() > 0 && s[0] == '-'),
            digits.len() > 0,
            all_digits(v@.subrange(first as int, i as int)),
            saturated ==> digits_value(v@.subrange(first as int, i as int)) > 2147483648,
            !saturated ==> acc == digits_value(v@.subrange(first as int, i as int)),
            0 <= acc <= 2147483648,
        decreases n - i,
    {
        let c = v[i];
        if !('0' <= c && c <= '9') {
            proof {
                assert(digits[i - first] == c);
                assert(!all_digits(digits));
                if s.len() > 0 && (s[0] == '-' || s[0] == '+') {
                    assert(digits == s.drop_first());
                } else {
                    assert(digits == s);
                }
            }
            return None;
        }
        let d = (c as u32 - 48) as i64;
        proof {
            let pre = v@.subrange(first as int, i as int);
            let post = v@.subrange(first as int, i + 1);
            assert(post.drop_last() =~= pre);
            assert(all_digits(post)) by {
                assert forall|j: int| 0 <= j < post.len() implies '0' <= #[trigger] post[j] <= '9' by {
                    if j < pre.len() {
                        assert(post[j] == pre[j]);
                    }
                }
            }
            lemma_digits_value_nonneg(pre);
        }
        if !saturated {
            let next = acc * 10 + d;
            if next > 2147483648 {
                saturated = true;
            } else {
                acc = next;
            }
        }
        i = i + 1;
    }
    assert(v@.subrange(first as int, n as int) =~= digits);
    if saturated {
        return None;
    }
    if negative {
        Some((0 - acc) as i32)
    } else if acc > 2147483647 {
        None
    } else {
        Some(acc as i32)
    }
}

} // verus!
