//! Verified character and string helpers shared by the address, identifier
//! and attribute modules: hexadecimal and decimal digits, blank tests,
//! substring search, and joining failure reasons.

use vstd::prelude::*;

verus! {

/// The hexadecimal digit character (lower case) for a value below 16.
pub open spec fn spec_hex_char(d: u64) -> char {
    if d == 0 {
        '0'
    } else if d == 1 {
        '1'
    } else if d == 2 {
        '2'
    } else if d == 3 {
        '3'
    } else if d == 4 {
        '4'
    } else if d == 5 {
        '5'
    } else if d == 6 {
        '6'
    } else if d == 7 {
        '7'
    } else if d == 8 {
        '8'
    } else if d == 9 {
        '9'
    } else if d == 10 {
        'a'
    } else if d == 11 {
        'b'
    } else if d == 12 {
        'c'
    } else if d == 13 {
        'd'
    } else if d == 14 {
        'e'
    } else {
        'f'
    }
}

/// The character is a hexadecimal digit, in either case.
pub open spec fn spec_is_hex_char(c: char) -> bool {
    ('0' <= c && c <= '9') || ('a' <= c && c <= 'f') || ('A' <= c && c <= 'F')
}

/// The value of a hexadecimal digit character, in either case.
pub open spec fn spec_hex_val(c: char) -> u64 {
    if '0' <= c && c <= '9' {
        ((c as u64) - ('0' as u64)) as u64
    } else if 'a' <= c && c <= 'f' {
        ((c as u64) - ('a' as u64) + 10) as u64
    } else {
        ((c as u64) - ('A' as u64) + 10) as u64
    }
}

pub fn hex_char_str(d: u64) -> (r: &'static str)
    requires
        d < 16,
    ensures
        r@ =~= seq![spec_hex_char(d)],
{
    let s: &'static str = if d == 0 {
        "0"
    } else if d == 1 {
        "1"
    } else if d == 2 {
        "2"
    } else if d == 3 {
        "3"
    } else if d == 4 {
        "4"
    } else if d == 5 {
        "5"
    } else if d == 6 {
        "6"
    } else if d == 7 {
        "7"
    } else if d == 8 {
        "8"
    } else if d == 9 {
        "9"
    } else if d == 10 {
        "a"
    } else if d == 11 {
        "b"
    } else if d == 12 {
        "c"
    } else if d == 13 {
        "d"
    } else if d == 14 {
        "e"
    } else {
        "f"
    };
    proof {
        reveal_strlit("0");
        reveal_strlit("1");
        reveal_strlit("2");
        reveal_strlit("3");
        reveal_strlit("4");
        reveal_strlit("5");
        reveal_strlit("6");
        reveal_strlit("7");
        reveal_strlit("8");
        reveal_strlit("9");
        reveal_strlit("a");
        reveal_strlit("b");
        reveal_strlit("c");
        reveal_strlit("d");
        reveal_strlit("e");
        reveal_strlit("f");
    }
    s
}

pub fn hex_val_of(c: char) -> (r: Option<u64>)
    ensures
        r is Some <==> spec_is_hex_char(c),
        r matches Some(d) ==> d == spec_hex_val(c) && d < 16,
{
    if '0' <= c && c <= '9' {
        Some((c as u64) - ('0' as u64))
    } else if 'a' <= c && c <= 'f' {
        Some((c as u64) - ('a' as u64) + 10)
    } else if 'A' <= c && c <= 'F' {
        Some((c as u64) - ('A' as u64) + 10)
    } else {
        None
    }
}

/// A whitespace character: the Unicode White_Space set, the same set that
/// trimming a string removes.
pub open spec fn spec_is_space(c: char) -> bool {
    ||| c == '\t'
    ||| c == '\n'
    ||| c == '\u{B}'
    ||| c == '\u{C}'
    ||| c == '\r'
    ||| c == ' '
    ||| c == '\u{85}'
    ||| c == '\u{A0}'
    ||| c == '\u{1680}'
    ||| ('\u{2000}' <= c && c <= '\u{200A}')
    ||| c == '\u{2028}'
    ||| c == '\u{2029}'
    ||| c == '\u{202F}'
    ||| c == '\u{205F}'
    ||| c == '\u{3000}'
}

/// A string that is empty or holds only whitespace.
pub open spec fn spec_is_blank(s: Seq<char>) -> bool {
    forall|i: int| 0 <= i < s.len() ==> spec_is_space(s[i])
}

fn is_space(c: char) -> (r: bool)
    ensures
        r == spec_is_space(c),
{
    c == '\t' || c == '\n' || c == '\u{B}' || c == '\u{C}' || c == '\r' || c == ' ' || c
        == '\u{85}' || c == '\u{A0}' || c == '\u{1680}' || ('\u{2000}' <= c && c <= '\u{200A}')
        || c == '\u{2028}' || c == '\u{2029}' || c == '\u{202F}' || c == '\u{205F}' || c
        == '\u{3000}'
}

/// True when the string trims to nothing.
pub fn is_blank(s: &str) -> (r: bool)
    ensures
        r == spec_is_blank(s@),
{
    let len = s.unicode_len();
    let mut i: usize = 0;
    while i < len
        invariant
            0 <= i <= len == s@.len(),
            forall|j: int| 0 <= j < i ==> spec_is_space(s@[j]),
        decreases len - i,
    {
        if !is_space(s.get_char(i)) {
            return false;
        }
        i = i + 1;
    }
    true
}

/// `sub` occurs in `s` starting at position `i`.
pub open spec fn spec_contains_at(s: Seq<char>, sub: Seq<char>, i: int) -> bool {
    0 <= i && i + sub.len() <= s.len() && s.subrange(i, i + sub.len()) == sub
}

/// `sub` occurs somewhere in `s`.
pub open spec fn spec_contains(s: Seq<char>, sub: Seq<char>) -> bool {
    exists|i: int| spec_contains_at(s, sub, i)
}

/// True when `sub` occurs as a substring of `s`.
pub fn contains_substr(s: &str, sub: &str) -> (r: bool)
    ensures
        r == spec_contains(s@, sub@),
{
    let n = s.unicode_len();
    let m = sub.unicode_len();
    if m > n {
        proof {
            assert(forall|i: int| !spec_contains_at(s@, sub@, i));
        }
        return false;
    }
    let mut i: usize = 0;
    while i <= n - m
        invariant
            0 <= i <= n - m + 1,
            m <= n,
            n == s@.len(),
            m == sub@.len(),
            forall|p: int| 0 <= p < i ==> !spec_contains_at(s@, sub@, p),
        decreases n - m + 1 - i,
    {
        let mut j: usize = 0;
        let mut all_match = true;
        while j < m
            invariant
                0 <= j <= m,
                i + m <= n,
                n == s@.len(),
                m == sub@.len(),
                all_match <==> (forall|q: int| 0 <= q < j ==> s@[i + q] == sub@[q]),
            decreases m - j,
        {
            if s.get_char(i + j) != sub.get_char(j) {
                all_match = false;
                proof {
                    assert(s@[i + j] != sub@[j as int]);
                }
                j = m;
            } else {
                j = j + 1;
            }
        }
        if all_match {
            proof {
                assert(s@.subrange(i as int, i + sub@.len()) =~= sub@);
                assert(spec_contains_at(s@, sub@, i as int));
            }
            return true;
        }
        proof {
            if spec_contains_at(s@, sub@, i as int) {
                assert(s@.subrange(i as int, i + sub@.len()) == sub@);
                assert(forall|q: int|
                    0 <= q < m ==> #[trigger] s@.subrange(i as int, i + sub@.len())[q] == s@[i
                        + q]);
                assert(false);
            }
        }
        i = i + 1;
    }
    proof {
        assert(forall|p: int| !spec_contains_at(s@, sub@, p));
    }
    false
}

/// True when the two strings hold the same characters.
pub fn str_eq(a: &str, b: &str) -> (r: bool)
    ensures
        r == (a@ == b@),
{
    let n = a.unicode_len();
    if n != b.unicode_len() {
        return false;
    }
    let mut i: usize = 0;
    while i < n
        invariant
            0 <= i <= n,
            n == a@.len() == b@.len(),
            forall|j: int| 0 <= j < i ==> a@[j] == b@[j],
        decreases n - i,
    {
        if a.get_char(i) != b.get_char(i) {
            return false;
        }
        i = i + 1;
    }
    proof {
        assert(a@ =~= b@);
    }
    true
}

/// The decimal digit character for a value below 10.
pub open spec fn spec_dec_char(d: u64) -> char {
    spec_hex_char(d)
}

/// The decimal digits of a number, most significant first, no sign and no
/// leading zeroes (a single `'0'` for zero).
pub open spec fn spec_dec_digits(n: nat) -> Seq<char>
    decreases n,
{
    if n < 10 {
        seq![spec_dec_char(n as u64)]
    } else {
        spec_dec_digits(n / 10) + seq![spec_dec_char((n % 10) as u64)]
    }
}

/// The decimal text of an integer, with a leading `'-'` when negative.
pub open spec fn spec_dec_int(n: int) -> Seq<char> {
    if n < 0 {
        seq!['-'] + spec_dec_digits((-n) as nat)
    } else {
        spec_dec_digits(n as nat)
    }
}

/// Formats an unsigned number in decimal.
pub fn u64_to_dec_string(n: u64) -> (r: String)
    ensures
        r@ == spec_dec_digits(n as nat),
    decreases n,
{
    if n < 10 {
        let mut s = String::new();
        s.append(hex_char_str(n));
        proof {
            assert(s@ =~= spec_dec_digits(n as nat));
        }
        s
    } else {
        let mut s = u64_to_dec_string(n / 10);
        s.append(hex_char_str(n % 10));
        proof {
            assert(s@ =~= spec_dec_digits(n as nat));
        }
        s
    }
}

/// Formats a signed number in decimal.
pub fn i32_to_dec_string(n: i32) -> (r: String)
    ensures
        r@ == spec_dec_int(n as int),
{
    if n >= 0 {
        u64_to_dec_string(n as u64)
    } else {
        let magnitude: u64 = (-(n as i64)) as u64;
        proof {
            assert(magnitude == -(n as int));
        }
        let mut s = String::new();
        s.append("-");
        s.append(u64_to_dec_string(magnitude).as_str());
        proof {
            reveal_strlit("-");
            assert("-"@ =~= seq!['-']);
            assert(s@ =~= spec_dec_int(n as int));
        }
        s
    }
}

/// The first position of `c` in `s` at or after `from`, or -1 when there
/// is none.
pub open spec fn spec_find(s: Seq<char>, c: char, from: int) -> int
    decreases s.len() - from,
{
    if from < 0 || from >= s.len() {
        -1
    } else if s[from] == c {
        from
    } else {
        spec_find(s, c, from + 1)
    }
}

/// Pins down `spec_find` when the first occurrence (or its absence) is
/// known: `i` is the position of `c`, or the length when `c` does not
/// occur at or after `from`.
pub proof fn lemma_find_exact(s: Seq<char>, c: char, from: int, i: int)
    requires
        0 <= from <= i <= s.len(),
        forall|j: int| from <= j < i ==> s[j] != c,
        i < s.len() ==> s[i] == c,
    ensures
        spec_find(s, c, from) == if i == s.len() {
            -1
        } else {
            i
        },
    decreases i - from,
{
    if from < i {
        lemma_find_exact(s, c, from + 1, i);
    }
}

/// Finds the first position of `c` in `s` at or after `from`.
pub fn find_char_from(s: &str, c: char, from: usize) -> (r: Option<usize>)
    requires
        from <= s@.len(),
    ensures
        r matches Some(i) ==> spec_find(s@, c, from as int) == i && from <= i < s@.len(),
        r is None ==> spec_find(s@, c, from as int) == -1,
{
    let n = s.unicode_len();
    let mut i = from;
    while i < n
        invariant
            from <= i <= n == s@.len(),
            forall|j: int| from <= j < i ==> s@[j] != c,
        decreases n - i,
    {
        if s.get_char(i) == c {
            proof {
                lemma_find_exact(s@, c, from as int, i as int);
            }
            return Some(i);
        }
        i = i + 1;
    }
    proof {
        lemma_find_exact(s@, c, from as int, s@.len() as int);
    }
    None
}

/// The pieces of `s` from `from` on, cut at every `c`; a piece can be
/// empty, and there is always at least one piece.
pub open spec fn spec_split_from(s: Seq<char>, c: char, from: int) -> Seq<Seq<char>>
    decreases s.len() - from,
{
    let i = spec_find(s, c, from);
    if i < from || i >= s.len() {
        seq![s.subrange(from, s.len() as int)]
    } else {
        seq![s.subrange(from, i)] + spec_split_from(s, c, i + 1)
    }
}

/// Splits a string at every occurrence of `c`.
pub fn split_char(s: &str, c: char) -> (parts: Vec<String>)
    ensures
        parts@.map_values(|p: String| p@) == spec_split_from(s@, c, 0),
{
    let ghost f = |p: String| p@;
    let n = s.unicode_len();
    let mut parts: Vec<String> = Vec::new();
    let mut start: usize = 0;
    loop
        invariant
            start <= n == s@.len(),
            spec_split_from(s@, c, 0) =~= parts@.map_values(|p: String| p@) + spec_split_from(
                s@,
                c,
                start as int,
            ),
        decreases n - start,
    {
        match find_char_from(s, c, start) {
            Some(i) => {
                parts.push(String::from_str(s.substring_char(start, i)));
                proof {
                    assert(parts@.map_values(f).drop_last() =~= parts@.drop_last().map_values(f));
                    assert(spec_split_from(s@, c, start as int) == seq![
                        s@.subrange(start as int, i as int),
                    ] + spec_split_from(s@, c, i + 1));
                }
                start = i + 1;
            },
            None => {
                parts.push(String::from_str(s.substring_char(start, n)));
                proof {
                    assert(parts@.map_values(f).drop_last() =~= parts@.drop_last().map_values(f));
                    assert(spec_split_from(s@, c, start as int) == seq![
                        s@.subrange(start as int, s@.len() as int),
                    ]);
                }
                return parts;
            },
        }
    }
}

/// `s` with every trailing `c` removed.
pub open spec fn spec_trim_char_end(s: Seq<char>, c: char) -> Seq<char>
    decreases s.len(),
{
    if s.len() > 0 && s.last() == c {
        spec_trim_char_end(s.drop_last(), c)
    } else {
        s
    }
}

/// Trimming does nothing when the string does not end with `c`.
pub proof fn lemma_trim_noop(s: Seq<char>, c: char)
    requires
        s.len() == 0 || s.last() != c,
    ensures
        spec_trim_char_end(s, c) == s,
{
}

/// Trimming removes exactly one trailing `c` when only one is there.
pub proof fn lemma_trim_one(s: Seq<char>, c: char)
    requires
        s.len() > 0,
        s.last() == c,
        s.len() == 1 || s[s.len() - 2] != c,
    ensures
        spec_trim_char_end(s, c) == s.drop_last(),
{
    lemma_trim_noop(s.drop_last(), c);
}

/// The trimmed string is the prefix below the first run of trailing `c`s.
pub proof fn lemma_trim_take(s: Seq<char>, c: char, k: int)
    requires
        0 <= k <= s.len(),
        forall|j: int| k <= j < s.len() ==> s[j] == c,
        k == 0 || s[k - 1] != c,
    ensures
        spec_trim_char_end(s, c) == s.subrange(0, k),
    decreases s.len(),
{
    if s.len() == k {
        assert(s.subrange(0, k) =~= s);
    } else {
        assert(s.last() == c);
        lemma_trim_take(s.drop_last(), c, k);
        assert(s.drop_last().subrange(0, k) =~= s.subrange(0, k));
    }
}

/// The index that cuts all trailing `c`s off `s`.
pub fn trim_end_index(s: &str, c: char) -> (k: usize)
    ensures
        k <= s@.len(),
        spec_trim_char_end(s@, c) == s@.subrange(0, k as int),
{
    let n = s.unicode_len();
    let mut k = n;
    while k > 0
        invariant
            0 <= k <= n == s@.len(),
            forall|j: int| k <= j < n ==> s@[j] == c,
        decreases k,
    {
        if s.get_char(k - 1) == c {
            k = k - 1;
        } else {
            proof {
                lemma_trim_take(s@, c, k as int);
            }
            return k;
        }
    }
    proof {
        lemma_trim_take(s@, c, 0);
    }
    0
}

/// The character is a decimal digit.
pub open spec fn spec_is_digit(c: char) -> bool {
    '0' <= c && c <= '9'
}

/// A non-empty string of decimal digits.
pub open spec fn spec_all_digits(s: Seq<char>) -> bool {
    s.len() > 0 && forall|i: int| 0 <= i < s.len() ==> spec_is_digit(s[i])
}

/// The number the digit string stands for.
pub open spec fn spec_digits_val(s: Seq<char>) -> int
    decreases s.len(),
{
    if s.len() == 0 {
        0
    } else {
        spec_digits_val(s.drop_last()) * 10 + (s.last() as int - '0' as int)
    }
}

/// The number a version segment stands for: defined only for non-empty
/// all-digit strings whose value fits.
pub open spec fn spec_parse_u32(s: Seq<char>) -> Option<u32> {
    if spec_all_digits(s) && spec_digits_val(s) <= 0xFFFF_FFFF {
        Some(spec_digits_val(s) as u32)
    } else {
        None
    }
}

proof fn lemma_digits_val_nonneg(s: Seq<char>)
    requires
        forall|i: int| 0 <= i < s.len() ==> spec_is_digit(s[i]),
    ensures
        spec_digits_val(s) >= 0,
    decreases s.len(),
{
    if s.len() > 0 {
        lemma_digits_val_nonneg(s.drop_last());
    }
}

/// Reads a number from a decimal-digit string, rejecting anything else and
/// values that do not fit.
pub fn parse_u32(s: &str) -> (r: Option<u32>)
    ensures
        r == spec_parse_u32(s@),
{
    let n = s.unicode_len();
    if n == 0 {
        return None;
    }
    let mut val: u64 = 0;
    let mut too_big = false;
    let mut i: usize = 0;
    while i < n
        invariant
            0 <= i <= n == s@.len(),
            forall|j: int| 0 <= j < i ==> spec_is_digit(s@[j]),
            !too_big ==> val == spec_digits_val(s@.take(i as int)) && val <= 0xFFFF_FFFF,
            too_big ==> spec_digits_val(s@.take(i as int)) > 0xFFFF_FFFF,
        decreases n - i,
    {
        let c = s.get_char(i);
        if !('0' <= c && c <= '9') {
            return None;
        }
        let d: u64 = (c as u64) - ('0' as u64);
        proof {
            assert(s@.take(i + 1).drop_last() =~= s@.take(i as int));
            assert(s@.take(i + 1).last() == s@[i as int]);
            lemma_digits_val_nonneg(s@.take(i as int));
        }
        if too_big {
            proof {
                assert(spec_digits_val(s@.take(i + 1)) == spec_digits_val(s@.take(i as int)) * 10
                    + (c as int - '0' as int));
            }
        } else {
            let nv: u64 = val * 10 + d;
            if nv > 0xFFFF_FFFF {
                too_big = true;
            } else {
                val = nv;
            }
        }
        i = i + 1;
    }
    proof {
        assert(s@.take(n as int) =~= s@);
    }
    if too_big {
        None
    } else {
        Some(val as u32)
    }
}

/// The decimal text of a number parses back to the same number.
pub proof fn lemma_dec_digits_parse(n: nat)
    requires
        n <= 0xFFFF_FFFF,
    ensures
        spec_all_digits(spec_dec_digits(n)),
        spec_digits_val(spec_dec_digits(n)) == n,
        spec_parse_u32(spec_dec_digits(n)) == Some(n as u32),
{
    lemma_dec_digits_shape(n);
}

proof fn lemma_dec_char_val(d: u64)
    requires
        d < 10,
    ensures
        spec_is_digit(spec_dec_char(d)),
        spec_dec_char(d) as int - '0' as int == d,
{
    if d == 0 {
        assert(spec_dec_char(d) == '0');
    } else if d == 1 {
        assert(spec_dec_char(d) == '1');
    } else if d == 2 {
        assert(spec_dec_char(d) == '2');
    } else if d == 3 {
        assert(spec_dec_char(d) == '3');
    } else if d == 4 {
        assert(spec_dec_char(d) == '4');
    } else if d == 5 {
        assert(spec_dec_char(d) == '5');
    } else if d == 6 {
        assert(spec_dec_char(d) == '6');
    } else if d == 7 {
        assert(spec_dec_char(d) == '7');
    } else if d == 8 {
        assert(spec_dec_char(d) == '8');
    } else {
        assert(spec_dec_char(d) == '9');
    }
}

/// The decimal text of any number is non-empty, all digits, and stands
/// for the number.
pub proof fn lemma_dec_digits_shape(n: nat)
    ensures
        spec_all_digits(spec_dec_digits(n)),
        spec_digits_val(spec_dec_digits(n)) == n,
    decreases n,
{
    if n < 10 {
        lemma_dec_char_val(n as u64);
        let s = spec_dec_digits(n);
        assert(s =~= seq![spec_dec_char(n as u64)]);
        assert(s.drop_last() =~= Seq::<char>::empty());
        assert(spec_digits_val(Seq::<char>::empty()) == 0);
        assert(s.last() == spec_dec_char(n as u64));
        assert(spec_digits_val(s) == spec_digits_val(s.drop_last()) * 10 + (s.last() as int
            - '0' as int));
    } else {
        lemma_dec_char_val((n % 10) as u64);
        lemma_dec_digits_shape(n / 10);
        let s = spec_dec_digits(n);
        let h = spec_dec_digits(n / 10);
        assert(s == h + seq![spec_dec_char((n % 10) as u64)]);
        assert(s.drop_last() =~= h);
        assert(s.last() == spec_dec_char((n % 10) as u64));
        assert(forall|i: int| 0 <= i < s.len() ==> spec_is_digit(#[trigger] s[i]));
        assert(spec_digits_val(s) == spec_digits_val(h) * 10 + (s.last() as int - '0' as int));
        vstd::arithmetic::div_mod::lemma_fundamental_div_mod(n as int, 10);
        assert(spec_digits_val(s) == (n / 10) * 10 + (n % 10));
    }
}

/// `c` does not occur in `s`.
pub open spec fn spec_no_char(s: Seq<char>, c: char) -> bool {
    forall|i: int| 0 <= i < s.len() ==> s[i] != c
}

/// Concatenation preserves the absence of a character.
pub proof fn lemma_no_char_concat(a: Seq<char>, b: Seq<char>, c: char)
    requires
        spec_no_char(a, c),
        spec_no_char(b, c),
    ensures
        spec_no_char(a + b, c),
{
    assert forall|i: int| 0 <= i < (a + b).len() implies (a + b)[i] != c by {
        if i < a.len() {
            assert((a + b)[i] == a[i]);
        } else {
            assert((a + b)[i] == b[i - a.len()]);
        }
    }
}

/// The segments glued together with `c` between consecutive ones.
pub open spec fn spec_join_char(segs: Seq<Seq<char>>, c: char) -> Seq<char>
    decreases segs.len(),
{
    if segs.len() == 0 {
        Seq::empty()
    } else if segs.len() == 1 {
        segs[0]
    } else {
        segs[0] + seq![c] + spec_join_char(segs.drop_first(), c)
    }
}

/// A character that occurs in no segment and is not the glue does not
/// occur in the joined text.
pub proof fn lemma_join_no_char(segs: Seq<Seq<char>>, c: char, x: char)
    requires
        x != c,
        forall|k: int| 0 <= k < segs.len() ==> spec_no_char(#[trigger] segs[k], x),
    ensures
        spec_no_char(spec_join_char(segs, c), x),
    decreases segs.len(),
{
    if segs.len() >= 2 {
        lemma_join_no_char(segs.drop_first(), c, x);
        lemma_no_char_concat(segs[0], seq![c], x);
        lemma_no_char_concat(segs[0] + seq![c], spec_join_char(segs.drop_first(), c), x);
    }
}

/// The first character of a join: the first segment's own first
/// character, or the glue when the first segment is empty and another
/// segment follows.
pub proof fn lemma_join_first(segs: Seq<Seq<char>>, c: char)
    requires
        segs.len() >= 1,
        segs[0].len() > 0 || segs.len() >= 2,
    ensures
        spec_join_char(segs, c).len() > 0,
        segs[0].len() > 0 ==> spec_join_char(segs, c)[0] == segs[0][0],
        segs[0].len() == 0 && segs.len() >= 2 ==> spec_join_char(segs, c)[0] == c,
{
}

/// The last character of a join whose last segment is non-empty.
pub proof fn lemma_join_last(segs: Seq<Seq<char>>, c: char)
    requires
        segs.len() >= 1,
        segs.last().len() > 0,
    ensures
        spec_join_char(segs, c).len() > 0,
        spec_join_char(segs, c).last() == segs.last().last(),
    decreases segs.len(),
{
    if segs.len() >= 2 {
        lemma_join_last(segs.drop_first(), c);
        assert(segs.drop_first().last() == segs.last());
        let rest = spec_join_char(segs.drop_first(), c);
        assert((segs[0] + seq![c] + rest).last() == rest.last());
    }
}

/// Splitting at the glue inverts joining, provided no segment holds the
/// glue character. The suffix of `s` from `from` on must be the join.
proof fn lemma_split_join_at(s: Seq<char>, segs: Seq<Seq<char>>, c: char, from: int)
    requires
        0 <= from <= s.len(),
        segs.len() >= 1,
        forall|k: int| 0 <= k < segs.len() ==> spec_no_char(#[trigger] segs[k], c),
        s.subrange(from, s.len() as int) == spec_join_char(segs, c),
    ensures
        spec_split_from(s, c, from) == segs,
    decreases segs.len(),
{
    let tail = s.subrange(from, s.len() as int);
    if segs.len() == 1 {
        assert(tail == segs[0]);
        assert(forall|j: int| from <= j < s.len() ==> #[trigger] s[j] == tail[j - from]);
        lemma_find_exact(s, c, from, s.len() as int);
        assert(spec_split_from(s, c, from) =~= seq![segs[0]]);
        assert(seq![segs[0]] =~= segs);
    } else {
        let s0 = segs[0];
        let rest = spec_join_char(segs.drop_first(), c);
        assert(tail == s0 + seq![c] + rest);
        let i = from + s0.len() as int;
        assert(forall|j: int| from <= j < s.len() ==> #[trigger] s[j] == tail[j - from]);
        assert(forall|j: int| from <= j < i ==> #[trigger] tail[j - from] == s0[j - from]);
        assert(s[i] == tail[s0.len() as int] == c);
        lemma_find_exact(s, c, from, i);
        assert(s.subrange(from, i) =~= s0);
        assert forall|j: int| 0 <= j < rest.len() implies s.subrange(i + 1, s.len() as int)[j]
            == rest[j] by {
            assert(s.subrange(i + 1, s.len() as int)[j] == s[i + 1 + j]);
            assert(s[i + 1 + j] == tail[i + 1 + j - from]);
            assert(tail[s0.len() + 1 + j] == rest[j]);
        }
        assert(s.subrange(i + 1, s.len() as int) =~= rest);
        lemma_split_join_at(s, segs.drop_first(), c, i + 1);
        assert(spec_split_from(s, c, from) == seq![s.subrange(from, i)] + spec_split_from(
            s,
            c,
            i + 1,
        ));
        assert(seq![s0] + segs.drop_first() =~= segs);
    }
}

/// Splitting at the glue inverts joining, provided no segment holds the
/// glue character.
pub proof fn lemma_split_join(segs: Seq<Seq<char>>, c: char)
    requires
        segs.len() >= 1,
        forall|k: int| 0 <= k < segs.len() ==> spec_no_char(#[trigger] segs[k], c),
    ensures
        spec_split_from(spec_join_char(segs, c), c, 0) == segs,
{
    let s = spec_join_char(segs, c);
    assert(s.subrange(0, s.len() as int) =~= s);
    lemma_split_join_at(s, segs, c, 0);
}

/// The reasons joined with `"; "`, in order.
pub open spec fn spec_join_semi(parts: Seq<Seq<char>>) -> Seq<char>
    decreases parts.len(),
{
    if parts.len() == 0 {
        Seq::empty()
    } else if parts.len() == 1 {
        parts[0]
    } else {
        spec_join_semi(parts.drop_last()) + "; "@ + parts.last()
    }
}

/// Every reason occurs verbatim inside the joined message.
pub proof fn lemma_join_semi_contains(parts: Seq<Seq<char>>, k: int)
    requires
        0 <= k < parts.len(),
    ensures
        spec_contains(spec_join_semi(parts), parts[k]),
    decreases parts.len(),
{
    reveal_strlit("; ");
    let s = spec_join_semi(parts);
    if parts.len() == 1 {
        assert(s.subrange(0, s.len() as int) =~= s);
        assert(spec_contains_at(s, parts[0], 0));
    } else {
        let a = spec_join_semi(parts.drop_last());
        assert(s == a + "; "@ + parts.last());
        if k == parts.len() - 1 {
            let i = a.len() as int + 2;
            assert(s.subrange(i, i + parts[k].len()) =~= parts[k]);
            assert(spec_contains_at(s, parts[k], i));
        } else {
            lemma_join_semi_contains(parts.drop_last(), k);
            assert(parts.drop_last()[k] == parts[k]);
            let i = choose|i: int| spec_contains_at(a, parts[k], i);
            assert(a.subrange(i, i + parts[k].len()) == parts[k]);
            assert(s.subrange(i, i + parts[k].len()) =~= a.subrange(i, i + parts[k].len()));
            assert(spec_contains_at(s, parts[k], i));
        }
    }
}

/// Joins failure reasons with `"; "`.
pub fn join_semi(parts: &Vec<String>) -> (r: String)
    ensures
        r@ == spec_join_semi(parts@.map_values(|p: String| p@)),
{
    let ghost mapped = parts@.map_values(|p: String| p@);
    let mut out = String::new();
    let mut i: usize = 0;
    while i < parts.len()
        invariant
            0 <= i <= parts.len(),
            mapped == parts@.map_values(|p: String| p@),
            mapped.len() == parts@.len(),
            out@ == spec_join_semi(mapped.take(i as int)),
        decreases parts.len() - i,
    {
        if i > 0 {
            out.append("; ");
        }
        out.append(parts[i].as_str());
        proof {
            assert(mapped.take(i + 1).drop_last() =~= mapped.take(i as int));
            assert(mapped.take(i + 1).last() == mapped[i as int]);
            if i == 0 {
                assert(out@ =~= spec_join_semi(mapped.take(i + 1)));
            } else {
                assert(out@ =~= spec_join_semi(mapped.take(i + 1)));
            }
        }
        i = i + 1;
    }
    proof {
        assert(mapped.take(parts@.len() as int) =~= mapped);
    }
    out
}

} // verus!
