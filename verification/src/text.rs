//! Text helpers shared by the validation and configuration code: decimal
//! rendering of counts, exact string comparison, blank detection and
//! substring search, each stated over the character sequence of a string.

use vstd::prelude::*;

verus! {

/// The character that writes the decimal digit `d` (for `d < 10`).
pub open spec fn digit_char(d: nat) -> char {
    if d == 0 {
        '0'
    } else if d == 1 {
        '1'
    } else if d == 2 {
        '2'
    } else if d == 3 {
        '3'
    } else if d == 4 {
        '4'
    } else if d == 5 {
        '5'
    } else if d == 6 {
        '6'
    } else if d == 7 {
        '7'
    } else if d == 8 {
        '8'
    } else {
        '9'
    }
}

/// Decimal notation of `n`: most significant digit first, no leading zeros.
pub open spec fn decimal(n: nat) -> Seq<char>
    decreases n,
{
    if n < 10 {
        seq![digit_char(n)]
    } else {
        decimal(n / 10).push(digit_char(n % 10))
    }
}

/// The number that a string of decimal digits writes, each character
/// counted by its distance from '0' in the character set.
pub open spec fn digits_value(s: Seq<char>) -> int
    decreases s.len(),
{
    if s.len() == 0 {
        0
    } else {
        digits_value(s.drop_last()) * 10 + ((s.last() as u32) as int - ('0' as u32) as int)
    }
}

/// Decimal notation is faithful: it consists of the characters '0' to '9',
/// has no leading zero unless it is "0", and reads back as the number.
pub proof fn law_decimal_reads_back(n: nat)
    ensures
        decimal(n).len() >= 1,
        forall|k: int| 0 <= k < decimal(n).len() ==> '0' <= #[trigger] decimal(n)[k] <= '9',
        n > 0 ==> decimal(n)[0] != '0',
        digits_value(decimal(n)) == n,
    decreases n,
{
    if n < 10 {
        lemma_digit_char_code(n);
        let d = decimal(n);
        assert(d.drop_last() =~= Seq::<char>::empty());
        assert(digits_value(d.drop_last()) == 0);
        assert(d.last() == digit_char(n));
    } else {
        law_decimal_reads_back(n / 10);
        lemma_digit_char_code(n % 10);
        let d = decimal(n);
        let p = decimal(n / 10);
        assert(d.drop_last() =~= p);
        assert(d[0] == p[0]);
        assert(d.last() == digit_char(n % 10));
        assert(digits_value(d) == digits_value(p) * 10 + (n % 10) as int);
        assert((n / 10) * 10 + n % 10 == n);
    }
}

/// The digit character of `d` lies `d` places after '0'.
proof fn lemma_digit_char_code(d: nat)
    requires
        d < 10,
    ensures
        (digit_char(d) as u32) as int == ('0' as u32) as int + d,
        '0' <= digit_char(d) <= '9',
        d > 0 ==> digit_char(d) != '0',
{
}

/// The one-character string that writes digit `d`.
fn digit_string(d: usize) -> (s: String)
    requires
        d < 10,
    ensures
        s@ == seq![digit_char(d as nat)],
{
    proof {
        reveal_strlit("0");
        reveal_strlit("1");
        reveal_strlit("2");
        reveal_strlit("3");
        reveal_strlit("4");
        reveal_strlit("5");
        reveal_strlit("6");
        reveal_strlit("7");
        reveal_strlit("8");
        reveal_strlit("9");
    }
    let lit = if d == 0 {
        "0"
    } else if d == 1 {
        "1"
    } else if d == 2 {
        "2"
    } else if d == 3 {
        "3"
    } else if d == 4 {
        "4"
    } else if d == 5 {
        "5"
    } else if d == 6 {
        "6"
    } else if d == 7 {
        "7"
    } else if d == 8 {
        "8"
    } else {
        "9"
    };
    let s = String::from_str(lit);
    assert(s@ =~= seq![digit_char(d as nat)]);
    s
}

/// Renders `n` in decimal, as `{}` formatting of an unsigned integer does.
pub fn decimal_string(n: usize) -> (s: String)
    ensures
        s@ == decimal(n as nat),
    decreases n,
{
    if n < 10 {
        digit_string(n)
    } else {
        let mut s = decimal_string(n / 10);
        let d = digit_string(n % 10);
        s.append(d.as_str());
        s
    }
}

/// The texts of a list of string slices.
pub open spec fn texts(list: Seq<&str>) -> Seq<Seq<char>> {
    list.map_values(|s: &str| s@)
}

/// Position of the first entry of `list` equal to `name`, if any.
pub fn position_in(list: &Vec<&str>, name: &str) -> (r: Option<usize>)
    ensures
        r is None <==> !texts(list@).contains(name@),
        r matches Some(k) ==> k < list@.len() && list@[k as int]@ == name@ && forall|m: int|
            0 <= m < k ==> list@[m]@ != name@,
{
    let n = list.len();
    let mut k: usize = 0;
    while k < n
        invariant
            n == list@.len(),
            k <= n,
            forall|m: int| 0 <= m < k ==> list@[m]@ != name@,
        decreases n - k,
    {
        if str_eq(list[k], name) {
            proof {
                assert(texts(list@)[k as int] == name@);
            }
            return Some(k);
        }
        k = k + 1;
    }
    proof {
        if texts(list@).contains(name@) {
            let m = choose|m: int| 0 <= m < texts(list@).len() && texts(list@)[m] == name@;
            assert(list@[m]@ == name@);
        }
    }
    None
}

/// Exact comparison of two strings, character by character.
pub fn str_eq(a: &str, b: &str) -> (r: bool)
    ensures
        r == (a@ == b@),
{
    let n = a.unicode_len();
    let m = b.unicode_len();
    if n != m {
        return false;
    }
    let mut i: usize = 0;
    while i < n
        invariant
            n == a@.len(),
            m == b@.len(),
            n == m,
            i <= n,
            forall|k: int| 0 <= k < i ==> a@[k] == b@[k],
        decreases n - i,
    {
        if a.get_char(i) != b.get_char(i) {
            return false;
        }
        i = i + 1;
    }
    assert(a@ =~= b@);
    true
}

/// Whether `c` has the Unicode White_Space property, the set of characters
/// that `str::trim` removes.
pub open spec fn is_white_space(c: char) -> bool {
    let u = c as u32;
    ||| 0x9 <= u <= 0xD
    ||| u == 0x20
    ||| u == 0x85
    ||| u == 0xA0
    ||| u == 0x1680
    ||| 0x2000 <= u <= 0x200A
    ||| u == 0x2028
    ||| u == 0x2029
    ||| u == 0x202F
    ||| u == 0x205F
    ||| u == 0x3000
}

/// Whether a text is empty once surrounding white space is trimmed, that is,
/// whether every character of it is white space.
pub open spec fn is_blank(s: Seq<char>) -> bool {
    forall|i: int| 0 <= i < s.len() ==> is_white_space(#[trigger] s[i])
}

/// Decides [`is_white_space`] for one character.
pub fn is_white_space_char(c: char) -> (r: bool)
    ensures
        r == is_white_space(c),
{
    let u = c as u32;
    (0x9 <= u && u <= 0xD) || u == 0x20 || u == 0x85 || u == 0xA0 || u == 0x1680 || (0x2000
        <= u && u <= 0x200A) || u == 0x2028 || u == 0x2029 || u == 0x202F || u == 0x205F || u
        == 0x3000
}

/// Decides [`is_blank`]: true when `s.trim()` would be empty.
pub fn is_blank_str(s: &str) -> (r: bool)
    ensures
        r == is_blank(s@),
{
    let n = s.unicode_len();
    let mut i: usize = 0;
    while i < n
        invariant
            n == s@.len(),
            i <= n,
            forall|k: int| 0 <= k < i ==> is_white_space(#[trigger] s@[k]),
        decreases n - i,
    {
        if !is_white_space_char(s.get_char(i)) {
            return false;
        }
        i = i + 1;
    }
    true
}

/// Whether `pattern` occurs in `text` as a run of consecutive characters.
pub open spec fn contains_run(text: Seq<char>, pattern: Seq<char>) -> bool {
    exists|i: int| 0 <= i && i + pattern.len() <= text.len() && #[trigger] text.subrange(i, i + pattern.len()) == pattern
}

/// The characters of `s`, in order.
pub fn chars_of(s: &str) -> (v: Vec<char>)
    ensures
        v@ == s@,
{
    let n = s.unicode_len();
    let mut v: Vec<char> = Vec::new();
    let mut i: usize = 0;
    while i < n
        invariant
            n == s@.len(),
            i <= n,
            v@ == s@.take(i as int),
        decreases n - i,
    {
        v.push(s.get_char(i));
        proof {
            assert(s@.take(i + 1) =~= s@.take(i as int).push(s@[i as int]));
        }
        i = i + 1;
    }
    proof {
        assert(s@.take(n as int) =~= s@);
    }
    v
}

/// Whether `pattern` occurs at position `start` of `text`.
fn occurs_at(text: &Vec<char>, pattern: &Vec<char>, start: usize) -> (r: bool)
    requires
        start + pattern@.len() <= text@.len(),
    ensures
        r == (text@.subrange(start as int, start + pattern@.len()) == pattern@),
{
    let m = pattern.len();
    let n = text.len();
    let mut k: usize = 0;
    while k < m
        invariant
            m == pattern@.len(),
            n == text@.len(),
            start + m <= text@.len(),
            k <= m,
            forall|q: int| 0 <= q < k ==> text@[start + q] == pattern@[q],
        decreases m - k,
    {
        if text[start + k] != pattern[k] {
            proof {
                assert(text@.subrange(start as int, start + m)[k as int] != pattern@[k as int]);
            }
            return false;
        }
        k = k + 1;
    }
    proof {
        assert(text@.subrange(start as int, start + m) =~= pattern@);
    }
    true
}

/// Decides [`contains_run`] by trying every starting position.
pub fn contains_chars(text: &Vec<char>, pattern: &Vec<char>) -> (r: bool)
    ensures
        r == contains_run(text@, pattern@),
{
    let n = text.len();
    let m = pattern.len();
    if m > n {
        return false;
    }
    if m == 0 {
        proof {
            assert(text@.subrange(0int, 0int + pattern@.len()) =~= pattern@);
        }
        return true;
    }
    let mut start: usize = 0;
    while start <= n - m
        invariant
            n == text@.len(),
            m == pattern@.len(),
            1 <= m <= n,
            start <= n - m + 1,
            forall|i: int|
                0 <= i < start ==> #[trigger] text@.subrange(i, i + m) != pattern@,
        decreases n - m + 1 - start,
    {
        if occurs_at(text, pattern, start) {
            return true;
        }
        start = start + 1;
    }
    proof {
        assert forall|i: int| 0 <= i && i + m <= n implies #[trigger] text@.subrange(i, i + m)
            != pattern@ by {}
    }
    false
}

} // verus!
