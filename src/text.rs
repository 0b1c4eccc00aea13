use vstd::prelude::*;

verus! {

/// Position of the first `ch` in `s` at or after `k`, or -1.
pub open spec fn find_char(s: Seq<char>, ch: char, k: int) -> int
    decreases s.len() - k,
{
    if k >= s.len() {
        -1
    } else if 0 <= k && s[k] == ch {
        k
    } else {
        find_char(s, ch, k + 1)
    }
}

pub proof fn lemma_find_char_bounds(s: Seq<char>, ch: char, k: int)
    requires
        0 <= k,
    ensures
        find_char(s, ch, k) == -1 || (k <= find_char(s, ch, k) < s.len() && s[find_char(s, ch, k)] == ch),
    decreases s.len() - k,
{
    if k < s.len() && s[k] != ch {
        lemma_find_char_bounds(s, ch, k + 1);
    }
}

/// Position of the first `ch` in `s` at or after `k`, or `n` (the length) if there is none.
pub fn find_from(s: &str, ch: char, k: usize, n: usize) -> (r: usize)
    requires
        n == s@.len(),
        k <= n,
    ensures
        r <= n,
        r == n <==> find_char(s@, ch, k as int) == -1,
        r < n ==> find_char(s@, ch, k as int) == r as int,
{
    let mut j: usize = k;
    while j < n
        invariant
            k <= j <= n,
            n == s@.len(),
            find_char(s@, ch, k as int) == find_char(s@, ch, j as int),
        decreases n - j,
    {
        if s.get_char(j) == ch {
            return j;
        }
        j = j + 1;
    }
    j
}


/// Unicode White_Space, the characters that `str::trim` removes.
pub open spec fn is_space(c: char) -> bool {
    let u = c as u32;
    (0x9 <= u && u <= 0xD) || u == 0x20 || u == 0x85 || u == 0xA0 || u == 0x1680 || (0x2000 <= u && u <= 0x200A)
        || u == 0x2028 || u == 0x2029 || u == 0x202F || u == 0x205F || u == 0x3000
}

pub fn is_space_char(c: char) -> (r: bool)
    ensures
        r == is_space(c),
{
    let u = c as u32;
    (0x9 <= u && u <= 0xD) || u == 0x20 || u == 0x85 || u == 0xA0 || u == 0x1680 || (0x2000 <= u && u <= 0x200A)
        || u == 0x2028 || u == 0x2029 || u == 0x202F || u == 0x205F || u == 0x3000
}

/// First position at or after `i` that holds no white space (the length if none does).
pub open spec fn lead(s: Seq<char>, i: int) -> int
    decreases s.len() - i,
{
    if i < 0 || i >= s.len() {
        s.len() as int
    } else if is_space(s[i]) {
        lead(s, i + 1)
    } else {
        i
    }
}

/// End of `s.take(j)` once trailing white space is dropped.
pub open spec fn trail(s: Seq<char>, j: int) -> int
    decreases j,
{
    if j <= 0 {
        0
    } else if j <= s.len() && is_space(s[j - 1]) {
        trail(s, j - 1)
    } else {
        j
    }
}

/// `s` without leading and trailing white space.
pub open spec fn trimmed(s: Seq<char>) -> Seq<char> {
    if lead(s, 0) >= s.len() {
        Seq::empty()
    } else {
        s.subrange(lead(s, 0), trail(s, s.len() as int))
    }
}

/// `s` without leading and trailing white space.
pub fn trim(s: &str) -> (r: String)
    ensures
        r@ == trimmed(s@),
{
    let n = s.unicode_len();
    let mut a: usize = 0;
    while a < n && is_space_char(s.get_char(a))
        invariant
            a <= n,
            n == s@.len(),
            lead(s@, 0) == lead(s@, a as int),
        decreases n - a,
    {
        a = a + 1;
    }
    if a == n {
        return String::new();
    }
    let mut b: usize = n;
    while is_space_char(s.get_char(b - 1))
        invariant
            a < b <= n,
            n == s@.len(),
            lead(s@, 0) == a,
            !is_space(s@[a as int]),
            trail(s@, n as int) == trail(s@, b as int),
        decreases b,
    {
        b = b - 1;
    }
    String::from_str(s.substring_char(a, b))
}

/// The pieces of `s` between separators, scanning from `i` within the piece that starts at `start`.
pub open spec fn split_from(s: Seq<char>, sep: char, start: int, i: int) -> Seq<Seq<char>>
    decreases s.len() - i,
{
    if i >= s.len() {
        seq![s.subrange(start, s.len() as int)]
    } else if s[i] == sep {
        seq![s.subrange(start, i)] + split_from(s, sep, i + 1, i + 1)
    } else {
        split_from(s, sep, start, i + 1)
    }
}

/// The pieces of `s` between separators `sep`; `n` separators give `n + 1` pieces.
pub open spec fn split_on(s: Seq<char>, sep: char) -> Seq<Seq<char>> {
    split_from(s, sep, 0, 0)
}

/// The pieces of `s` between separators `sep`.
pub fn split(s: &str, sep: char) -> (r: Vec<String>)
    ensures
        r@.map_values(|p: String| p@) == split_on(s@, sep),
{
    let n = s.unicode_len();
    let mut pieces: Vec<String> = Vec::new();
    let mut start: usize = 0;
    let mut i: usize = 0;
    while i < n
        invariant
            start <= i <= n,
            n == s@.len(),
            split_on(s@, sep) == pieces@.map_values(|p: String| p@) + split_from(s@, sep, start as int, i as int),
        decreases n - i,
    {
        if s.get_char(i) == sep {
            let ghost before = pieces@.map_values(|p: String| p@);
            let piece = String::from_str(s.substring_char(start, i));
            pieces.push(piece);
            assert(pieces@.map_values(|p: String| p@) =~= before.push(s@.subrange(start as int, i as int)));
            assert(before + (seq![s@.subrange(start as int, i as int)] + split_from(s@, sep, i + 1, i + 1)) =~= before.push(
                s@.subrange(start as int, i as int),
            ) + split_from(s@, sep, i + 1, i + 1));
            start = i + 1;
        }
        i = i + 1;
    }
    let ghost before = pieces@.map_values(|p: String| p@);
    pieces.push(String::from_str(s.substring_char(start, n)));
    assert(pieces@.map_values(|p: String| p@) =~= before + seq![s@.subrange(start as int, n as int)]);
    pieces
}

pub open spec fn is_digit(c: char) -> bool {
    '0' <= c && c <= '9'
}

/// The number that a string of decimal digits writes.
pub open spec fn digits_value(s: Seq<char>) -> int
    decreases s.len(),
{
    if s.len() == 0 {
        0
    } else {
        digits_value(s.drop_last()) * 10 + ((s.last() as u32) - 48)
    }
}

/// Length of the optional leading sign.
pub open spec fn sign_len(s: Seq<char>) -> int {
    if s.len() > 0 && (s[0] == '-' || s[0] == '+') {
        1
    } else {
        0
    }
}

pub open spec fn all_digits(b: Seq<char>) -> bool {
    forall|i: int| 0 <= i < b.len() ==> is_digit(#[trigger] b[i])
}

/// What `str::parse::<i64>` reads: an optional `+` or `-`, then at least one decimal digit,
/// and nothing else; the value must fit in an `i64`.
pub open spec fn decimal_i64(s: Seq<char>) -> Option<int> {
    let body = s.subrange(sign_len(s), s.len() as int);
    let v = if s.len() > 0 && s[0] == '-' {
        -digits_value(body)
    } else {
        digits_value(body)
    };
    if body.len() == 0 || !all_digits(body) {
        None
    } else if v < i64::MIN || v > i64::MAX {
        None
    } else {
        Some(v)
    }
}

/// Reads a decimal `i64`, as `str::parse::<i64>` does.
pub fn parse_i64(s: &str) -> (r: Option<i64>)
    ensures
        r is Some <==> decimal_i64(s@) is Some,
        r matches Some(v) ==> v as int == decimal_i64(s@)->Some_0,
{
    let n = s.unicode_len();
    if n == 0 {
        return None;
    }
    let first = s.get_char(0);
    let neg = first == '-';
    let start: usize = if first == '-' || first == '+' {
        1
    } else {
        0
    };
    let ghost body = s@.subrange(start as int, n as int);
    assert(first == s@[0]);
    assert(start == sign_len(s@));
    if start == n {
        return None;
    }
    let limit: u128 = 9223372036854775808;
    let mut acc: u128 = 0;
    let mut over = false;
    let mut i: usize = start;
    assert(s@.subrange(start as int, start as int) =~= Seq::<char>::empty());
    while i < n
        invariant
            start <= i <= n,
            n == s@.len(),
            body == s@.subrange(start as int, n as int),
            start == sign_len(s@),
            limit == 9223372036854775808,
            forall|j: int| start <= j < i ==> is_digit(#[trigger] s@[j]),
            over ==> digits_value(s@.subrange(start as int, i as int)) > limit,
            !over ==> acc == digits_value(s@.subrange(start as int, i as int)) && acc <= limit,
        decreases n - i,
    {
        let c = s.get_char(i);
        if !('0' <= c && c <= '9') {
            assert(body[i - start] == c);
            assert(!is_digit(body[i - start]));
            assert(!all_digits(body));
            return None;
        }
        let d = (c as u32 - '0' as u32) as u128;
        assert(s@.subrange(start as int, i + 1).drop_last() =~= s@.subrange(start as int, i as int));
        if !over {
            if acc * 10 + d > limit {
                over = true;
            } else {
                acc = acc * 10 + d;
            }
        }
        i = i + 1;
    }
    assert(forall|j: int| 0 <= j < body.len() ==> body[j] == s@[j + start]);
    if over {
        return None;
    }
    if neg {
        if acc == limit {
            Some(i64::MIN)
        } else {
            Some(-(acc as i64))
        }
    } else {
        if acc > 9223372036854775807 {
            None
        } else {
            Some(acc as i64)
        }
    }
}


pub open spec fn is_label_char(c: char) -> bool {
    ('a' <= c && c <= 'z') || ('A' <= c && c <= 'Z') || ('0' <= c && c <= '9') || c == '-'
}

/// One DNS label: 1 to 63 letters, digits or hyphens, not starting or ending with a hyphen.
pub open spec fn valid_label(l: Seq<char>) -> bool {
    &&& 1 <= l.len() <= 63
    &&& forall|i: int| 0 <= i < l.len() ==> is_label_char(#[trigger] l[i])
    &&& l[0] != '-'
    &&& l.last() != '-'
}

/// A DNS name: at most 253 characters, dot-separated valid labels.
pub open spec fn valid_dns_name(s: Seq<char>) -> bool {
    &&& 1 <= s.len() <= 253
    &&& forall|k: int| 0 <= k < split_on(s, '.').len() ==> valid_label(#[trigger] split_on(s, '.')[k])
}

fn is_label(l: &str) -> (r: bool)
    ensures
        r == valid_label(l@),
{
    let m = l.unicode_len();
    if m == 0 || m > 63 {
        return false;
    }
    if l.get_char(0) == '-' || l.get_char(m - 1) == '-' {
        return false;
    }
    let mut i: usize = 0;
    while i < m
        invariant
            i <= m,
            m == l@.len(),
            forall|j: int| 0 <= j < i ==> is_label_char(#[trigger] l@[j]),
        decreases m - i,
    {
        let c = l.get_char(i);
        if !(('a' <= c && c <= 'z') || ('A' <= c && c <= 'Z') || ('0' <= c && c <= '9') || c == '-') {
            assert(!is_label_char(l@[i as int]));
            return false;
        }
        i = i + 1;
    }
    true
}

/// Whether `s` is a well-formed DNS name.
pub fn is_dns_name(s: &str) -> (r: bool)
    ensures
        r == valid_dns_name(s@),
{
    let n = s.unicode_len();
    if n == 0 || n > 253 {
        return false;
    }
    let pieces = split(s, '.');
    let ghost ps = pieces@.map_values(|p: String| p@);
    let mut k: usize = 0;
    while k < pieces.len()
        invariant
            k <= pieces.len(),
            ps == pieces@.map_values(|p: String| p@),
            ps == split_on(s@, '.'),
            forall|j: int| 0 <= j < k ==> valid_label(#[trigger] ps[j]),
        decreases pieces.len() - k,
    {
        if !is_label(pieces[k].as_str()) {
            assert(!valid_label(ps[k as int]));
            return false;
        }
        k = k + 1;
    }
    true
}

} // verus!
