//! Text as sequences of characters: comparison, concatenation, searching,
//! splitting, and the decimal and hexadecimal notations the commands print.

use vstd::prelude::*;

verus! {

broadcast use vstd::string::group_string_axioms;

/// `str` equality compares the characters of the two slices.
pub assume_specification[ <str as PartialEq>::eq ](a: &str, b: &str) -> (r: bool)
    ensures
        r == (a@ == b@),
;

/// `String::push` appends one character at the end.
pub assume_specification[ String::push ](s: &mut String, c: char)
    ensures
        final(s)@ == old(s)@.push(c),
;

/// The texts of a sequence of strings.
pub open spec fn texts(v: Seq<String>) -> Seq<Seq<char>> {
    v.map_values(|s: String| s@)
}

/// The text of an optional string.
pub open spec fn opt_text(o: Option<String>) -> Option<Seq<char>> {
    match o {
        Some(s) => Some(s@),
        None => None,
    }
}

/// The text of an optional slice.
pub open spec fn opt_slice(o: Option<&str>) -> Option<Seq<char>> {
    match o {
        Some(s) => Some(s@),
        None => None,
    }
}

/// Whether two slices hold the same text.
pub fn same(a: &str, b: &str) -> (r: bool)
    ensures
        r == (a@ == b@),
{
    a.eq(b)
}

pub fn owned(a: &str) -> (r: String)
    ensures
        r@ == a@,
{
    a.to_owned()
}

pub fn cat2(a: &str, b: &str) -> (r: String)
    ensures
        r@ == a@ + b@,
{
    let mut s = a.to_owned();
    s.append(b);
    s
}

pub fn cat3(a: &str, b: &str, c: &str) -> (r: String)
    ensures
        r@ == a@ + b@ + c@,
{
    let mut s = cat2(a, b);
    s.append(c);
    s
}

pub fn cat4(a: &str, b: &str, c: &str, d: &str) -> (r: String)
    ensures
        r@ == a@ + b@ + c@ + d@,
{
    let mut s = cat3(a, b, c);
    s.append(d);
    s
}

pub fn cat5(a: &str, b: &str, c: &str, d: &str, e: &str) -> (r: String)
    ensures
        r@ == a@ + b@ + c@ + d@ + e@,
{
    let mut s = cat4(a, b, c, d);
    s.append(e);
    s
}

pub fn cat6(a: &str, b: &str, c: &str, d: &str, e: &str, f: &str) -> (r: String)
    ensures
        r@ == a@ + b@ + c@ + d@ + e@ + f@,
{
    let mut s = cat5(a, b, c, d, e);
    s.append(f);
    s
}

pub fn cat7(a: &str, b: &str, c: &str, d: &str, e: &str, f: &str, g: &str) -> (r: String)
    ensures
        r@ == a@ + b@ + c@ + d@ + e@ + f@ + g@,
{
    let mut s = cat6(a, b, c, d, e, f);
    s.append(g);
    s
}

pub fn cat8(a: &str, b: &str, c: &str, d: &str, e: &str, f: &str, g: &str, h: &str) -> (r: String)
    ensures
        r@ == a@ + b@ + c@ + d@ + e@ + f@ + g@ + h@,
{
    let mut s = cat7(a, b, c, d, e, f, g);
    s.append(h);
    s
}

pub fn cat9(a: &str, b: &str, c: &str, d: &str, e: &str, f: &str, g: &str, h: &str, i: &str) -> (r: String)
    ensures
        r@ == a@ + b@ + c@ + d@ + e@ + f@ + g@ + h@ + i@,
{
    let mut s = cat8(a, b, c, d, e, f, g, h);
    s.append(i);
    s
}

/// Adds one line at the end of a list of lines.
pub fn push_line(lines: &mut Vec<String>, line: String)
    ensures
        texts(final(lines)@) == texts(old(lines)@).push(line@),
{
    lines.push(line);
    proof {
        assert(texts(lines@) =~= texts(old(lines)@).push(line@));
    }
}

/// Adds all of `more`, in order, at the end of a list of lines.
pub fn push_lines(lines: &mut Vec<String>, more: Vec<String>)
    ensures
        texts(final(lines)@) == texts(old(lines)@) + texts(more@),
{
    let mut tail = more;
    lines.append(&mut tail);
    proof {
        assert(texts(lines@) =~= texts(old(lines)@) + texts(more@));
    }
}

/// An empty list of lines.
pub fn no_lines() -> (r: Vec<String>)
    ensures
        texts(r@) == Seq::<Seq<char>>::empty(),
{
    let v: Vec<String> = Vec::new();
    proof {
        assert(texts(v@) =~= Seq::<Seq<char>>::empty());
    }
    v
}

/// A list of one line.
pub fn one_line(line: String) -> (r: Vec<String>)
    ensures
        texts(r@) == seq![line@],
{
    let mut v = no_lines();
    push_line(&mut v, line);
    v
}

/// The characters of a slice, in order.
pub fn chars_of(s: &str) -> (v: Vec<char>)
    ensures
        v@ == s@,
{
    let mut v: Vec<char> = Vec::new();
    for c in it: s.chars()
        invariant
            it.seq() == s@,
            v@ == s@.subrange(0, it.index() as int),
    {
        v.push(c);
        proof {
            assert(v@ =~= s@.subrange(0, it.index() + 1));
        }
    }
    proof {
        assert(v@ =~= s@);
    }
    v
}

/// The string made of `v[from..to]`.
pub fn string_of(v: &Vec<char>, from: usize, to: usize) -> (r: String)
    requires
        from <= to <= v@.len(),
    ensures
        r@ == v@.subrange(from as int, to as int),
{
    let mut s = String::new();
    let mut i: usize = from;
    while i < to
        invariant
            from <= i <= to <= v@.len(),
            s@ == v@.subrange(from as int, i as int),
        decreases to - i,
    {
        s.push(v[i]);
        proof {
            assert(s@ =~= v@.subrange(from as int, i + 1));
        }
        i = i + 1;
    }
    s
}

/// Whether `s` begins with `prefix`.
pub fn starts_with(s: &str, prefix: &str) -> (r: bool)
    ensures
        r == prefix@.is_prefix_of(s@),
{
    let n: usize = prefix.unicode_len();
    if s.unicode_len() < n {
        return false;
    }
    let head = s.substring_char(0, n);
    head.eq(prefix)
}

/// Whether `s` ends with `suffix`.
pub fn ends_with(s: &str, suffix: &str) -> (r: bool)
    ensures
        r == suffix@.is_suffix_of(s@),
{
    let n: usize = suffix.unicode_len();
    let m: usize = s.unicode_len();
    if m < n {
        return false;
    }
    let tail = s.substring_char(m - n, m);
    tail.eq(suffix)
}

/// What follows `prefix` in `s`, when `s` begins with it.
pub open spec fn after_prefix(s: Seq<char>, prefix: Seq<char>) -> Option<Seq<char>> {
    if prefix.is_prefix_of(s) {
        Some(s.skip(prefix.len() as int))
    } else {
        None
    }
}

pub fn strip_prefix<'a>(s: &'a str, prefix: &str) -> (r: Option<&'a str>)
    ensures
        opt_slice(r) == after_prefix(s@, prefix@),
{
    if starts_with(s, prefix) {
        let rest = s.substring_char(prefix.unicode_len(), s.unicode_len());
        Some(rest)
    } else {
        None
    }
}

/// Whether `pat` occurs in `s` at position `at`.
pub open spec fn occurs_at(s: Seq<char>, pat: Seq<char>, at: int) -> bool {
    0 <= at && at + pat.len() <= s.len() && s.subrange(at, at + pat.len()) == pat
}

/// `at` is the first position, not before `from`, where `pat` occurs in `s`.
pub open spec fn first_at(s: Seq<char>, pat: Seq<char>, from: int, at: int) -> bool {
    &&& from <= at
    &&& occurs_at(s, pat, at)
    &&& forall|j: int| from <= j < at ==> !occurs_at(s, pat, j)
}

/// Whether `pat` occurs in `s` at or after `from`.
pub open spec fn occurs_from(s: Seq<char>, pat: Seq<char>, from: int) -> bool {
    exists|at: int| from <= at && occurs_at(s, pat, at)
}

/// Whether `pat` occurs somewhere in `s`.
pub open spec fn occurs(s: Seq<char>, pat: Seq<char>) -> bool {
    occurs_from(s, pat, 0)
}

/// The first position, counted in characters, at or after `from` where `pat`
/// occurs in `s`.
pub fn find_from(s: &str, pat: &str, from: usize) -> (r: Option<usize>)
    requires
        from <= s@.len(),
    ensures
        match r {
            Some(at) => first_at(s@, pat@, from as int, at as int),
            None => !occurs_from(s@, pat@, from as int),
        },
{
    let n: usize = s.unicode_len();
    let m: usize = pat.unicode_len();
    if n < m {
        return None;
    }
    let last: usize = n - m;
    let mut i: usize = from;
    while i <= last
        invariant
            n == s@.len(),
            m == pat@.len(),
            last == n - m,
            from <= i <= n + 1,
            from <= n,
            forall|j: int| from <= j < i ==> !occurs_at(s@, pat@, j),
        decreases n + 1 - i,
    {
        let part = s.substring_char(i, i + m);
        if part.eq(pat) {
            return Some(i);
        }
        if i == last {
            return None;
        }
        i = i + 1;
    }
    None
}

/// Whether `pat` occurs in `s`.
pub fn contains(s: &str, pat: &str) -> (r: bool)
    ensures
        r == occurs(s@, pat@),
{
    match find_from(s, pat, 0) {
        Some(_) => true,
        None => false,
    }
}

/// Where the character `c` first occurs in `s`, or the length of `s`.
pub open spec fn index_of_char(s: Seq<char>, c: char) -> int
    decreases s.len(),
{
    if s.len() == 0 {
        0
    } else if s[0] == c {
        0
    } else {
        1 + index_of_char(s.skip(1), c)
    }
}

pub proof fn lemma_index_of_char(s: Seq<char>, c: char, at: int)
    requires
        0 <= at <= s.len(),
        forall|j: int| 0 <= j < at ==> s[j] != c,
        at < s.len() ==> s[at] == c,
    ensures
        index_of_char(s, c) == at,
    decreases s.len(),
{
    if s.len() > 0 && s[0] != c {
        lemma_index_of_char(s.skip(1), c, at - 1);
    }
}

/// Position of the first `c` in `s[from..]`, counted from `from`.
pub fn find_char(v: &Vec<char>, c: char, from: usize) -> (r: usize)
    requires
        from <= v@.len(),
    ensures
        from <= r <= v@.len(),
        r - from == index_of_char(v@.skip(from as int), c),
        r < v@.len() ==> v@[r as int] == c,
        forall|j: int| from <= j < r ==> v@[j] != c,
{
    let mut i: usize = from;
    while i < v.len() && v[i] != c
        invariant
            from <= i <= v@.len(),
            forall|j: int| from <= j < i ==> v@[j] != c,
        decreases v@.len() - i,
    {
        i = i + 1;
    }
    proof {
        lemma_index_of_char(v@.skip(from as int), c, i - from);
    }
    i
}

/// Unicode's White_Space property.
pub open spec fn is_space(c: char) -> bool {
    ||| 0x9 <= c as u32 <= 0xd
    ||| c as u32 == 0x20
    ||| c as u32 == 0x85
    ||| c as u32 == 0xa0
    ||| c as u32 == 0x1680
    ||| 0x2000 <= c as u32 <= 0x200a
    ||| c as u32 == 0x2028
    ||| c as u32 == 0x2029
    ||| c as u32 == 0x202f
    ||| c as u32 == 0x205f
    ||| c as u32 == 0x3000
}

pub fn char_is_space(c: char) -> (r: bool)
    ensures
        r == is_space(c),
{
    let u: u32 = c as u32;
    (0x9 <= u && u <= 0xd) || u == 0x20 || u == 0x85 || u == 0xa0 || u == 0x1680 || (0x2000 <= u && u
        <= 0x200a) || u == 0x2028 || u == 0x2029 || u == 0x202f || u == 0x205f || u == 0x3000
}

/// `s` without its leading whitespace.
pub open spec fn trim_start(s: Seq<char>) -> Seq<char>
    decreases s.len(),
{
    if s.len() > 0 && is_space(s[0]) {
        trim_start(s.skip(1))
    } else {
        s
    }
}

/// `s` without its trailing whitespace.
pub open spec fn trim_end(s: Seq<char>) -> Seq<char>
    decreases s.len(),
{
    if s.len() > 0 && is_space(s.last()) {
        trim_end(s.drop_last())
    } else {
        s
    }
}

/// `s` without the whitespace around it.
pub open spec fn trimmed(s: Seq<char>) -> Seq<char> {
    trim_end(trim_start(s))
}

/// The part of `s` between its leading and its trailing whitespace.
pub fn trim<'a>(s: &'a str) -> (r: &'a str)
    ensures
        r@ == trimmed(s@),
{
    let v = chars_of(s);
    let mut i: usize = 0;
    proof {
        assert(s@.skip(0) =~= s@);
    }
    while i < v.len() && char_is_space(v[i])
        invariant
            i <= v@.len(),
            v@ == s@,
            trim_start(s@) == trim_start(s@.skip(i as int)),
        decreases v@.len() - i,
    {
        proof {
            assert(s@.skip(i as int).skip(1) =~= s@.skip(i + 1));
        }
        i = i + 1;
    }
    let ghost mid = s@.skip(i as int);
    let mut j: usize = v.len();
    proof {
        assert(s@.subrange(i as int, j as int) =~= mid);
    }
    while j > i && char_is_space(v[j - 1])
        invariant
            i <= j <= v@.len(),
            v@ == s@,
            trim_end(mid) == trim_end(s@.subrange(i as int, j as int)),
        decreases j,
    {
        proof {
            let cur = s@.subrange(i as int, j as int);
            assert(cur.last() == v@[j - 1]);
            assert(cur.drop_last() =~= s@.subrange(i as int, j - 1));
        }
        j = j - 1;
    }
    s.substring_char(i, j)
}

/// A decimal digit.
pub open spec fn is_digit(c: char) -> bool {
    '0' <= c <= '9'
}

/// The number a decimal digit stands for.
pub open spec fn digit_value(c: char) -> nat {
    (c as u32 - '0' as u32) as nat
}

pub open spec fn all_digits(s: Seq<char>) -> bool {
    forall|i: int| 0 <= i < s.len() ==> is_digit(#[trigger] s[i])
}

/// The number that a sequence of decimal digits stands for.
pub open spec fn digits_value(s: Seq<char>) -> nat
    decreases s.len(),
{
    if s.len() == 0 {
        0
    } else {
        digits_value(s.drop_last()) * 10 + digit_value(s.last())
    }
}

/// What an unsigned number's notation holds beside an optional plus sign.
pub open spec fn unsigned_body(s: Seq<char>) -> Seq<char> {
    if s.len() > 0 && s[0] == '+' {
        s.skip(1)
    } else {
        s
    }
}

/// The unsigned number that `s` denotes, if it is no larger than `max`: an
/// optional plus sign and at least one decimal digit.
pub open spec fn unsigned_value(s: Seq<char>, max: nat) -> Option<nat> {
    let body = unsigned_body(s);
    if body.len() > 0 && all_digits(body) && digits_value(body) <= max {
        Some(digits_value(body))
    } else {
        None
    }
}

proof fn lemma_digits_prefix(s: Seq<char>, n: int)
    requires
        0 <= n <= s.len(),
    ensures
        digits_value(s.take(n)) <= digits_value(s),
    decreases s.len() - n,
{
    if n < s.len() {
        lemma_digits_prefix(s, n + 1);
        assert(s.take(n + 1).drop_last() =~= s.take(n));
    } else {
        assert(s.take(n) =~= s);
    }
}

/// Reads an unsigned number no larger than `max`.
pub fn parse_unsigned(s: &str, max: u64) -> (r: Option<u64>)
    ensures
        match r {
            Some(n) => unsigned_value(s@, max as nat) == Some(n as nat),
            None => unsigned_value(s@, max as nat) is None,
        },
{
    let v = chars_of(s);
    let start: usize = if v.len() > 0 && v[0] == '+' {
        1
    } else {
        0
    };
    let ghost body = unsigned_body(s@);
    proof {
        assert(body =~= s@.skip(start as int));
    }
    if start == v.len() {
        return None;
    }
    let mut n: u64 = 0;
    let mut i: usize = start;
    while i < v.len()
        invariant
            start <= i <= v@.len(),
            v@ == s@,
            body == s@.skip(start as int),
            body == unsigned_body(s@),
            forall|j: int| 0 <= j < i - start ==> is_digit(body[j]),
            n == digits_value(body.take(i - start)),
            n <= max,
        decreases v@.len() - i,
    {
        let c: char = v[i];
        let u: u32 = c as u32;
        proof {
            assert(body[i - start] == c);
        }
        if !('0' <= c && c <= '9') {
            proof {
                assert(!is_digit(body[i - start]));
            }
            return None;
        }
        proof {
            assert(is_digit(c));
        }
        let d: u64 = (u - 48) as u64;
        proof {
            assert(body.take(i - start + 1).drop_last() =~= body.take(i - start));
            assert(body.take(i - start + 1).last() == c);
            lemma_digits_prefix(body, i - start + 1);
        }
        if d > max || n > (max - d) / 10 {
            proof {
                assert(n * 10 + d > max);
            }
            return None;
        }
        n = n * 10 + d;
        i = i + 1;
    }
    proof {
        assert(body.take(body.len() as int) =~= body);
    }
    Some(n)
}

/// The decimal notation of `n`.
pub open spec fn decimal(n: nat) -> Seq<char>
    decreases n,
{
    if n < 10 {
        seq![('0' as u32 + n) as char]
    } else {
        decimal(n / 10).push(('0' as u32 + n % 10) as char)
    }
}

/// Writes `n` in decimal notation.
pub fn dec(n: u64) -> (r: String)
    ensures
        r@ == decimal(n as nat),
    decreases n,
{
    let d: u8 = 48 + (n % 10) as u8;
    let c: char = d as char;
    if n < 10 {
        let mut s = String::new();
        s.push(c);
        proof {
            assert(s@ =~= decimal(n as nat));
        }
        s
    } else {
        let mut s = dec(n / 10);
        s.push(c);
        s
    }
}

/// The hexadecimal notation of `n`, in lower case.
pub open spec fn hexadecimal(n: nat) -> Seq<char>
    decreases n,
{
    if n < 16 {
        seq![hex_digit(n as u8)]
    } else {
        hexadecimal(n / 16).push(hex_digit((n % 16) as u8))
    }
}

/// Writes `n` in hexadecimal notation.
pub fn hex_number(n: u64) -> (r: String)
    ensures
        r@ == hexadecimal(n as nat),
    decreases n,
{
    let d: u8 = (n % 16) as u8;
    let c: char = if d < 10 {
        (48 + d) as char
    } else {
        (87 + d) as char
    };
    if n < 16 {
        let mut s = String::new();
        s.push(c);
        proof {
            assert(s@ =~= hexadecimal(n as nat));
        }
        s
    } else {
        let mut s = hex_number(n / 16);
        s.push(c);
        s
    }
}

/// Writes a wide `n` in decimal notation.
pub fn dec_wide(n: u128) -> (r: String)
    ensures
        r@ == decimal(n as nat),
    decreases n,
{
    let d: u8 = 48 + (n % 10) as u8;
    let c: char = d as char;
    if n < 10 {
        let mut s = String::new();
        s.push(c);
        proof {
            assert(s@ =~= decimal(n as nat));
        }
        s
    } else {
        let mut s = dec_wide(n / 10);
        s.push(c);
        s
    }
}

/// The lower-case hexadecimal digit of `n`.
pub open spec fn hex_digit(n: u8) -> char {
    if n < 10 {
        (48 + n) as char
    } else {
        (87 + n) as char
    }
}

/// Two lower-case hexadecimal digits for each byte.
pub open spec fn hex(bytes: Seq<u8>) -> Seq<char>
    decreases bytes.len(),
{
    if bytes.len() == 0 {
        Seq::empty()
    } else {
        hex(bytes.drop_last()).push(hex_digit(bytes.last() / 16)).push(hex_digit(bytes.last() % 16))
    }
}

fn hex_char(n: u8) -> (c: char)
    requires
        n < 16,
    ensures
        c == hex_digit(n),
{
    if n < 10 {
        (48 + n) as char
    } else {
        (87 + n) as char
    }
}

/// Writes each byte as two lower-case hexadecimal digits.
pub fn hex_of(bytes: &[u8]) -> (r: String)
    ensures
        r@ == hex(bytes@),
        r@.len() == 2 * bytes@.len(),
{
    let mut s = String::new();
    let mut i: usize = 0;
    while i < bytes.len()
        invariant
            i <= bytes@.len(),
            s@ == hex(bytes@.take(i as int)),
            s@.len() == 2 * i,
        decreases bytes@.len() - i,
    {
        let b: u8 = bytes[i];
        s.push(hex_char(b / 16));
        s.push(hex_char(b % 16));
        proof {
            assert(bytes@.take(i + 1).drop_last() =~= bytes@.take(i as int));
        }
        i = i + 1;
    }
    proof {
        assert(bytes@.take(bytes@.len() as int) =~= bytes@);
    }
    s
}

/// A hexadecimal digit in lower case.
pub open spec fn is_lower_hex_digit(c: char) -> bool {
    '0' <= c <= '9' || 'a' <= c <= 'f'
}

/// A hexadecimal digit of either case.
pub open spec fn is_hex_digit(c: char) -> bool {
    '0' <= c <= '9' || 'a' <= c <= 'f' || 'A' <= c <= 'F'
}

/// Whether every character of `s` is a hexadecimal digit.
pub fn all_hex(s: &str) -> (r: bool)
    ensures
        r == (forall|i: int| 0 <= i < s@.len() ==> is_hex_digit(#[trigger] s@[i])),
{
    let v = chars_of(s);
    let mut i: usize = 0;
    while i < v.len()
        invariant
            i <= v@.len(),
            v@ == s@,
            forall|j: int| 0 <= j < i ==> is_hex_digit(#[trigger] s@[j]),
        decreases v@.len() - i,
    {
        let c: char = v[i];
        if !(('0' <= c && c <= '9') || ('a' <= c && c <= 'f') || ('A' <= c && c <= 'F')) {
            proof {
                assert(!is_hex_digit(s@[i as int]));
            }
            return false;
        }
        i = i + 1;
    }
    true
}

/// The parts with `sep` between them.
pub open spec fn joined(parts: Seq<Seq<char>>, sep: Seq<char>) -> Seq<char>
    decreases parts.len(),
{
    if parts.len() == 0 {
        Seq::empty()
    } else if parts.len() == 1 {
        parts[0]
    } else {
        joined(parts.drop_last(), sep) + sep + parts.last()
    }
}

/// Joins the parts with `sep` between them.
pub fn join(parts: &Vec<String>, sep: &str) -> (r: String)
    ensures
        r@ == joined(texts(parts@), sep@),
{
    let ghost all = texts(parts@);
    let mut s = String::new();
    let mut i: usize = 0;
    while i < parts.len()
        invariant
            i <= parts@.len(),
            all == texts(parts@),
            s@ == joined(all.take(i as int), sep@),
        decreases parts@.len() - i,
    {
        proof {
            let t = all.take(i + 1);
            assert(t.drop_last() =~= all.take(i as int));
            assert(t.last() == parts@[i as int]@);
        }
        if i > 0 {
            s.append(sep);
        }
        let ghost before = s@;
        s.append(parts[i].as_str());
        proof {
            if i == 0 {
                assert(before + parts@[0]@ =~= parts@[0]@);
                assert(all.take(1)[0] == parts@[0]@);
            }
        }
        i = i + 1;
    }
    proof {
        assert(all.take(all.len() as int) =~= all);
    }
    s
}

/// `s` filled up with spaces on the right to `width` characters.
pub open spec fn padded(s: Seq<char>, width: nat) -> Seq<char>
    decreases width - s.len(),
{
    if s.len() >= width {
        s
    } else {
        padded(s.push(' '), width)
    }
}

/// Fills `s` up with spaces on the right to `width` characters.
pub fn pad(s: &str, width: usize) -> (r: String)
    ensures
        r@ == padded(s@, width as nat),
{
    let mut out = s.to_owned();
    let mut n: usize = s.unicode_len();
    while n < width
        invariant
            n == out@.len(),
            padded(s@, width as nat) == padded(out@, width as nat),
        decreases width - n,
    {
        out.push(' ');
        n = n + 1;
    }
    out
}

/// An ASCII letter in lower case; any other character as it is.
pub open spec fn lower_char(c: char) -> char {
    if 'A' <= c <= 'Z' {
        (c as u32 + 32) as char
    } else {
        c
    }
}

/// `s` with its ASCII letters in lower case.
pub open spec fn ascii_lower(s: Seq<char>) -> Seq<char> {
    s.map_values(|c: char| lower_char(c))
}

/// Writes `s` with its ASCII letters in lower case.
pub fn to_ascii_lower(s: &str) -> (r: String)
    ensures
        r@ == ascii_lower(s@),
{
    let v = chars_of(s);
    let mut out = String::new();
    let mut i: usize = 0;
    proof {
        assert(ascii_lower(s@).take(0) =~= Seq::<char>::empty());
    }
    while i < v.len()
        invariant
            i <= v@.len(),
            v@ == s@,
            out@ == ascii_lower(s@).take(i as int),
        decreases v@.len() - i,
    {
        let c: char = v[i];
        if 'A' <= c && c <= 'Z' {
            let u: u8 = c as u8;
            out.push((u + 32) as char);
        } else {
            out.push(c);
        }
        proof {
            assert(out@ =~= ascii_lower(s@).take(i + 1));
        }
        i = i + 1;
    }
    proof {
        assert(ascii_lower(s@).take(s@.len() as int) =~= ascii_lower(s@));
    }
    out
}

/// `s` in lower case.
pub uninterp spec fn lower(s: Seq<char>) -> Seq<char>;

/// `str::to_lowercase`: the lower-case form by Unicode's rules, which depends on
/// the text alone. On ASCII text it changes the letters `A` to `Z` only.
#[verifier::external_body]
pub(crate) fn lowercase(s: &str) -> (r: String)
    ensures
        r@ == lower(s@),
        vstd::utf8::is_ascii_chars(s@) ==> r@ == ascii_lower(s@),
{
    s.to_lowercase()
}

/// `s` without a carriage return at its end.
pub open spec fn without_cr(s: Seq<char>) -> Seq<char> {
    if s.len() > 0 && s.last() == '\r' {
        s.drop_last()
    } else {
        s
    }
}

/// The lines of a text: each ends at a line break, with or without a carriage
/// return before it; what follows the last break is a line if it is not empty.
pub open spec fn lines_of(s: Seq<char>) -> Seq<Seq<char>>
    decreases s.len(),
{
    if s.len() == 0 {
        Seq::empty()
    } else {
        let n = index_of_char(s, '\n');
        if 0 <= n < s.len() {
            seq![without_cr(s.take(n))] + lines_of(s.skip(n + 1))
        } else {
            seq![s]
        }
    }
}

/// The lines of a text.
pub fn lines(s: &str) -> (r: Vec<String>)
    ensures
        texts(r@) == lines_of(s@),
{
    let v = chars_of(s);
    let n: usize = v.len();
    let mut out = no_lines();
    let mut i: usize = 0;
    proof {
        assert(s@.skip(0) =~= s@);
        assert(texts(out@) + lines_of(s@) =~= lines_of(s@));
    }
    while i < n
        invariant
            n == v@.len(),
            i <= n,
            v@ == s@,
            lines_of(s@) == texts(out@) + lines_of(s@.skip(i as int)),
        decreases n - i,
    {
        let ghost rest = s@.skip(i as int);
        let at: usize = find_char(&v, '\n', i);
        let ghost before = texts(out@);
        if at < n {
            let end: usize = if at > i && v[at - 1] == '\r' {
                at - 1
            } else {
                at
            };
            proof {
                let k = index_of_char(rest, '\n');
                assert(k == at - i);
                assert(rest.take(k) =~= s@.subrange(i as int, at as int));
                assert(without_cr(rest.take(k)) =~= s@.subrange(i as int, end as int));
                assert(rest.skip(k + 1) =~= s@.skip(at + 1));
            }
            push_line(&mut out, string_of(&v, i, end));
            proof {
                let head = without_cr(rest.take(at - i));
                assert(before + (seq![head] + lines_of(s@.skip(at + 1))) =~= texts(out@) + lines_of(
                    s@.skip(at + 1),
                ));
            }
            i = at + 1;
        } else {
            proof {
                assert(rest =~= s@.subrange(i as int, n as int));
            }
            push_line(&mut out, string_of(&v, i, n));
            proof {
                assert(before + seq![rest] =~= texts(out@));
                assert(s@.skip(n as int) =~= Seq::<char>::empty());
                assert(texts(out@) + lines_of(s@.skip(n as int)) =~= texts(out@));
            }
            i = n;
        }
    }
    proof {
        assert(s@.skip(n as int) =~= Seq::<char>::empty());
        assert(texts(out@) + lines_of(s@.skip(n as int)) =~= texts(out@));
    }
    out
}

/// `s` without the `c` at its beginning.
pub open spec fn strip_start(s: Seq<char>, c: char) -> Seq<char>
    decreases s.len(),
{
    if s.len() > 0 && s[0] == c {
        strip_start(s.skip(1), c)
    } else {
        s
    }
}

/// `s` without the `c` at its end.
pub open spec fn strip_end(s: Seq<char>, c: char) -> Seq<char>
    decreases s.len(),
{
    if s.len() > 0 && s.last() == c {
        strip_end(s.drop_last(), c)
    } else {
        s
    }
}

/// What is left of `s` without the `c` at its beginning.
pub fn trim_start_char<'a>(s: &'a str, c: char) -> (r: &'a str)
    ensures
        r@ == strip_start(s@, c),
{
    let v = chars_of(s);
    let mut i: usize = 0;
    proof {
        assert(s@.skip(0) =~= s@);
    }
    while i < v.len() && v[i] == c
        invariant
            i <= v@.len(),
            v@ == s@,
            strip_start(s@, c) == strip_start(s@.skip(i as int), c),
        decreases v@.len() - i,
    {
        proof {
            assert(s@.skip(i as int).skip(1) =~= s@.skip(i + 1));
        }
        i = i + 1;
    }
    s.substring_char(i, v.len())
}

/// What is left of `s` without the `c` at its end.
pub fn trim_end_char<'a>(s: &'a str, c: char) -> (r: &'a str)
    ensures
        r@ == strip_end(s@, c),
{
    let v = chars_of(s);
    let mut j: usize = v.len();
    proof {
        assert(s@.take(j as int) =~= s@);
    }
    while j > 0 && v[j - 1] == c
        invariant
            j <= v@.len(),
            v@ == s@,
            strip_end(s@, c) == strip_end(s@.take(j as int), c),
        decreases j,
    {
        proof {
            assert(s@.take(j as int).last() == c);
            assert(s@.take(j as int).drop_last() =~= s@.take(j - 1));
        }
        j = j - 1;
    }
    s.substring_char(0, j)
}

/// How many characters at the beginning are no whitespace.
pub open spec fn word_len(s: Seq<char>) -> int
    decreases s.len(),
{
    if s.len() == 0 || is_space(s[0]) {
        0
    } else {
        1 + word_len(s.skip(1))
    }
}

/// The words of a text: its parts between whitespace.
pub open spec fn words_of(s: Seq<char>) -> Seq<Seq<char>>
    decreases s.len(),
    via words_decrease
{
    let t = trim_start(s);
    if t.len() == 0 {
        Seq::empty()
    } else {
        let n = word_len(t);
        seq![t.take(n)] + words_of(t.skip(n))
    }
}

pub proof fn lemma_trim_start_len(s: Seq<char>)
    ensures
        trim_start(s).len() <= s.len(),
        trim_start(s).len() > 0 ==> !is_space(trim_start(s)[0]),
    decreases s.len(),
{
    if s.len() > 0 && is_space(s[0]) {
        lemma_trim_start_len(s.skip(1));
    }
}

proof fn lemma_word_len(s: Seq<char>)
    ensures
        0 <= word_len(s) <= s.len(),
        s.len() > 0 && !is_space(s[0]) ==> word_len(s) > 0,
    decreases s.len(),
{
    if s.len() > 0 && !is_space(s[0]) {
        lemma_word_len(s.skip(1));
    }
}

#[via_fn]
proof fn words_decrease(s: Seq<char>) {
    lemma_trim_start_len(s);
    lemma_word_len(trim_start(s));
}

/// The word at `index`, counted from zero.
pub open spec fn nth_word(s: Seq<char>, index: int) -> Option<Seq<char>> {
    if 0 <= index < words_of(s).len() {
        Some(words_of(s)[index])
    } else {
        None
    }
}

/// The words of a text.
pub fn words(s: &str) -> (r: Vec<String>)
    ensures
        texts(r@) == words_of(s@),
{
    let v = chars_of(s);
    let n: usize = v.len();
    let mut out = no_lines();
    let mut i: usize = 0;
    proof {
        assert(s@.skip(0) =~= s@);
        assert(texts(out@) + words_of(s@) =~= words_of(s@));
    }
    loop
        invariant
            n == v@.len(),
            i <= n,
            v@ == s@,
            words_of(s@) == texts(out@) + words_of(s@.skip(i as int)),
        ensures
            texts(out@) == words_of(s@),
        decreases n - i,
    {
        let ghost rest = s@.skip(i as int);
        let start0: usize = i;
        while i < n && char_is_space(v[i])
            invariant
                n == v@.len(),
                start0 <= i <= n,
                v@ == s@,
                rest == s@.skip(start0 as int),
                trim_start(rest) == trim_start(s@.skip(i as int)),
            decreases n - i,
        {
            proof {
                assert(s@.skip(i as int).skip(1) =~= s@.skip(i + 1));
            }
            i = i + 1;
        }
        let ghost t = s@.skip(i as int);
        proof {
            assert(trim_start(rest) == t);
        }
        if i == n {
            proof {
                assert(t =~= Seq::<char>::empty());
                assert(words_of(rest) =~= Seq::<Seq<char>>::empty());
                assert(texts(out@) + words_of(rest) =~= texts(out@));
            }
            break;
        }
        let start: usize = i;
        while i < n && !char_is_space(v[i])
            invariant
                n == v@.len(),
                start <= i <= n,
                v@ == s@,
                t == s@.skip(start as int),
                word_len(t) == (i - start) + word_len(s@.skip(i as int)),
            decreases n - i,
        {
            proof {
                assert(s@.skip(i as int).skip(1) =~= s@.skip(i + 1));
            }
            i = i + 1;
        }
        proof {
            lemma_word_len(t);
            assert(word_len(s@.skip(i as int)) == 0);
            assert(t.take(i - start) =~= s@.subrange(start as int, i as int));
            assert(t.skip(i - start) =~= s@.skip(i as int));
        }
        let ghost before = texts(out@);
        push_line(&mut out, string_of(&v, start, i));
        proof {
            assert(before + (seq![t.take(i - start)] + words_of(s@.skip(i as int))) =~= texts(out@)
                + words_of(s@.skip(i as int)));
        }
    }
    out
}

/// Where `pat` first occurs in `s`.
pub open spec fn first_pos(s: Seq<char>, pat: Seq<char>) -> Option<int>
    decreases s.len(),
{
    if occurs_at(s, pat, 0) {
        Some(0)
    } else if s.len() == 0 {
        None
    } else {
        match first_pos(s.skip(1), pat) {
            Some(k) => Some(k + 1),
            None => None,
        }
    }
}

proof fn lemma_occurs_skip(s: Seq<char>, pat: Seq<char>, at: int)
    requires
        s.len() > 0,
        0 <= at,
    ensures
        occurs_at(s.skip(1), pat, at) == occurs_at(s, pat, at + 1),
{
    if at + 1 + pat.len() <= s.len() {
        assert(s.skip(1).subrange(at, at + pat.len()) =~= s.subrange(at + 1, at + 1 + pat.len()));
    }
}

proof fn lemma_first_pos(s: Seq<char>, pat: Seq<char>, found: Option<int>)
    requires
        match found {
            Some(at) => first_at(s, pat, 0, at),
            None => !occurs_from(s, pat, 0),
        },
    ensures
        first_pos(s, pat) == found,
    decreases s.len(),
{
    if occurs_at(s, pat, 0) {
        match found {
            Some(at) => {
                if at > 0 {
                    assert(!occurs_at(s, pat, 0));
                }
            },
            None => {
                assert(occurs_from(s, pat, 0));
            },
        }
    } else if s.len() > 0 {
        match found {
            Some(at) => {
                assert(at > 0);
                lemma_occurs_skip(s, pat, at - 1);
                assert forall|j: int| 0 <= j < at - 1 implies !occurs_at(s.skip(1), pat, j) by {
                    lemma_occurs_skip(s, pat, j);
                    assert(!occurs_at(s, pat, j + 1));
                }
                lemma_first_pos(s.skip(1), pat, Some(at - 1));
            },
            None => {
                assert forall|j: int| 0 <= j implies !occurs_at(s.skip(1), pat, j) by {
                    lemma_occurs_skip(s, pat, j);
                    if occurs_at(s, pat, j + 1) {
                        assert(occurs_from(s, pat, 0));
                    }
                }
                lemma_first_pos(s.skip(1), pat, None);
            },
        }
    } else {
        match found {
            Some(at) => {
                assert(occurs_at(s, pat, at));
                assert(s.subrange(at, at + pat.len()) =~= s.subrange(0, pat.len() as int));
            },
            None => {},
        }
    }
}

/// Where `pat` first occurs in `s`, counted in characters.
pub fn find(s: &str, pat: &str) -> (r: Option<usize>)
    ensures
        match r {
            Some(at) => first_pos(s@, pat@) == Some(at as int) && at + pat@.len() <= s@.len(),
            None => first_pos(s@, pat@) is None,
        },
{
    let r = find_from(s, pat, 0);
    proof {
        match r {
            Some(at) => {
                lemma_first_pos(s@, pat@, Some(at as int));
            },
            None => {
                lemma_first_pos(s@, pat@, None);
            },
        }
    }
    r
}

// ---- what holds of the text functions ----

/// What is shown of a number reads back as that number: its notation is digits
/// alone, without a zero in front but for zero itself.
pub proof fn a_shown_number_reads_back(n: nat)
    ensures
        decimal(n).len() > 0,
        all_digits(decimal(n)),
        digits_value(decimal(n)) == n,
        n > 0 ==> decimal(n)[0] != '0',
    decreases n,
{
    if n < 10 {
        let d = decimal(n);
        assert(d.drop_last() =~= Seq::<char>::empty());
        assert(digits_value(d.drop_last()) == 0);
        assert(d.last() == ('0' as u32 + n) as char);
    } else {
        let d = decimal(n / 10);
        a_shown_number_reads_back(n / 10);
        let last = ('0' as u32 + n % 10) as char;
        assert(d.push(last).drop_last() =~= d);
        assert(is_digit(last));
    }
}

/// No two numbers are shown alike.
pub proof fn no_two_numbers_are_shown_alike(m: nat, n: nat)
    ensures
        decimal(m) == decimal(n) <==> m == n,
{
    a_shown_number_reads_back(m);
    a_shown_number_reads_back(n);
}

/// A number is read back from what is shown of it exactly where it is not too
/// large, with or without a plus sign in front. What is read is never too large,
/// and an empty text, or one with anything but digits, is no number.
pub proof fn a_number_is_read_as_it_is_shown(n: nat, max: nat, s: Seq<char>)
    ensures
        unsigned_value(decimal(n), max) == (if n <= max {
            Some(n)
        } else {
            None::<nat>
        }),
        unsigned_value(seq!['+'] + decimal(n), max) == unsigned_value(decimal(n), max),
        unsigned_value(s, max) matches Some(k) ==> k <= max && s.len() > 0,
        (exists|i: int| 1 <= i < s.len() && !is_digit(#[trigger] s[i])) ==> unsigned_value(s, max)
            is None,
        s.len() > 0 && !is_digit(s[0]) && s[0] != '+' ==> unsigned_value(s, max) is None,
{
    a_shown_number_reads_back(n);
    let d = decimal(n);
    assert(is_digit(d[0]));
    assert(unsigned_body(d) == d);
    assert((seq!['+'] + d).skip(1) =~= d);
    if exists|i: int| 1 <= i < s.len() && !is_digit(#[trigger] s[i]) {
        let i = choose|i: int| 1 <= i < s.len() && !is_digit(#[trigger] s[i]);
        if s[0] == '+' {
            assert(unsigned_body(s)[i - 1] == s[i]);
        } else {
            assert(unsigned_body(s)[i] == s[i]);
        }
    }
}

/// The number that lower-case hexadecimal digits stand for.
pub open spec fn hex_value(s: Seq<char>) -> nat
    decreases s.len(),
{
    if s.len() == 0 {
        0
    } else {
        hex_value(s.drop_last()) * 16 + (if '0' <= s.last() <= '9' {
            (s.last() as u32 - '0' as u32) as nat
        } else {
            (s.last() as u32 - 'a' as u32 + 10) as nat
        })
    }
}

/// A hexadecimal notation reads back as its number.
pub proof fn a_hexadecimal_number_reads_back(n: nat)
    ensures
        hexadecimal(n).len() > 0,
        hex_value(hexadecimal(n)) == n,
        forall|i: int|
            0 <= i < hexadecimal(n).len() ==> is_lower_hex_digit(#[trigger] hexadecimal(n)[i]),
    decreases n,
{
    if n < 16 {
        assert(hexadecimal(n).drop_last() =~= Seq::<char>::empty());
        assert(hex_value(hexadecimal(n).drop_last()) == 0);
        assert(hexadecimal(n).last() == hex_digit(n as u8));
    } else {
        a_hexadecimal_number_reads_back(n / 16);
        let d = hexadecimal(n / 16);
        let last = hex_digit((n % 16) as u8);
        assert(d.push(last).drop_last() =~= d);
    }
}

/// The spelling of bytes takes two digits for each, and the digits at its place
/// read back as the byte.
pub proof fn spelled_bytes_read_back(bytes: Seq<u8>, i: int)
    requires
        0 <= i < bytes.len(),
    ensures
        hex(bytes).len() == 2 * bytes.len(),
        hex_value(hex(bytes).subrange(2 * i, 2 * i + 2)) == bytes[i],
    decreases bytes.len(),
{
    let head = bytes.drop_last();
    let b = bytes.last();
    let hi = hex_digit(b / 16);
    let lo = hex_digit(b % 16);
    if head.len() > 0 {
        spelled_bytes_read_back(head, 0);
    } else {
        assert(hex(head) =~= Seq::<char>::empty());
    }
    if i < head.len() {
        spelled_bytes_read_back(head, i);
        assert(hex(bytes).subrange(2 * i, 2 * i + 2) =~= hex(head).subrange(2 * i, 2 * i + 2));
    } else {
        let pair = hex(bytes).subrange(2 * i, 2 * i + 2);
        assert(pair =~= seq![hi, lo]);
        assert(pair.drop_last() =~= seq![hi]);
        assert(pair.drop_last().drop_last() =~= Seq::<char>::empty());
        assert(hex_value(pair.drop_last()) == b / 16) by {
            assert(hex_value(pair.drop_last().drop_last()) == 0);
            assert(pair.drop_last().last() == hi);
        }
        assert(b == (b / 16) * 16 + b % 16);
    }
}

proof fn lemma_trim_start(s: Seq<char>) -> (k: int)
    ensures
        0 <= k <= s.len(),
        trim_start(s) == s.skip(k),
        forall|i: int| 0 <= i < k ==> is_space(#[trigger] s[i]),
        k < s.len() ==> !is_space(s[k]),
    decreases s.len(),
{
    if s.len() > 0 && is_space(s[0]) {
        let k = lemma_trim_start(s.skip(1));
        assert(s.skip(1).skip(k) =~= s.skip(k + 1));
        assert forall|i: int| 0 <= i < k + 1 implies is_space(#[trigger] s[i]) by {
            if i > 0 {
                assert(s.skip(1)[i - 1] == s[i]);
            }
        }
        k + 1
    } else {
        assert(s.skip(0) =~= s);
        0
    }
}

proof fn lemma_trim_end(s: Seq<char>) -> (k: int)
    ensures
        0 <= k <= s.len(),
        trim_end(s) == s.take(k),
        forall|i: int| k <= i < s.len() ==> is_space(#[trigger] s[i]),
        k > 0 ==> !is_space(s[k - 1]),
    decreases s.len(),
{
    if s.len() > 0 && is_space(s.last()) {
        let k = lemma_trim_end(s.drop_last());
        assert(s.drop_last().take(k) =~= s.take(k));
        assert forall|i: int| k <= i < s.len() implies is_space(#[trigger] s[i]) by {
            if i < s.len() - 1 {
                assert(s.drop_last()[i] == s[i]);
            }
        }
        k
    } else {
        assert(s.take(s.len() as int) =~= s);
        s.len() as int
    }
}

/// Trimming takes away whitespace at the two ends, all of it, and nothing else.
pub proof fn trimming_takes_whitespace_alone(s: Seq<char>) -> (ends: (int, int))
    ensures
        0 <= ends.0 <= ends.1 <= s.len(),
        trimmed(s) == s.subrange(ends.0, ends.1),
        forall|i: int| 0 <= i < ends.0 ==> is_space(#[trigger] s[i]),
        forall|i: int| ends.1 <= i < s.len() ==> is_space(#[trigger] s[i]),
        ends.0 < ends.1 ==> !is_space(s[ends.0]) && !is_space(s[ends.1 - 1]),
{
    let a = lemma_trim_start(s);
    let t = s.skip(a);
    let k = lemma_trim_end(t);
    assert(t.take(k) =~= s.subrange(a, a + k));
    assert forall|i: int| a + k <= i < s.len() implies is_space(#[trigger] s[i]) by {
        assert(t[i - a] == s[i]);
    }
    if k > 0 {
        assert(t[k - 1] == s[a + k - 1]);
        assert(!is_space(s[a]));
    }
    (a, a + k)
}

/// What counts as whitespace: a space, a tab and the line breaks do; no letter, no
/// digit and no punctuation of ASCII does.
pub proof fn whitespace_is_no_printed_character(c: char)
    ensures
        is_space(' '),
        is_space('\t'),
        is_space('\n'),
        is_space('\r'),
        '!' <= c <= '~' ==> !is_space(c),
        is_digit(c) ==> !is_space(c),
{
}

/// Lower case changes the letters A to Z into those thirty-two places on, and no
/// other character; doing it twice changes nothing.
pub proof fn lower_case_changes_letters_alone(s: Seq<char>, i: int)
    requires
        0 <= i < s.len(),
    ensures
        ascii_lower(s).len() == s.len(),
        'A' <= s[i] <= 'Z' ==> ascii_lower(s)[i] as u32 == s[i] as u32 + 32,
        !('A' <= s[i] <= 'Z') ==> ascii_lower(s)[i] == s[i],
        !('A' <= ascii_lower(s)[i] <= 'Z'),
        ascii_lower(ascii_lower(s)) == ascii_lower(s),
{
    assert(ascii_lower(ascii_lower(s)) =~= ascii_lower(s));
}

/// Padding keeps the text in front, fills up to the width with spaces, and cuts
/// nothing that is wider.
pub proof fn padding_only_fills_up(s: Seq<char>, width: nat)
    ensures
        s.is_prefix_of(padded(s, width)),
        s.len() >= width ==> padded(s, width) == s,
        s.len() < width ==> padded(s, width).len() == width,
        forall|i: int|
            s.len() <= i < padded(s, width).len() ==> #[trigger] padded(s, width)[i] == ' ',
    decreases width - s.len(),
{
    if s.len() < width {
        padding_only_fills_up(s.push(' '), width);
        let p = padded(s, width);
        assert(s.push(' ') == p.subrange(0, s.len() as int + 1));
        assert(p.subrange(0, s.len() as int) =~= s) by {
            assert forall|i: int| 0 <= i < s.len() implies p[i] == s[i] by {
                assert(p.subrange(0, s.len() as int + 1)[i] == p[i]);
            }
        }
        assert forall|i: int| s.len() <= i < p.len() implies #[trigger] p[i] == ' ' by {
            if i == s.len() {
                assert(p.subrange(0, s.len() as int + 1)[i] == p[i]);
            }
        }
    } else {
        assert(s.subrange(0, s.len() as int) =~= s);
    }
}

/// Joining puts every part down in order with the separator between two of them,
/// and nowhere else.
pub proof fn joining_separates_neighbours(parts: Seq<Seq<char>>, one: Seq<char>, sep: Seq<char>)
    ensures
        joined(Seq::empty(), sep) == Seq::<char>::empty(),
        joined(seq![one], sep) == one,
        parts.len() > 0 ==> joined(parts.push(one), sep) == joined(parts, sep) + sep + one,
{
    assert(parts.push(one).drop_last() =~= parts);
}

proof fn lemma_index_split(a: Seq<char>, c: char, b: Seq<char>)
    requires
        !a.contains(c),
    ensures
        index_of_char(a + seq![c] + b, c) == a.len(),
{
    let s = a + seq![c] + b;
    assert forall|j: int| 0 <= j < a.len() implies s[j] != c by {
        assert(s[j] == a[j]);
        assert(a.contains(a[j]));
    }
    lemma_index_of_char(s, c, a.len() as int);
}

/// A line ends at its break: the lines of a text are its first line, without a
/// carriage return before the break, and then the lines of the rest. A text
/// without a break is one line, and an empty one has none.
pub proof fn a_line_ends_at_its_break(a: Seq<char>, b: Seq<char>)
    requires
        !a.contains('\n'),
    ensures
        lines_of(a + seq!['\n'] + b) == seq![without_cr(a)] + lines_of(b),
        a.len() > 0 ==> lines_of(a) == seq![a],
        lines_of(Seq::empty()) == Seq::<Seq<char>>::empty(),
        without_cr(a.push('\r')) == a,
        a.len() > 0 && a.last() != '\r' ==> without_cr(a) == a,
{
    let s = a + seq!['\n'] + b;
    lemma_index_split(a, '\n', b);
    assert(s.take(a.len() as int) =~= a);
    assert(s.skip(a.len() as int + 1) =~= b);
    assert(a.push('\r').drop_last() =~= a);
    assert forall|j: int| 0 <= j < a.len() implies a[j] != '\n' by {
        assert(a.contains(a[j]));
    }
    lemma_index_of_char(a, '\n', a.len() as int);
}

/// Stripping a character takes it away at that end as often as it stands there,
/// and nothing else.
pub proof fn stripping_takes_that_character_alone(s: Seq<char>, c: char)
    ensures
        strip_start(s, c).len() <= s.len(),
        strip_start(s, c) == s.skip(s.len() - strip_start(s, c).len()),
        strip_start(s, c).len() > 0 ==> strip_start(s, c)[0] != c,
        forall|i: int| 0 <= i < s.len() - strip_start(s, c).len() ==> #[trigger] s[i] == c,
        strip_end(s, c).len() <= s.len(),
        strip_end(s, c) == s.take(strip_end(s, c).len() as int),
        strip_end(s, c).len() > 0 ==> strip_end(s, c).last() != c,
        forall|i: int| strip_end(s, c).len() <= i < s.len() ==> #[trigger] s[i] == c,
    decreases s.len(),
{
    if s.len() > 0 {
        if s[0] == c {
            stripping_takes_that_character_alone(s.skip(1), c);
            let t = strip_start(s, c);
            assert(s.skip(1).skip(s.skip(1).len() - t.len()) =~= s.skip(s.len() - t.len()));
            assert forall|i: int| 0 <= i < s.len() - t.len() implies #[trigger] s[i] == c by {
                if i > 0 {
                    assert(s.skip(1)[i - 1] == s[i]);
                }
            }
        } else {
            assert(s.skip(0) =~= s);
        }
        if s.last() == c {
            stripping_takes_that_character_alone(s.drop_last(), c);
            let t = strip_end(s, c);
            assert(s.drop_last().take(t.len() as int) =~= s.take(t.len() as int));
            assert forall|i: int| t.len() <= i < s.len() implies #[trigger] s[i] == c by {
                if i < s.len() - 1 {
                    assert(s.drop_last()[i] == s[i]);
                }
            }
        } else {
            assert(s.take(s.len() as int) =~= s);
        }
    } else {
        assert(s.skip(0) =~= s);
        assert(s.take(0) =~= s);
    }
}

/// The words of a text: a word in front, then whitespace, then the words of the
/// rest. Whitespace around them is no word.
pub proof fn a_word_ends_at_whitespace(w: Seq<char>, gap: char, rest: Seq<char>)
    requires
        w.len() > 0,
        forall|i: int| 0 <= i < w.len() ==> !is_space(#[trigger] w[i]),
        is_space(gap),
    ensures
        words_of(w) == seq![w],
        words_of(w + seq![gap] + rest) == seq![w] + words_of(seq![gap] + rest),
        words_of(seq![gap] + rest) == words_of(rest),
        words_of(Seq::empty()) == Seq::<Seq<char>>::empty(),
{
    assert(w.len() > 0 && !is_space(w[0]));
    lemma_word_run(w, Seq::empty());
    assert(w + Seq::<char>::empty() =~= w);
    assert(w.take(w.len() as int) =~= w);
    assert(w.skip(w.len() as int) =~= Seq::<char>::empty());
    assert(words_of(Seq::<char>::empty()) =~= Seq::<Seq<char>>::empty());
    assert(seq![w] + words_of(Seq::<char>::empty()) =~= seq![w]);
    let s = w + seq![gap] + rest;
    let tail = seq![gap] + rest;
    assert(s =~= w + tail);
    assert(s[0] == w[0]);
    lemma_word_run(w, tail);
    assert(s.take(w.len() as int) =~= w);
    assert(s.skip(w.len() as int) =~= tail);
    assert(tail.skip(1) =~= rest);
    assert(trim_start(tail) == trim_start(rest));
}

proof fn lemma_word_run(w: Seq<char>, tail: Seq<char>)
    requires
        forall|i: int| 0 <= i < w.len() ==> !is_space(#[trigger] w[i]),
        tail.len() > 0 ==> is_space(tail[0]),
    ensures
        word_len(w + tail) == w.len(),
    decreases w.len(),
{
    if w.len() == 0 {
        assert(w + tail =~= tail);
    } else {
        assert(!is_space(w[0]));
        assert((w + tail).skip(1) =~= w.skip(1) + tail);
        assert forall|i: int| 0 <= i < w.skip(1).len() implies !is_space(#[trigger] w.skip(1)[i]) by {
            assert(w.skip(1)[i] == w[i + 1]);
        }
        lemma_word_run(w.skip(1), tail);
    }
}

/// A text occurs in another exactly where that one is something before it, the
/// text, and something after it.
pub proof fn a_text_occurs_where_it_stands(s: Seq<char>, pat: Seq<char>)
    ensures
        occurs(s, pat) <==> exists|a: Seq<char>, b: Seq<char>| s == #[trigger] (a + pat + b),
{
    if occurs(s, pat) {
        let at = choose|at: int| 0 <= at && occurs_at(s, pat, at);
        let a = s.take(at);
        let b = s.skip(at + pat.len());
        assert(s =~= a + s.subrange(at, at + pat.len()) + b);
        assert(s == a + pat + b);
    }
    if exists|a: Seq<char>, b: Seq<char>| s == #[trigger] (a + pat + b) {
        let (a, b) = choose|a: Seq<char>, b: Seq<char>| s == #[trigger] (a + pat + b);
        let at = a.len() as int;
        assert(s.subrange(at, at + pat.len()) =~= pat);
        assert(occurs_at(s, pat, at));
    }
}

/// The first position of a text is one where it stands, with none before it; there
/// is one exactly where the text occurs at all.
pub proof fn the_first_position_is_the_first(s: Seq<char>, pat: Seq<char>)
    ensures
        first_pos(s, pat) is Some <==> occurs(s, pat),
        first_pos(s, pat) matches Some(k) ==> 0 <= k && k + pat.len() <= s.len() && s.subrange(
            k,
            k + pat.len(),
        ) == pat && forall|j: int|
            0 <= j < k ==> !(j + pat.len() <= s.len() && #[trigger] s.subrange(j, j + pat.len())
                == pat),
{
    if occurs(s, pat) {
        let at = lemma_a_first(s, pat, choose|at: int| 0 <= at && occurs_at(s, pat, at));
        lemma_first_pos(s, pat, Some(at));
        assert forall|j: int| 0 <= j < at implies !(j + pat.len() <= s.len()
            && #[trigger] s.subrange(j, j + pat.len()) == pat) by {
            assert(!occurs_at(s, pat, j));
        }
    } else {
        lemma_first_pos(s, pat, None);
    }
}

proof fn lemma_a_first(s: Seq<char>, pat: Seq<char>, at: int) -> (first: int)
    requires
        0 <= at,
        occurs_at(s, pat, at),
    ensures
        first_at(s, pat, 0, first),
    decreases at,
{
    if exists|j: int| 0 <= j < at && occurs_at(s, pat, j) {
        let j = choose|j: int| 0 <= j < at && occurs_at(s, pat, j);
        lemma_a_first(s, pat, j)
    } else {
        at
    }
}

/// A text opens one way: where it opens with `q`, it does not open with a `p` that
/// differs from `q` somewhere.
pub proof fn a_text_opens_one_way(p: Seq<char>, q: Seq<char>, s: Seq<char>, i: int)
    requires
        0 <= i < p.len(),
        i < q.len(),
        p[i] != q[i],
        q.is_prefix_of(s),
    ensures
        !p.is_prefix_of(s),
{
    assert(s.subrange(0, q.len() as int)[i] == q[i]);
    if p.is_prefix_of(s) {
        assert(s.subrange(0, p.len() as int)[i] == p[i]);
    }
}

/// A text's words are counted from zero, and there is no word past the last.
pub proof fn a_word_is_found_by_its_number(s: Seq<char>, index: int)
    ensures
        nth_word(s, index) is Some <==> 0 <= index < words_of(s).len(),
        nth_word(s, index) matches Some(w) ==> w == words_of(s)[index],
{
}

} // verus!
