//! Text as sequences of characters: the trimming, splitting and number
//! formatting that the other modules share.

use vstd::prelude::*;

verus! {

/// `String::push`: appends one character to the end of the string.
pub assume_specification[ String::push ](s: &mut String, c: char)
    ensures
        final(s)@ == old(s)@.push(c),
;

/// The characters of `s`, in order.
pub fn chars_of(s: &str) -> (r: Vec<char>)
    ensures
        r@ == s@,
{
    let mut out: Vec<char> = Vec::new();
    for c in it: s.chars()
        invariant
            it.seq() == s@,
            out@ == s@.take(it.index() as int),
    {
        out.push(c);
    }
    out
}

/// The string made of `chars`, in order.
pub fn string_of(chars: &Vec<char>) -> (r: String)
    ensures
        r@ == chars@,
{
    let mut out = String::new();
    for i in 0..chars.len()
        invariant
            out@ == chars@.take(i as int),
    {
        out.push(chars[i]);
    }
    out
}

/// The texts that a list of strings holds.
pub open spec fn texts(strings: Seq<String>) -> Seq<Seq<char>> {
    strings.map_values(|s: String| s@)
}

/// The text that an optional string holds.
pub open spec fn text_of(s: Option<String>) -> Option<Seq<char>> {
    match s {
        Some(s) => Some(s@),
        None => None,
    }
}

/// The text that an optional string slice holds.
pub open spec fn str_of(s: Option<&str>) -> Option<Seq<char>> {
    match s {
        Some(s) => Some(s@),
        None => None,
    }
}

/// Whether two texts are the same, character by character.
pub fn same_text(a: &str, b: &str) -> (r: bool)
    ensures
        r == (a@ == b@),
{
    same_chars(&chars_of(a), &chars_of(b))
}

/// Whether two character lists are the same.
pub fn same_chars(a: &Vec<char>, b: &Vec<char>) -> (r: bool)
    ensures
        r == (a@ == b@),
{
    if a.len() != b.len() {
        return false;
    }
    for i in 0..a.len()
        invariant
            a.len() == b.len(),
            forall|j: int| 0 <= j < i ==> a@[j] == b@[j],
    {
        if a[i] != b[i] {
            return false;
        }
    }
    assert(a@ =~= b@);
    true
}

/// The characters from `lo` up to, not including, `hi`.
pub fn chars_between(v: &Vec<char>, lo: usize, hi: usize) -> (r: Vec<char>)
    requires
        lo <= hi <= v.len(),
    ensures
        r@ == v@.subrange(lo as int, hi as int),
{
    let mut out: Vec<char> = Vec::new();
    for i in lo..hi
        invariant
            lo <= i <= hi <= v.len(),
            out@ == v@.subrange(lo as int, i as int),
    {
        out.push(v[i]);
        assert(out@ =~= v@.subrange(lo as int, i + 1));
    }
    out
}

/// The Unicode `White_Space` property.
pub open spec fn is_space(c: char) -> bool {
    let n = c as u32;
    ||| 0x9 <= n <= 0xd
    ||| n == 0x20
    ||| n == 0x85
    ||| n == 0xa0
    ||| n == 0x1680
    ||| 0x2000 <= n <= 0x200a
    ||| n == 0x2028
    ||| n == 0x2029
    ||| n == 0x202f
    ||| n == 0x205f
    ||| n == 0x3000
}

/// Whether `c` has the Unicode `White_Space` property.
pub fn char_is_space(c: char) -> (r: bool)
    ensures
        r == is_space(c),
{
    let n: u32 = c as u32;
    (0x9 <= n && n <= 0xd) || n == 0x20 || n == 0x85 || n == 0xa0 || n == 0x1680 || (0x2000 <= n
        && n <= 0x200a) || n == 0x2028 || n == 0x2029 || n == 0x202f || n == 0x205f || n == 0x3000
}

/// The Unicode general category `Cc`.
pub open spec fn is_control(c: char) -> bool {
    let n = c as u32;
    n <= 0x1f || 0x7f <= n <= 0x9f
}

/// Whether `c` is a control character.
pub fn char_is_control(c: char) -> (r: bool)
    ensures
        r == is_control(c),
{
    let n: u32 = c as u32;
    n <= 0x1f || (0x7f <= n && n <= 0x9f)
}

/// The classes of characters that get trimmed off the ends of a text.
#[derive(Clone, Copy)]
pub enum CharClass {
    /// Unicode white space.
    Whitespace,
    /// White space and full stops.
    DotOrWhitespace,
    /// The comma alone.
    Comma,
    /// The double quote alone.
    Quote,
}

impl CharClass {
    /// Whether the class holds `c`.
    pub open spec fn has(self, c: char) -> bool {
        match self {
            CharClass::Whitespace => is_space(c),
            CharClass::DotOrWhitespace => c == '.' || is_space(c),
            CharClass::Comma => c == ',',
            CharClass::Quote => c == '"',
        }
    }

    /// Whether the class holds `c`.
    pub fn contains(self, c: char) -> (r: bool)
        ensures
            r == self.has(c),
    {
        match self {
            CharClass::Whitespace => char_is_space(c),
            CharClass::DotOrWhitespace => c == '.' || char_is_space(c),
            CharClass::Comma => c == ',',
            CharClass::Quote => c == '"',
        }
    }
}

/// `s` without its longest run of leading characters of `class`.
pub open spec fn trim_start(s: Seq<char>, class: CharClass) -> Seq<char>
    decreases s.len(),
{
    if s.len() > 0 && class.has(s[0]) {
        trim_start(s.skip(1), class)
    } else {
        s
    }
}

/// `s` without its longest run of trailing characters of `class`.
pub open spec fn trim_end(s: Seq<char>, class: CharClass) -> Seq<char>
    decreases s.len(),
{
    if s.len() > 0 && class.has(s.last()) {
        trim_end(s.drop_last(), class)
    } else {
        s
    }
}

/// `s` without the characters of `class` at either end.
pub open spec fn trim_both(s: Seq<char>, class: CharClass) -> Seq<char> {
    trim_end(trim_start(s, class), class)
}

/// `s` without the white space at either end.
pub open spec fn trim(s: Seq<char>) -> Seq<char> {
    trim_both(s, CharClass::Whitespace)
}

/// Drops the leading characters of `class`.
pub fn trimmed_start(v: &Vec<char>, class: CharClass) -> (r: Vec<char>)
    ensures
        r@ == trim_start(v@, class),
{
    let mut i: usize = 0;
    assert(v@.skip(0) =~= v@);
    while i < v.len() && class.contains(v[i])
        invariant
            i <= v.len(),
            trim_start(v@, class) == trim_start(v@.skip(i as int), class),
        decreases v.len() - i,
    {
        assert(v@.skip(i as int).skip(1) =~= v@.skip(i + 1));
        i = i + 1;
    }
    assert(v@.skip(i as int) =~= v@.subrange(i as int, v.len() as int));
    chars_between(v, i, v.len())
}

/// Drops the trailing characters of `class`.
pub fn trimmed_end(v: &Vec<char>, class: CharClass) -> (r: Vec<char>)
    ensures
        r@ == trim_end(v@, class),
{
    let mut i: usize = v.len();
    assert(v@.take(i as int) =~= v@);
    while i > 0 && class.contains(v[i - 1])
        invariant
            i <= v.len(),
            trim_end(v@, class) == trim_end(v@.take(i as int), class),
        decreases i,
    {
        assert(v@.take(i as int).drop_last() =~= v@.take(i - 1));
        i = i - 1;
    }
    assert(v@.take(i as int) =~= v@.subrange(0, i as int));
    chars_between(v, 0, i)
}

/// Drops the characters of `class` at either end.
pub fn trimmed_both(v: &Vec<char>, class: CharClass) -> (r: Vec<char>)
    ensures
        r@ == trim_both(v@, class),
{
    trimmed_end(&trimmed_start(v, class), class)
}

/// Drops the white space at either end.
pub fn trimmed(v: &Vec<char>) -> (r: Vec<char>)
    ensures
        r@ == trim(v@),
{
    trimmed_both(v, CharClass::Whitespace)
}

/// Whether `v` begins with `prefix`.
pub fn begins_with(v: &Vec<char>, prefix: &Vec<char>) -> (r: bool)
    ensures
        r == prefix@.is_prefix_of(v@),
{
    if prefix.len() > v.len() {
        return false;
    }
    for i in 0..prefix.len()
        invariant
            prefix.len() <= v.len(),
            forall|j: int| 0 <= j < i ==> prefix@[j] == v@[j],
    {
        if prefix[i] != v[i] {
            assert(v@.subrange(0, prefix@.len() as int)[i as int] == v@[i as int]);
            return false;
        }
    }
    assert(prefix@ =~= v@.subrange(0, prefix@.len() as int));
    true
}

/// What follows `prefix` in `s`, where `s` begins with it.
pub open spec fn strip_prefix(s: Seq<char>, prefix: Seq<char>) -> Option<Seq<char>> {
    if prefix.is_prefix_of(s) {
        Some(s.skip(prefix.len() as int))
    } else {
        None
    }
}

/// What follows `prefix` in `v`, where `v` begins with it.
pub fn stripped_prefix(v: &Vec<char>, prefix: &Vec<char>) -> (r: Option<Vec<char>>)
    ensures
        match r {
            Some(rest) => strip_prefix(v@, prefix@) == Some(rest@),
            None => strip_prefix(v@, prefix@) is None,
        },
{
    if begins_with(v, prefix) {
        let rest = chars_between(v, prefix.len(), v.len());
        assert(rest@ =~= v@.skip(prefix@.len() as int));
        Some(rest)
    } else {
        None
    }
}

/// The position of the last `c` in `s`, or -1.
pub open spec fn last_index(s: Seq<char>, c: char) -> int
    decreases s.len(),
{
    if s.len() == 0 {
        -1
    } else if s.last() == c {
        s.len() - 1
    } else {
        last_index(s.drop_last(), c)
    }
}

/// What [`last_index`] says of the characters of `s`.
pub proof fn lemma_last_index(s: Seq<char>, c: char)
    ensures
        -1 <= last_index(s, c) < s.len(),
        last_index(s, c) >= 0 ==> s[last_index(s, c)] == c,
        forall|j: int| last_index(s, c) < j < s.len() ==> s[j] != c,
        last_index(s, c) < 0 <==> !s.contains(c),
    decreases s.len(),
{
    if s.len() > 0 {
        lemma_last_index(s.drop_last(), c);
        assert forall|j: int| last_index(s, c) < j < s.len() implies s[j] != c by {
            if j < s.len() - 1 {
                assert(s.drop_last()[j] == s[j]);
            }
        }
        if s.last() != c && last_index(s.drop_last(), c) >= 0 {
            assert(s.drop_last()[last_index(s.drop_last(), c)] == c);
        }
    }
}

/// The position of the last `c` in `v`.
pub fn position_of_last(v: &Vec<char>, c: char) -> (r: Option<usize>)
    ensures
        match r {
            Some(i) => i < v.len() && last_index(v@, c) == i,
            None => last_index(v@, c) == -1,
        },
{
    let mut i: usize = v.len();
    assert(v@.take(i as int) =~= v@);
    while i > 0
        invariant
            i <= v.len(),
            last_index(v@, c) == last_index(v@.take(i as int), c),
        decreases i,
    {
        if v[i - 1] == c {
            return Some(i - 1);
        }
        assert(v@.take(i as int).drop_last() =~= v@.take(i - 1));
        i = i - 1;
    }
    None
}

/// Whether `v` holds the character `c`.
pub fn holds_char(v: &Vec<char>, c: char) -> (r: bool)
    ensures
        r == v@.contains(c),
{
    for i in 0..v.len()
        invariant
            forall|j: int| 0 <= j < i ==> v@[j] != c,
    {
        if v[i] == c {
            return true;
        }
    }
    false
}

/// A line's text without the carriage return that may precede its line feed.
pub open spec fn strip_cr(line: Seq<char>) -> Seq<char> {
    if line.len() > 0 && line.last() == '\r' {
        line.drop_last()
    } else {
        line
    }
}

/// The lines of `s`, where `line` has already been read of the first one.
pub open spec fn lines_from(s: Seq<char>, line: Seq<char>) -> Seq<Seq<char>>
    decreases s.len(),
{
    if s.len() == 0 {
        if line.len() == 0 {
            seq![]
        } else {
            seq![line]
        }
    } else if s[0] == '\n' {
        seq![strip_cr(line)] + lines_from(s.skip(1), seq![])
    } else {
        lines_from(s.skip(1), line.push(s[0]))
    }
}

/// The lines of `s`: each ends at a line feed, with or without a carriage
/// return before it, or at the end of the text. Nothing follows a final line
/// feed.
pub open spec fn lines(s: Seq<char>) -> Seq<Seq<char>> {
    lines_from(s, seq![])
}

/// The texts that a list of character lists holds.
pub open spec fn char_texts(v: Seq<Vec<char>>) -> Seq<Seq<char>> {
    v.map_values(|l: Vec<char>| l@)
}

/// Splits `v` into its lines.
pub fn lines_of(v: &Vec<char>) -> (r: Vec<Vec<char>>)
    ensures
        char_texts(r@) == lines(v@),
{
    let mut out: Vec<Vec<char>> = Vec::new();
    let mut line: Vec<char> = Vec::new();
    let mut i: usize = 0;
    assert(v@.skip(0) =~= v@);
    assert(char_texts(out@) + lines_from(v@.skip(0), line@) =~= lines(v@));
    while i < v.len()
        invariant
            i <= v.len(),
            char_texts(out@) + lines_from(v@.skip(i as int), line@) == lines(v@),
        decreases v.len() - i,
    {
        let c = v[i];
        assert(v@.skip(i as int).skip(1) =~= v@.skip(i + 1));
        if c == '\n' {
            let ghost before = out@;
            let ghost text = line@;
            let whole = if line.len() > 0 && line[line.len() - 1] == '\r' {
                let cut = chars_between(&line, 0, line.len() - 1);
                assert(cut@ =~= line@.drop_last());
                cut
            } else {
                line
            };
            out.push(whole);
            line = Vec::new();
            assert(char_texts(out@) =~= char_texts(before).push(strip_cr(text)));
            assert(char_texts(out@) + lines_from(v@.skip(i + 1), seq![]) =~= char_texts(before) + (
            seq![strip_cr(text)] + lines_from(v@.skip(i + 1), seq![])));
            assert(line@ =~= seq![]);
        } else {
            line.push(c);
        }
        i = i + 1;
    }
    assert(v@.skip(i as int) =~= seq![]);
    if line.len() > 0 {
        let ghost before = out@;
        let ghost text = line@;
        out.push(line);
        assert(char_texts(out@) =~= char_texts(before) + seq![text]);
    } else {
        assert(char_texts(out@) + seq![] =~= char_texts(out@));
    }
    out
}

/// `s` with the letters `A` to `Z` in lower case.
pub open spec fn ascii_lower(s: Seq<char>) -> Seq<char> {
    s.map_values(|c: char| lower_char(c))
}

/// `c`, in lower case where it is one of `A` to `Z`.
pub open spec fn lower_char(c: char) -> char {
    if 'A' <= c <= 'Z' {
        (c as u32 + 32) as char
    } else {
        c
    }
}

/// Puts the letters `A` to `Z` in lower case.
pub fn ascii_lowered(v: &Vec<char>) -> (r: Vec<char>)
    ensures
        r@ == ascii_lower(v@),
{
    let mut out: Vec<char> = Vec::new();
    for i in 0..v.len()
        invariant
            out@ == ascii_lower(v@.take(i as int)),
    {
        let c = v[i];
        let lowered = if 'A' <= c && c <= 'Z' {
            (c as u8 + 32) as char
        } else {
            c
        };
        out.push(lowered);
        assert(v@.take(i + 1) =~= v@.take(i as int).push(c));
        assert(out@ =~= ascii_lower(v@.take(i + 1)));
    }
    assert(v@.take(v.len() as int) =~= v@);
    out
}

/// Whether two texts differ at most in the case of the letters `A` to `Z`.
pub open spec fn same_ignoring_case(a: Seq<char>, b: Seq<char>) -> bool {
    ascii_lower(a) == ascii_lower(b)
}

/// Whether two character lists differ at most in the case of the letters `A`
/// to `Z`.
pub fn equal_ignoring_case(a: &Vec<char>, b: &Vec<char>) -> (r: bool)
    ensures
        r == same_ignoring_case(a@, b@),
{
    same_chars(&ascii_lowered(a), &ascii_lowered(b))
}

/// The decimal digit `d`.
pub open spec fn digit_char(d: nat) -> char {
    (48 + d) as char
}

/// `n` in decimal, without leading zeros.
pub open spec fn decimal(n: nat) -> Seq<char>
    decreases n,
{
    if n < 10 {
        seq![digit_char(n)]
    } else {
        decimal(n / 10).push(digit_char(n % 10))
    }
}

/// Writes `n` in decimal.
pub fn decimal_of(n: u64) -> (r: String)
    ensures
        r@ == decimal(n as nat),
{
    let mut digits: Vec<char> = Vec::new();
    let mut rest: u64 = n;
    assert(decimal(rest as nat) + digits@.reverse() =~= decimal(n as nat));
    while rest >= 10
        invariant
            decimal(rest as nat) + digits@.reverse() == decimal(n as nat),
        decreases rest,
    {
        let d: u8 = (rest % 10) as u8;
        let ghost before = digits@;
        digits.push((48 + d) as char);
        assert(digits@.reverse() =~= seq![digit_char(d as nat)] + before.reverse());
        assert(decimal((rest / 10) as nat) + digits@.reverse() =~= decimal(rest as nat)
            + before.reverse());
        rest = rest / 10;
    }
    let ghost before = digits@;
    digits.push((48 + rest as u8) as char);
    assert(digits@.reverse() =~= seq![digit_char(rest as nat)] + before.reverse());
    let mut out = String::new();
    let mut i: usize = digits.len();
    while i > 0
        invariant
            i <= digits.len(),
            out@ == digits@.reverse().take(digits.len() - i),
        decreases i,
    {
        i = i - 1;
        out.push(digits[i as usize]);
        assert(out@ =~= digits@.reverse().take(digits.len() - i));
    }
    assert(digits@.reverse().take(digits.len() as int) =~= digits@.reverse());
    out
}

/// Whether `c` is one of the ten decimal digits.
pub open spec fn is_digit(c: char) -> bool {
    '0' <= c <= '9'
}

/// The number that a run of decimal digits stands for.
pub open spec fn digits_value(s: Seq<char>) -> nat
    decreases s.len(),
{
    if s.len() == 0 {
        0
    } else {
        (digits_value(s.drop_last()) * 10 + (s.last() as u32 - 48)) as nat
    }
}

/// The digits of a number as it is read: one leading `+` is skipped.
pub open spec fn unsigned_digits(s: Seq<char>) -> Seq<char> {
    if s.len() > 0 && s[0] == '+' {
        s.skip(1)
    } else {
        s
    }
}

/// The number that `s` writes: an optional `+` and then only digits, at least
/// one, of a value that fits in 64 bits.
pub open spec fn parse_u64(s: Seq<char>) -> Option<u64> {
    let d = unsigned_digits(s);
    if d.len() > 0 && (forall|i: int| 0 <= i < d.len() ==> is_digit(d[i])) && digits_value(d)
        <= u64::MAX {
        Some(digits_value(d) as u64)
    } else {
        None
    }
}

/// Reads an unsigned 64-bit number.
pub fn parsed_u64(v: &Vec<char>) -> (r: Option<u64>)
    ensures
        r == parse_u64(v@),
{
    let start: usize = if v.len() > 0 && v[0] == '+' {
        1
    } else {
        0
    };
    let ghost d = unsigned_digits(v@);
    assert(d =~= v@.skip(start as int));
    if start == v.len() {
        return None;
    }
    let mut value: u64 = 0;
    let mut fits = true;
    for i in start..v.len()
        invariant
            start <= i <= v.len(),
            d == unsigned_digits(v@),
            d == v@.skip(start as int),
            forall|j: int| 0 <= j < i - start ==> is_digit(d[j]),
            fits ==> value == digits_value(d.take(i - start)),
            !fits ==> digits_value(d.take(i - start)) > u64::MAX,
    {
        let c = v[i];
        assert(d[i - start] == c);
        if c < '0' || c > '9' {
            assert(!is_digit(d[i - start]));
            return None;
        }
        let k: u8 = c as u8 - 48;
        assert(d.take(i + 1 - start).drop_last() =~= d.take(i - start));
        assert(digits_value(d.take(i + 1 - start)) == digits_value(d.take(i - start)) * 10 + k);
        if fits {
            let next: u128 = value as u128 * 10 + k as u128;
            if next <= 0xffff_ffff_ffff_ffff {
                value = next as u64;
            } else {
                fits = false;
            }
        }
    }
    assert(d.take(v.len() - start) =~= d);
    if fits {
        Some(value)
    } else {
        None
    }
}

/// `parts` one after the other, with `sep` between neighbours.
pub open spec fn join(parts: Seq<Seq<char>>, sep: Seq<char>) -> Seq<char>
    decreases parts.len(),
{
    if parts.len() == 0 {
        seq![]
    } else if parts.len() == 1 {
        parts[0]
    } else {
        join(parts.drop_last(), sep) + sep + parts.last()
    }
}

/// Joins `parts` with `sep` between neighbours.
pub fn joined(parts: &Vec<String>, sep: &str) -> (r: String)
    ensures
        r@ == join(texts(parts@), sep@),
{
    let mut out = String::new();
    assert(out@ =~= seq![]);
    for i in 0..parts.len()
        invariant
            out@ == join(texts(parts@.take(i as int)), sep@),
    {
        let ghost now = texts(parts@.take(i + 1));
        assert(now.drop_last() =~= texts(parts@.take(i as int)));
        if i > 0 {
            out.append(sep);
        }
        out.append(parts[i].as_str());
        assert(out@ =~= join(now, sep@));
    }
    assert(parts@.take(parts.len() as int) =~= parts@);
    out
}

/// Reading back a number that was written gives the number.
pub proof fn law_decimal_parses_back(n: u64)
    ensures
        parse_u64(decimal(n as nat)) == Some(n),
{
    lemma_decimal_digits(n as nat);
    let s = decimal(n as nat);
    assert(is_digit(s[0]));
    assert(unsigned_digits(s) == s);
}

/// A written number consists of digits, and they have its value.
pub proof fn lemma_decimal_digits(n: nat)
    ensures
        decimal(n).len() > 0,
        forall|i: int| 0 <= i < decimal(n).len() ==> is_digit(#[trigger] decimal(n)[i]),
        digits_value(decimal(n)) == n,
    decreases n,
{
    if n < 10 {
        assert(decimal(n).drop_last() =~= seq![]);
        assert(digits_value(seq![]) == 0);
        assert(decimal(n).last() == digit_char(n));
    } else {
        lemma_decimal_digits(n / 10);
        assert(decimal(n).drop_last() =~= decimal(n / 10));
    }
}

/// Trimming leaves neither end in the class, and trimming again changes
/// nothing.
pub proof fn law_trim_is_final(s: Seq<char>, class: CharClass)
    ensures
        ({
            let t = trim_both(s, class);
            &&& t.len() > 0 ==> !class.has(t[0]) && !class.has(t.last())
            &&& trim_both(t, class) == t
        }),
{
    lemma_trim_start_head(s, class);
    lemma_trim_end_tail(trim_start(s, class), class);
}

proof fn lemma_trim_start_head(s: Seq<char>, class: CharClass)
    ensures
        trim_start(s, class).len() > 0 ==> !class.has(trim_start(s, class)[0]),
    decreases s.len(),
{
    if s.len() > 0 && class.has(s[0]) {
        lemma_trim_start_head(s.skip(1), class);
    }
}

proof fn lemma_trim_end_tail(s: Seq<char>, class: CharClass)
    ensures
        trim_end(s, class).len() > 0 ==> !class.has(trim_end(s, class).last()),
        trim_end(s, class).is_prefix_of(s),
        trim_end(s, class).len() > 0 ==> trim_end(s, class)[0] == s[0],
    decreases s.len(),
{
    if s.len() > 0 && class.has(s.last()) {
        lemma_trim_end_tail(s.drop_last(), class);
        assert(trim_end(s, class) =~= s.subrange(0, trim_end(s, class).len() as int));
    } else {
        assert(s.subrange(0, s.len() as int) =~= s);
    }
}

/// Trimming only takes characters away.
pub proof fn lemma_trim_keeps_chars(s: Seq<char>, class: CharClass)
    ensures
        forall|c: char| #[trigger] trim_both(s, class).contains(c) ==> s.contains(c),
{
    lemma_trim_start_keeps(s, class);
    lemma_trim_end_tail(trim_start(s, class), class);
    let t = trim_both(s, class);
    assert forall|c: char| #[trigger] t.contains(c) implies s.contains(c) by {
        let k = choose|k: int| 0 <= k < t.len() && t[k] == c;
        assert(trim_start(s, class)[k] == c);
        assert(trim_start(s, class).contains(c));
    }
}

proof fn lemma_trim_start_keeps(s: Seq<char>, class: CharClass)
    ensures
        forall|c: char| #[trigger] trim_start(s, class).contains(c) ==> s.contains(c),
    decreases s.len(),
{
    if s.len() > 0 && class.has(s[0]) {
        lemma_trim_start_keeps(s.skip(1), class);
        assert forall|c: char| #[trigger] trim_start(s, class).contains(c) implies s.contains(
            c,
        ) by {
            assert(trim_start(s.skip(1), class).contains(c));
            assert(s.skip(1).contains(c));
            let k = choose|k: int| 0 <= k < s.skip(1).len() && s.skip(1)[k] == c;
            assert(s[k + 1] == c);
        }
    }
}

/// The characters of a text make up that text again.
pub proof fn law_texts_are_their_characters(s: &str, chars: Vec<char>, r: String)
    requires
        call_ensures(chars_of, (s,), chars),
        call_ensures(string_of, (&chars,), r),
    ensures
        chars@ == s@,
        r@ == s@,
{
}

/// Trimming leaves a part of the text and takes off only characters of the class,
/// at the ends alone.
pub proof fn law_trim_takes_off_the_class(s: Vec<char>, class: CharClass, r: Vec<char>) -> (at: (
    int,
    int,
))
    requires
        call_ensures(trimmed_both, (&s, class), r),
    ensures
        0 <= at.0 <= at.1 <= s@.len(),
        r@ == s@.subrange(at.0, at.1),
        forall|i: int| 0 <= i < at.0 ==> class.has(#[trigger] s@[i]),
        forall|i: int| at.1 <= i < s@.len() ==> class.has(#[trigger] s@[i]),
        at.0 < at.1 ==> !class.has(s@[at.0]) && !class.has(s@[at.1 - 1]),
{
    lemma_trim_both_at(s@, class)
}

/// Where trimming both ends begins and stops.
pub proof fn lemma_trim_both_at(s: Seq<char>, class: CharClass) -> (at: (int, int))
    ensures
        0 <= at.0 <= at.1 <= s.len(),
        trim_both(s, class) == s.subrange(at.0, at.1),
        forall|i: int| 0 <= i < at.0 ==> class.has(#[trigger] s[i]),
        forall|i: int| at.1 <= i < s.len() ==> class.has(#[trigger] s[i]),
        at.0 < at.1 ==> !class.has(s[at.0]) && !class.has(s[at.1 - 1]),
{
    let lo = lemma_trim_start_at(s, class);
    let t = trim_start(s, class);
    let n = lemma_trim_end_at(t, class);
    assert(t.take(n) =~= s.subrange(lo, lo + n));
    assert forall|i: int| lo + n <= i < s.len() implies class.has(#[trigger] s[i]) by {
        assert(t[i - lo] == s[i]);
    }
    (lo, lo + n)
}

/// Where trimming the start stops.
pub proof fn lemma_trim_start_at(s: Seq<char>, class: CharClass) -> (lo: int)
    ensures
        0 <= lo <= s.len(),
        trim_start(s, class) == s.skip(lo),
        forall|i: int| 0 <= i < lo ==> class.has(#[trigger] s[i]),
        lo < s.len() ==> !class.has(s[lo]),
    decreases s.len(),
{
    if s.len() > 0 && class.has(s[0]) {
        let k = lemma_trim_start_at(s.skip(1), class);
        assert(s.skip(1).skip(k) =~= s.skip(k + 1));
        assert forall|i: int| 0 <= i < k + 1 implies class.has(#[trigger] s[i]) by {
            if i > 0 {
                assert(s.skip(1)[i - 1] == s[i]);
            }
        }
        if k + 1 < s.len() {
            assert(s.skip(1)[k] == s[k + 1]);
        }
        k + 1
    } else {
        assert(s.skip(0) =~= s);
        0
    }
}

proof fn lemma_trim_end_at(s: Seq<char>, class: CharClass) -> (n: int)
    ensures
        0 <= n <= s.len(),
        trim_end(s, class) == s.take(n),
        forall|i: int| n <= i < s.len() ==> class.has(#[trigger] s[i]),
        n > 0 ==> !class.has(s[n - 1]),
    decreases s.len(),
{
    if s.len() > 0 && class.has(s.last()) {
        let n = lemma_trim_end_at(s.drop_last(), class);
        assert(s.drop_last().take(n) =~= s.take(n));
        assert forall|i: int| n <= i < s.len() implies class.has(#[trigger] s[i]) by {
            if i < s.len() - 1 {
                assert(s.drop_last()[i] == s[i]);
            }
        }
        n
    } else {
        assert(s.take(s.len() as int) =~= s);
        s.len() as int
    }
}

/// Trimming one end takes off the longest run of the class there, and leaves the
/// other end alone.
pub proof fn law_trim_one_end_leaves_the_other(
    s: Vec<char>,
    class: CharClass,
    head_off: Vec<char>,
    tail_off: Vec<char>,
) -> (at: (int, int))
    requires
        call_ensures(trimmed_start, (&s, class), head_off),
        call_ensures(trimmed_end, (&s, class), tail_off),
    ensures
        0 <= at.0 <= s@.len(),
        0 <= at.1 <= s@.len(),
        head_off@ == s@.skip(at.0),
        tail_off@ == s@.take(at.1),
        forall|i: int| 0 <= i < at.0 ==> class.has(#[trigger] s@[i]),
        forall|i: int| at.1 <= i < s@.len() ==> class.has(#[trigger] s@[i]),
        at.0 < s@.len() ==> !class.has(s@[at.0]),
        at.1 > 0 ==> !class.has(s@[at.1 - 1]),
{
    (lemma_trim_start_at(s@, class), lemma_trim_end_at(s@, class))
}

/// The classes hold what they are called after.
pub proof fn law_classes_hold_what_they_say(class: CharClass, c: char, r: bool)
    requires
        call_ensures(CharClass::contains, (class, c), r),
    ensures
        class is Comma ==> (r <==> c == ','),
        class is Quote ==> (r <==> c == '"'),
        class is Whitespace ==> (r <==> is_space(c)),
        class is DotOrWhitespace ==> (r <==> is_space(c) || c == '.'),
{
}

/// A prefix is stripped exactly where the text is that prefix followed by what is
/// left.
pub proof fn law_prefixes_are_stripped(
    v: Vec<char>,
    prefix: Vec<char>,
    r: Option<Vec<char>>,
    begins: bool,
    rest: Seq<char>,
)
    requires
        call_ensures(stripped_prefix, (&v, &prefix), r),
        call_ensures(begins_with, (&v, &prefix), begins),
    ensures
        r matches Some(left) ==> v@ == prefix@ + left@,
        v@ == prefix@ + rest ==> r is Some && r->0@ == rest,
        begins <==> r is Some,
{
    if r is Some {
        assert(v@ =~= prefix@ + r->0@);
    }
    if v@ == prefix@ + rest {
        assert(prefix@ =~= v@.subrange(0, prefix@.len() as int));
        assert(v@.skip(prefix@.len() as int) =~= rest);
    }
}

/// The last position of a character is one where it stands, with none behind it.
pub proof fn law_last_position_is_the_last(v: Vec<char>, c: char, r: Option<usize>, held: bool)
    requires
        call_ensures(position_of_last, (&v, c), r),
        call_ensures(holds_char, (&v, c), held),
    ensures
        r matches Some(i) ==> i < v@.len() && v@[i as int] == c && forall|j: int|
            i < j < v@.len() ==> v@[j] != c,
        r is None ==> forall|j: int| 0 <= j < v@.len() ==> v@[j] != c,
        held <==> r is Some,
{
    lemma_last_index(v@, c);
    if r is None {
        assert forall|j: int| 0 <= j < v@.len() implies v@[j] != c by {
            assert(last_index(v@, c) < j);
        }
    }
}

/// A text up to its first line feed is its first line, without a carriage return
/// at the end, and the other lines are those of what follows. A text without a
/// line feed is one line, or none where it is empty.
pub proof fn law_lines_end_at_line_feeds(line: Seq<char>, rest: Seq<char>)
    requires
        !line.contains('\n'),
    ensures
        line.len() == 0 ==> lines(line) == Seq::<Seq<char>>::empty(),
        line.len() > 0 ==> lines(line) == seq![line],
        lines(line.push('\n') + rest) == seq![
            if line.len() > 0 && line.last() == '\r' {
                line.drop_last()
            } else {
                line
            },
        ] + lines(rest),
{
    lemma_lines_from(line, seq![], seq![]);
    lemma_lines_from(line, seq![], seq!['\n'] + rest);
    assert(line + Seq::<char>::empty() =~= line);
    assert(Seq::<char>::empty() + line =~= line);
    assert(line + (seq!['\n'] + rest) =~= line.push('\n') + rest);
    assert((seq!['\n'] + rest).skip(1) =~= rest);
    assert((seq!['\n'] + rest)[0] == '\n');
}

proof fn lemma_lines_from(line: Seq<char>, read: Seq<char>, rest: Seq<char>)
    requires
        !line.contains('\n'),
    ensures
        lines_from(line + rest, read) == lines_from(rest, read + line),
    decreases line.len(),
{
    if line.len() == 0 {
        assert(line + rest =~= rest);
        assert(read + line =~= read);
    } else {
        assert(line.contains(line[0]));
        assert((line + rest)[0] == line[0]);
        assert((line + rest).skip(1) =~= line.skip(1) + rest);
        assert(!line.skip(1).contains('\n')) by {
            if line.skip(1).contains('\n') {
                let k = choose|k: int| 0 <= k < line.skip(1).len() && line.skip(1)[k] == '\n';
                assert(line[k + 1] == '\n');
            }
        }
        lemma_lines_from(line.skip(1), read.push(line[0]), rest);
        assert(read.push(line[0]) + line.skip(1) =~= read + line);
    }
}

/// Splitting gives the lines of the text.
pub proof fn law_splitting_gives_the_lines(v: Vec<char>, r: Vec<Vec<char>>)
    requires
        call_ensures(lines_of, (&v,), r),
    ensures
        r@.len() == lines(v@).len(),
        forall|i: int| 0 <= i < r@.len() ==> (#[trigger] r@[i])@ == lines(v@)[i],
{
    assert(char_texts(r@).len() == r@.len());
    assert forall|i: int| 0 <= i < r@.len() implies (#[trigger] r@[i])@ == lines(v@)[i] by {
        assert(char_texts(r@)[i] == r@[i]@);
    }
}

/// Lowering puts the letters `A` to `Z` in lower case, and leaves every other
/// character and every position alone.
pub proof fn law_lowering_touches_capitals_alone(v: Vec<char>, r: Vec<char>, i: int)
    requires
        call_ensures(ascii_lowered, (&v,), r),
        0 <= i < v@.len(),
    ensures
        r@.len() == v@.len(),
        'A' <= v@[i] <= 'Z' ==> r@[i] as u32 == v@[i] as u32 + 32,
        !('A' <= v@[i] <= 'Z') ==> r@[i] == v@[i],
{
}

/// Two texts are the same but for case exactly where lowering makes them the same.
pub proof fn law_case_is_ignored(
    a: Vec<char>,
    b: Vec<char>,
    low_a: Vec<char>,
    low_b: Vec<char>,
    r: bool,
)
    requires
        call_ensures(ascii_lowered, (&a,), low_a),
        call_ensures(ascii_lowered, (&b,), low_b),
        call_ensures(equal_ignoring_case, (&a, &b), r),
    ensures
        r <==> low_a@ == low_b@,
{
}

/// A written number has no leading zero, unless it is zero.
pub proof fn law_numbers_have_no_leading_zero(n: u64, r: String)
    requires
        call_ensures(decimal_of, (n,), r),
    ensures
        n > 0 ==> r@[0] != '0',
        n == 0 ==> r@ == seq!['0'],
        parse_u64(r@) == Some(n),
{
    lemma_no_leading_zero(n as nat);
    law_decimal_parses_back(n);
}

proof fn lemma_no_leading_zero(n: nat)
    ensures
        decimal(n).len() > 0,
        n > 0 ==> decimal(n)[0] != '0',
    decreases n,
{
    if n >= 10 {
        lemma_no_leading_zero(n / 10);
    }
}

/// A number is read exactly where nothing but digits, at least one, stands there,
/// behind a plus sign or not, and the value fits. The value of one more digit is
/// ten times that of the digits before it and the digit.
pub proof fn law_numbers_are_read(v: Vec<char>, r: Option<u64>, digits: Seq<char>, d: char)
    requires
        call_ensures(parsed_u64, (&v,), r),
        v@ == digits.push(d) || v@ == seq!['+'] + digits.push(d),
        digits.len() > 0 ==> digits[0] != '+',
        digits.len() == 0 ==> d != '+',
    ensures
        !('0' <= d <= '9') ==> r is None,
        '0' <= d <= '9' && digits.len() == 0 ==> r is Some && r->0 == d as u32 - 48,
        '0' <= d <= '9' && digits.len() > 0 ==> {
            let before = parse_u64(digits);
            &&& before is None ==> r is None
            &&& before is Some && before->0 * 10 + (d as u32 - 48) <= u64::MAX ==> r is Some && r->0
                == before->0 * 10 + (d as u32 - 48)
            &&& before is Some && before->0 * 10 + (d as u32 - 48) > u64::MAX ==> r is None
        },
{
    let all = digits.push(d);
    assert((seq!['+'] + all).skip(1) =~= all);
    assert(unsigned_digits(v@) =~= all);
    assert(all.drop_last() =~= digits);
    assert(all[all.len() - 1] == d);
    assert(unsigned_digits(digits) == digits);
    if digits.len() == 0 {
        assert(digits_value(digits) == 0);
    } else if '0' <= d <= '9' {
        let bad = !(forall|i: int| 0 <= i < digits.len() ==> is_digit(digits[i]));
        if bad {
            let i = choose|i: int| 0 <= i < digits.len() && !is_digit(digits[i]);
            assert(all[i] == digits[i]);
        } else {
            assert forall|i: int| 0 <= i < all.len() implies is_digit(all[i]) by {
                if i < digits.len() {
                    assert(all[i] == digits[i]);
                }
            }
        }
    }
}

/// Nothing is not a number.
pub proof fn law_nothing_is_no_number(v: Vec<char>, r: Option<u64>)
    requires
        call_ensures(parsed_u64, (&v,), r),
        v@.len() == 0 || v@ == seq!['+'],
    ensures
        r is None,
{
    if v@.len() > 0 {
        assert(unsigned_digits(v@) =~= seq![]);
    }
}

/// Joining puts the separator between neighbours and nowhere else.
pub proof fn law_joining_separates_neighbours(
    parts: Vec<String>,
    more: Vec<String>,
    part: String,
    sep: &str,
    few: String,
    all: String,
)
    requires
        call_ensures(joined, (&parts, sep), few),
        call_ensures(joined, (&more, sep), all),
        more@ == parts@.push(part),
    ensures
        parts@.len() == 0 ==> few@.len() == 0 && all@ == part@,
        parts@.len() > 0 ==> all@ == few@ + sep@ + part@,
{
    assert(texts(more@).drop_last() =~= texts(parts@));
    assert(texts(more@).last() == part@);
}

} // verus!
