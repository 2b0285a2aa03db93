//! Text as sequences of characters: the operations that the rest of the library builds
//! command lines, messages and names with.
use vstd::prelude::*;
use vstd::utf8::{decode_utf8, encode_utf8, valid_utf8};

verus! {

/// `String::push` appends one character.
pub assume_specification[ std::string::String::push ](s: &mut std::string::String, c: char)
    ensures
        final(s)@ == old(s)@.push(c),
;

/// `String::push_str` appends the whole of a string slice.
pub assume_specification[ std::string::String::push_str ](s: &mut std::string::String, t: &str)
    ensures
        final(s)@ == old(s)@ + t@,
;

/// Whether a character has the Unicode property White_Space.
pub open spec fn is_white_space(c: char) -> bool {
    let code = c as u32;
    0x9 <= code <= 0xd || code == 0x20 || code == 0x85 || code == 0xa0 || code == 0x1680 || 0x2000
        <= code <= 0x200a || code == 0x2028 || code == 0x2029 || code == 0x202f || code == 0x205f
        || code == 0x3000
}

/// `char::is_whitespace` tells whether the character has the property White_Space.
pub assume_specification[ char::is_whitespace ](c: char) -> (b: bool)
    ensures
        b == is_white_space(c),
;

/// The texts that a sequence of strings holds.
pub open spec fn texts(v: Seq<String>) -> Seq<Seq<char>> {
    v.map_values(|s: String| s@)
}

/// The parts, in order, with `sep` between each two of them.
pub open spec fn joined(parts: Seq<Seq<char>>, sep: Seq<char>) -> Seq<char>
    decreases parts.len(),
{
    if parts.len() == 0 {
        Seq::empty()
    } else if parts.len() == 1 {
        parts[0]
    } else {
        joined(parts.drop_last(), sep) + sep + parts.last()
    }
}

/// The characters of a string, by index.
pub fn chars_of(s: &str) -> (v: Vec<char>)
    ensures
        v@ == s@,
{
    let mut v: Vec<char> = Vec::new();
    for c in it: s.chars()
        invariant
            it.seq() == s@,
            v@ == s@.take(it.index() as int),
    {
        v.push(c);
        assert(v@ =~= s@.take(it.index() + 1));
    }
    assert(s@.take(s@.len() as int) =~= s@);
    v
}

/// The string of the characters from `from` up to and without `to`.
pub fn text_between(v: &Vec<char>, from: usize, to: usize) -> (s: String)
    requires
        from <= to <= v@.len(),
    ensures
        s@ == v@.subrange(from as int, to as int),
{
    let mut s = String::new();
    let mut i: usize = from;
    while i < to
        invariant
            from <= i <= to <= v@.len(),
            s@ == v@.subrange(from as int, i as int),
        decreases to - i,
    {
        s.push(v[i]);
        i = i + 1;
        assert(s@ =~= v@.subrange(from as int, i as int));
    }
    s
}

/// Joins the strings with `sep` between each two of them.
pub fn join(parts: &Vec<String>, sep: &str) -> (s: String)
    ensures
        s@ == joined(texts(parts@), sep@),
{
    let mut s = String::new();
    for i in 0..parts.len()
        invariant
            s@ == joined(texts(parts@).take(i as int), sep@),
    {
        let ghost before = texts(parts@).take(i as int);
        let ghost after = texts(parts@).take(i + 1);
        if i > 0 {
            s.push_str(sep);
        }
        s.push_str(parts[i].as_str());
        proof {
            assert(after.drop_last() =~= before);
            assert(after.last() == parts@[i as int]@);
        }
    }
    assert(texts(parts@).take(parts.len() as int) =~= texts(parts@));
    s
}

/// The text without the white space at its front.
pub open spec fn trimmed_start(s: Seq<char>) -> Seq<char>
    decreases s.len(),
{
    if s.len() > 0 && is_white_space(s[0]) {
        trimmed_start(s.drop_first())
    } else {
        s
    }
}

/// The text without the white space at its end.
pub open spec fn trimmed_end(s: Seq<char>) -> Seq<char>
    decreases s.len(),
{
    if s.len() > 0 && is_white_space(s.last()) {
        trimmed_end(s.drop_last())
    } else {
        s
    }
}

/// The text without the white space at its front and its end.
pub open spec fn trimmed(s: Seq<char>) -> Seq<char> {
    trimmed_end(trimmed_start(s))
}

/// Takes the white space off both ends.
pub fn trim(s: &str) -> (t: String)
    ensures
        t@ == trimmed(s@),
{
    let v = chars_of(s);
    let mut from: usize = 0;
    assert(v@.subrange(0, v@.len() as int) =~= v@);
    while from < v.len() && v[from].is_whitespace()
        invariant
            from <= v@.len(),
            trimmed_start(v@) == trimmed_start(v@.subrange(from as int, v@.len() as int)),
        decreases v@.len() - from,
    {
        assert(v@.subrange(from as int, v@.len() as int).drop_first() =~= v@.subrange(
            from + 1,
            v@.len() as int,
        ));
        from = from + 1;
    }
    let ghost started = v@.subrange(from as int, v@.len() as int);
    assert(trimmed_start(v@) == started);
    let mut to: usize = v.len();
    while from < to && v[to - 1].is_whitespace()
        invariant
            from <= to <= v@.len(),
            trimmed_end(started) == trimmed_end(v@.subrange(from as int, to as int)),
        decreases to,
    {
        assert(v@.subrange(from as int, to as int).drop_last() =~= v@.subrange(
            from as int,
            to - 1,
        ));
        to = to - 1;
    }
    text_between(&v, from, to)
}

/// The text with each occurrence of `c` replaced by `by`.
pub open spec fn replaced(s: Seq<char>, c: char, by: Seq<char>) -> Seq<char>
    decreases s.len(),
{
    if s.len() == 0 {
        s
    } else {
        replaced(s.drop_last(), c, by) + if s.last() == c {
            by
        } else {
            seq![s.last()]
        }
    }
}

/// Replaces each occurrence of `c` by `by`.
pub fn replace_char(s: &str, c: char, by: &str) -> (t: String)
    ensures
        t@ == replaced(s@, c, by@),
{
    let v = chars_of(s);
    let mut t = String::new();
    for i in 0..v.len()
        invariant
            v@ == s@,
            t@ == replaced(s@.take(i as int), c, by@),
    {
        assert(s@.take(i + 1).drop_last() =~= s@.take(i as int));
        if v[i] == c {
            t.push_str(by);
        } else {
            let ghost before = t@;
            t.push(v[i]);
            assert(t@ =~= before + seq![v@[i as int]]);
        }
    }
    assert(s@.take(v.len() as int) =~= s@);
    t
}

/// Whether `needle` stands in `s` at position `i`.
pub open spec fn stands_at(s: Seq<char>, needle: Seq<char>, i: int) -> bool {
    0 <= i <= i + needle.len() <= s.len() && s.subrange(i, i + needle.len()) == needle
}

/// Whether `needle` stands anywhere in `s`.
pub open spec fn occurs_in(s: Seq<char>, needle: Seq<char>) -> bool {
    exists|i: int| #[trigger] stands_at(s, needle, i)
}

/// Compares the characters of `v` from `at` on with those of `needle`.
fn matches_at(v: &Vec<char>, needle: &Vec<char>, at: usize) -> (b: bool)
    requires
        at + needle@.len() <= v@.len(),
    ensures
        b == stands_at(v@, needle@, at as int),
{
    for j in 0..needle.len()
        invariant
            at + needle.len() <= v.len(),
            v@.subrange(at as int, at + j) == needle@.take(j as int),
    {
        if v[at + j] != needle[j] {
            assert(v@.subrange(at as int, at + needle@.len())[j as int] != needle@[j as int]);
            return false;
        }
        assert(v@.subrange(at as int, at + j + 1) =~= needle@.take(j + 1));
    }
    assert(needle@.take(needle@.len() as int) =~= needle@);
    true
}

/// Tells whether `needle` occurs in `s`.
pub fn contains(s: &str, needle: &str) -> (b: bool)
    ensures
        b == occurs_in(s@, needle@),
{
    let v = chars_of(s);
    let n = chars_of(needle);
    if n.len() > v.len() {
        assert forall|i: int| !stands_at(s@, needle@, i) by {}
        return false;
    }
    let last: usize = v.len() - n.len();
    let mut i: usize = 0;
    while i <= last
        invariant
            v@ == s@,
            n@ == needle@,
            last == v@.len() - n@.len(),
            i <= last + 1,
            last < usize::MAX || i <= last,
            forall|k: int| 0 <= k < i ==> !stands_at(s@, needle@, k),
        decreases last + 1 - i,
    {
        if matches_at(&v, &n, i) {
            return true;
        }
        if i == last {
            assert forall|k: int| !stands_at(s@, needle@, k) by {
                if stands_at(s@, needle@, k) {
                    assert(0 <= k <= last);
                }
            }
            return false;
        }
        i = i + 1;
    }
    false
}

/// Tells whether `s` begins with `prefix`.
pub fn starts_with(s: &str, prefix: &str) -> (b: bool)
    ensures
        b == prefix@.is_prefix_of(s@),
{
    let v = chars_of(s);
    let p = chars_of(prefix);
    if p.len() > v.len() {
        return false;
    }
    let b = matches_at(&v, &p, 0);
    assert(b == stands_at(s@, prefix@, 0));
    assert(s@.subrange(0, prefix@.len() as int) == s@.take(prefix@.len() as int));
    b
}

/// Tells whether two texts are the same.
pub fn same(a: &str, b: &str) -> (r: bool)
    ensures
        r == (a@ == b@),
{
    let x = chars_of(a);
    let y = chars_of(b);
    if x.len() != y.len() {
        return false;
    }
    let r = matches_at(&x, &y, 0);
    assert(x@.subrange(0, y@.len() as int) =~= x@);
    r
}

/// The decimal digit of a number below ten.
pub open spec fn digit(n: nat) -> char {
    ((n % 10) + 48) as char
}

/// A number in decimal, without leading zeros.
pub open spec fn decimal(n: nat) -> Seq<char>
    decreases n,
{
    if n < 10 {
        seq![digit(n)]
    } else {
        decimal(n / 10).push(digit(n))
    }
}

/// Writes a number in decimal.
pub fn decimal_of(n: u64) -> (s: String)
    ensures
        s@ == decimal(n as nat),
    decreases n,
{
    let c: char = ((n % 10) as u8 + 48) as char;
    assert(c == digit(n as nat));
    if n < 10 {
        let mut s = String::new();
        s.push(c);
        assert(s@ =~= seq![c]);
        s
    } else {
        let mut s = decimal_of(n / 10);
        s.push(c);
        s
    }
}

/// `count` times the character `c`.
pub open spec fn repeated(c: char, count: nat) -> Seq<char> {
    Seq::new(count, |i: int| c)
}

/// The string of `count` times the character `c`.
pub fn repeat(c: char, count: usize) -> (s: String)
    ensures
        s@ == repeated(c, count as nat),
{
    let mut s = String::new();
    for i in 0..count
        invariant
            s@ == repeated(c, i as nat),
    {
        s.push(c);
        assert(s@ =~= repeated(c, (i + 1) as nat));
    }
    s
}

/// Copies a list of strings.
pub fn copy_texts(v: &Vec<String>) -> (r: Vec<String>)
    ensures
        r@ == v@,
{
    let mut r: Vec<String> = Vec::new();
    for i in 0..v.len()
        invariant
            r@ == v@.take(i as int),
    {
        r.push(v[i].clone());
        assert(r@ =~= v@.take(i + 1));
    }
    assert(v@.take(v.len() as int) =~= v@);
    r
}

/// The text of bytes that need not be valid UTF-8.
pub uninterp spec fn lossy_text(bytes: Seq<u8>) -> Seq<char>;

/// `String::from_utf8_lossy`: the text of the bytes, with what is not valid UTF-8 replaced. Valid
/// UTF-8 comes out as it is.
#[verifier::external_body]
pub(crate) fn text_lossy(bytes: &[u8]) -> (s: String)
    ensures
        s@ == lossy_text(bytes@),
        valid_utf8(bytes@) ==> s@ == decode_utf8(bytes@),
{
    String::from_utf8_lossy(bytes).to_string()
}

/// `std::str::from_utf8`: the text of the bytes, where they are valid UTF-8.
#[verifier::external_body]
pub(crate) fn text_of_utf8(bytes: &[u8]) -> (r: Option<String>)
    ensures
        r is Some <==> valid_utf8(bytes@),
        r matches Some(s) ==> s@ == decode_utf8(bytes@),
{
    std::str::from_utf8(bytes).ok().map(|s| s.to_string())
}

/// The position of the first `c` from `from` on, or the length where there is none.
pub open spec fn position_from(s: Seq<char>, c: char, from: int) -> int
    decreases s.len() - from,
{
    if from >= s.len() || s[from] == c {
        from
    } else {
        position_from(s, c, from + 1)
    }
}

/// What follows the first `c`, or all of the text where there is none.
pub open spec fn after_first(s: Seq<char>, c: char) -> Seq<char> {
    let i = position_from(s, c, 0);
    if i < s.len() {
        s.skip(i + 1)
    } else {
        s
    }
}

/// What follows the last `c`, or all of the text where there is none.
pub open spec fn after_last(s: Seq<char>, c: char) -> Seq<char>
    decreases s.len(),
{
    if s.len() == 0 || s.last() == c {
        Seq::empty()
    } else {
        after_last(s.drop_last(), c).push(s.last())
    }
}

/// What stands before the last `c`, where there is one.
pub open spec fn before_last(s: Seq<char>, c: char) -> Option<Seq<char>>
    decreases s.len(),
{
    if s.len() == 0 {
        None
    } else if s.last() == c {
        Some(s.drop_last())
    } else {
        before_last(s.drop_last(), c)
    }
}

/// The position of the first `c` from `from` on, or the length where there is none.
pub fn find_from(v: &Vec<char>, c: char, from: usize) -> (r: usize)
    requires
        from <= v@.len(),
    ensures
        r == position_from(v@, c, from as int),
        from <= r <= v@.len(),
        r < v@.len() ==> v@[r as int] == c,
        forall|k: int| from <= k < r ==> v@[k] != c,
{
    let mut i: usize = from;
    while i < v.len() && v[i] != c
        invariant
            from <= i <= v@.len(),
            position_from(v@, c, from as int) == position_from(v@, c, i as int),
            forall|k: int| from <= k < i ==> v@[k] != c,
        decreases v@.len() - i,
    {
        i = i + 1;
    }
    i
}

/// Takes off everything up to and with the first `c`.
pub fn cut_to_first(s: &str, c: char) -> (t: String)
    ensures
        t@ == after_first(s@, c),
{
    let v = chars_of(s);
    let i: usize = find_from(&v, c, 0);
    let len: usize = v.len();
    if i < len {
        assert(v@.skip(i + 1) =~= v@.subrange(i + 1, len as int));
        text_between(&v, i + 1, len)
    } else {
        s.to_owned()
    }
}

/// The value of a digit.
pub open spec fn digit_value(c: char, radix: nat) -> Option<nat> {
    if '0' <= c && c <= '9' && (c as nat) - 48 < radix {
        Some((c as nat - 48) as nat)
    } else {
        None
    }
}

/// The value of a row of digits.
pub open spec fn digits_value(s: Seq<char>, radix: nat) -> Option<nat>
    decreases s.len(),
{
    if s.len() == 0 {
        Some(0)
    } else {
        match (digits_value(s.drop_last(), radix), digit_value(s.last(), radix)) {
            (Some(value), Some(digit)) => Some(value * radix + digit),
            _ => None,
        }
    }
}

/// The value of a number without a sign, or with a plus before it, in a radix of at most ten.
pub open spec fn number_value(s: Seq<char>, radix: nat) -> Option<nat> {
    let digits = if s.len() > 0 && s[0] == '+' {
        s.skip(1)
    } else {
        s
    };
    if digits.len() == 0 {
        None
    } else {
        digits_value(digits, radix)
    }
}

/// What is said of a text that is no number of type `usize`.
pub uninterp spec fn parse_usize_error(s: Seq<char>) -> Seq<char>;

/// `str::parse::<usize>`: the number that the text writes in decimal, where it is one that the
/// type can hold, else the text of the `ParseIntError`.
#[verifier::external_body]
pub(crate) fn parse_usize(s: &str) -> (r: Result<usize, String>)
    ensures
        match r {
            Ok(n) => number_value(s@, 10) == Some(n as nat),
            Err(error) => !(number_value(s@, 10) matches Some(n) && n <= usize::MAX) && error@
                == parse_usize_error(s@),
        },
{
    s.parse::<usize>().map_err(|error| error.to_string())
}

/// What is said of a text that is no octal number of type `u32`.
pub uninterp spec fn parse_octal_error(s: Seq<char>) -> Seq<char>;

/// `u32::from_str_radix` with the radix eight: the number that the text writes in octal, where it
/// is one that the type can hold, else the text of the `ParseIntError`.
#[verifier::external_body]
pub(crate) fn parse_octal(s: &str) -> (r: Result<u32, String>)
    ensures
        match r {
            Ok(n) => number_value(s@, 8) == Some(n as nat),
            Err(error) => !(number_value(s@, 8) matches Some(n) && n <= u32::MAX) && error@
                == parse_octal_error(s@),
        },
{
    u32::from_str_radix(s, 8).map_err(|error| error.to_string())
}

/// A number in octal, without leading zeros.
pub open spec fn octal(n: nat) -> Seq<char>
    decreases n,
{
    if n < 8 {
        seq![digit(n)]
    } else {
        octal(n / 8).push(digit(n % 8))
    }
}

/// Writes a number in octal.
pub fn octal_of(n: u32) -> (s: String)
    ensures
        s@ == octal(n as nat),
    decreases n,
{
    let c: char = ((n % 8) as u8 + 48) as char;
    if n < 8 {
        assert(c == digit(n as nat));
        let mut s = String::new();
        s.push(c);
        assert(s@ =~= seq![c]);
        s
    } else {
        assert(c == digit((n % 8) as nat));
        let mut s = octal_of(n / 8);
        s.push(c);
        s
    }
}

/// A path below a directory: a path that begins with a slash stands for itself.
pub open spec fn path_below(dir: Seq<char>, path: Seq<char>) -> Seq<char> {
    if path.len() > 0 && path[0] == '/' {
        path
    } else if dir.len() == 0 || dir.last() == '/' {
        dir + path
    } else {
        dir + "/"@ + path
    }
}

/// Joins a directory and a path below it.
pub fn join_path(dir: &str, path: &str) -> (s: String)
    ensures
        s@ == path_below(dir@, path@),
{
    let d = chars_of(dir);
    let p = chars_of(path);
    if p.len() > 0 && p[0] == '/' {
        return path.to_owned();
    }
    let mut s = dir.to_owned();
    if d.len() > 0 && d[d.len() - 1] != '/' {
        s.push_str("/");
    }
    s.push_str(path);
    s
}

/// Whether `a` does not come after `b` in the order of a dictionary whose letters are ordered by
/// their code points.
pub open spec fn text_le(a: Seq<char>, b: Seq<char>) -> bool
    decreases a.len(),
{
    if a.len() == 0 {
        true
    } else if b.len() == 0 {
        false
    } else if a[0] != b[0] {
        a[0] < b[0]
    } else {
        text_le(a.skip(1), b.skip(1))
    }
}

/// Tells whether `a` does not come after `b`.
pub fn le(a: &str, b: &str) -> (r: bool)
    ensures
        r == text_le(a@, b@),
{
    let x = chars_of(a);
    let y = chars_of(b);
    let mut i: usize = 0;
    assert(x@.skip(0) =~= x@);
    assert(y@.skip(0) =~= y@);
    while i < x.len() && i < y.len() && x[i] == y[i]
        invariant
            i <= x@.len(),
            i <= y@.len(),
            text_le(x@, y@) == text_le(x@.skip(i as int), y@.skip(i as int)),
        decreases x@.len() - i,
    {
        assert(x@.skip(i as int).skip(1) =~= x@.skip(i + 1));
        assert(y@.skip(i as int).skip(1) =~= y@.skip(i + 1));
        i = i + 1;
    }
    if i == x.len() {
        true
    } else if i == y.len() {
        false
    } else {
        x[i] < y[i]
    }
}

/// The order of texts is total.
pub proof fn text_le_is_total(a: Seq<char>, b: Seq<char>)
    ensures
        text_le(a, b) || text_le(b, a),
    decreases a.len(),
{
    if a.len() > 0 && b.len() > 0 && a[0] == b[0] {
        text_le_is_total(a.skip(1), b.skip(1));
    }
}

/// The order of texts is transitive.
pub proof fn text_le_is_transitive(a: Seq<char>, b: Seq<char>, c: Seq<char>)
    requires
        text_le(a, b),
        text_le(b, c),
    ensures
        text_le(a, c),
    decreases a.len(),
{
    if a.len() > 0 && b.len() > 0 && c.len() > 0 && a[0] == b[0] && b[0] == c[0] {
        text_le_is_transitive(a.skip(1), b.skip(1), c.skip(1));
    }
}

/// Two texts of which neither comes after the other are the same.
pub proof fn text_le_is_antisymmetric(a: Seq<char>, b: Seq<char>)
    requires
        text_le(a, b),
        text_le(b, a),
    ensures
        a == b,
    decreases a.len(),
{
    if a.len() > 0 && b.len() > 0 {
        text_le_is_antisymmetric(a.skip(1), b.skip(1));
        assert(a =~= seq![a[0]] + a.skip(1));
        assert(b =~= seq![b[0]] + b.skip(1));
    } else {
        assert(a =~= b);
    }
}

/// How many bytes a text takes in UTF-8.
pub open spec fn byte_len(s: Seq<char>) -> nat {
    encode_utf8(s).len()
}

/// Counts the bytes of a text.
pub fn len_in_bytes(s: &str) -> (n: usize)
    ensures
        n == byte_len(s@),
{
    s.as_bytes().len()
}

/// The text with spaces behind it up to the given number of characters.
pub open spec fn padded(s: Seq<char>, width: nat) -> Seq<char> {
    if s.len() < width {
        s + repeated(' ', (width - s.len()) as nat)
    } else {
        s
    }
}

/// Puts spaces behind a text up to the given number of characters.
pub fn pad(s: &str, width: usize) -> (t: String)
    ensures
        t@ == padded(s@, width as nat),
{
    let mut t = s.to_owned();
    let count: usize = s.unicode_len();
    if count < width {
        t.push_str(repeat(' ', width - count).as_str());
    }
    t
}

/// How many lines a text has. What follows the last line ending counts where there is any.
pub open spec fn line_count(s: Seq<char>) -> nat
    decreases s.len(),
{
    if s.len() == 0 {
        0
    } else if s.len() == 1 {
        1
    } else {
        line_count(s.drop_last()) + if s[s.len() - 2] == '\n' {
            1nat
        } else {
            0
        }
    }
}

/// Counts the lines of a text.
pub fn count_lines(s: &str) -> (n: usize)
    ensures
        n == line_count(s@),
{
    let v = chars_of(s);
    let mut n: usize = 0;
    for i in 0..v.len()
        invariant
            v@ == s@,
            n == line_count(s@.take(i as int)),
            n <= i,
    {
        let ghost next = s@.take(i + 1);
        assert(next.drop_last() =~= s@.take(i as int));
        if i == 0 || v[i - 1] == '\n' {
            n = n + 1;
        }
    }
    assert(s@.take(v@.len() as int) =~= s@);
    n
}

/// The first line of a text, without its line ending. An empty text has no line.
pub open spec fn first_line(s: Seq<char>) -> Option<Seq<char>> {
    let end = position_from(s, '\n', 0);
    if s.len() == 0 {
        None
    } else if end < s.len() && end > 0 && s[end - 1] == '\r' {
        Some(s.take(end - 1))
    } else {
        Some(s.take(end))
    }
}

/// Finds the first line of a text.
pub fn line_of_text(s: &str) -> (r: Option<String>)
    ensures
        match r {
            Some(line) => first_line(s@) == Some(line@),
            None => first_line(s@) is None,
        },
{
    let v = chars_of(s);
    if v.len() == 0 {
        return None;
    }
    let end: usize = find_from(&v, '\n', 0);
    if end < v.len() && end > 0 && v[end - 1] == '\r' {
        assert(v@.subrange(0, end - 1) =~= v@.take(end - 1));
        Some(text_between(&v, 0, end - 1))
    } else {
        assert(v@.subrange(0, end as int) =~= v@.take(end as int));
        Some(text_between(&v, 0, end))
    }
}

/// The hexadecimal digit of a number below sixteen.
pub open spec fn hex_digit(n: nat) -> char {
    if n < 10 {
        (n + 48) as char
    } else {
        (n + 87) as char
    }
}

/// A number in hexadecimal, without leading zeros.
pub open spec fn hexadecimal(n: nat) -> Seq<char>
    decreases n,
{
    if n < 16 {
        seq![hex_digit(n)]
    } else {
        hexadecimal(n / 16).push(hex_digit(n % 16))
    }
}

/// Writes a number in hexadecimal.
pub fn hexadecimal_of(n: u64) -> (s: String)
    ensures
        s@ == hexadecimal(n as nat),
    decreases n,
{
    let d: u8 = (n % 16) as u8;
    let c: char = if d < 10 {
        (d + 48) as char
    } else {
        (d + 87) as char
    };
    assert(c == hex_digit((n % 16) as nat));
    if n < 16 {
        let mut s = String::new();
        s.push(c);
        assert(s@ =~= seq![c]);
        s
    } else {
        let mut s = hexadecimal_of(n / 16);
        s.push(c);
        s
    }
}

/// Where the word that goes on at `from` ends.
pub open spec fn word_end(s: Seq<char>, from: int) -> int
    decreases s.len() - from,
{
    if from >= s.len() || is_white_space(s[from]) {
        from
    } else {
        word_end(s, from + 1)
    }
}

proof fn word_end_lies_ahead(s: Seq<char>, from: int)
    ensures
        word_end(s, from) >= from,
        from <= s.len() ==> word_end(s, from) <= s.len(),
    decreases s.len() - from,
{
    if from < s.len() && !is_white_space(s[from]) {
        word_end_lies_ahead(s, from + 1);
    }
}

/// The words of a text from `from` on: what stands between white space.
pub open spec fn words_from(s: Seq<char>, from: int) -> Seq<Seq<char>>
    decreases s.len() - from,
    via words_from_ends
{
    if from >= s.len() {
        Seq::empty()
    } else if is_white_space(s[from]) {
        words_from(s, from + 1)
    } else {
        seq![s.subrange(from, word_end(s, from))] + words_from(s, word_end(s, from))
    }
}

#[via_fn]
proof fn words_from_ends(s: Seq<char>, from: int) {
    if from < s.len() && !is_white_space(s[from]) {
        word_end_lies_ahead(s, from + 1);
    }
}

/// The words of a text.
pub open spec fn words(s: Seq<char>) -> Seq<Seq<char>> {
    words_from(s, 0)
}

/// Takes the words out of a text.
pub fn split_whitespace(s: &str) -> (r: Vec<String>)
    ensures
        texts(r@) == words(s@),
{
    let v = chars_of(s);
    let mut r: Vec<String> = Vec::new();
    let mut i: usize = 0;
    assert(texts(r@) + words_from(s@, 0) =~= words(s@));
    while i < v.len()
        invariant
            v@ == s@,
            i <= v@.len(),
            texts(r@) + words_from(s@, i as int) == words(s@),
        decreases v@.len() - i,
    {
        if v[i].is_whitespace() {
            i = i + 1;
        } else {
            let start: usize = i;
            let ghost before = texts(r@);
            while i < v.len() && !v[i].is_whitespace()
                invariant
                    v@ == s@,
                    start <= i <= v@.len(),
                    start < v@.len() && !is_white_space(s@[start as int]),
                    word_end(s@, start as int) == word_end(s@, i as int),
                decreases v@.len() - i,
            {
                i = i + 1;
            }
            assert(i > start);
            r.push(text_between(&v, start, i));
            proof {
                let word = s@.subrange(start as int, i as int);
                assert(texts(r@) =~= before.push(word));
                assert(before.push(word) + words_from(s@, i as int) =~= before + (seq![word]
                    + words_from(s@, i as int)));
            }
        }
    }
    assert(texts(r@) + words_from(s@, i as int) =~= texts(r@));
    r
}

/// How `Debug` shows a text: in quotes, with what cannot stand there as it is escaped.
pub uninterp spec fn quoted(s: Seq<char>) -> Seq<char>;

/// `<str as Debug>::fmt`: the text in quotes. Which characters are escaped, and how, is left
/// unsaid.
#[verifier::external_body]
pub(crate) fn quote(s: &str) -> (r: String)
    ensures
        r@ == quoted(s@),
{
    format!("{s:?}")
}

/// A list without what stands in it earlier.
pub open spec fn without_repeats(list: Seq<Seq<char>>) -> Seq<Seq<char>>
    decreases list.len(),
{
    if list.len() == 0 {
        Seq::empty()
    } else {
        let front = without_repeats(list.drop_last());
        if front.contains(list.last()) {
            front
        } else {
            front.push(list.last())
        }
    }
}

/// Tells whether a list holds a text.
pub fn holds_text(list: &Vec<String>, text: &str) -> (r: bool)
    ensures
        r == texts(list@).contains(text@),
{
    for i in 0..list.len()
        invariant
            forall|j: int| 0 <= j < i ==> list@[j]@ != text@,
    {
        if same(list[i].as_str(), text) {
            assert(texts(list@)[i as int] == text@);
            return true;
        }
    }
    assert(!texts(list@).contains(text@));
    false
}

/// The path without trailing slashes and trailing `.` components.
pub open spec fn without_trailing_dots(path: Seq<char>) -> Seq<char>
    decreases path.len(),
{
    if path.len() > 0 && path.last() == '/' {
        without_trailing_dots(path.drop_last())
    } else if path.len() > 1 && path.last() == '.' && path[path.len() - 2] == '/' {
        without_trailing_dots(path.drop_last())
    } else {
        path
    }
}

/// The last component of a path, where it is a name.
pub open spec fn file_name(path: Seq<char>) -> Option<Seq<char>> {
    let name = after_last(without_trailing_dots(path), '/');
    if name == seq!['.', '.'] || name == seq!['.'] || name.len() == 0 {
        None
    } else {
        Some(name)
    }
}

/// The last component of a path without its extension. A name that begins with its only dot has
/// none.
pub open spec fn file_stem(path: Seq<char>) -> Option<Seq<char>> {
    match file_name(path) {
        Some(name) => match before_last(name, '.') {
            Some(stem) => if stem.len() > 0 {
                Some(stem)
            } else {
                Some(name)
            },
            None => Some(name),
        },
        None => None,
    }
}

/// Finds where the last component of a path begins and ends, where it is a name.
fn find_name(v: &Vec<char>) -> (r: Option<(usize, usize)>)
    ensures
        match r {
            Some((start, end)) => start < end <= v@.len() && file_name(v@) == Some(
                v@.subrange(start as int, end as int),
            ),
            None => file_name(v@) is None,
        },
{
    let mut end: usize = v.len();
    assert(v@.take(end as int) =~= v@);
    while end > 0 && (v[end - 1] == '/' || end > 1 && v[end - 1] == '.' && v[end - 2] == '/')
        invariant
            end <= v@.len(),
            without_trailing_dots(v@) == without_trailing_dots(v@.take(end as int)),
        decreases end,
    {
        assert(v@.take(end as int).drop_last() =~= v@.take(end - 1));
        end = end - 1;
    }
    let ghost trimmed = v@.take(end as int);
    assert(without_trailing_dots(v@) == trimmed);

    let mut start: usize = end;
    while start > 0 && v[start - 1] != '/'
        invariant
            start <= end <= v@.len(),
            trimmed == v@.take(end as int),
            after_last(trimmed, '/') == after_last(v@.take(start as int), '/') + v@.subrange(
                start as int,
                end as int,
            ),
        decreases start,
    {
        proof {
            let shorter = v@.take(start - 1);
            assert(v@.take(start as int).drop_last() =~= shorter);
            assert(after_last(shorter, '/').push(v@[start - 1]) + v@.subrange(
                start as int,
                end as int,
            ) =~= after_last(shorter, '/') + v@.subrange(start - 1, end as int));
        }
        start = start - 1;
    }
    let ghost name = v@.subrange(start as int, end as int);
    assert(after_last(trimmed, '/') =~= name);

    let len: usize = end - start;
    if len == 0 || len == 1 && v[start] == '.' || len == 2 && v[start] == '.' && v[start + 1]
        == '.' {
        proof {
            if len == 1 {
                assert(name =~= seq!['.']);
            }
            if len == 2 {
                assert(name =~= seq!['.', '.']);
            }
        }
        return None;
    }
    proof {
        assert(name[0] == v@[start as int]);
        assert(len > 1 ==> name[1] == v@[start + 1]);
        assert(seq!['.'].len() == 1 && seq!['.'][0] == '.');
        assert(seq!['.', '.'].len() == 2 && seq!['.', '.'][0] == '.' && seq!['.', '.'][1] == '.');
    }
    Some((start, end))
}

/// The last component of a path, where it is a name.
pub fn name_of(path: &str) -> (r: Option<String>)
    ensures
        match r {
            Some(name) => file_name(path@) == Some(name@),
            None => file_name(path@) is None,
        },
{
    let v = chars_of(path);
    match find_name(&v) {
        Some((start, end)) => Some(text_between(&v, start, end)),
        None => None,
    }
}

/// The last component of a path without its extension.
pub fn stem_of(path: &str) -> (r: Option<String>)
    ensures
        match r {
            Some(stem) => file_stem(path@) == Some(stem@),
            None => file_stem(path@) is None,
        },
{
    let v = chars_of(path);
    let (start, end): (usize, usize) = match find_name(&v) {
        Some(found) => found,
        None => {
            return None;
        },
    };
    let ghost name = v@.subrange(start as int, end as int);
    let mut dot: usize = end;
    assert(v@.subrange(start as int, dot as int) =~= name);
    while dot > start && v[dot - 1] != '.'
        invariant
            start <= dot <= end <= v@.len(),
            name == v@.subrange(start as int, end as int),
            before_last(name, '.') == before_last(v@.subrange(start as int, dot as int), '.'),
        decreases dot,
    {
        assert(v@.subrange(start as int, dot as int).drop_last() =~= v@.subrange(
            start as int,
            dot - 1,
        ));
        dot = dot - 1;
    }
    assert(dot > start ==> v@.subrange(start as int, dot as int).drop_last() =~= v@.subrange(
        start as int,
        dot - 1,
    ));
    if dot > start && dot - 1 > start {
        Some(text_between(&v, start, dot - 1))
    } else {
        Some(text_between(&v, start, end))
    }
}

} // verus!
