//! What texts are taken apart into and put together from.
use crate::text::{
    after_first, after_last, before_last, decimal, digits_value, file_name, file_stem, first_line,
    hexadecimal, is_white_space, joined, line_count, number_value, occurs_in, octal, padded,
    path_below, position_from, repeated, replaced, stands_at, text_le, trimmed, trimmed_end,
    trimmed_start, without_repeats, without_trailing_dots, word_end, words, words_from,
};
use vstd::prelude::*;

verus! {

proof fn lemma_start(s: Seq<char>) -> (i: int)
    ensures
        0 <= i <= s.len(),
        trimmed_start(s) == s.subrange(i, s.len() as int),
        forall|k: int| 0 <= k < i ==> is_white_space(#[trigger] s[k]),
        i < s.len() ==> !is_white_space(s[i]),
    decreases s.len(),
{
    if s.len() > 0 && is_white_space(s[0]) {
        let rest = s.drop_first();
        let i = lemma_start(rest);
        assert forall|k: int| 0 <= k < i + 1 implies is_white_space(#[trigger] s[k]) by {
            if k > 0 {
                assert(rest[k - 1] == s[k]);
            }
        }
        assert(rest.subrange(i, rest.len() as int) =~= s.subrange(i + 1, s.len() as int));
        i + 1
    } else {
        assert(s.subrange(0, s.len() as int) =~= s);
        0
    }
}

proof fn lemma_end(s: Seq<char>) -> (j: int)
    ensures
        0 <= j <= s.len(),
        trimmed_end(s) == s.subrange(0, j),
        forall|k: int| j <= k < s.len() ==> is_white_space(#[trigger] s[k]),
        j > 0 ==> !is_white_space(s[j - 1]),
    decreases s.len(),
{
    if s.len() > 0 && is_white_space(s.last()) {
        let rest = s.drop_last();
        let j = lemma_end(rest);
        assert forall|k: int| j <= k < s.len() implies is_white_space(#[trigger] s[k]) by {
            if k < rest.len() {
                assert(rest[k] == s[k]);
            }
        }
        assert(rest.subrange(0, j) =~= s.subrange(0, j));
        j
    } else {
        assert(s.subrange(0, s.len() as int) =~= s);
        s.len() as int
    }
}

/// Trimming takes white space off both ends, all of it, and nothing else.
pub proof fn trimming_takes_off_white_space(s: Seq<char>)
    ensures
        exists|i: int, j: int|
            #![trigger s.subrange(i, j)]
            0 <= i <= j <= s.len() && trimmed(s) == s.subrange(i, j) && (forall|k: int|
                0 <= k < i || j <= k < s.len() ==> is_white_space(#[trigger] s[k])) && (i < j
                ==> !is_white_space(s[i]) && !is_white_space(s[j - 1])),
{
    let i = lemma_start(s);
    let rest = s.subrange(i, s.len() as int);
    let j = lemma_end(rest);
    assert(rest.subrange(0, j) =~= s.subrange(i, i + j));
    assert forall|k: int| 0 <= k < i || i + j <= k < s.len() implies is_white_space(
        #[trigger] s[k],
    ) by {
        if k >= i + j {
            assert(rest[k - i] == s[k]);
        }
    }
    if j > 0 {
        assert(rest[j - 1] == s[i + j - 1]);
    }
}

/// What has no white space at its ends stays as it is.
pub proof fn trimmed_texts_stay(s: Seq<char>)
    requires
        s.len() == 0 || !is_white_space(s[0]) && !is_white_space(s.last()),
    ensures
        trimmed(s) == s,
{
}

/// Joining puts the separator between each two parts, and nowhere else.
pub proof fn parts_are_joined_in_order(a: Seq<Seq<char>>, b: Seq<Seq<char>>, sep: Seq<char>)
    ensures
        joined(Seq::empty(), sep) == Seq::<char>::empty(),
        a.len() == 1 ==> joined(a, sep) == a[0],
        a.len() > 0 && b.len() > 0 ==> joined(a + b, sep) == joined(a, sep) + sep + joined(b, sep),
    decreases b.len(),
{
    if a.len() > 0 && b.len() > 0 {
        let both = a + b;
        assert(both.drop_last() =~= a + b.drop_last());
        assert(both.last() == b.last());
        if b.len() == 1 {
            assert(both.drop_last() =~= a);
        } else {
            parts_are_joined_in_order(a, b.drop_last(), sep);
            let front = joined(b.drop_last(), sep);
            assert(joined(a, sep) + sep + front + sep + b.last() =~= joined(a, sep) + sep + (front
                + sep + b.last()));
        }
    }
}

proof fn lemma_decimal_value(n: nat)
    ensures
        digits_value(decimal(n), 10) == Some(n),
        decimal(n).len() > 0,
        '0' <= decimal(n)[0] <= '9',
        decimal(n)[0] == '0' ==> n == 0,
    decreases n,
{
    if n < 10 {
        assert(decimal(n).drop_last() =~= Seq::empty());
        reveal_with_fuel(digits_value, 2);
    } else {
        lemma_decimal_value(n / 10);
        assert(decimal(n).drop_last() =~= decimal(n / 10));
        assert(n / 10 > 0);
    }
}

proof fn lemma_octal_value(n: nat)
    ensures
        digits_value(octal(n), 8) == Some(n),
        octal(n).len() > 0,
        '0' <= octal(n)[0] <= '7',
        octal(n)[0] == '0' ==> n == 0,
    decreases n,
{
    if n < 8 {
        assert(octal(n).drop_last() =~= Seq::empty());
        reveal_with_fuel(digits_value, 2);
    } else {
        lemma_octal_value(n / 8);
        assert(octal(n).drop_last() =~= octal(n / 8));
        assert(n / 8 > 0);
    }
}

/// A number that is written is read back, and is written without leading zeros.
pub proof fn numbers_are_read_back(n: nat)
    ensures
        number_value(decimal(n), 10) == Some(n),
        number_value(octal(n), 8) == Some(n),
        n > 0 ==> decimal(n)[0] != '0' && octal(n)[0] != '0',
{
    lemma_decimal_value(n);
    lemma_octal_value(n);
}

/// A number in hexadecimal grows by the digit that its last sixteenth is.
pub proof fn hexadecimal_grows_by_digits(n: nat, digit: nat)
    requires
        digit < 16,
    ensures
        hexadecimal(digit) == seq!["0123456789abcdef"@[digit as int]],
        n > 0 ==> hexadecimal(16 * n + digit) == hexadecimal(n).push(
            "0123456789abcdef"@[digit as int],
        ),
{
    reveal_strlit("0123456789abcdef");
    assert((16 * n + digit) / 16 == n);
    assert((16 * n + digit) % 16 == digit);
}

/// Replacing goes through a text character by character.
pub proof fn texts_are_replaced_in_place(a: Seq<char>, b: Seq<char>, c: char, by: Seq<char>)
    ensures
        replaced(a + b, c, by) == replaced(a, c, by) + replaced(b, c, by),
        a.len() == 0 ==> replaced(a, c, by).len() == 0,
        a.len() == 1 ==> replaced(a, c, by) == if a[0] == c {
            by
        } else {
            a
        },
    decreases b.len(),
{
    reveal_with_fuel(replaced, 2);
    if a.len() == 1 {
        assert(a.drop_last() =~= Seq::empty());
        assert(seq![a[0]] =~= a);
        assert(Seq::<char>::empty() + by =~= by);
    }
    if b.len() == 0 {
        assert(a + b =~= a);
        assert(replaced(a, c, by) + replaced(b, c, by) =~= replaced(a, c, by));
    } else {
        texts_are_replaced_in_place(a, b.drop_last(), c, by);
        assert((a + b).drop_last() =~= a + b.drop_last());
        let tail = if b.last() == c {
            by
        } else {
            seq![b.last()]
        };
        assert(replaced(a, c, by) + replaced(b.drop_last(), c, by) + tail =~= replaced(a, c, by) + (
        replaced(b.drop_last(), c, by) + tail));
    }
}

/// What follows the last of a character holds no more of them, and stands behind it.
pub proof fn texts_are_cut_at_the_last(s: Seq<char>, c: char)
    ensures
        !after_last(s, c).contains(c),
        match before_last(s, c) {
            Some(before) => s == before.push(c) + after_last(s, c),
            None => !s.contains(c) && after_last(s, c) == s,
        },
    decreases s.len(),
{
    if s.len() > 0 && s.last() != c {
        texts_are_cut_at_the_last(s.drop_last(), c);
        let after = after_last(s.drop_last(), c);
        assert(s =~= s.drop_last().push(s.last()));
        assert forall|k: int| 0 <= k < after.push(s.last()).len() implies after.push(s.last())[k]
            != c by {
            if k < after.len() {
                assert(after[k] != c) by {
                    assert(after.contains(after[k]));
                }
            }
        }
        match before_last(s, c) {
            Some(before) => {
                assert(s =~= before.push(c) + after.push(s.last()));
            },
            None => {
                assert forall|k: int| 0 <= k < s.len() implies s[k] != c by {
                    if k < s.len() - 1 {
                        assert(s.drop_last()[k] == s[k]);
                        assert(s.drop_last().contains(s[k]));
                    }
                }
            },
        }
    } else if s.len() > 0 {
        assert(s =~= s.drop_last().push(c) + Seq::<char>::empty());
    }
}

proof fn lemma_position(s: Seq<char>, c: char, from: int)
    requires
        0 <= from <= s.len(),
    ensures
        from <= position_from(s, c, from) <= s.len(),
        forall|k: int| from <= k < position_from(s, c, from) ==> s[k] != c,
        position_from(s, c, from) < s.len() ==> s[position_from(s, c, from)] == c,
    decreases s.len() - from,
{
    if from < s.len() && s[from] != c {
        lemma_position(s, c, from + 1);
    }
}

/// What follows the first of a character stands behind it, and before it stands none.
pub proof fn texts_are_cut_at_the_first(before: Seq<char>, c: char, after: Seq<char>)
    requires
        !before.contains(c),
    ensures
        after_first(before.push(c) + after, c) == after,
        after_first(before, c) == before,
{
    let s = before.push(c) + after;
    lemma_position(s, c, 0);
    lemma_position(before, c, 0);
    let i = position_from(s, c, 0);
    assert(s[before.len() as int] == c);
    if i < before.len() {
        assert(before[i] == s[i]);
        assert(before.contains(s[i]));
    }
    assert(s.skip(i + 1) =~= after);
    let j = position_from(before, c, 0);
    if j < before.len() {
        assert(before.contains(before[j]));
    }
}

/// A path below a directory is that directory, one slash and the path, unless the path stands for
/// itself.
pub proof fn paths_lie_below_directories(dir: Seq<char>, path: Seq<char>)
    requires
        path.len() == 0 || path[0] != '/',
        dir.len() > 0,
        dir.last() != '/',
    ensures
        path_below(dir, path) == dir.push('/') + path,
        path_below(dir.push('/'), path) == dir.push('/') + path,
        path_below(dir, seq!['/'] + path) == seq!['/'] + path,
        path_below(Seq::empty(), path) == path,
{
    reveal_strlit("/");
    assert("/"@ =~= seq!['/']);
    assert(dir + "/"@ =~= dir.push('/'));
    assert(Seq::<char>::empty() + path =~= path);
}

/// In the order of texts the first difference decides, and a beginning comes first.
pub proof fn the_first_difference_decides(
    start: Seq<char>,
    low: char,
    high: char,
    a: Seq<char>,
    b: Seq<char>,
)
    requires
        low < high,
    ensures
        text_le(start.push(low) + a, start.push(high) + b),
        !text_le(start.push(high) + b, start.push(low) + a),
        text_le(start, start + a),
        a.len() > 0 ==> !text_le(start + a, start),
    decreases start.len(),
{
    let x = start.push(low) + a;
    let y = start.push(high) + b;
    if start.len() > 0 {
        let rest = start.skip(1);
        the_first_difference_decides(rest, low, high, a, b);
        assert(x.skip(1) =~= rest.push(low) + a);
        assert(y.skip(1) =~= rest.push(high) + b);
        assert((start + a).skip(1) =~= rest + a);
    }
}

/// A padded text is the text and then spaces, up to its width and never beyond.
pub proof fn padding_is_spaces(s: Seq<char>, width: nat)
    ensures
        s.is_prefix_of(padded(s, width)),
        padded(s, width).len() == if s.len() < width {
            width
        } else {
            s.len()
        },
        forall|k: int| s.len() <= k < padded(s, width).len() ==> padded(s, width)[k] == ' ',
{
}

proof fn lemma_lines_add(a: Seq<char>, b: Seq<char>)
    ensures
        line_count(a.push('\n') + b) == line_count(a.push('\n')) + line_count(b),
    decreases b.len(),
{
    let first = a.push('\n');
    let both = first + b;
    if b.len() == 0 {
        assert(both =~= first);
    } else {
        lemma_lines_add(a, b.drop_last());
        assert(both.drop_last() =~= first + b.drop_last());
        if b.len() == 1 {
            assert(both.drop_last() =~= first);
            assert(both[both.len() - 2] == '\n');
        } else {
            assert(both[both.len() - 2] == b[b.len() - 2]);
        }
    }
}

proof fn lemma_one_line(a: Seq<char>)
    requires
        a.len() > 0,
        !a.drop_last().contains('\n'),
    ensures
        line_count(a) == 1,
    decreases a.len(),
{
    if a.len() > 1 {
        let front = a.drop_last();
        assert forall|k: int| 0 <= k < front.drop_last().len() implies front.drop_last()[k]
            != '\n' by {
            assert(front.contains(front[k]));
        }
        lemma_one_line(front);
        assert(front.contains(front[a.len() - 2]));
    }
}

/// Every line ending ends a line, and what follows the last is a line where there is any.
pub proof fn lines_are_counted(line: Seq<char>, rest: Seq<char>)
    requires
        !line.contains('\n'),
    ensures
        line_count(line.push('\n') + rest) == 1 + line_count(rest),
        line_count(line) == if line.len() > 0 {
            1nat
        } else {
            0
        },
{
    lemma_lines_add(line, rest);
    assert(line.push('\n').drop_last() =~= line);
    lemma_one_line(line.push('\n'));
    if line.len() > 0 {
        assert forall|k: int| 0 <= k < line.drop_last().len() implies line.drop_last()[k]
            != '\n' by {
            assert(line.contains(line[k]));
        }
        lemma_one_line(line);
    }
}

/// The first line of a text is what stands before the first line ending.
pub proof fn first_lines_end_at_line_endings(line: Seq<char>, rest: Seq<char>)
    requires
        !line.contains('\n'),
        line.len() == 0 || line.last() != '\r',
    ensures
        first_line(line.push('\n') + rest) == Some(line),
        first_line(line.push('\r').push('\n') + rest) == Some(line),
        line.len() > 0 ==> first_line(line) == Some(line),
        first_line(Seq::empty()) is None,
{
    let s = line.push('\n') + rest;
    let t = line.push('\r').push('\n') + rest;
    lemma_position(s, '\n', 0);
    lemma_position(t, '\n', 0);
    lemma_position(line, '\n', 0);
    let i = position_from(s, '\n', 0);
    assert(s[line.len() as int] == '\n');
    if i < line.len() {
        assert(line.contains(line[i]));
    }
    assert(s.take(line.len() as int) =~= line);
    let j = position_from(t, '\n', 0);
    assert(t[line.len() as int + 1] == '\n');
    if j < line.len() {
        assert(line.contains(line[j]));
    }
    assert(t.take(line.len() as int) =~= line);
    let k = position_from(line, '\n', 0);
    if k < line.len() {
        assert(line.contains(line[k]));
    }
    assert(line.take(line.len() as int) =~= line);
}

proof fn lemma_word_end(s: Seq<char>, from: int)
    requires
        0 <= from <= s.len(),
    ensures
        from <= word_end(s, from) <= s.len(),
        forall|k: int| from <= k < word_end(s, from) ==> !is_white_space(s[k]),
        word_end(s, from) < s.len() ==> is_white_space(s[word_end(s, from)]),
    decreases s.len() - from,
{
    if from < s.len() && !is_white_space(s[from]) {
        lemma_word_end(s, from + 1);
    }
}

proof fn lemma_words_in_front(a: Seq<char>, w: char, b: Seq<char>, from: int)
    requires
        is_white_space(w),
        0 <= from <= a.len(),
    ensures
        words_from(a.push(w) + b, from) == words_from(a, from) + words_from(
            a.push(w) + b,
            a.len() as int,
        ),
    decreases a.len() - from,
{
    let s = a.push(w) + b;
    if from == a.len() {
        assert(words_from(a, from) + words_from(s, from) =~= words_from(s, from));
    } else if is_white_space(a[from]) {
        assert(s[from] == a[from]);
        lemma_words_in_front(a, w, b, from + 1);
    } else {
        lemma_word_end(s, from);
        lemma_word_end(a, from);
        assert(s[from] == a[from]);
        let end = word_end(a, from);
        assert(s[a.len() as int] == w);
        assert(word_end(s, from) == end) by {
            if word_end(s, from) < end {
                assert(a[word_end(s, from)] == s[word_end(s, from)]);
            }
            if word_end(s, from) > end {
                if end < a.len() {
                    assert(a[end] == s[end]);
                }
            }
        }
        assert(end > from);
        lemma_words_in_front(a, w, b, end);
        assert(s.subrange(from, end) =~= a.subrange(from, end));
        let word = seq![a.subrange(from, end)];
        assert(word + (words_from(a, end) + words_from(s, a.len() as int)) =~= word + words_from(
            a,
            end,
        ) + words_from(s, a.len() as int));
    }
}

proof fn lemma_words_behind(front: Seq<char>, b: Seq<char>, from: int)
    requires
        0 <= from <= b.len(),
    ensures
        words_from(front + b, front.len() + from) == words_from(b, from),
    decreases b.len() - from,
{
    let s = front + b;
    let at = front.len() + from;
    if from < b.len() {
        assert(s[at] == b[from]);
        if is_white_space(b[from]) {
            lemma_words_behind(front, b, from + 1);
        } else {
            lemma_word_end(s, at);
            lemma_word_end(b, from);
            let end = word_end(b, from);
            assert(word_end(s, at) == front.len() + end) by {
                let found = word_end(s, at);
                if found < front.len() + end {
                    assert(s[found] == b[found - front.len()]);
                }
                if found > front.len() + end {
                    assert(s[front.len() + end] == b[end]);
                }
            }
            assert(end > from);
            lemma_words_behind(front, b, end);
            assert(s.subrange(at, front.len() + end) =~= b.subrange(from, end));
        }
    }
}

/// White space parts words, and nothing else does.
pub proof fn words_stand_between_white_space(a: Seq<char>, w: char, b: Seq<char>)
    requires
        is_white_space(w),
    ensures
        words(a.push(w) + b) == words(a) + words(b),
        (forall|k: int| 0 <= k < a.len() ==> !is_white_space(#[trigger] a[k])) ==> words(a)
            == if a.len() == 0 {
            Seq::empty()
        } else {
            seq![a]
        },
{
    let s = a.push(w) + b;
    lemma_words_in_front(a, w, b, 0);
    assert(s[a.len() as int] == w);
    assert(words_from(s, a.len() as int) == words_from(s, a.len() as int + 1));
    lemma_words_behind(a.push(w), b, 0);
    if a.len() > 0 && forall|k: int| 0 <= k < a.len() ==> !is_white_space(#[trigger] a[k]) {
        lemma_word_end(a, 0);
        assert(word_end(a, 0) == a.len());
        assert(a.subrange(0, a.len() as int) =~= a);
        assert(words_from(a, a.len() as int) =~= Seq::empty());
        assert(seq![a] + Seq::<Seq<char>>::empty() =~= seq![a]);
    }
}

/// A list without repeats holds what the list holds, once, in the order in which it first stands
/// there.
pub proof fn repeats_are_left_out(list: Seq<Seq<char>>, next: Seq<char>)
    ensures
        without_repeats(list).no_duplicates(),
        forall|text: Seq<char>| #[trigger]
            without_repeats(list).contains(text) <==> list.contains(text),
        without_repeats(list.push(next)) == if list.contains(next) {
            without_repeats(list)
        } else {
            without_repeats(list).push(next)
        },
    decreases list.len(),
{
    assert(list.push(next).drop_last() =~= list);
    if list.len() > 0 {
        let front = list.drop_last();
        repeats_are_left_out(front, list.last());
        assert(front.push(list.last()) =~= list);
        let kept = without_repeats(front);
        let grown = kept.push(list.last());
        assert forall|text: Seq<char>| #[trigger]
            without_repeats(list).contains(text) <==> list.contains(text) by {
            assert(grown.contains(text) <==> kept.contains(text) || text == list.last()) by {
                assert(grown[kept.len() as int] == list.last());
                if kept.contains(text) {
                    let k = kept.index_of(text);
                    assert(grown[k] == text);
                }
            }
            assert(list.contains(text) <==> front.contains(text) || text == list.last()) by {
                assert(list[front.len() as int] == list.last());
                if front.contains(text) {
                    let k = front.index_of(text);
                    assert(list[k] == text);
                }
            }
        }
    }
}

/// The name of a file is what follows the last slash, whatever slashes follow the name itself.
pub proof fn files_are_named_by_their_last_component(dir: Seq<char>, name: Seq<char>)
    requires
        !name.contains('/'),
        name.len() > 0,
        name != seq!['.'],
        name != seq!['.', '.'],
    ensures
        file_name(dir.push('/') + name) == Some(name),
        file_name(name) == Some(name),
        file_name((dir.push('/') + name).push('/')) == Some(name),
{
    let path = dir.push('/') + name;
    lemma_no_dots(dir, name);
    lemma_after_slash(dir, name);
    texts_are_cut_at_the_last(name, '/');
    assert(!(before_last(name, '/') is Some)) by {
        if let Some(before) = before_last(name, '/') {
            let cut = before.push('/') + after_last(name, '/');
            assert(cut[before.len() as int] == '/');
            assert(name.contains('/'));
        }
    }
    assert(without_trailing_dots(name) == name) by {
        assert(name.contains(name.last()));
        if name.len() > 1 {
            assert(name.contains(name[name.len() - 2]));
        }
    }
    assert(path.push('/').drop_last() =~= path);
}

proof fn lemma_no_dots(dir: Seq<char>, name: Seq<char>)
    requires
        !name.contains('/'),
        name.len() > 0,
        name != seq!['.'],
    ensures
        without_trailing_dots(dir.push('/') + name) == dir.push('/') + name,
{
    let path = dir.push('/') + name;
    assert(path.last() == name.last());
    assert(name.contains(name.last()));
    if name.len() > 1 {
        assert(path[path.len() - 2] == name[name.len() - 2]);
        assert(name.contains(name[name.len() - 2]));
    } else if name.last() == '.' {
        assert(name =~= seq!['.']);
    }
}

proof fn lemma_after_slash(dir: Seq<char>, name: Seq<char>)
    requires
        !name.contains('/'),
    ensures
        after_last(dir.push('/') + name, '/') == name,
    decreases name.len(),
{
    let path = dir.push('/') + name;
    if name.len() == 0 {
        assert(path.last() == '/');
        assert(after_last(path, '/') =~= name);
    } else {
        assert(name.contains(name.last()));
        assert forall|k: int| 0 <= k < name.drop_last().len() implies name.drop_last()[k]
            != '/' by {
            assert(name.contains(name[k]));
        }
        lemma_after_slash(dir, name.drop_last());
        assert(path.drop_last() =~= dir.push('/') + name.drop_last());
        assert(name.drop_last().push(name.last()) =~= name);
    }
}

proof fn lemma_before_dot(stem: Seq<char>, extension: Seq<char>)
    requires
        !extension.contains('.'),
    ensures
        before_last(stem.push('.') + extension, '.') == Some(stem),
    decreases extension.len(),
{
    let name = stem.push('.') + extension;
    if extension.len() == 0 {
        assert(name.last() == '.');
        assert(name.drop_last() =~= stem);
    } else {
        assert(extension.contains(extension.last()));
        assert forall|k: int|
            0 <= k < extension.drop_last().len() implies extension.drop_last()[k] != '.' by {
            assert(extension.contains(extension[k]));
        }
        lemma_before_dot(stem, extension.drop_last());
        assert(name.drop_last() =~= stem.push('.') + extension.drop_last());
    }
}

/// The stem of a file is its name up to the last dot, unless that is where the name begins.
pub proof fn stems_end_at_the_last_dot(dir: Seq<char>, stem: Seq<char>, extension: Seq<char>)
    requires
        !stem.contains('/'),
        !extension.contains('/'),
        !extension.contains('.'),
        extension.len() > 0,
    ensures
        file_stem(dir.push('/') + (stem.push('.') + extension)) == Some(
            if stem.len() > 0 {
                stem
            } else {
                stem.push('.') + extension
            },
        ),
        file_stem(dir.push('/') + extension) == Some(extension),
{
    let name = stem.push('.') + extension;
    assert forall|k: int| 0 <= k < name.len() implies name[k] != '/' by {
        if k < stem.len() {
            assert(stem.contains(stem[k]));
        } else if k > stem.len() {
            assert(extension.contains(extension[k - stem.len() - 1]));
        }
    }
    assert(extension.contains(extension.last()));
    assert(name.last() == extension.last());
    assert(extension.last() != '.');
    files_are_named_by_their_last_component(dir, name);
    files_are_named_by_their_last_component(dir, extension);
    lemma_before_dot(stem, extension);
    texts_are_cut_at_the_last(extension, '.');
    if let Some(before) = before_last(extension, '.') {
        let cut = before.push('.') + after_last(extension, '.');
        assert(cut[before.len() as int] == '.');
        assert(extension.contains('.'));
    }
}

/// A text is found in another if and only if it stands between two parts of it.
pub proof fn texts_are_found_inside(s: Seq<char>, needle: Seq<char>)
    ensures
        occurs_in(s, needle) <==> exists|before: Seq<char>, after: Seq<char>|
            s == #[trigger] (before + needle + after),
{
    if occurs_in(s, needle) {
        let i = choose|i: int| #[trigger] stands_at(s, needle, i);
        let before = s.take(i);
        let after = s.skip(i + needle.len());
        assert forall|k: int| 0 <= k < needle.len() implies needle[k] == s[i + k] by {
            assert(s.subrange(i, i + needle.len())[k] == s[i + k]);
        }
        assert(s =~= before + needle + after);
    }
    if exists|before: Seq<char>, after: Seq<char>| s == #[trigger] (before + needle + after) {
        let (before, after) = choose|before: Seq<char>, after: Seq<char>|
            s == #[trigger] (before + needle + after);
        let i = before.len() as int;
        assert(s.subrange(i, i + needle.len()) =~= needle);
        assert(stands_at(s, needle, i));
    }
}

/// A character is repeated as often as is said.
pub proof fn characters_are_repeated(c: char, count: nat)
    ensures
        repeated(c, 0).len() == 0,
        repeated(c, count + 1) == repeated(c, count).push(c),
{
    assert(repeated(c, count + 1) =~= repeated(c, count).push(c));
}

} // verus!
