//! The words that come from outside: the name the program was called
//! by, its first argument, the option string and the configured rate.

use crate::transfer::{TransferRate, DEFAULT_RATE};
use vstd::prelude::*;

verus! {

/// The index behind the last `/` of `name`; 0 where it has none.
pub open spec fn cut_point(name: Seq<char>) -> int
    decreases name.len(),
{
    if name.len() == 0 {
        0
    } else if name.last() == '/' {
        name.len() as int
    } else {
        cut_point(name.drop_last())
    }
}

/// The cut point lies in the name, follows a `/` unless it is the
/// start, and no `/` comes after it.
pub proof fn lemma_cut_point(name: Seq<char>)
    ensures
        0 <= cut_point(name) <= name.len(),
        cut_point(name) > 0 ==> name[cut_point(name) - 1] == '/',
        forall|i: int| cut_point(name) <= i < name.len() ==> name[i] != '/',
    decreases name.len(),
{
    if name.len() > 0 && name.last() != '/' {
        let head = name.drop_last();
        lemma_cut_point(head);
        assert forall|i: int| cut_point(name) <= i < name.len() implies name[i] != '/' by {
            if i < head.len() {
                assert(head[i] == name[i]);
            }
        }
    }
}

/// The name of a program without the directories that lead to it: what
/// follows the last `/` of `invoked`, or all of it where it has none.
pub fn trim_arg0(invoked: &str) -> (base: &str)
    ensures
        base@ == invoked@.skip(cut_point(invoked@)),
{
    let len: usize = invoked.unicode_len();
    let mut start: usize = len;
    proof {
        assert(invoked@.take(len as int) =~= invoked@);
    }
    while start > 0 && invoked.get_char(start - 1) != '/'
        invariant
            start <= len,
            len == invoked@.len(),
            cut_point(invoked@) == cut_point(invoked@.take(start as int)),
        decreases start,
    {
        proof {
            let head = invoked@.take(start as int);
            assert(head.last() == invoked@[start - 1]);
            assert(head.drop_last() =~= invoked@.take(start - 1));
        }
        start = start - 1;
    }
    proof {
        let head = invoked@.take(start as int);
        if start > 0 {
            assert(head.last() == invoked@[start - 1]);
        }
        assert(cut_point(head) == start);
        assert(invoked@.subrange(start as int, len as int) =~= invoked@.skip(start as int));
    }
    invoked.substring_char(start, len)
}

/// `words` with `c` put before its first word.
pub open spec fn extend_first(c: char, words: Seq<Seq<char>>) -> Seq<Seq<char>> {
    words.update(0, seq![c] + words[0])
}

/// The words of an option string. A space ends a word. A backslash
/// before a space or before another backslash makes the character that
/// follows it part of the word; any other backslash stands for itself.
/// There is always a word, and a word may be empty: the empty string is
/// one empty word, and two spaces in a row have an empty word between
/// them.
pub open spec fn split_options(text: Seq<char>) -> Seq<Seq<char>>
    decreases text.len(),
{
    if text.len() == 0 {
        seq![Seq::<char>::empty()]
    } else if text[0] == ' ' {
        seq![Seq::<char>::empty()] + split_options(text.skip(1))
    } else if text[0] == '\\' && text.len() >= 2 && (text[1] == '\\' || text[1] == ' ') {
        extend_first(text[1], split_options(text.skip(2)))
    } else {
        extend_first(text[0], split_options(text.skip(1)))
    }
}

/// An option string without a space or a backslash is one word, itself.
pub proof fn lemma_plain_word(text: Seq<char>)
    requires
        forall|i: int| 0 <= i < text.len() ==> text[i] != ' ' && text[i] != '\\',
    ensures
        split_options(text) == seq![text],
    decreases text.len(),
{
    if text.len() == 0 {
        assert(text =~= Seq::<char>::empty());
    } else {
        let tail = text.skip(1);
        assert forall|i: int| 0 <= i < tail.len() implies tail[i] != ' ' && tail[i] != '\\' by {
            assert(tail[i] == text[i + 1]);
        }
        lemma_plain_word(tail);
        assert(seq![text[0]] + tail =~= text);
        assert(extend_first(text[0], seq![tail]) =~= seq![text]);
    }
}

/// An option string has at least one word.
pub proof fn lemma_split_nonempty(text: Seq<char>)
    ensures
        split_options(text).len() >= 1,
    decreases text.len(),
{
    if text.len() == 0 {
    } else if text[0] == ' ' {
        lemma_split_nonempty(text.skip(1));
    } else if text[0] == '\\' && text.len() >= 2 && (text[1] == '\\' || text[1] == ' ') {
        lemma_split_nonempty(text.skip(2));
    } else {
        lemma_split_nonempty(text.skip(1));
    }
}

/// A word as it is written in an option string: with a backslash
/// before each of its spaces and each of its backslashes.
pub open spec fn escape_word(word: Seq<char>) -> Seq<char>
    decreases word.len(),
{
    if word.len() == 0 {
        Seq::empty()
    } else if word[0] == ' ' || word[0] == '\\' {
        seq!['\\', word[0]] + escape_word(word.skip(1))
    } else {
        seq![word[0]] + escape_word(word.skip(1))
    }
}

/// Words as an option string: each as it is written, and a space
/// between one and the next.
pub open spec fn write_options(words: Seq<Seq<char>>) -> Seq<char>
    decreases words.len(),
{
    if words.len() == 0 {
        Seq::empty()
    } else if words.len() == 1 {
        escape_word(words[0])
    } else {
        escape_word(words[0]) + seq![' '] + write_options(words.skip(1))
    }
}

/// A written word reads back as itself, before whatever follows it.
proof fn lemma_written_word_reads_back(word: Seq<char>, rest: Seq<char>)
    ensures
        split_options(escape_word(word) + rest) == split_options(rest).update(
            0,
            word + split_options(rest)[0],
        ),
    decreases word.len(),
{
    let read = split_options(rest);
    lemma_split_nonempty(rest);
    if word.len() == 0 {
        assert(escape_word(word) + rest =~= rest);
        assert(word + read[0] =~= read[0]);
        assert(read.update(0, word + read[0]) =~= read);
    } else {
        let tail = word.skip(1);
        let text = escape_word(word) + rest;
        let after = escape_word(tail) + rest;
        lemma_written_word_reads_back(tail, rest);
        if word[0] == ' ' || word[0] == '\\' {
            assert(text[0] == '\\' && text[1] == word[0]);
            assert(text.skip(2) =~= after);
        } else {
            assert(text[0] == word[0]);
            assert(text.skip(1) =~= after);
        }
        assert(split_options(text) == extend_first(word[0], split_options(after)));
        assert(seq![word[0]] + (tail + read[0]) =~= word + read[0]);
        assert(extend_first(word[0], read.update(0, tail + read[0])) =~= read.update(
            0,
            word + read[0],
        ));
    }
}

/// Every list of arguments can be written as an option string: words
/// that are written as one are read back as they were, whatever
/// characters they hold.
pub proof fn theorem_written_options_read_back(words: Seq<Seq<char>>)
    requires
        words.len() >= 1,
    ensures
        split_options(write_options(words)) == words,
    decreases words.len(),
{
    let empty = Seq::<char>::empty();
    if words.len() == 1 {
        lemma_written_word_reads_back(words[0], empty);
        assert(escape_word(words[0]) + empty =~= escape_word(words[0]));
        assert(words[0] + empty =~= words[0]);
        assert(seq![empty].update(0, words[0]) =~= words);
    } else {
        let tail = words.skip(1);
        let rest = seq![' '] + write_options(tail);
        theorem_written_options_read_back(tail);
        lemma_written_word_reads_back(words[0], rest);
        assert(rest.skip(1) =~= write_options(tail));
        assert(split_options(rest) == seq![empty] + tail);
        assert(write_options(words) =~= escape_word(words[0]) + rest);
        assert(words[0] + empty =~= words[0]);
        assert((seq![empty] + tail).update(0, words[0]) =~= words);
    }
}

/// The texts of `words`.
pub open spec fn texts(words: Seq<String>) -> Seq<Seq<char>> {
    Seq::new(words.len(), |i: int| words[i]@)
}

/// The words that are complete, the word at hand, and the words of what
/// is still to be read, put together.
spec fn joined(done: Seq<Seq<char>>, word: Seq<char>, rest: Seq<Seq<char>>) -> Seq<Seq<char>> {
    done + seq![word + rest[0]] + rest.skip(1)
}

/// Splits an option string into its words.
pub fn split_option_string(text: &str) -> (words: Vec<String>)
    ensures
        texts(words@) == split_options(text@),
{
    let len: usize = text.unicode_len();
    let mut words: Vec<String> = Vec::new();
    let mut word: String = String::new();
    let mut at: usize = 0;
    proof {
        lemma_split_nonempty(text@);
        assert(text@.skip(0) =~= text@);
        assert(joined(texts(words@), word@, split_options(text@)) =~= split_options(text@));
    }
    while at < len
        invariant
            at <= len,
            len == text@.len(),
            split_options(text@) == joined(
                texts(words@),
                word@,
                split_options(text@.skip(at as int)),
            ),
        decreases len - at,
    {
        let ghost before = texts(words@);
        let ghost tail = text@.skip(at as int);
        let c = text.get_char(at);
        proof {
            assert(tail[0] == c);
            assert(tail.len() == len - at);
        }
        if c == ' ' {
            proof {
                let rest = split_options(text@.skip(at + 1));
                lemma_split_nonempty(text@.skip(at + 1));
                assert(tail.skip(1) =~= text@.skip(at + 1));
                assert(split_options(tail) == seq![Seq::<char>::empty()] + rest);
                assert(word@ + Seq::<char>::empty() =~= word@);
                assert(Seq::<char>::empty() + rest[0] =~= rest[0]);
                assert(joined(before, word@, split_options(tail)) =~= joined(
                    before.push(word@),
                    Seq::<char>::empty(),
                    rest,
                ));
            }
            let ghost complete = word@;
            words.push(word);
            word = String::new();
            proof {
                assert(texts(words@) =~= before.push(complete));
            }
            at = at + 1;
        } else {
            let mut from: usize = at;
            if c == '\\' && at + 1 < len {
                let d = text.get_char(at + 1);
                if d == '\\' || d == ' ' {
                    from = at + 1;
                }
            }
            proof {
                let rest = split_options(text@.skip(from + 1));
                lemma_split_nonempty(text@.skip(from + 1));
                assert(tail.len() >= 2 ==> tail[1] == text@[at + 1]);
                assert(tail.skip(from + 1 - at) =~= text@.skip(from + 1));
                assert(split_options(tail) == extend_first(text@[from as int], rest));
                assert(text@.subrange(from as int, from + 1) =~= seq![text@[from as int]]);
                assert(word@ + (seq![text@[from as int]] + rest[0]) =~= (word@ + seq![
                    text@[from as int],
                ]) + rest[0]);
                assert(joined(before, word@, split_options(tail)) =~= joined(
                    before,
                    word@ + seq![text@[from as int]],
                    rest,
                ));
            }
            word.append(text.substring_char(from, from + 1));
            at = from + 1;
        }
    }
    proof {
        let before = texts(words@);
        assert(text@.skip(len as int) =~= Seq::<char>::empty());
        assert(word@ + Seq::<char>::empty() =~= word@);
        assert(joined(before, word@, seq![Seq::<char>::empty()]) =~= before.push(word@));
    }
    let ghost before = texts(words@);
    let ghost last = word@;
    words.push(word);
    proof {
        assert(texts(words@) =~= before.push(last));
    }
    words
}

/// The number that a decimal digit stands for.
pub open spec fn digit_value(c: char) -> int {
    c as int - '0' as int
}

/// Whether `c` is one of the digits `0` to `9`.
pub open spec fn is_digit(c: char) -> bool {
    '0' <= c <= '9'
}

/// The number that a row of decimal digits stands for.
pub open spec fn decimal_value(digits: Seq<char>) -> int
    decreases digits.len(),
{
    if digits.len() == 0 {
        0
    } else {
        10 * decimal_value(digits.drop_last()) + digit_value(digits.last())
    }
}

/// The digits of a number as it is written: the text without the `+`
/// that may stand before it.
pub open spec fn unsigned_part(text: Seq<char>) -> Seq<char> {
    if text.len() > 0 && text[0] == '+' {
        text.skip(1)
    } else {
        text
    }
}

/// The number that `text` is the decimal writing of, if it is one that
/// fits: one or more digits, a `+` before them at most, nothing else.
pub open spec fn parse_decimal(text: Seq<char>) -> Option<usize> {
    let digits = unsigned_part(text);
    if digits.len() > 0 && (forall|i: int| 0 <= i < digits.len() ==> is_digit(#[trigger] digits[i]))
        && decimal_value(digits) <= usize::MAX {
        Some(decimal_value(digits) as usize)
    } else {
        None
    }
}

/// A digit more makes the number no smaller.
proof fn lemma_decimal_grows(digits: Seq<char>)
    requires
        digits.len() > 0,
        forall|i: int| 0 <= i < digits.len() ==> is_digit(#[trigger] digits[i]),
    ensures
        0 <= decimal_value(digits.drop_last()) <= decimal_value(digits),
        decimal_value(digits) == 10 * decimal_value(digits.drop_last()) + digit_value(
            digits.last(),
        ),
    decreases digits.len(),
{
    let head = digits.drop_last();
    if head.len() > 0 {
        assert forall|i: int| 0 <= i < head.len() implies is_digit(#[trigger] head[i]) by {
            assert(head[i] == digits[i]);
        }
        lemma_decimal_grows(head);
    }
    assert(is_digit(digits[digits.len() - 1]));
}

/// Reads a number in decimal writing.
pub fn parse_number(text: &str) -> (number: Option<usize>)
    ensures
        number == parse_decimal(text@),
{
    let len: usize = text.unicode_len();
    let first: usize = if len > 0 && text.get_char(0) == '+' {
        1
    } else {
        0
    };
    let ghost digits = unsigned_part(text@);
    proof {
        assert(text@.skip(0) =~= text@);
        assert(digits == text@.skip(first as int));
    }
    if first == len {
        return None;
    }
    let mut value: usize = 0;
    let mut at: usize = first;
    while at < len
        invariant
            first <= at <= len,
            len == text@.len(),
            digits == text@.skip(first as int),
            digits == unsigned_part(text@),
            forall|i: int| 0 <= i < at - first ==> is_digit(#[trigger] digits[i]),
            value == decimal_value(digits.take(at - first)),
        decreases len - at,
    {
        let c = text.get_char(at);
        proof {
            assert(digits[at - first] == c);
        }
        if c < '0' || c > '9' {
            assert(!is_digit(digits[at - first]));
            return None;
        }
        let d: usize = (c as u32 - '0' as u32) as usize;
        proof {
            let seen = digits.take(at - first + 1);
            assert(seen.drop_last() =~= digits.take(at - first));
            assert(seen.last() == c);
            assert(digit_value(c) == d);
            assert(decimal_value(seen) == 10 * value + d);
        }
        if value > (usize::MAX - d) / 10 {
            proof {
                assert(10 * value + d > usize::MAX);
                if forall|i: int| 0 <= i < digits.len() ==> is_digit(#[trigger] digits[i]) {
                    lemma_decimal_monotonic(digits, at - first + 1);
                }
            }
            return None;
        }
        value = 10 * value + d;
        at = at + 1;
    }
    proof {
        assert(digits.take(len - first) =~= digits);
    }
    Some(value)
}

/// The number of a row of digits is no smaller than that of any of its
/// beginnings.
proof fn lemma_decimal_monotonic(digits: Seq<char>, n: int)
    requires
        0 <= n <= digits.len(),
        forall|i: int| 0 <= i < digits.len() ==> is_digit(#[trigger] digits[i]),
    ensures
        decimal_value(digits.take(n)) <= decimal_value(digits),
    decreases digits.len() - n,
{
    if n == digits.len() {
        assert(digits.take(n) =~= digits);
    } else {
        let head = digits.drop_last();
        assert forall|i: int| 0 <= i < head.len() implies is_digit(#[trigger] head[i]) by {
            assert(head[i] == digits[i]);
        }
        lemma_decimal_monotonic(head, n);
        assert(head.take(n) =~= digits.take(n));
        lemma_decimal_grows(digits);
    }
}

/// The rate that a setting asks for: the number that it writes, where
/// it writes one above zero, and the default rate where no setting is
/// made or the setting is no such number.
pub open spec fn configured_rate(setting: Option<&str>) -> usize {
    match setting {
        Some(text) => match parse_decimal(text@) {
            Some(bytes) => if bytes > 0 {
                bytes
            } else {
                DEFAULT_RATE
            },
            None => DEFAULT_RATE,
        },
        None => DEFAULT_RATE,
    }
}

/// The rate that a setting asks for.
pub fn rate_from_setting(setting: Option<&str>) -> (rate: TransferRate)
    ensures
        rate.wf(),
        rate.spec_bytes() == configured_rate(setting),
{
    match setting {
        Some(text) => match parse_number(text) {
            Some(bytes) => TransferRate::new_or_default(bytes),
            None => TransferRate::default(),
        },
        None => TransferRate::default(),
    }
}

/// Whether two texts are the same.
pub fn same_text(left: &str, right: &str) -> (same: bool)
    ensures
        same == (left@ == right@),
{
    let len: usize = left.unicode_len();
    if len != right.unicode_len() {
        return false;
    }
    let mut at: usize = 0;
    while at < len
        invariant
            at <= len,
            len == left@.len(),
            len == right@.len(),
            forall|i: int| 0 <= i < at ==> left@[i] == right@[i],
        decreases len - at,
    {
        if left.get_char(at) != right.get_char(at) {
            return false;
        }
        at = at + 1;
    }
    assert(left@ =~= right@);
    true
}

/// What the program is asked to do.
#[derive(Clone, Copy, Debug, PartialEq, Eq)]
pub enum Invocation {
    /// Show the help and do nothing else.
    Help,
    /// Show the version and do nothing else.
    Version,
    /// Run. `input` is the index, among the arguments, of the name of
    /// the file to read; without one, standard input is read.
    Run { input: Option<usize> },
}

/// What the arguments behind the program's name ask for. Only the first
/// decides: `-h` or `--help`, `-v` or `--version`, or `--`, behind which
/// the name of the file stands, if any; any other first argument is the
/// name of the file itself.
pub open spec fn invocation(arguments: Seq<Seq<char>>) -> Invocation {
    if arguments.len() == 0 {
        Invocation::Run { input: None }
    } else if arguments[0] == "-h"@ || arguments[0] == "--help"@ {
        Invocation::Help
    } else if arguments[0] == "-v"@ || arguments[0] == "--version"@ {
        Invocation::Version
    } else if arguments[0] == "--"@ {
        Invocation::Run { input: if arguments.len() > 1 {
            Some(1usize)
        } else {
            None
        } }
    } else {
        Invocation::Run { input: Some(0usize) }
    }
}

/// Reads the arguments behind the program's name.
pub fn read_arguments(arguments: &Vec<String>) -> (asked: Invocation)
    ensures
        asked == invocation(texts(arguments@)),
{
    if arguments.len() == 0 {
        return Invocation::Run { input: None };
    }
    let first = arguments[0].as_str();
    assert(texts(arguments@)[0] == first@);
    if same_text(first, "-h") || same_text(first, "--help") {
        Invocation::Help
    } else if same_text(first, "-v") || same_text(first, "--version") {
        Invocation::Version
    } else if same_text(first, "--") {
        Invocation::Run { input: if arguments.len() > 1 {
            Some(1)
        } else {
            None
        } }
    } else {
        Invocation::Run { input: Some(0) }
    }
}

} // verus!
