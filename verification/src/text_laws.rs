//! Laws of the text operations: what trimming, splitting, joining and searching give for every text.

use vstd::prelude::*;
use crate::text::{
    first_word, is_blank, is_space, join_with, lemma_trim_end_skips, lemma_trim_start_skips,
    lemma_word_len, trim, trim_end, trim_start, word_len,
};
use crate::text_number::{
    decimal, digits_value, is_digit, lemma_decimal_digits, parse_unsigned, signed_decimal,
    unsigned_body,
};
use crate::text_scan::{
    ascii_lower, ascii_lowered, char_pos, contains, lemma_char_pos, lemma_char_pos_bounds, lines,
    replaced_char, split, split_once, stands_at, starts_with, strip_last,
};

verus! {

/// All characters of the text are white space.
pub open spec fn all_space(s: Seq<char>) -> bool {
    forall|i: int| 0 <= i < s.len() ==> is_space(#[trigger] s[i])
}

/// The text neither begins nor ends with white space.
pub open spec fn is_bare(s: Seq<char>) -> bool {
    s.len() > 0 ==> !is_space(s[0]) && !is_space(s[s.len() - 1])
}

/// The character does not stand in the text.
pub open spec fn free_of(s: Seq<char>, c: char) -> bool {
    forall|i: int| 0 <= i < s.len() ==> #[trigger] s[i] != c
}

/// White space is what separates words: blanks, tabs and line ends are, and no letter, digit or
/// punctuation mark of ASCII is.
pub proof fn white_space_separates(c: char)
    ensures
        c == ' ' || c == '\t' || c == '\n' || c == '\r' ==> is_space(c),
        0x21 <= c as u32 <= 0x7e ==> !is_space(c),
        0x410 <= c as u32 <= 0x44f ==> !is_space(c),
        is_space('\u{a0}'),
{
}

/// Trimming takes off the white space around a text, whatever it is, and nothing of the text.
pub proof fn trimming_leaves_the_core(before: Seq<char>, core: Seq<char>, after: Seq<char>)
    requires
        all_space(before),
        all_space(after),
        is_bare(core),
    ensures
        trim(before + core + after) == core,
{
    let s = before + core + after;
    if core.len() == 0 {
        assert forall|i: int| 0 <= i < s.len() implies is_space(s[i]) by {
            if i < before.len() {
                assert(s[i] == before[i]);
            } else {
                assert(s[i] == after[i - before.len()]);
            }
        }
        lemma_trim_start_skips(s, s.len() as int);
        let none = s.subrange(s.len() as int, s.len() as int);
        assert(trim_start(none) == none);
        assert(trim_end(none) == none);
        assert(none =~= core);
    } else {
        assert forall|i: int| 0 <= i < before.len() implies is_space(s[i]) by {
            assert(s[i] == before[i]);
        }
        lemma_trim_start_skips(s, before.len() as int);
        let rest = core + after;
        assert(s.subrange(before.len() as int, s.len() as int) =~= rest);
        assert(rest[0] == core[0]);
        assert(trim_start(rest) == rest);
        assert forall|i: int| core.len() <= i < rest.len() implies is_space(rest[i]) by {
            assert(rest[i] == after[i - core.len()]);
        }
        lemma_trim_end_skips(rest, core.len() as int);
        assert(rest.subrange(0, core.len() as int) =~= core);
        assert(trim_end(core) == core);
    }
}

/// Every text is its trimmed text with white space around it: how much stands on either side.
pub proof fn text_is_its_trimmed_text_in_white_space(s: Seq<char>) -> (at: int)
    ensures
        0 <= at,
        at + trim(s).len() <= s.len(),
        s.subrange(at, at + trim(s).len()) == trim(s),
        all_space(s.subrange(0, at)),
        all_space(s.subrange(at + trim(s).len(), s.len() as int)),
        is_bare(trim(s)),
{
    let a = lemma_leading(s, 0);
    let b = lemma_trailing(s, a, s.len() as int);
    let before = s.subrange(0, a);
    let core = s.subrange(a, b);
    let after = s.subrange(b, s.len() as int);
    assert(s =~= before + core + after);
    trimming_leaves_the_core(before, core, after);
    a
}

proof fn lemma_leading(s: Seq<char>, k: int) -> (a: int)
    requires
        0 <= k <= s.len(),
        forall|i: int| 0 <= i < k ==> is_space(s[i]),
    ensures
        k <= a <= s.len(),
        forall|i: int| 0 <= i < a ==> is_space(s[i]),
        a < s.len() ==> !is_space(s[a]),
    decreases s.len() - k,
{
    if k < s.len() && is_space(s[k]) {
        lemma_leading(s, k + 1)
    } else {
        k
    }
}

proof fn lemma_trailing(s: Seq<char>, a: int, k: int) -> (b: int)
    requires
        0 <= a <= k <= s.len(),
        forall|i: int| k <= i < s.len() ==> is_space(s[i]),
    ensures
        a <= b <= k,
        forall|i: int| b <= i < s.len() ==> is_space(s[i]),
        b > a ==> !is_space(s[b - 1]),
    decreases k,
{
    if k > a && is_space(s[k - 1]) {
        lemma_trailing(s, a, k - 1)
    } else {
        k
    }
}

/// A text that neither begins nor ends with white space is left as it is, so trimming twice comes
/// to trimming once.
pub proof fn trimming_twice_is_trimming_once(s: Seq<char>)
    ensures
        trim(trim(s)) == trim(s),
        is_bare(s) ==> trim(s) == s,
{
    let none = Seq::<char>::empty();
    let at = text_is_its_trimmed_text_in_white_space(s);
    trimming_leaves_the_core(none, trim(s), none);
    assert(none + trim(s) + none =~= trim(s));
    if is_bare(s) {
        trimming_leaves_the_core(none, s, none);
        assert(none + s + none =~= s);
    }
}

/// A text is blank exactly where it holds nothing but white space.
pub proof fn blank_text_is_white_space(s: Seq<char>)
    ensures
        is_blank(s) <==> all_space(s),
{
    let none = Seq::<char>::empty();
    if all_space(s) {
        trimming_leaves_the_core(s, none, none);
        assert(s + none + none =~= s);
    }
    if is_blank(s) {
        let at = text_is_its_trimmed_text_in_white_space(s);
        assert forall|i: int| 0 <= i < s.len() implies is_space(#[trigger] s[i]) by {
            if i < at {
                assert(s.subrange(0, at)[i] == s[i]);
            } else {
                assert(s.subrange(at + trim(s).len(), s.len() as int)[i - at] == s[i]);
            }
        }
    }
}

/// The first word of a text is what stands between its leading white space and the next one.
pub proof fn first_word_ends_at_white_space(
    before: Seq<char>,
    word: Seq<char>,
    rest: Seq<char>,
)
    requires
        all_space(before),
        word.len() > 0,
        forall|i: int| 0 <= i < word.len() ==> !is_space(#[trigger] word[i]),
        rest.len() > 0 ==> is_space(rest[0]),
    ensures
        first_word(before + word + rest) == Some(word),
        first_word(before) is None,
{
    let s = before + word + rest;
    assert forall|i: int| 0 <= i < before.len() implies is_space(s[i]) by {
        assert(s[i] == before[i]);
    }
    lemma_trim_start_skips(s, before.len() as int);
    let t = word + rest;
    assert(s.subrange(before.len() as int, s.len() as int) =~= t);
    assert(t[0] == word[0]);
    assert(trim_start(t) == t);
    assert forall|i: int| 0 <= i < word.len() implies !is_space(t[i]) by {
        assert(t[i] == word[i]);
    }
    if rest.len() > 0 {
        assert(t[word.len() as int] == rest[0]);
    }
    lemma_word_len(t, word.len() as int);
    assert(t.take(word.len() as int) =~= word);
    lemma_trim_start_skips(before, before.len() as int);
    let none = before.subrange(before.len() as int, before.len() as int);
    assert(trim_start(none) == none);
}

// ---------------------------------------------------------------------------------------------
// Splitting and joining

/// A text without the separator is one piece.
pub proof fn text_without_separator_is_one_piece(s: Seq<char>, c: char)
    requires
        free_of(s, c),
    ensures
        split(s, c) == seq![s],
        split_once(s, c) is None,
{
    lemma_char_pos(s, c, s.len() as int);
}

/// What stands before the first separator is the first piece; the rest is split on its own.
pub proof fn first_piece_ends_at_the_separator(head: Seq<char>, c: char, rest: Seq<char>)
    requires
        free_of(head, c),
    ensures
        split(head.push(c) + rest, c) == seq![head] + split(rest, c),
        split_once(head.push(c) + rest, c) == Some((head, rest)),
{
    let s = head.push(c) + rest;
    let at = head.len() as int;
    assert forall|i: int| 0 <= i < at implies s[i] != c by {
        assert(s[i] == head[i]);
    }
    assert(s[at] == c);
    lemma_char_pos(s, c, at);
    assert(s.subrange(0, at) =~= head);
    assert(s.subrange(at + 1, s.len() as int) =~= rest);
}

/// Joined pieces begin with the first of them, and then come the others.
pub proof fn joined_pieces_begin_with_the_first(
    first: Seq<char>,
    others: Seq<Seq<char>>,
    sep: Seq<char>,
)
    ensures
        join_with(seq![first], sep) == first,
        others.len() > 0 ==> join_with(seq![first] + others, sep) == first + sep + join_with(
            others,
            sep,
        ),
        join_with(Seq::empty(), sep).len() == 0,
    decreases others.len(),
{
    if others.len() > 0 {
        let all = seq![first] + others;
        assert(all.last() == others.last());
        if others.len() == 1 {
            assert(all.drop_last() =~= seq![first]);
            assert(join_with(seq![first], sep) == first);
            assert(join_with(others, sep) == others.last());
        } else {
            joined_pieces_begin_with_the_first(first, others.drop_last(), sep);
            assert(all.drop_last() =~= seq![first] + others.drop_last());
            let inner = join_with(others.drop_last(), sep);
            assert((first + sep + inner) + sep + others.last() =~= first + sep + (inner + sep
                + others.last()));
        }
    }
}

/// Splitting what was joined gives the pieces back, as long as none of them holds the separator.
pub proof fn split_undoes_join(pieces: Seq<Seq<char>>, c: char)
    requires
        pieces.len() > 0,
        forall|i: int| 0 <= i < pieces.len() ==> free_of(#[trigger] pieces[i], c),
    ensures
        split(join_with(pieces, seq![c]), c) == pieces,
    decreases pieces.len(),
{
    let first = pieces[0];
    assert(free_of(pieces[0], c));
    if pieces.len() == 1 {
        text_without_separator_is_one_piece(first, c);
        assert(pieces =~= seq![first]);
    } else {
        let others = pieces.skip(1);
        assert(pieces =~= seq![first] + others);
        assert forall|i: int| 0 <= i < others.len() implies free_of(#[trigger] others[i], c) by {
            assert(others[i] == pieces[i + 1]);
        }
        joined_pieces_begin_with_the_first(first, others, seq![c]);
        split_undoes_join(others, c);
        let rest = join_with(others, seq![c]);
        first_piece_ends_at_the_separator(first, c, rest);
        assert(first + seq![c] + rest =~= first.push(c) + rest);
    }
}

/// Joining what was split gives the text back, and no piece holds the separator.
pub proof fn join_undoes_split(s: Seq<char>, c: char)
    ensures
        join_with(split(s, c), seq![c]) == s,
        split(s, c).len() > 0,
        forall|i: int| 0 <= i < split(s, c).len() ==> free_of(#[trigger] split(s, c)[i], c),
    decreases s.len(),
{
    let p = char_pos(s, c) as int;
    lemma_char_pos_bounds(s, c);
    if p < s.len() {
        let head = s.subrange(0, p);
        let tail = s.subrange(p + 1, s.len() as int);
        join_undoes_split(tail, c);
        assert(split(s, c) == seq![head] + split(tail, c));
        joined_pieces_begin_with_the_first(head, split(tail, c), seq![c]);
        assert(head + seq![c] + tail =~= s);
        assert forall|i: int| 0 <= i < split(s, c).len() implies free_of(
            #[trigger] split(s, c)[i],
            c,
        ) by {
            if i > 0 {
                assert(split(s, c)[i] == split(tail, c)[i - 1]);
            }
        }
    } else {
        assert(split(s, c) =~= seq![s]);
        assert(join_with(seq![s], seq![c]) == s);
    }
}

/// A line that is ended by a line feed, with a carriage return before it or not, is the first of
/// the lines; the others are those of the rest. The last line needs no end.
pub proof fn lines_end_at_line_feeds(line: Seq<char>, rest: Seq<char>)
    requires
        free_of(line, '\n'),
        line.len() > 0 ==> line.last() != '\r',
    ensures
        lines(line.push('\n') + rest) == seq![line] + lines(rest),
        lines(line.push('\r').push('\n') + rest) == seq![line] + lines(rest),
        line.len() > 0 ==> lines(line) == seq![line],
        lines(Seq::empty()).len() == 0,
{
    first_piece_ends_at_the_separator(line, '\n', rest);
    assert(strip_last(line, '\r') == line);
    let ended = line.push('\r');
    assert(free_of(ended, '\n')) by {
        assert forall|i: int| 0 <= i < ended.len() implies #[trigger] ended[i] != '\n' by {
            if i < line.len() {
                assert(ended[i] == line[i]);
            }
        }
    }
    first_piece_ends_at_the_separator(ended, '\n', rest);
    assert(strip_last(ended, '\r') =~= line);
    text_without_separator_is_one_piece(line, '\n');
}

// ---------------------------------------------------------------------------------------------
// Searching

/// A text holds another exactly where it is that one with something, or nothing, around it.
pub proof fn text_holds_its_middle(before: Seq<char>, middle: Seq<char>, after: Seq<char>)
    ensures
        contains(before + middle + after, middle),
        starts_with(middle + after, middle),
        before.len() > 0 && middle.len() > 0 && before[0] != middle[0] ==> !starts_with(
            before + middle + after,
            middle,
        ),
{
    let s = before + middle + after;
    assert(s.subrange(before.len() as int, (before.len() + middle.len()) as int) =~= middle);
    assert(stands_at(s, middle, before.len() as int));
    let t = middle + after;
    assert(t.subrange(0, middle.len() as int) =~= middle);
    if before.len() > 0 && middle.len() > 0 && before[0] != middle[0] {
        if starts_with(s, middle) {
            assert(s.subrange(0, middle.len() as int)[0] == s[0]);
            assert(s[0] == before[0]);
        }
    }
}

/// A text that holds another has a place where it stands, character by character.
pub proof fn found_text_stands_in_the_text(hay: Seq<char>, needle: Seq<char>)
    requires
        contains(hay, needle),
    ensures
        exists|at: int|
            0 <= at <= hay.len() - needle.len() && hay =~= #[trigger] hay.subrange(0, at) + needle
                + hay.subrange(at + needle.len(), hay.len() as int),
{
    let at = choose|at: int| #[trigger] stands_at(hay, needle, at);
    assert(hay =~= hay.subrange(0, at) + needle + hay.subrange(
        at + needle.len(),
        hay.len() as int,
    ));
}

/// Making ASCII letters small changes the capitals and no other character.
pub proof fn small_letters(s: Seq<char>, i: int)
    requires
        0 <= i < s.len(),
    ensures
        ascii_lowered(s).len() == s.len(),
        'A' <= s[i] <= 'Z' ==> ascii_lowered(s)[i] as u32 == s[i] as u32 + 32,
        !('A' <= s[i] <= 'Z') ==> ascii_lowered(s)[i] == s[i],
        ascii_lowered(ascii_lowered(s)) == ascii_lowered(s),
{
    let low = ascii_lowered(s);
    assert forall|k: int| 0 <= k < low.len() implies ascii_lower(low[k]) == low[k] by {
        assert(low[k] == ascii_lower(s[k]));
    }
    assert(ascii_lowered(low) =~= low);
}

/// Replacing a character leaves none of it, and every other one in its place.
pub proof fn replaced_character_is_gone(s: Seq<char>, from: char, to: char, i: int)
    requires
        0 <= i < s.len(),
    ensures
        replaced_char(s, from, to).len() == s.len(),
        s[i] == from ==> replaced_char(s, from, to)[i] == to,
        s[i] != from ==> replaced_char(s, from, to)[i] == s[i],
{
}

// ---------------------------------------------------------------------------------------------
// Numbers

/// One more digit makes a number ten times as large, and the digit is added.
pub proof fn one_more_digit(digits: Seq<char>, d: nat)
    requires
        d < 10,
        digits.len() > 0,
        forall|i: int| 0 <= i < digits.len() ==> is_digit(#[trigger] digits[i]),
    ensures
        ({
            let c = (48 + d) as u32 as char;
            parse_unsigned(digits.push(c), digits_value(digits) * 10 + d) == Some(
                digits_value(digits) * 10 + d,
            )
        }),
        digits_value(seq![(48 + d) as u32 as char]) == d,
{
    let c = (48 + d) as u32 as char;
    let longer = digits.push(c);
    assert(longer.drop_last() =~= digits);
    assert(longer.last() == c);
    assert(is_digit(longer[0])) by {
        assert(longer[0] == digits[0]);
    }
    assert(unsigned_body(longer) == longer);
    assert forall|i: int| 0 <= i < longer.len() implies is_digit(#[trigger] longer[i]) by {
        if i < digits.len() {
            assert(longer[i] == digits[i]);
        }
    }
    assert(digits_value(longer) == digits_value(digits) * 10 + d);
    assert(seq![c].drop_last() =~= Seq::<char>::empty());
    assert(digits_value(Seq::<char>::empty()) == 0);
}

/// A number is read with a plus sign or without one, and only where every other character is a
/// digit and it is not above the limit.
pub proof fn numbers_are_digits(s: Seq<char>, max: nat, i: int)
    ensures
        parse_unsigned(s, max) is Some && 0 < i < s.len() ==> is_digit(s[i]),
        parse_unsigned(s, max) is Some ==> s.len() > 0 && parse_unsigned(s, max)->0 <= max && (
        is_digit(s[0]) || s[0] == '+' && s.len() > 1),
        s.len() > 0 && is_digit(s[0]) ==> parse_unsigned(seq!['+'] + s, max) == parse_unsigned(
            s,
            max,
        ),
{
    let body = unsigned_body(s);
    if parse_unsigned(s, max) is Some {
        if s[0] == '+' {
            if 0 < i < s.len() {
                assert(body[i - 1] == s[i]);
            }
        } else {
            assert(body == s);
            assert(is_digit(body[0]));
            if 0 < i < s.len() {
                assert(is_digit(body[i]));
            }
        }
    }
    if s.len() > 0 && is_digit(s[0]) {
        let plus = seq!['+'] + s;
        assert(plus[0] == '+');
        assert(plus.subrange(1, plus.len() as int) =~= s);
        assert(unsigned_body(s) == s);
    }
}

/// Decimal notation has no leading zeros, and a negative number a minus sign before its digits.
pub proof fn decimal_notation(n: nat)
    ensures
        n > 0 ==> decimal(n)[0] != '0',
        decimal(0) == seq!['0'],
        n > 0 ==> signed_decimal(-n) == seq!['-'] + decimal(n),
        signed_decimal(n as int) == decimal(n),
    decreases n,
{
    reveal_strlit("-");
    if n >= 10 {
        decimal_notation(n / 10);
        lemma_decimal_digits(n / 10);
    }
    assert("-"@ =~= seq!['-']);
    assert(decimal(0) =~= seq!['0']);
}

} // verus!
