//! Splitting a line typed at the shell prompt into the words of a command.

use vstd::prelude::*;
use vstd::string::*;
use crate::text::{chars_of, first_of_kind, first_of_kind_is, is_space, is_whitespace};

verus! {

/// The words of a line: its longest runs of characters that are not white
/// space, in order. A line of white space alone has no words.
pub open spec fn words_of(line: Seq<char>) -> Seq<Seq<char>>
    decreases line.len(),
{
    let start = first_of_kind(line, false);
    if 0 <= start < line.len() {
        let rest = line.skip(start);
        let end = first_of_kind(rest, true);
        if 0 < end <= rest.len() {
            seq![rest.take(end)] + words_of(rest.skip(end))
        } else {
            Seq::empty()
        }
    } else {
        Seq::empty()
    }
}

/// Splits a command line into its words. Quotes have no special meaning.
pub fn parse_command(command: &str) -> (tokens: Vec<String>)
    ensures
        tokens@.len() == words_of(command@).len(),
        forall|i: int| 0 <= i < tokens@.len() ==> (#[trigger] tokens@[i])@ == words_of(command@)[i],
{
    let chars = chars_of(command);
    let mut tokens: Vec<String> = Vec::new();
    let ghost mut found: Seq<Seq<char>> = Seq::empty();
    let mut pos: usize = 0;
    assert(chars@.skip(0) =~= chars@);
    assert(found + words_of(chars@) =~= words_of(chars@));
    while pos < chars.len()
        invariant
            pos <= chars.len(),
            chars@ == command@,
            words_of(chars@) == found + words_of(chars@.skip(pos as int)),
            tokens@.len() == found.len(),
            forall|i: int| 0 <= i < tokens@.len() ==> (#[trigger] tokens@[i])@ == found[i],
        decreases chars.len() - pos,
    {
        let ghost before = chars@.skip(pos as int);
        let mut start: usize = pos;
        while start < chars.len() && is_whitespace(chars[start])
            invariant
                pos <= start <= chars.len(),
                before == chars@.skip(pos as int),
                forall|j: int| 0 <= j < start - pos ==> is_space(#[trigger] before[j]),
            decreases chars.len() - start,
        {
            start += 1;
        }
        proof {
            first_of_kind_is(before, false, start - pos);
        }
        if start == chars.len() {
            assert(found + Seq::<Seq<char>>::empty() =~= found);
            assert(chars@.skip(chars.len() as int) =~= Seq::<char>::empty());
            pos = start;
        } else {
            let ghost rest = before.skip(start - pos);
            assert(rest =~= chars@.skip(start as int));
            let mut end: usize = start + 1;
            while end < chars.len() && !is_whitespace(chars[end])
                invariant
                    start < end <= chars.len(),
                    rest == chars@.skip(start as int),
                    forall|j: int| 0 <= j < end - start ==> !is_space(#[trigger] rest[j]),
                decreases chars.len() - end,
            {
                end += 1;
            }
            proof {
                first_of_kind_is(rest, true, end - start);
            }
            let ghost word = rest.take(end - start);
            assert(word =~= chars@.subrange(start as int, end as int));
            assert(rest.skip(end - start) =~= chars@.skip(end as int));
            let token = String::from_str(command.substring_char(start, end));
            proof {
                let later = words_of(chars@.skip(end as int));
                assert(found + (seq![word] + later) =~= found.push(word) + later);
                found = found.push(word);
            }
            tokens.push(token);
            pos = end;
        }
    }
    assert(chars@.skip(chars.len() as int) =~= Seq::<char>::empty());
    assert(found + Seq::<Seq<char>>::empty() =~= found);
    tokens
}

/// `first_of_kind` lies within the text; before it every character is of
/// the other kind, and at it, if the text has not ended, one of the kind
/// stands.
pub proof fn first_of_kind_bounds(s: Seq<char>, space: bool)
    ensures
        0 <= first_of_kind(s, space) <= s.len(),
        forall|j: int| 0 <= j < first_of_kind(s, space) ==> is_space(#[trigger] s[j]) != space,
        first_of_kind(s, space) < s.len() ==> is_space(s[first_of_kind(s, space)]) == space,
    decreases s.len(),
{
    if s.len() > 0 && is_space(s[0]) != space {
        first_of_kind_bounds(s.skip(1), space);
        assert forall|j: int| 0 <= j < first_of_kind(s, space) implies is_space(#[trigger] s[j])
            != space by {
            if j > 0 {
                assert(s[j] == s.skip(1)[j - 1]);
            }
        }
    }
}

/// No word of a line is empty or holds white space.
pub proof fn words_hold_no_space(line: Seq<char>, i: int)
    requires
        0 <= i < words_of(line).len(),
    ensures
        words_of(line)[i].len() > 0,
        forall|j: int| 0 <= j < words_of(line)[i].len() ==> !is_space(#[trigger] words_of(line)[i][j]),
    decreases line.len(),
{
    let start = first_of_kind(line, false);
    let rest = line.skip(start);
    let end = first_of_kind(rest, true);
    first_of_kind_bounds(rest, true);
    if i == 0 {
        let word = rest.take(end);
        assert forall|j: int| 0 <= j < word.len() implies !is_space(#[trigger] word[j]) by {
            assert(word[j] == rest[j]);
        }
    } else {
        assert(words_of(line)[i] == words_of(rest.skip(end))[i - 1]);
        words_hold_no_space(rest.skip(end), i - 1);
    }
}

} // verus!
