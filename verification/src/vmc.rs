//! Values of the command line front end for virtual machines: the
//! features a machine is started with, and the names of failed routines
//! as they are shown.

use vstd::prelude::*;
use vstd::string::*;
use crate::text::{chars_of, is_space, is_whitespace, without_spaces};

verus! {

/// The optional features of a virtual machine.
#[derive(Clone, Copy, Debug, PartialEq, Eq, Structural)]
pub struct VmFeatures {
    pub gpu: bool,
    pub software_tpm: bool,
}

impl Default for VmFeatures {
    fn default() -> (features: VmFeatures)
        ensures
            features == (VmFeatures { gpu: false, software_tpm: false }),
    {
        VmFeatures { gpu: false, software_tpm: false }
    }
}

/// The text without every copy of `prefix` that it begins with.
pub open spec fn without_prefixes(text: Seq<char>, prefix: Seq<char>) -> Seq<char>
    decreases text.len(),
{
    if 0 < prefix.len() <= text.len() && text.take(prefix.len() as int) == prefix {
        without_prefixes(text.skip(prefix.len() as int), prefix)
    } else {
        text
    }
}

/// The name of a routine as it is shown: the expression that was called,
/// without the `self.backend.` it begins with and without white space.
pub open spec fn routine_shown(expression: Seq<char>) -> Seq<char> {
    without_spaces(without_prefixes(expression, "self.backend."@))
}

fn has_prefix_at(chars: &Vec<char>, at: usize, prefix: &Vec<char>) -> (found: bool)
    requires
        at <= chars.len(),
    ensures
        found == (prefix.len() <= chars.len() - at && chars@.skip(at as int).take(
            prefix.len() as int,
        ) == prefix@),
{
    if prefix.len() > chars.len() - at {
        return false;
    }
    let ghost window = chars@.skip(at as int).take(prefix.len() as int);
    let mut i: usize = 0;
    while i < prefix.len()
        invariant
            i <= prefix.len() <= chars.len() - at,
            window == chars@.skip(at as int).take(prefix.len() as int),
            forall|j: int| 0 <= j < i ==> window[j] == prefix@[j],
        decreases prefix.len() - i,
    {
        assert(window[i as int] == chars@[at + i]);
        if chars[at + i] != prefix[i] {
            return false;
        }
        i += 1;
    }
    assert(window =~= prefix@);
    true
}

/// Removes what is of no use in the text of a routine that failed: the
/// `self.backend.` before the name of the routine, and all white space.
pub fn trim_routine(s: &str) -> (shown: String)
    ensures
        shown@ == routine_shown(s@),
{
    let chars = chars_of(s);
    let prefix = chars_of("self.backend.");
    let ghost target = without_prefixes(s@, prefix@);
    let mut start: usize = 0;
    assert(chars@.skip(0) =~= chars@);
    while prefix.len() > 0 && has_prefix_at(&chars, start, &prefix)
        invariant
            start <= chars.len(),
            chars@ == s@,
            target == without_prefixes(chars@.skip(start as int), prefix@),
        decreases chars.len() - start,
    {
        assert(chars@.skip(start as int).skip(prefix.len() as int) =~= chars@.skip(
            start + prefix.len(),
        ));
        start += prefix.len();
    }
    assert(target == chars@.skip(start as int));
    let mut shown = String::new();
    let mut i: usize = start;
    assert(target.take(0) =~= Seq::<char>::empty());
    while i < chars.len()
        invariant
            start <= i <= chars.len(),
            chars@ == s@,
            target == chars@.skip(start as int),
            shown@ == without_spaces(target.take(i - start)),
        decreases chars.len() - i,
    {
        proof {
            let more = target.take(i + 1 - start);
            assert(more.drop_last() =~= target.take(i - start));
            assert(more.last() == chars@[i as int]);
        }
        if !is_whitespace(chars[i]) {
            let ghost held = shown@;
            shown.append(s.substring_char(i, i + 1));
            assert(shown@ =~= held.push(chars@[i as int]));
        }
        i += 1;
    }
    assert(target.take(chars.len() - start) =~= target);
    shown
}

/// What is shown of a routine holds no white space, and a text that holds
/// none and does not begin with `self.backend.` is shown as it is.
pub proof fn shown_holds_no_space(text: Seq<char>)
    ensures
        forall|j: int| 0 <= j < without_spaces(text).len() ==> !is_space(
            #[trigger] without_spaces(text)[j],
        ),
        (forall|j: int| 0 <= j < text.len() ==> !is_space(#[trigger] text[j])) ==> without_spaces(
            text,
        ) == text,
    decreases text.len(),
{
    if text.len() > 0 {
        let shorter = text.drop_last();
        shown_holds_no_space(shorter);
        let shown = without_spaces(text);
        assert forall|j: int| 0 <= j < shown.len() implies !is_space(#[trigger] shown[j]) by {
            if j < without_spaces(shorter).len() {
                assert(shown[j] == without_spaces(shorter)[j]);
            }
        }
        if forall|j: int| 0 <= j < text.len() ==> !is_space(#[trigger] text[j]) {
            assert forall|j: int| 0 <= j < shorter.len() implies !is_space(
                #[trigger] shorter[j],
            ) by {
                assert(shorter[j] == text[j]);
            }
            assert(!is_space(text[text.len() - 1]));
            assert(shorter.push(text.last()) =~= text);
        }
    }
}

} // verus!
