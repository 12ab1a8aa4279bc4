//! History of the commands entered at a shell prompt: a bounded queue of
//! entries, newest last, and a cursor that the arrow keys move through it.

use std::collections::VecDeque;
use vstd::prelude::*;
use vstd::slice::slice_subrange;
use vstd::string::*;
use vstd::utf8::{decode_utf8, valid_utf8};
use crate::text::{chars_of, index_of, index_of_is};

verus! {

/// Number of entries a history holds unless told otherwise.
pub const DEFAULT_MAX_ENTRIES: usize = 100;

/// Number of bytes at the end of a history file that are read back.
pub const MAX_HISTORY_SIZE: u64 = 4096;

/// The error of `core::str::from_utf8`, carried through as it is.
#[verifier::external_type_specification]
#[verifier::external_body]
pub struct ExUtf8Error(core::str::Utf8Error);

/// Why the bytes of a history file could not be taken in.
pub enum Error {
    /// The bytes are not text.
    UTF8(core::str::Utf8Error),
}

/// A line without the carriage return that ended it, if one did.
pub open spec fn without_return(line: Seq<char>) -> Seq<char> {
    if line.len() > 0 && line.last() == '\r' {
        line.drop_last()
    } else {
        line
    }
}

/// The entries that a text holds: its lines that are not empty, in order.
/// A line ends at a line feed, or at a carriage return followed by one,
/// or with the text.
pub open spec fn entries_of(text: Seq<char>) -> Seq<Seq<char>>
    decreases text.len(),
{
    if text.len() == 0 {
        Seq::empty()
    } else {
        let end = index_of(text, '\n');
        let line = if 0 <= end < text.len() { without_return(text.take(end)) } else { text };
        let rest = if 0 <= end < text.len() {
            entries_of(text.skip(end + 1))
        } else {
            Seq::empty()
        };
        if line.len() > 0 {
            seq![line] + rest
        } else {
            rest
        }
    }
}

/// The part of the bytes at the end of a history file that is read as
/// text. Bytes that may not start at the beginning of the file are read
/// from their first line feed on, or not at all if they hold none.
pub open spec fn text_bytes(file_size: u64, raw_data: Seq<u8>) -> Seq<u8> {
    if file_size < MAX_HISTORY_SIZE {
        raw_data
    } else {
        raw_data.skip(index_of(raw_data, 10u8))
    }
}

/// The text that a list of entries is kept as: each entry followed by a
/// line feed.
pub open spec fn text_of_entries(entries: Seq<Seq<char>>) -> Seq<char>
    decreases entries.len(),
{
    if entries.len() == 0 {
        Seq::empty()
    } else {
        text_of_entries(entries.drop_last()) + entries.last() + seq!['\n']
    }
}

/// The text that bytes hold, through `core::str::from_utf8`: the bytes
/// decoded if they are valid UTF-8, an error if they are not.
#[verifier::external_body]
fn utf8_text(bytes: &[u8]) -> (text: Result<&str, core::str::Utf8Error>)
    ensures
        match text {
            Ok(decoded) => valid_utf8(bytes@) && decoded@ == decode_utf8(bytes@),
            Err(_) => !valid_utf8(bytes@),
        },
{
    core::str::from_utf8(bytes)
}

/// Where to start reading a history file of `file_size` bytes, and how
/// many bytes to read: the whole file, or its last bytes if it is large.
pub fn tail_of_file(file_size: u64) -> (span: (u64, usize))
    ensures
        span.0 == (if file_size > MAX_HISTORY_SIZE { file_size - MAX_HISTORY_SIZE } else { 0 }),
        span.1 == (if file_size > MAX_HISTORY_SIZE { MAX_HISTORY_SIZE } else { file_size }),
{
    if file_size > MAX_HISTORY_SIZE {
        (file_size - MAX_HISTORY_SIZE, MAX_HISTORY_SIZE as usize)
    } else {
        (0, file_size as usize)
    }
}

/// Mathematical value of a [`History`].
pub struct HistoryView {
    /// The line that was being typed when the cursor left the bottom.
    pub temp: Seq<char>,
    /// How many steps the cursor is above the newest entry; -1 when it is
    /// at the bottom, on the line being typed.
    pub index: int,
    /// The most entries the history keeps.
    pub max_entries: nat,
    /// The entries, oldest first.
    pub commands: Seq<Seq<char>>,
}

impl HistoryView {
    /// An empty history with room for `max_entries` entries.
    pub open spec fn empty(max_entries: nat) -> HistoryView {
        HistoryView { temp: Seq::empty(), index: -1, max_entries, commands: Seq::empty() }
    }

    /// What every history satisfies: it can hold at least one entry and no
    /// more than the cursor can count, holds no more than it can, and its
    /// cursor is at the bottom, on an entry, or one step above the oldest
    /// entry.
    pub open spec fn wf(self) -> bool {
        &&& 0 < self.max_entries <= isize::MAX
        &&& self.commands.len() <= self.max_entries
        &&& -1 <= self.index <= self.commands.len()
    }

    /// The entry that lies `reverse_index` steps above the newest one.
    pub open spec fn entry(self, reverse_index: int) -> Option<Seq<char>> {
        if 0 <= reverse_index < self.commands.len() {
            Some(self.commands[self.commands.len() - reverse_index - 1])
        } else {
            None
        }
    }

    /// The history after `entry` was entered. The cursor returns to the
    /// bottom and the line being typed is forgotten. An entry that begins
    /// with a space is not recorded, nor one equal to the oldest entry
    /// held. Recording into a full history drops the oldest entry.
    pub open spec fn after_entry(self, entry: Seq<char>) -> HistoryView {
        let reset = HistoryView { temp: Seq::empty(), index: -1, ..self };
        if entry.len() > 0 && entry[0] == ' ' {
            reset
        } else if self.commands.len() > 0 && self.commands[0] == entry {
            reset
        } else if self.commands.len() >= self.max_entries {
            HistoryView {
                commands: self.commands.skip(self.commands.len() - self.max_entries + 1).push(
                    entry,
                ),
                ..reset
            }
        } else {
            HistoryView { commands: self.commands.push(entry), ..reset }
        }
    }

    /// The history after the entries of `text` were read back: as many of
    /// the last entries of the text as there is room for, in their order,
    /// come before the entries that the history held.
    pub open spec fn after_load(self, text: Seq<char>) -> HistoryView {
        let entries = entries_of(text);
        let room = self.max_entries - self.commands.len();
        let first = if entries.len() > room { entries.len() - room } else { 0 };
        HistoryView { commands: entries.skip(first) + self.commands, ..self }
    }

    /// The history after a step up, towards older entries, with `current`
    /// on the line being typed. Leaving the bottom saves that line.
    pub open spec fn after_previous(self, current: Seq<char>) -> HistoryView {
        let temp = if self.index == -1 { current } else { self.temp };
        if self.index + 1 >= self.commands.len() {
            HistoryView { temp, ..self }
        } else {
            HistoryView { temp, index: self.index + 1, ..self }
        }
    }

    /// What a step up shows: the next older entry, or nothing when there
    /// is none.
    pub open spec fn previous_shown(self) -> Option<Seq<char>> {
        if self.index + 1 >= self.commands.len() {
            None
        } else {
            self.entry(self.index + 1)
        }
    }

    /// The history after a step down, towards newer entries.
    pub open spec fn after_next(self) -> HistoryView {
        if self.index == -1 {
            self
        } else {
            HistoryView { index: self.index - 1, ..self }
        }
    }

    /// What a step down shows: nothing at the bottom, the saved line when
    /// the step arrives there, the next newer entry otherwise.
    pub open spec fn next_shown(self) -> Option<Seq<char>> {
        if self.index == -1 {
            None
        } else if self.index == 0 {
            Some(self.temp)
        } else {
            self.entry(self.index - 1)
        }
    }
}

/// The commands entered so far and the place of the cursor among them.
pub struct History {
    temp: String,
    index: isize,
    max_entries: usize,
    commands: VecDeque<String>,
}

impl View for History {
    type V = HistoryView;

    closed spec fn view(&self) -> HistoryView {
        HistoryView {
            temp: self.temp@,
            index: self.index as int,
            max_entries: self.max_entries as nat,
            commands: self.commands@.map_values(|s: String| s@),
        }
    }
}

impl History {
    /// An empty history of the default size.
    pub fn new() -> (history: History)
        ensures
            history@ == HistoryView::empty(DEFAULT_MAX_ENTRIES as nat),
            history@.wf(),
    {
        History::with_max_capacity(DEFAULT_MAX_ENTRIES)
    }

    /// An empty history that keeps at most `c` entries.
    pub fn with_max_capacity(c: usize) -> (history: History)
        requires
            0 < c <= isize::MAX,
        ensures
            history@ == HistoryView::empty(c as nat),
            history@.wf(),
    {
        let history = History {
            temp: String::new(),
            index: -1,
            max_entries: c,
            commands: VecDeque::new(),
        };
        assert(history@.commands =~= Seq::<Seq<char>>::empty());
        history
    }

    /// The most entries the history keeps.
    pub fn max_entries(&self) -> (max: usize)
        ensures
            max == self@.max_entries,
    {
        self.max_entries
    }

    /// Number of entries held.
    pub fn len(&self) -> (len: usize)
        ensures
            len == self@.commands.len(),
    {
        self.commands.len()
    }

    pub fn is_empty(&self) -> (empty: bool)
        ensures
            empty == (self@.commands.len() == 0),
    {
        self.commands.len() == 0
    }

    /// How many steps the cursor is above the newest entry, -1 at the
    /// bottom.
    pub fn index(&self) -> (index: isize)
        ensures
            index == self@.index,
    {
        self.index
    }

    /// The oldest entry held.
    pub fn front(&self) -> (entry: Option<&str>)
        ensures
            match entry {
                Some(text) => self@.commands.len() > 0 && text@ == self@.commands[0],
                None => self@.commands.len() == 0,
            },
    {
        if self.commands.len() == 0 {
            None
        } else {
            Some(self.commands[0].as_str())
        }
    }

    /// The newest entry held.
    pub fn back(&self) -> (entry: Option<&str>)
        ensures
            entry matches Some(text) ==> Some(text@) == self@.entry(0),
            entry is None <==> self@.commands.len() == 0,
    {
        self.get_entry(0)
    }

    /// Moves the cursor `index` steps above the newest entry, or to the
    /// bottom for -1. A place more than one step above the oldest entry
    /// does not exist: the cursor then stays where it is and the answer is
    /// `false`.
    pub fn seek(&mut self, index: isize) -> (moved: bool)
        requires
            old(self)@.wf(),
        ensures
            final(self)@.wf(),
            moved == (-1 <= index <= old(self)@.commands.len()),
            final(self)@ == (if moved {
                HistoryView { index: index as int, ..old(self)@ }
            } else {
                old(self)@
            }),
    {
        if index >= -1 && (index == -1 || index as usize <= self.commands.len()) {
            self.index = index;
            true
        } else {
            false
        }
    }

    /// Records a command that was entered.
    pub fn new_entry(&mut self, entry: String)
        requires
            old(self)@.wf(),
        ensures
            final(self)@ == old(self)@.after_entry(entry@),
            final(self)@.wf(),
    {
        self.temp = String::new();
        self.index = -1;
        let ghost reset = self@;

        // Do not add entries that begin with a space.
        if entry.as_str().unicode_len() > 0 && entry.as_str().get_char(0) == ' ' {
            return ;
        }
        // Dedupe against the oldest command.

        if self.commands.len() > 0 && self.commands[0] == entry {
            return ;
        }
        assert(self.commands@.len() > 0 ==> (self.commands@[0]@ != entry@));

        if self.commands.len() >= self.max_entries {
            self.commands.pop_front();
        }
        self.commands.push_back(entry);
        assert(self@.commands =~= old(self)@.after_entry(entry@).commands);
    }

    /// Reads back the entries of a history file. `raw_data` holds the
    /// bytes of the file from the place that `tail_of_file` names, and
    /// `file_size` is the size of the whole file. Bytes that are not valid
    /// UTF-8 are an error and leave the history as it is.
    pub fn load_from_bytes(&mut self, file_size: u64, raw_data: &[u8]) -> (result: Result<(), Error>)
        requires
            old(self)@.wf(),
        ensures
            final(self)@.wf(),
            match result {
                Ok(_) => valid_utf8(text_bytes(file_size, raw_data@)) && final(self)@ == old(
                    self,
                )@.after_load(decode_utf8(text_bytes(file_size, raw_data@))),
                Err(Error::UTF8(_)) => !valid_utf8(text_bytes(file_size, raw_data@)) && final(self)@
                    == old(self)@,
            },
    {
        // Find a good starting index if the data wasn't taken from the beginning of the file.
        let mut start: usize = 0;
        if file_size >= MAX_HISTORY_SIZE {
            while start < raw_data.len() && raw_data[start] != 10u8
                invariant
                    start <= raw_data.len(),
                    forall|j: int| 0 <= j < start ==> raw_data@[j] != 10u8,
                decreases raw_data.len() - start,
            {
                start += 1;
            }
            proof {
                index_of_is(raw_data@, 10u8, start as int);
            }
        }
        let tail = slice_subrange(raw_data, start, raw_data.len());
        assert(tail@ =~= text_bytes(file_size, raw_data@));

        // Convert to UTF-8 and split by lines.
        let text = match utf8_text(tail) {
            Ok(text) => text,
            Err(error) => {
                return Err(Error::UTF8(error));
            },
        };
        let chars = chars_of(text);
        let lines = entry_ranges(&chars);

        // Add entries to the front of the history until it is full.
        let ghost entries = entries_of(text@);
        let ghost before = self@;
        let mut i: usize = lines.len();
        assert(entries.skip(i as int) + before.commands =~= before.commands);
        while i > 0 && self.commands.len() < self.max_entries
            invariant
                i <= lines.len(),
                lines.len() == entries.len(),
                chars@ == text@,
                forall|j: int|
                    0 <= j < lines.len() ==> (#[trigger] lines[j]).0 <= lines[j].1 <= chars.len()
                        && chars@.subrange(lines[j].0 as int, lines[j].1 as int) == entries[j],
                before.wf(),
                self@ == (HistoryView { commands: entries.skip(i as int) + before.commands, ..before }),
                self@.commands.len() <= before.max_entries,
            decreases i,
        {
            i -= 1;
            let from: usize = lines[i].0;
            let to: usize = lines[i].1;
            let entry = String::from_str(text.substring_char(from, to));
            assert(entry@ == entries[i as int]);
            let ghost held = self@.commands;
            let ghost line = entry@;
            self.commands.push_front(entry);
            assert(self@.commands =~= seq![line] + held);
            assert(self@.commands =~= entries.skip(i as int) + before.commands) by {
                assert(entries.skip(i as int) =~= seq![entries[i as int]] + entries.skip(i + 1));
            }
        }
        Ok(())
    }

    /// The text to keep the history as: every entry followed by a line
    /// feed, oldest first.
    pub fn persisted_text(&self) -> (text: String)
        ensures
            text@ == text_of_entries(self@.commands),
    {
        let mut text = String::new();
        let mut i: usize = 0;
        proof {
            reveal_strlit("\n");
            assert(self@.commands.take(0) =~= Seq::<Seq<char>>::empty());
        }
        while i < self.commands.len()
            invariant
                i <= self.commands.len(),
                text@ == text_of_entries(self@.commands.take(i as int)),
                "\n"@ == seq!['\n'],
            decreases self.commands.len() - i,
        {
            proof {
                let more = self@.commands.take(i + 1);
                assert(more.drop_last() =~= self@.commands.take(i as int));
                assert(more.last() == self.commands@[i as int]@);
            }
            text.append(self.commands[i].as_str());
            text.append("\n");
            i += 1;
        }
        assert(self@.commands.take(self.commands.len() as int) =~= self@.commands);
        text
    }

    /// Steps up to the next older entry, with `current` on the line being
    /// typed.
    pub fn previous(&mut self, current: &str) -> (shown: Option<&str>)
        requires
            old(self)@.wf(),
        ensures
            final(self)@.wf(),
            final(self)@ == old(self)@.after_previous(current@),
            match shown {
                Some(text) => old(self)@.previous_shown() == Some(text@),
                None => old(self)@.previous_shown() is None,
            },
    {
        // Backup the command the user hasn't executed yet.
        if self.index == -1 {
            self.temp = String::from_str(current);
        }
        let at_oldest = if self.index == -1 {
            self.commands.len() == 0
        } else {
            self.index as usize + 1 >= self.commands.len()
        };
        if at_oldest {
            return None;
        }
        self.index = self.index + 1;
        self.get_entry(self.index as usize)
    }

    /// Steps down to the next newer entry, or back to the line that was
    /// being typed.
    pub fn next(&mut self) -> (shown: Option<&str>)
        requires
            old(self)@.wf(),
        ensures
            final(self)@.wf(),
            final(self)@ == old(self)@.after_next(),
            match shown {
                Some(text) => old(self)@.next_shown() == Some(text@),
                None => old(self)@.next_shown() is None,
            },
    {
        // Make sure we aren't already at the bottom.
        if self.index == -1 {
            return None;
        }
        self.index = self.index - 1;

        // If we reached the bottom, restore the command that hasn't been submitted yet.
        if self.index == -1 {
            return Some(self.temp.as_str());
        }
        self.get_entry(self.index as usize)
    }

    /// The entry `reverse_index` steps above the newest one.
    pub fn get_entry(&self, reverse_index: usize) -> (entry: Option<&str>)
        ensures
            match entry {
                Some(text) => self@.entry(reverse_index as int) == Some(text@),
                None => self@.entry(reverse_index as int) is None,
            },
    {
        if reverse_index < self.commands.len() {
            Some(self.commands[self.commands.len() - reverse_index - 1].as_str())
        } else {
            None
        }
    }
}

/// The places of the entries in a text: for each line that is not empty,
/// where it starts and where it ends.
fn entry_ranges(chars: &Vec<char>) -> (lines: Vec<(usize, usize)>)
    ensures
        lines.len() == entries_of(chars@).len(),
        forall|j: int|
            0 <= j < lines.len() ==> (#[trigger] lines[j]).0 <= lines[j].1 <= chars.len()
                && chars@.subrange(lines[j].0 as int, lines[j].1 as int) == entries_of(chars@)[j],
{
    let mut lines: Vec<(usize, usize)> = Vec::new();
    let ghost mut found: Seq<Seq<char>> = Seq::empty();
    let mut pos: usize = 0;
    assert(chars@.skip(0) =~= chars@);
    assert(found + entries_of(chars@) =~= entries_of(chars@));
    while pos < chars.len()
        invariant
            pos <= chars.len(),
            entries_of(chars@) == found + entries_of(chars@.skip(pos as int)),
            lines.len() == found.len(),
            forall|j: int|
                0 <= j < lines.len() ==> (#[trigger] lines[j]).0 <= lines[j].1 <= chars.len()
                    && chars@.subrange(lines[j].0 as int, lines[j].1 as int) == found[j],
        decreases chars.len() - pos,
    {
        let ghost rest = chars@.skip(pos as int);
        let mut end: usize = pos;
        while end < chars.len() && chars[end] != '\n'
            invariant
                pos <= end <= chars.len(),
                rest == chars@.skip(pos as int),
                forall|j: int| 0 <= j < end - pos ==> rest[j] != '\n',
            decreases chars.len() - end,
        {
            end += 1;
        }
        proof {
            index_of_is(rest, '\n', end - pos);
        }
        let terminated = end < chars.len();
        let mut stop: usize = end;
        if terminated && stop > pos && chars[stop - 1] == '\r' {
            stop -= 1;
        }
        let ghost line = chars@.subrange(pos as int, stop as int);
        proof {
            assert(rest.take(end - pos) =~= chars@.subrange(pos as int, end as int));
            if terminated {
                assert(line =~= without_return(rest.take(end - pos)));
                assert(rest.skip(end - pos + 1) =~= chars@.skip(end + 1));
            } else {
                assert(line =~= rest);
                assert(chars@.skip(chars.len() as int) =~= Seq::<char>::empty());
            }
        }
        let next: usize = if terminated { end + 1 } else { end };
        let ghost later = entries_of(chars@.skip(next as int));
        if stop > pos {
            lines.push((pos, stop));
            proof {
                assert(found + (seq![line] + later) =~= found.push(line) + later);
                found = found.push(line);
            }
        }
        pos = next;
    }
    assert(chars@.skip(chars.len() as int) =~= Seq::<char>::empty());
    assert(found + Seq::<Seq<char>>::empty() =~= found);
    lines
}

/// Reading entries back keeps the history within its bounds, and fills
/// it with the newest entries of the text, never with more than it holds.
pub proof fn load_keeps_bounds(history: HistoryView, text: Seq<char>)
    requires
        history.wf(),
    ensures
        history.after_load(text).wf(),
        history.after_load(text).commands.len() == (if history.commands.len() + entries_of(
            text,
        ).len() > history.max_entries {
            history.max_entries
        } else {
            history.commands.len() + entries_of(text).len()
        }),
{
}

/// No entry read back from a text is empty or holds a line feed.
pub proof fn entries_are_lines(text: Seq<char>, i: int)
    requires
        0 <= i < entries_of(text).len(),
    ensures
        entries_of(text)[i].len() > 0,
        !entries_of(text)[i].contains('\n'),
    decreases text.len(),
{
    let end = index_of(text, '\n');
    index_of_bounds(text, '\n');
    let line = if 0 <= end < text.len() { without_return(text.take(end)) } else { text };
    if line.len() > 0 && i == 0 {
        assert forall|j: int| 0 <= j < line.len() implies line[j] != '\n' by {
            assert(line[j] == text[j]);
        }
    } else if end < text.len() {
        let rest = entries_of(text.skip(end + 1));
        if line.len() > 0 {
            assert(entries_of(text)[i] == rest[i - 1]);
            entries_are_lines(text.skip(end + 1), i - 1);
        } else {
            assert(entries_of(text) =~= rest);
            entries_are_lines(text.skip(end + 1), i);
        }
    }
}

/// `index_of` lies within the text, and no `c` comes before it.
pub proof fn index_of_bounds(s: Seq<char>, c: char)
    ensures
        0 <= index_of(s, c) <= s.len(),
        forall|j: int| 0 <= j < index_of(s, c) ==> s[j] != c,
        index_of(s, c) < s.len() ==> s[index_of(s, c)] == c,
    decreases s.len(),
{
    if s.len() > 0 && s[0] != c {
        index_of_bounds(s.skip(1), c);
        assert forall|j: int| 0 <= j < index_of(s, c) implies s[j] != c by {
            if j > 0 {
                assert(s[j] == s.skip(1)[j - 1]);
            }
        }
    }
}

/// Entering a command keeps the history within its bounds and leaves the
/// cursor at the bottom.
pub proof fn entry_keeps_bounds(history: HistoryView, entry: Seq<char>)
    requires
        history.wf(),
    ensures
        history.after_entry(entry).wf(),
        history.after_entry(entry).index == -1,
        history.after_entry(entry).max_entries == history.max_entries,
{
}

/// Stepping keeps the cursor within the history, and a step down undoes a
/// step up that moved.
pub proof fn steps_stay_inside(history: HistoryView, current: Seq<char>)
    requires
        history.wf(),
    ensures
        history.after_previous(current).wf(),
        history.after_next().wf(),
        history.previous_shown() is Some ==> history.after_previous(current).after_next().index
            == history.index,
        history.index == -1 && history.previous_shown() is Some ==> history.after_previous(
            current,
        ).next_shown() == Some(current),
{
}

} // verus!
