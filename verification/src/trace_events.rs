//! The values that a trace event is made of: what it is called, where on
//! the timeline it lies, and how far it reaches.

use vstd::prelude::*;
use vstd::string::*;

verus! {

/// The category and name associated with a trace event. The `category` is
/// used to filter what events get written, and the `name` is used to
/// identify events in a trace viewer.
#[derive(Clone, Copy, Debug, PartialEq, Eq)]
pub struct Label<'a> {
    pub category: &'a str,
    pub name: &'a str,
}

impl<'a> Label<'a> {
    /// Constructs a new `Label` with the given `category` and `name`.
    pub fn new(category: &'a str, name: &'a str) -> (label: Label<'a>)
        ensures
            label.category == category,
            label.name == name,
    {
        Label { category, name }
    }

    /// The label with its two texts owned.
    pub fn to_owned_label(&self) -> (owned: OwnedLabel)
        ensures
            owned.category@ == self.category@,
            owned.name@ == self.name@,
    {
        OwnedLabel {
            category: String::from_str(self.category),
            name: String::from_str(self.name),
        }
    }
}

/// The category and name of a trace event record.
#[derive(Debug, PartialEq)]
pub struct OwnedLabel {
    pub category: String,
    pub name: String,
}

/// A point in the timeline of events including a monotonic timestamp and
/// the thread/process id of the originating trace event.
#[derive(Clone, Copy, Debug, PartialEq, Eq, Structural)]
pub struct Point {
    /// A monotonic timestamp in nanoseconds from an epoch.
    pub ts: u64,
    /// A monotonic timestamp in nanoseconds from an epoch associated with
    /// the thread; never zero.
    pub thread_ts: Option<u64>,
    /// A process id.
    pub pid: u32,
    /// A thread/task id.
    pub tid: u32,
}

impl Point {
    /// Constructs a point for the process `pid` and the thread `tid` at
    /// the time `ts` that the monotonic clock showed.
    pub fn now(ts: u64, pid: u32, tid: u32) -> (point: Point)
        ensures
            point == (Point { ts, thread_ts: None, pid, tid }),
    {
        Point { ts, thread_ts: None, pid, tid }
    }

    /// Constructs a point for the process `pid` and the thread `tid` and
    /// the given timestamp in nanoseconds.
    pub fn from_timestamp(ts: u64, pid: u32, tid: u32) -> (point: Point)
        ensures
            point == (Point { ts, thread_ts: None, pid, tid }),
    {
        Point { ts, thread_ts: None, pid, tid }
    }

    /// The point that ends a duration of `duration` nanoseconds begun
    /// here: the same process and thread, later by the duration, or at the
    /// end of time if that lies before.
    pub open spec fn spec_end_of(self, duration: u64) -> Point {
        Point {
            ts: if self.ts + duration > u64::MAX { u64::MAX } else { (self.ts + duration) as u64 },
            ..self
        }
    }

    /// The point that ends a duration of `duration` nanoseconds begun
    /// here.
    #[verifier::when_used_as_spec(spec_end_of)]
    pub fn end_of(self, duration: u64) -> (end: Point)
        ensures
            end == self.spec_end_of(duration),
    {
        let ts: u64 = if duration > u64::MAX - self.ts { u64::MAX } else { self.ts + duration };
        Point { ts, thread_ts: self.thread_ts, pid: self.pid, tid: self.tid }
    }

    /// The point at which a duration that ends here began at the time
    /// `begin_ts`, and its length, zero if `begin_ts` is later.
    pub fn begin_of(self, begin_ts: u64) -> (span: (Point, u64))
        ensures
            span.0 == (Point { ts: begin_ts, ..self }),
            span.1 == (if self.ts >= begin_ts { self.ts - begin_ts } else { 0 }),
    {
        let length: u64 = if self.ts >= begin_ts { self.ts - begin_ts } else { 0 };
        (Point { ts: begin_ts, thread_ts: self.thread_ts, pid: self.pid, tid: self.tid }, length)
    }
}

impl Default for Point {
    fn default() -> (point: Point)
        ensures
            point == (Point { ts: 0, thread_ts: None, pid: 0, tid: 0 }),
    {
        Point { ts: 0, thread_ts: None, pid: 0, tid: 0 }
    }
}

/// The scope of a trace event.
#[derive(Clone, Copy, Debug, PartialEq, Eq, Structural)]
pub enum Scope {
    /// A local thread scope. This is the default.
    Thread,
    /// A process wide scope.
    Process,
    /// A global (or at least system-wide) scope.
    Global,
}

impl Default for Scope {
    fn default() -> (scope: Scope)
        ensures
            scope == Scope::Thread,
    {
        Scope::Thread
    }
}

impl Scope {
    /// The letter that stands for the scope in a written trace.
    pub fn letter(self) -> (letter: char)
        ensures
            letter == (match self {
                Scope::Global => 'g',
                Scope::Process => 'p',
                Scope::Thread => 't',
            }),
    {
        match self {
            Scope::Global => 'g',
            Scope::Process => 'p',
            Scope::Thread => 't',
        }
    }
}

/// A duration never ends before it begins, and one of length zero ends
/// where it begins.
pub proof fn duration_ends_after_begin(begin: Point, duration: u64)
    ensures
        begin.spec_end_of(duration).ts >= begin.ts,
        begin.spec_end_of(0) == begin,
        begin.spec_end_of(duration).pid == begin.pid,
        begin.spec_end_of(duration).tid == begin.tid,
{
}

} // verus!
