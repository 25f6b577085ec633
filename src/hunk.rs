use vstd::prelude::*;

verus! {

/// One side of a diff hunk: a file and the lines of it that the hunk spans.
pub struct HunkLocation {
    pub file: String,
    /// The 1-based line at which the hunk starts.
    pub line: usize,
    /// The number of lines that the hunk spans.
    pub count: usize,
}

/// A diff hunk: where it comes from and where it goes to.
///
/// Only the destination side decides what gets formatted; the source side is
/// carried along unread.
pub struct Hunk {
    pub source: HunkLocation,
    pub destination: HunkLocation,
}

/// A line range handed to the formatter, as `start:end`.
#[derive(Clone, Copy, Debug, PartialEq, Eq)]
pub struct LineRange {
    pub start: usize,
    pub end: usize,
}

impl View for LineRange {
    type V = (int, int);

    open spec fn view(&self) -> (int, int) {
        (self.start as int, self.end as int)
    }
}

/// The range that a location covers: from its first line to its first line
/// plus its count.
pub open spec fn span(loc: HunkLocation) -> (int, int) {
    (loc.line as int, loc.line + loc.count)
}

/// Each hunk's destination range can be written with machine integers.
pub open spec fn spans_fit(hunks: Seq<Hunk>) -> bool {
    forall|k: int|
        0 <= k < hunks.len() ==> #[trigger] hunks[k].destination.line + hunks[k].destination.count
            <= usize::MAX
}

/// Whether each hunk's destination range can be written with machine
/// integers, as the formatting run asks.
pub fn ranges_fit(hunks: &Vec<Hunk>) -> (r: bool)
    ensures
        r == spans_fit(hunks@),
{
    let mut i: usize = 0;
    while i < hunks.len()
        invariant
            i <= hunks@.len(),
            forall|k: int|
                0 <= k < i ==> #[trigger] hunks@[k].destination.line + hunks@[k].destination.count
                    <= usize::MAX,
        decreases hunks@.len() - i,
    {
        let d = &hunks[i].destination;
        if d.count > usize::MAX - d.line {
            assert(hunks@[i as int].destination.line + hunks@[i as int].destination.count
                > usize::MAX);
            return false;
        }
        i = i + 1;
    }
    true
}

impl HunkLocation {
    pub fn new(file: String, line: usize, count: usize) -> (r: HunkLocation)
        ensures
            r.file@ == file@,
            r.line == line,
            r.count == count,
    {
        HunkLocation { file, line, count }
    }

    /// The range of lines that this location covers, `line:(line + count)`.
    pub fn range(&self) -> (r: LineRange)
        requires
            self.line + self.count <= usize::MAX,
        ensures
            r@ == span(*self),
    {
        LineRange { start: self.line, end: self.line + self.count }
    }
}

impl Hunk {
    pub fn new(source: HunkLocation, destination: HunkLocation) -> (r: Hunk)
        ensures
            r == (Hunk { source, destination }),
    {
        Hunk { source, destination }
    }
}

} // verus!
