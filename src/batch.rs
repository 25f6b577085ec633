use vstd::prelude::*;

use crate::hunk::{span, spans_fit, Hunk, LineRange};

verus! {

/// A run of consecutive hunks with one destination file, and their ranges in
/// the order in which the hunks came.
pub struct Batch {
    pub file: String,
    pub ranges: Vec<LineRange>,
}

impl View for Batch {
    type V = (Seq<char>, Seq<(int, int)>);

    open spec fn view(&self) -> (Seq<char>, Seq<(int, int)>) {
        (self.file@, self.ranges@.map_values(|r: LineRange| r@))
    }
}

/// The batches of a hunk sequence: a hunk joins the last batch when that
/// batch is for its destination file, and opens a new batch otherwise.
pub open spec fn batches(hunks: Seq<Hunk>) -> Seq<(Seq<char>, Seq<(int, int)>)>
    decreases hunks.len(),
{
    if hunks.len() == 0 {
        seq![]
    } else {
        let prev = batches(hunks.drop_last());
        let d = hunks.last().destination;
        if prev.len() > 0 && prev.last().0 == d.file@ {
            prev.update(prev.len() - 1, (d.file@, prev.last().1.push(span(d))))
        } else {
            prev.push((d.file@, seq![span(d)]))
        }
    }
}

pub open spec fn batch_views(bs: Seq<Batch>) -> Seq<(Seq<char>, Seq<(int, int)>)> {
    bs.map_values(|b: Batch| b@)
}

/// Group the hunks into batches, one for each maximal run of consecutive
/// hunks that share a destination file.
pub fn batch_hunks(hunks: &Vec<Hunk>) -> (r: Vec<Batch>)
    requires
        spans_fit(hunks@),
    ensures
        batch_views(r@) == batches(hunks@),
{
    let mut done: Vec<Batch> = Vec::new();
    let mut open: Option<Batch> = None;
    let mut i: usize = 0;
    while i < hunks.len()
        invariant
            spans_fit(hunks@),
            i <= hunks.len(),
            i == 0 ==> open is None && done@.len() == 0,
            i > 0 ==> open is Some && batches(hunks@.take(i as int)) == batch_views(done@).push(
                open->0@,
            ),
        decreases hunks.len() - i,
    {
        let d = &hunks[i].destination;
        assert(hunks@.take(i + 1).drop_last() == hunks@.take(i as int));
        let ghost k = i as int;
        assert(hunks@[k].destination.line + hunks@[k].destination.count <= usize::MAX);
        let range = d.range();
        assert(hunks@.take(i + 1).last() == hunks@[k]);
        let ghost prev = batches(hunks@.take(i as int));
        match open {
            Some(mut b) => {
                if b.file == d.file {
                    let ghost before = b@;
                    b.ranges.push(range);
                    assert(b@.1 == before.1.push(span(*d)));
                    assert(prev.update(prev.len() - 1, (d.file@, prev.last().1.push(span(*d))))
                        =~= batch_views(done@).push(b@));
                    open = Some(b);
                } else {
                    let ghost old_done = done@;
                    let ghost bv = b@;
                    done.push(b);
                    assert(batch_views(done@) == batch_views(old_done).push(bv));
                    let mut ranges: Vec<LineRange> = Vec::new();
                    ranges.push(range);
                    let nb = Batch { file: d.file.clone(), ranges };
                    assert(nb@.1 == seq![span(*d)]);
                    assert(prev.last().0 != d.file@);
                    open = Some(nb);
                }
            },
            None => {
                let mut ranges: Vec<LineRange> = Vec::new();
                ranges.push(range);
                let nb = Batch { file: d.file.clone(), ranges };
                assert(nb@.1 == seq![span(*d)]);
                open = Some(nb);
            },
        }
        i = i + 1;
    }
    assert(hunks@.take(i as int) == hunks@);
    match open {
        Some(b) => {
            done.push(b);
        },
        None => {},
    }
    done
}

/// An empty hunk sequence gives no batch, and so no formatter invocation.
pub proof fn lemma_no_hunks_no_batches()
    ensures
        batches(Seq::<Hunk>::empty()).len() == 0,
{
}

/// Hunks that all name one destination file form exactly one batch, which
/// holds every hunk's range in the order of the hunks.
pub proof fn lemma_one_file_one_batch(hunks: Seq<Hunk>, file: Seq<char>)
    requires
        hunks.len() > 0,
        forall|k: int| 0 <= k < hunks.len() ==> #[trigger] hunks[k].destination.file@ == file,
    ensures
        batches(hunks) == seq![(file, hunks.map_values(|h: Hunk| span(h.destination)))],
    decreases hunks.len(),
{
    let last = hunks.last();
    assert(last.destination.file@ == file);
    if hunks.len() == 1 {
        assert(hunks.drop_last().len() == 0);
        assert(batches(hunks.drop_last()).len() == 0);
        assert(hunks.map_values(|h: Hunk| span(h.destination)) =~= seq![span(last.destination)]);
        assert(batches(hunks) =~= seq![(file, seq![span(last.destination)])]);
    } else {
        let init = hunks.drop_last();
        assert forall|k: int| 0 <= k < init.len() implies #[trigger] init[k].destination.file@
            == file by {
            assert(init[k] == hunks[k]);
        }
        lemma_one_file_one_batch(init, file);
        assert(hunks.map_values(|h: Hunk| span(h.destination)) =~= init.map_values(
            |h: Hunk| span(h.destination),
        ).push(span(last.destination)));
        assert(batches(hunks) =~= seq![(file, hunks.map_values(|h: Hunk| span(h.destination)))]);
    }
}

/// Batching goes by contiguity alone: with destination files `A`, `B`, `A`,
/// the two hunks for `A` stay in two batches, one on each side of the batch
/// for `B`.
pub proof fn lemma_interleaved_files_not_merged(first: Hunk, middle: Hunk, last: Hunk)
    requires
        first.destination.file@ == last.destination.file@,
        first.destination.file@ != middle.destination.file@,
    ensures
        batches(seq![first, middle, last]) == seq![
            (first.destination.file@, seq![span(first.destination)]),
            (middle.destination.file@, seq![span(middle.destination)]),
            (last.destination.file@, seq![span(last.destination)]),
        ],
{
    let hs = seq![first, middle, last];
    assert(hs.drop_last() =~= seq![first, middle]);
    assert(seq![first, middle].drop_last() =~= seq![first]);
    assert(seq![first].drop_last() =~= Seq::<Hunk>::empty());
    assert(batches(Seq::<Hunk>::empty()).len() == 0);
    assert(batches(seq![first]) =~= seq![(first.destination.file@, seq![span(first.destination)])]);
    assert(batches(seq![first, middle]) =~= seq![
        (first.destination.file@, seq![span(first.destination)]),
        (middle.destination.file@, seq![span(middle.destination)]),
    ]);
    assert(batches(hs) =~= seq![
        (first.destination.file@, seq![span(first.destination)]),
        (middle.destination.file@, seq![span(middle.destination)]),
        (last.destination.file@, seq![span(last.destination)]),
    ]);
}

} // verus!
