//! The single writer of a pull: it takes batches as they arrive, writes one
//! line for each record, counts them, and stops the run at the limit.
use vstd::prelude::*;
use crate::elastic::{texts, Hit};

verus! {

/// The most records a sink writes. Without a limit that is the most a count
/// can hold.
pub open spec fn cap(limit: Option<u64>) -> u64 {
    match limit {
        Some(l) => l,
        None => u64::MAX,
    }
}

/// The records of a run of batches, in the order of arrival.
pub open spec fn all_records(batches: Seq<Vec<Hit>>) -> Seq<Seq<char>>
    decreases batches.len(),
{
    if batches.len() == 0 {
        Seq::empty()
    } else {
        all_records(batches.drop_last()) + texts(batches.last()@)
    }
}

/// The line written for a record: its text and a newline.
pub open spec fn line_of(record: Seq<char>) -> Seq<char> {
    record + "\n"@
}

/// The lines written for a run of records, one for each, in order.
pub open spec fn lines_of(records: Seq<Seq<char>>) -> Seq<Seq<char>> {
    records.map_values(|r: Seq<char>| line_of(r))
}

/// The texts of the lines that a destination holds.
pub open spec fn held(output: Seq<String>) -> Seq<Seq<char>> {
    output.map_values(|s: String| s@)
}

/// The number of records a sink writes of `available`: all of them, or as
/// many as the limit allows.
pub open spec fn written_of(limit: Option<u64>, available: nat) -> nat {
    if available <= cap(limit) {
        available
    } else {
        cap(limit) as nat
    }
}

/// What a sink writes of a run of batches: the lines of the first records,
/// as many as the limit allows.
pub open spec fn sink_output(limit: Option<u64>, batches: Seq<Vec<Hit>>) -> Seq<Seq<char>> {
    lines_of(
        all_records(batches).take(written_of(limit, all_records(batches).len()) as int),
    )
}

/// Whether a sink stops the run: it does when a record arrives after the
/// limit has been reached.
pub open spec fn sink_stops(limit: Option<u64>, batches: Seq<Vec<Hit>>) -> bool {
    all_records(batches).len() > cap(limit)
}

/// The line that reports a failed write.
pub open spec fn write_report(detail: Seq<char>) -> Seq<char> {
    "Write error: "@ + detail
}

/// The state of the writer: the limit, the records written so far, and
/// whether it has raised the stop flag.
#[derive(Clone, Copy, Debug)]
pub struct Sink {
    pub limit: Option<u64>,
    pub written: u64,
    pub stopped: bool,
}

impl Sink {
    /// A sink never holds more than its limit.
    pub open spec fn wf(&self) -> bool {
        self.written <= cap(self.limit)
    }

    /// A sink that has written nothing.
    pub fn new(limit: Option<u64>) -> (s: Sink)
        ensures
            s.wf(),
            s.limit == limit,
            s.written == 0,
            !s.stopped,
    {
        Sink { limit, written: 0, stopped: false }
    }

    /// Asked before each record: may it be written? Not once the sink has
    /// stopped, and not once the limit is reached; the record that arrives
    /// then raises the stop flag, and it and all that follow are dropped.
    pub fn accepts(&mut self) -> (go: bool)
        ensures
            final(self).limit == old(self).limit,
            final(self).written == old(self).written,
            go == (!old(self).stopped && old(self).written < cap(old(self).limit)),
            final(self).stopped == !go,
    {
        if self.stopped {
            return false;
        }
        let full = match self.limit {
            Some(l) => self.written >= l,
            None => self.written == u64::MAX,
        };
        if full {
            self.stopped = true;
        }
        !full
    }

    /// Counts a record that was written.
    pub fn record_written(&mut self)
        requires
            old(self).written < cap(old(self).limit),
        ensures
            final(self).limit == old(self).limit,
            final(self).stopped == old(self).stopped,
            final(self).written == old(self).written + 1,
            final(self).wf(),
    {
        self.written = self.written + 1;
    }

    /// Takes the failure of a write: the sink stops and raises the stop flag;
    /// what was written stays counted. The failure is reported, unless the
    /// reader of the output has closed it, which ends the run without fault.
    pub fn write_failed(&mut self, broken_pipe: bool, detail: &str) -> (r: Option<String>)
        ensures
            final(self).limit == old(self).limit,
            final(self).written == old(self).written,
            final(self).stopped,
            match r {
                Some(line) => !broken_pipe && line@ == write_report(detail@),
                None => broken_pipe,
            },
    {
        self.stopped = true;
        if broken_pipe {
            None
        } else {
            Some(String::from_str("Write error: ").concat(detail))
        }
    }

    /// Whether the run ended because the limit was reached.
    pub fn reached_limit(&self) -> (r: bool)
        ensures
            r == (self.limit matches Some(l) && self.written >= l),
    {
        match self.limit {
            Some(l) => self.written >= l,
            None => false,
        }
    }
}

/// The line for one record.
pub fn record_line(doc: &Hit) -> (r: String)
    ensures
        r@ == line_of(doc._source@),
{
    doc._source.clone().concat("\n")
}

/// The records of the first batches of a run open the records of the run.
pub proof fn lemma_records_prefix(batches: Seq<Vec<Hit>>, i: int)
    requires
        0 <= i <= batches.len(),
    ensures
        all_records(batches.take(i)).len() <= all_records(batches).len(),
        all_records(batches).take(all_records(batches.take(i)).len() as int) == all_records(
            batches.take(i),
        ),
    decreases batches.len() - i,
{
    if i == batches.len() {
        assert(batches.take(i) =~= batches);
        assert(all_records(batches).take(all_records(batches).len() as int) =~= all_records(batches));
    } else {
        let front = batches.drop_last();
        lemma_records_prefix(front, i);
        assert(front.take(i) =~= batches.take(i));
        let part = all_records(batches.take(i));
        assert(all_records(batches) == all_records(front) + texts(batches.last()@));
        assert(all_records(batches).take(part.len() as int) =~= all_records(front).take(
            part.len() as int,
        ));
    }
}

/// Drains a run of batches into `output`, one line for each record, in the
/// order of arrival, up to the limit. Returns the number of records written,
/// and whether the stop flag was raised: it is when a record arrives after
/// the limit has been reached, and then that record and all after it are
/// dropped.
pub fn sink(limit: Option<u64>, batches: &Vec<Vec<Hit>>, output: &mut Vec<String>) -> (r: (u64, bool))
    ensures
        r.0 == written_of(limit, all_records(batches@).len()),
        r.1 == sink_stops(limit, batches@),
        held(final(output)@) == held(old(output)@) + sink_output(limit, batches@),
{
    let mut state = Sink::new(limit);
    let ghost all = all_records(batches@);
    let ghost before = held(output@);
    let mut i: usize = 0;
    assert(batches@.take(0) =~= Seq::<Vec<Hit>>::empty());
    assert(held(output@) =~= before + lines_of(Seq::<Seq<char>>::empty()));
    while i < batches.len()
        invariant
            i <= batches.len(),
            all == all_records(batches@),
            state.limit == limit,
            !state.stopped,
            state.wf(),
            state.written == all_records(batches@.take(i as int)).len(),
            before == held(old(output)@),
            held(output@) == before + lines_of(all_records(batches@.take(i as int))),
        decreases batches.len() - i,
    {
        let batch = &batches[i];
        let ghost done = all_records(batches@.take(i as int));
        proof {
            lemma_records_prefix(batches@, i + 1);
            assert(batches@.take(i + 1).drop_last() =~= batches@.take(i as int));
            assert(batches@.take(i + 1).last() == batches@[i as int]);
            assert(all_records(batches@.take(i + 1)) == done + texts(batch@));
            assert(texts(batch@).take(0) =~= Seq::<Seq<char>>::empty());
            assert(done + texts(batch@).take(0) =~= done);
        }
        let mut j: usize = 0;
        while j < batch.len()
            invariant
                j <= batch.len(),
                i < batches.len(),
                batch == &batches@[i as int],
                all == all_records(batches@),
                done == all_records(batches@.take(i as int)),
                all_records(batches@.take(i + 1)) == done + texts(batch@),
                all_records(batches@.take(i + 1)).len() <= all.len(),
                all.take(all_records(batches@.take(i + 1)).len() as int) == all_records(
                    batches@.take(i + 1),
                ),
                state.limit == limit,
                !state.stopped,
                state.wf(),
                state.written == done.len() + j,
                before == held(old(output)@),
                held(output@) == before + lines_of(done + texts(batch@).take(j as int)),
            decreases batch.len() - j,
        {
            let ghost arrived = done + texts(batch@).take(j as int);
            if !state.accepts() {
                proof {
                    assert(state.written == cap(limit));
                    assert(arrived.len() == cap(limit));
                    assert(all.len() > cap(limit));
                    assert(all.take(cap(limit) as int) =~= arrived) by {
                        let whole = done + texts(batch@);
                        assert(all.take(whole.len() as int) == whole);
                        assert forall|k: int| 0 <= k < arrived.len() implies all.take(
                            cap(limit) as int,
                        )[k] == arrived[k] by {
                            assert(all.take(whole.len() as int)[k] == whole[k]);
                        }
                    }
                }
                return (state.written, true);
            }
            let ghost earlier = output@;
            let line = record_line(&batch[j]);
            output.push(line);
            state.record_written();
            proof {
                let next = done + texts(batch@).take(j + 1);
                assert(held(output@) =~= held(earlier).push(line_of(batch@[j as int]._source@)));
                assert(next =~= arrived.push(batch@[j as int]._source@));
                assert(lines_of(next) =~= lines_of(arrived).push(line_of(batch@[j as int]._source@)));
                assert(held(output@) =~= before + lines_of(next));
            }
            j += 1;
        }
        proof {
            assert(texts(batch@).take(batch@.len() as int) =~= texts(batch@));
        }
        i += 1;
    }
    proof {
        assert(batches@.take(batches@.len() as int) =~= batches@);
        assert(all.take(all.len() as int) =~= all);
    }
    (state.written, false)
}

/// A sink under a limit writes exactly the limit where at least that many
/// records arrive, and stops the run where more arrive; where no more arrive
/// than the limit allows, it writes them all and stops nothing.
pub proof fn lemma_limit_is_exact(limit: u64, batches: Seq<Vec<Hit>>)
    ensures
        all_records(batches).len() >= limit ==> sink_output(Some(limit), batches).len() == limit,
        all_records(batches).len() > limit ==> sink_stops(Some(limit), batches),
        all_records(batches).len() <= limit ==> sink_output(Some(limit), batches) == lines_of(
            all_records(batches),
        ) && !sink_stops(Some(limit), batches),
{
    let all = all_records(batches);
    if all.len() <= limit {
        assert(all.take(all.len() as int) =~= all);
    }
}

/// What is written keeps the order of arrival: the line at each place is the
/// line of the record that arrived at that place.
pub proof fn lemma_order_is_kept(limit: Option<u64>, batches: Seq<Vec<Hit>>, k: int)
    requires
        0 <= k < written_of(limit, all_records(batches).len()),
    ensures
        sink_output(limit, batches).len() == written_of(limit, all_records(batches).len()),
        sink_output(limit, batches)[k] == line_of(all_records(batches)[k]),
{
}

/// The records of one batch after another are those of the first, then
/// those of the second.
pub proof fn lemma_records_concat(first: Seq<Vec<Hit>>, second: Seq<Vec<Hit>>)
    ensures
        all_records(first + second) == all_records(first) + all_records(second),
    decreases second.len(),
{
    if second.len() == 0 {
        assert(first + second =~= first);
        assert(all_records(first) + all_records(second) =~= all_records(first));
    } else {
        lemma_records_concat(first, second.drop_last());
        assert((first + second).drop_last() =~= first + second.drop_last());
        assert((first + second).last() == second.last());
        assert(all_records(first + second) =~= all_records(first) + all_records(second));
    }
}

} // verus!
