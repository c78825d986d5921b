//! The search job's record store: results parsed and appended in producer
//! emission order, fed by non-blocking reads of the producer's line reader.
use vstd::prelude::*;

use crate::parse::{parse_line, parse_line_spec, Record, RecordModel};

verus! {

/// One outcome of polling the search job's line reader: a complete line, the
/// end of the stream (the reader finished), or nothing available yet.
pub enum ReadEvent {
    Line(Vec<u8>),
    Closed,
    Pending,
}

pub enum ReadEventModel {
    Line(Seq<u8>),
    Closed,
    Pending,
}

impl View for ReadEvent {
    type V = ReadEventModel;

    open spec fn view(&self) -> ReadEventModel {
        match self {
            ReadEvent::Line(l) => ReadEventModel::Line(l@),
            ReadEvent::Closed => ReadEventModel::Closed,
            ReadEvent::Pending => ReadEventModel::Pending,
        }
    }
}

/// The record store of one search job: the parsed results in emission order,
/// and whether the producer's stream has ended.
pub struct Job {
    records: Vec<Record>,
    finished: bool,
}

/// The mathematical image of a `Job`.
#[verifier::ext_equal]
pub struct JobModel {
    pub records: Seq<RecordModel>,
    pub finished: bool,
}

impl View for Job {
    type V = JobModel;

    closed spec fn view(&self) -> JobModel {
        JobModel {
            records: self.records@.map_values(|r: Record| r@),
            finished: self.finished,
        }
    }
}

/// The job after accepting one reader event: a line is parsed and appended,
/// a closed reader marks the job finished, a pending read changes nothing.
pub open spec fn job_step(j: JobModel, ev: ReadEventModel) -> JobModel {
    match ev {
        ReadEventModel::Line(l) => JobModel {
            records: j.records.push(parse_line_spec(l)),
            finished: j.finished,
        },
        ReadEventModel::Closed => JobModel { records: j.records, finished: true },
        ReadEventModel::Pending => j,
    }
}

impl Job {
    /// A fresh job with no results.
    pub fn new() -> (j: Job)
        ensures
            j@ == (JobModel { records: Seq::<RecordModel>::empty(), finished: false }),
    {
        let j = Job { records: Vec::new(), finished: false };
        proof {
            assert(j@ =~= JobModel { records: Seq::<RecordModel>::empty(), finished: false });
        }
        j
    }

    /// How many results have been materialized so far.
    pub fn current_num_results(&self) -> (n: usize)
        ensures
            n == self@.records.len(),
    {
        self.records.len()
    }

    /// Whether the producer's stream has ended.
    pub fn is_finished(&self) -> (b: bool)
        ensures
            b == self@.finished,
    {
        self.finished
    }

    /// The materialized records, in emission order, for rendering.
    pub fn get_results_items(&self) -> (r: &Vec<Record>)
        ensures
            r@.map_values(|x: Record| x@) == self@.records,
    {
        &self.records
    }

    /// The record at `index`; out of range yields no record rather than a
    /// failure.
    pub fn get_result(&self, index: usize) -> (r: Option<&Record>)
        ensures
            match r {
                Some(rec) => index < self@.records.len() && rec@ == self@.records[index as int],
                None => index >= self@.records.len(),
            },
    {
        if index < self.records.len() {
            Some(&self.records[index])
        } else {
            None
        }
    }

    /// Closes the record store: no further lines are expected. Idempotent;
    /// the results stay readable. The caller reaps the producer's process.
    pub fn finalize(&mut self)
        ensures
            final(self)@ == (JobModel { records: old(self)@.records, finished: true }),
    {
        self.finished = true;
    }

    /// Advances the job by one reader event, without blocking; returns
    /// whether a line was consumed.
    pub fn try_read_next_result(&mut self, event: ReadEvent) -> (advanced: bool)
        ensures
            final(self)@ == job_step(old(self)@, event@),
            advanced == (event@ is Line),
    {
        match event {
            ReadEvent::Line(l) => {
                let rec = parse_line(l);
                self.records.push(rec);
                proof {
                    assert(self.records@.map_values(|r: Record| r@) =~= old(
                        self,
                    ).records@.map_values(|r: Record| r@).push(rec@));
                }
                true
            },
            ReadEvent::Closed => {
                self.finalize();
                false
            },
            ReadEvent::Pending => false,
        }
    }
}

/// The job after accepting a sequence of lines, one at a time.
pub open spec fn job_after_lines(j: JobModel, lines: Seq<Seq<u8>>) -> JobModel
    decreases lines.len(),
{
    if lines.len() == 0 {
        j
    } else {
        job_after_lines(job_step(j, ReadEventModel::Line(lines[0])), lines.drop_first())
    }
}

/// Order preservation: however many reads it took, after accepting lines
/// L1..Ln the record sequence is the parses of L1..Ln in that order, appended
/// after whatever was already there; results are never reordered or dropped.
pub proof fn lemma_order_preservation(j: JobModel, lines: Seq<Seq<u8>>)
    ensures
        job_after_lines(j, lines).records == j.records + lines.map_values(
            |l: Seq<u8>| parse_line_spec(l),
        ),
        job_after_lines(j, lines).finished == j.finished,
    decreases lines.len(),
{
    if lines.len() == 0 {
        assert(j.records + lines.map_values(|l: Seq<u8>| parse_line_spec(l)) =~= j.records);
    } else {
        let j1 = job_step(j, ReadEventModel::Line(lines[0]));
        lemma_order_preservation(j1, lines.drop_first());
        assert(j1.records + lines.drop_first().map_values(|l: Seq<u8>| parse_line_spec(l))
            =~= j.records + lines.map_values(|l: Seq<u8>| parse_line_spec(l)));
    }
}

/// Batching is immaterial: draining two batches one after the other leaves
/// the job exactly as draining their concatenation would, so tick boundaries
/// and batch sizes cannot change the result sequence.
pub proof fn lemma_batching_immaterial(j: JobModel, a: Seq<Seq<u8>>, b: Seq<Seq<u8>>)
    ensures
        job_after_lines(j, a + b) == job_after_lines(job_after_lines(j, a), b),
{
    let f = |l: Seq<u8>| parse_line_spec(l);
    lemma_order_preservation(j, a + b);
    lemma_order_preservation(j, a);
    lemma_order_preservation(job_after_lines(j, a), b);
    assert((a + b).map_values(f) =~= a.map_values(f) + b.map_values(f));
    assert(job_after_lines(j, a + b) =~= job_after_lines(job_after_lines(j, a), b));
}

} // verus!
