//! The orchestrator: holds the current options, the live search job, the
//! pending preview render and the selection, and turns user input and reader
//! events into state changes plus directives — the spawns and kills the
//! surrounding program must carry out. At most one search job and at most one
//! preview render are ever live; a superseded job is killed before its
//! replacement is spawned, and output of a superseded preview is never
//! surfaced.
use vstd::prelude::*;

use crate::job::{job_step, Job, JobModel, ReadEvent, ReadEventModel};
use crate::options::{
    editor_command, editor_command_spec, preview_args, preview_args_spec, search_args,
    search_args_spec, Options, OptionsModel,
};
use crate::parse::Record;
use crate::preview::{
    preview_artifact, Preview, PreviewJob, PreviewJobModel, PreviewModel, PreviewOutcome,
    PreviewOutcomeModel,
};
use crate::text::views_of;

verus! {

/// How many pending search lines one tick drains at most: the backpressure
/// bound that keeps per-tick work finite however fast the producer is.
pub const DRAIN_BATCH: usize = 10;

/// A request to spawn the search subprocess under a fresh job id.
pub struct SearchSpawn {
    pub id: u64,
    pub args: Vec<String>,
}

#[verifier::ext_equal]
pub struct SearchSpawnModel {
    pub id: u64,
    pub args: Seq<Seq<char>>,
}

impl View for SearchSpawn {
    type V = SearchSpawnModel;

    open spec fn view(&self) -> SearchSpawnModel {
        SearchSpawnModel { id: self.id, args: views_of(self.args@) }
    }
}

/// A request to spawn the preview renderer under a fresh job id.
pub struct PreviewSpawn {
    pub id: u64,
    pub args: Vec<String>,
}

#[verifier::ext_equal]
pub struct PreviewSpawnModel {
    pub id: u64,
    pub args: Seq<Seq<char>>,
}

impl View for PreviewSpawn {
    type V = PreviewSpawnModel;

    open spec fn view(&self) -> PreviewSpawnModel {
        PreviewSpawnModel { id: self.id, args: views_of(self.args@) }
    }
}

/// What the caller must carry out after a manager transition: kill the named
/// superseded subprocesses, then perform the requested spawns. `executed`
/// reports that an option change was applied this tick (the caller skips
/// draining); `advanced` reports that a reader event consumed a line (the
/// caller may poll again, up to `DRAIN_BATCH` times); `redraw` asks for an
/// immediate repaint.
pub struct Directives {
    pub kill_search: Option<u64>,
    pub spawn_search: Option<SearchSpawn>,
    pub kill_preview: Option<u64>,
    pub spawn_preview: Option<PreviewSpawn>,
    pub executed: bool,
    pub advanced: bool,
    pub redraw: bool,
}

#[verifier::ext_equal]
pub struct DirectivesModel {
    pub kill_search: Option<u64>,
    pub spawn_search: Option<SearchSpawnModel>,
    pub kill_preview: Option<u64>,
    pub spawn_preview: Option<PreviewSpawnModel>,
    pub executed: bool,
    pub advanced: bool,
    pub redraw: bool,
}

impl View for Directives {
    type V = DirectivesModel;

    open spec fn view(&self) -> DirectivesModel {
        DirectivesModel {
            kill_search: self.kill_search,
            spawn_search: match self.spawn_search {
                Some(s) => Some(s@),
                None => None,
            },
            kill_preview: self.kill_preview,
            spawn_preview: match self.spawn_preview {
                Some(s) => Some(s@),
                None => None,
            },
            executed: self.executed,
            advanced: self.advanced,
            redraw: self.redraw,
        }
    }
}

/// A transition that demands nothing of the caller.
pub open spec fn no_directives() -> DirectivesModel {
    DirectivesModel {
        kill_search: None,
        spawn_search: None,
        kill_preview: None,
        spawn_preview: None,
        executed: false,
        advanced: false,
        redraw: false,
    }
}

impl Directives {
    fn empty() -> (d: Directives)
        ensures
            d@ == no_directives(),
    {
        Directives {
            kill_search: None,
            spawn_search: None,
            kill_preview: None,
            spawn_preview: None,
            executed: false,
            advanced: false,
            redraw: false,
        }
    }
}

/// The orchestrator's state.
pub struct Manager {
    should_execute: bool,
    should_rerender: bool,
    pub show_preview: bool,
    options: Options,
    job: Option<Job>,
    search_id: Option<u64>,
    preview_job: Option<PreviewJob>,
    selection_index: Option<usize>,
    selection_preview: Option<Preview>,
    next_id: u64,
}

/// The mathematical image of a `Manager`.
#[verifier::ext_equal]
pub struct ManagerModel {
    pub should_execute: bool,
    pub should_rerender: bool,
    pub show_preview: bool,
    pub options: OptionsModel,
    pub job: Option<JobModel>,
    pub search_id: Option<u64>,
    pub preview_job: Option<PreviewJobModel>,
    pub selection_index: Option<usize>,
    pub selection_preview: Option<PreviewModel>,
    pub next_id: u64,
}

impl View for Manager {
    type V = ManagerModel;

    closed spec fn view(&self) -> ManagerModel {
        ManagerModel {
            should_execute: self.should_execute,
            should_rerender: self.should_rerender,
            show_preview: self.show_preview,
            options: self.options@,
            job: match self.job {
                Some(j) => Some(j@),
                None => None,
            },
            search_id: self.search_id,
            preview_job: match self.preview_job {
                Some(p) => Some(p@),
                None => None,
            },
            selection_index: self.selection_index,
            selection_preview: match self.selection_preview {
                Some(p) => Some(p@),
                None => None,
            },
            next_id: self.next_id,
        }
    }
}

impl ManagerModel {
    /// Well-formedness: a selection always points into the current job's
    /// results, and every issued job id is below the id counter.
    pub open spec fn wf(self) -> bool {
        &&& (self.selection_index matches Some(i) ==> self.job is Some && (i as int)
            < self.job->0.records.len())
        &&& (self.search_id matches Some(id) ==> id < self.next_id)
        &&& (self.preview_job matches Some(p) ==> p.id < self.next_id)
    }
}

/// The state a fresh manager starts in: no query, no jobs, no selection,
/// preview pane enabled, one initial repaint owed.
pub open spec fn initial_manager() -> ManagerModel {
    ManagerModel {
        should_execute: false,
        should_rerender: true,
        show_preview: true,
        options: OptionsModel { show_hidden: false, prompt: Seq::empty(), glob: Seq::empty() },
        job: None,
        search_id: None,
        preview_job: None,
        selection_index: None,
        selection_preview: None,
        next_id: 0,
    }
}

/// An option change only records the new options and marks the search dirty;
/// no job is touched before the next tick.
pub open spec fn set_prompt_tr(m: ManagerModel, prompt: Seq<char>) -> ManagerModel {
    ManagerModel {
        options: OptionsModel { prompt, ..m.options },
        should_execute: true,
        ..m
    }
}

pub open spec fn set_glob_tr(m: ManagerModel, glob: Seq<char>) -> ManagerModel {
    ManagerModel { options: OptionsModel { glob, ..m.options }, should_execute: true, ..m }
}

pub open spec fn toggle_hidden_tr(m: ManagerModel) -> ManagerModel {
    ManagerModel {
        options: OptionsModel { show_hidden: !m.options.show_hidden, ..m.options },
        should_execute: true,
        ..m
    }
}

/// Discards any pending preview render (killing its process) and the shown
/// artifact, then starts a render for the current selection when the preview
/// pane is on and the selected record carries a path and a line number.
pub open spec fn update_preview_tr(m: ManagerModel) -> (ManagerModel, DirectivesModel) {
    let kill = match m.preview_job {
        Some(p) => Some(p.id),
        None => None,
    };
    let cleared = ManagerModel { preview_job: None, selection_preview: None, ..m };
    let target: Option<(Seq<char>, u32)> = if m.show_preview {
        match m.selection_index {
            Some(i) => match m.job {
                Some(j) => if (i as int) < j.records.len() {
                    match (j.records[i as int].file_path, j.records[i as int].line_number) {
                        (Some(path), Some(n)) => Some((path, n)),
                        _ => None,
                    }
                } else {
                    None
                },
                None => None,
            },
            None => None,
        }
    } else {
        None
    };
    match target {
        Some((path, n)) => (
            ManagerModel {
                preview_job: Some(PreviewJobModel { id: m.next_id, line_number: n }),
                next_id: (m.next_id + 1) as u64,
                ..cleared
            },
            DirectivesModel {
                kill_preview: kill,
                spawn_preview: Some(
                    PreviewSpawnModel {
                        id: m.next_id,
                        args: preview_args_spec(path, Some(n)),
                    },
                ),
                ..no_directives()
            },
        ),
        None => (cleared, DirectivesModel { kill_preview: kill, ..no_directives() }),
    }
}

/// Moves the selection and refreshes the preview for it.
pub open spec fn select_tr(m: ManagerModel, selection: Option<usize>) -> (
    ManagerModel,
    DirectivesModel,
) {
    update_preview_tr(
        ManagerModel { selection_index: selection, should_rerender: true, ..m },
    )
}

/// Bounded move down: from no selection to the first result when one exists;
/// otherwise one step, stopping at the last currently-known result. No
/// wraparound.
pub open spec fn next_tr(m: ManagerModel) -> (ManagerModel, DirectivesModel) {
    match m.job {
        None => (m, no_directives()),
        Some(j) => match m.selection_index {
            None => if j.records.len() > 0 {
                select_tr(m, Some(0))
            } else {
                (m, no_directives())
            },
            Some(i) => if i + 1 < j.records.len() {
                select_tr(m, Some((i + 1) as usize))
            } else {
                (m, no_directives())
            },
        },
    }
}

/// Bounded move up: one step, stopping at the first result. No wraparound,
/// and no effect without a selection.
pub open spec fn prev_tr(m: ManagerModel) -> (ManagerModel, DirectivesModel) {
    match m.selection_index {
        Some(i) => if i > 0 {
            select_tr(m, Some((i - 1) as usize))
        } else {
            (m, no_directives())
        },
        None => (m, no_directives()),
    }
}

/// Flips the preview pane and re-evaluates the preview for the current
/// selection: a render starts when now enabled, a pending one is discarded
/// when now disabled.
pub open spec fn toggle_preview_tr(m: ManagerModel) -> (ManagerModel, DirectivesModel) {
    update_preview_tr(
        ManagerModel { show_preview: !m.show_preview, should_rerender: true, ..m },
    )
}

/// The option-changed transition, run at most once per tick: clear selection
/// and preview, finalize the superseded search job, and spawn a new one
/// exactly when the query is nonempty.
pub open spec fn execute_tr(m: ManagerModel) -> (ManagerModel, DirectivesModel) {
    let (m1, d1) = select_tr(m, None);
    let kill_search = m1.search_id;
    let m2 = ManagerModel { job: None, search_id: None, ..m1 };
    let (m3, spawn_search) = if m.options.prompt.len() > 0 {
        (
            ManagerModel {
                job: Some(JobModel { records: Seq::empty(), finished: false }),
                search_id: Some(m2.next_id),
                next_id: (m2.next_id + 1) as u64,
                ..m2
            },
            Some(SearchSpawnModel { id: m2.next_id, args: search_args_spec(m.options) }),
        )
    } else {
        (m2, None)
    };
    (
        ManagerModel { should_execute: false, should_rerender: false, ..m3 },
        DirectivesModel {
            kill_search,
            spawn_search,
            kill_preview: d1.kill_preview,
            spawn_preview: None,
            executed: true,
            advanced: false,
            redraw: true,
        },
    )
}

/// One tick's job-control phase: when an option change is pending, run the
/// option-changed transition; otherwise leave the state for the drain phase.
pub open spec fn update_tr(m: ManagerModel) -> (ManagerModel, DirectivesModel) {
    if m.should_execute {
        execute_tr(m)
    } else {
        (m, no_directives())
    }
}

/// Feeds one outcome of polling the search reader to the job: a line is
/// parsed and appended; a closed reader finishes the job and asks the caller
/// to reap the process; nothing pending changes nothing.
pub open spec fn read_search_tr(m: ManagerModel, ev: ReadEventModel) -> (
    ManagerModel,
    DirectivesModel,
) {
    match m.job {
        None => (m, no_directives()),
        Some(j) => {
            let advanced = ev is Line;
            let closed = ev is Closed;
            (
                ManagerModel {
                    job: Some(job_step(j, ev)),
                    should_rerender: m.should_rerender || advanced,
                    search_id: if closed {
                        None
                    } else {
                        m.search_id
                    },
                    ..m
                },
                DirectivesModel {
                    kill_search: if closed {
                        m.search_id
                    } else {
                        None
                    },
                    advanced,
                    ..no_directives()
                },
            )
        },
    }
}

/// Accepts one completed preview render. Only output carrying the pending
/// render's id is surfaced; anything else — in particular output of a
/// superseded render — is dropped unread.
pub open spec fn read_preview_tr(m: ManagerModel, id: u64, out: PreviewOutcomeModel) -> ManagerModel {
    match m.preview_job {
        Some(p) => if p.id == id {
            ManagerModel {
                selection_preview: Some(preview_artifact(p, out)),
                preview_job: None,
                should_rerender: true,
                ..m
            }
        } else {
            m
        },
        None => m,
    }
}

/// Ends one tick: reports whether anything since the last tick warrants a
/// repaint, and resets the flag.
pub open spec fn end_tick_tr(m: ManagerModel) -> (ManagerModel, bool) {
    (ManagerModel { should_rerender: false, ..m }, m.should_rerender)
}

/// The target the current selection points at, when it is actionable: the
/// record's path, with its line number when one was parsed.
pub open spec fn open_target(m: ManagerModel) -> Option<(Seq<char>, Option<u32>)> {
    match m.selection_index {
        Some(i) => match m.job {
            Some(j) => if (i as int) < j.records.len() {
                match j.records[i as int].file_path {
                    Some(path) => Some((path, j.records[i as int].line_number)),
                    None => None,
                }
            } else {
                None
            },
            None => None,
        },
        None => None,
    }
}

impl Manager {
    /// A fresh manager: no query, no jobs, no selection, preview pane on.
    pub fn new() -> (m: Manager)
        ensures
            m@ == initial_manager(),
            m@.wf(),
    {
        let m = Manager {
            should_execute: false,
            should_rerender: true,
            show_preview: true,
            options: Options {
                show_hidden: false,
                prompt: String::new(),
                glob: String::new(),
            },
            job: None,
            search_id: None,
            preview_job: None,
            selection_index: None,
            selection_preview: None,
            next_id: 0,
        };
        proof {
            assert(m@ =~= initial_manager());
        }
        m
    }

    /// Records a new query; the search is re-executed on the next tick.
    pub fn set_prompt(&mut self, prompt: String)
        requires
            old(self)@.wf(),
        ensures
            final(self)@ == set_prompt_tr(old(self)@, prompt@),
            final(self)@.wf(),
    {
        self.options.prompt = prompt;
        self.should_execute = true;
        proof {
            assert(self@ =~= set_prompt_tr(old(self)@, prompt@));
        }
    }

    /// Records a new glob field; the search is re-executed on the next tick.
    pub fn set_glob(&mut self, glob: String)
        requires
            old(self)@.wf(),
        ensures
            final(self)@ == set_glob_tr(old(self)@, glob@),
            final(self)@.wf(),
    {
        self.options.glob = glob;
        self.should_execute = true;
        proof {
            assert(self@ =~= set_glob_tr(old(self)@, glob@));
        }
    }

    /// Flips hidden-file inclusion; the search is re-executed on the next
    /// tick.
    pub fn toggle_hidden(&mut self)
        requires
            old(self)@.wf(),
        ensures
            final(self)@ == toggle_hidden_tr(old(self)@),
            final(self)@.wf(),
    {
        self.options.show_hidden = !self.options.show_hidden;
        self.should_execute = true;
        proof {
            assert(self@ =~= toggle_hidden_tr(old(self)@));
        }
    }

    /// Whether hidden files are currently searched.
    pub fn is_showing_hidden(&self) -> (r: bool)
        ensures
            r == self@.options.show_hidden,
    {
        self.options.show_hidden
    }

    fn update_preview(&mut self) -> (d: Directives)
        requires
            old(self)@.wf(),
            old(self)@.next_id < u64::MAX,
        ensures
            final(self)@ == update_preview_tr(old(self)@).0,
            d@ == update_preview_tr(old(self)@).1,
            final(self)@.wf(),
    {
        let kill = match &self.preview_job {
            Some(p) => Some(p.id()),
            None => None,
        };
        self.preview_job = None;
        self.selection_preview = None;
        let mut d = Directives::empty();
        d.kill_preview = kill;
        if !self.show_preview {
            proof {
                assert(self@ =~= update_preview_tr(old(self)@).0);
                assert(d@ =~= update_preview_tr(old(self)@).1);
            }
            return d;
        }
        let index = match self.selection_index {
            Some(i) => i,
            None => {
                proof {
                    assert(self@ =~= update_preview_tr(old(self)@).0);
                    assert(d@ =~= update_preview_tr(old(self)@).1);
                }
                return d;
            },
        };
        let spawn_data: Option<(Vec<String>, u32)> = match &self.job {
            Some(j) => match j.get_result(index) {
                Some(rec) => match (&rec.file_path, rec.line_number) {
                    (Some(path), Some(n)) => Some((preview_args(path, Some(n)), n)),
                    _ => None,
                },
                None => None,
            },
            None => None,
        };
        match spawn_data {
            Some((args, n)) => {
                let id = self.next_id;
                self.next_id = id + 1;
                self.preview_job = Some(PreviewJob::new(id, n));
                d.spawn_preview = Some(PreviewSpawn { id, args });
                proof {
                    assert(self@ =~= update_preview_tr(old(self)@).0);
                    assert(d@ =~= update_preview_tr(old(self)@).1);
                }
                d
            },
            None => {
                proof {
                    assert(self@ =~= update_preview_tr(old(self)@).0);
                    assert(d@ =~= update_preview_tr(old(self)@).1);
                }
                d
            },
        }
    }

    fn select(&mut self, selection: Option<usize>) -> (d: Directives)
        requires
            old(self)@.wf(),
            old(self)@.next_id < u64::MAX,
            selection matches Some(i) ==> old(self)@.job is Some && (i as int) < old(
                self,
            )@.job->0.records.len(),
        ensures
            final(self)@ == select_tr(old(self)@, selection).0,
            d@ == select_tr(old(self)@, selection).1,
            final(self)@.wf(),
    {
        self.selection_index = selection;
        self.should_rerender = true;
        self.update_preview()
    }

    /// Moves the selection down by one, bounded at the last known result, and
    /// starts a preview render for the new target.
    pub fn next(&mut self) -> (d: Directives)
        requires
            old(self)@.wf(),
            old(self)@.next_id < u64::MAX,
        ensures
            final(self)@ == next_tr(old(self)@).0,
            d@ == next_tr(old(self)@).1,
            final(self)@.wf(),
    {
        let count = match &self.job {
            Some(j) => j.current_num_results(),
            None => {
                return Directives::empty();
            },
        };
        match self.selection_index {
            None => {
                if count > 0 {
                    self.select(Some(0))
                } else {
                    Directives::empty()
                }
            },
            Some(i) => {
                if i + 1 < count {
                    self.select(Some(i + 1))
                } else {
                    Directives::empty()
                }
            },
        }
    }

    /// Moves the selection up by one, bounded at the first result, and starts
    /// a preview render for the new target.
    pub fn prev(&mut self) -> (d: Directives)
        requires
            old(self)@.wf(),
            old(self)@.next_id < u64::MAX,
        ensures
            final(self)@ == prev_tr(old(self)@).0,
            d@ == prev_tr(old(self)@).1,
            final(self)@.wf(),
    {
        match self.selection_index {
            Some(i) => {
                if i > 0 {
                    self.select(Some(i - 1))
                } else {
                    Directives::empty()
                }
            },
            None => Directives::empty(),
        }
    }

    /// Flips the preview pane and re-evaluates the preview for the current
    /// selection.
    pub fn toggle_preview(&mut self) -> (d: Directives)
        requires
            old(self)@.wf(),
            old(self)@.next_id < u64::MAX,
        ensures
            final(self)@ == toggle_preview_tr(old(self)@).0,
            d@ == toggle_preview_tr(old(self)@).1,
            final(self)@.wf(),
    {
        self.show_preview = !self.show_preview;
        self.should_rerender = true;
        self.update_preview()
    }

    fn execute_job(&mut self) -> (d: Directives)
        requires
            old(self)@.wf(),
            old(self)@.next_id < u64::MAX,
        ensures
            final(self)@ == execute_tr(old(self)@).0,
            d@ == execute_tr(old(self)@).1,
            final(self)@.wf(),
    {
        let mut d = self.select(None);
        d.kill_search = self.search_id;
        self.search_id = None;
        self.job = None;
        if !self.options.prompt.as_str().is_empty() {
            let args = search_args(&self.options);
            let id = self.next_id;
            self.next_id = id + 1;
            self.job = Some(Job::new());
            self.search_id = Some(id);
            d.spawn_search = Some(SearchSpawn { id, args });
        }
        self.should_execute = false;
        self.should_rerender = false;
        d.executed = true;
        d.redraw = true;
        proof {
            assert(self@ =~= execute_tr(old(self)@).0);
            assert(d@ =~= execute_tr(old(self)@).1);
        }
        d
    }

    /// One tick's job-control phase: applies a pending option change — at
    /// most one job swap per tick however many options changed — or reports
    /// that the caller should drain reader events instead.
    pub fn update(&mut self) -> (d: Directives)
        requires
            old(self)@.wf(),
            old(self)@.next_id < u64::MAX,
        ensures
            final(self)@ == update_tr(old(self)@).0,
            d@ == update_tr(old(self)@).1,
            final(self)@.wf(),
    {
        if self.should_execute {
            self.execute_job()
        } else {
            Directives::empty()
        }
    }

    /// Feeds one outcome of polling the search reader, without blocking.
    pub fn read_search_event(&mut self, event: ReadEvent) -> (d: Directives)
        requires
            old(self)@.wf(),
        ensures
            final(self)@ == read_search_tr(old(self)@, event@).0,
            d@ == read_search_tr(old(self)@, event@).1,
            final(self)@.wf(),
    {
        let closed = matches!(event, ReadEvent::Closed);
        match &mut self.job {
            None => Directives::empty(),
            Some(j) => {
                let advanced = j.try_read_next_result(event);
                if advanced {
                    self.should_rerender = true;
                }
                let mut d = Directives::empty();
                d.advanced = advanced;
                if closed {
                    d.kill_search = self.search_id;
                    self.search_id = None;
                }
                proof {
                    assert(self@ =~= read_search_tr(old(self)@, event@).0);
                    assert(d@ =~= read_search_tr(old(self)@, event@).1);
                }
                d
            },
        }
    }

    /// Accepts one completed preview render; output whose id is not the
    /// pending render's is dropped unread. Returns whether an artifact was
    /// accepted.
    pub fn read_preview_event(&mut self, id: u64, outcome: PreviewOutcome) -> (accepted: bool)
        requires
            old(self)@.wf(),
        ensures
            final(self)@ == read_preview_tr(old(self)@, id, outcome@),
            accepted == (old(self)@.preview_job matches Some(p) && p.id == id),
            final(self)@.wf(),
    {
        match &self.preview_job {
            Some(pj) => match pj.try_recv_preview(id, outcome) {
                Some(p) => {
                    self.selection_preview = Some(p);
                    self.preview_job = None;
                    self.should_rerender = true;
                    proof {
                        assert(self@ =~= read_preview_tr(old(self)@, id, outcome@));
                    }
                    true
                },
                None => false,
            },
            None => false,
        }
    }

    /// Ends one tick: whether anything since the last repaint warrants a new
    /// one.
    pub fn end_tick(&mut self) -> (redraw: bool)
        requires
            old(self)@.wf(),
        ensures
            final(self)@ == end_tick_tr(old(self)@).0,
            redraw == end_tick_tr(old(self)@).1,
            final(self)@.wf(),
    {
        let r = self.should_rerender;
        self.should_rerender = false;
        proof {
            assert(self@ =~= end_tick_tr(old(self)@).0);
        }
        r
    }

    /// The materialized records of the current search, when one exists.
    pub fn get_list(&self) -> (r: Option<&Vec<Record>>)
        ensures
            match r {
                Some(v) => self@.job is Some && v@.map_values(|x: Record| x@)
                    == self@.job->0.records,
                None => self@.job is None,
            },
    {
        match &self.job {
            Some(j) => Some(j.get_results_items()),
            None => None,
        }
    }

    /// The selection index, for highlighting the selected row.
    pub fn get_list_state(&self) -> (r: Option<usize>)
        ensures
            r == self@.selection_index,
    {
        self.selection_index
    }

    /// The preview artifact shown for the current selection, when one has
    /// arrived.
    pub fn get_preview(&self) -> (r: Option<&Preview>)
        ensures
            match r {
                Some(p) => self@.selection_preview == Some(p@),
                None => self@.selection_preview is None,
            },
    {
        match &self.selection_preview {
            Some(p) => Some(p),
            None => None,
        }
    }

    /// The editor command for the current selection, when it is actionable;
    /// the caller runs it through a shell and restarts the terminal session.
    pub fn open_selection(&self) -> (r: Option<String>)
        ensures
            match open_target(self@) {
                Some(target) => r is Some && (r->0)@ == editor_command_spec(target.0, target.1),
                None => r is None,
            },
    {
        let index = match self.selection_index {
            Some(i) => i,
            None => {
                return None;
            },
        };
        let job = match &self.job {
            Some(j) => j,
            None => {
                return None;
            },
        };
        match job.get_result(index) {
            Some(rec) => match (&rec.file_path, rec.line_number) {
                (Some(path), line) => Some(editor_command(path, line)),
                (None, _) => None,
            },
            None => None,
        }
    }
}

} // verus!
