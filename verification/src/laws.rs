//! The orchestration laws, proved of the manager's transitions: at most one
//! live search job, bounded selection moves, preview supersession, and one
//! spawn per tick however many option edits preceded it.
use vstd::prelude::*;

use crate::job::ReadEventModel;
use crate::manager::{
    end_tick_tr, next_tr, no_directives, prev_tr, read_preview_tr, read_search_tr, set_glob_tr,
    set_prompt_tr, toggle_hidden_tr, toggle_preview_tr, update_tr, DirectivesModel, ManagerModel,
};
use crate::options::OptionsModel;
use crate::preview::PreviewOutcomeModel;

verus! {

/// One call into the manager, at the level of the mathematical model.
pub enum StepModel {
    SetPrompt(Seq<char>),
    SetGlob(Seq<char>),
    ToggleHidden,
    Next,
    Prev,
    TogglePreview,
    Update,
    ReadSearch(ReadEventModel),
    ReadPreview(u64, PreviewOutcomeModel),
    EndTick,
}

/// The state and the directives after one call.
pub open spec fn step_tr(m: ManagerModel, s: StepModel) -> (ManagerModel, DirectivesModel) {
    match s {
        StepModel::SetPrompt(p) => (set_prompt_tr(m, p), no_directives()),
        StepModel::SetGlob(g) => (set_glob_tr(m, g), no_directives()),
        StepModel::ToggleHidden => (toggle_hidden_tr(m), no_directives()),
        StepModel::Next => next_tr(m),
        StepModel::Prev => prev_tr(m),
        StepModel::TogglePreview => toggle_preview_tr(m),
        StepModel::Update => update_tr(m),
        StepModel::ReadSearch(ev) => read_search_tr(m, ev),
        StepModel::ReadPreview(id, out) => (read_preview_tr(m, id, out), no_directives()),
        StepModel::EndTick => (end_tick_tr(m).0, no_directives()),
    }
}

/// Every call preserves well-formedness, and issues at most one fresh id.
pub proof fn lemma_step_preserves_wf(m: ManagerModel, s: StepModel)
    requires
        m.wf(),
        m.next_id < u64::MAX,
    ensures
        step_tr(m, s).0.wf(),
        m.next_id <= step_tr(m, s).0.next_id <= m.next_id + 1,
{
}

/// The running search processes after the caller carries out one transition's
/// directives: the job named by the kill is terminated and reaped before the
/// named spawn starts.
pub open spec fn apply_search_directives(running: Set<u64>, d: DirectivesModel) -> Set<u64> {
    let after_kill = match d.kill_search {
        Some(id) => running.remove(id),
        None => running,
    };
    match d.spawn_search {
        Some(s) => after_kill.insert(s.id),
        None => after_kill,
    }
}

/// The tie between the model and the world of processes: every running search
/// process is the single job the manager accounts live.
pub open spec fn search_world_ok(m: ManagerModel, running: Set<u64>) -> bool {
    forall|id: u64| running.contains(id) ==> m.search_id == Some(id)
}

/// At-most-one-job, one step: whatever call is made, once its directives are
/// carried out every running search process is the manager's live job — so
/// two running processes must be the same one, and a superseded process is no
/// longer running.
pub proof fn lemma_at_most_one_search(m: ManagerModel, running: Set<u64>, s: StepModel)
    requires
        m.wf(),
        m.next_id < u64::MAX,
        search_world_ok(m, running),
    ensures
        search_world_ok(step_tr(m, s).0, apply_search_directives(running, step_tr(m, s).1)),
        forall|a: u64, b: u64|
            apply_search_directives(running, step_tr(m, s).1).contains(a)
                && apply_search_directives(running, step_tr(m, s).1).contains(b) ==> a == b,
{
    lemma_step_preserves_wf(m, s);
}

/// The state and the running processes after a sequence of calls, each one's
/// directives carried out in turn.
pub open spec fn run_steps(m: ManagerModel, running: Set<u64>, steps: Seq<StepModel>) -> (
    ManagerModel,
    Set<u64>,
)
    decreases steps.len(),
{
    if steps.len() == 0 {
        (m, running)
    } else {
        let (m1, d1) = step_tr(m, steps[0]);
        run_steps(m1, apply_search_directives(running, d1), steps.drop_first())
    }
}

/// At-most-one-job, any run: for any sequence of calls — option changes,
/// moves, ticks, reads — at most one search process is ever left running, and
/// it is always the job the manager accounts live.
pub proof fn lemma_at_most_one_search_run(
    m: ManagerModel,
    running: Set<u64>,
    steps: Seq<StepModel>,
)
    requires
        m.wf(),
        m.next_id + steps.len() <= u64::MAX,
        search_world_ok(m, running),
    ensures
        search_world_ok(run_steps(m, running, steps).0, run_steps(m, running, steps).1),
        run_steps(m, running, steps).0.wf(),
        forall|a: u64, b: u64|
            run_steps(m, running, steps).1.contains(a) && run_steps(m, running, steps).1.contains(
                b,
            ) ==> a == b,
    decreases steps.len(),
{
    if steps.len() > 0 {
        let (m1, d1) = step_tr(m, steps[0]);
        lemma_at_most_one_search(m, running, steps[0]);
        lemma_step_preserves_wf(m, steps[0]);
        lemma_at_most_one_search_run(m1, apply_search_directives(running, d1), steps.drop_first());
    } else {
        if exists|a: u64| running.contains(a) {
            let a = choose|a: u64| running.contains(a);
            assert(m.search_id == Some(a));
        }
    }
}

/// After the tick that applies a pending option change with a nonempty query,
/// exactly one search process runs: the newly spawned one, under a fresh id.
pub proof fn lemma_tick_leaves_one_search(m: ManagerModel, running: Set<u64>)
    requires
        m.wf(),
        m.next_id < u64::MAX,
        search_world_ok(m, running),
        m.should_execute,
        m.options.prompt.len() > 0,
    ensures
        ({
            let (m2, d) = update_tr(m);
            let running2 = apply_search_directives(running, d);
            &&& d.spawn_search is Some
            &&& m2.search_id == Some(d.spawn_search->0.id)
            &&& running2 =~= Set::empty().insert(d.spawn_search->0.id)
        }),
{
    let (m2, d) = update_tr(m);
    let running2 = apply_search_directives(running, d);
    assert forall|id: u64| running2.contains(id) implies id == d.spawn_search->0.id by {}
}

/// Preview supersession, the spawning half: whenever a call starts a render,
/// the new render becomes the pending one under its own id, and the
/// previously pending render is killed by the same directives and keeps a
/// different id.
pub proof fn lemma_preview_spawn_supersedes(m: ManagerModel, s: StepModel)
    requires
        m.wf(),
        m.next_id < u64::MAX,
    ensures
        ({
            let (m2, d) = step_tr(m, s);
            d.spawn_preview matches Some(sp) ==> {
                &&& m2.preview_job matches Some(p2) && p2.id == sp.id
                &&& (m.preview_job matches Some(p1) ==> d.kill_preview == Some(p1.id) && p1.id
                    != sp.id)
            }
        }),
{
}

/// Preview supersession, the delivery half: output that does not carry the
/// pending render's id — in particular output of a superseded render, whose
/// id is stale — changes nothing; it is never surfaced.
pub proof fn lemma_stale_preview_dropped(m: ManagerModel, id: u64, out: PreviewOutcomeModel)
    requires
        m.preview_job is None || m.preview_job->0.id != id,
    ensures
        read_preview_tr(m, id, out) == m,
{
}

/// Preview supersession, end to end: start render P1, then supersede it with
/// render P2 before P1's output arrives; P1's eventual output — whenever it
/// completes — is dropped unread, while P2's is accepted.
pub proof fn lemma_preview_supersession(
    m: ManagerModel,
    s1: StepModel,
    s2: StepModel,
    out1: PreviewOutcomeModel,
)
    requires
        m.wf(),
        m.next_id + 2 <= u64::MAX,
        step_tr(m, s1).1.spawn_preview is Some,
        step_tr(step_tr(m, s1).0, s2).1.spawn_preview is Some,
    ensures
        ({
            let (m1, d1) = step_tr(m, s1);
            let (m2, d2) = step_tr(m1, s2);
            &&& d1.spawn_preview->0.id != d2.spawn_preview->0.id
            &&& read_preview_tr(m2, d1.spawn_preview->0.id, out1) == m2
            &&& read_preview_tr(m2, d2.spawn_preview->0.id, out1).selection_preview is Some
        }),
{
    let (m1, d1) = step_tr(m, s1);
    let (m2, d2) = step_tr(m1, s2);
    lemma_preview_spawn_supersedes(m, s1);
    lemma_step_preserves_wf(m, s1);
    lemma_preview_spawn_supersedes(m1, s2);
    lemma_stale_preview_dropped(m2, d1.spawn_preview->0.id, out1);
}

/// The manager after `k` bounded moves down.
pub open spec fn iter_next(m: ManagerModel, k: nat) -> ManagerModel
    decreases k,
{
    if k == 0 {
        m
    } else {
        next_tr(iter_next(m, (k - 1) as nat)).0
    }
}

/// The manager after `k` bounded moves up.
pub open spec fn iter_prev(m: ManagerModel, k: nat) -> ManagerModel
    decreases k,
{
    if k == 0 {
        m
    } else {
        prev_tr(iter_prev(m, (k - 1) as nat)).0
    }
}

/// Where the selection stands after `k` bounded moves down from `sel`, among
/// `len` results: it walks to `len - 1` and stays there, and is set by the
/// first move once any result exists.
pub open spec fn sel_after_next(sel: Option<usize>, k: nat, len: nat) -> Option<usize> {
    match sel {
        Some(i) => Some(vstd::math::min(i + k, len - 1) as usize),
        None => if k == 0 || len == 0 {
            None
        } else {
            Some(vstd::math::min(k - 1, len - 1) as usize)
        },
    }
}

/// Bounded moves down, characterized: the job and its results are untouched,
/// and the selection lands exactly where `sel_after_next` says.
pub proof fn lemma_iter_next(m: ManagerModel, k: nat)
    requires
        m.wf(),
        m.job is Some,
        m.job->0.records.len() <= usize::MAX,
        m.next_id + k <= u64::MAX,
    ensures
        iter_next(m, k).wf(),
        iter_next(m, k).job == m.job,
        iter_next(m, k).next_id <= m.next_id + k,
        iter_next(m, k).selection_index == sel_after_next(
            m.selection_index,
            k,
            m.job->0.records.len() as nat,
        ),
    decreases k,
{
    if k > 0 {
        lemma_iter_next(m, (k - 1) as nat);
    }
}

/// Selection bounds, downward: once results exist, any `k >= count` moves
/// down leave the selection exactly at the last known result — it saturates
/// at `count - 1` instead of wrapping, and is never unset.
pub proof fn lemma_next_saturates(m: ManagerModel, k: nat)
    requires
        m.wf(),
        m.job is Some,
        0 < m.job->0.records.len() <= usize::MAX,
        k >= m.job->0.records.len(),
        m.next_id + k <= u64::MAX,
    ensures
        iter_next(m, k).selection_index == Some(((m.job->0.records.len() - 1) as usize)),
{
    lemma_iter_next(m, k);
}

/// Where the selection stands after `k` bounded moves up from `sel`: it walks
/// to 0 and stays there, and is never unset.
pub open spec fn sel_after_prev(sel: Option<usize>, k: nat) -> Option<usize> {
    match sel {
        Some(i) => Some(vstd::math::max(i - k, 0) as usize),
        None => None,
    }
}

/// Selection bounds, upward: moves up stop at the first result — from index 0
/// a move up is a no-op — and the job and its results are untouched.
pub proof fn lemma_iter_prev(m: ManagerModel, k: nat)
    requires
        m.wf(),
        m.next_id + k <= u64::MAX,
    ensures
        iter_prev(m, k).wf(),
        iter_prev(m, k).job == m.job,
        iter_prev(m, k).next_id <= m.next_id + k,
        iter_prev(m, k).selection_index == sel_after_prev(m.selection_index, k),
    decreases k,
{
    if k > 0 {
        lemma_iter_prev(m, (k - 1) as nat);
    }
}

/// Rapid edits within one tick spawn at most one search job: the edits
/// themselves demand nothing of the caller, and the single tick that follows
/// kills the superseded job and spawns exactly one, built from the last
/// options alone.
pub proof fn lemma_rapid_edits_one_spawn(
    m: ManagerModel,
    p1: Seq<char>,
    p2: Seq<char>,
    p3: Seq<char>,
)
    requires
        m.wf(),
        m.next_id < u64::MAX,
        p3.len() > 0,
    ensures
        step_tr(m, StepModel::SetPrompt(p1)).1 == no_directives(),
        ({
            let m3 = set_prompt_tr(set_prompt_tr(set_prompt_tr(m, p1), p2), p3);
            let (m4, d) = update_tr(m3);
            &&& d.kill_search == m.search_id
            &&& d.spawn_search matches Some(s) && s.args == crate::options::search_args_spec(
                OptionsModel { prompt: p3, ..m.options },
            ) && m4.search_id == Some(s.id)
        }),
{
}

} // verus!
