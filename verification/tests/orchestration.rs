use livegrep::job::{Job, ReadEvent};
use livegrep::manager::Manager;
use livegrep::preview::{Preview, PreviewJob, PreviewOutcome};

fn strs(args: &[String]) -> Vec<&str> {
    args.iter().map(|s| s.as_str()).collect()
}

#[test]
fn job_keeps_emission_order() {
    let mut job = Job::new();
    assert_eq!(job.current_num_results(), 0);
    assert!(job.try_read_next_result(ReadEvent::Line(b"a.txt:1:1:first".to_vec())));
    assert!(!job.try_read_next_result(ReadEvent::Pending));
    assert!(job.try_read_next_result(ReadEvent::Line(b"not a match line".to_vec())));
    assert!(job.try_read_next_result(ReadEvent::Line(b"b.txt:9:2:third".to_vec())));
    assert_eq!(job.current_num_results(), 3);
    let items = job.get_results_items();
    assert_eq!(items[0].display, b"a.txt:1:1:first".to_vec());
    assert_eq!(items[1].display, b"not a match line".to_vec());
    assert_eq!(items[2].display, b"b.txt:9:2:third".to_vec());
    // The malformed line did not abort the job and later lines still parse.
    assert_eq!(items[1].file_path, None);
    assert_eq!(items[2].file_path.as_deref(), Some("b.txt"));
    assert_eq!(items[2].line_number, Some(9));
}

#[test]
fn job_closed_reader_finishes() {
    let mut job = Job::new();
    assert!(job.try_read_next_result(ReadEvent::Line(b"a.txt:1:1:x".to_vec())));
    assert!(!job.is_finished());
    assert!(!job.try_read_next_result(ReadEvent::Closed));
    assert!(job.is_finished());
    // The results remain readable after the stream ended.
    assert_eq!(job.current_num_results(), 1);
}

#[test]
fn job_finalize_is_idempotent() {
    let mut job = Job::new();
    job.try_read_next_result(ReadEvent::Line(b"a.txt:1:1:x".to_vec()));
    job.finalize();
    assert!(job.is_finished());
    job.finalize();
    assert!(job.is_finished());
    assert_eq!(job.current_num_results(), 1);
}

#[test]
fn job_get_result_is_bounds_checked() {
    let mut job = Job::new();
    job.try_read_next_result(ReadEvent::Line(b"a.txt:1:1:x".to_vec()));
    assert!(job.get_result(0).is_some());
    assert!(job.get_result(1).is_none());
    assert!(job.get_result(usize::MAX).is_none());
}

#[test]
fn preview_scroll_centres_the_target() {
    let p = Preview::new(b"text".to_vec(), 10);
    assert_eq!(p.scroll_offset(6), 7);
    let top = Preview::new(b"text".to_vec(), 2);
    assert_eq!(top.scroll_offset(10), 0);
    let zero = Preview::new(b"text".to_vec(), 0);
    assert_eq!(zero.scroll_offset(4), 0);
}

#[test]
fn preview_job_filters_by_id() {
    let job = PreviewJob::new(7, 42);
    assert!(job.try_recv_preview(3, PreviewOutcome::Output(b"late".to_vec())).is_none());
    let got = job.try_recv_preview(7, PreviewOutcome::Output(b"body".to_vec())).unwrap();
    assert_eq!(got.text, b"body".to_vec());
    assert_eq!(got.line_number, 42);
    assert!(!got.failed);
}

#[test]
fn preview_job_failure_gives_placeholder() {
    let job = PreviewJob::new(1, 5);
    let got = job.try_recv_preview(1, PreviewOutcome::Failed).unwrap();
    assert!(got.failed);
    assert_eq!(got.line_number, 5);
}

#[test]
fn search_scenario_spawns_search_then_preview() {
    let mut m = Manager::new();
    m.set_prompt(String::from("foo"));
    let d = m.update();
    assert!(d.executed);
    assert!(d.redraw);
    assert!(d.kill_search.is_none());
    let spawn = d.spawn_search.expect("a nonempty query spawns a search");
    assert_eq!(strs(&spawn.args), ["--column", "--color=always", "--no-hidden", "foo"]);

    let d2 = m.read_search_event(ReadEvent::Line(b"a.txt:3:1:foo bar".to_vec()));
    assert!(d2.advanced);
    let list = m.get_list().expect("a job is live");
    assert_eq!(list.len(), 1);
    assert_eq!(list[0].file_path.as_deref(), Some("a.txt"));
    assert_eq!(list[0].line_number, Some(3));

    // Selecting the record with the preview pane on spawns exactly one
    // preview render, for line 3 of a.txt.
    let d3 = m.next();
    assert_eq!(m.get_list_state(), Some(0));
    assert!(d3.kill_preview.is_none());
    let ps = d3.spawn_preview.expect("an actionable selection spawns a preview");
    assert_eq!(strs(&ps.args), ["--color=always", "-n", "-H", "3", "a.txt"]);

    assert!(m.read_preview_event(ps.id, PreviewOutcome::Output(b"rendered".to_vec())));
    let shown = m.get_preview().expect("the render was accepted");
    assert_eq!(shown.text, b"rendered".to_vec());
    assert_eq!(shown.line_number, 3);

    let cmd = m.open_selection().expect("the selection is actionable");
    assert_eq!(cmd, "$EDITOR +3 \"a.txt\"");
}

#[test]
fn rapid_edits_spawn_once() {
    let mut m = Manager::new();
    m.set_prompt(String::from("f"));
    m.set_prompt(String::from("fo"));
    m.set_prompt(String::from("foo"));
    let d = m.update();
    assert!(d.executed);
    let spawn = d.spawn_search.expect("one spawn for the final query");
    assert_eq!(strs(&spawn.args), ["--column", "--color=always", "--no-hidden", "foo"]);
    // The next tick has nothing to execute and spawns nothing.
    let d2 = m.update();
    assert!(!d2.executed);
    assert!(d2.spawn_search.is_none());
    assert!(d2.kill_search.is_none());
}

#[test]
fn superseded_search_is_killed() {
    let mut m = Manager::new();
    m.set_prompt(String::from("a"));
    let d1 = m.update();
    let first = d1.spawn_search.unwrap();
    m.set_prompt(String::from("ab"));
    let d2 = m.update();
    assert_eq!(d2.kill_search, Some(first.id));
    let second = d2.spawn_search.unwrap();
    assert_ne!(first.id, second.id);
    // An emptied query kills the job and spawns nothing.
    m.set_prompt(String::new());
    let d3 = m.update();
    assert_eq!(d3.kill_search, Some(second.id));
    assert!(d3.spawn_search.is_none());
    assert!(m.get_list().is_none());
}

#[test]
fn closed_reader_reaps_the_search() {
    let mut m = Manager::new();
    m.set_prompt(String::from("q"));
    let d = m.update();
    let id = d.spawn_search.unwrap().id;
    m.read_search_event(ReadEvent::Line(b"a.txt:1:1:x".to_vec()));
    let d2 = m.read_search_event(ReadEvent::Closed);
    assert!(!d2.advanced);
    assert_eq!(d2.kill_search, Some(id));
    // The results stay after the producer finished.
    assert_eq!(m.get_list().unwrap().len(), 1);
}

#[test]
fn selection_is_bounded() {
    let mut m = Manager::new();
    m.set_prompt(String::from("q"));
    m.update();
    m.read_search_event(ReadEvent::Line(b"a.txt:1:1:x".to_vec()));
    m.read_search_event(ReadEvent::Line(b"b.txt:2:1:y".to_vec()));
    assert_eq!(m.get_list_state(), None);
    m.next();
    m.next();
    m.next();
    m.next();
    assert_eq!(m.get_list_state(), Some(1));
    m.prev();
    m.prev();
    m.prev();
    assert_eq!(m.get_list_state(), Some(0));
}

#[test]
fn superseded_preview_output_is_dropped() {
    let mut m = Manager::new();
    m.set_prompt(String::from("q"));
    m.update();
    m.read_search_event(ReadEvent::Line(b"a.txt:1:1:x".to_vec()));
    m.read_search_event(ReadEvent::Line(b"b.txt:2:1:y".to_vec()));
    let p1 = m.next().spawn_preview.unwrap();
    let d = m.next();
    assert_eq!(d.kill_preview, Some(p1.id));
    let p2 = d.spawn_preview.unwrap();
    assert_ne!(p1.id, p2.id);
    // The first render completes late: its output is never surfaced.
    assert!(!m.read_preview_event(p1.id, PreviewOutcome::Output(b"stale".to_vec())));
    assert!(m.get_preview().is_none());
    assert!(m.read_preview_event(p2.id, PreviewOutcome::Output(b"fresh".to_vec())));
    assert_eq!(m.get_preview().unwrap().text, b"fresh".to_vec());
}

#[test]
fn option_change_clears_selection_and_preview() {
    let mut m = Manager::new();
    m.set_prompt(String::from("q"));
    m.update();
    m.read_search_event(ReadEvent::Line(b"a.txt:1:1:x".to_vec()));
    let p = m.next().spawn_preview.unwrap();
    m.read_preview_event(p.id, PreviewOutcome::Output(b"shown".to_vec()));
    m.set_prompt(String::from("qq"));
    let d = m.update();
    assert!(d.executed);
    assert_eq!(m.get_list_state(), None);
    assert!(m.get_preview().is_none());
    assert!(d.spawn_preview.is_none());
}

#[test]
fn toggling_preview_discards_and_restores() {
    let mut m = Manager::new();
    m.set_prompt(String::from("q"));
    m.update();
    m.read_search_event(ReadEvent::Line(b"a.txt:1:1:x".to_vec()));
    let p1 = m.next().spawn_preview.unwrap();
    // Toggling the pane off discards the pending render and starts none.
    let d = m.toggle_preview();
    assert!(!m.show_preview);
    assert_eq!(d.kill_preview, Some(p1.id));
    assert!(d.spawn_preview.is_none());
    // With the pane off a selection move starts no render.
    let d2 = m.prev();
    assert!(d2.spawn_preview.is_none());
    // Toggling back on re-evaluates the current selection.
    let d3 = m.toggle_preview();
    assert!(m.show_preview);
    assert!(d3.spawn_preview.is_some());
}

#[test]
fn non_actionable_selection_spawns_nothing() {
    let mut m = Manager::new();
    m.set_prompt(String::from("q"));
    m.update();
    m.read_search_event(ReadEvent::Line(b"no separators".to_vec()));
    let d = m.next();
    assert_eq!(m.get_list_state(), Some(0));
    assert!(d.spawn_preview.is_none());
    assert!(m.open_selection().is_none());
}

#[test]
fn hidden_toggle_flows_into_the_spawn() {
    let mut m = Manager::new();
    assert!(!m.is_showing_hidden());
    m.toggle_hidden();
    assert!(m.is_showing_hidden());
    m.set_prompt(String::from("q"));
    m.set_glob(String::from("*.rs"));
    let d = m.update();
    let spawn = d.spawn_search.unwrap();
    assert_eq!(
        strs(&spawn.args),
        ["--column", "--color=always", "--hidden", "--glob", "*.rs", "q"],
    );
}

#[test]
fn redraw_is_reported_once() {
    let mut m = Manager::new();
    // The fresh manager owes one initial repaint.
    assert!(m.end_tick());
    assert!(!m.end_tick());
    m.set_prompt(String::from("q"));
    m.update();
    let d = m.read_search_event(ReadEvent::Line(b"a.txt:1:1:x".to_vec()));
    assert!(d.advanced);
    assert!(m.end_tick());
    assert!(!m.end_tick());
    // A pending read warrants no repaint.
    m.read_search_event(ReadEvent::Pending);
    assert!(!m.end_tick());
}
