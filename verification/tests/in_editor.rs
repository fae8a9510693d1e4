use std::time::{Duration, Instant};

use zsh::compsys::in_editor::{
    bootstrap, bootstrap_shell, plan_request, clear_exec_policy, close_live_capture, open_live_capture,
    partial_capture, set_exec_policy, cached_for, complete_at, copy_matches, dispatch_on_shell_thread,
    dispatch_overran, exec_policy, finish_wait, is_ready, job_expired, reply_wait_nanos,
    finish_job, job_time_left, shard_rows, start_job, CachedDispatch, CompleteStep, CompsysMatch, CompsysRequest,
    CompsysResponse, EditorState, Job, LiveCapture, MenuState, ShellService, LAST_RESULT_TTL_NANOS,
    REPLY_GRACE_NANOS,
};

fn ready_service() -> ShellService {
    let mut service = ShellService::new();
    assert!(bootstrap(&mut service));
    bootstrap_shell(&mut service, 0);
    service
}

fn one_match(word: &str) -> CompsysMatch {
    CompsysMatch {
        completion: word.to_string(),
        description: None,
        group: None,
        replace_start: 0,
    }
}

fn serve<F>(
    service: &mut ShellService,
    state: EditorState,
    job: Job,
    engine: F,
) -> (EditorState, Option<CompsysResponse>)
where
    F: FnOnce(EditorState) -> EditorState,
{
    if !start_job(service, job_time_left(&job)) {
        return (state, None);
    }
    assert!(service.is_busy());
    let (after, resp) = dispatch_on_shell_thread(state, &job, engine);
    let reply = finish_job(service, job, resp);
    (after, Some(reply))
}

fn job_for(line: &str, cursor: usize, budget: Duration) -> Job {
    Job {
        line: line.to_string(),
        cursor,
        allow_exec: true,
        deadline: Instant::now() + budget,
    }
}

#[test]
fn request_defaults_to_exec_allowed_and_lsp_budget() {
    let req = CompsysRequest::new_with_default_budget("ls -", 4);
    assert!(req.allow_exec);
    let remaining = req.deadline.duration_since(Instant::now());
    assert!(remaining.as_millis() <= 200);
    assert!(remaining.as_millis() >= 150);
}

#[test]
fn exec_policy_is_unset_outside_a_dispatch() {
    let state = EditorState::new();
    assert!(exec_policy(&state).is_none());
}

#[test]
fn complete_at_smoke_does_not_panic() {
    let mut service = ready_service();
    let req = CompsysRequest::new_with_default_budget("setopt ext", 10);
    let plan = complete_at(req, &mut service);
    let resp = match plan.step {
        CompleteStep::Answer(resp) => resp,
        CompleteStep::Dispatch { job, .. } => {
            let (_, reply) = serve(&mut service, EditorState::new(), job, |s: EditorState| s);
            finish_wait(reply, None)
        }
    };
    println!(
        "setopt ext -> {} matches: {:?}",
        resp.matches.len(),
        resp.matches
            .iter()
            .take(5)
            .map(|m| &m.completion)
            .collect::<Vec<_>>(),
    );
}

#[test]
fn request_with_budget_keeps_line_and_cursor() {
    let req = CompsysRequest::new_with_budget("git ch", 6, Duration::from_secs(2));
    assert_eq!(req.line, "git ch");
    assert_eq!(req.cursor, 6);
    assert!(req.allow_exec);
    let remaining = req.deadline.duration_since(Instant::now());
    assert!(remaining.as_millis() <= 2000);
    assert!(remaining.as_millis() >= 1900);
}

#[test]
fn default_response_is_empty_and_complete() {
    let resp = CompsysResponse::default();
    assert!(resp.matches.is_empty());
    assert!(!resp.is_incomplete);
}

#[test]
fn cold_start_answers_incomplete_and_spawns_once() {
    let mut service = ShellService::new();
    assert!(!is_ready(&service));
    let plan = complete_at(CompsysRequest::new_with_default_budget("ls", 2), &mut service);
    assert!(plan.spawn_shell_thread);
    match plan.step {
        CompleteStep::Answer(resp) => {
            assert!(resp.matches.is_empty());
            assert!(resp.is_incomplete);
        }
        CompleteStep::Dispatch { .. } => panic!("cold start must answer at once"),
    }
    let again = complete_at(CompsysRequest::new_with_default_budget("ls", 2), &mut service);
    assert!(!again.spawn_shell_thread);
}

#[test]
fn bootstrap_is_idempotent() {
    let mut service = ShellService::new();
    assert!(bootstrap(&mut service));
    assert!(!bootstrap(&mut service));
    assert!(!is_ready(&service));
    bootstrap_shell(&mut service, 17);
    assert!(is_ready(&service));
    assert_eq!(shard_rows(&service), 17);
    assert!(!bootstrap(&mut service));
    assert_eq!(shard_rows(&service), 17);
}

#[test]
fn ready_service_dispatches_with_request_fields() {
    let mut service = ready_service();
    let req = CompsysRequest {
        line: "echo hi",
        cursor: 3,
        deadline: Instant::now() + Duration::from_millis(500),
        allow_exec: false,
    };
    let deadline = req.deadline;
    let plan = complete_at(req, &mut service);
    match plan.step {
        CompleteStep::Dispatch { job, wait_nanos } => {
            assert_eq!(job.line, "echo hi");
            assert_eq!(job.cursor, 3);
            assert!(!job.allow_exec);
            assert_eq!(job.deadline, deadline);
            assert!(wait_nanos >= REPLY_GRACE_NANOS);
            assert!(wait_nanos <= 520_000_000);
        }
        CompleteStep::Answer(_) => panic!("nothing cached: must dispatch"),
    }
}

#[test]
fn dispatch_sets_up_a_first_tab_and_restores_state() {
    let mut state = EditorState::new();
    state.comp_line = "previous".to_string();
    state.comp_cursor = 3;
    state.comp_len = 8;
    state.edit_line = "previous".chars().collect();
    state.edit_cursor = 3;
    state.edit_len = 8;
    state.curcontext = Some("old:ctx".to_string());
    state.columns = 132;
    state.lines = 50;
    state.compfunc = Some("_old_widget".to_string());
    state.menu.menucmp = 1;
    state.menu.minfo_cur = Some(4);
    let job = job_for("git chéck", 8, Duration::from_secs(5));
    let (after, resp) = dispatch_on_shell_thread(state, &job, |mut s: EditorState| {
        assert_eq!(s.comp_line, "git chéck");
        assert_eq!(s.edit_line, "git chéck".chars().collect::<Vec<char>>());
        // byte 8 lies just past the two-byte é: character 7
        assert_eq!(s.edit_cursor, 7);
        assert_eq!(s.comp_cursor, 7);
        assert_eq!(s.edit_len, 9);
        assert_eq!(s.comp_len, 9);
        assert_eq!(s.curcontext.as_deref(), Some(":::"));
        assert_eq!(s.columns, 80);
        assert_eq!(s.lines, 24);
        assert_eq!(s.compfunc.as_deref(), Some("_main_complete"));
        assert_eq!(s.menu, MenuState::fresh());
        assert_eq!(s.replace_start, 4);
        let policy = exec_policy(&s).expect("policy armed during a dispatch");
        assert!(policy.0);
        if let Some(buf) = s.capture.as_mut() {
            assert!(buf.is_empty());
            buf.push(one_match("checkout"));
            buf.push(one_match("cherry-pick"));
        }
        s.menu.menucmp = 2;
        s
    });
    let names: Vec<&str> = resp.matches.iter().map(|m| m.completion.as_str()).collect();
    assert_eq!(names, vec!["checkout", "cherry-pick"]);
    assert!(resp.matches.iter().all(|m| m.replace_start == 4));
    assert!(!resp.is_incomplete);
    assert_eq!(after.comp_line, "previous");
    assert_eq!(after.comp_cursor, 3);
    assert_eq!(after.comp_len, 8);
    assert_eq!(after.edit_line, "previous".chars().collect::<Vec<char>>());
    assert_eq!(after.edit_cursor, 3);
    assert_eq!(after.edit_len, 8);
    assert_eq!(after.curcontext.as_deref(), Some("old:ctx"));
    assert_eq!(after.columns, 132);
    assert_eq!(after.lines, 50);
    assert_eq!(after.compfunc.as_deref(), Some("_old_widget"));
    assert!(after.capture.is_none());
    assert!(exec_policy(&after).is_none());
    assert_eq!(after.menu.menucmp, 2);
}

#[test]
fn dispatch_restores_an_unset_curcontext() {
    let job = job_for("ls", 99, Duration::from_secs(5));
    let (after, resp) = dispatch_on_shell_thread(EditorState::new(), &job, |s: EditorState| {
        // a cursor past the end is the end of the line
        assert_eq!(s.edit_cursor, 2);
        s
    });
    assert!(after.curcontext.is_none());
    assert!(resp.matches.is_empty());
}

#[test]
fn dispatch_with_passed_deadline_is_incomplete() {
    let job = Job {
        line: "ls".to_string(),
        cursor: 2,
        allow_exec: false,
        deadline: Instant::now(),
    };
    let (_, resp) = dispatch_on_shell_thread(EditorState::new(), &job, |s: EditorState| s);
    assert!(resp.is_incomplete);
}

#[test]
fn stale_job_is_not_dispatched() {
    let mut service = ready_service();
    let job = Job {
        line: "ls".to_string(),
        cursor: 2,
        allow_exec: true,
        deadline: Instant::now(),
    };
    let (_, reply) = serve(&mut service, EditorState::new(), job, |_s: EditorState| -> EditorState {
        panic!("a stale job must not be dispatched")
    });
    assert!(reply.is_none());
    assert!(service.last_result().is_none());
}

#[test]
fn published_result_answers_the_retry_once() {
    let mut service = ready_service();
    let job = job_for("git ", 4, Duration::from_secs(5));
    let (_, reply) = serve(&mut service, EditorState::new(), job, |mut s: EditorState| {
        if let Some(buf) = s.capture.as_mut() {
            buf.push(one_match("add"));
        }
        s
    });
    let reply = reply.expect("fresh job is served");
    assert_eq!(reply.matches.len(), 1);
    assert!(!service.is_busy());
    let cached = service.last_result().expect("non-empty result is published");
    assert_eq!(cached.line, "git ");
    assert_eq!(cached.cursor, 4);

    // a different cursor is not served from the cache
    let other = complete_at(CompsysRequest::new_with_default_budget("git ", 3), &mut service);
    assert!(matches!(other.step, CompleteStep::Dispatch { .. }));
    assert!(service.last_result().is_some());

    let retry = complete_at(CompsysRequest::new_with_default_budget("git ", 4), &mut service);
    match retry.step {
        CompleteStep::Answer(resp) => {
            assert!(!resp.is_incomplete);
            assert_eq!(resp.matches.len(), 1);
            assert_eq!(resp.matches[0].completion, "add");
        }
        CompleteStep::Dispatch { .. } => panic!("retry must be served from the cache"),
    }
    assert!(service.last_result().is_none());
    let third = complete_at(CompsysRequest::new_with_default_budget("git ", 4), &mut service);
    assert!(matches!(third.step, CompleteStep::Dispatch { .. }));
}

#[test]
fn empty_result_is_not_published() {
    let mut service = ready_service();
    let job = job_for("zzz", 3, Duration::from_secs(5));
    let (_, reply) = serve(&mut service, EditorState::new(), job, |s: EditorState| s);
    assert!(reply.expect("served").matches.is_empty());
    assert!(service.last_result().is_none());
}

#[test]
fn cache_entry_expires_after_ttl() {
    let entry = CachedDispatch {
        line: "ls".to_string(),
        cursor: 2,
        matches: vec![one_match("ls")],
        finished_at: Instant::now(),
    };
    assert!(cached_for(&entry, "ls", 2, 0));
    assert!(cached_for(&entry, "ls", 2, LAST_RESULT_TTL_NANOS - 1));
    assert!(!cached_for(&entry, "ls", 2, LAST_RESULT_TTL_NANOS));
    assert!(!cached_for(&entry, "ls", 1, 0));
    assert!(!cached_for(&entry, "lx", 2, 0));
    assert!(!cached_for(&entry, "ls ", 2, 0));
}

#[test]
fn reply_wait_adds_grace_and_saturates() {
    assert_eq!(reply_wait_nanos(0), 20_000_000);
    assert_eq!(reply_wait_nanos(180_000_000), 200_000_000);
    assert_eq!(reply_wait_nanos(u128::MAX - 5), u128::MAX);
}

#[test]
fn start_job_refuses_only_expired_jobs() {
    let mut service = ready_service();
    assert!(!start_job(&mut service, 0));
    assert!(!service.is_busy());
    assert!(start_job(&mut service, 1));
    assert!(service.is_busy());
    let later = job_for("ls", 2, Duration::from_secs(60));
    assert!(job_time_left(&later) > 0);
    let passed = Job {
        line: "ls".to_string(),
        cursor: 2,
        allow_exec: true,
        deadline: Instant::now(),
    };
    assert_eq!(job_time_left(&passed), 0);
}

#[test]
fn expiry_and_overrun_decisions() {
    assert!(job_expired(0));
    assert!(!job_expired(1));
    assert!(dispatch_overran(10, 10));
    assert!(dispatch_overran(11, 10));
    assert!(!dispatch_overran(9, 10));
}

#[test]
fn finish_wait_passes_reply_or_asks_again() {
    let resp = finish_wait(None, None);
    assert!(resp.matches.is_empty());
    assert!(resp.is_incomplete);
    let partial = finish_wait(None, Some(vec![one_match("p")]));
    assert!(partial.is_incomplete);
    assert_eq!(partial.matches.len(), 1);
    assert_eq!(partial.matches[0].completion, "p");
    let reply = CompsysResponse {
        matches: vec![one_match("a")],
        is_incomplete: false,
    };
    let out = finish_wait(Some(reply), Some(vec![one_match("ignored")]));
    assert_eq!(out.matches.len(), 1);
    assert!(!out.is_incomplete);
}

#[test]
fn copy_matches_keeps_every_field() {
    let v = vec![
        CompsysMatch {
            completion: "x".to_string(),
            description: Some("d".to_string()),
            group: Some("g".to_string()),
            replace_start: 7,
        },
        one_match("y"),
    ];
    let c = copy_matches(&v);
    assert_eq!(c.len(), 2);
    assert_eq!(c[0].completion, "x");
    assert_eq!(c[0].description.as_deref(), Some("d"));
    assert_eq!(c[0].group.as_deref(), Some("g"));
    assert_eq!(c[0].replace_start, 7);
    assert_eq!(c[1].completion, "y");
}

#[test]
fn live_capture_hands_partial_matches_to_a_timed_out_client() {
    let mut live = LiveCapture::new();
    let job = job_for("ls -", 4, Duration::from_secs(5));
    let mut state = EditorState::new();
    state.capture = Some(Vec::new());
    state.replace_start = 3;
    let state = open_live_capture(&mut live, state, &job);
    assert!(state.capture.is_none());
    assert_eq!(live.replace_start, 3);
    if let Some(buf) = live.buffer.as_mut() {
        buf.push(one_match("-l"));
    }
    // another request sees nothing of this dispatch
    assert!(partial_capture(&live, "ls -", 3).is_none());
    assert!(partial_capture(&live, "ls", 4).is_none());
    let partial = partial_capture(&live, "ls -", 4).expect("same line and cursor");
    assert_eq!(partial.len(), 1);
    assert_eq!(partial[0].completion, "-l");
    assert_eq!(partial[0].replace_start, 3);
    let answer = finish_wait(None, Some(partial));
    assert!(answer.is_incomplete);
    assert_eq!(answer.matches.len(), 1);

    let state = close_live_capture(&mut live, state);
    assert!(live.buffer.is_none());
    assert_eq!(state.capture.map(|v| v.len()), Some(1));
    assert!(partial_capture(&live, "ls -", 4).is_none());
}

#[test]
fn clear_exec_policy_undoes_set() {
    let mut state = EditorState::new();
    set_exec_policy(&mut state, false, Instant::now());
    assert_eq!(exec_policy(&state).map(|p| p.0), Some(false));
    clear_exec_policy(&mut state);
    assert!(exec_policy(&state).is_none());
    clear_exec_policy(&mut state);
    assert!(exec_policy(&state).is_none());
}

#[test]
fn finish_job_publishes_then_hands_back_the_reply() {
    let mut service = ready_service();
    assert!(start_job(&mut service, 1));
    let mut placed = one_match("add");
    placed.replace_start = 4;
    let resp = CompsysResponse {
        matches: vec![placed],
        is_incomplete: false,
    };
    let reply = finish_job(&mut service, job_for("git a", 5, Duration::from_secs(1)), resp);
    assert_eq!(reply.matches[0].completion, "add");
    assert!(!service.is_busy());
    let cached = service.last_result().expect("published");
    assert_eq!(cached.line, "git a");
    assert_eq!(cached.matches[0].completion, "add");
}

#[test]
fn huge_budget_does_not_panic() {
    let req = CompsysRequest::new_with_budget("ls", 2, Duration::MAX);
    assert!(req.deadline >= Instant::now());
    assert!(req.allow_exec);
}

#[test]
fn plan_request_serves_only_a_fresh_entry_for_the_same_request() {
    let mut service = ready_service();
    assert!(start_job(&mut service, 1));
    let reply = finish_job(
        &mut service,
        job_for("ls", 2, Duration::from_secs(1)),
        CompsysResponse { matches: vec![one_match("ls")], is_incomplete: false },
    );
    assert_eq!(reply.matches.len(), 1);

    // stale: the time to live has passed
    let stale = plan_request(
        CompsysRequest::new_with_default_budget("ls", 2),
        &mut service,
        Some(LAST_RESULT_TTL_NANOS),
        1_000,
    );
    match stale.step {
        CompleteStep::Dispatch { wait_nanos, .. } => assert_eq!(wait_nanos, 1_000 + REPLY_GRACE_NANOS),
        CompleteStep::Answer(_) => panic!("a stale entry is not served"),
    }
    assert!(service.last_result().is_some());

    // fresh: served, and the cache is emptied
    let fresh = plan_request(
        CompsysRequest::new_with_default_budget("ls", 2),
        &mut service,
        Some(LAST_RESULT_TTL_NANOS - 1),
        1_000,
    );
    match fresh.step {
        CompleteStep::Answer(resp) => {
            assert!(!resp.is_incomplete);
            assert_eq!(resp.matches[0].completion, "ls");
        }
        CompleteStep::Dispatch { .. } => panic!("a fresh entry is served"),
    }
    assert!(service.last_result().is_none());
}
