use eval_kanban::plan::expired_session_ids;
use eval_kanban::plan::{plan_prompt, PlanAnswer, PlanQuestion, PlanSession, PlanStatus, QuestionOption, PLAN_MODE_SUFFIX};

fn question(index: usize, header: &str, text: &str) -> PlanQuestion {
    PlanQuestion {
        index,
        question: text.to_string(),
        header: header.to_string(),
        options: vec![QuestionOption { label: "A".to_string(), description: "first".to_string() }],
        multi_select: false,
        tool_use_id: format!("tool-{}", index),
    }
}

fn answer(index: usize, items: &[&str]) -> PlanAnswer {
    PlanAnswer { question_index: index, answers: items.iter().map(|s| s.to_string()).collect() }
}

#[test]
fn plan_session_round_trip() {
    let mut s = PlanSession::new("s1".into(), "Title".into(), "Build a thing".into(), true);
    assert_eq!(s.status, PlanStatus::Processing);
    assert_eq!(s.build_respawn_prompt(), "Build a thing");
    s.add_questions(vec![question(0, "Scope", "What scope?"), question(1, "Stack", "Which stack?")]);
    assert_eq!(s.status, PlanStatus::WaitingForAnswer);
    assert_eq!(s.pending_questions.len(), 2);
    assert_eq!(s.current_question_index(), 2);
    s.add_answers(vec![answer(0, &["small"]), answer(1, &["rust", "verus"])]);
    assert_eq!(s.status, PlanStatus::Processing);
    assert!(s.pending_questions.is_empty());
    let p = s.build_respawn_prompt();
    assert_eq!(
        p,
        "Build a thing\n\n## Previous conversation with the user\n\n\
**Question (Scope)**: What scope?\n**User's answer**: small\n\n\
**Question (Stack)**: Which stack?\n**User's answer**: rust, verus\n\n\
## Continue from here\n\nBased on the user's answers above, continue the planning process. \
Ask more questions if needed or provide the final implementation plan."
    );
    let q0 = p.find("What scope?").unwrap();
    let a0 = p.find("small").unwrap();
    let q1 = p.find("Which stack?").unwrap();
    let a1 = p.find("rust, verus").unwrap();
    assert!(q0 < a0 && a0 < q1 && q1 < a1);
}

#[test]
fn single_answers_clear_pending_when_all_are_in() {
    let mut s = PlanSession::new("s2".into(), "T".into(), "P".into(), false);
    s.add_questions(vec![question(0, "H", "Q0"), question(1, "H", "Q1")]);
    s.add_answer(answer(0, &["x"]));
    assert_eq!(s.status, PlanStatus::WaitingForAnswer);
    assert_eq!(s.pending_questions.len(), 2);
    s.add_answer(answer(7, &["unrelated"]));
    assert_eq!(s.status, PlanStatus::WaitingForAnswer);
    s.add_answer(answer(1, &["y"]));
    assert_eq!(s.status, PlanStatus::Processing);
    assert!(s.pending_questions.is_empty());
    assert_eq!(s.answers.len(), 3);
}

#[test]
fn output_summary_and_info() {
    let mut s = PlanSession::new("s3".into(), "T".into(), "P".into(), true);
    s.append_output("line one");
    s.append_output("line two");
    assert_eq!(s.accumulated_output, "line one\nline two\n");
    s.set_summary("the plan".into());
    assert_eq!(s.status, PlanStatus::Summary);
    let info = s.to_info();
    assert_eq!(info.summary, Some("the plan".to_string()));
    assert_eq!(info.id, "s3");
    assert!(info.ask_questions);
    let last = s.last_activity;
    assert!(!s.is_expired_at(last + 10, 10));
    assert!(s.is_expired_at(last + 11, 10));
    assert!(!s.is_expired_at(0, 0) || last == 0);
}

#[test]
fn plan_prompt_suffix() {
    assert_eq!(plan_prompt("Do it", false), "Do it");
    assert_eq!(plan_prompt("Do it", true), format!("Do it{}", PLAN_MODE_SUFFIX));
    assert!(PLAN_MODE_SUFFIX.contains("AskUserQuestionTool"));
}

#[test]
fn idle_sessions_are_selected_for_eviction() {
    let mut a = PlanSession::new("a".into(), "T".into(), "P".into(), false);
    let mut b = PlanSession::new("b".into(), "T".into(), "P".into(), false);
    a.last_activity = 100;
    b.last_activity = 200;
    assert_eq!(expired_session_ids(&vec![a, b], 250, 60), vec!["a".to_string()]);
}

#[test]
fn activity_time_never_goes_back() {
    let mut s = PlanSession::new("s4".into(), "T".into(), "P".into(), false);
    s.last_activity = u64::MAX;
    s.add_questions(vec![question(0, "H", "Q")]);
    assert_eq!(s.last_activity, u64::MAX);
    s.add_answers(vec![answer(0, &["a"])]);
    s.append_output("x");
    s.set_summary("done".into());
    assert_eq!(s.last_activity, u64::MAX);
    let mut fresh = PlanSession::new("s5".into(), "T".into(), "P".into(), false);
    let before = fresh.last_activity;
    fresh.append_output("y");
    assert!(fresh.last_activity >= before);
}
