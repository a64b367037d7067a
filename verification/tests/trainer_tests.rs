use pass_tutor::compare_label;
use pass_tutor::drill_prompt;
use pass_tutor::generation_prompt;
use pass_tutor::learn_pass_loop;
use pass_tutor::pass_compare;
use pass_tutor::CompareOutcome;
use pass_tutor::DrillPhase;

#[test]
fn compare_equal_reports_success() {
    let r = pass_compare(&"hunter2".to_string(), &"hunter2".to_string());
    assert_eq!(r, CompareOutcome::Match);
    assert_eq!(compare_label(r), "You got it!");
}

#[test]
fn compare_longer_attempt_reports_too_long() {
    let r = pass_compare(&"hunter2".to_string(), &"hunter23".to_string());
    assert_eq!(r, CompareOutcome::TooLong);
    assert_eq!(compare_label(r), "Too long!");
}

#[test]
fn compare_shorter_attempt_reports_too_short() {
    let r = pass_compare(&"hunter2".to_string(), &"hunt".to_string());
    assert_eq!(r, CompareOutcome::TooShort);
    assert_eq!(compare_label(r), "Too short!");
}

#[test]
fn compare_same_length_mismatch_reports_errors() {
    let r = pass_compare(&"hunter2".to_string(), &"hunter3".to_string());
    assert_eq!(r, CompareOutcome::Mismatch);
    assert_eq!(compare_label(r), "Errors in your password!");
}

#[test]
fn drill_walks_three_practices_then_tests() {
    let pass = "hunter2".to_string();
    let blank = String::new();

    let s1 = learn_pass_loop(&DrillPhase::Practice { round: 1 }, &pass, &blank);
    assert!(s1.outcome.is_none());
    assert_eq!(s1.next, DrillPhase::Practice { round: 2 });

    let s2 = learn_pass_loop(&s1.next, &pass, &blank);
    assert!(s2.outcome.is_none());
    assert_eq!(s2.next, DrillPhase::Practice { round: 3 });

    let s3 = learn_pass_loop(&s2.next, &pass, &blank);
    assert!(s3.outcome.is_none());
    assert_eq!(s3.next, DrillPhase::Test);

    let s4 = learn_pass_loop(&s3.next, &pass, &"hunter2".to_string());
    assert_eq!(s4.outcome, Some(CompareOutcome::Match));
    assert_eq!(s4.next, DrillPhase::Practice { round: 1 });
}

#[test]
fn drill_restarts_after_a_failed_test() {
    let pass = "hunter2".to_string();
    let s = learn_pass_loop(&DrillPhase::Test, &pass, &"hunt".to_string());
    assert_eq!(s.outcome, Some(CompareOutcome::TooShort));
    assert_eq!(s.next, DrillPhase::Practice { round: 1 });
}

#[test]
fn first_practice_prompt_carries_the_header() {
    let lines = drill_prompt(&DrillPhase::Practice { round: 1 }, &"pw".to_string());
    assert_eq!(
        lines,
        vec![
            "Let's practice your password 3 times".to_string(),
            "".to_string(),
            "Practice 1/3".to_string(),
            "Password: pw".to_string(),
        ],
    );
}

#[test]
fn later_practice_prompts_have_no_header() {
    let lines = drill_prompt(&DrillPhase::Practice { round: 2 }, &"pw".to_string());
    assert_eq!(
        lines,
        vec!["".to_string(), "Practice 2/3".to_string(), "Password: pw".to_string()],
    );
    let lines = drill_prompt(&DrillPhase::Practice { round: 3 }, &"pw".to_string());
    assert_eq!(
        lines,
        vec!["".to_string(), "Practice 3/3".to_string(), "Password: pw".to_string()],
    );
}

#[test]
fn test_prompt_asks_for_recall() {
    let lines = drill_prompt(&DrillPhase::Test, &"pw".to_string());
    assert_eq!(lines, vec!["Now try and remember your password!".to_string()]);
}

#[test]
fn generation_prompt_shows_password_and_question() {
    let lines = generation_prompt(&"pw".to_string());
    assert_eq!(
        lines,
        vec!["Generated password: pw".to_string(), "Use password? [y/N]".to_string()],
    );
}
