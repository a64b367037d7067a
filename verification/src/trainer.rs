use vstd::prelude::*;

use vstd::string::StrSliceExecFns;
use vstd::string::StringExecFns;

verus! {

/// The verdict of one recall test.
#[derive(Clone, Copy, Debug, PartialEq, Eq, Structural)]
pub enum CompareOutcome {
    Match,
    TooLong,
    TooShort,
    Mismatch,
}

/// How an attempt compares to the correct password: equality is a match;
/// otherwise the verdict goes by the two lengths alone. The polarity is the
/// trainer's: an attempt longer than the password is "too long".
pub open spec fn compare_spec(correct: Seq<char>, attempt: Seq<char>) -> CompareOutcome {
    if correct == attempt {
        CompareOutcome::Match
    } else if correct.len() < attempt.len() {
        CompareOutcome::TooLong
    } else if correct.len() > attempt.len() {
        CompareOutcome::TooShort
    } else {
        CompareOutcome::Mismatch
    }
}

/// Compares a recalled attempt to the correct password: a match, an
/// attempt of the wrong length, or one of the right length with errors.
pub fn pass_compare(correct: &String, attempt: &String) -> (r: CompareOutcome)
    ensures
        r == compare_spec(correct@, attempt@),
{
    if correct.eq(attempt) {
        CompareOutcome::Match
    } else {
        let cl = correct.as_str().unicode_len();
        let al = attempt.as_str().unicode_len();
        if cl < al {
            CompareOutcome::TooLong
        } else if cl > al {
            CompareOutcome::TooShort
        } else {
            CompareOutcome::Mismatch
        }
    }
}

/// The console message of each verdict.
pub open spec fn compare_label_spec(r: CompareOutcome) -> Seq<char> {
    match r {
        CompareOutcome::Match => "You got it!"@,
        CompareOutcome::TooLong => "Too long!"@,
        CompareOutcome::TooShort => "Too short!"@,
        CompareOutcome::Mismatch => "Errors in your password!"@,
    }
}

/// The message reported for a verdict of the recall test.
pub fn compare_label(r: CompareOutcome) -> (s: String)
    ensures
        s@ == compare_label_spec(r),
{
    match r {
        CompareOutcome::Match => String::from_str("You got it!"),
        CompareOutcome::TooLong => String::from_str("Too long!"),
        CompareOutcome::TooShort => String::from_str("Too short!"),
        CompareOutcome::Mismatch => String::from_str("Errors in your password!"),
    }
}

/// Where the endless drill stands: awaiting the line that ends one of the
/// three practice viewings, or awaiting the recalled attempt of the test.
#[derive(Clone, Copy, Debug, PartialEq, Eq, Structural)]
pub enum DrillPhase {
    Practice { round: u32 },
    Test,
}

/// Practice rounds are numbered 1 through 3.
pub open spec fn phase_wf(p: DrillPhase) -> bool {
    p matches DrillPhase::Practice { round } ==> 1 <= round <= 3
}

/// One transition of the drill: what it reports, and what it awaits next.
pub struct DrillStep {
    pub outcome: Option<CompareOutcome>,
    pub next: DrillPhase,
}

/// The drill's transition: a practice round leads to the next round, the
/// third to the test; the test reports its verdict and starts the cycle
/// over with the first practice round.
pub open spec fn drill_step_spec(phase: DrillPhase, correct: Seq<char>, attempt: Seq<char>) -> DrillStep {
    match phase {
        DrillPhase::Practice { round } => DrillStep {
            outcome: None,
            next: if round < 3 {
                DrillPhase::Practice { round: (round + 1) as u32 }
            } else {
                DrillPhase::Test
            },
        },
        DrillPhase::Test => DrillStep {
            outcome: Some(compare_spec(correct, attempt)),
            next: DrillPhase::Practice { round: 1 },
        },
    }
}

/// One step of the endless learn-password loop, taken after a line of
/// input was read. In a practice phase the line is discarded and the drill
/// moves on: to the next practice round, or to the test after the third.
/// In the test phase the line is the recalled attempt: the step carries the
/// verdict against the password, and the drill starts over with the first
/// practice round. No verdict ends the drill; the caller loops until
/// terminated from outside.
pub fn learn_pass_loop(phase: &DrillPhase, correct: &String, attempt: &String) -> (step: DrillStep)
    requires
        phase_wf(*phase),
    ensures
        step == drill_step_spec(*phase, correct@, attempt@),
        phase_wf(step.next),
{
    match *phase {
        DrillPhase::Practice { round } => DrillStep {
            outcome: None,
            next: if round < 3 {
                DrillPhase::Practice { round: round + 1 }
            } else {
                DrillPhase::Test
            },
        },
        DrillPhase::Test => DrillStep {
            outcome: Some(pass_compare(correct, attempt)),
            next: DrillPhase::Practice { round: 1 },
        },
    }
}

/// The line naming the current practice round.
pub open spec fn practice_number(round: u32) -> Seq<char> {
    if round == 1 {
        "Practice 1/3"@
    } else if round == 2 {
        "Practice 2/3"@
    } else {
        "Practice 3/3"@
    }
}

/// The console lines shown before the next line of input is read: the
/// practice header and viewing, or the recall question of the test.
pub open spec fn drill_prompt_spec(phase: DrillPhase, pass: Seq<char>) -> Seq<Seq<char>> {
    match phase {
        DrillPhase::Practice { round } => {
            let viewing = seq![""@, practice_number(round), "Password: "@ + pass];
            if round == 1 {
                seq!["Let's practice your password 3 times"@] + viewing
            } else {
                viewing
            }
        },
        DrillPhase::Test => seq!["Now try and remember your password!"@],
    }
}

/// The lines to print on entering a drill phase, the shown password
/// included. The first practice round also carries the drill's header.
pub fn drill_prompt(phase: &DrillPhase, pass: &String) -> (lines: Vec<String>)
    requires
        phase_wf(*phase),
    ensures
        lines.deep_view() == drill_prompt_spec(*phase, pass@),
{
    let mut lines: Vec<String> = Vec::new();
    match *phase {
        DrillPhase::Practice { round } => {
            if round == 1 {
                lines.push(String::from_str("Let's practice your password 3 times"));
            }
            lines.push(String::new());
            if round == 1 {
                lines.push(String::from_str("Practice 1/3"));
            } else if round == 2 {
                lines.push(String::from_str("Practice 2/3"));
            } else {
                lines.push(String::from_str("Practice 3/3"));
            }
            lines.push(String::from_str("Password: ").concat(pass.as_str()));
        },
        DrillPhase::Test => {
            lines.push(String::from_str("Now try and remember your password!"));
        },
    }
    proof {
        reveal_strlit("");
        assert(lines.deep_view() =~~= drill_prompt_spec(*phase, pass@));
    }
    lines
}

/// The console lines shown for a candidate password: the password itself
/// and the acceptance question, whose default answer is no.
pub open spec fn generation_prompt_spec(pass: Seq<char>) -> Seq<Seq<char>> {
    seq!["Generated password: "@ + pass, "Use password? [y/N]"@]
}

/// The lines to print when offering a freshly drawn candidate password.
pub fn generation_prompt(pass: &String) -> (lines: Vec<String>)
    ensures
        lines.deep_view() == generation_prompt_spec(pass@),
{
    let mut lines: Vec<String> = Vec::new();
    lines.push(String::from_str("Generated password: ").concat(pass.as_str()));
    lines.push(String::from_str("Use password? [y/N]"));
    proof {
        assert(lines.deep_view() =~~= generation_prompt_spec(pass@));
    }
    lines
}

} // verus!

