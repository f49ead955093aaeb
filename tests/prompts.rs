use create_kapp::palette::Colors;
use create_kapp::prompts::{Completed, KPrompts, PromptStep};
use create_kapp::workflow::non_empty;

fn accepted(step: &PromptStep) -> Option<String> {
    match step {
        PromptStep::Accept { answer, .. } => Some(answer.clone()),
        PromptStep::Retry { .. } => None,
    }
}

#[test]
fn palette_holds_the_five_styles() {
    let c = Colors::new();
    assert_eq!(c.cyan, "\x1b[0;96m");
    assert_eq!(c.green, "\x1b[0;92m");
    assert_eq!(c.red, "\x1b[0;91m");
    assert_eq!(c.white, "\x1b[0;97m");
    assert_eq!(c.grey, "\x1b[1;30m");
}

#[test]
fn validator_rejects_until_valid() {
    let p = KPrompts::new();
    let v = |s: &str| non_empty(s);
    let msg = "Setup the project in (specify folder)...?";
    let mut rejections = 0;
    let mut result = None;
    for line in ["", "", "ok"] {
        match p.prompt(Completed::Input, msg, Some(&v), Some(true), line) {
            PromptStep::Retry { feedback } => {
                assert_eq!(feedback, "\x1b[0;97m\x1b[0;91m\u{d7} Invalid input. Try again.\x1b[0;97m");
                rejections += 1;
            }
            PromptStep::Accept { answer, echo } => {
                assert_eq!(echo, Some(p.final_line(msg, "ok")));
                result = Some(answer);
                break;
            }
        }
    }
    assert_eq!(rejections, 2);
    assert_eq!(result, Some("ok".to_string()));
}

#[test]
fn input_is_trimmed() {
    let p = KPrompts::new();
    let step = p.prompt::<fn(&str) -> bool>(Completed::Input, "q", None, None, "  myapp \n");
    assert_eq!(accepted(&step), Some("myapp".to_string()));
}

#[test]
fn whitespace_only_is_rejected_by_non_empty() {
    let p = KPrompts::new();
    let v = |s: &str| non_empty(s);
    let step = p.prompt(Completed::Input, "q", Some(&v), None, "   \n");
    assert!(matches!(step, PromptStep::Retry { .. }));
}

#[test]
fn no_validator_accepts_empty() {
    let p = KPrompts::new();
    let step = p.prompt::<fn(&str) -> bool>(Completed::Input, "q", None, None, "");
    assert_eq!(accepted(&step), Some(String::new()));
}

#[test]
fn confirmation_normalises_case() {
    let p = KPrompts::new();
    for (line, want) in [("Y", "y"), ("y", "y"), ("N", "n"), ("n", "n"), (" Y\n", "y")] {
        let step = p.prompt::<fn(&str) -> bool>(Completed::Confirm, "Go on?", None, Some(true), line);
        assert_eq!(accepted(&step), Some(want.to_string()));
    }
}

#[test]
fn confirmation_rejects_other_answers() {
    let p = KPrompts::new();
    for line in ["maybe", "", "yes", "no"] {
        let step = p.prompt::<fn(&str) -> bool>(Completed::Confirm, "Go on?", None, Some(true), line);
        match step {
            PromptStep::Retry { feedback } => assert_eq!(
                feedback,
                "\x1b[0;97m\x1b[0;91m\u{d7} Please answer with 'y' or 'n'.\x1b[0;97m"
            ),
            PromptStep::Accept { .. } => panic!("accepted {:?}", line),
        }
    }
}

#[test]
fn confirmation_ignores_validator() {
    let p = KPrompts::new();
    let never = |_: &str| false;
    let step = p.prompt(Completed::Confirm, "Go on?", Some(&never), None, "y");
    assert_eq!(accepted(&step), Some("y".to_string()));
}

#[test]
fn echo_follows_keep() {
    let p = KPrompts::new();
    let kept = p.prompt::<fn(&str) -> bool>(Completed::Input, "Name?", None, None, "a");
    let dropped = p.prompt::<fn(&str) -> bool>(Completed::Input, "Name?", None, Some(false), "a");
    match kept {
        PromptStep::Accept { echo, .. } => {
            assert_eq!(echo, Some("\x1b[0;92m\u{221a}\x1b[0;97m Name?\x1b[1;30m \u{bb} a".to_string()))
        }
        _ => panic!("rejected"),
    }
    assert!(matches!(dropped, PromptStep::Accept { echo: None, .. }));
}

#[test]
fn question_and_input_line_rendering() {
    let p = KPrompts::new();
    assert_eq!(KPrompts::question(&Completed::Confirm, "Go on?"), "Go on? (y/n)");
    assert_eq!(KPrompts::question(&Completed::Input, "Go on?"), "Go on?");
    assert_eq!(
        p.input_line("Name?"),
        "\x1b[0;97m\x1b[0;96m? \x1b[0;97mName? \x1b[1;30m \u{bb} "
    );
    assert_eq!(KPrompts::erase_line(), "\x1b[F\x1b[K");
    assert_eq!(p.feedback_line("bad"), "\x1b[0;97m\x1b[0;91mbad\x1b[0;97m");
}
