//! The prompt engine: renders questions and decides, line by line, whether
//! an answer is accepted.
use vstd::prelude::*;
use vstd::string::StringExecFns;
use crate::palette::Colors;
use crate::text::{lowercase, lowered, owned, same_text, trim_line, trimmed};

verus! {

/// How an answer is checked and normalised.
#[derive(Clone, Copy, PartialEq, Eq, Structural, Debug)]
pub enum Completed {
    /// A yes/no question: the answer is lower-cased and must be `y` or `n`.
    Confirm,
    /// A free-form answer, checked by an optional validator.
    Input,
}

/// What the engine decided about one line of input.
pub enum PromptStep {
    /// The line was rejected: show `feedback` and ask again.
    Retry { feedback: String },
    /// The line was accepted as `answer`; `echo` is the permanent line to
    /// print in place of the transient one, when one is kept.
    Accept { answer: String, echo: Option<String> },
}

/// The text of a yes/no question as shown to the user.
pub open spec fn confirm_question(message: Seq<char>) -> Seq<char> {
    message + " (y/n)"@
}

/// Whether a normalised yes/no answer is one of the two accepted ones.
pub open spec fn is_yes_no(a: Seq<char>) -> bool {
    a == "y"@ || a == "n"@
}

/// The text shown for a question of the given kind.
pub open spec fn question_for(option: Completed, message: Seq<char>) -> Seq<char> {
    match option {
        Completed::Confirm => confirm_question(message),
        Completed::Input => message,
    }
}

/// What an answer becomes before it is checked.
pub open spec fn normalised(option: Completed, raw: Seq<char>) -> Seq<char> {
    match option {
        Completed::Confirm => lowered(trimmed(raw)),
        Completed::Input => trimmed(raw),
    }
}

/// Whether `f` may return `true` on a string holding `s`.
pub open spec fn may_accept<F: Fn(&str) -> bool>(f: F, s: Seq<char>) -> bool {
    exists|x: &str| x@ == s && call_ensures(f, (x,), true)
}

/// Whether `f` may return `false` on a string holding `s`.
pub open spec fn may_reject<F: Fn(&str) -> bool>(f: F, s: Seq<char>) -> bool {
    exists|x: &str| x@ == s && call_ensures(f, (x,), false)
}

/// Whether `f` can be called on every string.
pub open spec fn callable<F: Fn(&str) -> bool>(f: F) -> bool {
    forall|x: &str| call_requires(f, (x,))
}

/// The message shown after a rejected free-form answer.
pub open spec fn invalid_input_text() -> Seq<char> {
    "\u{d7} Invalid input. Try again."@
}

/// The message shown after a rejected yes/no answer.
pub open spec fn yes_no_text() -> Seq<char> {
    "\u{d7} Please answer with 'y' or 'n'."@
}

/// The terminal sequence that moves the cursor up one line and clears it.
pub open spec fn erase_text() -> Seq<char> {
    "\x1b[F\x1b[K"@
}

/// The renderer and decision maker for interactive questions.
pub struct KPrompts {
    pub colors: Colors,
}

impl KPrompts {
    /// The transient line shown while waiting for input to `text`.
    pub open spec fn spec_input_line(&self, text: Seq<char>) -> Seq<char> {
        self.colors.white@ + self.colors.cyan@ + "? "@ + self.colors.white@ + text + " "@
            + self.colors.grey@ + " \u{bb} "@
    }

    /// The permanent line that records an accepted answer.
    pub open spec fn spec_final_line(&self, question: Seq<char>, answer: Seq<char>) -> Seq<char> {
        self.colors.green@ + "\u{221a}"@ + self.colors.white@ + " "@ + question
            + self.colors.grey@ + " \u{bb} "@ + answer
    }

    /// An error-styled line.
    pub open spec fn spec_feedback_line(&self, text: Seq<char>) -> Seq<char> {
        self.colors.white@ + self.colors.red@ + text + self.colors.white@
    }

    /// An engine with the standard palette.
    pub fn new() -> (r: KPrompts)
        ensures
            r.colors.is_standard(),
    {
        KPrompts { colors: Colors::new() }
    }

    /// The question text for `message` under the given kind.
    pub fn question(option: &Completed, message: &str) -> (r: String)
        ensures
            r@ == question_for(*option, message@),
    {
        match option {
            Completed::Confirm => owned(message).concat(" (y/n)"),
            Completed::Input => owned(message),
        }
    }

    /// The transient line shown while waiting for input to `text`.
    pub fn input_line(&self, text: &str) -> (r: String)
        ensures
            r@ == self.spec_input_line(text@),
    {
        let s = owned(self.colors.white.as_str()).concat(self.colors.cyan.as_str()).concat("? ");
        s.concat(self.colors.white.as_str()).concat(text).concat(" ").concat(
            self.colors.grey.as_str(),
        ).concat(" \u{bb} ")
    }

    /// The sequence that erases the transient input line.
    pub fn erase_line() -> (r: String)
        ensures
            r@ == erase_text(),
    {
        owned("\x1b[F\x1b[K")
    }

    /// The permanent line that records `answer` to `question`.
    pub fn final_line(&self, question: &str, answer: &str) -> (r: String)
        ensures
            r@ == self.spec_final_line(question@, answer@),
    {
        let s = owned(self.colors.green.as_str()).concat("\u{221a}").concat(
            self.colors.white.as_str(),
        ).concat(" ");
        s.concat(question).concat(self.colors.grey.as_str()).concat(" \u{bb} ").concat(answer)
    }

    /// An error-styled line holding `text`.
    pub fn feedback_line(&self, text: &str) -> (r: String)
        ensures
            r@ == self.spec_feedback_line(text@),
    {
        owned(self.colors.white.as_str()).concat(self.colors.red.as_str()).concat(text).concat(
            self.colors.white.as_str(),
        )
    }
    /// Whether `step` is the decision owed for the normalised `answer` to
    /// `message`: accepted answers are echoed when `keep` is absent or true.
    pub open spec fn decided<F: Fn(&str) -> bool>(
        &self,
        option: Completed,
        message: Seq<char>,
        validate: Option<&F>,
        keep: Option<bool>,
        answer: Seq<char>,
        step: PromptStep,
    ) -> bool {
        match step {
            PromptStep::Accept { answer: a, echo } => {
                &&& a@ == answer
                &&& match option {
                    Completed::Confirm => is_yes_no(answer),
                    Completed::Input => match validate {
                        Some(f) => may_accept(*f, answer),
                        None => true,
                    },
                }
                &&& match echo {
                    Some(e) => keep != Some(false) && e@ == self.spec_final_line(message, answer),
                    None => keep == Some(false),
                }
            },
            PromptStep::Retry { feedback } => match option {
                Completed::Confirm => !is_yes_no(answer) && feedback@
                    == self.spec_feedback_line(yes_no_text()),
                Completed::Input => match validate {
                    Some(f) => may_reject(*f, answer) && feedback@ == self.spec_feedback_line(
                        invalid_input_text(),
                    ),
                    None => false,
                },
            },
        }
    }

    /// Decides on an answer that is already normalised (trimmed, and for a
    /// yes/no question lower-cased).
    pub fn decide<F: Fn(&str) -> bool>(
        &self,
        option: &Completed,
        message: &str,
        validate: Option<&F>,
        keep: Option<bool>,
        answer: &str,
    ) -> (r: PromptStep)
        requires
            validate matches Some(f) ==> callable(*f),
        ensures
            self.decided(*option, message@, validate, keep, answer@, r),
    {
        let ok = match option {
            Completed::Confirm => same_text(answer, "y") || same_text(answer, "n"),
            Completed::Input => match validate {
                Some(f) => {
                    let v = f(answer);
                    proof {
                        if v {
                            assert(may_accept(*f, answer@));
                        } else {
                            assert(may_reject(*f, answer@));
                        }
                    }
                    v
                },
                None => true,
            },
        };
        if ok {
            let echo = match keep {
                Some(false) => None,
                _ => Some(self.final_line(message, answer)),
            };
            PromptStep::Accept { answer: owned(answer), echo }
        } else {
            let text = match option {
                Completed::Confirm => "\u{d7} Please answer with 'y' or 'n'.",
                Completed::Input => "\u{d7} Invalid input. Try again.",
            };
            PromptStep::Retry { feedback: self.feedback_line(text) }
        }
    }

    /// Decides on one raw line of input to `message`: the line is trimmed,
    /// lower-cased for a yes/no question, then checked.
    pub fn prompt<F: Fn(&str) -> bool>(
        &self,
        option: Completed,
        message: &str,
        validate: Option<&F>,
        keep: Option<bool>,
        line: &str,
    ) -> (r: PromptStep)
        requires
            validate matches Some(f) ==> callable(*f),
        ensures
            self.decided(option, message@, validate, keep, normalised(option, line@), r),
    {
        let t = trim_line(line);
        match option {
            Completed::Confirm => {
                let l = lowercase(t.as_str());
                self.decide(&option, message, validate, keep, l.as_str())
            },
            Completed::Input => self.decide(&option, message, validate, keep, t.as_str()),
        }
    }
}

} // verus!
