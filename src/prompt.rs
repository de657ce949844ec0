use vstd::prelude::*;
use vstd::string::*;

use crate::config::{Config, ConfigBuilder};
use crate::layout::app_name_ok;

verus! {

/// The answer that a yes/no question accepts: exactly `y` or exactly `n`.
pub open spec fn yn_spec(yn: Seq<char>) -> Option<bool> {
    if yn == "y"@ {
        Some(true)
    } else if yn == "n"@ {
        Some(false)
    } else {
        None
    }
}

pub fn yn_to_bool(yn: &str) -> (r: Option<bool>)
    ensures
        r == yn_spec(yn@),
{
    proof {
        reveal_strlit("y");
        reveal_strlit("n");
    }
    if yn.unicode_len() == 1 {
        let c = yn.get_char(0);
        if c == 'y' {
            assert(yn@ =~= "y"@);
            Some(true)
        } else if c == 'n' {
            assert(yn@ =~= "n"@);
            Some(false)
        } else {
            assert(yn@ != "y"@ && yn@ != "n"@) by {
                assert(yn@[0] != "y"@[0]);
                assert(yn@[0] != "n"@[0]);
            }
            None
        }
    } else {
        None
    }
}

/// An app name is accepted at the prompt when it is not empty.
pub fn is_valid_app_name(input: &str) -> (r: bool)
    ensures
        r == (input@.len() > 0),
{
    !input.is_empty()
}

/// Whether the context identifiers can be derived from an app name: it is not
/// empty and starts with an ASCII character.
pub fn app_name_supported(name: &str) -> (r: bool)
    ensures
        r == app_name_ok(name@),
{
    if name.is_empty() {
        false
    } else {
        let c = name.get_char(0);
        (c as u32) < 128
    }
}

/// The questions asked, in order.
#[derive(Clone, Copy, Debug, PartialEq, Eq, Structural)]
pub enum Question {
    AppName,
    Sessions,
    Turso,
    Htmx,
    Tailwind,
}

/// The prompt shown for each question.
pub open spec fn question_text_of(q: Question) -> Seq<char> {
    match q {
        Question::AppName => "enter the app name: "@,
        Question::Sessions => "would you like to use gorilla sessions? [y/n]: "@,
        Question::Turso => "would you like use turso? [y/n]: "@,
        Question::Htmx => "would you like use htmx? [y/n]: "@,
        Question::Tailwind => "would you like use tailwind? [y/n]: "@,
    }
}

pub fn question_text(q: Question) -> (r: &'static str)
    ensures
        r@ == question_text_of(q),
{
    match q {
        Question::AppName => "enter the app name: ",
        Question::Sessions => "would you like to use gorilla sessions? [y/n]: ",
        Question::Turso => "would you like use turso? [y/n]: ",
        Question::Htmx => "would you like use htmx? [y/n]: ",
        Question::Tailwind => "would you like use tailwind? [y/n]: ",
    }
}

/// What the interactive collection has gathered, and the question it asks next
/// (none once every answer is in).
pub ghost struct PromptView {
    pub asking: Option<Question>,
    pub app_name: Seq<char>,
    pub sessions: bool,
    pub turso: bool,
    pub htmx: bool,
    pub tailwind: bool,
}

/// Collects a configuration one answer at a time. A line that the current
/// question does not accept changes nothing, so the same question is asked again.
pub struct ConfigPrompt {
    asking: Option<Question>,
    app_name: String,
    sessions: bool,
    turso: bool,
    htmx: bool,
    tailwind: bool,
}

impl View for ConfigPrompt {
    type V = PromptView;

    closed spec fn view(&self) -> PromptView {
        PromptView {
            asking: self.asking,
            app_name: self.app_name@,
            sessions: self.sessions,
            turso: self.turso,
            htmx: self.htmx,
            tailwind: self.tailwind,
        }
    }
}

/// Past the first question, the app name that was accepted is not empty.
pub open spec fn prompt_wf(p: PromptView) -> bool {
    p.asking != Some(Question::AppName) ==> p.app_name.len() > 0
}

/// The state after one line of input.
pub open spec fn answer_spec(p: PromptView, line: Seq<char>) -> PromptView {
    match p.asking {
        Some(Question::AppName) => if line.len() > 0 {
            PromptView { asking: Some(Question::Sessions), app_name: line, ..p }
        } else {
            p
        },
        Some(Question::Sessions) => match yn_spec(line) {
            Some(b) => PromptView { asking: Some(Question::Turso), sessions: b, ..p },
            None => p,
        },
        Some(Question::Turso) => match yn_spec(line) {
            Some(b) => PromptView { asking: Some(Question::Htmx), turso: b, ..p },
            None => p,
        },
        Some(Question::Htmx) => match yn_spec(line) {
            Some(b) => PromptView { asking: Some(Question::Tailwind), htmx: b, ..p },
            None => p,
        },
        Some(Question::Tailwind) => match yn_spec(line) {
            Some(b) => PromptView { asking: None, tailwind: b, ..p },
            None => p,
        },
        None => p,
    }
}

impl ConfigPrompt {
    pub fn new() -> (r: Self)
        ensures
            r@ == (PromptView {
                asking: Some(Question::AppName),
                app_name: Seq::empty(),
                sessions: false,
                turso: false,
                htmx: false,
                tailwind: false,
            }),
            prompt_wf(r@),
    {
        ConfigPrompt {
            asking: Some(Question::AppName),
            app_name: String::new(),
            sessions: false,
            turso: false,
            htmx: false,
            tailwind: false,
        }
    }

    /// The question to ask next, if any is left.
    pub fn asking(&self) -> (r: Option<Question>)
        ensures
            r == self@.asking,
    {
        self.asking
    }

    /// Takes one line of input (already trimmed) as the answer to the current question.
    pub fn answer(self, line: &str) -> (r: Self)
        requires
            prompt_wf(self@),
        ensures
            r@ == answer_spec(self@, line@),
            prompt_wf(r@),
    {
        match self.asking {
            Some(Question::AppName) => if is_valid_app_name(line) {
                ConfigPrompt { asking: Some(Question::Sessions), app_name: String::from_str(line), ..self }
            } else {
                self
            },
            Some(Question::Sessions) => match yn_to_bool(line) {
                Some(b) => ConfigPrompt { asking: Some(Question::Turso), sessions: b, ..self },
                None => self,
            },
            Some(Question::Turso) => match yn_to_bool(line) {
                Some(b) => ConfigPrompt { asking: Some(Question::Htmx), turso: b, ..self },
                None => self,
            },
            Some(Question::Htmx) => match yn_to_bool(line) {
                Some(b) => ConfigPrompt { asking: Some(Question::Tailwind), htmx: b, ..self },
                None => self,
            },
            Some(Question::Tailwind) => match yn_to_bool(line) {
                Some(b) => ConfigPrompt { asking: None, tailwind: b, ..self },
                None => self,
            },
            None => self,
        }
    }

    /// The configuration gathered; the live-reload flag is not asked for and stays off.
    pub fn finish(self) -> (r: Config)
        requires
            self@.asking is None,
        ensures
            r.app_name@ == self@.app_name,
            r.sessions == self@.sessions,
            r.turso == self@.turso,
            r.htmx == self@.htmx,
            r.tailwind == self@.tailwind,
            !r.air,
    {
        ConfigBuilder::new()
            .add_app_name(self.app_name)
            .add_sessions(self.sessions)
            .add_turso(self.turso)
            .add_htmx(self.htmx)
            .add_tailwind(self.tailwind)
            .out()
    }
}

/// An empty line never becomes the app name: while the app name is asked for,
/// any number of empty lines leave the collection where it was, asking again.
pub proof fn lemma_empty_name_reprompts(p: PromptView, n: nat)
    requires
        p.asking == Some(Question::AppName),
    ensures
        answer_spec(p, Seq::empty()) == p,
        answers_of(p, Seq::new(n, |i: int| Seq::<char>::empty())) == p,
    decreases n,
{
    if n > 0 {
        let lines = Seq::new(n, |i: int| Seq::<char>::empty());
        assert(lines.drop_first() =~= Seq::new((n - 1) as nat, |i: int| Seq::<char>::empty()));
        lemma_empty_name_reprompts(p, (n - 1) as nat);
    }
}

/// The state after a run of input lines, one after another.
pub open spec fn answers_of(p: PromptView, lines: Seq<Seq<char>>) -> PromptView
    decreases lines.len(),
{
    if lines.len() == 0 {
        p
    } else {
        answers_of(answer_spec(p, lines[0]), lines.drop_first())
    }
}

} // verus!
