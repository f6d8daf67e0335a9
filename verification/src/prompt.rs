//! Asking the user for a passphrase or a secret.

use vstd::prelude::*;
use vstd::string::StringExecFns;
use crate::effect::Reply;
use crate::effect::ReplyModel;
use crate::effect::Request;
use crate::effect::RequestModel;
use crate::effect::Step;
use crate::effect::step_view;
use crate::text::decimal;
use crate::text::decimal_text;
use crate::text::parse_index;
use crate::text::unsigned;
use crate::Error;
use crate::ErrorModel;

verus! {

/// How far an entry has come.
#[derive(Debug)]
pub enum EntryPhase {
    /// The choices are not shown yet.
    Listing,
    /// Nothing is read yet, and it is not known how to read.
    Probing,
    /// Nothing is read yet; `tty` says whether standard input is a terminal.
    Reading { tty: bool },
    /// The first line is read and was no choice; it is not known how to read
    /// the second.
    Reprobing { first: String },
    /// The first line is read; the second is not.
    Rereading { first: String, tty: bool },
}

/// The model of [`EntryPhase`].
pub enum EntryPhaseModel {
    Listing,
    Probing,
    Reading { tty: bool },
    Reprobing { first: Seq<char> },
    Rereading { first: Seq<char>, tty: bool },
}

impl View for EntryPhase {
    type V = EntryPhaseModel;

    open spec fn view(&self) -> EntryPhaseModel {
        match self {
            EntryPhase::Listing => EntryPhaseModel::Listing,
            EntryPhase::Probing => EntryPhaseModel::Probing,
            EntryPhase::Reading { tty } => EntryPhaseModel::Reading { tty: *tty },
            EntryPhase::Reprobing { first } => EntryPhaseModel::Reprobing { first: first@ },
            EntryPhase::Rereading { first, tty } => EntryPhaseModel::Rereading {
                first: first@,
                tty: *tty,
            },
        }
    }
}

/// The entry of one line of secret text: read once, or read twice and
/// compared, or picked by its number from a list of choices.
#[derive(Debug)]
pub struct Entry {
    prompt: String,
    confirm: Option<String>,
    choices: Option<Vec<String>>,
    phase: EntryPhase,
}

/// The model of [`Entry`].
pub struct EntryModel {
    /// What the first reading asks.
    pub prompt: Seq<char>,
    /// What the second reading asks, where there is one.
    pub confirm: Option<Seq<char>>,
    /// The choices on offer, where there are any.
    pub choices: Option<Seq<Seq<char>>>,
    pub phase: EntryPhaseModel,
}

impl View for Entry {
    type V = EntryModel;

    closed spec fn view(&self) -> EntryModel {
        EntryModel {
            prompt: self.prompt@,
            confirm: self.confirm.deep_view(),
            choices: self.choices.deep_view(),
            phase: self.phase@,
        }
    }
}

/// The entry of a line that is read once.
pub open spec fn password_entry(prompt: Seq<char>) -> EntryModel {
    EntryModel { prompt, confirm: None, choices: None, phase: EntryPhaseModel::Probing }
}

/// The entry of a line that is read twice.
pub open spec fn secret_entry(prompt: Seq<char>, confirm: Seq<char>) -> EntryModel {
    EntryModel { prompt, confirm: Some(confirm), choices: None, phase: EntryPhaseModel::Probing }
}

/// The entry of a line that is either the number of a choice or a new secret,
/// read twice.
pub open spec fn choice_entry(
    prompt: Seq<char>,
    confirm: Seq<char>,
    choices: Seq<Seq<char>>,
) -> EntryModel {
    EntryModel {
        prompt,
        confirm: Some(confirm),
        choices: Some(choices),
        phase: EntryPhaseModel::Listing,
    }
}

/// The lines that offer the choices: each with its number, counted from zero.
pub open spec fn listing_lines(choices: Seq<Seq<char>>) -> Seq<char>
    decreases choices.len(),
{
    if choices.len() == 0 {
        Seq::empty()
    } else {
        listing_lines(choices.drop_last()) + decimal((choices.len() - 1) as nat) + ". "@
            + choices.last() + "\n"@
    }
}

/// What is printed to offer the choices: their lines between two empty lines.
pub open spec fn listing(choices: Seq<Seq<char>>) -> Seq<char> {
    "\n"@ + listing_lines(choices) + "\n"@
}

/// The choice that a line picks: the line writes a number, and the choices
/// have one of that number.
pub open spec fn picked(line: Seq<char>, choices: Option<Seq<Seq<char>>>) -> Option<Seq<char>> {
    match (unsigned(line), choices) {
        (Some(n), Some(offered)) => if n < offered.len() {
            Some(offered[n as int])
        } else {
            None
        },
        _ => None,
    }
}

/// The line that a reply to a reading gives: the line read, or the empty line
/// where reading failed.
pub open spec fn line_of(reply: ReplyModel) -> Option<Seq<char>> {
    match reply {
        ReplyModel::Line(line) => Some(line),
        ReplyModel::Failed(e) => Some(Seq::empty()),
        _ => None,
    }
}

/// The request for a reading.
pub open spec fn reading(prompt: Seq<char>, tty: bool) -> RequestModel {
    if tty {
        RequestModel::ReadPasswordFromTty(prompt)
    } else {
        RequestModel::PromptPasswordStderr(prompt)
    }
}

/// The request that an entry waits on.
pub open spec fn entry_pending(e: EntryModel) -> RequestModel {
    match e.phase {
        EntryPhaseModel::Listing => RequestModel::Print(
            listing(
                match e.choices {
                    Some(offered) => offered,
                    None => Seq::empty(),
                },
            ),
        ),
        EntryPhaseModel::Probing => RequestModel::StdinIsTty,
        EntryPhaseModel::Reading { tty } => reading(e.prompt, tty),
        EntryPhaseModel::Reprobing { first } => RequestModel::StdinIsTty,
        EntryPhaseModel::Rereading { first, tty } => reading(
            match e.confirm {
                Some(confirm) => confirm,
                None => Seq::empty(),
            },
            tty,
        ),
    }
}

/// The entry in another phase.
pub open spec fn entry_in(e: EntryModel, phase: EntryPhaseModel) -> EntryModel {
    EntryModel { prompt: e.prompt, confirm: e.confirm, choices: e.choices, phase }
}

/// What follows the first line: the choice that it picks; else, where the
/// entry reads twice, the second reading; else the line itself.
pub open spec fn after_first(e: EntryModel, first: Seq<char>) -> Step<
    EntryModel,
    Result<Seq<char>, ErrorModel>,
> {
    match picked(first, e.choices) {
        Some(choice) => Step::Finished(Ok(choice)),
        None => if e.confirm is Some {
            Step::Pending(entry_in(e, EntryPhaseModel::Reprobing { first }))
        } else {
            Step::Finished(Ok(first))
        },
    }
}

/// The step that a reply brings about. A reply of a kind that the pending
/// request cannot have is disregarded.
pub open spec fn entry_advance(e: EntryModel, reply: ReplyModel) -> Step<
    EntryModel,
    Result<Seq<char>, ErrorModel>,
> {
    match e.phase {
        EntryPhaseModel::Listing => match reply {
            ReplyModel::Done => Step::Pending(entry_in(e, EntryPhaseModel::Probing)),
            _ => Step::Pending(e),
        },
        EntryPhaseModel::Probing => match reply {
            ReplyModel::Flag(tty) => Step::Pending(entry_in(e, EntryPhaseModel::Reading { tty })),
            _ => Step::Pending(e),
        },
        EntryPhaseModel::Reading { tty } => match line_of(reply) {
            Some(first) => after_first(e, first),
            None => Step::Pending(e),
        },
        EntryPhaseModel::Reprobing { first } => match reply {
            ReplyModel::Flag(tty) => Step::Pending(
                entry_in(e, EntryPhaseModel::Rereading { first, tty }),
            ),
            _ => Step::Pending(e),
        },
        EntryPhaseModel::Rereading { first, tty } => match line_of(reply) {
            Some(second) => if first == second {
                Step::Finished(Ok(first))
            } else {
                Step::Finished(Err(ErrorModel::InputsDidntMatch))
            },
            None => Step::Pending(e),
        },
    }
}

/// Starts the reading of one line, without echo where it can be had.
pub fn read_password(prompt: &str) -> (r: Entry)
    ensures
        r@ == password_entry(prompt@),
{
    Entry {
        prompt: String::from_str(prompt),
        confirm: None,
        choices: None,
        phase: EntryPhase::Probing,
    }
}

/// Starts the entry of a secret that is typed twice. It fails where the two
/// lines differ.
pub fn read_secret(prompt1: &str, prompt2: &str) -> (r: Entry)
    ensures
        r@ == secret_entry(prompt1@, prompt2@),
{
    Entry {
        prompt: String::from_str(prompt1),
        confirm: Some(String::from_str(prompt2)),
        choices: None,
        phase: EntryPhase::Probing,
    }
}

/// Starts the entry of a secret that is picked from `choices` by its number,
/// or typed twice.
pub fn read_secret_or_choice(prompt1: &str, prompt2: &str, choices: &Vec<String>) -> (r: Entry)
    ensures
        r@ == choice_entry(prompt1@, prompt2@, choices.deep_view()),
{
    Entry {
        prompt: String::from_str(prompt1),
        confirm: Some(String::from_str(prompt2)),
        choices: Some(choices.clone()),
        phase: EntryPhase::Listing,
    }
}

/// Writes the lines that offer the choices.
pub fn listing_text(choices: &Vec<String>) -> (r: String)
    ensures
        r@ == listing(choices.deep_view()),
{
    let mut text = String::from_str("\n");
    let mut i: usize = 0;
    let ghost offered = choices.deep_view();
    assert(offered.take(0) =~= Seq::<Seq<char>>::empty());
    while i < choices.len()
        invariant
            i <= choices.len(),
            offered == choices.deep_view(),
            text@ == "\n"@ + listing_lines(offered.take(i as int)),
        decreases choices.len() - i,
    {
        proof {
            let more = offered.take(i + 1);
            assert(more.drop_last() =~= offered.take(i as int));
            assert(more.last() == choices@[i as int]@);
        }
        let ghost before = text@;
        text.append(decimal_text(i as u128).as_str());
        text.append(". ");
        text.append(choices[i].as_str());
        text.append("\n");
        assert(text@ =~= "\n"@ + listing_lines(offered.take(i + 1)));
        i = i + 1;
    }
    assert(offered.take(choices.len() as int) =~= offered);
    text.append("\n");
    text
}

fn reading_request(prompt: &str, tty: bool) -> (r: Request)
    ensures
        r@ == reading(prompt@, tty),
{
    if tty {
        Request::ReadPasswordFromTty(String::from_str(prompt))
    } else {
        Request::PromptPasswordStderr(String::from_str(prompt))
    }
}

/// The line that a reply to a reading gives.
fn reply_line(reply: Reply) -> (r: Option<String>)
    ensures
        r.deep_view() == line_of(reply@),
{
    match reply {
        Reply::Line(line) => Some(line),
        Reply::Failed(_) => Some(String::new()),
        _ => None,
    }
}

/// The choice that a line picks.
pub fn pick(line: &str, choices: &Option<Vec<String>>) -> (r: Option<String>)
    ensures
        r.deep_view() == picked(line@, choices.deep_view()),
{
    assert(choices matches Some(offered) ==> offered.deep_view().len() == offered.len());
    match choices {
        Some(offered) => match parse_index(line) {
            Some(n) => {
                if n < offered.len() {
                    assert(offered.deep_view()[n as int] == offered@[n as int]@);
                    Some(offered[n].clone())
                } else {
                    None
                }
            },
            None => None,
        },
        None => None,
    }
}

impl Entry {
    /// The request that the entry waits on.
    pub fn request(&self) -> (r: Request)
        ensures
            r@ == entry_pending(self@),
    {
        match &self.phase {
            EntryPhase::Listing => match &self.choices {
                Some(offered) => Request::Print(listing_text(offered)),
                None => {
                    let none: Vec<String> = Vec::new();
                    assert(none.deep_view() =~= Seq::<Seq<char>>::empty());
                    Request::Print(listing_text(&none))
                },
            },
            EntryPhase::Probing => Request::StdinIsTty,
            EntryPhase::Reading { tty } => reading_request(self.prompt.as_str(), *tty),
            EntryPhase::Reprobing { first } => Request::StdinIsTty,
            EntryPhase::Rereading { first, tty } => match &self.confirm {
                Some(confirm) => reading_request(confirm.as_str(), *tty),
                None => {
                    proof {
                        reveal_strlit("");
                    }
                    assert(""@ =~= Seq::<char>::empty());
                    reading_request("", *tty)
                },
            },
        }
    }

    /// Takes the reply to the pending request.
    pub fn resume(self, reply: Reply) -> (r: Step<Entry, Result<String, Error>>)
        ensures
            step_view(r) == entry_advance(self@, reply@),
    {
        let Entry { prompt, confirm, choices, phase } = self;
        match phase {
            EntryPhase::Listing => match reply {
                Reply::Done => Step::Pending(
                    Entry { prompt, confirm, choices, phase: EntryPhase::Probing },
                ),
                _ => Step::Pending(Entry { prompt, confirm, choices, phase: EntryPhase::Listing }),
            },
            EntryPhase::Probing => match reply {
                Reply::Flag(tty) => Step::Pending(
                    Entry { prompt, confirm, choices, phase: EntryPhase::Reading { tty } },
                ),
                _ => Step::Pending(Entry { prompt, confirm, choices, phase: EntryPhase::Probing }),
            },
            EntryPhase::Reading { tty } => match reply_line(reply) {
                Some(first) => match pick(first.as_str(), &choices) {
                    Some(choice) => Step::Finished(Ok(choice)),
                    None => if confirm.is_some() {
                        Step::Pending(
                            Entry {
                                prompt,
                                confirm,
                                choices,
                                phase: EntryPhase::Reprobing { first },
                            },
                        )
                    } else {
                        Step::Finished(Ok(first))
                    },
                },
                None => Step::Pending(
                    Entry { prompt, confirm, choices, phase: EntryPhase::Reading { tty } },
                ),
            },
            EntryPhase::Reprobing { first } => match reply {
                Reply::Flag(tty) => Step::Pending(
                    Entry { prompt, confirm, choices, phase: EntryPhase::Rereading { first, tty } },
                ),
                _ => Step::Pending(
                    Entry { prompt, confirm, choices, phase: EntryPhase::Reprobing { first } },
                ),
            },
            EntryPhase::Rereading { first, tty } => match reply_line(reply) {
                Some(second) => if first == second {
                    Step::Finished(Ok(first))
                } else {
                    Step::Finished(Err(Error::InputsDidntMatch))
                },
                None => Step::Pending(
                    Entry { prompt, confirm, choices, phase: EntryPhase::Rereading { first, tty } },
                ),
            },
        }
    }
}

} // verus!
