use vstd::prelude::*;
use vstd::string::*;


verus! {

/// The words that `shell_words::split` makes of a line, or `None` where it
/// reports an unterminated quote.
pub uninterp spec fn shell_split_of(line: Seq<char>) -> Option<Seq<Seq<char>>>;

/// Whether every character of `s` is a blank that the shell splitter skips
/// between words (space, tab, newline).
pub open spec fn all_blank(s: Seq<char>) -> bool {
    forall|i: int| 0 <= i < s.len() ==> (s[i] == ' ' || s[i] == '\t' || s[i] == '\n')
}

/// The message that `shell_words::ParseError` displays.
pub open spec fn unterminated_quote_text() -> Seq<char> {
    "missing closing quote"@
}

/// Relies on `shell_words::split`: its result is a function of the line
/// alone; a line made only of blanks gives no words; its only error is
/// `ParseError`, whose `Display` text is `unterminated_quote_text()`.
#[verifier::external_body]
pub(crate) fn shell_split(line: &str) -> (r: Result<Vec<String>, String>)
    ensures
        match r {
            Ok(words) => shell_split_of(line@) == Some(words.deep_view()),
            Err(msg) => shell_split_of(line@) is None && msg@ == unterminated_quote_text(),
        },
        all_blank(line@) ==> r is Ok && r->Ok_0@.len() == 0,
{
    match shell_words::split(line) {
        Ok(words) => Ok(words),
        Err(e) => Err(e.to_string()),
    }
}

/// Whether `cmd` is one of the reserved words that end the session
/// (compared case-sensitively).
pub open spec fn is_exit_keyword(cmd: Seq<char>) -> bool {
    cmd == "exit"@ || cmd == "quit"@ || cmd == "q"@
}

/// Whether `cmd` asks to end the session.
pub fn is_exit_command(cmd: &String) -> (r: bool)
    ensures
        r == is_exit_keyword(cmd@),
{
    let exit = String::from_str("exit");
    let quit = String::from_str("quit");
    let q = String::from_str("q");
    *cmd == exit || *cmd == quit || *cmd == q
}

/// What one line of input amounts to.
#[derive(Debug, PartialEq, Eq)]
pub enum LineOutcome {
    /// No words: nothing to do.
    Blank,
    /// The first word is a reserved exit word.
    Exit,
    /// A command name and its arguments.
    Command(String, Vec<String>),
    /// The line could not be split; the text reports why.
    Malformed(String),
}

/// The mathematical value of a [`LineOutcome`].
pub enum LineOutcomeView {
    Blank,
    Exit,
    Command(Seq<char>, Seq<Seq<char>>),
    Malformed(Seq<char>),
}

impl View for LineOutcome {
    type V = LineOutcomeView;

    open spec fn view(&self) -> LineOutcomeView {
        match self {
            LineOutcome::Blank => LineOutcomeView::Blank,
            LineOutcome::Exit => LineOutcomeView::Exit,
            LineOutcome::Command(cmd, args) => LineOutcomeView::Command(cmd@, args.deep_view()),
            LineOutcome::Malformed(msg) => LineOutcomeView::Malformed(msg@),
        }
    }
}

/// The report shown to the user for an input error with message `msg`.
pub open spec fn input_error_spec(msg: Seq<char>) -> Seq<char> {
    "[Input Error] "@ + msg
}

/// What a line split into `words` amounts to: nothing when there are no
/// words, the end of the session when the first is an exit word, otherwise
/// the first word as the command and the rest as its arguments.
pub open spec fn outcome_of_words(words: Seq<Seq<char>>) -> LineOutcomeView {
    if words.len() == 0 {
        LineOutcomeView::Blank
    } else if is_exit_keyword(words[0]) {
        LineOutcomeView::Exit
    } else {
        LineOutcomeView::Command(words[0], words.drop_first())
    }
}

/// What the raw line `line` amounts to.
pub open spec fn outcome_of_line(line: Seq<char>) -> LineOutcomeView {
    match shell_split_of(line) {
        Some(words) => outcome_of_words(words),
        None => LineOutcomeView::Malformed(input_error_spec(unterminated_quote_text())),
    }
}

/// The report shown to the user for an input error with message `msg`.
pub fn input_error_text(msg: &str) -> (r: String)
    ensures
        r@ == input_error_spec(msg@),
{
    let mut r = String::from_str("[Input Error] ");
    r.append(msg);
    r
}

/// Classifies a line already split into `words`.
pub fn classify_words(words: Vec<String>) -> (r: LineOutcome)
    ensures
        r@ == outcome_of_words(words.deep_view()),
{
    let mut words = words;
    if words.len() == 0 {
        return LineOutcome::Blank;
    }
    let ghost before = words.deep_view();
    let cmd = words.remove(0);
    assert(words.deep_view() =~= before.drop_first());
    if is_exit_command(&cmd) {
        LineOutcome::Exit
    } else {
        LineOutcome::Command(cmd, words)
    }
}

/// Classifies the result of splitting a line: the words as
/// [`classify_words`] does, an error as a report of its message.
pub fn classify_split(split: Result<Vec<String>, String>) -> (r: LineOutcome)
    ensures
        r@ == match split {
            Ok(words) => outcome_of_words(words.deep_view()),
            Err(msg) => LineOutcomeView::Malformed(input_error_spec(msg@)),
        },
{
    match split {
        Ok(words) => classify_words(words),
        Err(msg) => LineOutcome::Malformed(input_error_text(msg.as_str())),
    }
}

/// Splits a raw line the way a shell does and classifies it.
pub fn parse_line(line: &str) -> (r: LineOutcome)
    ensures
        r@ == outcome_of_line(line@),
        all_blank(line@) ==> r@ == LineOutcomeView::Blank,
{
    classify_split(shell_split(line))
}

} // verus!
