//! What the loop writes: lines of text, each for one of the two output
//! channels, and the wording of the prompt and of the diagnostics.

use vstd::prelude::*;

verus! {

/// The channel that a line is written to.
#[derive(Clone, Copy, PartialEq, Eq, Debug, Structural)]
pub enum Channel {
    /// Standard output: the prompt, the accepted path, the lines of a file.
    Stdout,
    /// Standard error: the diagnostics.
    Stderr,
}

/// One line to write. The text holds no line end: the writer adds it.
#[derive(Clone, PartialEq, Eq, Debug)]
pub struct Emission {
    pub channel: Channel,
    pub text: String,
}

/// The mathematical value of an [`Emission`].
pub struct EmissionView {
    pub channel: Channel,
    pub text: Seq<char>,
}

impl View for Emission {
    type V = EmissionView;

    open spec fn view(&self) -> EmissionView {
        EmissionView { channel: self.channel, text: self.text@ }
    }
}

impl DeepView for Emission {
    type V = EmissionView;

    open spec fn deep_view(&self) -> EmissionView {
        self@
    }
}

/// The line `text` on standard output.
pub open spec fn on_stdout(text: Seq<char>) -> EmissionView {
    EmissionView { channel: Channel::Stdout, text }
}

/// The line `text` on standard error.
pub open spec fn on_stderr(text: Seq<char>) -> EmissionView {
    EmissionView { channel: Channel::Stderr, text }
}

/// The texts that `emitted` holds for `channel`, in order.
pub open spec fn written(emitted: Seq<EmissionView>, channel: Channel) -> Seq<Seq<char>>
    decreases emitted.len(),
{
    if emitted.len() == 0 {
        seq![]
    } else if emitted.last().channel == channel {
        written(emitted.drop_last(), channel).push(emitted.last().text)
    } else {
        written(emitted.drop_last(), channel)
    }
}

/// The prompt.
pub open spec fn prompt_text() -> Seq<char> {
    "Path of the file to echo:"@
}

/// The diagnostic for a path at which nothing exists.
pub open spec fn missing_text(path: Seq<char>) -> Seq<char> {
    "File does not exist: "@ + path
}

/// The diagnostic for a path at which something other than a regular file
/// exists.
pub open spec fn not_a_file_text(path: Seq<char>) -> Seq<char> {
    "Path is not a file: "@ + path
}

/// The diagnostic for a validated file that could not be opened.
pub open spec fn open_failure_text(path: Seq<char>, cause: Seq<char>) -> Seq<char> {
    "Error while opening the file '"@ + path + "': "@ + cause
}

/// The diagnostic for a line that could not be read or decoded.
pub open spec fn line_failure_text(cause: Seq<char>) -> Seq<char> {
    "Error reading line: "@ + cause
}

/// The diagnostic for a standard input that could not be read.
pub open spec fn input_failure_text(cause: Seq<char>) -> Seq<char> {
    "Failed to read from stdin.: "@ + cause
}

impl Emission {
    /// A line for standard output.
    pub fn stdout(text: String) -> (emission: Emission)
        ensures
            emission@ == on_stdout(text@),
    {
        Emission { channel: Channel::Stdout, text }
    }

    /// A line for standard error.
    pub fn stderr(text: String) -> (emission: Emission)
        ensures
            emission@ == on_stderr(text@),
    {
        Emission { channel: Channel::Stderr, text }
    }
}

/// The prompt, on standard output.
pub fn prompt() -> (emission: Emission)
    ensures
        emission@ == on_stdout(prompt_text()),
{
    Emission::stdout(String::from_str("Path of the file to echo:"))
}

/// Reports, on standard error, that nothing exists at `path`.
pub fn report_missing(path: &str) -> (emission: Emission)
    ensures
        emission@ == on_stderr(missing_text(path@)),
{
    Emission::stderr(String::from_str("File does not exist: ").concat(path))
}

/// Reports, on standard error, that `path` names no regular file.
pub fn report_not_a_file(path: &str) -> (emission: Emission)
    ensures
        emission@ == on_stderr(not_a_file_text(path@)),
{
    Emission::stderr(String::from_str("Path is not a file: ").concat(path))
}

/// Reports, on standard error, that the file at `path` could not be opened,
/// and why.
pub fn report_open_failure(path: &str, cause: &str) -> (emission: Emission)
    ensures
        emission@ == on_stderr(open_failure_text(path@, cause@)),
{
    Emission::stderr(
        String::from_str("Error while opening the file '").concat(path).concat("': ").concat(cause),
    )
}

/// Reports, on standard error, that one line could not be read, and why.
pub fn report_line_failure(cause: &str) -> (emission: Emission)
    ensures
        emission@ == on_stderr(line_failure_text(cause@)),
{
    Emission::stderr(String::from_str("Error reading line: ").concat(cause))
}

/// Reports, on standard error, that standard input could not be read, and
/// why.
pub fn report_input_failure(cause: &str) -> (emission: Emission)
    ensures
        emission@ == on_stderr(input_failure_text(cause@)),
{
    Emission::stderr(String::from_str("Failed to read from stdin.: ").concat(cause))
}

/// Picks out of `emitted` the texts for `channel`, in order.
pub fn texts_for(emitted: &Vec<Emission>, channel: Channel) -> (texts: Vec<String>)
    ensures
        texts.deep_view() == written(emitted.deep_view(), channel),
{
    let ghost all = emitted.deep_view();
    let mut texts: Vec<String> = Vec::new();
    let mut i: usize = 0;
    assert(all.take(0) =~= Seq::<EmissionView>::empty());
    assert(texts.deep_view() =~= Seq::<Seq<char>>::empty());
    while i < emitted.len()
        invariant
            i <= emitted.len(),
            all == emitted.deep_view(),
            texts.deep_view() == written(all.take(i as int), channel),
        decreases emitted.len() - i,
    {
        let ghost before = texts.deep_view();
        assert(all.take(i + 1).drop_last() =~= all.take(i as int));
        assert(all.take(i + 1).last() == emitted[i as int]@);
        if emitted[i].channel == channel {
            texts.push(emitted[i].text.clone());
            assert(texts.deep_view() =~= before.push(emitted[i as int].text@));
        }
        i += 1;
    }
    assert(all.take(i as int) =~= all);
    texts
}

} // verus!
