//! The output relay: each line that the child writes to its standard output
//! or standard error becomes one log line, tagged by the channel it came
//! from. The relay ends when the child's output stream ends.

use colored::{Color, Colorize};
use vstd::prelude::*;
use vstd::string::*;
use vstd::utf8::{decode_utf8, valid_utf8};

verus! {

/// The channel that a line of output came from.
#[derive(Clone, Copy, Debug, PartialEq, Eq, Structural)]
pub enum Channel {
    Stdout,
    Stderr,
}

/// One event of the child's output stream.
#[derive(Clone, Debug, PartialEq, Eq)]
pub enum OutputEvent {
    /// A line on standard output, as raw bytes.
    Stdout(Vec<u8>),
    /// A line on standard error, as raw bytes.
    Stderr(Vec<u8>),
    /// Anything else that the stream reports.
    Other,
}

/// A line on its way to the log.
#[derive(Clone, Debug, PartialEq, Eq)]
pub struct LogLine {
    pub channel: Channel,
    pub text: String,
}

/// What the relay does next.
#[derive(Clone, Debug, PartialEq, Eq)]
pub enum RelayStep {
    /// Write the line to the log, then wait for the next event.
    Forward(LogLine),
    /// Wait for the next event.
    Skip,
    /// The stream has ended: stop.
    Finish,
}

/// A colour of the tag.
#[derive(Clone, Copy, Debug, PartialEq, Eq, Structural)]
pub enum Tint {
    BrightBlue,
    BrightRed,
}

/// What `String::from_utf8_lossy` makes of `bytes`: their text read
/// leniently as UTF-8, with a replacement character for every sequence that
/// is not valid UTF-8.
pub uninterp spec fn lossy_utf8(bytes: Seq<u8>) -> Seq<char>;

/// The tag that a log line from `channel` starts with. The two channels
/// have two tags, so that they can be told apart where nothing is coloured.
pub open spec fn tag_of(channel: Channel) -> Seq<char> {
    match channel {
        Channel::Stdout => "[tRPC]"@,
        Channel::Stderr => "[tRPC:err]"@,
    }
}

/// The colour that marks a channel.
pub open spec fn tint_of(channel: Channel) -> Tint {
    match channel {
        Channel::Stdout => Tint::BrightBlue,
        Channel::Stderr => Tint::BrightRed,
    }
}

/// The number of a colour in a terminal's escape sequences.
pub open spec fn tint_code(tint: Tint) -> Seq<char> {
    match tint {
        Tint::BrightBlue => "94"@,
        Tint::BrightRed => "91"@,
    }
}

/// `text` between the escape sequences that switch a terminal to bold and to
/// `tint`, and back to its defaults.
pub open spec fn bold_tinted(text: Seq<char>, tint: Tint) -> Seq<char> {
    "\x1B[1;"@ + tint_code(tint) + "m"@ + text + "\x1B[0m"@
}

/// A log line as text: the tag, a space, the line.
pub open spec fn tagged(tag: Seq<char>, text: Seq<char>) -> Seq<char> {
    tag + seq![' '] + text
}

/// Whether `out` is a rendering of the line `text` from `channel`: the
/// channel's tag, either plain or in bold and in the channel's colour, then a
/// space and the text.
pub open spec fn is_rendering(out: Seq<char>, channel: Channel, text: Seq<char>) -> bool {
    out == tagged(tag_of(channel), text) || out == tagged(
        bold_tinted(tag_of(channel), tint_of(channel)),
        text,
    )
}

/// Whether `text` is what the relay makes of the line `bytes`: the bytes read
/// leniently as UTF-8, which for bytes that are valid UTF-8 is the text that
/// they encode.
pub open spec fn is_text_of(text: Seq<char>, bytes: Seq<u8>) -> bool {
    &&& text == lossy_utf8(bytes)
    &&& valid_utf8(bytes) ==> text == decode_utf8(bytes)
}

/// Whether `step` is what the relay does on `received`, the next event of
/// the stream or the news that the stream has ended: a line of output is
/// forwarded under its channel, any other event is skipped, and the end of
/// the stream ends the relay.
pub open spec fn is_step_for(step: RelayStep, received: Option<OutputEvent>) -> bool {
    match received {
        None => step is Finish,
        Some(OutputEvent::Stdout(bytes)) => {
            &&& step matches RelayStep::Forward(line)
            &&& line.channel == Channel::Stdout
            &&& is_text_of(line.text@, bytes@)
        },
        Some(OutputEvent::Stderr(bytes)) => {
            &&& step matches RelayStep::Forward(line)
            &&& line.channel == Channel::Stderr
            &&& is_text_of(line.text@, bytes@)
        },
        Some(OutputEvent::Other) => step is Skip,
    }
}

/// `String::from_utf8_lossy`: the text of `bytes`, with a replacement
/// character for every sequence that is not valid UTF-8. The result is a
/// function of the bytes alone; of bytes that are valid UTF-8 it is the text
/// that they encode.
#[verifier::external_body]
fn decode_lossy(bytes: &Vec<u8>) -> (text: String)
    ensures
        text@ == lossy_utf8(bytes@),
        valid_utf8(bytes@) ==> text@ == decode_utf8(bytes@),
{
    String::from_utf8_lossy(bytes).into_owned()
}

/// `Colorize::color`, `Colorize::bold` and the `Display` of `ColoredString`
/// from the `colored` crate: `text` in bold and in `colour`. Whether the
/// crate colours at all depends on the environment, on the terminal and on
/// its process-wide override; where it does not, the text comes back as it
/// is. The claim holds as long as no other thread switches that override
/// while the call runs. A text that holds an escape character of its own may
/// be rewritten, so nothing is claimed of it.
#[verifier::external_body]
fn paint_bold(text: &str, colour: Tint) -> (painted: String)
    ensures
        !text@.contains('\x1B') ==> painted@ == text@ || painted@ == bold_tinted(text@, colour),
{
    let color = match colour {
        Tint::BrightBlue => Color::BrightBlue,
        Tint::BrightRed => Color::BrightRed,
    };
    text.color(color).bold().to_string()
}

/// Puts `tag` in front of `text`, a space between the two.
pub fn tag_line(tag: &str, text: &str) -> (line: String)
    ensures
        line@ == tagged(tag@, text@),
{
    let mut line = String::from_str(tag);
    proof {
        reveal_strlit(" ");
    }
    line.append(" ");
    assert(" "@ =~= seq![' ']);
    line.append(text);
    line
}

/// The relay's next step on `received`: the next event of the child's output
/// stream, or `None` once the stream has ended.
pub fn relay(received: Option<OutputEvent>) -> (step: RelayStep)
    ensures
        is_step_for(step, received),
{
    match received {
        None => RelayStep::Finish,
        Some(OutputEvent::Stdout(bytes)) => RelayStep::Forward(
            LogLine { channel: Channel::Stdout, text: decode_lossy(&bytes) },
        ),
        Some(OutputEvent::Stderr(bytes)) => RelayStep::Forward(
            LogLine { channel: Channel::Stderr, text: decode_lossy(&bytes) },
        ),
        Some(OutputEvent::Other) => RelayStep::Skip,
    }
}

impl Channel {
    /// The colour that marks the channel.
    pub fn tint(&self) -> (tint: Tint)
        ensures
            tint == tint_of(*self),
    {
        match self {
            Channel::Stdout => Tint::BrightBlue,
            Channel::Stderr => Tint::BrightRed,
        }
    }
}

impl Channel {
    /// The tag that a log line from the channel starts with.
    pub fn tag(&self) -> (tag: &'static str)
        ensures
            tag@ == tag_of(*self),
            !tag@.contains('\x1B'),
    {
        proof {
            reveal_strlit("[tRPC]");
            reveal_strlit("[tRPC:err]");
        }
        match self {
            Channel::Stdout => "[tRPC]",
            Channel::Stderr => "[tRPC:err]",
        }
    }
}

impl LogLine {
    /// The line as it goes to the log: the channel's tag, set in bold and in
    /// the channel's colour where the terminal is to be coloured, then a
    /// space and the text.
    pub fn render(&self) -> (out: String)
        ensures
            is_rendering(out@, self.channel, self.text@),
    {
        let tag = paint_bold(self.channel.tag(), self.channel.tint());
        tag_line(tag.as_str(), self.text.as_str())
    }
}

/// The two channels are told apart in the log: no rendering of a line from
/// standard output is a rendering of a line from standard error, whatever
/// the two lines say and whether or not either is coloured.
pub proof fn lemma_channels_told_apart(
    out: Seq<char>,
    out_text: Seq<char>,
    err: Seq<char>,
    err_text: Seq<char>,
)
    requires
        is_rendering(out, Channel::Stdout, out_text),
        is_rendering(err, Channel::Stderr, err_text),
    ensures
        out != err,
{
    reveal_strlit("[tRPC]");
    reveal_strlit("[tRPC:err]");
    reveal_strlit("\x1B[1;");
    reveal_strlit("94");
    reveal_strlit("91");
    let plain_out = tagged(tag_of(Channel::Stdout), out_text);
    let plain_err = tagged(tag_of(Channel::Stderr), err_text);
    let bold_out = tagged(bold_tinted(tag_of(Channel::Stdout), Tint::BrightBlue), out_text);
    let bold_err = tagged(bold_tinted(tag_of(Channel::Stderr), Tint::BrightRed), err_text);
    assert(plain_out[0] == '[' && plain_out[5] == ']');
    assert(plain_err[0] == '[' && plain_err[5] == ':');
    assert(bold_out[0] == '\x1B' && bold_out[5] == '4');
    assert(bold_err[0] == '\x1B' && bold_err[5] == '1');
}

} // verus!
