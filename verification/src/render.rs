//! Rendering a MIDI file to an audio file with the external render tool:
//! the arguments that the tool is called with, and the progress that it
//! reports on its error stream.
//!
//! Starting the tool and reading its output is left to the caller.

use vstd::prelude::*;
use vstd::string::StringExecFns;
use crate::config::AudioChannels;
use crate::config::Interpolator;
use crate::config::RenderConfig;
use crate::config::ThreadCount;
use crate::decimal::as_chars;
use crate::decimal::decimal_digits;
use crate::decimal::decimal_string;

verus! {

/// Why nothing can be rendered.
#[derive(Clone, Copy, Debug, PartialEq, Eq, Structural)]
pub enum RenderError {
    /// No instrument bank is loaded.
    NoSoundfonts,
    /// No MIDI file is chosen.
    NoInputMidi,
}

/// How a rendering ended.
#[derive(Clone, Copy, Debug, PartialEq, Eq, Structural)]
pub enum RenderOutcome {
    /// The render tool could not be started.
    ToolMissing,
    /// The render tool ended with an error, or could not be waited for.
    ToolFailed,
    /// The audio file is written.
    Finished,
}

/// The texts of a list of strings.
pub open spec fn texts(list: Seq<String>) -> Seq<Seq<char>> {
    list.map(|i: int, s: String| s@)
}

/// How the render tool is told the number of audio channels.
pub open spec fn channels_name(channels: AudioChannels) -> Seq<char> {
    match channels {
        AudioChannels::Mono => "mono"@,
        AudioChannels::Stereo => "stereo"@,
    }
}

/// How the render tool is told about threading.
pub open spec fn threading_name(threading: ThreadCount) -> Seq<char> {
    match threading {
        ThreadCount::Off => "none"@,
        ThreadCount::Auto => "auto"@,
        ThreadCount::Manual(n) => as_chars(decimal_digits(n as nat)),
    }
}

/// How the render tool is told about interpolation. It knows linear
/// interpolation and none.
pub open spec fn interpolation_name(interpolation: Interpolator) -> Seq<char> {
    match interpolation {
        Interpolator::Linear => "linear"@,
        Interpolator::Nearest => "none"@,
        Interpolator::Off => "none"@,
    }
}

/// The MIDI file to render, if one is chosen: an empty path is none.
pub open spec fn chosen_input(config: RenderConfig) -> Option<Seq<char>> {
    match config.input_midi {
        Some(path) => if path@.len() > 0 {
            Some(path@)
        } else {
            None
        },
        None => None,
    }
}

/// The switches that are given only where they are set.
pub open spec fn switches(config: RenderConfig) -> Seq<Seq<char>> {
    (if config.limiter {
        seq!["-L"@]
    } else {
        Seq::<Seq<char>>::empty()
    }) + (if config.disable_fade_out {
        seq!["--disable-fade-out"@]
    } else {
        Seq::<Seq<char>>::empty()
    }) + (if config.linear_envelope {
        seq!["--linear-envelope"@]
    } else {
        Seq::<Seq<char>>::empty()
    })
}

/// The options that are always given, each behind its name.
pub open spec fn options(config: RenderConfig) -> Seq<Seq<char>> {
    seq![
        "-o"@,
        config.output_path@,
        "-s"@,
        as_chars(decimal_digits(config.sample_rate as nat)),
        "-c"@,
        channels_name(config.audio_channels),
        "-l"@,
        as_chars(decimal_digits(config.layers as nat)),
        "--channel-threading"@,
        threading_name(config.channel_threading),
        "--key-threading"@,
        threading_name(config.key_threading),
    ]
}

/// The arguments to render `input` with: the input, the banks in their
/// order, then the options, the switches and the interpolation.
pub open spec fn arguments_for(config: RenderConfig, soundfonts: Seq<String>, input: Seq<char>) -> Seq<
    Seq<char>,
> {
    seq![input] + texts(soundfonts) + options(config) + switches(config) + seq![
        "-I"@,
        interpolation_name(config.interpolation),
    ]
}

/// What `render_arguments` answers.
pub open spec fn render_plan(config: RenderConfig, soundfonts: Seq<String>) -> Result<
    Seq<Seq<char>>,
    RenderError,
> {
    if soundfonts.len() == 0 {
        Err(RenderError::NoSoundfonts)
    } else {
        match chosen_input(config) {
            None => Err(RenderError::NoInputMidi),
            Some(input) => Ok(arguments_for(config, soundfonts, input)),
        }
    }
}

/// How a rendering ended, given whether the tool could be started and,
/// if so, whether it ended well.
pub open spec fn outcome_of(started: bool, succeeded: bool) -> RenderOutcome {
    if !started {
        RenderOutcome::ToolMissing
    } else if succeeded {
        RenderOutcome::Finished
    } else {
        RenderOutcome::ToolFailed
    }
}

fn push_text(args: &mut Vec<String>, text: &str)
    ensures
        texts(final(args)@) == texts(old(args)@).push(text@),
{
    args.push(String::from_str(text));
    assert(texts(args@) =~= texts(old(args)@).push(text@));
}

fn push_string(args: &mut Vec<String>, text: String)
    ensures
        texts(final(args)@) == texts(old(args)@).push(text@),
{
    args.push(text);
    assert(texts(args@) =~= texts(old(args)@).push(text@));
}

fn threading_text(threading: ThreadCount) -> (text: String)
    ensures
        text@ == threading_name(threading),
{
    match threading {
        ThreadCount::Off => String::from_str("none"),
        ThreadCount::Auto => String::from_str("auto"),
        ThreadCount::Manual(n) => decimal_string(n as u64),
    }
}

fn push_banks(args: &mut Vec<String>, soundfonts: &Vec<String>)
    ensures
        texts(final(args)@) == texts(old(args)@) + texts(soundfonts@),
{
    let mut i: usize = 0;
    while i < soundfonts.len()
        invariant
            i <= soundfonts.len(),
            texts(args@) == texts(old(args)@) + texts(soundfonts@.subrange(0, i as int)),
        decreases soundfonts.len() - i,
    {
        push_string(args, soundfonts[i].clone());
        i = i + 1;
        assert(texts(args@) =~= texts(old(args)@) + texts(soundfonts@.subrange(0, i as int)));
    }
    assert(soundfonts@.subrange(0, i as int) =~= soundfonts@);
}

fn push_options(args: &mut Vec<String>, config: &RenderConfig)
    ensures
        texts(final(args)@) == texts(old(args)@) + options(*config),
{
    push_text(args, "-o");
    push_string(args, config.output_path.clone());
    push_text(args, "-s");
    push_string(args, decimal_string(config.sample_rate as u64));
    push_text(args, "-c");
    match config.audio_channels {
        AudioChannels::Mono => push_text(args, "mono"),
        AudioChannels::Stereo => push_text(args, "stereo"),
    }
    push_text(args, "-l");
    push_string(args, decimal_string(config.layers as u64));
    push_text(args, "--channel-threading");
    push_string(args, threading_text(config.channel_threading));
    push_text(args, "--key-threading");
    push_string(args, threading_text(config.key_threading));
    assert(texts(args@) =~= texts(old(args)@) + options(*config));
}

fn push_switches(args: &mut Vec<String>, config: &RenderConfig)
    ensures
        texts(final(args)@) == texts(old(args)@) + switches(*config),
{
    if config.limiter {
        push_text(args, "-L");
    }
    if config.disable_fade_out {
        push_text(args, "--disable-fade-out");
    }
    if config.linear_envelope {
        push_text(args, "--linear-envelope");
    }
    assert(texts(args@) =~= texts(old(args)@) + switches(*config));
}

fn push_interpolation(args: &mut Vec<String>, interpolation: Interpolator)
    ensures
        texts(final(args)@) == texts(old(args)@) + seq!["-I"@, interpolation_name(interpolation)],
{
    push_text(args, "-I");
    match interpolation {
        Interpolator::Linear => push_text(args, "linear"),
        Interpolator::Nearest => push_text(args, "none"),
        Interpolator::Off => push_text(args, "none"),
    }
    assert(texts(args@) =~= texts(old(args)@) + seq!["-I"@, interpolation_name(interpolation)]);
}

/// Builds the arguments to call the render tool with, or says why nothing
/// can be rendered: without a bank there is nothing to play with, and
/// without an input nothing to play.
pub fn render_arguments(config: &RenderConfig, soundfonts: &Vec<String>) -> (plan: Result<
    Vec<String>,
    RenderError,
>)
    ensures
        match render_plan(*config, soundfonts@) {
            Ok(expected) => plan matches Ok(args) && texts(args@) == expected,
            Err(error) => plan == Err::<Vec<String>, RenderError>(error),
        },
{
    if soundfonts.len() == 0 {
        return Err(RenderError::NoSoundfonts);
    }
    let input: &String = match &config.input_midi {
        Some(path) => path,
        None => {
            return Err(RenderError::NoInputMidi);
        },
    };
    if input.as_str().is_empty() {
        return Err(RenderError::NoInputMidi);
    }
    let mut args: Vec<String> = Vec::new();
    push_string(&mut args, input.clone());
    assert(texts(args@) =~= seq![input@]);
    push_banks(&mut args, soundfonts);
    push_options(&mut args, config);
    push_switches(&mut args, config);
    push_interpolation(&mut args, config.interpolation);
    Ok(args)
}

/// Says how a rendering ended.
pub fn render_outcome(started: bool, succeeded: bool) -> (outcome: RenderOutcome)
    ensures
        outcome == outcome_of(started, succeeded),
{
    if !started {
        RenderOutcome::ToolMissing
    } else if succeeded {
        RenderOutcome::Finished
    } else {
        RenderOutcome::ToolFailed
    }
}

/// Whether a byte is an ASCII digit.
pub open spec fn is_digit(b: u8) -> bool {
    48 <= b <= 57
}

/// Whether `start..end` is the percentage of a line of the tool's output:
/// `end` is where the first percent sign stands, and `start..end` are the
/// digits that stand directly before it, all of them and at least one.
pub open spec fn is_percent_field(line: Seq<u8>, start: int, end: int) -> bool {
    &&& 0 <= start < end < line.len()
    &&& line[end] == 37
    &&& forall|i: int| 0 <= i < end ==> line[i] != 37
    &&& forall|i: int| start <= i < end ==> is_digit(#[trigger] line[i])
    &&& start > 0 ==> !is_digit(line[start - 1])
}

/// Finds the percentage in a line of the tool's output, if the line holds
/// one.
pub fn percent_field(line: &[u8]) -> (field: Option<(usize, usize)>)
    ensures
        field matches Some((start, end)) ==> is_percent_field(line@, start as int, end as int),
        field is None ==> forall|start: int, end: int| !is_percent_field(line@, start, end),
{
    let mut end: usize = 0;
    while end < line.len() && line[end] != 37
        invariant
            end <= line.len(),
            forall|i: int| 0 <= i < end ==> line@[i] != 37,
        decreases line.len() - end,
    {
        end = end + 1;
    }
    if end == line.len() {
        return None;
    }
    let mut start: usize = end;
    while start > 0 && 48 <= line[start - 1] && line[start - 1] <= 57
        invariant
            start <= end < line.len(),
            forall|i: int| start <= i < end ==> is_digit(#[trigger] line@[i]),
        decreases start,
    {
        start = start - 1;
    }
    if start == end {
        assert forall|s: int, e: int| !is_percent_field(line@, s, e) by {
            if is_percent_field(line@, s, e) {
                assert(e == end);
                assert(is_digit(line@[e - 1]));
            }
        }
        None
    } else {
        Some((start, end))
    }
}

/// A line holds at most one percentage.
pub proof fn lemma_percent_field_unique(line: Seq<u8>, s1: int, e1: int, s2: int, e2: int)
    requires
        is_percent_field(line, s1, e1),
        is_percent_field(line, s2, e2),
    ensures
        s1 == s2,
        e1 == e2,
{
    assert(e1 == e2);
    if s1 < s2 {
        assert(is_digit(line[s2 - 1]));
    }
    if s2 < s1 {
        assert(is_digit(line[s1 - 1]));
    }
}

/// Reads the tool's output byte by byte and finds the percentage of each
/// line. A line ends at a carriage return or a line feed.
pub struct ProgressScanner {
    /// The bytes of the line that has not ended yet.
    pub line: Vec<u8>,
}

/// Whether a byte ends a line.
pub open spec fn ends_line(byte: u8) -> bool {
    byte == 13 || byte == 10
}

impl ProgressScanner {
    /// A scanner at the start of a line.
    pub fn new() -> (scanner: ProgressScanner)
        ensures
            scanner.line@.len() == 0,
    {
        ProgressScanner { line: Vec::new() }
    }

    /// Takes the next byte. At the end of a line that holds a percentage
    /// the digits of the percentage come back; otherwise nothing does.
    pub fn feed(&mut self, byte: u8) -> (digits: Option<Vec<u8>>)
        ensures
            !ends_line(byte) ==> digits is None && final(self).line@ == old(self).line@.push(byte),
            ends_line(byte) ==> final(self).line@.len() == 0,
            ends_line(byte) && digits is None ==> forall|start: int, end: int|
                !is_percent_field(old(self).line@, start, end),
            ends_line(byte) ==> (digits matches Some(d) ==> exists|start: int, end: int|
                is_percent_field(old(self).line@, start, end) && d@ == old(self).line@.subrange(
                    start,
                    end,
                )),
    {
        if byte == 13 || byte == 10 {
            let field = percent_field(self.line.as_slice());
            let digits = match field {
                Some((start, end)) => {
                    let mut d: Vec<u8> = Vec::new();
                    let mut i: usize = start;
                    while i < end
                        invariant
                            start <= i <= end < self.line@.len(),
                            d@ == self.line@.subrange(start as int, i as int),
                        decreases end - i,
                    {
                        d.push(self.line[i]);
                        i = i + 1;
                        assert(d@ =~= self.line@.subrange(start as int, i as int));
                    }
                    assert(is_percent_field(old(self).line@, start as int, end as int));
                    Some(d)
                },
                None => None,
            };
            self.line.clear();
            digits
        } else {
            self.line.push(byte);
            None
        }
    }
}

} // verus!
