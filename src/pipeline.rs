//! The staged conversion as a state machine. The caller performs each
//! `Action` (reading, writing, the two codecs, the progress sink) and hands
//! back what came of it as an `Event`; the machine decides what comes next.
use vstd::prelude::*;
use crate::paths::{extension_of, output_path, with_extension};
use crate::request::{ConversionRequest, Direction};
use crate::transcode::{legacy_text, native_text, to_legacy, to_native};

verus! {

/// Progress once the input has been loaded or read.
pub const PROGRESS_FETCHED: i32 = 33;

/// Progress once JSON text has been decoded.
pub const PROGRESS_DECODED: i32 = 66;

/// Progress once the output has been written.
pub const PROGRESS_DONE: i32 = 100;

/// The terminal signal of a failed conversion.
pub const PROGRESS_FAILED: i32 = -1;

/// Why a conversion failed.
#[derive(Clone, Copy, Debug, PartialEq, Eq, Structural)]
pub enum Error {
    /// The output file is there and overwriting was not allowed.
    FileExists,
    /// Reading or writing a file failed.
    Io,
    /// A plugin or JSON text could not be decoded.
    CodecDecode,
    /// The objects could not be encoded.
    CodecEncode,
    /// The progress sink could not take a signal.
    Sink,
}

/// Where a conversion stands.
#[derive(Clone, Copy, Debug, PartialEq, Eq, Structural)]
pub enum Stage {
    /// Waiting to learn whether the output file exists.
    Checking,
    /// Waiting for the input to be loaded (to text) or read (to binary).
    Fetching,
    /// Waiting for the sink to take the signal that the input is in.
    FetchedReported,
    /// Waiting for the objects to be encoded (to text) or the text decoded
    /// (to binary).
    Transforming,
    /// Waiting for the sink to take the signal that the text is decoded.
    DecodedReported,
    /// Waiting for the output to be written.
    Storing,
    /// Waiting for the sink to take the success signal.
    DoneReported,
    /// Waiting for the sink to take the failure signal.
    FailureReported(Error),
    /// Nothing more happens.
    Finished,
}

/// What the caller is to do next.
#[derive(Debug)]
pub enum Action {
    /// Find out whether a file is at `path`.
    CheckOutput { path: String },
    /// Load the binary plugin at `path`.
    LoadPlugin { path: String },
    /// Encode the loaded objects as JSON, compact or pretty-printed.
    EncodeJson { compact: bool },
    /// Write `text` to `path`, replacing what is there.
    WriteText { path: String, text: String },
    /// Read the whole file at `path` as text.
    ReadText { path: String },
    /// Decode `text` as JSON into objects.
    DecodeJson { text: String },
    /// Save the decoded objects as a binary plugin at `path`.
    SavePlugin { path: String },
    /// Hand `progress` to the progress sink.
    Report { progress: i32 },
    /// The conversion is over, with this outcome.
    Finish { result: Result<(), Error> },
}

/// What came of the last action.
#[derive(Debug)]
pub enum Event {
    /// Whether the output file exists.
    OutputExists(bool),
    /// The plugin was loaded.
    Loaded,
    /// The file was read, with this text.
    TextRead(String),
    /// The objects were encoded, as this text.
    Encoded(String),
    /// The text was decoded.
    Decoded,
    /// The action succeeded and has nothing to hand back.
    Done,
    /// The action failed.
    Failed(Error),
}

/// The progress signals of a successful conversion, in order.
pub open spec fn success_signals(d: Direction) -> Seq<i32> {
    match d {
        Direction::ToText => seq![PROGRESS_FETCHED, PROGRESS_DONE],
        Direction::ToBinary => seq![PROGRESS_FETCHED, PROGRESS_DECODED, PROGRESS_DONE],
    }
}

/// The signals of a failed conversion: a strict prefix of the success
/// signals, then one failure signal.
pub open spec fn is_failure_log(d: Direction, log: Seq<i32>) -> bool {
    exists|j: int|
        0 <= j < success_signals(d).len() && log == success_signals(d).take(j).push(
            PROGRESS_FAILED,
        )
}

/// The signals handed to the sink so far, for a conversion at `stage`.
pub open spec fn log_at(d: Direction, stage: Stage, log: Seq<i32>) -> bool {
    match stage {
        Stage::Checking | Stage::Fetching => log == Seq::<i32>::empty(),
        Stage::FetchedReported | Stage::Transforming => log == seq![PROGRESS_FETCHED],
        Stage::DecodedReported => d == Direction::ToBinary && log == seq![
            PROGRESS_FETCHED,
            PROGRESS_DECODED,
        ],
        Stage::Storing => log == success_signals(d).take(success_signals(d).len() - 1),
        Stage::DoneReported => log == success_signals(d),
        Stage::FailureReported(_) => is_failure_log(d, log),
        Stage::Finished => log == success_signals(d) || is_failure_log(d, log),
    }
}

/// `a` reports `p` to the sink.
pub open spec fn reports(a: &Action, p: i32) -> bool {
    a matches Action::Report { progress } && progress == p
}

/// The action that starts on the input once the output check has passed.
pub open spec fn fetch_action(c: &Conversion, a: &Action) -> bool {
    match c.direction {
        Direction::ToText => a matches Action::LoadPlugin { path } && path@ == c.input_path@,
        Direction::ToBinary => a matches Action::ReadText { path } && path@ == c.input_path@,
    }
}

/// One step of the machine: from `c`, on event `e`, to `n`, doing `a`.
/// Any failure before the output is written reports the failure signal and
/// then finishes with that error; the output is never written once the check
/// found a file there that may not be replaced.
pub open spec fn transition(c: &Conversion, e: &Event, n: &Conversion, a: &Action) -> bool {
    match e {
        Event::Failed(k) => match c.stage {
            Stage::DoneReported => n.stage == Stage::Finished && a == (Action::Finish {
                result: Ok(()),
            }),
            Stage::FailureReported(k0) => n.stage == Stage::Finished && a == (Action::Finish {
                result: Err(k0),
            }),
            _ => n.stage == Stage::FailureReported(*k) && reports(a, PROGRESS_FAILED),
        },
        Event::OutputExists(exists) => if *exists && !c.allow_overwrite {
            n.stage == Stage::FailureReported(Error::FileExists) && reports(a, PROGRESS_FAILED)
        } else {
            n.stage == Stage::Fetching && fetch_action(c, a)
        },
        Event::Loaded => n.stage == Stage::FetchedReported && reports(a, PROGRESS_FETCHED),
        Event::TextRead(contents) => {
            &&& n.stage == Stage::FetchedReported
            &&& reports(a, PROGRESS_FETCHED)
            &&& n.text@ == if c.transcode {
                native_text(contents@)
            } else {
                contents@
            }
        },
        Event::Encoded(json) => {
            &&& n.stage == Stage::Storing
            &&& a matches Action::WriteText { path, text }
            &&& path@ == c.output_path@
            &&& text@ == if c.transcode {
                legacy_text(json@)
            } else {
                json@
            }
        },
        Event::Decoded => n.stage == Stage::DecodedReported && reports(a, PROGRESS_DECODED),
        Event::Done => match c.stage {
            Stage::FetchedReported => {
                &&& n.stage == Stage::Transforming
                &&& match c.direction {
                    Direction::ToText => a == (Action::EncodeJson { compact: c.compact }),
                    Direction::ToBinary => {
                        &&& a matches Action::DecodeJson { text }
                        &&& text@ == c.text@
                    },
                }
            },
            Stage::DecodedReported => {
                &&& n.stage == Stage::Storing
                &&& a matches Action::SavePlugin { path }
                &&& path@ == c.output_path@
            },
            Stage::Storing => n.stage == Stage::DoneReported && reports(a, PROGRESS_DONE),
            Stage::DoneReported => n.stage == Stage::Finished && a == (Action::Finish {
                result: Ok(()),
            }),
            Stage::FailureReported(k0) => n.stage == Stage::Finished && a == (Action::Finish {
                result: Err(k0),
            }),
            _ => false,
        },
    }
}

/// A successful log is no failure log: the two never meet.
proof fn lemma_logs_differ(d: Direction)
    ensures
        !is_failure_log(d, success_signals(d)),
        forall|log: Seq<i32>| is_failure_log(d, log) ==> log.len() > 0 && log.last()
            == PROGRESS_FAILED,
{
    if is_failure_log(d, success_signals(d)) {
        let j = choose|j: int|
            0 <= j < success_signals(d).len() && success_signals(d) == success_signals(d).take(
                j,
            ).push(PROGRESS_FAILED);
        assert(success_signals(d).len() == j + 1);
    }
}

/// A conversion in progress.
pub struct Conversion {
    pub input_path: String,
    pub output_path: String,
    pub direction: Direction,
    pub transcode: bool,
    pub compact: bool,
    pub allow_overwrite: bool,
    pub stage: Stage,
    /// The text read, as it is to be decoded.
    pub text: String,
    /// The progress signals handed to the sink so far, in order.
    pub signals: Vec<i32>,
}

impl Conversion {
    /// The signals so far fit the stage.
    pub open spec fn wf(&self) -> bool {
        log_at(self.direction, self.stage, self.signals@)
    }

    /// The events that the machine takes at its stage.
    pub open spec fn accepts_spec(&self, e: &Event) -> bool {
        match self.stage {
            Stage::Checking => e is OutputExists,
            Stage::Fetching => e is Failed || (self.direction == Direction::ToText && e is Loaded)
                || (self.direction == Direction::ToBinary && e is TextRead),
            Stage::Transforming => e is Failed || (self.direction == Direction::ToText
                && e is Encoded) || (self.direction == Direction::ToBinary && e is Decoded),
            Stage::Finished => false,
            _ => e is Failed || e is Done,
        }
    }

    /// Whether the machine takes `e` at its stage.
    pub fn accepts(&self, e: &Event) -> (r: bool)
        ensures
            r == self.accepts_spec(e),
    {
        match self.stage {
            Stage::Checking => matches!(e, Event::OutputExists(_)),
            Stage::Fetching => match e {
                Event::Failed(_) => true,
                Event::Loaded => self.direction == Direction::ToText,
                Event::TextRead(_) => self.direction == Direction::ToBinary,
                _ => false,
            },
            Stage::Transforming => match e {
                Event::Failed(_) => true,
                Event::Encoded(_) => self.direction == Direction::ToText,
                Event::Decoded => self.direction == Direction::ToBinary,
                _ => false,
            },
            Stage::Finished => false,
            _ => matches!(e, Event::Failed(_) | Event::Done),
        }
    }

    /// Starts a conversion: the output path is the input's with its extension
    /// replaced, and the first action asks whether a file is there.
    pub fn start(request: ConversionRequest) -> (r: (Conversion, Action))
        ensures
            r.0.wf(),
            r.0.stage == Stage::Checking,
            r.0.signals@ == Seq::<i32>::empty(),
            r.0.input_path@ == request.input_path@,
            r.0.output_path@ == with_extension(request.input_path@, extension_of(request.direction)),
            r.0.direction == request.direction,
            r.0.transcode == request.transcode,
            r.0.compact == request.compact,
            r.0.allow_overwrite == request.allow_overwrite,
            r.1 matches Action::CheckOutput { path } && path@ == r.0.output_path@,
    {
        let output = output_path(request.input_path.as_str(), request.direction);
        let action = Action::CheckOutput { path: output.clone() };
        let c = Conversion {
            input_path: request.input_path,
            output_path: output,
            direction: request.direction,
            transcode: request.transcode,
            compact: request.compact,
            allow_overwrite: request.allow_overwrite,
            stage: Stage::Checking,
            text: String::new(),
            signals: Vec::new(),
        };
        (c, action)
    }

    fn report(&mut self, next: Stage, progress: i32) -> (a: Action)
        ensures
            final(self).stage == next,
            final(self).signals@ == old(self).signals@.push(progress),
            a == (Action::Report { progress }),
            final(self).input_path == old(self).input_path,
            final(self).output_path == old(self).output_path,
            final(self).direction == old(self).direction,
            final(self).transcode == old(self).transcode,
            final(self).compact == old(self).compact,
            final(self).allow_overwrite == old(self).allow_overwrite,
            final(self).text == old(self).text,
    {
        self.stage = next;
        self.signals.push(progress);
        Action::Report { progress }
    }

    /// Takes what came of the last action and gives the next one.
    pub fn step(&mut self, e: Event) -> (a: Action)
        requires
            old(self).wf(),
            old(self).accepts_spec(&e),
        ensures
            final(self).wf(),
            transition(old(self), &e, final(self), &a),
            final(self).signals@ == match a {
                Action::Report { progress } => old(self).signals@.push(progress),
                _ => old(self).signals@,
            },
            final(self).input_path == old(self).input_path,
            final(self).output_path == old(self).output_path,
            final(self).direction == old(self).direction,
            final(self).transcode == old(self).transcode,
            final(self).compact == old(self).compact,
            final(self).allow_overwrite == old(self).allow_overwrite,
            !(e is TextRead) ==> final(self).text == old(self).text,
            a matches Action::Finish { result } ==> (result is Ok <==> final(self).signals@
                == success_signals(final(self).direction)),
            a matches Action::Finish { result } ==> (result is Err <==> is_failure_log(
                final(self).direction,
                final(self).signals@,
            )),
    {
        let ghost d = self.direction;
        let ghost log0 = self.signals@;
        let a = match e {
            Event::Failed(k) => match self.stage {
                Stage::DoneReported => {
                    self.stage = Stage::Finished;
                    Action::Finish { result: Ok(()) }
                },
                Stage::FailureReported(k0) => {
                    self.stage = Stage::Finished;
                    Action::Finish { result: Err(k0) }
                },
                _ => self.report(Stage::FailureReported(k), PROGRESS_FAILED),
            },
            Event::OutputExists(exists) => {
                if exists && !self.allow_overwrite {
                    self.report(Stage::FailureReported(Error::FileExists), PROGRESS_FAILED)
                } else {
                    self.stage = Stage::Fetching;
                    match self.direction {
                        Direction::ToText => Action::LoadPlugin { path: self.input_path.clone() },
                        Direction::ToBinary => Action::ReadText { path: self.input_path.clone() },
                    }
                }
            },
            Event::Loaded => self.report(Stage::FetchedReported, PROGRESS_FETCHED),
            Event::TextRead(contents) => {
                self.text = if self.transcode {
                    to_native(contents.as_str())
                } else {
                    contents
                };
                self.report(Stage::FetchedReported, PROGRESS_FETCHED)
            },
            Event::Encoded(json) => {
                let text = if self.transcode {
                    to_legacy(json.as_str())
                } else {
                    json
                };
                self.stage = Stage::Storing;
                Action::WriteText { path: self.output_path.clone(), text }
            },
            Event::Decoded => self.report(Stage::DecodedReported, PROGRESS_DECODED),
            Event::Done => match self.stage {
                Stage::FetchedReported => {
                    self.stage = Stage::Transforming;
                    match self.direction {
                        Direction::ToText => Action::EncodeJson { compact: self.compact },
                        Direction::ToBinary => Action::DecodeJson { text: self.text.clone() },
                    }
                },
                Stage::DecodedReported => {
                    self.stage = Stage::Storing;
                    Action::SavePlugin { path: self.output_path.clone() }
                },
                Stage::Storing => self.report(Stage::DoneReported, PROGRESS_DONE),
                Stage::DoneReported => {
                    self.stage = Stage::Finished;
                    Action::Finish { result: Ok(()) }
                },
                Stage::FailureReported(k0) => {
                    self.stage = Stage::Finished;
                    Action::Finish { result: Err(k0) }
                },
                _ => {
                    // `accepts_spec` rules out `Done` at the remaining stages.
                    proof {
                        assert(false);
                    }
                    Action::Finish { result: Ok(()) }
                },
            },
        };
        proof {
            lemma_logs_differ(d);
            assert(success_signals(Direction::ToText).take(1) =~= seq![PROGRESS_FETCHED]);
            assert(success_signals(Direction::ToBinary).take(2) =~= seq![
                PROGRESS_FETCHED,
                PROGRESS_DECODED,
            ]);
            assert(Seq::<i32>::empty().push(PROGRESS_FETCHED) =~= seq![PROGRESS_FETCHED]);
            assert(seq![PROGRESS_FETCHED].push(PROGRESS_DECODED) =~= seq![
                PROGRESS_FETCHED,
                PROGRESS_DECODED,
            ]);
            assert(success_signals(d).take(success_signals(d).len() - 1).push(PROGRESS_DONE)
                =~= success_signals(d));
            if let Stage::FailureReported(_) = old(self).stage {
            } else if !(self.stage is FailureReported) {
            } else {
                let j = log0.len() as int;
                assert(log0 =~= success_signals(d).take(j));
                assert(is_failure_log(d, self.signals@));
            }
        }
        a
    }
}

/// When the output file exists and overwriting is not allowed, the check's
/// answer is followed by the failure signal alone, and whatever the sink then
/// answers, the conversion finishes with `FileExists`: no load, read or write
/// is ever asked for.
pub proof fn lemma_overwrite_guard(c: Conversion, n1: Conversion, a1: Action, e2: Event, n2: Conversion, a2: Action)
    requires
        c.stage == Stage::Checking,
        !c.allow_overwrite,
        transition(&c, &Event::OutputExists(true), &n1, &a1),
        n1.accepts_spec(&e2),
        transition(&n1, &e2, &n2, &a2),
    ensures
        a1 == (Action::Report { progress: PROGRESS_FAILED }),
        n1.stage == Stage::FailureReported(Error::FileExists),
        n2.stage == Stage::Finished,
        a2 == (Action::Finish { result: Err(Error::FileExists) }),
{
}

/// A finished conversion handed the sink either exactly the success signals of
/// its direction, in order, or a strict prefix of them followed by exactly one
/// failure signal, never both; and it takes no further event, so nothing is
/// signalled after the terminal signal.
pub proof fn lemma_progress_ordering(c: Conversion, e: Event)
    requires
        c.wf(),
        c.stage == Stage::Finished,
    ensures
        c.signals@ == success_signals(c.direction) || is_failure_log(c.direction, c.signals@),
        !(c.signals@ == success_signals(c.direction) && is_failure_log(
            c.direction,
            c.signals@,
        )),
        c.signals@.last() == PROGRESS_DONE || c.signals@.last() == PROGRESS_FAILED,
        !c.accepts_spec(&e),
{
    lemma_logs_differ(c.direction);
}

} // verus!
