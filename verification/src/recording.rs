//! The recording sink: the encoder's command line, the rows that it is
//! fed, and the decisions of the feeding loop.

use vstd::prelude::*;
use vstd::string::*;
use vstd::slice::{slice_subrange, slice_to_vec};
use vstd::arithmetic::div_mod::{lemma_fundamental_div_mod, lemma_fundamental_div_mod_converse};
use crate::pacing::TARGET_FRAMERATE;

verus! {

/// The program that encodes the recording.
pub const ENCODER_PROGRAM: &'static str = "ffmpeg";

/// Where the caster's recording goes.
pub const CASTER_RECORDING_PATH: &'static str = "recordings/recorded_video.mp4";

/// Where the receiver's recording goes.
pub const RECEIVER_RECORDING_PATH: &'static str = "recordings/receiver_recorded_video.mp4";

/// The directory of the recordings.
pub const RECORDING_DIRECTORY: &'static str = "recordings";

/// How long the receiver's recording waits when no frame has arrived.
pub const IDLE_DELAY_MILLIS: u64 = 10;

/// The character of a decimal digit.
pub open spec fn digit_char(d: int) -> char {
    if d == 0 {
        '0'
    } else if d == 1 {
        '1'
    } else if d == 2 {
        '2'
    } else if d == 3 {
        '3'
    } else if d == 4 {
        '4'
    } else if d == 5 {
        '5'
    } else if d == 6 {
        '6'
    } else if d == 7 {
        '7'
    } else if d == 8 {
        '8'
    } else {
        '9'
    }
}

/// A number in decimal, without leading zeros.
pub open spec fn decimal(n: nat) -> Seq<char>
    decreases n,
{
    if n < 10 {
        seq![digit_char(n as int)]
    } else {
        decimal(n / 10).push(digit_char((n % 10) as int))
    }
}

/// The text of each argument.
pub open spec fn texts(arguments: Seq<String>) -> Seq<Seq<char>> {
    arguments.map_values(|s: String| s@)
}

/// The encoder's arguments: raw video of the given size and rate from its
/// standard input, lossless H.264 to `output_path`, overwriting.
pub open spec fn encoder_arguments_spec(width: nat, height: nat, framerate: nat, output_path: Seq<char>) -> Seq<
    Seq<char>,
> {
    seq![
        "-loglevel"@,
        "quiet"@,
        "-f"@,
        "rawvideo"@,
        "-pixel_format"@,
        "rgb0"@,
        "-video_size"@,
        decimal(width) + "x"@ + decimal(height),
        "-framerate"@,
        decimal(framerate),
        "-i"@,
        "-"@,
        "-c:v"@,
        "libx264"@,
        "-preset"@,
        "ultrafast"@,
        "-crf"@,
        "0"@,
        "-pix_fmt"@,
        "yuv420p"@,
        "-r"@,
        decimal(framerate),
        "-y"@,
        output_path,
    ]
}

/// Whether the rows of a frame of `len` bytes can be cut for a recording
/// of `width` by `height`: the frame's stride is `len / height`, and every
/// row, the last one too, holds the `4 * width` bytes that are kept of it.
pub open spec fn rows_defined(len: int, width: int, height: int) -> bool {
    &&& height > 0
    &&& 4 * width <= usize::MAX
    &&& len / height > 0
    &&& 4 * width <= len / height
    &&& (len % (len / height) == 0 || 4 * width <= len % (len / height))
}

/// How many rows a frame of `len` bytes is cut into.
pub open spec fn row_count(len: int, height: int) -> int {
    let stride = len / height;
    if len % stride == 0 {
        len / stride
    } else {
        len / stride + 1
    }
}

/// Row `i` of a frame without its padding.
pub open spec fn row_spec(data: Seq<u8>, width: int, height: int, i: int) -> Seq<u8> {
    let stride = data.len() as int / height;
    data.subrange(i * stride, i * stride + 4 * width)
}

fn digit_str(d: u64) -> (s: &'static str)
    requires
        d < 10,
    ensures
        s@ == seq![digit_char(d as int)],
{
    proof {
        reveal_strlit("0");
        reveal_strlit("1");
        reveal_strlit("2");
        reveal_strlit("3");
        reveal_strlit("4");
        reveal_strlit("5");
        reveal_strlit("6");
        reveal_strlit("7");
        reveal_strlit("8");
        reveal_strlit("9");
    }
    let s = if d == 0 {
        "0"
    } else if d == 1 {
        "1"
    } else if d == 2 {
        "2"
    } else if d == 3 {
        "3"
    } else if d == 4 {
        "4"
    } else if d == 5 {
        "5"
    } else if d == 6 {
        "6"
    } else if d == 7 {
        "7"
    } else if d == 8 {
        "8"
    } else {
        "9"
    };
    assert(s@ =~= seq![digit_char(d as int)]);
    s
}

/// A number in decimal.
pub fn decimal_string(n: u64) -> (s: String)
    ensures
        s@ == decimal(n as nat),
    decreases n,
{
    if n < 10 {
        String::from_str(digit_str(n))
    } else {
        let mut s = decimal_string(n / 10);
        s.append(digit_str(n % 10));
        assert(s@ =~= decimal((n / 10) as nat).push(digit_char((n % 10) as int)));
        s
    }
}

/// The arguments to start the encoder with.
pub fn encoder_arguments(width: usize, height: usize, framerate: u64, output_path: &str) -> (arguments: Vec<String>)
    ensures
        texts(arguments@) == encoder_arguments_spec(width as nat, height as nat, framerate as nat, output_path@),
{
    let mut size = decimal_string(width as u64);
    size.append("x");
    let h = decimal_string(height as u64);
    size.append(h.as_str());
    let mut arguments: Vec<String> = Vec::new();
    arguments.push(String::from_str("-loglevel"));
    arguments.push(String::from_str("quiet"));
    arguments.push(String::from_str("-f"));
    arguments.push(String::from_str("rawvideo"));
    arguments.push(String::from_str("-pixel_format"));
    arguments.push(String::from_str("rgb0"));
    arguments.push(String::from_str("-video_size"));
    arguments.push(size);
    arguments.push(String::from_str("-framerate"));
    arguments.push(decimal_string(framerate));
    arguments.push(String::from_str("-i"));
    arguments.push(String::from_str("-"));
    arguments.push(String::from_str("-c:v"));
    arguments.push(String::from_str("libx264"));
    arguments.push(String::from_str("-preset"));
    arguments.push(String::from_str("ultrafast"));
    arguments.push(String::from_str("-crf"));
    arguments.push(String::from_str("0"));
    arguments.push(String::from_str("-pix_fmt"));
    arguments.push(String::from_str("yuv420p"));
    arguments.push(String::from_str("-r"));
    arguments.push(decimal_string(framerate));
    arguments.push(String::from_str("-y"));
    arguments.push(String::from_str(output_path));
    assert(texts(arguments@) =~= encoder_arguments_spec(
        width as nat,
        height as nat,
        framerate as nat,
        output_path@,
    ));
    arguments
}

/// Cuts a frame into the rows that the encoder is fed: of each
/// `len / height` bytes the first `4 * width`. `None` if and only if the
/// rows are not defined for a frame of this length.
pub fn frame_rows(data: &[u8], width: usize, height: usize) -> (rows: Option<Vec<Vec<u8>>>)
    ensures
        rows is Some <==> rows_defined(data@.len() as int, width as int, height as int),
        rows matches Some(r) ==> r@.len() == row_count(data@.len() as int, height as int) && forall|i: int|
            0 <= i < r@.len() ==> #[trigger] r@[i]@ == row_spec(data@, width as int, height as int, i),
{
    let len: usize = data.len();
    if height == 0 || width > usize::MAX / 4 {
        return None;
    }
    let row_len: usize = 4 * width;
    let stride: usize = len / height;
    if stride == 0 || row_len > stride {
        return None;
    }
    let full: usize = len / stride;
    let tail: usize = len % stride;
    if tail != 0 && row_len > tail {
        return None;
    }
    proof {
        lemma_fundamental_div_mod(len as int, stride as int);
        assert(stride * full == full * stride) by (nonlinear_arith);
    }
    let mut rows: Vec<Vec<u8>> = Vec::new();
    let mut i: usize = 0;
    let mut start: usize = 0;
    while i < full
        invariant
            len == data@.len(),
            stride == len as int / height as int,
            stride > 0,
            row_len == 4 * width,
            row_len <= stride,
            len == full * stride + tail,
            0 <= tail < stride,
            i <= full,
            start == i * stride,
            rows@.len() == i,
            forall|k: int| 0 <= k < i ==> #[trigger] rows@[k]@ == row_spec(data@, width as int, height as int, k),
        decreases full - i,
    {
        proof {
            assert((i + 1) * stride == i * stride + stride) by (nonlinear_arith);
            assert((i + 1) * stride <= full * stride) by (nonlinear_arith)
                requires
                    i + 1 <= full,
                    stride > 0,
            ;
        }
        let row = slice_to_vec(slice_subrange(data, start, start + row_len));
        rows.push(row);
        start = start + stride;
        i = i + 1;
    }
    if tail != 0 {
        let row = slice_to_vec(slice_subrange(data, start, start + row_len));
        rows.push(row);
    }
    Some(rows)
}

/// A frame of the recording's own size has no padding: its rows are
/// defined, there are `height` of them, and row `i` is the frame's bytes
/// from `i * 4 * width` on, so that the rows together are the frame.
pub proof fn lemma_rows_of_unpadded_frame(data: Seq<u8>, width: int, height: int)
    requires
        width > 0,
        height > 0,
        data.len() == 4 * width * height,
        data.len() <= usize::MAX,
    ensures
        rows_defined(data.len() as int, width, height),
        row_count(data.len() as int, height) == height,
        forall|i: int|
            0 <= i < height ==> #[trigger] row_spec(data, width, height, i) == data.subrange(
                i * (4 * width),
                (i + 1) * (4 * width),
            ),
{
    let len = data.len() as int;
    let stride = 4 * width;
    assert(len == stride * height + 0) by (nonlinear_arith)
        requires
            len == 4 * width * height,
            stride == 4 * width,
    ;
    assert(len == height * stride + 0) by (nonlinear_arith)
        requires
            len == stride * height + 0,
    ;
    lemma_fundamental_div_mod_converse(len, height, stride, 0);
    lemma_fundamental_div_mod_converse(len, stride, height, 0);
    assert(stride <= len) by (nonlinear_arith)
        requires
            len == stride * height,
            height >= 1,
            stride >= 0,
    ;
    assert forall|i: int| 0 <= i < height implies #[trigger] row_spec(data, width, height, i) == data.subrange(
        i * (4 * width),
        (i + 1) * (4 * width),
    ) by {
        assert((i + 1) * stride == i * stride + stride) by (nonlinear_arith);
    }
}

/// Where the frames of a recording come from.
#[derive(Clone, Copy, Debug, PartialEq, Eq)]
pub enum RecordSource {
    /// The caster's own capturer.
    Capture,
    /// The frames that the receiver has buffered.
    Received,
}

/// What the feeding loop does next.
#[derive(Debug, PartialEq, Eq)]
pub enum RecordAction {
    /// Write these rows to the encoder's input, in order.
    Feed(Vec<Vec<u8>>),
    /// Nothing to write in this cycle.
    Skip,
    /// Nothing to write: wait before the next cycle.
    Idle { millis: u64 },
    /// Close the encoder's input, then wait for the encoder to exit.
    Finish,
}

/// One recording: the size that the encoder was started for, and whether
/// its input has been closed.
pub struct RecordingSession {
    width: usize,
    height: usize,
    source: RecordSource,
    finished: bool,
}

/// A recording as a mathematical value.
pub struct RecordingView {
    pub width: nat,
    pub height: nat,
    pub source: RecordSource,
    pub finished: bool,
}

impl View for RecordingSession {
    type V = RecordingView;

    closed spec fn view(&self) -> RecordingView {
        RecordingView {
            width: self.width as nat,
            height: self.height as nat,
            source: self.source,
            finished: self.finished,
        }
    }
}

impl RecordingSession {
    /// A recording of `width` by `height` pixels that has not ended.
    pub fn new(width: usize, height: usize, source: RecordSource) -> (session: RecordingSession)
        ensures
            session@ == (RecordingView { width: width as nat, height: height as nat, source, finished: false }),
    {
        RecordingSession { width, height, source, finished: false }
    }

    /// Whether the encoder's input has been closed.
    pub fn is_finished(&self) -> (b: bool)
        ensures
            b == self@.finished,
    {
        self.finished
    }

    /// The arguments to start this recording's encoder with, at the
    /// caster's frame rate.
    pub fn encoder_arguments(&self, output_path: &str) -> (arguments: Vec<String>)
        ensures
            texts(arguments@) == encoder_arguments_spec(
                self@.width,
                self@.height,
                TARGET_FRAMERATE as nat,
                output_path@,
            ),
    {
        encoder_arguments(self.width, self.height, TARGET_FRAMERATE, output_path)
    }

    /// One cycle of the feeding loop.
    ///
    /// A stop request ends the recording; so does a frame whose rows are
    /// not defined for the recording's size, which cannot be fed. A frame
    /// is cut into rows and fed. Without a frame the receiver's recording
    /// waits and the caster's goes on at once. After the end every cycle
    /// says `Finish`.
    pub fn next(&mut self, stop_requested: bool, frame: Option<&[u8]>) -> (action: RecordAction)
        ensures
            final(self)@ == (RecordingView {
                finished: old(self)@.finished || stop_requested || (frame matches Some(data) && !rows_defined(
                    data@.len() as int,
                    old(self)@.width as int,
                    old(self)@.height as int,
                )),
                ..old(self)@
            }),
            final(self)@.finished <==> action == RecordAction::Finish,
            !final(self)@.finished ==> match frame {
                Some(data) => action matches RecordAction::Feed(rows) && rows@.len() == row_count(
                    data@.len() as int,
                    old(self)@.height as int,
                ) && forall|i: int|
                    0 <= i < rows@.len() ==> #[trigger] rows@[i]@ == row_spec(
                        data@,
                        old(self)@.width as int,
                        old(self)@.height as int,
                        i,
                    ),
                None => action == match old(self)@.source {
                    RecordSource::Capture => RecordAction::Skip,
                    RecordSource::Received => RecordAction::Idle { millis: IDLE_DELAY_MILLIS },
                },
            },
    {
        if self.finished || stop_requested {
            self.finished = true;
            return RecordAction::Finish;
        }
        match frame {
            Some(data) => match frame_rows(data, self.width, self.height) {
                Some(rows) => RecordAction::Feed(rows),
                None => {
                    self.finished = true;
                    RecordAction::Finish
                },
            },
            None => match self.source {
                RecordSource::Capture => RecordAction::Skip,
                RecordSource::Received => RecordAction::Idle { millis: IDLE_DELAY_MILLIS },
            },
        }
    }
}

} // verus!
