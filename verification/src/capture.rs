//! The capturer: the capture rectangle, the conversion of a raw screen
//! buffer into a frame, and what to do with each answer of the screen.

use vstd::prelude::*;
use crate::frame::{Frame, FrameView};
use crate::image_buffer::{
    PixelBuffer, image_width, image_height, image_samples, image_new, image_put_pixel, image_get_pixel,
    image_into_raw, image_dimensions, sample_index, with_pixel,
};

verus! {

/// How long to wait before asking again while the screen has no frame ready.
pub const RETRY_DELAY_MILLIS: u64 = 10;

/// The rectangle of the screen to capture, in pixels.
#[derive(Clone, Copy, Debug, PartialEq, Eq)]
pub struct CaptureArea {
    pub x: usize,
    pub y: usize,
    pub width: usize,
    pub height: usize,
}

impl CaptureArea {
    pub fn new(x: usize, y: usize, width: usize, height: usize) -> (area: CaptureArea)
        ensures
            area == (CaptureArea { x, y, width, height }),
    {
        CaptureArea { x, y, width, height }
    }

    /// Whether the rectangle holds at least one pixel.
    pub open spec fn valid(self) -> bool {
        self.width > 0 && self.height > 0
    }

    /// Whether the rectangle lies within a display of the given size.
    pub open spec fn within(self, display_width: int, display_height: int) -> bool {
        self.x + self.width <= display_width && self.y + self.height <= display_height
    }

    /// Whether the rectangle is the whole of a display of the given size.
    pub open spec fn covers(self, display_width: int, display_height: int) -> bool {
        self.x == 0 && self.y == 0 && self.width == display_width && self.height == display_height
    }

    /// Whether the rectangle holds at least one pixel.
    pub fn is_valid(&self) -> (b: bool)
        ensures
            b == self.valid(),
    {
        self.width > 0 && self.height > 0
    }

    /// The rectangle as `(x, y, width, height)`.
    pub fn as_rect(&self) -> (rect: (usize, usize, usize, usize))
        ensures
            rect == (self.x, self.y, self.width, self.height),
    {
        (self.x, self.y, self.width, self.height)
    }

    /// Whether the rectangle lies within a display of the given size.
    pub fn fits(&self, display_width: usize, display_height: usize) -> (b: bool)
        ensures
            b == self.within(display_width as int, display_height as int),
    {
        self.x <= display_width && self.width <= display_width - self.x && self.y <= display_height
            && self.height <= display_height - self.y
    }
}

impl Default for CaptureArea {
    /// The empty rectangle at the origin.
    fn default() -> (area: CaptureArea)
        ensures
            area == (CaptureArea { x: 0, y: 0, width: 0, height: 0 }),
    {
        CaptureArea { x: 0, y: 0, width: 0, height: 0 }
    }
}

/// Why a capturer cannot be made.
#[derive(Clone, Copy, Debug, PartialEq, Eq)]
pub enum CaptureError {
    /// The display has more pixels than a buffer can hold.
    DisplayTooLarge,
    /// The capture area reaches beyond the display.
    AreaOutOfBounds,
}

/// What the screen answered when asked for its next frame.
#[derive(Debug, PartialEq, Eq)]
pub enum CaptureEvent {
    /// A raw buffer of the whole display: four bytes per pixel, blue first.
    Ready(Vec<u8>),
    /// No frame is ready yet.
    NotReady,
    /// The capture failed.
    Failed,
}

/// What the capturer does with an answer of the screen.
#[derive(Debug, PartialEq, Eq)]
pub enum CaptureStep {
    /// The frame of this cycle.
    Frame(Frame),
    /// Wait, then ask the screen again within the same cycle.
    RetryAfter { millis: u64 },
    /// No frame in this cycle.
    Skip,
}

/// A capturer as a mathematical value.
pub struct CapturerView {
    pub width: int,
    pub height: int,
    pub capture_area: Option<CaptureArea>,
}

/// Whether a buffer of `width` by `height` pixels can be held.
pub open spec fn display_fits(width: int, height: int) -> bool {
    0 <= width <= u32::MAX && 0 <= height <= u32::MAX && 4 * width * height <= isize::MAX
}

impl CapturerView {
    pub open spec fn wf(self) -> bool {
        &&& display_fits(self.width, self.height)
        &&& self.capture_area matches Some(area) ==> area.within(self.width, self.height)
    }

    /// The left edge of what is captured.
    pub open spec fn left(self) -> int {
        match self.capture_area {
            Some(area) => area.x as int,
            None => 0,
        }
    }

    /// The top edge of what is captured.
    pub open spec fn top(self) -> int {
        match self.capture_area {
            Some(area) => area.y as int,
            None => 0,
        }
    }

    /// The width of the frames that come out.
    pub open spec fn frame_width(self) -> int {
        match self.capture_area {
            Some(area) => area.width as int,
            None => self.width,
        }
    }

    /// The height of the frames that come out.
    pub open spec fn frame_height(self) -> int {
        match self.capture_area {
            Some(area) => area.height as int,
            None => self.height,
        }
    }
}

/// The four samples of pixel `(x, y)` in a buffer `width` pixels wide.
pub open spec fn pixel_at(samples: Seq<u8>, width: int, x: int, y: int) -> Seq<u8> {
    samples.subrange(sample_index(width, x, y), sample_index(width, x, y) + 4)
}

/// Pixel `(x, y)` of a raw screen buffer as red, green, blue and full alpha.
pub open spec fn rgba_pixel(raw: Seq<u8>, width: int, x: int, y: int) -> Seq<u8> {
    let at = sample_index(width, x, y);
    seq![raw[at + 2], raw[at + 1], raw[at], 255u8]
}

/// Whether `pixels`, `width` by `height`, show the part of the raw screen
/// buffer whose upper left corner is `(left, top)`.
pub open spec fn shows(
    pixels: Seq<u8>,
    width: int,
    height: int,
    raw: Seq<u8>,
    raw_width: int,
    left: int,
    top: int,
) -> bool {
    &&& pixels.len() == 4 * width * height
    &&& forall|i: int, j: int|
        0 <= i < width && 0 <= j < height ==> #[trigger] pixel_at(pixels, width, i, j) == rgba_pixel(
            raw,
            raw_width,
            left + i,
            top + j,
        )
}

/// Whether `cropped`, `area.width` by `area.height`, is the part of
/// `source` that `area` marks.
pub open spec fn is_crop_of(cropped: Seq<u8>, source: Seq<u8>, source_width: int, area: CaptureArea) -> bool {
    &&& cropped.len() == 4 * area.width * area.height
    &&& forall|i: int, j: int|
        0 <= i < area.width && 0 <= j < area.height ==> #[trigger] pixel_at(cropped, area.width as int, i, j)
            == pixel_at(source, source_width, area.x + i, area.y + j)
}

/// Pixels inside a buffer have their samples inside it.
pub proof fn lemma_sample_index_bounds(width: int, height: int, x: int, y: int)
    by (nonlinear_arith)
    requires
        0 <= x < width,
        0 <= y < height,
    ensures
        0 <= y * width <= y * width + x < width * height,
        0 <= sample_index(width, x, y),
        sample_index(width, x, y) + 4 <= 4 * width * height,
{
}

/// Different pixels have their samples apart.
pub proof fn lemma_sample_index_apart(width: int, x1: int, y1: int, x2: int, y2: int)
    by (nonlinear_arith)
    requires
        0 <= x1 < width,
        0 <= x2 < width,
        0 <= y1,
        0 <= y2,
        x1 != x2 || y1 != y2,
    ensures
        sample_index(width, x1, y1) + 4 <= sample_index(width, x2, y2) || sample_index(width, x2, y2) + 4
            <= sample_index(width, x1, y1),
{
}

/// A smaller rectangle has no more samples.
pub proof fn lemma_sample_count_monotonic(w1: int, h1: int, w2: int, h2: int)
    by (nonlinear_arith)
    requires
        0 <= w1 <= w2,
        0 <= h1 <= h2,
    ensures
        0 <= 4 * w1 * h1 <= 4 * w2 * h2,
{
}

/// Setting a pixel sets that pixel and no other.
pub proof fn lemma_with_pixel(samples: Seq<u8>, width: int, height: int, x: int, y: int, rgba: Seq<u8>)
    requires
        samples.len() == 4 * width * height,
        0 <= x < width,
        0 <= y < height,
        rgba.len() == 4,
    ensures
        with_pixel(samples, width, x, y, rgba).len() == samples.len(),
        pixel_at(with_pixel(samples, width, x, y, rgba), width, x, y) == rgba,
        forall|i: int, j: int|
            0 <= i < width && 0 <= j < height && (i != x || j != y) ==> #[trigger] pixel_at(
                with_pixel(samples, width, x, y, rgba),
                width,
                i,
                j,
            ) == pixel_at(samples, width, i, j),
{
    let after = with_pixel(samples, width, x, y, rgba);
    lemma_sample_index_bounds(width, height, x, y);
    assert(pixel_at(after, width, x, y) =~= rgba);
    assert forall|i: int, j: int| 0 <= i < width && 0 <= j < height && (i != x || j != y) implies #[trigger] pixel_at(
        after,
        width,
        i,
        j,
    ) == pixel_at(samples, width, i, j) by {
        lemma_sample_index_bounds(width, height, i, j);
        lemma_sample_index_apart(width, i, j, x, y);
        assert(pixel_at(after, width, i, j) =~= pixel_at(samples, width, i, j));
    }
}

/// The capturer of one display, whole or cropped.
pub struct ScreenCapturer {
    width: u32,
    height: u32,
    capture_area: Option<CaptureArea>,
}

impl View for ScreenCapturer {
    type V = CapturerView;

    closed spec fn view(&self) -> CapturerView {
        CapturerView { width: self.width as int, height: self.height as int, capture_area: self.capture_area }
    }
}

/// Whether a buffer of `width` by `height` pixels can be held.
fn check_display(width: usize, height: usize) -> (b: bool)
    ensures
        b == display_fits(width as int, height as int),
{
    if width > u32::MAX as usize || height > u32::MAX as usize {
        return false;
    }
    assert((width as int) * (height as int) <= 0xFFFF_FFFF * 0xFFFF_FFFF) by (nonlinear_arith)
        requires
            0 <= width <= 0xFFFF_FFFF,
            0 <= height <= 0xFFFF_FFFF,
    ;
    assert(0 <= (width as int) * (height as int)) by (nonlinear_arith);
    assert(4 * ((width as int) * (height as int)) == 4 * (width as int) * (height as int)) by (nonlinear_arith);
    let samples: u128 = 4 * ((width as u128) * (height as u128));
    samples <= isize::MAX as u128
}

impl ScreenCapturer {
    #[verifier::type_invariant]
    spec fn inv(self) -> bool {
        self@.wf()
    }

    /// A capturer for a display of the given size that captures
    /// `capture_area`, or the whole display where there is none.
    ///
    /// Fails if the display is too large for a buffer, and otherwise if the
    /// area reaches beyond the display.
    pub fn new(capture_area: Option<CaptureArea>, display_width: usize, display_height: usize) -> (r: Result<
        ScreenCapturer,
        CaptureError,
    >)
        ensures
            match r {
                Ok(capturer) => capturer@ == (CapturerView {
                    width: display_width as int,
                    height: display_height as int,
                    capture_area,
                }) && capturer@.wf(),
                Err(CaptureError::DisplayTooLarge) => !display_fits(display_width as int, display_height as int),
                Err(CaptureError::AreaOutOfBounds) => display_fits(display_width as int, display_height as int)
                    && capture_area is Some && !capture_area->0.within(
                    display_width as int,
                    display_height as int,
                ),
            },
    {
        if !check_display(display_width, display_height) {
            return Err(CaptureError::DisplayTooLarge);
        }
        match capture_area {
            Some(area) => {
                if !area.fits(display_width, display_height) {
                    return Err(CaptureError::AreaOutOfBounds);
                }
            },
            None => {},
        }
        Ok(ScreenCapturer { width: display_width as u32, height: display_height as u32, capture_area })
    }

    /// The width of the display.
    pub fn width(&self) -> (w: usize)
        ensures
            w == self@.width,
            self@.wf(),
    {
        proof {
            use_type_invariant(self);
        }
        self.width as usize
    }

    /// The height of the display.
    pub fn height(&self) -> (h: usize)
        ensures
            h == self@.height,
            self@.wf(),
    {
        proof {
            use_type_invariant(self);
        }
        self.height as usize
    }

    /// The area that is captured; `None` for the whole display.
    pub fn capture_area(&self) -> (area: Option<CaptureArea>)
        ensures
            area == self@.capture_area,
    {
        self.capture_area
    }

    /// What to do with an answer of the screen.
    ///
    /// A buffer becomes the frame of this cycle: the rectangle that the
    /// capturer was made for, every pixel as red, green, blue and full
    /// alpha. "Not ready" asks for a retry after a short wait. A failure
    /// skips the cycle.
    pub fn capture_frame(&self, event: CaptureEvent) -> (step: CaptureStep)
        requires
            event matches CaptureEvent::Ready(raw) ==> raw@.len() >= 4 * self@.width * self@.height,
        ensures
            self@.wf(),
            match event {
                CaptureEvent::Ready(raw) => step matches CaptureStep::Frame(frame) && frame@.width
                    == self@.frame_width() && frame@.height == self@.frame_height() && frame@.wf() && shows(
                    frame@.pixels,
                    self@.frame_width(),
                    self@.frame_height(),
                    raw@,
                    self@.width,
                    self@.left(),
                    self@.top(),
                ),
                CaptureEvent::NotReady => step == (CaptureStep::RetryAfter { millis: RETRY_DELAY_MILLIS }),
                CaptureEvent::Failed => step == CaptureStep::Skip,
            },
    {
        proof {
            use_type_invariant(self);
        }
        match event {
            CaptureEvent::NotReady => CaptureStep::RetryAfter { millis: RETRY_DELAY_MILLIS },
            CaptureEvent::Failed => CaptureStep::Skip,
            CaptureEvent::Ready(raw) => {
                let buffer = self.create_image_buffer(raw.as_slice());
                match self.capture_area {
                    None => {
                        let frame = frame_of(buffer).unwrap();
                        CaptureStep::Frame(frame)
                    },
                    Some(area) => {
                        proof {
                            lemma_sample_count_monotonic(
                                area.width as int,
                                area.height as int,
                                self.width as int,
                                self.height as int,
                            );
                        }
                        let cropped = self.crop_frame(&buffer, &area);
                        let frame = frame_of(cropped).unwrap();
                        proof {
                            assert forall|i: int, j: int|
                                0 <= i < area.width && 0 <= j < area.height implies #[trigger] pixel_at(
                                frame@.pixels,
                                area.width as int,
                                i,
                                j,
                            ) == rgba_pixel(raw@, self@.width, area.x + i, area.y + j) by {
                                assert(pixel_at(image_samples(buffer), self@.width, area.x + i, area.y + j)
                                    == rgba_pixel(raw@, self@.width, area.x + i, area.y + j));
                            }
                        }
                        CaptureStep::Frame(frame)
                    },
                }
            },
        }
    }

    /// Turns a raw buffer of the whole display, blue first, into an RGBA
    /// buffer of the display's size with full alpha.
    pub fn create_image_buffer(&self, raw: &[u8]) -> (buffer: PixelBuffer)
        requires
            raw@.len() >= 4 * self@.width * self@.height,
        ensures
            image_width(buffer) == self@.width,
            image_height(buffer) == self@.height,
            shows(image_samples(buffer), self@.width, self@.height, raw@, self@.width, 0, 0),
    {
        proof {
            use_type_invariant(self);
        }
        let width = self.width;
        let height = self.height;
        let ghost w = width as int;
        let ghost h = height as int;
        let mut buffer = image_new(width, height);
        let mut y: u32 = 0;
        while y < height
            invariant
                w == width,
                h == height,
                display_fits(w, h),
                raw@.len() >= 4 * w * h,
                y <= height,
                image_width(buffer) == width,
                image_height(buffer) == height,
                image_samples(buffer).len() == 4 * w * h,
                forall|i: int, j: int|
                    0 <= i < w && 0 <= j < y ==> #[trigger] pixel_at(image_samples(buffer), w, i, j) == rgba_pixel(
                        raw@,
                        w,
                        i,
                        j,
                    ),
            decreases height - y,
        {
            let mut x: u32 = 0;
            while x < width
                invariant
                    w == width,
                    h == height,
                    display_fits(w, h),
                    raw@.len() >= 4 * w * h,
                    y < height,
                    x <= width,
                    image_width(buffer) == width,
                    image_height(buffer) == height,
                    image_samples(buffer).len() == 4 * w * h,
                    forall|i: int, j: int|
                        0 <= i < w && (0 <= j < y || (j == y && i < x)) ==> #[trigger] pixel_at(
                            image_samples(buffer),
                            w,
                            i,
                            j,
                        ) == rgba_pixel(raw@, w, i, j),
                decreases width - x,
            {
                proof {
                    lemma_sample_index_bounds(w, h, x as int, y as int);
                }
                let idx: usize = (y as usize * width as usize + x as usize) * 4;
                let rgba: [u8; 4] = [raw[idx + 2], raw[idx + 1], raw[idx], 255];
                let ghost before = image_samples(buffer);
                image_put_pixel(&mut buffer, x, y, rgba);
                proof {
                    lemma_with_pixel(before, w, h, x as int, y as int, rgba@);
                    assert(rgba@ =~= rgba_pixel(raw@, w, x as int, y as int));
                }
                x += 1;
            }
            y += 1;
        }
        buffer
    }

    /// Cuts `area` out of `buffer`: pixel `(i, j)` of the result is pixel
    /// `(area.x + i, area.y + j)` of the buffer.
    pub fn crop_frame(&self, buffer: &PixelBuffer, area: &CaptureArea) -> (cropped: PixelBuffer)
        requires
            area.within(image_width(*buffer) as int, image_height(*buffer) as int),
            4 * area.width * area.height <= isize::MAX,
        ensures
            image_width(cropped) == area.width,
            image_height(cropped) == area.height,
            is_crop_of(image_samples(cropped), image_samples(*buffer), image_width(*buffer) as int, *area),
    {
        let width: u32 = area.width as u32;
        let height: u32 = area.height as u32;
        let ghost w = area.width as int;
        let ghost h = area.height as int;
        let ghost source = image_samples(*buffer);
        let ghost source_width = image_width(*buffer) as int;
        let mut cropped = image_new(width, height);
        let mut y: u32 = 0;
        while y < height
            invariant
                w == width == area.width,
                h == height == area.height,
                area.within(image_width(*buffer) as int, image_height(*buffer) as int),
                source == image_samples(*buffer),
                source_width == image_width(*buffer),
                y <= height,
                image_width(cropped) == width,
                image_height(cropped) == height,
                image_samples(cropped).len() == 4 * w * h,
                forall|i: int, j: int|
                    0 <= i < w && 0 <= j < y ==> #[trigger] pixel_at(image_samples(cropped), w, i, j) == pixel_at(
                        source,
                        source_width,
                        area.x + i,
                        area.y + j,
                    ),
            decreases height - y,
        {
            let mut x: u32 = 0;
            while x < width
                invariant
                    w == width == area.width,
                    h == height == area.height,
                    area.within(image_width(*buffer) as int, image_height(*buffer) as int),
                    source == image_samples(*buffer),
                    source_width == image_width(*buffer),
                    y < height,
                    x <= width,
                    image_width(cropped) == width,
                    image_height(cropped) == height,
                    image_samples(cropped).len() == 4 * w * h,
                    forall|i: int, j: int|
                        0 <= i < w && (0 <= j < y || (j == y && i < x)) ==> #[trigger] pixel_at(
                            image_samples(cropped),
                            w,
                            i,
                            j,
                        ) == pixel_at(source, source_width, area.x + i, area.y + j),
                decreases width - x,
            {
                let pixel = image_get_pixel(buffer, (area.x + x as usize) as u32, (area.y + y as usize) as u32);
                let ghost before = image_samples(cropped);
                image_put_pixel(&mut cropped, x, y, pixel);
                proof {
                    lemma_with_pixel(before, w, h, x as int, y as int, pixel@);
                }
                x += 1;
            }
            y += 1;
        }
        cropped
    }
}

/// The frame that a buffer holds: its size and its samples. `None` unless
/// the buffer holds exactly four samples for each of its pixels.
pub fn frame_of(buffer: PixelBuffer) -> (frame: Option<Frame>)
    ensures
        frame is Some <==> (FrameView {
            width: image_width(buffer),
            height: image_height(buffer),
            pixels: image_samples(buffer),
        }).wf(),
        frame matches Some(f) ==> f@ == (FrameView {
            width: image_width(buffer),
            height: image_height(buffer),
            pixels: image_samples(buffer),
        }),
{
    let size = image_dimensions(&buffer);
    let pixels = image_into_raw(buffer);
    Frame::new(size.0, size.1, pixels)
}

/// The size of what a recording of `capture_area` shows: the area's, or the
/// display's where there is none.
pub fn get_capture_dimensions(capture_area: &Option<CaptureArea>, display_width: usize, display_height: usize) -> (size: (
    usize,
    usize,
))
    ensures
        size == match *capture_area {
            Some(area) => (area.width, area.height),
            None => (display_width, display_height),
        },
{
    match capture_area {
        Some(area) => (area.width, area.height),
        None => (display_width, display_height),
    }
}

} // verus!
