//! What the capture thread is told, and what it does with each message.

use crate::utils::text::{decimal, decimal_text};
use crate::utils::ImageDimentions;
use vstd::prelude::*;
use vstd::string::*;

verus! {

/// A message to the thread that writes videos and screenshots.
#[derive(Debug)]
pub enum RecordEvent {
    /// Start a video of frames with these dimensions.
    Start(ImageDimentions),
    /// One frame of the running video, rows padded.
    Record(Vec<u8>),
    /// End the running video.
    Finish,
    /// Save one frame as an image.
    Screenshot((Vec<u8>, ImageDimentions)),
}

impl RecordEvent {
    /// Whether the message is about a video, which needs the encoder.
    pub open spec fn is_video(&self) -> bool {
        self is Start || self is Record || self is Finish
    }
}

/// Whether a message is sent on to the capture thread: messages about a
/// video only where the encoder is installed, screenshots always.
pub fn should_send(event: &RecordEvent, ffmpeg_installed: bool) -> (send: bool)
    ensures
        send == (ffmpeg_installed || !event.is_video()),
{
    match event {
        RecordEvent::Screenshot(_) => true,
        _ => ffmpeg_installed,
    }
}

/// Number of rows of `padded` bytes that `len` bytes fill, the last of them
/// perhaps in part.
pub open spec fn row_count(len: int, padded: int) -> int
    recommends
        padded > 0,
{
    (len + padded - 1) / padded
}

/// Whether a frame of `len` bytes is made of rows of `padded` bytes of which
/// each holds at least the `unpadded` bytes that are kept.
pub open spec fn frame_fits(len: int, padded: int, unpadded: int) -> bool {
    &&& 0 <= unpadded <= padded
    &&& padded > 0
    &&& (len % padded == 0 || len % padded >= unpadded)
}

/// The first `unpadded` bytes of each of the first `rows` rows of `frame`,
/// one row behind the other.
pub open spec fn unpadded_rows(frame: Seq<u8>, padded: int, unpadded: int, rows: int) -> Seq<u8>
    decreases rows,
{
    if rows <= 0 {
        Seq::empty()
    } else {
        unpadded_rows(frame, padded, unpadded, rows - 1) + frame.subrange(
            (rows - 1) * padded,
            (rows - 1) * padded + unpadded,
        )
    }
}

/// Whether a frame of `len` bytes is made of whole rows for these lengths.
pub fn check_frame(len: usize, padded: usize, unpadded: usize) -> (fits: bool)
    ensures
        fits == frame_fits(len as int, padded as int, unpadded as int),
{
    padded > 0 && unpadded <= padded && (len % padded == 0 || len % padded >= unpadded)
}

/// Strips the padding from every row of a frame.
pub fn unpad_rows(frame: &Vec<u8>, padded: usize, unpadded: usize) -> (pixels: Vec<u8>)
    requires
        frame_fits(frame.len() as int, padded as int, unpadded as int),
    ensures
        pixels@ == unpadded_rows(
            frame@,
            padded as int,
            unpadded as int,
            row_count(frame.len() as int, padded as int),
        ),
        pixels.len() == row_count(frame.len() as int, padded as int) * unpadded,
{
    let len = frame.len();
    proof {
        vstd::arithmetic::div_mod::lemma_fundamental_div_mod(len as int, padded as int);
        assert(len % padded != 0 ==> len / padded < len) by (nonlinear_arith)
            requires
                len == padded * (len / padded) + len % padded,
                padded > 0,
                0 <= len % padded,
                0 <= len / padded,
        {
        }
    }
    let rows: usize = if len % padded == 0 {
        len / padded
    } else {
        len / padded + 1
    };
    proof {
        lemma_row_count(len as int, padded as int);
    }
    let mut pixels: Vec<u8> = Vec::new();
    let mut row: usize = 0;
    while row < rows
        invariant
            frame_fits(frame.len() as int, padded as int, unpadded as int),
            len == frame.len(),
            rows == row_count(len as int, padded as int),
            row <= rows,
            pixels@ == unpadded_rows(frame@, padded as int, unpadded as int, row as int),
            pixels.len() == row * unpadded,
        decreases rows - row,
    {
        proof {
            lemma_row_starts_inside(len as int, padded as int, row as int);
            lemma_row_bounds(len as int, padded as int, unpadded as int, row as int);
        }
        let start: usize = row * padded;
        let ghost before = pixels@;
        let mut column: usize = 0;
        while column < unpadded
            invariant
                column <= unpadded,
                start + unpadded <= frame.len(),
                pixels@ == before + frame@.subrange(start as int, start + column),
            decreases unpadded - column,
        {
            pixels.push(frame[start + column]);
            proof {
                assert(frame@.subrange(start as int, start + column + 1) =~= frame@.subrange(
                    start as int,
                    start + column,
                ).push(frame@[start + column]));
            }
            column += 1;
        }
        proof {
            assert((row + 1) * unpadded == row * unpadded + unpadded) by (nonlinear_arith);
        }
        row += 1;
    }
    pixels
}

/// Every row of a frame starts inside the frame.
proof fn lemma_row_starts_inside(len: int, padded: int, row: int)
    requires
        len >= 0,
        padded > 0,
        0 <= row < row_count(len, padded),
    ensures
        0 <= row * padded < len,
{
    lemma_row_count(len, padded);
    vstd::arithmetic::div_mod::lemma_fundamental_div_mod(len, padded);
    let q = len / padded;
    let r = len % padded;
    if r == 0 {
        assert(row * padded < padded * q) by (nonlinear_arith)
            requires
                0 <= row < q,
                padded > 0,
        {
        }
    } else {
        assert(row * padded <= padded * q) by (nonlinear_arith)
            requires
                0 <= row <= q,
                padded > 0,
        {
        }
    }
    assert(0 <= row * padded) by (nonlinear_arith)
        requires
            0 <= row,
            padded > 0,
    {
    }
}

/// A row that starts inside the frame holds its kept bytes inside the frame
/// too, and is one of the frame's rows.
proof fn lemma_row_bounds(len: int, padded: int, unpadded: int, rows: int)
    requires
        frame_fits(len, padded, unpadded),
        0 <= rows,
        rows * padded < len,
    ensures
        rows * padded + unpadded <= len,
{
    vstd::arithmetic::div_mod::lemma_fundamental_div_mod(len, padded);
    let q = len / padded;
    let r = len % padded;
    assert(len == padded * q + r);
    assert(rows <= q) by (nonlinear_arith)
        requires
            rows * padded < padded * q + r,
            0 <= r < padded,
            padded > 0,
    {
    }
    if rows < q {
        assert(rows * padded + padded <= padded * q) by (nonlinear_arith)
            requires
                rows + 1 <= q,
                padded > 0,
        {
        }
    } else {
        assert(rows * padded == padded * q) by (nonlinear_arith)
            requires
                rows == q,
        {
        }
        assert(r > 0);
    }
}

/// The rows of a frame: as many as there are whole rows, and one more where
/// bytes are left over.
proof fn lemma_row_count(len: int, padded: int)
    requires
        len >= 0,
        padded > 0,
    ensures
        row_count(len, padded) == if len % padded == 0 {
            len / padded
        } else {
            len / padded + 1
        },
{
    vstd::arithmetic::div_mod::lemma_fundamental_div_mod(len, padded);
    let q = len / padded;
    let r = len % padded;
    if r == 0 {
        assert(len + padded - 1 == q * padded + (padded - 1)) by (nonlinear_arith)
            requires
                len == padded * q,
        {
        }
        vstd::arithmetic::div_mod::lemma_fundamental_div_mod_converse(
            len + padded - 1,
            padded,
            q,
            padded - 1,
        );
    } else {
        assert(len + padded - 1 == (q + 1) * padded + (r - 1)) by (nonlinear_arith)
            requires
                len == padded * q + r,
        {
        }
        vstd::arithmetic::div_mod::lemma_fundamental_div_mod_converse(
            len + padded - 1,
            padded,
            q + 1,
            r - 1,
        );
    }
}

/// Whether the capture thread has a video running, and with which frames.
#[derive(Debug, Clone, Copy)]
pub enum RecorderState {
    Idle,
    Recording(ImageDimentions),
}

/// What the capture thread does for one message.
#[derive(Debug)]
pub enum RecorderAction {
    /// Start an encoder for frames with these dimensions.
    StartVideo(ImageDimentions),
    /// Hand these bytes, rows without padding, to the running encoder.
    WriteFrame(Vec<u8>),
    /// Say that the recording is over, after waiting for the encoder where
    /// one is running.
    FinishVideo { encoder_running: bool },
    /// Save these bytes, rows without padding, as an image of this size.
    SaveScreenshot { pixels: Vec<u8>, width: u32, height: u32 },
    /// The message asks for nothing.
    Nothing,
}

/// Whether a frame has rows of the lengths that `dims` gives.
pub open spec fn frame_fits_dims(frame: Seq<u8>, dims: ImageDimentions) -> bool {
    frame_fits(
        frame.len() as int,
        dims.padded_bytes_per_row as int,
        dims.unpadded_bytes_per_row as int,
    )
}

/// The rows of a frame without their padding, for the lengths that `dims`
/// gives.
pub open spec fn frame_pixels(frame: Seq<u8>, dims: ImageDimentions) -> Seq<u8> {
    unpadded_rows(
        frame,
        dims.padded_bytes_per_row as int,
        dims.unpadded_bytes_per_row as int,
        row_count(frame.len() as int, dims.padded_bytes_per_row as int),
    )
}

/// Whether the frame that a message carries fits the dimensions it is
/// written with: those of the running video for a frame of the video,
/// its own for a screenshot.
pub open spec fn accepts(state: RecorderState, event: RecordEvent) -> bool {
    match (state, event) {
        (RecorderState::Recording(dims), RecordEvent::Record(frame)) => frame_fits_dims(
            frame@,
            dims,
        ),
        (_, RecordEvent::Screenshot((frame, dims))) => frame_fits_dims(frame@, dims),
        _ => true,
    }
}

/// Whether the frame that a message carries fits the dimensions it is
/// written with.
pub fn check_event(state: &RecorderState, event: &RecordEvent) -> (ok: bool)
    ensures
        ok == accepts(*state, *event),
{
    match event {
        RecordEvent::Record(frame) => match state {
            RecorderState::Recording(dims) => check_frame(
                frame.len(),
                dims.padded_bytes_per_row as usize,
                dims.unpadded_bytes_per_row as usize,
            ),
            RecorderState::Idle => true,
        },
        RecordEvent::Screenshot(shot) => check_frame(
            shot.0.len(),
            shot.1.padded_bytes_per_row as usize,
            shot.1.unpadded_bytes_per_row as usize,
        ),
        _ => true,
    }
}

/// The state of the capture thread after a message.
pub open spec fn next_state(state: RecorderState, event: RecordEvent) -> RecorderState {
    match event {
        RecordEvent::Start(dims) => RecorderState::Recording(dims),
        RecordEvent::Finish => RecorderState::Idle,
        _ => state,
    }
}

/// Whether `action` is what the capture thread does for `event` in `state`.
pub open spec fn is_action_for(
    state: RecorderState,
    event: RecordEvent,
    action: RecorderAction,
) -> bool {
    match event {
        RecordEvent::Start(dims) => action matches RecorderAction::StartVideo(d) && d == dims,
        RecordEvent::Record(frame) => match state {
            RecorderState::Recording(dims) => action matches RecorderAction::WriteFrame(pixels)
                && pixels@ == frame_pixels(frame@, dims),
            RecorderState::Idle => action is Nothing,
        },
        RecordEvent::Finish => action matches RecorderAction::FinishVideo { encoder_running }
            && encoder_running == (state is Recording),
        RecordEvent::Screenshot((frame, dims)) => action matches RecorderAction::SaveScreenshot {
            pixels,
            width,
            height,
        } && pixels@ == frame_pixels(frame@, dims) && width == dims.width && height
            == dims.height,
    }
}

/// One step of the capture thread: what it does for `event`, and the state
/// it is in afterwards.
pub fn record_step(state: RecorderState, event: RecordEvent) -> (step: (
    RecorderState,
    RecorderAction,
))
    requires
        accepts(state, event),
    ensures
        step.0 == next_state(state, event),
        is_action_for(state, event, step.1),
{
    match event {
        RecordEvent::Start(dims) => (RecorderState::Recording(dims), RecorderAction::StartVideo(dims)),
        RecordEvent::Record(frame) => match state {
            RecorderState::Recording(dims) => {
                let pixels = unpad_rows(
                    &frame,
                    dims.padded_bytes_per_row as usize,
                    dims.unpadded_bytes_per_row as usize,
                );
                (state, RecorderAction::WriteFrame(pixels))
            },
            RecorderState::Idle => (state, RecorderAction::Nothing),
        },
        RecordEvent::Finish => {
            let encoder_running = match state {
                RecorderState::Recording(_) => true,
                RecorderState::Idle => false,
            };
            (RecorderState::Idle, RecorderAction::FinishVideo { encoder_running })
        },
        RecordEvent::Screenshot(shot) => {
            let (frame, dims) = shot;
            let pixels = unpad_rows(
                &frame,
                dims.padded_bytes_per_row as usize,
                dims.unpadded_bytes_per_row as usize,
            );
            (state, RecorderAction::SaveScreenshot { pixels, width: dims.width, height: dims.height })
        },
    }
}

/// The texts of a list of arguments.
pub open spec fn arg_texts(args: Seq<String>) -> Seq<Seq<char>> {
    args.map_values(|a: String| a@)
}

/// Size of the frames of a video, as the encoder is told it: width in
/// pixels, an `x`, and the height.
pub open spec fn video_size_text(dims: ImageDimentions) -> Seq<char> {
    decimal_text((dims.unpadded_bytes_per_row / 4) as nat) + "x"@ + decimal_text(
        dims.height as nat,
    )
}

/// The arguments with which the encoder is started for a video of frames
/// with dimensions `dims` that goes to the file `filename`: raw RGBA frames
/// at 60 per second from its input, encoded as H.264 in BT.709.
pub open spec fn ffmpeg_args_of(dims: ImageDimentions, filename: Seq<char>) -> Seq<Seq<char>> {
    seq![
        "-video_size"@,
        video_size_text(dims),
        "-framerate"@,
        "60"@,
        "-pix_fmt"@,
        "rgba"@,
        "-f"@,
        "rawvideo"@,
        "-i"@,
        "pipe:"@,
        "-c:v"@,
        "libx264"@,
        "-crf"@,
        "15"@,
        "-preset"@,
        "ultrafast"@,
        "-tune"@,
        "animation"@,
        "-color_primaries"@,
        "bt709"@,
        "-color_trc"@,
        "bt709"@,
        "-colorspace"@,
        "bt709"@,
        "-color_range"@,
        "tv"@,
        "-chroma_sample_location"@,
        "center"@,
        "-pix_fmt"@,
        "yuv420p"@,
        "-movflags"@,
        "+faststart"@,
        "-y"@,
        filename,
    ]
}

fn push_arg(args: &mut Vec<String>, text: &str)
    ensures
        arg_texts(final(args)@) == arg_texts(old(args)@).push(text@),
{
    args.push(text.to_owned());
    assert(arg_texts(args@) =~= arg_texts(old(args)@).push(text@));
}

/// The arguments with which the encoder is started.
pub fn ffmpeg_args(dims: &ImageDimentions, filename: &str) -> (args: Vec<String>)
    ensures
        arg_texts(args@) == ffmpeg_args_of(*dims, filename@),
{
    let size = decimal(dims.unpadded_bytes_per_row / 4).concat("x");
    let height = decimal(dims.height);
    let size = size.concat(height.as_str());
    let mut args: Vec<String> = Vec::new();
    assert(arg_texts(args@) =~= Seq::<Seq<char>>::empty());
    push_arg(&mut args, "-video_size");
    push_arg(&mut args, size.as_str());
    push_arg(&mut args, "-framerate");
    push_arg(&mut args, "60");
    push_arg(&mut args, "-pix_fmt");
    push_arg(&mut args, "rgba");
    push_arg(&mut args, "-f");
    push_arg(&mut args, "rawvideo");
    push_arg(&mut args, "-i");
    push_arg(&mut args, "pipe:");
    push_arg(&mut args, "-c:v");
    push_arg(&mut args, "libx264");
    push_arg(&mut args, "-crf");
    push_arg(&mut args, "15");
    push_arg(&mut args, "-preset");
    push_arg(&mut args, "ultrafast");
    push_arg(&mut args, "-tune");
    push_arg(&mut args, "animation");
    push_arg(&mut args, "-color_primaries");
    push_arg(&mut args, "bt709");
    push_arg(&mut args, "-color_trc");
    push_arg(&mut args, "bt709");
    push_arg(&mut args, "-colorspace");
    push_arg(&mut args, "bt709");
    push_arg(&mut args, "-color_range");
    push_arg(&mut args, "tv");
    push_arg(&mut args, "-chroma_sample_location");
    push_arg(&mut args, "center");
    push_arg(&mut args, "-pix_fmt");
    push_arg(&mut args, "yuv420p");
    push_arg(&mut args, "-movflags");
    push_arg(&mut args, "+faststart");
    push_arg(&mut args, "-y");
    push_arg(&mut args, filename);
    assert(arg_texts(args@) =~= ffmpeg_args_of(*dims, filename@));
    args
}

/// The eight bytes that open every PNG file.
pub open spec fn png_signature() -> Seq<u8> {
    seq![137u8, 80u8, 78u8, 71u8, 13u8, 10u8, 26u8, 10u8]
}

/// The bytes of the PNG file that the `png` crate writes, with its default
/// settings, for an image of 8-bit RGBA pixels of this size.
pub uninterp spec fn png_rgba8(pixels: Seq<u8>, width: u32, height: u32) -> Seq<u8>;

/// `png::Encoder::new` on a vector, set to 8-bit RGBA, then `write_header`,
/// `write_image_data` and `finish`, for an image that has pixels and a
/// buffer of four bytes for each of them. The encoder refuses only an image
/// without pixels, a buffer of another size and what the vector it writes
/// to cannot take, so for such an image there is a file; it opens with the
/// PNG signature.
#[verifier::external_body]
fn encode_rgba8(pixels: &Vec<u8>, width: u32, height: u32) -> (file: Result<Vec<u8>, String>)
    requires
        width > 0,
        height > 0,
        pixels@.len() == 4 * width * height,
    ensures
        file.is_ok(),
        file matches Ok(bytes) ==> bytes@ == png_rgba8(pixels@, width, height) && bytes@.len()
            >= 8 && bytes@.take(8) == png_signature(),
{
    let mut bytes = Vec::new();
    let mut encoder = png::Encoder::new(&mut bytes, width, height);
    encoder.set_color(png::ColorType::Rgba);
    encoder.set_depth(png::BitDepth::Eight);
    let mut writer = encoder.write_header().map_err(|e| e.to_string())?;
    writer.write_image_data(pixels).map_err(|e| e.to_string())?;
    writer.finish().map_err(|e| e.to_string())?;
    Ok(bytes)
}

/// Why a frame could not be written as an image.
#[derive(Debug)]
pub enum ScreenshotError {
    /// The image has no pixels.
    Empty,
    /// The buffer does not hold four bytes for each pixel.
    BufferSize { expected: u128, actual: usize },
}

/// Whether `file` is what encoding these pixels gives: an image without
/// pixels and a buffer of the wrong size are refused as such; for any other
/// image there is a file, the encoder's.
pub open spec fn is_screenshot_of(
    pixels: Seq<u8>,
    width: u32,
    height: u32,
    file: Result<Vec<u8>, ScreenshotError>,
) -> bool {
    if width == 0 || height == 0 {
        file matches Err(ScreenshotError::Empty)
    } else if pixels.len() != 4 * width * height {
        file matches Err(ScreenshotError::BufferSize { expected, actual }) && expected == 4
            * width * height && actual == pixels.len()
    } else {
        file matches Ok(bytes) && bytes@ == png_rgba8(pixels, width, height) && bytes@.len()
            >= 8 && bytes@.take(8) == png_signature()
    }
}

/// Encodes 8-bit RGBA pixels, rows without padding, as a PNG file.
pub fn encode_screenshot(pixels: &Vec<u8>, width: u32, height: u32) -> (file: Result<
    Vec<u8>,
    ScreenshotError,
>)
    ensures
        is_screenshot_of(pixels@, width, height, file),
{
    if width == 0 || height == 0 {
        return Err(ScreenshotError::Empty);
    }
    assert(4 * width * height <= 4 * 0xffff_ffff * 0xffff_ffff) by (nonlinear_arith)
        requires
            0 <= width <= 0xffff_ffff,
            0 <= height <= 0xffff_ffff,
    {
    }
    let expected: u128 = 4 * (width as u128) * (height as u128);
    if pixels.len() as u128 != expected {
        return Err(ScreenshotError::BufferSize { expected, actual: pixels.len() });
    }
    Ok(encode_rgba8(pixels, width, height).unwrap())
}

} // verus!
