use vokselis::utils::recorder::{
    check_event, check_frame, encode_screenshot, ffmpeg_args, record_step, should_send,
    unpad_rows, RecordEvent, RecorderAction, RecorderState, ScreenshotError,
};
use vokselis::utils::text::{decimal, first_line};
use vokselis::utils::ImageDimentions;

fn dims(width: u32, height: u32, unpadded: u32, padded: u32) -> ImageDimentions {
    ImageDimentions { width, height, unpadded_bytes_per_row: unpadded, padded_bytes_per_row: padded }
}

#[test]
fn video_messages_need_the_encoder() {
    let d = dims(2, 2, 8, 8);
    assert!(should_send(&RecordEvent::Start(d), true));
    assert!(should_send(&RecordEvent::Record(vec![]), true));
    assert!(should_send(&RecordEvent::Finish, true));
    assert!(should_send(&RecordEvent::Screenshot((vec![], d)), true));
    assert!(!should_send(&RecordEvent::Start(d), false));
    assert!(!should_send(&RecordEvent::Record(vec![]), false));
    assert!(!should_send(&RecordEvent::Finish, false));
    assert!(should_send(&RecordEvent::Screenshot((vec![], d)), false));
}

#[test]
fn padding_is_stripped_from_each_row() {
    let frame: Vec<u8> = vec![1, 2, 3, 0, 0, 4, 5, 6, 0, 0, 7, 8, 9, 0, 0];
    assert_eq!(unpad_rows(&frame, 5, 3), vec![1, 2, 3, 4, 5, 6, 7, 8, 9]);
    assert_eq!(unpad_rows(&frame, 5, 5), frame);
    assert_eq!(unpad_rows(&frame, 15, 2), vec![1, 2]);
    assert_eq!(unpad_rows(&Vec::new(), 4, 4), Vec::<u8>::new());
    let short_last: Vec<u8> = vec![1, 2, 3, 0, 0, 4, 5, 6];
    assert_eq!(unpad_rows(&short_last, 5, 3), vec![1, 2, 3, 4, 5, 6]);
}

#[test]
fn frames_are_checked_against_row_lengths() {
    assert!(check_frame(15, 5, 3));
    assert!(check_frame(8, 5, 3));
    assert!(!check_frame(7, 5, 3));
    assert!(!check_frame(15, 0, 0));
    assert!(!check_frame(15, 3, 5));
    assert!(check_frame(0, 5, 3));
}

#[test]
fn capture_thread_follows_its_messages() {
    let d = dims(2, 2, 8, 12);
    let frame: Vec<u8> = (0..24).collect();
    let pixels: Vec<u8> = vec![0, 1, 2, 3, 4, 5, 6, 7, 12, 13, 14, 15, 16, 17, 18, 19];

    let state = RecorderState::Idle;
    assert!(check_event(&state, &RecordEvent::Record(vec![1, 2, 3])));
    let (state, action) = record_step(state, RecordEvent::Record(frame.clone()));
    assert!(matches!(state, RecorderState::Idle));
    assert!(matches!(action, RecorderAction::Nothing));

    let (state, action) = record_step(state, RecordEvent::Finish);
    assert!(matches!(state, RecorderState::Idle));
    assert!(matches!(action, RecorderAction::FinishVideo { encoder_running: false }));

    let (state, action) = record_step(state, RecordEvent::Start(d));
    assert!(matches!(state, RecorderState::Recording(r) if r.padded_bytes_per_row == 12));
    assert!(matches!(action, RecorderAction::StartVideo(r) if r.height == 2));

    assert!(!check_event(&state, &RecordEvent::Record(vec![1, 2, 3])));
    assert!(check_event(&state, &RecordEvent::Record(frame.clone())));
    let (state, action) = record_step(state, RecordEvent::Record(frame.clone()));
    assert!(matches!(state, RecorderState::Recording(_)));
    match action {
        RecorderAction::WriteFrame(bytes) => assert_eq!(bytes, pixels),
        other => panic!("expected a frame, got {:?}", other),
    }

    let (state, action) = record_step(state, RecordEvent::Screenshot((frame.clone(), d)));
    assert!(matches!(state, RecorderState::Recording(_)));
    match action {
        RecorderAction::SaveScreenshot { pixels: bytes, width, height } => {
            assert_eq!(bytes, pixels);
            assert_eq!((width, height), (2, 2));
        }
        other => panic!("expected a screenshot, got {:?}", other),
    }

    let (state, action) = record_step(state, RecordEvent::Finish);
    assert!(matches!(state, RecorderState::Idle));
    assert!(matches!(action, RecorderAction::FinishVideo { encoder_running: true }));
}

#[test]
fn first_line_of_the_version_text() {
    assert_eq!(first_line("ffmpeg version 5.1\nbuilt with gcc\n"), Some("ffmpeg version 5.1"));
    assert_eq!(first_line("ffmpeg version 5.1\r\nbuilt"), Some("ffmpeg version 5.1"));
    assert_eq!(first_line("one line"), Some("one line"));
    assert_eq!(first_line("bare\r"), Some("bare\r"));
    assert_eq!(first_line("\nsecond"), Some(""));
    assert_eq!(first_line(""), None);
    assert_eq!(first_line("ffmpeg version 5.1\nbuilt"), "ffmpeg version 5.1\nbuilt".lines().next());
}

#[test]
fn numbers_in_decimal() {
    assert_eq!(decimal(0), "0");
    assert_eq!(decimal(7), "7");
    assert_eq!(decimal(10), "10");
    assert_eq!(decimal(1280), "1280");
    assert_eq!(decimal(4294967295), "4294967295");
}

#[test]
fn encoder_arguments() {
    let d = ImageDimentions::new(1280, 720, 256);
    let args = ffmpeg_args(&d, "recordings/record-01-02-2022-10-20-30.mp4");
    assert_eq!(
        args,
        vec![
            "-video_size", "1280x720",
            "-framerate", "60",
            "-pix_fmt", "rgba",
            "-f", "rawvideo",
            "-i", "pipe:",
            "-c:v", "libx264",
            "-crf", "15",
            "-preset", "ultrafast",
            "-tune", "animation",
            "-color_primaries", "bt709",
            "-color_trc", "bt709",
            "-colorspace", "bt709",
            "-color_range", "tv",
            "-chroma_sample_location", "center",
            "-pix_fmt", "yuv420p",
            "-movflags", "+faststart",
            "-y",
            "recordings/record-01-02-2022-10-20-30.mp4",
        ]
    );
}

#[test]
fn screenshot_is_a_png_of_the_pixels() {
    let pixels: Vec<u8> = vec![255, 0, 0, 255, 0, 255, 0, 255, 0, 0, 255, 255, 9, 8, 7, 6];
    let file = encode_screenshot(&pixels, 2, 2).unwrap();
    assert_eq!(&file[..8], &[137, 80, 78, 71, 13, 10, 26, 10]);
    assert_ne!(file, pixels);
    let decoder = png::Decoder::new(file.as_slice());
    let mut reader = decoder.read_info().unwrap();
    let mut decoded = vec![0; reader.output_buffer_size()];
    let info = reader.next_frame(&mut decoded).unwrap();
    assert_eq!((info.width, info.height), (2, 2));
    assert_eq!(info.color_type, png::ColorType::Rgba);
    assert_eq!(info.bit_depth, png::BitDepth::Eight);
    assert_eq!(&decoded[..info.buffer_size()], pixels.as_slice());
}

#[test]
fn screenshots_that_cannot_be_encoded() {
    assert!(matches!(encode_screenshot(&vec![], 0, 4), Err(ScreenshotError::Empty)));
    assert!(matches!(encode_screenshot(&vec![1, 2, 3, 4], 1, 0), Err(ScreenshotError::Empty)));
    assert!(matches!(
        encode_screenshot(&vec![1, 2, 3], 1, 1),
        Err(ScreenshotError::BufferSize { expected: 4, actual: 3 })
    ));
    assert!(matches!(
        encode_screenshot(&vec![], u32::MAX, u32::MAX),
        Err(ScreenshotError::BufferSize { expected: 73786976260478468100, actual: 0 })
    ));
}
