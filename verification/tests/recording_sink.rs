use screencaster::recording::{
    decimal_string, encoder_arguments, frame_rows, RecordAction, RecordSource, RecordingSession,
    CASTER_RECORDING_PATH, ENCODER_PROGRAM, IDLE_DELAY_MILLIS, RECEIVER_RECORDING_PATH, RECORDING_DIRECTORY,
};

#[test]
fn recording_constants() {
    assert_eq!(ENCODER_PROGRAM, "ffmpeg");
    assert_eq!(CASTER_RECORDING_PATH, "recordings/recorded_video.mp4");
    assert_eq!(RECEIVER_RECORDING_PATH, "recordings/receiver_recorded_video.mp4");
    assert_eq!(RECORDING_DIRECTORY, "recordings");
    assert_eq!(IDLE_DELAY_MILLIS, 10);
}

#[test]
fn decimal_of_numbers() {
    assert_eq!(decimal_string(0), "0");
    assert_eq!(decimal_string(7), "7");
    assert_eq!(decimal_string(10), "10");
    assert_eq!(decimal_string(1920), "1920");
    assert_eq!(decimal_string(1080), "1080");
    assert_eq!(decimal_string(u64::MAX), "18446744073709551615");
    for n in [9u64, 11, 99, 100, 101, 12345, 1_000_000, 9_876_543_210] {
        assert_eq!(decimal_string(n), format!("{}", n));
    }
}

#[test]
fn encoder_is_started_for_the_exact_size_and_rate() {
    let args = encoder_arguments(800, 600, 20, "recordings/recorded_video.mp4");
    let expected = vec![
        "-loglevel", "quiet", "-f", "rawvideo", "-pixel_format", "rgb0", "-video_size", "800x600",
        "-framerate", "20", "-i", "-", "-c:v", "libx264", "-preset", "ultrafast", "-crf", "0", "-pix_fmt",
        "yuv420p", "-r", "20", "-y", "recordings/recorded_video.mp4",
    ];
    assert_eq!(args, expected);
}

#[test]
fn encoder_arguments_of_a_session() {
    let session = RecordingSession::new(1920, 1080, RecordSource::Received);
    let args = session.encoder_arguments(RECEIVER_RECORDING_PATH);
    assert_eq!(args.len(), 24);
    assert_eq!(args[7], "1920x1080");
    assert_eq!(args[9], "20");
    assert_eq!(args[21], "20");
    assert_eq!(args[23], "recordings/receiver_recorded_video.mp4");
}

#[test]
fn rows_of_an_unpadded_frame_are_the_frame() {
    let data: Vec<u8> = (0..24).collect();
    let rows = frame_rows(&data, 2, 3).unwrap();
    assert_eq!(rows.len(), 3);
    assert_eq!(rows[0], (0..8).collect::<Vec<u8>>());
    assert_eq!(rows[1], (8..16).collect::<Vec<u8>>());
    assert_eq!(rows[2], (16..24).collect::<Vec<u8>>());
    assert_eq!(rows.concat(), data);
}

#[test]
fn rows_lose_their_padding() {
    let data: Vec<u8> = (0..36).collect();
    let rows = frame_rows(&data, 2, 3).unwrap();
    assert_eq!(rows.len(), 3);
    assert_eq!(rows[0], (0..8).collect::<Vec<u8>>());
    assert_eq!(rows[1], (12..20).collect::<Vec<u8>>());
    assert_eq!(rows[2], (24..32).collect::<Vec<u8>>());
}

#[test]
fn rows_with_a_short_last_chunk() {
    let data: Vec<u8> = (0..10).collect();
    let rows = frame_rows(&data, 0, 3).unwrap();
    assert_eq!(rows.len(), 4);
    assert!(rows.iter().all(|row| row.is_empty()));
    let more: Vec<u8> = (0..49).collect();
    let kept = frame_rows(&more, 1, 5).unwrap();
    assert_eq!(kept.len(), 6);
    assert_eq!(kept[0], vec![0, 1, 2, 3]);
    assert_eq!(kept[1], vec![9, 10, 11, 12]);
    assert_eq!(kept[4], vec![36, 37, 38, 39]);
    assert_eq!(kept[5], vec![45, 46, 47, 48]);
    let short: Vec<u8> = (0..29).collect();
    assert_eq!(frame_rows(&short, 1, 3), None);
}

#[test]
fn rows_are_not_defined_without_a_height() {
    assert_eq!(frame_rows(&[1, 2, 3, 4], 1, 0), None);
}

#[test]
fn rows_are_not_defined_for_a_frame_too_short() {
    assert_eq!(frame_rows(&[], 0, 1), None);
    assert_eq!(frame_rows(&[1, 2], 0, 3), None);
    assert_eq!(frame_rows(&[1, 2, 3, 4, 5, 6, 7], 1, 2), None);
    assert_eq!(frame_rows(&[0; 24], 4, 2), None);
}

#[test]
fn rows_are_not_defined_when_the_last_chunk_is_too_short() {
    assert_eq!(frame_rows(&[0; 9], 1, 2), None);
    let rows = frame_rows(&[0; 9], 1, 1).unwrap();
    assert_eq!(rows, vec![vec![0, 0, 0, 0]]);
}

#[test]
fn rows_are_not_defined_for_a_width_too_large() {
    assert_eq!(frame_rows(&[0; 16], usize::MAX, 1), None);
    assert_eq!(frame_rows(&[0; 16], usize::MAX / 4 + 1, 1), None);
}

#[test]
fn session_feeds_frames_until_stopped() {
    let mut session = RecordingSession::new(2, 2, RecordSource::Capture);
    assert!(!session.is_finished());
    let data: Vec<u8> = (0..16).collect();
    match session.next(false, Some(&data)) {
        RecordAction::Feed(rows) => assert_eq!(rows, vec![(0..8).collect::<Vec<u8>>(), (8..16).collect()]),
        other => panic!("unexpected {:?}", other),
    }
    assert!(!session.is_finished());
    assert_eq!(session.next(true, Some(&data)), RecordAction::Finish);
    assert!(session.is_finished());
    assert_eq!(session.next(false, Some(&data)), RecordAction::Finish);
    assert_eq!(session.next(false, None), RecordAction::Finish);
}

#[test]
fn session_without_a_frame() {
    let mut caster = RecordingSession::new(2, 2, RecordSource::Capture);
    assert_eq!(caster.next(false, None), RecordAction::Skip);
    let mut receiver = RecordingSession::new(2, 2, RecordSource::Received);
    assert_eq!(receiver.next(false, None), RecordAction::Idle { millis: 10 });
    assert!(!receiver.is_finished());
    assert_eq!(receiver.next(true, None), RecordAction::Finish);
}

#[test]
fn session_ends_on_a_frame_that_cannot_be_fed() {
    let mut session = RecordingSession::new(1920, 1080, RecordSource::Received);
    assert_eq!(session.next(false, Some(&[0u8; 16])), RecordAction::Finish);
    assert!(session.is_finished());
}
