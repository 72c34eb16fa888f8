use simple_presenter::protocol::{decode_command, decode_event, encode, fields, ProtocolError};
use simple_presenter::ProjectorCommand;

fn start(path: &str, skip: &str) -> ProjectorCommand {
    ProjectorCommand::Start { path: path.to_string(), skip: skip.to_string() }
}

#[test]
fn start_is_written_as_three_lines() {
    assert_eq!(encode(&start("/videos/a.mp4", "VideoEnd")), "START\n/videos/a.mp4\nVideoEnd");
    assert_eq!(encode(&start("", "")), "START\n\n");
    assert_eq!(encode(&start("C:\\clips\\été.mkv", "Time(30)")), "START\nC:\\clips\\été.mkv\nTime(30)");
}

#[test]
fn video_ended_is_written_as_its_tag() {
    assert_eq!(encode(&ProjectorCommand::VideoEnded), "VideoEnded");
}

#[test]
fn fields_are_what_stands_between_line_feeds() {
    assert_eq!(fields(""), vec![String::new()]);
    assert_eq!(fields("abc"), vec!["abc".to_string()]);
    assert_eq!(fields("a\nb"), vec!["a".to_string(), "b".to_string()]);
    assert_eq!(fields("a\n"), vec!["a".to_string(), String::new()]);
    assert_eq!(fields("\n"), vec![String::new(), String::new()]);
    assert_eq!(fields("\n\nx"), vec![String::new(), String::new(), "x".to_string()]);
    assert_eq!(
        fields("START\n/päth/ü.mp4\nInput"),
        vec!["START".to_string(), "/päth/ü.mp4".to_string(), "Input".to_string()]
    );
}

#[test]
fn fields_agree_with_the_standard_split() {
    for text in ["", "a", "\n", "a\nb\nc", "\na\n\nb\n", "START\nx\ny\nz", "é\nü\n"] {
        let expected: Vec<String> = text.split('\n').map(|s| s.to_string()).collect();
        assert_eq!(fields(text), expected, "{:?}", text);
    }
}

#[test]
fn player_decodes_start() {
    assert_eq!(
        decode_command("START\n/videos/a.mp4\nVideoEnd"),
        Ok(start("/videos/a.mp4", "VideoEnd"))
    );
    assert_eq!(decode_command("START\n\n"), Ok(start("", "")));
}

#[test]
fn player_ignores_fields_after_the_policy() {
    assert_eq!(decode_command("START\na\nb\nc\nd"), Ok(start("a", "b")));
}

#[test]
fn player_refuses_unknown_tags() {
    assert_eq!(decode_command("FOO\nbar"), Err(ProtocolError::UnknownTag));
    assert_eq!(decode_command(""), Err(ProtocolError::UnknownTag));
    assert_eq!(decode_command("start\na\nb"), Err(ProtocolError::UnknownTag));
    assert_eq!(decode_command("START \na\nb"), Err(ProtocolError::UnknownTag));
    assert_eq!(decode_command("VideoEnded"), Err(ProtocolError::UnknownTag));
    assert_eq!(decode_command("\nSTART\na\nb"), Err(ProtocolError::UnknownTag));
}

#[test]
fn player_refuses_start_without_its_fields() {
    assert_eq!(decode_command("START"), Err(ProtocolError::MissingField));
    assert_eq!(decode_command("START\n/videos/a.mp4"), Err(ProtocolError::MissingField));
    assert_eq!(decode_command("START\n"), Err(ProtocolError::MissingField));
}

#[test]
fn controller_decodes_video_ended() {
    assert_eq!(decode_event("VideoEnded"), Ok(ProjectorCommand::VideoEnded));
    assert_eq!(decode_event("VideoEnded\nextra"), Ok(ProjectorCommand::VideoEnded));
}

#[test]
fn controller_refuses_everything_else() {
    assert_eq!(decode_event("FOO\nbar"), Err(ProtocolError::UnknownTag));
    assert_eq!(decode_event(""), Err(ProtocolError::UnknownTag));
    assert_eq!(decode_event("videoended"), Err(ProtocolError::UnknownTag));
    assert_eq!(decode_event("VideoEnded "), Err(ProtocolError::UnknownTag));
    assert_eq!(decode_event("START\na\nb"), Err(ProtocolError::UnknownTag));
}

#[test]
fn messages_are_read_back_from_their_text() {
    for (path, skip) in [
        ("/videos/a.mp4", "VideoEnd"),
        ("/videos/b with space.mp4", "Input"),
        ("relative/ß.webm", "Time(12)"),
        ("", ""),
    ] {
        let cmd = start(path, skip);
        assert_eq!(decode_command(&encode(&cmd)), Ok(cmd));
    }
    assert_eq!(decode_event(&encode(&ProjectorCommand::VideoEnded)), Ok(ProjectorCommand::VideoEnded));
}

#[test]
fn a_line_feed_in_the_path_shifts_the_fields() {
    let cmd = start("a\nb", "VideoEnd");
    assert_eq!(decode_command(&encode(&cmd)), Ok(start("a", "b")));
}

#[test]
fn malformed_message_is_dropped_and_the_next_one_is_read() {
    let received = ["FOO\nbar", "START\n/videos/a.mp4\nVideoEnd"];
    let mut accepted = Vec::new();
    for text in received {
        match decode_command(text) {
            Ok(cmd) => accepted.push(cmd),
            Err(_) => {}
        }
    }
    assert_eq!(accepted, vec![start("/videos/a.mp4", "VideoEnd")]);

    let received = ["FOO\nbar", "VideoEnded"];
    let mut events = Vec::new();
    for text in received {
        match decode_event(text) {
            Ok(event) => events.push(event),
            Err(_) => {}
        }
    }
    assert_eq!(events, vec![ProjectorCommand::VideoEnded]);
}
