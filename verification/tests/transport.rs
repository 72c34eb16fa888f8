use simple_presenter::protocol::ProtocolError;
use simple_presenter::transport::{on_received, on_sent, Reaction, Received, Role, LISTEN_PORT};
use simple_presenter::ProjectorCommand;

fn text(s: &str) -> Received {
    Received::Text(s.to_string())
}

#[test]
fn the_player_listens_on_its_port() {
    assert_eq!(LISTEN_PORT, 8765);
}

#[test]
fn the_player_delivers_commands() {
    assert_eq!(
        on_received(Role::Player, &text("START\n/videos/a.mp4\nVideoEnd")),
        Reaction::Deliver(ProjectorCommand::Start {
            path: "/videos/a.mp4".to_string(),
            skip: "VideoEnd".to_string()
        })
    );
}

#[test]
fn the_controller_delivers_events() {
    assert_eq!(
        on_received(Role::Controller, &text("VideoEnded")),
        Reaction::Deliver(ProjectorCommand::VideoEnded)
    );
}

#[test]
fn each_side_discards_what_is_meant_for_the_other() {
    assert_eq!(
        on_received(Role::Player, &text("VideoEnded")),
        Reaction::Discard(ProtocolError::UnknownTag)
    );
    assert_eq!(
        on_received(Role::Controller, &text("START\n/videos/a.mp4\nVideoEnd")),
        Reaction::Discard(ProtocolError::UnknownTag)
    );
}

#[test]
fn malformed_text_is_discarded_on_either_side() {
    for role in [Role::Player, Role::Controller] {
        assert_eq!(on_received(role, &text("FOO\nbar")), Reaction::Discard(ProtocolError::UnknownTag));
        assert_eq!(on_received(role, &text("")), Reaction::Discard(ProtocolError::UnknownTag));
    }
    assert_eq!(
        on_received(Role::Player, &text("START\nonly-a-path")),
        Reaction::Discard(ProtocolError::MissingField)
    );
}

#[test]
fn other_frames_are_passed_over() {
    assert_eq!(on_received(Role::Player, &Received::Other), Reaction::Pass);
    assert_eq!(on_received(Role::Controller, &Received::Other), Reaction::Pass);
}

#[test]
fn a_lost_connection_stops_the_reading() {
    assert_eq!(on_received(Role::Player, &Received::Lost), Reaction::Stop);
    assert_eq!(on_received(Role::Controller, &Received::Lost), Reaction::Stop);
}

#[test]
fn the_connection_stays_usable_after_a_malformed_message() {
    let stream = [
        text("FOO\nbar"),
        Received::Other,
        text("START\n/videos/a.mp4\nInput"),
        text("START"),
        text("START\n/videos/b.mp4\nTime(5)"),
        Received::Lost,
        text("START\n/videos/c.mp4\nVideoEnd"),
    ];
    let mut delivered = Vec::new();
    let mut discarded = 0;
    for received in stream.iter() {
        match on_received(Role::Player, received) {
            Reaction::Deliver(cmd) => delivered.push(cmd),
            Reaction::Discard(_) => discarded += 1,
            Reaction::Pass => {}
            Reaction::Stop => break,
        }
    }
    assert_eq!(discarded, 2);
    assert_eq!(
        delivered,
        vec![
            ProjectorCommand::Start { path: "/videos/a.mp4".to_string(), skip: "Input".to_string() },
            ProjectorCommand::Start { path: "/videos/b.mp4".to_string(), skip: "Time(5)".to_string() },
        ]
    );
}

#[test]
fn a_write_that_went_out_lets_the_writing_go_on() {
    assert_eq!(on_sent(true), Reaction::Pass);
}

#[test]
fn a_failed_write_stops_the_writing() {
    assert_eq!(on_sent(false), Reaction::Stop);
}

#[test]
fn nothing_is_written_after_a_failed_write() {
    let outcomes = [true, true, false, true, true];
    let mut written = 0;
    for delivered in outcomes {
        written += 1;
        if on_sent(delivered) == Reaction::Stop {
            break;
        }
    }
    assert_eq!(written, 3);
}
