use simple_presenter::playlist::{Dispatch, Playlist};
use simple_presenter::{ProjectorCommand, Skip, Source};

fn source(path: &str, skip: Skip) -> Source {
    Source::new(path.to_string(), skip)
}

fn three() -> Playlist {
    let mut p = Playlist::new();
    p.append(source("/a.mp4", Skip::VideoEnd));
    p.append(source("/b.mp4", Skip::Input));
    p.append(source("/c.mp4", Skip::Time(30)));
    p
}

fn paths(p: &Playlist) -> Vec<String> {
    (0..p.len()).map(|i| p.get(i).unwrap().path().clone()).collect()
}

fn start(index: usize, path: &str, skip: &str) -> Dispatch {
    Dispatch {
        index,
        command: ProjectorCommand::Start { path: path.to_string(), skip: skip.to_string() },
    }
}

#[test]
fn new_playlist_is_empty() {
    let p = Playlist::new();
    assert_eq!(p.len(), 0);
    assert_eq!(p.current(), None);
    assert!(p.get(0).is_none());
}

#[test]
fn append_keeps_the_order() {
    let p = three();
    assert_eq!(p.len(), 3);
    assert_eq!(paths(&p), vec!["/a.mp4", "/b.mp4", "/c.mp4"]);
    assert_eq!(p.get(2).unwrap().skip(), Skip::Time(30));
    assert_eq!(p.current(), None);
    assert!(p.get(3).is_none());
}

#[test]
fn move_up_at_the_first_entry_changes_nothing() {
    let mut p = three();
    assert!(p.select(0));
    assert!(!p.move_up(0));
    assert_eq!(paths(&p), vec!["/a.mp4", "/b.mp4", "/c.mp4"]);
    assert_eq!(p.current(), Some(0));
}

#[test]
fn move_down_at_the_last_entry_changes_nothing() {
    let mut p = three();
    assert!(p.select(2));
    assert!(!p.move_down(2));
    assert_eq!(paths(&p), vec!["/a.mp4", "/b.mp4", "/c.mp4"]);
    assert_eq!(p.current(), Some(2));
}

#[test]
fn moves_on_the_empty_playlist_change_nothing() {
    let mut p = Playlist::new();
    assert!(!p.move_up(0));
    assert!(!p.move_down(0));
    assert_eq!(p.len(), 0);
    assert_eq!(p.current(), None);
}

#[test]
fn moves_of_absent_entries_change_nothing() {
    let mut p = three();
    assert!(!p.move_up(3));
    assert!(!p.move_down(3));
    assert!(!p.move_up(usize::MAX));
    assert!(!p.move_down(usize::MAX));
    assert_eq!(paths(&p), vec!["/a.mp4", "/b.mp4", "/c.mp4"]);
}

#[test]
fn move_up_exchanges_neighbours() {
    let mut p = three();
    assert!(p.move_up(2));
    assert_eq!(paths(&p), vec!["/a.mp4", "/c.mp4", "/b.mp4"]);
    assert!(p.move_up(1));
    assert_eq!(paths(&p), vec!["/c.mp4", "/a.mp4", "/b.mp4"]);
}

#[test]
fn move_down_exchanges_neighbours() {
    let mut p = three();
    assert!(p.move_down(0));
    assert_eq!(paths(&p), vec!["/b.mp4", "/a.mp4", "/c.mp4"]);
    assert!(p.move_down(1));
    assert_eq!(paths(&p), vec!["/b.mp4", "/c.mp4", "/a.mp4"]);
}

#[test]
fn the_current_position_follows_its_entry_when_moved() {
    let mut p = three();
    p.select(1);
    p.move_up(1);
    assert_eq!(p.current(), Some(0));
    p.move_down(0);
    assert_eq!(p.current(), Some(1));
    p.move_up(2);
    assert_eq!(paths(&p), vec!["/a.mp4", "/c.mp4", "/b.mp4"]);
    assert_eq!(p.current(), Some(2));
    p.move_down(0);
    assert_eq!(p.current(), Some(2));
}

#[test]
fn remove_hands_the_entry_back() {
    let mut p = three();
    let removed = p.remove(1).unwrap();
    assert_eq!(removed.path(), "/b.mp4");
    assert_eq!(removed.skip(), Skip::Input);
    assert_eq!(paths(&p), vec!["/a.mp4", "/c.mp4"]);
    assert!(p.remove(2).is_none());
    assert_eq!(p.len(), 2);
}

#[test]
fn remove_never_leaves_the_current_position_past_the_end() {
    for current in 0..3 {
        for removed in 0..4 {
            let mut p = three();
            p.select(current);
            p.remove(removed);
            match p.current() {
                Some(c) => assert!(c < p.len(), "current {} removed {}", current, removed),
                None => assert_eq!(current, removed),
            }
        }
    }
}

#[test]
fn remove_keeps_the_current_position_on_its_entry() {
    let mut p = three();
    p.select(2);
    p.remove(0);
    assert_eq!(p.current(), Some(1));
    assert_eq!(p.get(1).unwrap().path(), "/c.mp4");
    p.remove(1);
    assert_eq!(p.current(), None);
    assert_eq!(paths(&p), vec!["/b.mp4"]);

    let mut p = three();
    p.select(0);
    p.remove(2);
    assert_eq!(p.current(), Some(0));
}

#[test]
fn remove_the_last_entry_while_it_is_current() {
    let mut p = three();
    p.select(2);
    p.remove(2);
    assert_eq!(p.current(), None);
    assert_eq!(p.len(), 2);
}

#[test]
fn set_skip_changes_one_policy() {
    let mut p = three();
    assert!(p.set_skip(0, Skip::Time(5)));
    assert_eq!(p.get(0).unwrap().skip(), Skip::Time(5));
    assert_eq!(p.get(0).unwrap().path(), "/a.mp4");
    assert_eq!(p.get(1).unwrap().skip(), Skip::Input);
    assert!(!p.set_skip(3, Skip::Input));
    assert_eq!(paths(&p), vec!["/a.mp4", "/b.mp4", "/c.mp4"]);
}

#[test]
fn play_sends_path_and_policy_text() {
    let p = three();
    assert_eq!(p.play(0), Some(start(0, "/a.mp4", "VideoEnd")));
    assert_eq!(p.play(1), Some(start(1, "/b.mp4", "Input")));
    assert_eq!(p.play(2), Some(start(2, "/c.mp4", "Time(30)")));
    assert_eq!(p.play(3), None);
}

#[test]
fn play_changes_the_current_entry_only_once_selected() {
    let mut p = three();
    let d = p.play(1).unwrap();
    assert_eq!(p.current(), None);
    assert!(p.select(d.index));
    assert_eq!(p.current(), Some(1));
    assert!(!p.select(7));
    assert_eq!(p.current(), Some(1));
}

#[test]
fn next_and_prev_step_by_one() {
    let mut p = three();
    p.select(1);
    assert_eq!(p.next(), Some(start(2, "/c.mp4", "Time(30)")));
    assert_eq!(p.prev(), Some(start(0, "/a.mp4", "VideoEnd")));
}

#[test]
fn next_and_prev_stop_at_the_ends() {
    let mut p = three();
    assert_eq!(p.next(), None);
    assert_eq!(p.prev(), None);
    p.select(0);
    assert_eq!(p.prev(), None);
    p.select(2);
    assert_eq!(p.next(), None);
    assert_eq!(p.current(), Some(2));
}

#[test]
fn video_ended_advances_under_video_end() {
    let mut p = three();
    p.select(0);
    assert_eq!(p.on_event(&ProjectorCommand::VideoEnded), Some(start(1, "/b.mp4", "Input")));
}

#[test]
fn video_ended_waits_under_input_and_time() {
    let mut p = three();
    p.select(1);
    assert_eq!(p.on_event(&ProjectorCommand::VideoEnded), None);
    p.set_skip(1, Skip::Time(3));
    assert_eq!(p.on_event(&ProjectorCommand::VideoEnded), None);
}

#[test]
fn video_ended_at_the_last_entry_sends_nothing() {
    let mut p = three();
    p.set_skip(2, Skip::VideoEnd);
    p.select(2);
    assert_eq!(p.on_event(&ProjectorCommand::VideoEnded), None);
}

#[test]
fn video_ended_without_current_entry_sends_nothing() {
    let p = three();
    assert_eq!(p.on_event(&ProjectorCommand::VideoEnded), None);
}

#[test]
fn a_start_from_the_player_is_not_answered() {
    let mut p = three();
    p.select(0);
    let odd = ProjectorCommand::Start { path: "/x".to_string(), skip: "VideoEnd".to_string() };
    assert_eq!(p.on_event(&odd), None);
}

#[test]
fn deselect_leaves_no_current_entry() {
    let mut p = three();
    p.select(1);
    p.deselect();
    assert_eq!(p.current(), None);
    assert_eq!(p.next(), None);
    assert_eq!(p.prev(), None);
    assert_eq!(paths(&p), vec!["/a.mp4", "/b.mp4", "/c.mp4"]);
}
