use simple_presenter::frame::{frame_size, FrameBuffer};

#[test]
fn frame_size_is_three_bytes_a_pixel() {
    assert_eq!(frame_size(1920, 1080), Some(6_220_800));
    assert_eq!(frame_size(1, 1), Some(3));
    assert_eq!(frame_size(0, 1080), Some(0));
    assert_eq!(frame_size(65535, 65535), Some(12_884_508_675));
}

#[test]
fn frame_size_that_no_buffer_holds() {
    assert_eq!(frame_size(u32::MAX, u32::MAX), None);
    assert_eq!(frame_size(u32::MAX, 1_431_655_766), None);
}

#[test]
fn a_new_buffer_is_black_and_clean() {
    let mut b = FrameBuffer::new(6);
    assert_eq!(b.len(), 6);
    assert!(!b.is_dirty());
    let mut surface = vec![9u8; 2];
    assert!(!b.fetch(&mut surface));
    assert_eq!(surface, vec![9, 9]);
}

#[test]
fn a_written_frame_is_fetched_whole_and_once() {
    let mut b = FrameBuffer::new(4);
    assert!(b.write(&[1, 2, 3, 4]));
    assert!(b.is_dirty());
    let mut surface = Vec::new();
    assert!(b.fetch(&mut surface));
    assert_eq!(surface, vec![1, 2, 3, 4]);
    assert!(!b.is_dirty());
    surface[0] = 77;
    assert!(!b.fetch(&mut surface));
    assert_eq!(surface, vec![77, 2, 3, 4]);
}

#[test]
fn the_latest_frame_wins() {
    let mut b = FrameBuffer::new(3);
    assert!(b.write(&[1, 1, 1]));
    assert!(b.write(&[2, 2, 2]));
    assert!(b.write(&[3, 3, 3]));
    let mut surface = Vec::new();
    assert!(b.fetch(&mut surface));
    assert_eq!(surface, vec![3, 3, 3]);
    assert!(!b.fetch(&mut surface));
}

#[test]
fn a_frame_of_another_size_is_turned_away() {
    let mut b = FrameBuffer::new(3);
    assert!(!b.write(&[1, 2]));
    assert!(!b.write(&[1, 2, 3, 4]));
    assert!(!b.write(&[]));
    assert!(!b.is_dirty());
    assert!(b.write(&[5, 6, 7]));
    assert!(!b.write(&[1]));
    let mut surface = Vec::new();
    assert!(b.fetch(&mut surface));
    assert_eq!(surface, vec![5, 6, 7]);
    assert_eq!(b.len(), 3);
}

#[test]
fn the_empty_buffer_takes_the_empty_frame() {
    let mut b = FrameBuffer::new(0);
    assert!(b.write(&[]));
    let mut surface = vec![1u8];
    assert!(b.fetch(&mut surface));
    assert!(surface.is_empty());
}

#[test]
fn interleaved_writes_and_fetches_never_mix_patterns() {
    let size = 64;
    let mut b = FrameBuffer::new(size);
    let mut surface = Vec::new();
    let mut last_written = 0u8;
    for round in 1..=200u32 {
        let pattern = (round % 251) as u8;
        assert!(b.write(&vec![pattern; size]));
        last_written = pattern;
        if round % 3 == 0 {
            assert!(b.fetch(&mut surface));
            assert_eq!(surface.len(), size);
            assert!(surface.iter().all(|&x| x == last_written));
        }
    }
}
