use mover_controller::line::{LineBuffer, LINE_CAPACITY};

fn feed_all(buffer: &mut LineBuffer, bytes: &[u8]) -> Vec<Vec<u8>> {
    let mut lines = Vec::new();
    for &b in bytes {
        if let Some(line) = buffer.push(b) {
            lines.push(line);
        }
    }
    lines
}

#[test]
fn line_ends_at_line_feed() {
    let mut buffer = LineBuffer::new();
    let lines = feed_all(&mut buffer, b"ta 5\n");
    assert_eq!(lines, vec![b"ta 5".to_vec()]);
    assert!(buffer.pending().is_empty());
}

#[test]
fn line_ends_at_carriage_return_and_crlf_gives_one_line() {
    let mut buffer = LineBuffer::new();
    let lines = feed_all(&mut buffer, b"kp=2\r\nki 3\r\n");
    assert_eq!(lines, vec![b"kp=2".to_vec(), b"ki 3".to_vec()]);
}

#[test]
fn blank_lines_give_nothing() {
    let mut buffer = LineBuffer::new();
    assert!(feed_all(&mut buffer, b"\r\n\n\r").is_empty());
    assert!(buffer.pending().is_empty());
}

#[test]
fn pending_bytes_wait_for_line_end() {
    let mut buffer = LineBuffer::new();
    assert!(feed_all(&mut buffer, b"tb 1").is_empty());
    assert_eq!(buffer.pending(), b"tb 1");
    let lines = feed_all(&mut buffer, b".5\n");
    assert_eq!(lines, vec![b"tb 1.5".to_vec()]);
}

#[test]
fn overlong_line_is_cut_to_capacity() {
    let mut buffer = LineBuffer::new();
    let long: Vec<u8> = (0..40u8).map(|i| b'a' + (i % 26)).collect();
    let mut input = long.clone();
    input.push(b'\n');
    let lines = feed_all(&mut buffer, &input);
    assert_eq!(LINE_CAPACITY, 32);
    assert_eq!(lines, vec![long[..32].to_vec()]);
}

#[test]
fn exactly_full_line_is_kept_whole() {
    let mut buffer = LineBuffer::new();
    let full = vec![b'x'; 32];
    let mut input = full.clone();
    input.push(b'\r');
    assert_eq!(feed_all(&mut buffer, &input), vec![full]);
}

#[test]
fn push_reports_only_the_ending_byte() {
    let mut buffer = LineBuffer::new();
    assert_eq!(buffer.push(b'?'), None);
    assert_eq!(buffer.push(b'\n'), Some(b"?".to_vec()));
    assert_eq!(buffer.push(b'\n'), None);
}

#[test]
fn feed_returns_lines_in_order() {
    let mut buffer = LineBuffer::new();
    let lines = buffer.feed(b"ta 1\ntb 2\rrest");
    assert_eq!(lines, vec![b"ta 1".to_vec(), b"tb 2".to_vec()]);
    assert_eq!(buffer.pending(), b"rest");
}

#[test]
fn feed_in_chunks_matches_feed_at_once() {
    let input: &[u8] = b"kp 1\r\n?\nthis line is far longer than thirty two bytes\nkd=0.5\n";
    let mut whole = LineBuffer::new();
    let all = whole.feed(input);
    for split in 0..=input.len() {
        let mut parts = LineBuffer::new();
        let mut lines = parts.feed(&input[..split]);
        lines.extend(parts.feed(&input[split..]));
        assert_eq!(lines, all);
        assert_eq!(parts.pending(), whole.pending());
    }
    assert_eq!(all.len(), 4);
    assert_eq!(all[2], b"this line is far longer than thi".to_vec());
}
