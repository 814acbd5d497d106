use rustender::prelude::ascii_from_level;
use rustender::prelude::AsciiBuffer;
use rustender::prelude::BufferError;
use rustender::prelude::ASCII_BRIGHTNESS;

fn frame(width: u32, text: &str) -> AsciiBuffer {
    AsciiBuffer::new(width, text.chars().collect())
}

#[test]
fn buffer_new_keeps_glyphs_and_width() {
    let buffer = frame(3, "abcdef");
    assert_eq!(buffer.buffer, vec!['a', 'b', 'c', 'd', 'e', 'f']);
    assert_eq!(buffer.chunk_width, 3);
    assert_eq!(buffer.len(), 6);
    assert!(!buffer.is_empty());
}

#[test]
fn buffer_empty() {
    let buffer = frame(3, "");
    assert!(buffer.is_empty());
    assert_eq!(buffer.len(), 0);
}

#[test]
fn buffer_set_replaces_glyphs() {
    let mut buffer = frame(2, "abcd");
    buffer.set(vec!['x', 'y']);
    assert_eq!(buffer.buffer, vec!['x', 'y']);
    assert_eq!(buffer.chunk_width, 2);
}

#[test]
fn buffer_update_then_read_returns_glyph() {
    let mut buffer = frame(3, "abcdef");
    assert_eq!(buffer.update_at(1, 1, 'z'), Ok(()));
    assert_eq!(buffer.read(1, 1), Ok('z'));
    assert_eq!(buffer.buffer, vec!['a', 'b', 'c', 'd', 'z', 'f']);
}

#[test]
fn buffer_update_every_cell() {
    let mut buffer = frame(4, "............");
    for j in 0..3 {
        for i in 0..4 {
            assert_eq!(buffer.update_at(i, j, '#'), Ok(()));
            assert_eq!(buffer.read(i, j), Ok('#'));
        }
    }
    assert!(buffer.buffer.iter().all(|c| *c == '#'));
}

#[test]
fn buffer_read_maps_column_and_row() {
    let buffer = frame(3, "abcdef");
    assert_eq!(buffer.read(0, 0), Ok('a'));
    assert_eq!(buffer.read(2, 0), Ok('c'));
    assert_eq!(buffer.read(0, 1), Ok('d'));
    assert_eq!(buffer.read(2, 1), Ok('f'));
}

#[test]
fn buffer_update_out_of_range_fails() {
    let mut buffer = frame(3, "abcdef");
    assert_eq!(buffer.update_at(0, 2, 'z'), Err(BufferError::IndexOutOfRange));
    assert_eq!(buffer.update_at(6, 0, 'z'), Err(BufferError::IndexOutOfRange));
    assert_eq!(buffer.buffer, vec!['a', 'b', 'c', 'd', 'e', 'f']);
}

#[test]
fn buffer_read_out_of_range_fails() {
    let buffer = frame(3, "abcdef");
    assert_eq!(buffer.read(0, 2), Err(BufferError::IndexOutOfRange));
    assert_eq!(buffer.read(3, 1), Err(BufferError::IndexOutOfRange));
}

#[test]
fn buffer_access_with_huge_indices_fails() {
    let mut buffer = frame(3, "abcdef");
    assert_eq!(buffer.read(usize::MAX, 0), Err(BufferError::IndexOutOfRange));
    assert_eq!(buffer.read(0, usize::MAX), Err(BufferError::IndexOutOfRange));
    assert_eq!(buffer.read(usize::MAX, usize::MAX), Err(BufferError::IndexOutOfRange));
    assert_eq!(buffer.update_at(1, usize::MAX / 2, 'z'), Err(BufferError::IndexOutOfRange));
}

#[test]
fn buffer_column_past_row_end_wraps_into_next_row() {
    let buffer = frame(3, "abcdef");
    assert_eq!(buffer.read(4, 0), Ok('e'));
}

#[test]
fn buffer_of_width_zero() {
    let mut buffer = frame(0, "ab");
    assert_eq!(buffer.read(1, 5), Ok('b'));
    assert_eq!(buffer.update_at(2, 0, 'z'), Err(BufferError::IndexOutOfRange));
}

#[test]
fn buffer_index_reads_cell() {
    let buffer = frame(3, "abcdef");
    assert_eq!(buffer[(0, 0)], 'a');
    assert_eq!(buffer[(1, 1)], 'e');
}

#[test]
fn buffer_chunk_length_and_contents() {
    let buffer = frame(3, "abcdefghi");
    let part = buffer.chunk(3, 9);
    assert_eq!(part.len(), 9 - 3);
    assert_eq!(part.buffer, vec!['d', 'e', 'f', 'g', 'h', 'i']);
    assert_eq!(part.chunk_width, 3);
    assert_eq!(buffer.chunk(2, 4).buffer, vec!['c', 'd']);
}

#[test]
fn buffer_chunk_empty_and_whole() {
    let buffer = frame(3, "abcdef");
    assert!(buffer.chunk(4, 4).is_empty());
    assert_eq!(buffer.chunk(0, 6), buffer);
}

#[test]
fn buffer_location_of_flat_position() {
    let buffer = frame(3, "abcdefghi");
    assert_eq!(buffer.location(0), (0, 0));
    assert_eq!(buffer.location(2), (2, 0));
    assert_eq!(buffer.location(3), (0, 1));
    assert_eq!(buffer.location(7), (1, 2));
    for index in 0..9 {
        let (i, j) = buffer.location(index);
        assert_eq!(buffer.read(i, j), Ok(buffer.buffer[index]));
    }
}

#[test]
fn brightness_ramp_runs_from_sparse_to_dense() {
    assert_eq!(ASCII_BRIGHTNESS, [' ', '.', ':', '-', '=', '+', '*', '#', '%', '@']);
    assert_eq!(ascii_from_level(0), ' ');
    assert_eq!(ascii_from_level(9), '@');
    for level in 0..10 {
        assert_eq!(ascii_from_level(level), ASCII_BRIGHTNESS[level]);
    }
}
