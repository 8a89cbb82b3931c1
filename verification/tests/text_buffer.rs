use image_wizard::text_buffer::{utf8_width, TextBuffer};

fn buffer_with(text: &str) -> TextBuffer {
    let mut buffer = TextBuffer::new();
    for ch in text.chars() {
        buffer.insert_at_cursor(ch);
    }
    buffer
}

#[test]
fn new_buffer_is_empty_with_cursor_at_start() {
    let buffer = TextBuffer::new();
    assert_eq!(buffer.contents(), "");
    assert_eq!(buffer.cursor(), 0);
    assert_eq!(buffer.len(), 0);
}

#[test]
fn insert_places_character_at_cursor_and_advances() {
    let mut buffer = TextBuffer::new();
    buffer.insert_at_cursor('a');
    assert_eq!(buffer.contents(), "a");
    assert_eq!(buffer.cursor(), 1);
    buffer.insert_at_cursor('c');
    buffer.move_left();
    buffer.insert_at_cursor('b');
    assert_eq!(buffer.contents(), "abc");
    assert_eq!(buffer.cursor(), 2);
    assert_eq!(buffer.len(), 3);
}

#[test]
fn insert_counts_characters_not_bytes() {
    let mut buffer = buffer_with("añ");
    assert_eq!(buffer.cursor(), 2);
    assert_eq!(buffer.contents().len(), 3);
    buffer.move_left();
    buffer.insert_at_cursor('日');
    assert_eq!(buffer.contents(), "a日ñ");
    assert_eq!(buffer.cursor(), 2);
    buffer.insert_at_cursor('🦀');
    assert_eq!(buffer.contents(), "a日🦀ñ");
    assert_eq!(buffer.cursor(), 3);
    assert_eq!(buffer.len(), 4);
}

#[test]
fn contents_is_a_snapshot() {
    let mut buffer = buffer_with("one");
    let before = buffer.contents();
    buffer.insert_at_cursor('s');
    assert_eq!(before, "one");
    assert_eq!(buffer.contents(), "ones");
}

#[test]
fn delete_on_empty_buffer_changes_nothing() {
    let mut buffer = TextBuffer::new();
    buffer.delete_before_cursor();
    assert_eq!(buffer.contents(), "");
    assert_eq!(buffer.cursor(), 0);
}

#[test]
fn delete_with_cursor_at_start_changes_nothing() {
    let mut buffer = buffer_with("héllo");
    for _ in 0..5 {
        buffer.move_left();
    }
    assert_eq!(buffer.cursor(), 0);
    buffer.delete_before_cursor();
    assert_eq!(buffer.contents(), "héllo");
    assert_eq!(buffer.cursor(), 0);
}

#[test]
fn delete_removes_the_character_before_the_cursor() {
    let mut buffer = buffer_with("héllo");
    buffer.delete_before_cursor();
    assert_eq!(buffer.contents(), "héll");
    assert_eq!(buffer.cursor(), 4);
    buffer.move_left();
    buffer.move_left();
    buffer.delete_before_cursor();
    assert_eq!(buffer.contents(), "hll");
    assert_eq!(buffer.cursor(), 1);
    buffer.delete_before_cursor();
    assert_eq!(buffer.contents(), "ll");
    assert_eq!(buffer.cursor(), 0);
}

#[test]
fn move_left_stops_at_start() {
    let mut buffer = buffer_with("ab");
    buffer.move_left();
    assert_eq!(buffer.cursor(), 1);
    buffer.move_left();
    assert_eq!(buffer.cursor(), 0);
    buffer.move_left();
    assert_eq!(buffer.cursor(), 0);
    assert_eq!(buffer.contents(), "ab");
}

#[test]
fn move_right_stops_at_end() {
    let mut buffer = buffer_with("ab");
    buffer.move_left();
    buffer.move_left();
    buffer.move_right();
    assert_eq!(buffer.cursor(), 1);
    buffer.move_right();
    assert_eq!(buffer.cursor(), 2);
    buffer.move_right();
    assert_eq!(buffer.cursor(), 2);
    assert_eq!(buffer.contents(), "ab");
}

#[test]
fn moves_on_empty_buffer_keep_cursor_at_start() {
    let mut buffer = TextBuffer::new();
    buffer.move_right();
    assert_eq!(buffer.cursor(), 0);
    buffer.move_left();
    assert_eq!(buffer.cursor(), 0);
}

#[test]
fn right_then_left_after_multibyte_insert_in_the_middle_is_a_round_trip() {
    let mut buffer = buffer_with("ab");
    buffer.move_left();
    buffer.insert_at_cursor('é');
    let text = buffer.contents();
    let cursor = buffer.cursor();
    assert_eq!(text, "aéb");
    assert_eq!(cursor, 2);
    buffer.move_right();
    buffer.move_left();
    assert_eq!(buffer.contents(), text);
    assert_eq!(buffer.cursor(), cursor);
}

#[test]
fn right_then_left_after_insert_at_the_end_steps_before_the_new_character() {
    let mut buffer = TextBuffer::new();
    buffer.insert_at_cursor('é');
    assert_eq!(buffer.cursor(), 1);
    buffer.move_right();
    assert_eq!(buffer.cursor(), 1);
    buffer.move_left();
    assert_eq!(buffer.contents(), "é");
    assert_eq!(buffer.cursor(), 0);
}

#[test]
fn clear_empties_text_and_resets_cursor() {
    let mut buffer = buffer_with("日本語 text");
    buffer.move_left();
    buffer.clear();
    assert_eq!(buffer.contents(), "");
    assert_eq!(buffer.cursor(), 0);
    assert_eq!(buffer.len(), 0);
    buffer.clear();
    assert_eq!(buffer.contents(), "");
    assert_eq!(buffer.cursor(), 0);
}

#[test]
fn cursor_stays_within_text_over_a_long_mixed_run() {
    let mut buffer = TextBuffer::new();
    let mut seed: u32 = 12345;
    for step in 0..2000u32 {
        seed = seed.wrapping_mul(1664525).wrapping_add(1013904223);
        match (seed >> 16) % 6 {
            0 => buffer.insert_at_cursor('x'),
            1 => buffer.insert_at_cursor('ß'),
            2 => buffer.delete_before_cursor(),
            3 => buffer.move_left(),
            4 => buffer.move_right(),
            _ => {
                if step % 97 == 0 {
                    buffer.clear()
                } else {
                    buffer.insert_at_cursor('語')
                }
            }
        }
        assert!(buffer.cursor() <= buffer.len());
        assert_eq!(buffer.contents().chars().count(), buffer.len());
    }
}

#[test]
fn byte_index_counts_the_bytes_before_the_cursor() {
    let mut buffer = buffer_with("añ日🦀");
    assert_eq!(buffer.contents().len(), 10);
    let expected = [10, 6, 3, 1, 0, 0];
    for bytes in expected {
        assert_eq!(buffer.byte_index(), bytes);
        buffer.move_left();
    }
    assert_eq!(TextBuffer::new().byte_index(), 0);
}

#[test]
fn byte_index_is_where_the_cursor_character_starts() {
    let mut buffer = buffer_with("x ß 語 🦀 y");
    loop {
        let text = buffer.contents();
        let cursor = buffer.cursor();
        let expected = text.char_indices().map(|(i, _)| i).nth(cursor).unwrap_or(text.len());
        assert_eq!(buffer.byte_index(), expected);
        assert!(text.is_char_boundary(buffer.byte_index()));
        assert_eq!(text[..buffer.byte_index()].chars().count(), cursor);
        if cursor == 0 {
            break;
        }
        buffer.move_left();
    }
}

#[test]
fn utf8_width_agrees_with_the_standard_library_on_every_character() {
    for code in 0..=0x10FFFFu32 {
        if let Some(ch) = char::from_u32(code) {
            assert_eq!(utf8_width(ch), ch.len_utf8(), "on U+{:04X}", code);
        }
    }
    assert_eq!(utf8_width('a'), 1);
    assert_eq!(utf8_width('ß'), 2);
    assert_eq!(utf8_width('語'), 3);
    assert_eq!(utf8_width('🦀'), 4);
}
