use skia_renderer::{
    byte_offset_for_utf16_offset, text_input_byte_offset_for_position,
    utf16_offset_for_byte_offset,
};

#[test]
fn ascii_offsets_are_equal() {
    assert_eq!(byte_offset_for_utf16_offset("hello", 3), 3);
    assert_eq!(utf16_offset_for_byte_offset("hello", 3), 3);
}

#[test]
fn non_positive_utf16_offset_maps_to_zero() {
    assert_eq!(byte_offset_for_utf16_offset("hello", 0), 0);
    assert_eq!(byte_offset_for_utf16_offset("hello", -4), 0);
}

#[test]
fn utf16_offset_past_the_end_maps_to_byte_length() {
    assert_eq!(byte_offset_for_utf16_offset("hello", 99), 5);
    assert_eq!(byte_offset_for_utf16_offset("", 1), 0);
    assert_eq!(byte_offset_for_utf16_offset("é", 1), 2);
}

#[test]
fn multibyte_characters_map_by_width() {
    // 'a' 1 byte / 1 unit, 'é' 2 bytes / 1 unit, '€' 3 bytes / 1 unit, '😀' 4 bytes / 2 units
    let text = "aé€😀b";
    assert_eq!(byte_offset_for_utf16_offset(text, 1), 1);
    assert_eq!(byte_offset_for_utf16_offset(text, 2), 3);
    assert_eq!(byte_offset_for_utf16_offset(text, 3), 6);
    assert_eq!(byte_offset_for_utf16_offset(text, 5), 10);
    assert_eq!(byte_offset_for_utf16_offset(text, 6), 11);
    assert_eq!(utf16_offset_for_byte_offset(text, 1), 1);
    assert_eq!(utf16_offset_for_byte_offset(text, 3), 2);
    assert_eq!(utf16_offset_for_byte_offset(text, 6), 3);
    assert_eq!(utf16_offset_for_byte_offset(text, 10), 5);
    assert_eq!(utf16_offset_for_byte_offset(text, 11), 6);
}

#[test]
fn offset_inside_a_surrogate_pair_moves_to_next_character() {
    // the emoji spans code units 0 and 1; unit 1 falls inside it
    assert_eq!(byte_offset_for_utf16_offset("😀x", 1), 4);
}

#[test]
fn byte_offset_inside_a_character_counts_that_character() {
    assert_eq!(utf16_offset_for_byte_offset("😀x", 2), 2);
    assert_eq!(utf16_offset_for_byte_offset("😀x", 0), 0);
}

#[test]
fn ascii_round_trip_returns_original_offset() {
    let text = "The quick brown fox";
    for b in 0..=text.len() {
        let u = utf16_offset_for_byte_offset(text, b);
        assert_eq!(byte_offset_for_utf16_offset(text, u as i32), b);
    }
}

#[test]
fn box_without_area_gives_offset_zero() {
    assert_eq!(text_input_byte_offset_for_position("hello", None), 0);
    assert_eq!(text_input_byte_offset_for_position("hello", Some(4)), 4);
    assert_eq!(text_input_byte_offset_for_position("héllo", Some(2)), 3);
}
