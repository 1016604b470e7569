use plastic::save_states::{parse_u8, present_save_states, save_state_slot_of, slot_from_digits};

#[test]
fn parse_u8_as_std_does() {
    for text in ["0", "7", "007", "255", "+7", "", "+", "256", "1a", "-1", " 1", "12345"] {
        assert_eq!(parse_u8(text), text.parse::<u8>().ok(), "{}", text);
    }
    assert_eq!(parse_u8("42"), Some(42));
    assert_eq!(parse_u8("256"), None);
}

#[test]
fn save_state_slots_from_file_names() {
    assert_eq!(save_state_slot_of("game", "game_3.pst"), Some(3));
    assert_eq!(save_state_slot_of("game", "game_12.pst"), Some(12));
    // no digits, or too many for a byte
    assert_eq!(save_state_slot_of("game", "game_.pst"), None);
    assert_eq!(save_state_slot_of("game", "game_300.pst"), None);
    assert_eq!(save_state_slot_of("game", "other_3.pst"), None);
    // the stem is taken literally, the dot before `pst` is any character
    assert_eq!(save_state_slot_of("ga.me", "gaxme_1.pst"), None);
    assert_eq!(save_state_slot_of("ga.me", "ga.me_1.pst"), Some(1));
    assert_eq!(save_state_slot_of("game", "game_1xpst"), Some(1));
    assert_eq!(slot_from_digits(Some("9".to_string())), Some(9));
    assert_eq!(slot_from_digits(None), None);
}

#[test]
fn present_save_states_in_order() {
    let names = vec![
        "game_1.pst".to_string(),
        "readme.txt".to_string(),
        "game_9.pst".to_string(),
        "other_2.pst".to_string(),
    ];
    assert_eq!(present_save_states("game", &names), vec![1, 9]);
    assert_eq!(present_save_states("game", &Vec::new()), Vec::<u8>::new());
}
