use scroll_anchor::item::{generate_batch, message_with, new_message, word_count, Item};

fn word_total(text: &str) -> usize {
    text.split_whitespace().count()
}

#[test]
fn word_count_is_the_byte_modulo_45_plus_5() {
    assert_eq!(word_count(0), 5);
    assert_eq!(word_count(1), 6);
    assert_eq!(word_count(44), 49);
    assert_eq!(word_count(45), 5);
    assert_eq!(word_count(100), 15);
    assert_eq!(word_count(255), 35);
}

#[test]
fn word_count_stays_between_5_and_49() {
    let mut r: u8 = 0;
    loop {
        let n = word_count(r);
        assert!(5 <= n && n <= 49);
        if r == u8::MAX {
            break;
        }
        r += 1;
    }
}

#[test]
fn message_with_holds_the_id_and_the_filler_text() {
    let item = message_with(42, 1);
    assert_eq!(item.id, 42);
    assert_eq!(item.payload, "Ullus investigandi veri, nisi inveneris, et.");
    assert_eq!(item.payload, lipsum::lipsum_words(6));
}

#[test]
fn message_with_has_as_many_words_as_the_byte_selects() {
    for r in [0u8, 7, 44, 45, 200, 255] {
        let item = message_with(1, r);
        assert_eq!(word_total(&item.payload), word_count(r));
        assert_eq!(item.payload, lipsum::lipsum_words(word_count(r)));
    }
}

#[test]
fn message_text_depends_on_the_word_count_alone() {
    assert_eq!(message_with(1, 3).payload, message_with(2, 3).payload);
    assert_eq!(message_with(1, 3).payload, message_with(1, 48).payload);
    assert_ne!(message_with(1, 3).payload, message_with(1, 4).payload);
}

#[test]
fn new_message_has_a_version_4_id() {
    for _ in 0..32 {
        let item = new_message();
        assert_eq!((item.id >> 76) & 0xf, 4);
        assert_eq!((item.id >> 62) & 0x3, 2);
        let id = uuid::Uuid::from_u128(item.id);
        assert_eq!(id.get_version_num(), 4);
    }
}

#[test]
fn new_message_has_between_5_and_49_words() {
    for _ in 0..32 {
        let item: Item = new_message();
        let words = word_total(&item.payload);
        assert!(5 <= words && words <= 49);
        assert_eq!(item.payload, lipsum::lipsum_words(words));
    }
}

#[test]
fn new_messages_differ_in_their_ids() {
    let a = new_message();
    let b = new_message();
    assert_ne!(a.id, b.id);
}

#[test]
fn generate_batch_makes_as_many_as_asked() {
    assert_eq!(generate_batch(0).len(), 0);
    assert_eq!(generate_batch(5).len(), 5);
    assert_eq!(generate_batch(15).len(), 15);
}
