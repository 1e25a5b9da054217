use jtalk::remap::char_remap;
use std::collections::HashMap;

fn map_of(pairs: &[(char, char)]) -> HashMap<u32, char> {
    let mut map = HashMap::new();
    for (from, to) in pairs {
        map.insert(*from as u32, *to);
    }
    map
}

#[test]
fn mapped_characters_are_replaced() {
    let map = map_of(&[('a', 'b'), ('戶', '戸')]);
    assert_eq!(char_remap(&"a戶xa".to_string(), map), "b戸xb");
}

#[test]
fn unmapped_characters_stay() {
    assert_eq!(char_remap(&"東京 abc".to_string(), map_of(&[('z', 'y')])), "東京 abc");
    assert_eq!(char_remap(&"東京".to_string(), HashMap::new()), "東京");
}

#[test]
fn replacement_is_not_mapped_again() {
    let map = map_of(&[('a', 'b'), ('b', 'c')]);
    assert_eq!(char_remap(&"ab".to_string(), map), "bc");
}

#[test]
fn empty_text_stays_empty() {
    assert_eq!(char_remap(&String::new(), map_of(&[('a', 'b')])), "");
}
