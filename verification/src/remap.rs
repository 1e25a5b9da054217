use std::collections::HashMap;
use vstd::prelude::*;

verus! {

broadcast use vstd::std_specs::hash::group_hash_axioms;

/// What the map makes of one character: the character that stands under
/// its code point, or the character itself where the map holds nothing for
/// it.
pub open spec fn remapped_char(c: char, char_map: Map<u32, char>) -> char {
    if char_map.contains_key(c as u32) {
        char_map[c as u32]
    } else {
        c
    }
}

/// The text with each character put through the map.
pub open spec fn remapped(text: Seq<char>, char_map: Map<u32, char>) -> Seq<char> {
    text.map_values(|c: char| remapped_char(c, char_map))
}

/// Replaces each character of the text that the map holds a replacement
/// for. The map is keyed by code point. The other characters stay, and so
/// does the order.
pub fn char_remap(text: &String, char_map: HashMap<u32, char>) -> (r: String)
    ensures
        r@ == remapped(text@, char_map@),
{
    let mut out = String::new();
    for c in it: text.as_str().chars()
        invariant
            it.seq() == text@,
            out@ == remapped(text@.take(it.index()), char_map@),
    {
        let key: u32 = c as u32;
        let mapped = match char_map.get(&key) {
            Some(replacement) => *replacement,
            None => c,
        };
        out.push(mapped);
    }
    out
}

} // verus!
