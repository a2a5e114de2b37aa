use tes3conv_core::transcode::{legacy_char, native_char};
use tes3conv_core::{to_legacy, to_native};

const NATIVE: &str = "АБВГДЕЖЗИЙКЛМНОПРСТУФХЦЧШЩЪЫЬЭЮЯабвгдежзийклмнопрстуфхцчшщъыьэюяёЁ";
const LEGACY: &str = "ÀÁÂÃÄÅÆÇÈÉÊËÌÍÎÏÐÑÒÓÔÕÖ×ØÙÚÛÜÝÞßàáâãäåæçèéêëìíîïðñòóôõö÷øùúûüýþÿ¸¨";

#[test]
fn table_pairs_and_round_trip() {
    let n: Vec<char> = NATIVE.chars().collect();
    let l: Vec<char> = LEGACY.chars().collect();
    assert_eq!(n.len(), 66);
    assert_eq!(l.len(), 66);
    for i in 0..n.len() {
        assert_eq!(legacy_char(n[i]), l[i]);
        assert_eq!(native_char(l[i]), n[i]);
        assert_eq!(native_char(legacy_char(n[i])), n[i]);
        assert_eq!(legacy_char(native_char(l[i])), l[i]);
    }
}

#[test]
fn table_is_injective() {
    let l: Vec<char> = LEGACY.chars().collect();
    for i in 0..l.len() {
        for j in 0..l.len() {
            if i != j {
                assert_ne!(l[i], l[j]);
            }
        }
    }
}

#[test]
fn whole_alphabet_both_ways() {
    assert_eq!(to_legacy(NATIVE), LEGACY);
    assert_eq!(to_native(LEGACY), NATIVE);
}

#[test]
fn unmapped_characters_are_kept() {
    for c in ['a', 'Z', '0', ' ', '"', '{', '\n', 'Ω', 'ѣ', '€', '😀'] {
        assert_eq!(legacy_char(c), c);
        assert_eq!(native_char(c), c);
    }
    assert_eq!(to_legacy("{\"id\": 42}"), "{\"id\": 42}");
    assert_eq!(to_native("{\"id\": 42}"), "{\"id\": 42}");
}

#[test]
fn length_in_chars_is_kept() {
    for s in ["", "abc", "Привет, мир!", "Ïðèâåò", "mixed Ёё ¸¨ text 😀"] {
        assert_eq!(to_legacy(s).chars().count(), s.chars().count());
        assert_eq!(to_native(s).chars().count(), s.chars().count());
    }
}

#[test]
fn empty_text() {
    assert_eq!(to_legacy(""), "");
    assert_eq!(to_native(""), "");
}

#[test]
fn legacy_twice_is_not_identity() {
    let s = "Привет";
    assert_ne!(to_legacy(&to_legacy(s)), s);
    assert_eq!(to_legacy(&to_legacy(s)), to_legacy(s));
    let fixed = "plain ascii";
    assert_eq!(to_legacy(&to_legacy(fixed)), fixed);
}

#[test]
fn scenario_text_is_rewritten_to_legacy() {
    let json = "{\"name\": \"Привет\"}";
    let out = to_legacy(json);
    assert!(out.contains("Ïðèâåò"));
    assert!(!out.contains("Привет"));
    assert_eq!(out, "{\"name\": \"Ïðèâåò\"}");
}

#[test]
fn scenario_legacy_text_is_rewritten_to_native() {
    let out = to_native("{\"name\": \"Ïðèâåò\"}");
    assert!(out.contains("Привет"));
    assert_eq!(out, "{\"name\": \"Привет\"}");
}

#[test]
fn text_round_trips() {
    let s = "Съешь же ещё этих мягких французских булок, да выпей чаю. ЁЖ";
    assert_eq!(to_native(&to_legacy(s)), s);
    let y = "Ñúåøü æå åù¸ ýòèõ. ¨Æ";
    assert_eq!(to_legacy(&to_native(y)), y);
}
