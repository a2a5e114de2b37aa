//! Character-by-character rewriting between Cyrillic text and the legacy
//! single-byte "1C" encoding, whose code points stand in the Latin-1 range.
use vstd::prelude::*;

verus! {

/// The forward table: each of the 66 Cyrillic letters (А-Я, а-я, Ё, ё) to its
/// legacy code point; every other character is left as it is.
pub open spec fn legacy_of(c: char) -> char {
    match c {
        'А' => 'À',
        'Б' => 'Á',
        'В' => 'Â',
        'Г' => 'Ã',
        'Д' => 'Ä',
        'Е' => 'Å',
        'Ж' => 'Æ',
        'З' => 'Ç',
        'И' => 'È',
        'Й' => 'É',
        'К' => 'Ê',
        'Л' => 'Ë',
        'М' => 'Ì',
        'Н' => 'Í',
        'О' => 'Î',
        'П' => 'Ï',
        'Р' => 'Ð',
        'С' => 'Ñ',
        'Т' => 'Ò',
        'У' => 'Ó',
        'Ф' => 'Ô',
        'Х' => 'Õ',
        'Ц' => 'Ö',
        'Ч' => '×',
        'Ш' => 'Ø',
        'Щ' => 'Ù',
        'Ъ' => 'Ú',
        'Ы' => 'Û',
        'Ь' => 'Ü',
        'Э' => 'Ý',
        'Ю' => 'Þ',
        'Я' => 'ß',
        'а' => 'à',
        'б' => 'á',
        'в' => 'â',
        'г' => 'ã',
        'д' => 'ä',
        'е' => 'å',
        'ж' => 'æ',
        'з' => 'ç',
        'и' => 'è',
        'й' => 'é',
        'к' => 'ê',
        'л' => 'ë',
        'м' => 'ì',
        'н' => 'í',
        'о' => 'î',
        'п' => 'ï',
        'р' => 'ð',
        'с' => 'ñ',
        'т' => 'ò',
        'у' => 'ó',
        'ф' => 'ô',
        'х' => 'õ',
        'ц' => 'ö',
        'ч' => '÷',
        'ш' => 'ø',
        'щ' => 'ù',
        'ъ' => 'ú',
        'ы' => 'û',
        'ь' => 'ü',
        'э' => 'ý',
        'ю' => 'þ',
        'я' => 'ÿ',
        'ё' => '¸',
        'Ё' => '¨',
        _ => c,
    }
}

/// The inverse table: each legacy code point (À-ÿ, ¨, ¸) back to its Cyrillic
/// letter; every other character is left as it is.
pub open spec fn native_of(m: char) -> char {
    match m {
        'À' => 'А',
        'Á' => 'Б',
        'Â' => 'В',
        'Ã' => 'Г',
        'Ä' => 'Д',
        'Å' => 'Е',
        'Æ' => 'Ж',
        'Ç' => 'З',
        'È' => 'И',
        'É' => 'Й',
        'Ê' => 'К',
        'Ë' => 'Л',
        'Ì' => 'М',
        'Í' => 'Н',
        'Î' => 'О',
        'Ï' => 'П',
        'Ð' => 'Р',
        'Ñ' => 'С',
        'Ò' => 'Т',
        'Ó' => 'У',
        'Ô' => 'Ф',
        'Õ' => 'Х',
        'Ö' => 'Ц',
        '×' => 'Ч',
        'Ø' => 'Ш',
        'Ù' => 'Щ',
        'Ú' => 'Ъ',
        'Û' => 'Ы',
        'Ü' => 'Ь',
        'Ý' => 'Э',
        'Þ' => 'Ю',
        'ß' => 'Я',
        'à' => 'а',
        'á' => 'б',
        'â' => 'в',
        'ã' => 'г',
        'ä' => 'д',
        'å' => 'е',
        'æ' => 'ж',
        'ç' => 'з',
        'è' => 'и',
        'é' => 'й',
        'ê' => 'к',
        'ë' => 'л',
        'ì' => 'м',
        'í' => 'н',
        'î' => 'о',
        'ï' => 'п',
        'ð' => 'р',
        'ñ' => 'с',
        'ò' => 'т',
        'ó' => 'у',
        'ô' => 'ф',
        'õ' => 'х',
        'ö' => 'ц',
        '÷' => 'ч',
        'ø' => 'ш',
        'ù' => 'щ',
        'ú' => 'ъ',
        'û' => 'ы',
        'ü' => 'ь',
        'ý' => 'э',
        'þ' => 'ю',
        'ÿ' => 'я',
        '¸' => 'ё',
        '¨' => 'Ё',
        _ => m,
    }
}

/// `c` is one of the Cyrillic letters that the forward table rewrites.
pub open spec fn is_native_letter(c: char) -> bool {
    legacy_of(c) != c
}

/// `m` is one of the legacy code points that the inverse table rewrites.
pub open spec fn is_legacy_letter(m: char) -> bool {
    native_of(m) != m
}

/// Whole-text forward rewrite: each character through the forward table.
pub open spec fn legacy_text(s: Seq<char>) -> Seq<char> {
    s.map_values(|c: char| legacy_of(c))
}

/// Whole-text inverse rewrite: each character through the inverse table.
pub open spec fn native_text(s: Seq<char>) -> Seq<char> {
    s.map_values(|m: char| native_of(m))
}

/// One character through the forward table.
pub fn legacy_char(c: char) -> (r: char)
    ensures
        r == legacy_of(c),
{
    match c {
        'А' => 'À',
        'Б' => 'Á',
        'В' => 'Â',
        'Г' => 'Ã',
        'Д' => 'Ä',
        'Е' => 'Å',
        'Ж' => 'Æ',
        'З' => 'Ç',
        'И' => 'È',
        'Й' => 'É',
        'К' => 'Ê',
        'Л' => 'Ë',
        'М' => 'Ì',
        'Н' => 'Í',
        'О' => 'Î',
        'П' => 'Ï',
        'Р' => 'Ð',
        'С' => 'Ñ',
        'Т' => 'Ò',
        'У' => 'Ó',
        'Ф' => 'Ô',
        'Х' => 'Õ',
        'Ц' => 'Ö',
        'Ч' => '×',
        'Ш' => 'Ø',
        'Щ' => 'Ù',
        'Ъ' => 'Ú',
        'Ы' => 'Û',
        'Ь' => 'Ü',
        'Э' => 'Ý',
        'Ю' => 'Þ',
        'Я' => 'ß',
        'а' => 'à',
        'б' => 'á',
        'в' => 'â',
        'г' => 'ã',
        'д' => 'ä',
        'е' => 'å',
        'ж' => 'æ',
        'з' => 'ç',
        'и' => 'è',
        'й' => 'é',
        'к' => 'ê',
        'л' => 'ë',
        'м' => 'ì',
        'н' => 'í',
        'о' => 'î',
        'п' => 'ï',
        'р' => 'ð',
        'с' => 'ñ',
        'т' => 'ò',
        'у' => 'ó',
        'ф' => 'ô',
        'х' => 'õ',
        'ц' => 'ö',
        'ч' => '÷',
        'ш' => 'ø',
        'щ' => 'ù',
        'ъ' => 'ú',
        'ы' => 'û',
        'ь' => 'ü',
        'э' => 'ý',
        'ю' => 'þ',
        'я' => 'ÿ',
        'ё' => '¸',
        'Ё' => '¨',
        _ => c,
    }
}

/// One character through the inverse table.
pub fn native_char(m: char) -> (r: char)
    ensures
        r == native_of(m),
{
    match m {
        'À' => 'А',
        'Á' => 'Б',
        'Â' => 'В',
        'Ã' => 'Г',
        'Ä' => 'Д',
        'Å' => 'Е',
        'Æ' => 'Ж',
        'Ç' => 'З',
        'È' => 'И',
        'É' => 'Й',
        'Ê' => 'К',
        'Ë' => 'Л',
        'Ì' => 'М',
        'Í' => 'Н',
        'Î' => 'О',
        'Ï' => 'П',
        'Ð' => 'Р',
        'Ñ' => 'С',
        'Ò' => 'Т',
        'Ó' => 'У',
        'Ô' => 'Ф',
        'Õ' => 'Х',
        'Ö' => 'Ц',
        '×' => 'Ч',
        'Ø' => 'Ш',
        'Ù' => 'Щ',
        'Ú' => 'Ъ',
        'Û' => 'Ы',
        'Ü' => 'Ь',
        'Ý' => 'Э',
        'Þ' => 'Ю',
        'ß' => 'Я',
        'à' => 'а',
        'á' => 'б',
        'â' => 'в',
        'ã' => 'г',
        'ä' => 'д',
        'å' => 'е',
        'æ' => 'ж',
        'ç' => 'з',
        'è' => 'и',
        'é' => 'й',
        'ê' => 'к',
        'ë' => 'л',
        'ì' => 'м',
        'í' => 'н',
        'î' => 'о',
        'ï' => 'п',
        'ð' => 'р',
        'ñ' => 'с',
        'ò' => 'т',
        'ó' => 'у',
        'ô' => 'ф',
        'õ' => 'х',
        'ö' => 'ц',
        '÷' => 'ч',
        'ø' => 'ш',
        'ù' => 'щ',
        'ú' => 'ъ',
        'û' => 'ы',
        'ü' => 'ь',
        'ý' => 'э',
        'þ' => 'ю',
        'ÿ' => 'я',
        '¸' => 'ё',
        '¨' => 'Ё',
        _ => m,
    }
}


/// Relies on `String::push`: appends the one character at the end.
#[verifier::external_body]
pub(crate) fn push_char(s: &mut String, c: char)
    ensures
        final(s)@ == old(s)@.push(c),
{
    s.push(c);
}

/// Rewrites every Cyrillic letter of `text` into its legacy code point and
/// keeps every other character; the length in characters is kept.
pub fn to_legacy(text: &str) -> (r: String)
    ensures
        r@ == legacy_text(text@),
        r@.len() == text@.len(),
{
    let mut r = String::new();
    let mut chars = text.chars();
    proof {
        broadcast use vstd::string::axiom_spec_iter;
    }
    for c in it: chars
        invariant
            it.seq() == text@,
            r@ == legacy_text(text@.take(it.index() as int)),
    {
        push_char(&mut r, legacy_char(c));
        assert(legacy_text(text@.take(it.index() as int + 1)) =~= legacy_text(
            text@.take(it.index() as int),
        ).push(legacy_of(c)));
    }
    assert(text@.take(text@.len() as int) =~= text@);
    r
}

/// Rewrites every legacy code point of `text` back into its Cyrillic letter
/// and keeps every other character; the length in characters is kept.
pub fn to_native(text: &str) -> (r: String)
    ensures
        r@ == native_text(text@),
        r@.len() == text@.len(),
{
    let mut r = String::new();
    let mut chars = text.chars();
    proof {
        broadcast use vstd::string::axiom_spec_iter;
    }
    for m in it: chars
        invariant
            it.seq() == text@,
            r@ == native_text(text@.take(it.index() as int)),
    {
        push_char(&mut r, native_char(m));
        assert(native_text(text@.take(it.index() as int + 1)) =~= native_text(
            text@.take(it.index() as int),
        ).push(native_of(m)));
    }
    assert(text@.take(text@.len() as int) =~= text@);
    r
}

/// The two tables are inverse bijections: a Cyrillic letter comes back from
/// its legacy code point, a legacy code point comes back from its letter, and
/// the forward table sends its domain onto the inverse table's domain.
pub proof fn lemma_letter_round_trip(c: char, m: char)
    ensures
        is_native_letter(c) ==> is_legacy_letter(legacy_of(c)) && native_of(legacy_of(c)) == c,
        is_legacy_letter(m) ==> is_native_letter(native_of(m)) && legacy_of(native_of(m)) == m,
{
}

/// A character outside both tables' domains is a fixed point of both.
pub proof fn lemma_unmapped_fixed(x: char)
    requires
        !is_native_letter(x),
        !is_legacy_letter(x),
    ensures
        legacy_of(x) == x,
        native_of(x) == x,
{
}

/// Both whole-text rewrites keep the length in characters.
pub proof fn lemma_length_kept(s: Seq<char>)
    ensures
        legacy_text(s).len() == s.len(),
        native_text(s).len() == s.len(),
{
}

/// Text that holds no legacy code point comes back unchanged from the forward
/// rewrite followed by the inverse one; text that holds no Cyrillic letter of
/// the table comes back unchanged from the inverse rewrite followed by the
/// forward one.
pub proof fn lemma_text_round_trip(x: Seq<char>, y: Seq<char>)
    ensures
        (forall|i: int| 0 <= i < x.len() ==> !is_legacy_letter(#[trigger] x[i])) ==> native_text(
            legacy_text(x),
        ) == x,
        (forall|i: int| 0 <= i < y.len() ==> !is_native_letter(#[trigger] y[i])) ==> legacy_text(
            native_text(y),
        ) == y,
{
    assert forall|c: char| !is_legacy_letter(c) implies native_of(legacy_of(c)) == c by {
        lemma_letter_round_trip(c, c);
    }
    assert forall|m: char| !is_native_letter(m) implies legacy_of(native_of(m)) == m by {
        lemma_letter_round_trip(m, m);
    }
    if forall|i: int| 0 <= i < x.len() ==> !is_legacy_letter(#[trigger] x[i]) {
        assert(native_text(legacy_text(x)) =~= x);
    }
    if forall|i: int| 0 <= i < y.len() ==> !is_native_letter(#[trigger] y[i]) {
        assert(legacy_text(native_text(y)) =~= y);
    }
}

/// The forward rewrite applied twice gives what it gives once, so applied
/// twice it gives back the text it was handed exactly when that text holds no
/// Cyrillic letter of the table.
pub proof fn lemma_legacy_twice(s: Seq<char>)
    ensures
        legacy_text(legacy_text(s)) == legacy_text(s),
        legacy_text(legacy_text(s)) == s <==> (forall|i: int|
            0 <= i < s.len() ==> !is_native_letter(#[trigger] s[i])),
{
    assert(legacy_text(legacy_text(s)) =~= legacy_text(s));
    if forall|i: int| 0 <= i < s.len() ==> !is_native_letter(#[trigger] s[i]) {
        assert(legacy_text(s) =~= s);
    }
    if legacy_text(legacy_text(s)) == s {
        assert forall|i: int| 0 <= i < s.len() implies !is_native_letter(#[trigger] s[i]) by {
            assert(legacy_text(legacy_text(s))[i] == s[i]);
        }
    }
}

} // verus!
