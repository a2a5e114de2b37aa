//! Where a conversion writes: the input path with its extension replaced.
use vstd::prelude::*;
use crate::request::Direction;
use crate::transcode::push_char;

verus! {

/// A path separator, of either convention.
pub open spec fn is_sep(c: char) -> bool {
    c == '/' || c == '\\'
}

/// The extension that output in a direction always gets.
pub open spec fn extension_of(d: Direction) -> Seq<char> {
    match d {
        Direction::ToText => seq!['j', 's', 'o', 'n'],
        Direction::ToBinary => seq!['e', 's', 'p'],
    }
}

/// The position of the dot that opens the extension of the path's last
/// component: the last dot of that component that is not its first character.
pub open spec fn ext_dot(s: Seq<char>) -> Option<int>
    decreases s.len(),
{
    if s.len() <= 1 || is_sep(s.last()) {
        None
    } else if s.last() == '.' && !is_sep(s[s.len() - 2]) {
        Some(s.len() - 1)
    } else {
        ext_dot(s.drop_last())
    }
}

/// The dot that opens an extension lies inside the path, past its first
/// character, and after it no separator follows.
pub proof fn lemma_ext_dot_bounds(s: Seq<char>)
    ensures
        ext_dot(s) matches Some(k) ==> 1 <= k < s.len() && s[k] == '.' && forall|j: int|
            k < j < s.len() ==> !is_sep(#[trigger] s[j]),
    decreases s.len(),
{
    if s.len() > 1 && !is_sep(s.last()) && !(s.last() == '.' && !is_sep(s[s.len() - 2])) {
        let t = s.drop_last();
        lemma_ext_dot_bounds(t);
        if let Some(k) = ext_dot(s) {
            assert forall|j: int| k < j < s.len() implies !is_sep(#[trigger] s[j]) by {
                if j < t.len() {
                    assert(t[j] == s[j]);
                }
            }
        }
    }
}

/// The path's last component is empty.
pub open spec fn has_empty_name(s: Seq<char>) -> bool {
    s.len() == 0 || is_sep(s.last())
}

/// `s` with the extension of its last component replaced by `ext`, or `ext`
/// added where it has none; a path with an empty last component is kept.
pub open spec fn with_extension(s: Seq<char>, ext: Seq<char>) -> Seq<char> {
    match ext_dot(s) {
        Some(k) => s.take(k + 1) + ext,
        None => if has_empty_name(s) {
            s
        } else {
            s.push('.') + ext
        },
    }
}

/// The characters of `s`, one by one.
pub fn chars_of(s: &str) -> (v: Vec<char>)
    ensures
        v@ == s@,
{
    let mut v: Vec<char> = Vec::new();
    let mut chars = s.chars();
    proof {
        broadcast use vstd::string::axiom_spec_iter;
    }
    for c in it: chars
        invariant
            it.seq() == s@,
            v@ == s@.take(it.index() as int),
    {
        v.push(c);
        assert(s@.take(it.index() as int + 1) =~= s@.take(it.index() as int).push(c));
    }
    assert(s@.take(s@.len() as int) =~= s@);
    v
}

fn is_sep_char(c: char) -> (r: bool)
    ensures
        r == is_sep(c),
{
    c == '/' || c == '\\'
}

/// Finds the dot that opens the extension of the last component, if any.
fn find_ext_dot(v: &Vec<char>) -> (r: Option<usize>)
    ensures
        match ext_dot(v@) {
            Some(k) => r == Some(k as usize),
            None => r is None,
        },
{
    let mut i: usize = v.len();
    assert(v@.take(i as int) =~= v@);
    while i > 1
        invariant
            i <= v.len(),
            ext_dot(v@) == ext_dot(v@.take(i as int)),
        decreases i,
    {
        assert(v@.take(i as int).drop_last() =~= v@.take(i - 1));
        if is_sep_char(v[i - 1]) {
            return None;
        }
        if v[i - 1] == '.' && !is_sep_char(v[i - 2]) {
            return Some(i - 1);
        }
        i = i - 1;
    }
    None
}

/// The extension that output in a direction gets.
pub fn extension(d: Direction) -> (r: &'static str)
    ensures
        r@ == extension_of(d),
{
    match d {
        Direction::ToText => {
            proof {
                reveal_strlit("json");
            }
            "json"
        },
        Direction::ToBinary => {
            proof {
                reveal_strlit("esp");
            }
            "esp"
        },
    }
}

/// The path that a conversion of `input` in direction `d` writes: the
/// extension of the last component replaced by `json` or `esp`.
pub fn output_path(input: &str, d: Direction) -> (r: String)
    ensures
        r@ == with_extension(input@, extension_of(d)),
{
    let v = chars_of(input);
    let dot = find_ext_dot(&v);
    proof {
        lemma_ext_dot_bounds(v@);
    }
    let n = v.len();
    let keep: usize = match dot {
        Some(k) => k + 1,
        None => n,
    };
    if dot.is_none() && (n == 0 || is_sep_char(v[n - 1])) {
        return input.to_owned();
    }
    let mut r = String::new();
    let mut i: usize = 0;
    while i < keep
        invariant
            keep <= v.len(),
            i <= keep,
            r@ == v@.take(i as int),
        decreases keep - i,
    {
        push_char(&mut r, v[i]);
        assert(v@.take(i + 1) =~= v@.take(i as int).push(v@[i as int]));
        i = i + 1;
    }
    if dot.is_none() {
        push_char(&mut r, '.');
    }
    r.append(extension(d));
    proof {
        assert(v@.take(n as int) =~= v@);
    }
    r
}

} // verus!
