//! Which files of a benchmark directory hold measurements: those whose
//! extension is `json`, in any ASCII case.

use vstd::prelude::*;

use crate::text::chars_of;

verus! {

/// The position of the last `.` in `name` before position `upto`, if any.
pub open spec fn last_dot_before(name: Seq<char>, upto: int) -> Option<int>
    decreases upto,
{
    if upto <= 0 {
        None
    } else if name[upto - 1] == '.' {
        Some(upto - 1)
    } else {
        last_dot_before(name, upto - 1)
    }
}

/// The extension of a file name as `Path::extension` sees it: what follows
/// the last `.`, unless there is none or the only one starts the name.
pub open spec fn extension_of(name: Seq<char>) -> Option<Seq<char>> {
    match last_dot_before(name, name.len() as int) {
        Some(k) => if k == 0 {
            None
        } else {
            Some(name.skip(k + 1))
        },
        None => None,
    }
}

/// `c` in lower case when it is an ASCII upper case letter.
pub open spec fn ascii_lower(c: char) -> char {
    if 'A' <= c <= 'Z' {
        ((c as u32) + 32) as char
    } else {
        c
    }
}

/// `ext` is `json` in any ASCII case.
pub open spec fn is_json_extension(ext: Seq<char>) -> bool {
    &&& ext.len() == 4
    &&& ascii_lower(ext[0]) == 'j'
    &&& ascii_lower(ext[1]) == 's'
    &&& ascii_lower(ext[2]) == 'o'
    &&& ascii_lower(ext[3]) == 'n'
}

fn lower(c: char) -> (l: char)
    ensures
        l == ascii_lower(c),
{
    if 'A' <= c && c <= 'Z' {
        char_of((c as u32) + 32, c)
    } else {
        c
    }
}

fn char_of(code: u32, upper: char) -> (l: char)
    requires
        'A' <= upper <= 'Z',
        code == (upper as u32) + 32,
    ensures
        l == ascii_lower(upper),
{
    match code {
        97 => 'a', 98 => 'b', 99 => 'c', 100 => 'd', 101 => 'e', 102 => 'f', 103 => 'g',
        104 => 'h', 105 => 'i', 106 => 'j', 107 => 'k', 108 => 'l', 109 => 'm', 110 => 'n',
        111 => 'o', 112 => 'p', 113 => 'q', 114 => 'r', 115 => 's', 116 => 't', 117 => 'u',
        118 => 'v', 119 => 'w', 120 => 'x', 121 => 'y', _ => 'z',
    }
}

/// Whether a directory entry with this file name holds measurements: its
/// extension is `json`, in any ASCII case.
pub fn is_json_file_name(name: &str) -> (r: bool)
    ensures
        r == (extension_of(name@) matches Some(ext) && is_json_extension(ext)),
{
    let chars = chars_of(name);
    let mut i: usize = chars.len();
    while i > 0 && chars[i - 1] != '.'
        invariant
            i <= chars.len(),
            chars@ == name@,
            last_dot_before(name@, chars.len() as int) == last_dot_before(name@, i as int),
        decreases i,
    {
        i = i - 1;
    }
    if i <= 1 {
        // No dot, or only the one that starts the name.
        return false;
    }
    let k = i - 1;
    let ghost ext = name@.skip(k + 1);
    if chars.len() - i != 4 {
        return false;
    }
    assert(ext[0] == chars@[i as int] && ext[1] == chars@[i + 1] && ext[2] == chars@[i + 2] && ext[3] == chars@[i + 3]);
    lower(chars[i]) == 'j' && lower(chars[i + 1]) == 's' && lower(chars[i + 2]) == 'o' && lower(chars[i + 3]) == 'n'
}

} // verus!
