//! The names of the files a build leaves in the output directory.
//!
//! A running client finds the patches of an incremental rebuild by name
//! alone, from the hash of the build it holds, so these patterns are part
//! of the protocol.

use vstd::prelude::*;

verus! {

broadcast use vstd::string::group_string_axioms;

/// The character that stands for a decimal digit.
pub open spec fn decimal_digit(digit: nat) -> char
    recommends
        digit < 10,
{
    if digit == 0 {
        '0'
    } else if digit == 1 {
        '1'
    } else if digit == 2 {
        '2'
    } else if digit == 3 {
        '3'
    } else if digit == 4 {
        '4'
    } else if digit == 5 {
        '5'
    } else if digit == 6 {
        '6'
    } else if digit == 7 {
        '7'
    } else if digit == 8 {
        '8'
    } else {
        '9'
    }
}

/// A number in decimal notation, without sign or leading zeros.
pub open spec fn decimal(n: nat) -> Seq<char>
    decreases n,
{
    if n < 10 {
        seq![decimal_digit(n)]
    } else {
        decimal(n / 10).push(decimal_digit(n % 10))
    }
}

/// The name under which the patch of a chunk is written: the hash, and the
/// words `hot-update`, go in front of the extension, which is what follows
/// the last dot of the chunk's name; a name without a dot gets them at its
/// end.
pub open spec fn hot_update_chunk_name(chunk_name: Seq<char>, hash: u64) -> Seq<char> {
    match chunk_name.index_of_last('.') {
        None => chunk_name + "."@ + decimal(hash as nat) + ".hot-update"@,
        Some(dot) => chunk_name.take(dot) + "."@ + decimal(hash as nat) + ".hot-update."@
            + chunk_name.skip(dot + 1),
    }
}

/// The name of the manifest that lists what a rebuild changed.
pub open spec fn hot_update_manifest_name(hash: u64) -> Seq<char> {
    decimal(hash as nat) + ".hot-update.json"@
}

/// The name of the source map that accompanies a script.
pub open spec fn sourcemap_name(path: Seq<char>) -> Seq<char> {
    path + ".map"@
}

fn digit_str(digit: u64) -> (s: &'static str)
    requires
        digit < 10,
    ensures
        s@ == seq![decimal_digit(digit as nat)],
{
    proof {
        reveal_strlit("0");
        reveal_strlit("1");
        reveal_strlit("2");
        reveal_strlit("3");
        reveal_strlit("4");
        reveal_strlit("5");
        reveal_strlit("6");
        reveal_strlit("7");
        reveal_strlit("8");
        reveal_strlit("9");
    }
    let s = if digit == 0 {
        "0"
    } else if digit == 1 {
        "1"
    } else if digit == 2 {
        "2"
    } else if digit == 3 {
        "3"
    } else if digit == 4 {
        "4"
    } else if digit == 5 {
        "5"
    } else if digit == 6 {
        "6"
    } else if digit == 7 {
        "7"
    } else if digit == 8 {
        "8"
    } else {
        "9"
    };
    assert(s@ =~= seq![decimal_digit(digit as nat)]);
    s
}

/// Appends `n` in decimal notation to `out`.
pub fn push_decimal(out: &mut String, n: u64)
    ensures
        final(out)@ == old(out)@ + decimal(n as nat),
    decreases n,
{
    if n >= 10 {
        push_decimal(out, n / 10);
    }
    out.append(digit_str(n % 10));
    assert(out@ =~= old(out)@ + decimal(n as nat));
}

/// The position of the last dot in `name`, counted in characters.
fn last_dot(name: &str) -> (dot: Option<usize>)
    ensures
        match dot {
            Some(at) => name@.index_of_last('.') == Some(at as int),
            None => name@.index_of_last('.') is None,
        },
{
    let len = name.unicode_len();
    let mut dot: Option<usize> = None;
    let mut index: usize = 0;
    for c in it: name.chars()
        invariant
            len == name@.len(),
            it.seq() == name@,
            index == it.index(),
            index <= len,
            match dot {
                Some(at) => at < index && name@[at as int] == '.' && forall|j: int|
                    at < j < index ==> name@[j] != '.',
                None => forall|j: int| 0 <= j < index ==> name@[j] != '.',
            },
    {
        if c == '.' {
            dot = Some(index);
        }
        index = index + 1;
    }
    proof {
        name@.index_of_last_ensures('.');
    }
    dot
}

/// The name under which the patch of the chunk `chunk_name` is written by a
/// rebuild that started from the build with hash `hash`.
pub fn to_hot_update_chunk_name(chunk_name: &String, hash: u64) -> (name: String)
    ensures
        name@ == hot_update_chunk_name(chunk_name@, hash),
{
    let source = chunk_name.as_str();
    let mut name = String::new();
    match last_dot(source) {
        None => {
            name.append(source);
            name.append(".");
            push_decimal(&mut name, hash);
            name.append(".hot-update");
        },
        Some(dot) => {
            proof {
                source@.index_of_last_ensures('.');
            }
            let len = source.unicode_len();
            name.append(source.substring_char(0, dot));
            name.append(".");
            push_decimal(&mut name, hash);
            name.append(".hot-update.");
            name.append(source.substring_char(dot + 1, len));
        },
    }
    assert(name@ =~= hot_update_chunk_name(chunk_name@, hash));
    name
}

/// The name of the manifest written by a rebuild that started from the
/// build with hash `hash`.
pub fn to_hot_update_manifest_name(hash: u64) -> (name: String)
    ensures
        name@ == hot_update_manifest_name(hash),
{
    let mut name = String::new();
    push_decimal(&mut name, hash);
    name.append(".hot-update.json");
    assert(name@ =~= hot_update_manifest_name(hash));
    name
}

/// The name of the source map written beside the script at `path`.
pub fn to_sourcemap_name(path: &String) -> (name: String)
    ensures
        name@ == sourcemap_name(path@),
{
    let mut name = path.clone();
    name.append(".map");
    name
}

} // verus!
