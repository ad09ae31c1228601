//! Text that arrives as raw bytes or in the dispatcher's encoding.

use vstd::prelude::*;

verus! {

/// `String::push` of the standard library: the string is as before, with
/// `ch` as one more character at its end.
pub assume_specification[ String::push ](s: &mut String, ch: char)
    ensures
        final(s)@ == old(s)@.push(ch),
;

/// The text that a Latin-1 byte string stands for: one character per byte,
/// with the byte's value as its code point.
pub open spec fn latin1(bytes: Seq<u8>) -> Seq<char> {
    Seq::new(bytes.len(), |i: int| bytes[i] as char)
}

/// Decodes bytes as Latin-1. No byte is rejected and none is merged with
/// its neighbours.
pub fn latin1_to_string(s: &[u8]) -> (text: String)
    ensures
        text@ == latin1(s@),
{
    let mut text = String::new();
    let mut i: usize = 0;
    while i < s.len()
        invariant
            i <= s.len(),
            text@ == latin1(s@.take(i as int)),
        decreases s.len() - i,
    {
        text.push(s[i] as char);
        i += 1;
        assert(latin1(s@.take(i as int)) =~= latin1(s@.take(i - 1)).push(s@[i - 1] as char));
    }
    assert(s@.take(i as int) =~= s@);
    text
}


/// An encoded executable path with every `!` turned back into `/`.
pub open spec fn restore_slashes(encoded: Seq<char>) -> Seq<char> {
    Seq::new(encoded.len(), |i: int| if encoded[i] == '!' { '/' } else { encoded[i] })
}

/// Decodes the path of an executable as the dispatcher hands it over, with
/// `!` where the path has `/`.
pub fn full_exe_path(encoded: &str) -> (full: String)
    ensures
        full@ == restore_slashes(encoded@),
{
    broadcast use vstd::string::group_string_axioms;

    let mut full = String::new();
    for c in it: encoded.chars()
        invariant
            it.seq() == encoded@,
            full@ =~= restore_slashes(encoded@).take(it.index()),
    {
        full.push(if c == '!' { '/' } else { c });
    }
    full
}


/// The character for one decimal digit.
pub open spec fn digit(d: nat) -> char {
    (48 + d) as char
}

/// A number written in decimal, without sign, padding or leading zeros.
pub open spec fn decimal(n: nat) -> Seq<char>
    decreases n,
{
    if n < 10 {
        seq![digit(n)]
    } else {
        decimal(n / 10).push(digit(n % 10))
    }
}

/// Writes a number in decimal.
pub fn decimal_text(n: u128) -> (text: String)
    ensures
        text@ == decimal(n as nat),
    decreases n,
{
    let last: u8 = (n % 10) as u8;
    let mut text = if n < 10 {
        String::new()
    } else {
        decimal_text(n / 10)
    };
    text.push((48u8 + last) as char);
    text
}


/// The index of the last `/` of a path, or -1 where it has none.
pub open spec fn last_slash(path: Seq<char>) -> int
    decreases path.len(),
{
    if path.len() == 0 {
        -1
    } else if path.last() == '/' {
        path.len() - 1
    } else {
        last_slash(path.drop_last())
    }
}

/// What follows the last `/` of a path; nothing where the path has no `/`.
pub open spec fn base_name(path: Seq<char>) -> Seq<char> {
    if last_slash(path) < 0 {
        Seq::empty()
    } else {
        path.skip(last_slash(path) + 1)
    }
}

/// The name of an executable, given its decoded path.
pub fn exe_name(full_exe: &str) -> (exe: String)
    ensures
        exe@ == base_name(full_exe@),
{
    broadcast use vstd::string::group_string_axioms;

    let n: usize = full_exe.unicode_len();
    let mut i: usize = 0;
    // One more than the index of the last `/` seen, or 0 while none was seen.
    let mut after: usize = 0;
    for c in it: full_exe.chars()
        invariant
            it.seq() == full_exe@,
            n == full_exe@.len(),
            i == it.index(),
            after == last_slash(full_exe@.take(i as int)) + 1,
            after <= i,
    {
        assert(full_exe@.take(i + 1).drop_last() =~= full_exe@.take(i as int));
        i += 1;
        if c == '/' {
            after = i;
        }
    }
    assert(full_exe@.take(i as int) =~= full_exe@);
    if after == 0 {
        String::new()
    } else {
        full_exe.substring_char(after, n).to_owned()
    }
}

/// How many characters stand before the first line break of a text; its whole
/// length where it has no line break.
pub open spec fn first_line_len(text: Seq<char>) -> nat
    decreases text.len(),
{
    if text.len() == 0 || text[0] == '\n' {
        0
    } else {
        1 + first_line_len(text.drop_first())
    }
}

/// A script without its interpreter line. A text that starts with `#!` loses
/// everything before its first line break, which stays so that line numbers
/// still fit; any other text is unchanged.
pub open spec fn without_shebang(text: Seq<char>) -> Seq<char> {
    if text.len() >= 2 && text[0] == '#' && text[1] == '!' {
        text.skip(first_line_len(text) as int)
    } else {
        text
    }
}

/// Removes the interpreter line of a script, if it has one.
pub fn strip_shebang(contents: &str) -> (script: String)
    ensures
        script@ == without_shebang(contents@),
{
    let n: usize = contents.unicode_len();
    if n < 2 || contents.get_char(0) != '#' || contents.get_char(1) != '!' {
        return contents.to_owned();
    }
    let mut i: usize = 0;
    assert(contents@.skip(0) =~= contents@);
    while i < n && contents.get_char(i) != '\n'
        invariant
            i <= n,
            n == contents@.len(),
            first_line_len(contents@) == i + first_line_len(contents@.skip(i as int)),
        decreases n - i,
    {
        assert(contents@.skip(i as int).drop_first() =~= contents@.skip(i + 1));
        i += 1;
    }
    contents.substring_char(i, n).to_owned()
}

} // verus!
