use vstd::prelude::*;
use vstd::string::*;

use crate::chars::{char_count, push_char, str_eq};

verus! {

pub open spec fn repeat_char(c: char, n: nat) -> Seq<char> {
    Seq::new(n, |i: int| c)
}

/// A cell's text cut to `width` characters: text that fits is kept, text that does
/// not keeps its first `width - 3` characters followed by `...`, and a width of at
/// most 3 shows only dots.
pub open spec fn truncated(value: Seq<char>, width: nat) -> Seq<char> {
    if value.len() <= width {
        value
    } else if width <= 3 {
        repeat_char('.', width)
    } else {
        value.take(width - 3) + repeat_char('.', 3)
    }
}

/// A cell's text cut to `width` characters and left-aligned in exactly that many.
pub open spec fn padded(value: Seq<char>, width: nat) -> Seq<char> {
    let t = truncated(value, width);
    t + repeat_char(' ', (width - t.len()) as nat)
}

/// Where the last `": "` of a text starts among its first `n` characters, or -1.
pub open spec fn last_separator(s: Seq<char>, n: int) -> int
    decreases n,
{
    if n < 2 {
        -1
    } else if s[n - 2] == ':' && s[n - 1] == ' ' {
        n - 2
    } else {
        last_separator(s, n - 1)
    }
}

/// The message part of a stash label: what follows its last `": "`, or the whole label.
pub open spec fn stash_message(label: Seq<char>) -> Seq<char> {
    let j = last_separator(label, label.len() as int);
    if j >= 0 {
        label.skip(j + 2)
    } else {
        label
    }
}

/// The name suggested for a fork of a remote.
pub open spec fn fork_name(remote: Seq<char>) -> Seq<char> {
    if remote == seq!['o', 'r', 'i', 'g', 'i', 'n'] {
        seq!['u', 'p', 's', 't', 'r', 'e', 'a', 'm']
    } else {
        remote + seq!['-', 'f', 'o', 'r', 'k']
    }
}

/// Appends `n` copies of a character.
pub fn push_repeated(s: &mut String, c: char, n: usize)
    ensures
        final(s)@ == old(s)@ + repeat_char(c, n as nat),
{
    let mut i: usize = 0;
    while i < n
        invariant
            i <= n,
            s@ =~= old(s)@ + repeat_char(c, i as nat),
        decreases n - i,
    {
        push_char(s, c);
        i = i + 1;
    }
}

/// The text of a table cell cut to `width` characters (see `truncated`).
pub fn truncate_cell(value: &str, width: usize) -> (res: String)
    ensures
        res@ == truncated(value@, width as nat),
{
    let count = char_count(value);
    if count <= width {
        return String::from_str(value);
    }
    if width <= 3 {
        let mut res = String::new();
        push_repeated(&mut res, '.', width);
        assert(res@ =~= repeat_char('.', width as nat));
        return res;
    }
    let mut res = String::from_str(value.substring_char(0, width - 3));
    push_repeated(&mut res, '.', 3);
    assert(value@.subrange(0, width - 3) =~= value@.take(width - 3));
    res
}

/// The text of a table cell, cut to `width` characters and padded with spaces to
/// exactly `width` characters.
pub fn pad_cell(value: &str, width: usize) -> (res: String)
    ensures
        res@ == padded(value@, width as nat),
        res@.len() == width,
{
    if width == 0 {
        let res = String::new();
        assert(res@ =~= padded(value@, 0));
        return res;
    }
    let mut res = truncate_cell(value, width);
    let len = char_count(res.as_str());
    push_repeated(&mut res, ' ', width - len);
    res
}

/// The name offered for a fork of a remote: `upstream` for `origin`, else the
/// remote's name followed by `-fork`.
pub fn fork_remote_suggested_name(remote_name: &str) -> (res: String)
    ensures
        res@ == fork_name(remote_name@),
{
    proof {
        reveal_strlit("origin");
        reveal_strlit("upstream");
        reveal_strlit("-fork");
    }
    assert("origin"@ =~= seq!['o', 'r', 'i', 'g', 'i', 'n']);
    assert("upstream"@ =~= seq!['u', 'p', 's', 't', 'r', 'e', 'a', 'm']);
    assert("-fork"@ =~= seq!['-', 'f', 'o', 'r', 'k']);
    if str_eq(remote_name, "origin") {
        String::from_str("upstream")
    } else {
        let mut res = String::from_str(remote_name);
        res.append("-fork");
        res
    }
}

/// The message of a stash label (`stash@{0}: On main: message` gives `message`):
/// the text after the label's last `": "`, or the label itself where it has none.
pub fn stash_message_label(label: &str) -> (res: String)
    ensures
        res@ == stash_message(label@),
{
    let n = char_count(label);
    let mut k: usize = n;
    while k >= 2 && !(label.get_char(k - 2) == ':' && label.get_char(k - 1) == ' ')
        invariant
            n == label@.len(),
            k <= n,
            last_separator(label@, n as int) == last_separator(label@, k as int),
        decreases k,
    {
        k = k - 1;
    }
    if k >= 2 {
        String::from_str(label.substring_char(k, n))
    } else {
        String::from_str(label)
    }
}

} // verus!
