//! Commands as words, and the one shell script that runs a batch of them,
//! each only after the one before it succeeded. Every word reaches the command
//! as written: a word that the shell would interpret is single-quoted.
use vstd::prelude::*;

verus! {

/// A character that a shell takes literally in a word.
pub open spec fn safe_char(c: char) -> bool {
    ('a' <= c && c <= 'z') || ('A' <= c && c <= 'Z') || ('0' <= c && c <= '9') || c == '-' || c
        == '_' || c == '.' || c == ',' || c == '/' || c == ':' || c == '=' || c == '@' || c == '+'
}

/// A non-empty word of safe characters: the shell reads it as one argument, as written.
pub open spec fn safe_word(w: Seq<char>) -> bool {
    w.len() > 0 && forall|i: int| 0 <= i < w.len() ==> safe_char(#[trigger] w[i])
}

/// The word's characters for use between single quotes: each `'` closes the
/// quotes, stands escaped, and reopens them.
pub open spec fn escaped(w: Seq<char>) -> Seq<char>
    decreases w.len(),
{
    if w.len() == 0 {
        Seq::empty()
    } else if w.last() == '\'' {
        escaped(w.drop_last()) + "'\\''"@
    } else {
        escaped(w.drop_last()).push(w.last())
    }
}

/// The word as the script writes it: as is when it is safe, else single-quoted.
pub open spec fn shell_word(w: Seq<char>) -> Seq<char> {
    if safe_word(w) {
        w
    } else {
        "'"@ + escaped(w) + "'"@
    }
}

pub open spec fn words_view(v: Seq<String>) -> Seq<Seq<char>> {
    v.map_values(|w: String| w@)
}

pub open spec fn commands_view(v: Seq<Vec<String>>) -> Seq<Seq<Seq<char>>> {
    v.map_values(|c: Vec<String>| words_view(c@))
}

/// The parts with `sep` between each two.
pub open spec fn join(parts: Seq<Seq<char>>, sep: Seq<char>) -> Seq<char>
    decreases parts.len(),
{
    if parts.len() == 0 {
        Seq::empty()
    } else if parts.len() == 1 {
        parts[0]
    } else {
        join(parts.drop_last(), sep) + sep + parts.last()
    }
}

/// A command's words as one line of the script.
pub open spec fn command_line(words: Seq<Seq<char>>) -> Seq<char> {
    join(words.map_values(|w: Seq<char>| shell_word(w)), " "@)
}

/// The script that runs the commands in order and stops at the first failure.
pub open spec fn script_of(commands: Seq<Seq<Seq<char>>>) -> Seq<char> {
    join(commands.map_values(|c: Seq<Seq<char>>| command_line(c)), " && "@)
}

/// Every word of every command is safe, so the script carries each as is.
pub open spec fn all_safe(commands: Seq<Seq<Seq<char>>>) -> bool {
    forall|i: int, j: int|
        0 <= i < commands.len() && 0 <= j < commands[i].len() ==> safe_word(
            #[trigger] commands[i][j],
        )
}

pub fn is_safe_char(c: char) -> (r: bool)
    ensures
        r == safe_char(c),
{
    ('a' <= c && c <= 'z') || ('A' <= c && c <= 'Z') || ('0' <= c && c <= '9') || c == '-' || c
        == '_' || c == '.' || c == ',' || c == '/' || c == ':' || c == '=' || c == '@' || c == '+'
}

pub fn is_safe_word(w: &str) -> (r: bool)
    ensures
        r == safe_word(w@),
{
    let n = w.unicode_len();
    if n == 0 {
        return false;
    }
    let mut i: usize = 0;
    while i < n
        invariant
            n == w@.len(),
            i <= n,
            forall|k: int| 0 <= k < i ==> safe_char(#[trigger] w@[k]),
        decreases n - i,
    {
        if !is_safe_char(w.get_char(i)) {
            return false;
        }
        i = i + 1;
    }
    true
}

/// The word as the script writes it.
pub fn quote_word(w: &str) -> (r: String)
    ensures
        r@ == shell_word(w@),
{
    if is_safe_word(w) {
        return String::from_str(w);
    }
    let mut out = String::from_str("'");
    let n = w.unicode_len();
    let mut i: usize = 0;
    while i < n
        invariant
            n == w@.len(),
            i <= n,
            out@ == "'"@ + escaped(w@.subrange(0, i as int)),
        decreases n - i,
    {
        let ghost before = out@;
        assert(w@.subrange(0, i + 1).drop_last() =~= w@.subrange(0, i as int));
        assert(w@.subrange(0, i + 1).last() == w@[i as int]);
        if w.get_char(i) == '\'' {
            out.append("'\\''");
            assert(out@ =~= "'"@ + escaped(w@.subrange(0, i + 1)));
        } else {
            let one = w.substring_char(i, i + 1);
            assert(one@ =~= seq![w@[i as int]]);
            out.append(one);
            assert(out@ =~= "'"@ + escaped(w@.subrange(0, i + 1)));
        }
        i = i + 1;
    }
    assert(w@.subrange(0, n as int) =~= w@);
    out.append("'");
    out
}

/// Appends the parts to `out`, with `sep` between each two.
fn append_joined(out: &mut String, parts: &Vec<String>, sep: &str)
    ensures
        final(out)@ == old(out)@ + join(words_view(parts@), sep@),
{
    let ghost start = out@;
    let mut i: usize = 0;
    while i < parts.len()
        invariant
            i <= parts@.len(),
            out@ == start + join(words_view(parts@.subrange(0, i as int)), sep@),
        decreases parts.len() - i,
    {
        let ghost before = words_view(parts@.subrange(0, i as int));
        let ghost after = words_view(parts@.subrange(0, i + 1));
        assert(after.drop_last() =~= before);
        assert(after.last() == parts@[i as int]@);
        if i > 0 {
            out.append(sep);
        }
        out.append(parts[i].as_str());
        i = i + 1;
    }
    assert(parts@.subrange(0, parts@.len() as int) == parts@);
}

/// The words of a command, as one line of the script.
pub fn command_text(words: &Vec<String>) -> (r: String)
    ensures
        r@ == command_line(words_view(words@)),
{
    let mut quoted: Vec<String> = Vec::new();
    let mut i: usize = 0;
    while i < words.len()
        invariant
            i <= words@.len(),
            quoted@.len() == i,
            forall|k: int| 0 <= k < i ==> (#[trigger] quoted@[k])@ == shell_word(words@[k]@),
        decreases words.len() - i,
    {
        quoted.push(quote_word(words[i].as_str()));
        i = i + 1;
    }
    assert(words_view(quoted@) =~= words_view(words@).map_values(|w: Seq<char>| shell_word(w)));
    let mut out = String::new();
    append_joined(&mut out, &quoted, " ");
    out
}

/// The script that runs the commands one after another, each only if the one
/// before succeeded, every word reaching its command as written.
pub fn batch_script(commands: &Vec<Vec<String>>) -> (r: String)
    ensures
        r@ == script_of(commands_view(commands@)),
{
    let ghost cv = commands_view(commands@);
    let mut lines: Vec<String> = Vec::new();
    let mut i: usize = 0;
    while i < commands.len()
        invariant
            cv == commands_view(commands@),
            i <= commands@.len(),
            lines@.len() == i,
            forall|k: int| 0 <= k < i ==> (#[trigger] lines@[k])@ == command_line(cv[k]),
        decreases commands.len() - i,
    {
        assert(cv[i as int] =~= words_view(commands@[i as int]@));
        lines.push(command_text(&commands[i]));
        i = i + 1;
    }
    assert(words_view(lines@) =~= cv.map_values(|c: Seq<Seq<char>>| command_line(c)));
    let mut out = String::new();
    append_joined(&mut out, &lines, " && ");
    out
}

} // verus!
