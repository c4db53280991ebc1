//! Turning a stored command line into a program and its arguments, run
//! through `sh -c` unless the line already calls `sh`.
use vstd::prelude::*;
use crate::protocol::string_of;

verus! {

/// Whether `char::is_whitespace` holds of a character.
pub uninterp spec fn is_white_space(c: char) -> bool;

/// Relies on `char::is_whitespace`, which decides the separators between
/// words of a command line.
#[verifier::external_body]
fn is_space(c: char) -> (r: bool)
    ensures
        r == is_white_space(c),
{
    c.is_whitespace()
}

/// Relies on `str::chars`: the characters of the line, in order.
#[verifier::external_body]
fn chars_of(s: &str) -> (r: Vec<char>)
    ensures
        r@ == s@,
{
    s.chars().collect()
}

/// The word being read is ended: it joins the words read so far unless empty.
pub open spec fn close_word(word: Seq<char>, acc: Seq<Seq<char>>) -> Seq<Seq<char>> {
    if word.len() > 0 { acc.push(word) } else { acc }
}

/// Words of `s`, read after `acc` and a word `word` already begun.
pub open spec fn split_from(s: Seq<char>, word: Seq<char>, acc: Seq<Seq<char>>) -> Seq<Seq<char>>
    decreases s.len(),
{
    if s.len() == 0 {
        close_word(word, acc)
    } else if is_white_space(s[0]) {
        split_from(s.drop_first(), Seq::empty(), close_word(word, acc))
    } else {
        split_from(s.drop_first(), word.push(s[0]), acc)
    }
}

/// The maximal runs of non-white-space characters of `s`, in order.
pub open spec fn words(s: Seq<char>) -> Seq<Seq<char>> {
    split_from(s, Seq::empty(), Seq::empty())
}

/// The words separated by single spaces.
pub open spec fn join(ws: Seq<Seq<char>>) -> Seq<char>
    decreases ws.len(),
{
    if ws.len() == 0 {
        Seq::empty()
    } else if ws.len() == 1 {
        ws[0]
    } else {
        join(ws.drop_last()) + seq![' '] + ws.last()
    }
}

pub open spec fn sh() -> Seq<char> {
    seq!['s', 'h']
}

pub open spec fn dash_c() -> Seq<char> {
    seq!['-', 'c']
}

/// Why a command line cannot be run.
#[derive(Clone, Copy, Debug, PartialEq, Eq, Structural)]
pub enum CmdError {
    /// The line holds no word.
    Empty,
    /// The line's second word is `-c` but its first is not `sh`.
    Invalid,
}

/// The program and arguments for a command line: a line that starts with
/// `sh` runs as written; any other runs as `sh -c` with the line's words
/// joined by single spaces.
pub open spec fn parsed(line: Seq<char>) -> Result<(Seq<char>, Seq<Seq<char>>), CmdError> {
    let w = words(line);
    if w.len() == 0 {
        Err(CmdError::Empty)
    } else if w[0] == sh() {
        Ok((sh(), w.drop_first()))
    } else if w.len() == 1 {
        Ok((sh(), seq![dash_c(), w[0]]))
    } else if w[1] != dash_c() {
        Ok((sh(), seq![dash_c(), join(w)]))
    } else {
        Err(CmdError::Invalid)
    }
}

/// The texts of a list of strings.
pub open spec fn texts(v: Seq<String>) -> Seq<Seq<char>> {
    v.map_values(|s: String| s@)
}

/// A program with its arguments.
#[derive(Debug)]
pub struct Cmd {
    pub cmd: String,
    pub args: Vec<String>,
}

fn split_words(line: &Vec<char>) -> (r: Vec<Vec<char>>)
    ensures
        r@.map_values(|w: Vec<char>| w@) == words(line@),
{
    let mut acc: Vec<Vec<char>> = Vec::new();
    let mut word: Vec<char> = Vec::new();
    let mut i: usize = 0;
    assert(line@.subrange(0, line@.len() as int) == line@);
    assert(acc@.map_values(|w: Vec<char>| w@) == Seq::<Seq<char>>::empty());
    while i < line.len()
        invariant
            i <= line@.len(),
            split_from(line@.subrange(i as int, line@.len() as int), word@, acc@.map_values(|w: Vec<char>| w@))
                == words(line@),
        decreases line@.len() - i,
    {
        let ghost rest = line@.subrange(i as int, line@.len() as int);
        assert(line@.subrange(i + 1, line@.len() as int) == rest.drop_first());
        let c = line[i];
        if is_space(c) {
            if word.len() > 0 {
                let ghost before = acc@;
                acc.push(word);
                assert(acc@.map_values(|w: Vec<char>| w@) == before.map_values(|w: Vec<char>| w@).push(
                    before.push(acc@.last()).last()@));
            }
            word = Vec::new();
        } else {
            word.push(c);
        }
        i = i + 1;
    }
    assert(line@.subrange(i as int, line@.len() as int).len() == 0);
    if word.len() > 0 {
        let ghost before = acc@;
        acc.push(word);
        assert(acc@.map_values(|w: Vec<char>| w@) == before.map_values(|w: Vec<char>| w@).push(
            before.push(acc@.last()).last()@));
    }
    acc
}

/// The text of each word.
pub open spec fn word_texts(ws: Seq<Vec<char>>) -> Seq<Seq<char>> {
    ws.map_values(|w: Vec<char>| w@)
}

fn join_words(ws: &Vec<Vec<char>>) -> (r: Vec<char>)
    ensures
        r@ == join(word_texts(ws@)),
{
    let ghost wv = word_texts(ws@);
    let mut out: Vec<char> = Vec::new();
    let mut i: usize = 0;
    assert(wv.subrange(0, 0) == Seq::<Seq<char>>::empty());
    while i < ws.len()
        invariant
            i <= ws@.len(),
            wv == word_texts(ws@),
            out@ == join(wv.subrange(0, i as int)),
        decreases ws@.len() - i,
    {
        let ghost prev = out@;
        assert(wv.subrange(0, i + 1).drop_last() == wv.subrange(0, i as int));
        if i > 0 {
            out.push(' ');
        }
        let w = &ws[i];
        let mut k: usize = 0;
        while k < w.len()
            invariant
                k <= w@.len(),
                i > 0 ==> out@ == prev + seq![' '] + w@.subrange(0, k as int),
                i == 0 ==> out@ == prev + w@.subrange(0, k as int),
            decreases w@.len() - k,
        {
            out.push(w[k]);
            k = k + 1;
            assert(w@.subrange(0, k as int) == w@.subrange(0, k - 1).push(w@[k - 1]));
        }
        assert(w@.subrange(0, w@.len() as int) == w@);
        assert(i == 0 ==> prev == Seq::<char>::empty());
        i = i + 1;
    }
    assert(wv.subrange(0, ws@.len() as int) == wv);
    out
}

fn sh_string() -> (r: String)
    ensures
        r@ == sh(),
{
    let r = "sh".to_owned();
    proof {
        reveal_strlit("sh");
    }
    assert(r@ =~= sh());
    r
}

fn dash_c_string() -> (r: String)
    ensures
        r@ == dash_c(),
{
    let r = "-c".to_owned();
    proof {
        reveal_strlit("-c");
    }
    assert(r@ =~= dash_c());
    r
}

fn same_word(w: &Vec<char>, a: char, b: char) -> (r: bool)
    ensures
        r == (w@ == seq![a, b]),
{
    if w.len() == 2 && w[0] == a && w[1] == b {
        assert(w@ == seq![a, b]);
        true
    } else {
        false
    }
}

/// Whether a parse result is the one `parsed` gives for a line.
pub open spec fn agrees(r: Result<(String, Vec<String>), CmdError>, line: Seq<char>) -> bool {
    match (r, parsed(line)) {
        (Ok((c, a)), Ok((pc, pa))) => c@ == pc && texts(a@) == pa,
        (Err(e), Err(pe)) => e == pe,
        _ => false,
    }
}

impl Cmd {
    /// The command for a line, as `parsed` describes it.
    pub fn new(line: &str) -> (r: Result<Cmd, CmdError>)
        ensures
            agrees(
                match r {
                    Ok(c) => Ok((c.cmd, c.args)),
                    Err(e) => Err(e),
                },
                line@,
            ),
    {
        match Cmd::parse_line(line) {
            Ok((cmd, args)) => Ok(Cmd { cmd, args }),
            Err(e) => Err(e),
        }
    }

    /// Splits a line into a program and its arguments, as `parsed` describes.
    pub fn parse_line(line: &str) -> (r: Result<(String, Vec<String>), CmdError>)
        ensures
            agrees(r, line@),
    {
        let chars = chars_of(line);
        let w = split_words(&chars);
        let ghost wv = word_texts(w@);
        if w.len() == 0 {
            return Err(CmdError::Empty);
        }
        assert(wv[0] == w@[0]@);
        if same_word(&w[0], 's', 'h') {
            let mut args: Vec<String> = Vec::new();
            let mut i: usize = 1;
            assert(texts(args@) == wv.subrange(1, 1));
            while i < w.len()
                invariant
                    1 <= i <= w@.len(),
                    wv == word_texts(w@),
                    texts(args@) == wv.subrange(1, i as int),
                decreases w@.len() - i,
            {
                let ghost before = args@;
                args.push(string_of(&w[i]));
                assert(texts(args@) == texts(before).push(wv[i as int]));
                assert(wv.subrange(1, i + 1) == wv.subrange(1, i as int).push(wv[i as int]));
                i = i + 1;
            }
            assert(wv.subrange(1, wv.len() as int) == wv.drop_first());
            return Ok((sh_string(), args));
        }
        if w.len() == 1 {
            let args = vec![dash_c_string(), string_of(&w[0])];
            assert(texts(args@) == seq![dash_c(), wv[0]]);
            return Ok((sh_string(), args));
        }
        assert(wv[1] == w@[1]@);
        if !same_word(&w[1], '-', 'c') {
            let joined = join_words(&w);
            let args = vec![dash_c_string(), string_of(&joined)];
            assert(texts(args@) =~= seq![dash_c(), join(wv)]);
            return Ok((sh_string(), args));
        }
        Err(CmdError::Invalid)
    }

    /// The program to start.
    pub fn program(&self) -> (r: &String)
        ensures
            r == &self.cmd,
    {
        &self.cmd
    }

    /// The arguments to start it with.
    pub fn arguments(&self) -> (r: &Vec<String>)
        ensures
            r == &self.args,
    {
        &self.args
    }
}

} // verus!
