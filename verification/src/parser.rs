//! POSIX-style word splitting of a command line.
//!
//! A single string is split into words under the quoting rules of the
//! POSIX shell, without globbing, variable expansion or redirection
//! parsing: blanks separate words, single quotes keep their contents
//! literally, double quotes allow backslash escapes of `$`, `` ` ``,
//! `"`, `\` and the line break, a bare backslash escapes the next
//! character, and an unquoted `#` where a word could begin starts a
//! comment that runs to the end of the line. An input that ends inside
//! a quotation or right after an unescaped backslash is malformed.
//!
//! The grammar is stated as a character-by-character state machine
//! ([`step`], [`run`], [`split_spec`]); the executable splitter is
//! proved to produce exactly the words of that definition.

use vstd::prelude::*;

use crate::errors::CommandExecutorError;
use crate::text::{chars_of, string_from_chars};

verus! {

/// Where the splitter stands within the input.
#[derive(Debug, Clone, Copy, PartialEq, Eq, Structural)]
pub enum SplitMode {
    /// Between words, skipping blanks.
    Blanks,
    /// Inside a comment, up to the end of the line.
    Comment,
    /// Inside a word, outside any quotes.
    Word,
    /// Right after a backslash, outside any quotes.
    Escape,
    /// Inside single quotes.
    Single,
    /// Inside double quotes.
    Double,
    /// Right after a backslash, inside double quotes.
    DoubleEscape,
}

/// The whole state of the splitter: its mode, the word being built, and
/// the words already finished.
pub struct SplitState {
    pub mode: SplitMode,
    pub cur: Seq<char>,
    pub words: Seq<Seq<char>>,
}

/// The characters that separate words.
pub open spec fn is_blank(c: char) -> bool {
    c == ' ' || c == '\t' || c == '\n'
}

/// The state the splitter starts in.
pub open spec fn init_state() -> SplitState {
    SplitState { mode: SplitMode::Blanks, cur: Seq::empty(), words: Seq::empty() }
}

/// One character of input advances the splitter.
pub open spec fn step(st: SplitState, c: char) -> SplitState {
    match st.mode {
        SplitMode::Blanks => {
            if is_blank(c) {
                st
            } else if c == '#' {
                SplitState { mode: SplitMode::Comment, cur: st.cur, words: st.words }
            } else if c == '\'' {
                SplitState { mode: SplitMode::Single, cur: st.cur, words: st.words }
            } else if c == '"' {
                SplitState { mode: SplitMode::Double, cur: st.cur, words: st.words }
            } else if c == '\\' {
                SplitState { mode: SplitMode::Escape, cur: st.cur, words: st.words }
            } else {
                SplitState { mode: SplitMode::Word, cur: st.cur.push(c), words: st.words }
            }
        },
        SplitMode::Comment => {
            if c == '\n' {
                SplitState { mode: SplitMode::Blanks, cur: st.cur, words: st.words }
            } else {
                st
            }
        },
        SplitMode::Word => {
            if is_blank(c) {
                SplitState {
                    mode: SplitMode::Blanks,
                    cur: Seq::empty(),
                    words: st.words.push(st.cur),
                }
            } else if c == '\'' {
                SplitState { mode: SplitMode::Single, cur: st.cur, words: st.words }
            } else if c == '"' {
                SplitState { mode: SplitMode::Double, cur: st.cur, words: st.words }
            } else if c == '\\' {
                SplitState { mode: SplitMode::Escape, cur: st.cur, words: st.words }
            } else {
                SplitState { mode: SplitMode::Word, cur: st.cur.push(c), words: st.words }
            }
        },
        SplitMode::Escape => {
            if c == '\n' {
                // an escaped line break joins two lines into one word
                SplitState { mode: SplitMode::Word, cur: st.cur, words: st.words }
            } else {
                SplitState { mode: SplitMode::Word, cur: st.cur.push(c), words: st.words }
            }
        },
        SplitMode::Single => {
            if c == '\'' {
                SplitState { mode: SplitMode::Word, cur: st.cur, words: st.words }
            } else {
                SplitState { mode: SplitMode::Single, cur: st.cur.push(c), words: st.words }
            }
        },
        SplitMode::Double => {
            if c == '"' {
                SplitState { mode: SplitMode::Word, cur: st.cur, words: st.words }
            } else if c == '\\' {
                SplitState { mode: SplitMode::DoubleEscape, cur: st.cur, words: st.words }
            } else {
                SplitState { mode: SplitMode::Double, cur: st.cur.push(c), words: st.words }
            }
        },
        SplitMode::DoubleEscape => {
            if c == '$' || c == '`' || c == '"' || c == '\\' {
                SplitState { mode: SplitMode::Double, cur: st.cur.push(c), words: st.words }
            } else if c == '\n' {
                SplitState { mode: SplitMode::Double, cur: st.cur, words: st.words }
            } else {
                // inside double quotes the backslash stays before any
                // other character
                SplitState {
                    mode: SplitMode::Double,
                    cur: st.cur.push('\\').push(c),
                    words: st.words,
                }
            }
        },
    }
}

/// The splitter after reading a whole sequence of characters, left to
/// right.
pub open spec fn run(st: SplitState, s: Seq<char>) -> SplitState
    decreases s.len(),
{
    if s.len() == 0 {
        st
    } else {
        step(run(st, s.drop_last()), s.last())
    }
}

/// What the splitter yields once the input ends: the words read, or
/// nothing when the input ends inside a quotation or right after an
/// unescaped backslash.
pub open spec fn finish(st: SplitState) -> Option<Seq<Seq<char>>> {
    match st.mode {
        SplitMode::Blanks => Some(st.words),
        SplitMode::Comment => Some(st.words),
        SplitMode::Word => Some(st.words.push(st.cur)),
        SplitMode::Escape => None,
        SplitMode::Single => None,
        SplitMode::Double => None,
        SplitMode::DoubleEscape => None,
    }
}

/// POSIX-style word splitting: the words of `s`, or nothing when `s` is
/// malformed.
pub open spec fn split_spec(s: Seq<char>) -> Option<Seq<Seq<char>>> {
    finish(run(init_state(), s))
}

/// The words of a split, each as its character sequence.
pub open spec fn word_views(ws: Seq<Vec<char>>) -> Seq<Seq<char>> {
    ws.map_values(|w: Vec<char>| w@)
}

/// The words of a parse, each as its character sequence.
pub open spec fn string_views(ws: Seq<String>) -> Seq<Seq<char>> {
    ws.map_values(|w: String| w@)
}

/// Reading a concatenation is reading one part after the other.
pub proof fn lemma_run_concat(st: SplitState, a: Seq<char>, b: Seq<char>)
    ensures
        run(st, a + b) == run(run(st, a), b),
    decreases b.len(),
{
    if b.len() == 0 {
        assert(a + b =~= a);
    } else {
        lemma_run_concat(st, a, b.drop_last());
        assert((a + b).drop_last() =~= a + b.drop_last());
        assert((a + b).last() == b.last());
    }
}

/// A command line of blanks alone leaves the splitter where it started:
/// it holds no words, and it is not malformed.
pub proof fn lemma_blank_input_empty(s: Seq<char>)
    requires
        forall|i: int| 0 <= i < s.len() ==> is_blank(s[i]),
    ensures
        split_spec(s) == Some(Seq::<Seq<char>>::empty()),
    decreases s.len(),
{
    if s.len() > 0 {
        lemma_blank_input_empty(s.drop_last());
        assert(is_blank(s.last()));
    }
}

/// Once a single quote is open, an input whose remainder never holds
/// another single quote is malformed.
pub proof fn lemma_unterminated_single_quote(prefix: Seq<char>, rest: Seq<char>)
    requires
        run(init_state(), prefix).mode == SplitMode::Single,
        forall|i: int| 0 <= i < rest.len() ==> rest[i] != '\'',
    ensures
        split_spec(prefix + rest) is None,
{
    lemma_run_concat(init_state(), prefix, rest);
    lemma_single_stays(run(init_state(), prefix), rest);
}

proof fn lemma_single_stays(st: SplitState, rest: Seq<char>)
    requires
        st.mode == SplitMode::Single,
        forall|i: int| 0 <= i < rest.len() ==> rest[i] != '\'',
    ensures
        run(st, rest).mode == SplitMode::Single,
    decreases rest.len(),
{
    if rest.len() > 0 {
        lemma_single_stays(st, rest.drop_last());
        assert(rest.last() != '\'');
    }
}

/// Once a double quote is open, an input whose remainder never holds
/// another double quote is malformed, whether or not backslashes occur.
pub proof fn lemma_unterminated_double_quote(prefix: Seq<char>, rest: Seq<char>)
    requires
        run(init_state(), prefix).mode == SplitMode::Double || run(init_state(), prefix).mode
            == SplitMode::DoubleEscape,
        forall|i: int| 0 <= i < rest.len() ==> rest[i] != '"',
    ensures
        split_spec(prefix + rest) is None,
{
    lemma_run_concat(init_state(), prefix, rest);
    lemma_double_stays(run(init_state(), prefix), rest);
}

proof fn lemma_double_stays(st: SplitState, rest: Seq<char>)
    requires
        st.mode == SplitMode::Double || st.mode == SplitMode::DoubleEscape,
        forall|i: int| 0 <= i < rest.len() ==> rest[i] != '"',
    ensures
        run(st, rest).mode == SplitMode::Double || run(st, rest).mode == SplitMode::DoubleEscape,
    decreases rest.len(),
{
    if rest.len() > 0 {
        lemma_double_stays(st, rest.drop_last());
        assert(rest.last() != '"');
    }
}

/// Splits the characters of a command line into words, or yields
/// nothing when the input is malformed.
pub fn split_chars(input: &Vec<char>) -> (r: Option<Vec<Vec<char>>>)
    ensures
        match r {
            Some(words) => split_spec(input@) == Some(word_views(words@)),
            None => split_spec(input@) is None,
        },
{
    let mut mode = SplitMode::Blanks;
    let mut cur: Vec<char> = Vec::new();
    let mut words: Vec<Vec<char>> = Vec::new();
    let mut i: usize = 0;
    while i < input.len()
        invariant
            i <= input.len(),
            ({
                let st = run(init_state(), input@.take(i as int));
                mode == st.mode && cur@ == st.cur && word_views(words@) == st.words
            }),
        decreases input.len() - i,
    {
        let ghost prev = run(init_state(), input@.take(i as int));
        let c = input[i];
        proof {
            assert(input@.take(i + 1).drop_last() =~= input@.take(i as int));
            assert(input@.take(i + 1).last() == input@[i as int]);
        }
        match mode {
            SplitMode::Blanks => {
                if c == ' ' || c == '\t' || c == '\n' {
                } else if c == '#' {
                    mode = SplitMode::Comment;
                } else if c == '\'' {
                    mode = SplitMode::Single;
                } else if c == '"' {
                    mode = SplitMode::Double;
                } else if c == '\\' {
                    mode = SplitMode::Escape;
                } else {
                    mode = SplitMode::Word;
                    cur.push(c);
                }
            },
            SplitMode::Comment => {
                if c == '\n' {
                    mode = SplitMode::Blanks;
                }
            },
            SplitMode::Word => {
                if c == ' ' || c == '\t' || c == '\n' {
                    mode = SplitMode::Blanks;
                    words.push(cur);
                    cur = Vec::new();
                    proof {
                        assert(word_views(words@) =~= prev.words.push(prev.cur));
                    }
                } else if c == '\'' {
                    mode = SplitMode::Single;
                } else if c == '"' {
                    mode = SplitMode::Double;
                } else if c == '\\' {
                    mode = SplitMode::Escape;
                } else {
                    cur.push(c);
                }
            },
            SplitMode::Escape => {
                mode = SplitMode::Word;
                if c == '\n' {
                } else {
                    cur.push(c);
                }
            },
            SplitMode::Single => {
                if c == '\'' {
                    mode = SplitMode::Word;
                } else {
                    cur.push(c);
                }
            },
            SplitMode::Double => {
                if c == '"' {
                    mode = SplitMode::Word;
                } else if c == '\\' {
                    mode = SplitMode::DoubleEscape;
                } else {
                    cur.push(c);
                }
            },
            SplitMode::DoubleEscape => {
                mode = SplitMode::Double;
                if c == '$' || c == '`' || c == '"' || c == '\\' {
                    cur.push(c);
                } else if c == '\n' {
                } else {
                    cur.push('\\');
                    cur.push(c);
                }
            },
        }
        i += 1;
    }
    proof {
        assert(input@.take(input@.len() as int) =~= input@);
    }
    match mode {
        SplitMode::Blanks => Some(words),
        SplitMode::Comment => Some(words),
        SplitMode::Word => {
            let ghost last_st = run(init_state(), input@);
            words.push(cur);
            proof {
                assert(word_views(words@) =~= last_st.words.push(last_st.cur));
            }
            Some(words)
        },
        SplitMode::Escape => None,
        SplitMode::Single => None,
        SplitMode::Double => None,
        SplitMode::DoubleEscape => None,
    }
}

/// Splits a command line into words under POSIX quoting rules: the
/// result is exactly `split_spec` of the input, and a malformed line
/// fails with `ParseError` holding the raw input for diagnostics.
pub fn parse(command_line: &str) -> (r: Result<Vec<String>, CommandExecutorError>)
    ensures
        match r {
            Ok(words) => split_spec(command_line@) == Some(string_views(words@)),
            Err(e) => {
                &&& split_spec(command_line@) is None
                &&& e matches CommandExecutorError::ParseError(raw) && raw@ == command_line@
            },
        },
{
    let chars = chars_of(command_line);
    match split_chars(&chars) {
        Some(mut ws) => {
            let ghost all = word_views(ws@);
            let mut out: Vec<String> = Vec::new();
            proof {
                assert(string_views(out@) + word_views(ws@) =~= all);
            }
            while ws.len() > 0
                invariant
                    string_views(out@) + word_views(ws@) == all,
                decreases ws.len(),
            {
                let ghost out0 = out@;
                let ghost ws0 = ws@;
                let w = ws.remove(0);
                let s = string_from_chars(w);
                out.push(s);
                proof {
                    assert(word_views(ws0) =~= word_views(ws@).insert(0, w@));
                    assert(string_views(out@) =~= string_views(out0).push(s@));
                    assert(string_views(out@) + word_views(ws@) =~= all);
                }
            }
            proof {
                assert(string_views(out@) + word_views(ws@) =~= string_views(out@));
            }
            Ok(out)
        },
        None => Err(CommandExecutorError::ParseError(command_line.to_owned())),
    }
}

} // verus!
