//! Shell-like word splitting for command strings: single and double
//! quotes and backslash escapes are honored, but nothing is interpreted —
//! no globbing, no pipes, no variable expansion.

use vstd::prelude::*;

verus! {

/// The tokenizer's state after reading a prefix of the input.
pub struct SplitState {
    pub in_quotes: bool,
    pub quote_char: char,
    pub escape_next: bool,
    pub current: Seq<char>,
    pub words: Seq<Seq<char>>,
}

/// The state before any character is read.
pub open spec fn split_init() -> SplitState {
    SplitState {
        in_quotes: false,
        quote_char: ' ',
        escape_next: false,
        current: Seq::empty(),
        words: Seq::empty(),
    }
}

/// One step of the tokenizer: an escaped character is taken verbatim, a
/// backslash escapes the next character, quotes open and close quoted
/// stretches, and unquoted blanks end the current word.
pub open spec fn split_step(st: SplitState, ch: char) -> SplitState {
    if st.escape_next {
        SplitState { current: st.current.push(ch), escape_next: false, ..st }
    } else if ch == '\\' {
        SplitState { escape_next: true, ..st }
    } else if ch == '"' || ch == '\'' {
        if st.in_quotes {
            if ch == st.quote_char {
                SplitState { in_quotes: false, ..st }
            } else {
                SplitState { current: st.current.push(ch), ..st }
            }
        } else {
            SplitState { in_quotes: true, quote_char: ch, ..st }
        }
    } else if ch == ' ' || ch == '\t' {
        if st.in_quotes {
            SplitState { current: st.current.push(ch), ..st }
        } else if st.current.len() > 0 {
            SplitState { words: st.words.push(st.current), current: Seq::empty(), ..st }
        } else {
            st
        }
    } else {
        SplitState { current: st.current.push(ch), ..st }
    }
}

/// The tokenizer's state after reading a whole sequence.
pub open spec fn split_run(st: SplitState, s: Seq<char>) -> SplitState
    decreases s.len(),
{
    if s.len() == 0 {
        st
    } else {
        split_step(split_run(st, s.drop_last()), s.last())
    }
}

/// The words of a command string: the tokenizer's words, with the last
/// word flushed when the input does not end on a separator.
pub open spec fn shell_split(s: Seq<char>) -> Seq<Seq<char>> {
    let fin = split_run(split_init(), s);
    if fin.current.len() > 0 {
        fin.words.push(fin.current)
    } else {
        fin.words
    }
}

/// The words of a list of strings, as character sequences.
pub open spec fn words_view(ws: Seq<String>) -> Seq<Seq<char>> {
    ws.map_values(|w: String| w@)
}

/// Split a command line into words, honoring quotes and backslash
/// escapes.  Always returns a word list; the option mirrors fallible
/// splitters whose callers handle `None`.
pub fn split(input: &str) -> (r: Option<Vec<String>>)
    ensures
        r matches Some(ws) && words_view(ws@) == shell_split(input@),
{
    let n = input.unicode_len();
    let mut words: Vec<String> = Vec::new();
    let mut current_word = String::new();
    let mut in_quotes = false;
    let mut quote_char = ' ';
    let mut escape_next = false;
    let mut i: usize = 0;
    proof {
        assert(input@.take(0int) =~= Seq::<char>::empty());
        assert(words_view(words@) =~= Seq::<Seq<char>>::empty());
    }
    while i < n
        invariant
            n == input@.len(),
            i <= n,
            ({
                let st = split_run(split_init(), input@.take(i as int));
                &&& in_quotes == st.in_quotes
                &&& quote_char == st.quote_char
                &&& escape_next == st.escape_next
                &&& current_word@ == st.current
                &&& words_view(words@) == st.words
            }),
        decreases n - i,
    {
        let ch = input.get_char(i);
        let ghost st = split_run(split_init(), input@.take(i as int));
        proof {
            assert(input@.take(i as int + 1).drop_last() =~= input@.take(i as int));
            assert(input@.take(i as int + 1).last() == input@[i as int]);
        }
        if escape_next {
            current_word.push(ch);
            escape_next = false;
        } else if ch == '\\' {
            escape_next = true;
        } else if ch == '"' || ch == '\'' {
            if in_quotes {
                if ch == quote_char {
                    in_quotes = false;
                } else {
                    current_word.push(ch);
                }
            } else {
                in_quotes = true;
                quote_char = ch;
            }
        } else if ch == ' ' || ch == '\t' {
            if in_quotes {
                current_word.push(ch);
            } else if !current_word.as_str().is_empty() {
                words.push(current_word);
                current_word = String::new();
                proof {
                    assert(words_view(words@) =~= st.words.push(st.current));
                }
            }
        } else {
            current_word.push(ch);
        }
        i = i + 1;
    }
    proof {
        assert(input@.take(n as int) =~= input@);
    }
    if !current_word.as_str().is_empty() {
        words.push(current_word);
        proof {
            assert(words_view(words@) =~= shell_split(input@));
        }
    }
    Some(words)
}

} // verus!
