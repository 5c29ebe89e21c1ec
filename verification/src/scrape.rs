//! The decision half of website scraping: choosing the main content among
//! extracted candidates and capping it to a context budget, paragraph by
//! paragraph, with a truncation marker.  Fetching pages and walking the
//! DOM happen outside the library, which receives the texts as plain
//! values.

use vstd::prelude::*;
use crate::strutil::dec_digits;

verus! {

/// The content cap, in characters: roughly eight thousand tokens.
pub const MAX_CONTENT_CHARS: usize = 32000;

/// The position of the first paragraph separator (a blank line) at or
/// after `pos`.
pub open spec fn first_sep_from(s: Seq<char>, pos: int) -> Option<int>
    decreases s.len() - pos
        when 0 <= pos
{
    if pos + 2 > s.len() {
        None
    } else if s[pos] == '\n' && s[pos + 1] == '\n' {
        Some(pos)
    } else {
        first_sep_from(s, pos + 1)
    }
}

proof fn lemma_first_sep_from_range(s: Seq<char>, pos: int)
    requires
        0 <= pos,
    ensures
        first_sep_from(s, pos) matches Some(i) ==> pos <= i && i + 2 <= s.len(),
    decreases s.len() - pos,
{
    if pos + 2 > s.len() {
    } else if s[pos] == '\n' && s[pos + 1] == '\n' {
    } else {
        lemma_first_sep_from_range(s, pos + 1);
    }
}

/// The capped text built from the paragraphs of `s` starting at `pos`,
/// with `acc_len` characters already taken: paragraphs are appended, each
/// closed by a blank line, until one would push the total past three
/// quarters of the cap.
pub open spec fn chunked_from(s: Seq<char>, pos: int, acc_len: int) -> Seq<char>
    decreases s.len() - pos
        when 0 <= pos <= s.len()
        via chunked_from_decreases
{
    let para_end = match first_sep_from(s, pos) {
        Option::Some(i) => i,
        Option::None => s.len() as int,
    };
    let para = s.subrange(pos, para_end);
    if acc_len + para.len() > 24000 {
        Seq::empty()
    } else {
        para + "\n\n"@ + (match first_sep_from(s, pos) {
            Option::Some(i) => chunked_from(s, i + 2, acc_len + para.len() + 2),
            Option::None => Seq::<char>::empty(),
        })
    }
}

#[via_fn]
proof fn chunked_from_decreases(s: Seq<char>, pos: int, acc_len: int) {
    lemma_first_sep_from_range(s, pos);
}

/// The truncation marker appended when content was cut.
pub open spec fn truncation_marker(taken: int, total: int) -> Seq<char> {
    "\n\n[Content extracted: ~"@ + dec_digits((taken * 100 / total) as nat)
        + "% of original page. Focused on main content and removed boilerplate.]"@
}

/// Text capped to the content budget: short text is kept whole; longer
/// text is rebuilt from its leading paragraphs and closed with a marker
/// naming the share that was kept.
pub open spec fn chunked_of(s: Seq<char>) -> Seq<char> {
    if s.len() <= MAX_CONTENT_CHARS {
        s
    } else {
        let body = chunked_from(s, 0, 0);
        if s.len() > body.len() {
            body + truncation_marker(body.len() as int, s.len() as int)
        } else {
            body
        }
    }
}

/// Cap scraped text to the content budget, keeping whole leading
/// paragraphs and appending a truncation marker when content was cut.
pub fn apply_semantic_chunking(text: &str) -> (r: String)
    ensures
        r@ == chunked_of(text@),
{
    let n = text.unicode_len();
    if n <= MAX_CONTENT_CHARS {
        return text.to_owned();
    }
    let mut out = String::new();
    let mut cur: usize = 0;
    let mut pos: usize = 0;
    let mut done = false;
    while !done
        invariant
            n == text@.len(),
            n > MAX_CONTENT_CHARS,
            pos <= n,
            cur == out@.len(),
            cur <= 24002,
            !done ==> chunked_from(text@, 0, 0) == out@ + chunked_from(
                text@,
                pos as int,
                cur as int,
            ),
            done ==> chunked_from(text@, 0, 0) == out@,
        decreases (if done {
            0int
        } else {
            1int
        }) + n - pos,
    {
        let ghost pre = out@;
        let ghost pos0 = pos as int;
        let ghost cur0 = cur as int;
        // find the next paragraph separator at or after pos
        let mut k: usize = pos;
        while k < n - 1 && !(text.get_char(k) == '\n' && text.get_char(k + 1) == '\n')
            invariant
                n == text@.len(),
                n >= 2,
                pos <= k,
                k <= n,
                pos0 == pos as int,
                first_sep_from(text@, pos as int) == first_sep_from(text@, k as int),
            decreases n - k,
        {
            k = k + 1;
        }
        let sep_found = k < n - 1;
        proof {
            lemma_first_sep_from_range(text@, pos0);
            if sep_found {
                assert(first_sep_from(text@, pos0) == Some(k as int));
            } else {
                assert(k as int + 2 > n as int);
                assert(first_sep_from(text@, pos0) is None);
            }
        }
        let para_end: usize = if sep_found {
            k
        } else {
            n
        };
        let ghost para = text@.subrange(pos0, para_end as int);
        let para_len = para_end - pos;
        proof {
            reveal_strlit("\n\n");
        }
        if para_len > 24000 || cur + para_len > 24000 {
            proof {
                assert(chunked_from(text@, pos0, cur0) =~= Seq::<char>::empty());
                assert(chunked_from(text@, 0, 0) =~= pre);
            }
            done = true;
        } else {
            let piece = text.substring_char(pos, para_end);
            out.append(piece);
            out.append("\n\n");
            cur = cur + para_len + 2;
            if sep_found {
                pos = k + 2;
                proof {
                    assert(chunked_from(text@, pos0, cur0) =~= para + "\n\n"@ + chunked_from(
                        text@,
                        pos as int,
                        cur as int,
                    ));
                    assert(out@ =~= pre + (para + "\n\n"@));
                    assert(out@ + chunked_from(text@, pos as int, cur as int) =~= pre
                        + chunked_from(text@, pos0, cur0));
                }
            } else {
                done = true;
                proof {
                    assert(chunked_from(text@, pos0, cur0) =~= para + "\n\n"@);
                    assert(out@ =~= pre + (para + "\n\n"@));
                    assert(chunked_from(text@, 0, 0) =~= out@);
                }
            }
        }
    }
    let pct = (cur * 100) / n;
    if n > cur {
        out.append("\n\n[Content extracted: ~");
        let digits = crate::strutil::usize_to_string(pct);
        out.append(digits.as_str());
        out.append("% of original page. Focused on main content and removed boilerplate.]");
    }
    assert(out@ =~= chunked_of(text@));
    out
}

/// Whether a character is blank for the purposes of content detection.
pub open spec fn is_blank_char(c: char) -> bool {
    c == ' ' || c == '\t' || c == '\n' || c == '\r'
}

/// Whether an extracted text is substantial enough to stand as the main
/// content: longer than two hundred characters and not all blank.
pub open spec fn is_substantial(t: Seq<char>) -> bool {
    t.len() > 200 && exists|i: int| 0 <= i < t.len() && !is_blank_char(#[trigger] t[i])
}

/// The candidate texts, as mathematical values.
pub open spec fn candidates_view(s: Seq<Option<String>>) -> Seq<Option<Seq<char>>> {
    s.map_values(
        |o: Option<String>|
            match o {
                Option::None => None::<Seq<char>>,
                Option::Some(t) => Some(t@),
            },
    )
}

/// The first substantial candidate, if any.
pub open spec fn chosen_content(cands: Seq<Option<Seq<char>>>) -> Option<Seq<char>>
    decreases cands.len(),
{
    if cands.len() == 0 {
        None
    } else {
        match cands[0] {
            Option::Some(t) => if is_substantial(t) {
                Some(t)
            } else {
                chosen_content(cands.drop_first())
            },
            Option::None => chosen_content(cands.drop_first()),
        }
    }
}

fn substantial(t: &str) -> (r: bool)
    ensures
        r == is_substantial(t@),
{
    let n = t.unicode_len();
    if n <= 200 {
        return false;
    }
    let mut i: usize = 0;
    while i < n
        invariant
            n == t@.len(),
            n > 200,
            i <= n,
            forall|j: int| 0 <= j < i ==> is_blank_char(#[trigger] t@[j]),
        decreases n - i,
    {
        let c = t.get_char(i);
        if !(c == ' ' || c == '\t' || c == '\n' || c == '\r') {
            proof {
                assert((i as int) < t@.len() && !is_blank_char(t@[i as int]));
                assert(is_substantial(t@));
            }
            return true;
        }
        i = i + 1;
    }
    false
}

/// Pick the main content: the first extracted candidate that is
/// substantial, else the fallback text extracted from the whole page.
pub fn choose_main_content(candidates: &Vec<Option<String>>, fallback: String) -> (r: String)
    ensures
        (match chosen_content(candidates_view(candidates@)) {
            Option::Some(t) => r@ == t,
            Option::None => r == fallback,
        }),
{
    let ghost cv = candidates_view(candidates@);
    let n = candidates.len();
    let mut i: usize = 0;
    proof {
        assert(cv.skip(0int) =~= cv);
    }
    while i < n
        invariant
            n == candidates@.len(),
            cv == candidates_view(candidates@),
            cv.len() == n,
            i <= n,
            chosen_content(cv) == chosen_content(cv.skip(i as int)),
        decreases n - i,
    {
        proof {
            assert(cv.skip(i as int).drop_first() =~= cv.skip(i as int + 1));
            assert(cv.skip(i as int)[0] == cv[i as int]);
        }
        match &candidates[i] {
            Some(t) => {
                if substantial(t.as_str()) {
                    return t.clone();
                }
            },
            None => {},
        }
        i = i + 1;
    }
    proof {
        assert(cv.skip(n as int) =~= Seq::<Option<Seq<char>>>::empty());
    }
    fallback
}

} // verus!
