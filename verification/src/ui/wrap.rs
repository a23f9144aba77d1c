//! Breaking a text into lines that fit a width.

use vstd::prelude::*;

verus! {

/// Whether a character is white space, as the Unicode standard says.
pub open spec fn spec_is_whitespace(c: char) -> bool {
    let v = c as u32;
    ||| 0x09 <= v <= 0x0D
    ||| v == 0x20
    ||| v == 0x85
    ||| v == 0xA0
    ||| v == 0x1680
    ||| 0x2000 <= v <= 0x200A
    ||| v == 0x2028
    ||| v == 0x2029
    ||| v == 0x202F
    ||| v == 0x205F
    ||| v == 0x3000
}

/// Whether a character begins a word: it is in the ASCII range and no
/// blank.
pub open spec fn spec_begins_word(c: char) -> bool {
    (c as u32) < 0x80 && c != ' '
}

/// How many bytes the UTF-8 encoding of a character takes.
pub open spec fn char_len(c: char) -> int {
    let v = c as u32;
    if v < 0x80 {
        1
    } else if v < 0x800 {
        2
    } else if v < 0x10000 {
        3
    } else {
        4
    }
}

/// How many bytes the characters of `text` from index `a` up to index
/// `b` take in UTF-8.
pub open spec fn bytes_len(text: Seq<char>, a: int, b: int) -> int
    decreases b - a,
{
    if b <= a {
        0
    } else {
        bytes_len(text, a, b - 1) + char_len(text[b - 1])
    }
}

/// The least index from `from` on at which a white space stands, or the
/// length of the text where none does.
pub open spec fn find_space(text: Seq<char>, from: int) -> int
    decreases text.len() - from,
{
    if from < 0 || from >= text.len() {
        text.len() as int
    } else if spec_is_whitespace(text[from]) {
        from
    } else {
        find_space(text, from + 1)
    }
}

/// The least index from `from` on at which a word begins, or the length
/// of the text where none does.
pub open spec fn find_word(text: Seq<char>, from: int) -> int
    decreases text.len() - from,
{
    if from < 0 || from >= text.len() {
        text.len() as int
    } else if spec_begins_word(text[from]) {
        from
    } else {
        find_word(text, from + 1)
    }
}

/// Where the part of `text` from `a` up to `b` ends once the white space
/// at its end is taken off.
pub open spec fn trimmed_end(text: Seq<char>, a: int, b: int) -> int
    decreases b - a,
{
    if b <= a {
        a
    } else if spec_is_whitespace(text[b - 1]) {
        trimmed_end(text, a, b - 1)
    } else {
        b
    }
}

/// Whether the only white space of the ASCII range in a text is the
/// blank: no tabs and no line breaks.
pub open spec fn blanks_only(text: Seq<char>) -> bool {
    forall|i: int|
        0 <= i < text.len() && spec_is_whitespace(#[trigger] text[i]) && (text[i] as u32) < 0x80
            ==> text[i] == ' '
}

/// Whether a piece of `piece` bytes still fits on a line that holds `line`
/// bytes already, in a frame `framex` columns wide with `margin` columns
/// kept free.
pub open spec fn fits(line: int, piece: int, margin: int, framex: int) -> bool {
    line + piece + margin < framex
}

/// The lines that a text is broken into, each given by the indices at
/// which it begins and ends in the text.
///
/// The text is taken word by word and gap by gap, from index `pos` on;
/// the line in progress begins at `start` and ends at `pos`. A word or a
/// gap that still fits is added to the line in progress. One that does
/// not ends the line, which is put down without the white space at its
/// end; a word then begins the next line, a gap is dropped. At the last
/// word, the line is put down with the word, or before it and the word
/// after it. A text that ends in a gap loses the line that was in
/// progress.
pub open spec fn wrap(
    text: Seq<char>,
    framex: int,
    margin: int,
    pos: int,
    start: int,
    lines: Seq<(int, int)>,
) -> Seq<(int, int)>
    decreases text.len() - pos,
{
    let n = text.len() as int;
    let w = find_space(text, pos);
    if w >= n {
        if pos < n {
            if fits(bytes_len(text, start, pos), bytes_len(text, pos, n), margin, framex) {
                lines.push((start, n))
            } else {
                lines.push((start, pos)).push((pos, n))
            }
        } else {
            lines
        }
    } else {
        let word_fits = fits(bytes_len(text, start, pos), bytes_len(text, pos, w), margin, framex);
        let start1 = if word_fits {
            start
        } else {
            pos
        };
        let lines1 = if word_fits {
            lines
        } else {
            lines.push((start, trimmed_end(text, start, pos)))
        };
        let g = find_word(text, w);
        if g >= n {
            lines1
        } else {
            let gap_fits = fits(bytes_len(text, start1, w), bytes_len(text, w, g), margin, framex);
            let start2 = if gap_fits {
                start1
            } else {
                g
            };
            let lines2 = if gap_fits {
                lines1
            } else {
                lines1.push((start1, trimmed_end(text, start1, w)))
            };
            if g > pos {
                wrap(text, framex, margin, g, start2, lines2)
            } else {
                lines2
            }
        }
    }
}

/// Decides whether a character is white space.
pub fn is_whitespace(c: char) -> (b: bool)
    ensures
        b == spec_is_whitespace(c),
{
    let v = c as u32;
    (0x09 <= v && v <= 0x0D) || v == 0x20 || v == 0x85 || v == 0xA0 || v == 0x1680 || (0x2000 <= v
        && v <= 0x200A) || v == 0x2028 || v == 0x2029 || v == 0x202F || v == 0x205F || v == 0x3000
}

/// Decides whether a character begins a word.
pub fn begins_word(c: char) -> (b: bool)
    ensures
        b == spec_begins_word(c),
{
    (c as u32) < 0x80 && c != ' '
}

/// How many bytes the UTF-8 encoding of a character takes.
pub fn len_utf8(c: char) -> (n: usize)
    ensures
        n == char_len(c),
        1 <= n <= 4,
{
    let v = c as u32;
    if v < 0x80 {
        1
    } else if v < 0x800 {
        2
    } else if v < 0x10000 {
        3
    } else {
        4
    }
}

/// A stretch of a text takes no fewer bytes than a part of it, and never
/// fewer than none.
pub proof fn lemma_bytes_len_grows(text: Seq<char>, a: int, b: int, c: int)
    requires
        a <= b <= c,
    ensures
        0 <= bytes_len(text, a, b) <= bytes_len(text, a, c),
    decreases c - a,
{
    if c > a {
        if b < c {
            lemma_bytes_len_grows(text, a, b, c - 1);
        } else {
            lemma_bytes_len_grows(text, a, b - 1, c - 1);
        }
    }
}

/// The bytes of two stretches that follow one another add up.
pub proof fn lemma_bytes_len_split(text: Seq<char>, a: int, b: int, c: int)
    requires
        a <= b <= c,
    ensures
        bytes_len(text, a, c) == bytes_len(text, a, b) + bytes_len(text, b, c),
    decreases c - b,
{
    if c > b {
        lemma_bytes_len_split(text, a, b, c - 1);
    }
}

/// Finds the least index from `from` on at which a white space stands.
pub fn scan_space(text: &Vec<char>, from: usize) -> (w: usize)
    requires
        from <= text.len(),
    ensures
        w == find_space(text@, from as int),
        from <= w <= text.len(),
        w < text.len() ==> spec_is_whitespace(text@[w as int]),
{
    let mut i = from;
    while i < text.len()
        invariant
            from <= i <= text.len(),
            find_space(text@, from as int) == find_space(text@, i as int),
        decreases text.len() - i,
    {
        if is_whitespace(text[i]) {
            return i;
        }
        i += 1;
    }
    i
}

/// Finds the least index from `from` on at which a word begins.
pub fn scan_word(text: &Vec<char>, from: usize) -> (g: usize)
    requires
        from <= text.len(),
    ensures
        g == find_word(text@, from as int),
        from <= g <= text.len(),
        g < text.len() ==> spec_begins_word(text@[g as int]),
{
    let mut i = from;
    while i < text.len()
        invariant
            from <= i <= text.len(),
            find_word(text@, from as int) == find_word(text@, i as int),
        decreases text.len() - i,
    {
        if begins_word(text[i]) {
            return i;
        }
        i += 1;
    }
    i
}

/// Finds where a stretch of a text ends once the white space at its end
/// is taken off.
pub fn trim_end(text: &Vec<char>, a: usize, b: usize) -> (e: usize)
    requires
        a <= b <= text.len(),
    ensures
        e == trimmed_end(text@, a as int, b as int),
        a <= e <= b,
{
    let mut e = b;
    while e > a
        invariant
            a <= e <= b,
            b <= text.len(),
            trimmed_end(text@, a as int, b as int) == trimmed_end(text@, a as int, e as int),
        decreases e - a,
    {
        if !is_whitespace(text[e - 1]) {
            return e;
        }
        e -= 1;
    }
    e
}

/// Counts the bytes that a stretch of a text takes in UTF-8.
pub fn count_bytes(text: &Vec<char>, a: usize, b: usize) -> (n: usize)
    requires
        a <= b <= text.len(),
        bytes_len(text@, 0, text@.len() as int) <= usize::MAX,
    ensures
        n == bytes_len(text@, a as int, b as int),
{
    let mut n: usize = 0;
    let mut i = a;
    proof {
        lemma_bytes_len_split(text@, 0, a as int, text@.len() as int);
        lemma_bytes_len_grows(text@, 0, a as int, text@.len() as int);
    }
    while i < b
        invariant
            a <= i <= b,
            b <= text.len(),
            n == bytes_len(text@, a as int, i as int),
            bytes_len(text@, a as int, text@.len() as int) <= usize::MAX,
        decreases b - i,
    {
        proof {
            lemma_bytes_len_grows(text@, a as int, i as int + 1, text@.len() as int);
        }
        n = n + len_utf8(text[i]);
        i += 1;
    }
    n
}

/// Breaks a text into lines that fit a frame `framex` columns wide with
/// `margin` columns kept free. Each line is given by the indices at which
/// it begins and ends in the text.
pub fn wrap_lines(text: &Vec<char>, framex: usize, margin: usize) -> (lines: Vec<(usize, usize)>)
    requires
        blanks_only(text@),
        bytes_len(text@, 0, text@.len() as int) + margin <= usize::MAX,
    ensures
        lines@.len() == wrap(text@, framex as int, margin as int, 0, 0, Seq::empty()).len(),
        forall|i: int|
            0 <= i < lines@.len() ==> {
                &&& (#[trigger] lines@[i]).0 <= lines@[i].1 <= text@.len()
                &&& (lines@[i].0 as int, lines@[i].1 as int) == wrap(
                    text@,
                    framex as int,
                    margin as int,
                    0,
                    0,
                    Seq::empty(),
                )[i]
            },
{
    let n = text.len();
    let mut lines: Vec<(usize, usize)> = Vec::new();
    let mut pos: usize = 0;
    let mut start: usize = 0;
    let ghost goal = wrap(text@, framex as int, margin as int, 0, 0, Seq::empty());
    let ghost mut done: Seq<(int, int)> = Seq::empty();
    proof {
        lemma_bytes_len_grows(text@, 0, 0, n as int);
    }
    loop
        invariant_except_break
            goal == wrap(text@, framex as int, margin as int, pos as int, start as int, done),
        invariant
            n == text.len(),
            blanks_only(text@),
            bytes_len(text@, 0, n as int) + margin <= usize::MAX,
            start <= pos <= n,
            done.len() == lines@.len(),
            forall|i: int|
                0 <= i < lines@.len() ==> (#[trigger] lines@[i]).0 <= lines@[i].1 <= n && (
                lines@[i].0 as int, lines@[i].1 as int) == done[i],
        ensures
            goal.len() == lines@.len(),
            forall|i: int|
                0 <= i < lines@.len() ==> (#[trigger] lines@[i]).0 <= lines@[i].1 <= n && (
                lines@[i].0 as int, lines@[i].1 as int) == goal[i],
        decreases n - pos,
    {
        proof {
            lemma_bytes_len_grows(text@, 0, start as int, n as int);
            lemma_bytes_len_split(text@, 0, start as int, n as int);
            lemma_bytes_len_split(text@, start as int, pos as int, n as int);
            lemma_bytes_len_grows(text@, start as int, pos as int, n as int);
            lemma_bytes_len_grows(text@, pos as int, pos as int, n as int);
        }
        let w = scan_space(text, pos);
        let line_len = count_bytes(text, start, pos);
        if w >= n {
            if pos < n {
                let rest = count_bytes(text, pos, n);
                if line_len + rest + margin < framex {
                    lines.push((start, n));
                    proof {
                        done = done.push((start as int, n as int));
                    }
                } else {
                    lines.push((start, pos));
                    lines.push((pos, n));
                    proof {
                        done = done.push((start as int, pos as int)).push((pos as int, n as int));
                    }
                }
            }
            break ;
        }
        proof {
            lemma_bytes_len_split(text@, pos as int, w as int, n as int);
            lemma_bytes_len_grows(text@, pos as int, w as int, n as int);
            lemma_bytes_len_grows(text@, w as int, w as int, n as int);
        }
        let word_len = count_bytes(text, pos, w);
        if !(line_len + word_len + margin < framex) {
            let e = trim_end(text, start, pos);
            lines.push((start, e));
            proof {
                done = done.push((start as int, e as int));
            }
            start = pos;
        }
        let g = scan_word(text, w);
        if g >= n {
            break ;
        }
        proof {
            lemma_bytes_len_split(text@, 0, start as int, n as int);
            lemma_bytes_len_grows(text@, 0, start as int, n as int);
            lemma_bytes_len_split(text@, start as int, w as int, n as int);
            lemma_bytes_len_split(text@, w as int, g as int, n as int);
            lemma_bytes_len_grows(text@, w as int, g as int, n as int);
            lemma_bytes_len_grows(text@, g as int, g as int, n as int);
            lemma_bytes_len_grows(text@, start as int, w as int, n as int);
        }
        let head_len = count_bytes(text, start, w);
        let gap_len = count_bytes(text, w, g);
        if !(head_len + gap_len + margin < framex) {
            let e = trim_end(text, start, w);
            lines.push((start, e));
            proof {
                done = done.push((start as int, e as int));
            }
            start = g;
        }
        assert(g > w);
        pos = g;
    }
    lines
}

} // verus!
