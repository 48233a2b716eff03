//! What the screen detectors print, read as the bot reads it.
//!
//! A detector prints either `Could not detect` or one line per match, each
//! holding the corners `x1 y1 x2 y2` of the matched region.

use vstd::prelude::*;
use crate::text::{
    chars_of, count_lines, line_count, parse_i32, parse_i32_text, reads_as, split_at_char,
    split_on, split_words, trim, trimmed, views, words,
};

verus! {

/// A rectangle on screen, given by two opposite corners.
#[derive(PartialEq, Eq, Structural, Clone, Copy, Debug)]
pub struct Region {
    pub x1: i32,
    pub y1: i32,
    pub x2: i32,
    pub y2: i32,
}

/// How the bot reads one line of detector output.
#[derive(PartialEq, Eq, Structural, Clone, Copy, Debug)]
pub enum Finding {
    /// `Could not detect`, or an empty line.
    Missing,
    /// Exactly four integers: a matched region.
    Found(Region),
    /// Integers, but not four of them: the line is passed over.
    Ignored,
    /// A word that is not an `i32`: the bot gives up.
    Malformed,
}

/// Whether every word is an `i32`.
pub open spec fn all_numbers(ws: Seq<Seq<char>>) -> bool {
    forall|i: int| 0 <= i < ws.len() ==> (#[trigger] parse_i32(ws[i])) is Some
}

/// The value of the `i`-th word, where it is an `i32`.
pub open spec fn number_at(ws: Seq<Seq<char>>, i: int) -> i32 {
    parse_i32(ws[i])->0
}

/// The numbers of a line that holds only numbers.
pub open spec fn line_numbers(l: Seq<char>) -> Option<Seq<i32>> {
    let ws = words(l);
    if all_numbers(ws) {
        Some(Seq::new(ws.len(), |i: int| number_at(ws, i)))
    } else {
        None
    }
}

/// The finding a line of output stands for, when it is not a miss.
pub open spec fn numbers_finding(l: Seq<char>) -> Finding {
    match line_numbers(l) {
        None => Finding::Malformed,
        Some(v) => if v.len() == 4 {
            Finding::Found(Region { x1: v[0], y1: v[1], x2: v[2], y2: v[3] })
        } else {
            Finding::Ignored
        },
    }
}

/// Whether a line of output reports a miss: `Could not detect`, or empty.
pub open spec fn is_miss_line(l: Seq<char>) -> bool {
    l == "Could not detect"@ || l.len() == 0
}

/// How one line of output is read where a line may report a miss.
pub open spec fn finding_of(l: Seq<char>) -> Finding {
    if is_miss_line(l) {
        Finding::Missing
    } else {
        numbers_finding(l)
    }
}

/// The lines of a detector's output, after trimming it.
pub open spec fn output_lines(out: Seq<char>) -> Seq<Seq<char>> {
    split_on(trim(out), '\n')
}

/// The findings of a detector's output, one per line.
pub open spec fn findings(out: Seq<char>) -> Seq<Finding> {
    output_lines(out).map_values(|l: Seq<char>| finding_of(l))
}

/// Whether a detector reported a match at all.
pub open spec fn detected(out: Seq<char>) -> bool {
    trim(out) != "Could not detect"@
}

/// Whether the (trimmed) output reports a match: it is not
/// `Could not detect`.
pub fn was_detected(out: &str) -> (r: bool)
    ensures
        r == detected(out@),
{
    let t = trimmed(&chars_of(out));
    !reads_as(&t, "Could not detect")
}

/// Reads the numbers of a line made only of numbers.
fn read_numbers(l: &Vec<char>) -> (r: Option<Vec<i32>>)
    ensures
        match r {
            None => line_numbers(l@) is None,
            Some(v) => line_numbers(l@) == Some(v@),
        },
{
    let ws = split_words(l);
    let ghost wsv = words(l@);
    let mut out: Vec<i32> = Vec::new();
    let mut k: usize = 0;
    while k < ws.len()
        invariant
            views(ws@) == wsv,
            wsv == words(l@),
            k <= ws@.len(),
            out@.len() == k,
            forall|i: int| 0 <= i < k ==> (#[trigger] parse_i32(wsv[i])) is Some,
            forall|i: int| 0 <= i < k ==> out@[i] == number_at(wsv, i),
        decreases ws@.len() - k,
    {
        assert(wsv[k as int] == ws@[k as int]@);
        match parse_i32_text(&ws[k]) {
            None => {
                assert(parse_i32(wsv[k as int]) is None);
                return None;
            },
            Some(v) => {
                out.push(v);
            },
        }
        k = k + 1;
    }
    assert(out@ =~= Seq::new(wsv.len(), |i: int| number_at(wsv, i)));
    Some(out)
}

/// Reads a line that may report a miss.
fn read_finding(l: &Vec<char>) -> (r: Finding)
    ensures
        r == finding_of(l@),
{
    if reads_as(l, "Could not detect") || l.len() == 0 {
        return Finding::Missing;
    }
    read_numbers_finding(l)
}

/// Reads a line that holds numbers only.
fn read_numbers_finding(l: &Vec<char>) -> (r: Finding)
    ensures
        r == numbers_finding(l@),
{
    match read_numbers(l) {
        None => Finding::Malformed,
        Some(v) => if v.len() == 4 {
            Finding::Found(Region { x1: v[0], y1: v[1], x2: v[2], y2: v[3] })
        } else {
            Finding::Ignored
        },
    }
}

/// The findings of a detector's output: the trimmed output cut into lines,
/// each read as a miss, a region, a line to pass over or a malformed line.
pub fn read_findings(out: &str) -> (r: Vec<Finding>)
    ensures
        r@ == findings(out@),
{
    let t = trimmed(&chars_of(out));
    let lines = split_at_char(&t, '\n');
    let ghost ls = output_lines(out@);
    let mut r: Vec<Finding> = Vec::new();
    let mut k: usize = 0;
    while k < lines.len()
        invariant
            views(lines@) == ls,
            k <= lines@.len(),
            r@.len() == k,
            forall|i: int| 0 <= i < k ==> r@[i] == finding_of(ls[i]),
        decreases lines@.len() - k,
    {
        assert(ls[k as int] == lines@[k as int]@);
        let f = read_finding(&lines[k]);
        r.push(f);
        k = k + 1;
    }
    assert(r@ =~= findings(out@));
    r
}

/// The findings of a pouch detector's output: the lines of the text, each
/// read as numbers only (no line is taken for a miss).
pub open spec fn pouch_findings(coords: Seq<char>) -> Seq<Finding> {
    split_on(coords, '\n').map_values(|l: Seq<char>| numbers_finding(l))
}

/// Reads the lines of a pouch detector's output.
pub fn read_pouch_findings(coords: &Vec<char>) -> (r: Vec<Finding>)
    ensures
        r@ == pouch_findings(coords@),
{
    let lines = split_at_char(coords, '\n');
    let ghost ls = split_on(coords@, '\n');
    let mut r: Vec<Finding> = Vec::new();
    let mut k: usize = 0;
    while k < lines.len()
        invariant
            views(lines@) == ls,
            k <= lines@.len(),
            r@.len() == k,
            forall|i: int| 0 <= i < k ==> r@[i] == numbers_finding(ls[i]),
        decreases lines@.len() - k,
    {
        assert(ls[k as int] == lines@[k as int]@);
        let f = read_numbers_finding(&lines[k]);
        r.push(f);
        k = k + 1;
    }
    assert(r@ =~= pouch_findings(coords@));
    r
}

/// The `i`-th corner value of an output read leniently: a missing word or
/// one that is not an `i32` counts as 0.
pub open spec fn lenient_at(ws: Seq<Seq<char>>, i: int) -> i32 {
    if i < ws.len() {
        match parse_i32(ws[i]) {
            Some(v) => v,
            None => 0,
        }
    } else {
        0
    }
}

/// The region that an output names when its first four words are read
/// leniently.
pub open spec fn lenient_region(out: Seq<char>) -> Region {
    let ws = words(out);
    Region { x1: lenient_at(ws, 0), y1: lenient_at(ws, 1), x2: lenient_at(ws, 2), y2: lenient_at(ws, 3) }
}

fn lenient_word(ws: &Vec<Vec<char>>, i: usize) -> (r: i32)
    ensures
        r == lenient_at(views(ws@), i as int),
{
    if i < ws.len() {
        match parse_i32_text(&ws[i]) {
            Some(v) => v,
            None => 0,
        }
    } else {
        0
    }
}

/// Reads the first four words of an output as a region, each missing or
/// unreadable word counting as 0.
pub fn read_region_leniently(out: &str) -> (r: Region)
    ensures
        r == lenient_region(out@),
{
    let ws = split_words(&chars_of(out));
    Region {
        x1: lenient_word(&ws, 0),
        y1: lenient_word(&ws, 1),
        x2: lenient_word(&ws, 2),
        y2: lenient_word(&ws, 3),
    }
}

/// The amount of gold that a text-reading detector reports: 0 for
/// `No text detected` or `0`, else the number it prints; `None` where it
/// prints something else (the bot gives up).
pub open spec fn gold_reading(out: Seq<char>) -> Option<i32> {
    let t = trim(out);
    if t == "No text detected"@ || t == "0"@ {
        Some(0)
    } else {
        parse_i32(t)
    }
}

/// Reads the amount of gold that a text-reading detector printed.
pub fn read_gold(out: &str) -> (r: Option<i32>)
    ensures
        r == gold_reading(out@),
{
    let t = trimmed(&chars_of(out));
    if reads_as(&t, "No text detected") || reads_as(&t, "0") {
        Some(0)
    } else {
        parse_i32_text(&t)
    }
}

/// The number of pouches that a pouch detector reports: none where it
/// prints `Could not detect`, else one per line of its trimmed output.
pub open spec fn pouch_count(out: Seq<char>) -> i32 {
    if trim(out) == "Could not detect"@ {
        0
    } else {
        line_count(trim(out)) as i32
    }
}

/// Counts the pouches that a pouch detector reports.
pub fn count_pouches(out: &str) -> (r: i32)
    ensures
        r == pouch_count(out@),
{
    let t = trimmed(&chars_of(out));
    if reads_as(&t, "Could not detect") {
        0
    } else {
        #[verifier::truncate]
        (count_lines(&t) as i32)
    }
}

} // verus!
