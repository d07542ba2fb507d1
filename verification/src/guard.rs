//! Screening interchange text before it is handed to the external parser.
//!
//! The parser maps a negative face index `x` to `max - x` in machine
//! arithmetic, where `max` is one past the table size. For an index near the
//! most negative machine integer that subtraction overflows, and a build
//! with overflow checks aborts instead of returning a parse error. Such an
//! index token has at least nineteen digits after its minus sign, while any
//! index that could resolve has far fewer, so this module scans the text —
//! bytewise, with the lexer's own word, comment and line rules — for a face
//! or line statement holding a minus-prefixed run of nineteen or more
//! digits, and the loader rejects the text outright when one is found.
//! (Under exact arithmetic the parser rejects every such statement too:
//! `max - x` is never below `max`.)

use vstd::prelude::*;

verus! {

/// The scanner's state after reading a prefix of the text's bytes.
#[derive(Clone, Copy)]
pub struct ScanState {
    /// Inside a comment: from a `#` up to the next newline.
    pub in_comment: bool,
    /// No word has ended on the current line yet.
    pub line_start: bool,
    /// The current line's first word was exactly "f" or "l".
    pub face_line: bool,
    /// Inside a word.
    pub in_word: bool,
    /// What the current word looks like so far: 0 outside a word, 1 for
    /// "f", 2 for "l", 3 for anything else.
    pub keyword: u8,
    /// The current index component: 254 right after a `/`, 0 to 19 counting
    /// the digits of a minus-prefixed run (capped at 19), 255 otherwise.
    pub dash_digits: u8,
    /// A face or line statement held a minus-prefixed run of nineteen
    /// digits.
    pub found: bool,
}

/// The state before any byte is read.
pub open spec fn scan_init() -> ScanState {
    ScanState {
        in_comment: false,
        line_start: true,
        face_line: false,
        in_word: false,
        keyword: 0,
        dash_digits: 255,
        found: false,
    }
}

/// Whether this byte separates words without ending the line.
pub open spec fn is_blank(b: u8) -> bool {
    b == 32 || b == 9 || b == 13
}

/// The word just ended: remember whether the line opened with a face or
/// line keyword.
pub open spec fn end_word(st: ScanState) -> ScanState {
    if st.in_word {
        ScanState {
            face_line: st.face_line || (st.line_start && (st.keyword == 1 || st.keyword == 2)),
            line_start: false,
            in_word: false,
            keyword: 0,
            dash_digits: 255,
            ..st
        }
    } else {
        st
    }
}

/// The state after one more byte of text.
pub open spec fn scan_step(st: ScanState, b: u8) -> ScanState {
    if st.in_comment {
        if b == 10 {
            ScanState { in_comment: false, line_start: true, face_line: false, ..st }
        } else {
            st
        }
    } else if b == 10 {
        ScanState { line_start: true, face_line: false, ..end_word(st) }
    } else if b == 35 {
        ScanState { in_comment: true, ..end_word(st) }
    } else if is_blank(b) {
        end_word(st)
    } else if !st.in_word {
        ScanState {
            in_word: true,
            keyword: if b == 102 { 1 } else if b == 108 { 2 } else { 3 },
            dash_digits: if b == 47 { 254 } else if b == 45 { 0 } else { 255 },
            ..st
        }
    } else {
        let dash = if b == 47 {
            254u8
        } else if st.dash_digits == 254 {
            if b == 45 { 0 } else { 255 }
        } else if st.dash_digits <= 18 {
            if 48 <= b <= 57 { (st.dash_digits + 1) as u8 } else { 255 }
        } else {
            st.dash_digits
        };
        ScanState {
            keyword: 3,
            dash_digits: dash,
            found: st.found || (st.face_line && dash == 19),
            ..st
        }
    }
}

/// The scanner's state after the first `n` bytes.
pub open spec fn scan_upto(bytes: Seq<u8>, n: int) -> ScanState
    decreases n,
{
    if n <= 0 {
        scan_init()
    } else {
        scan_step(scan_upto(bytes, n - 1), bytes[n - 1])
    }
}

proof fn lemma_scan_upto_zero(bytes: Seq<u8>)
    ensures
        scan_upto(bytes, 0) == scan_init(),
{
    reveal_with_fuel(scan_upto, 1);
}

proof fn lemma_scan_upto_step(bytes: Seq<u8>, n: int)
    requires
        0 <= n,
    ensures
        scan_upto(bytes, n + 1) == scan_step(scan_upto(bytes, n), bytes[n]),
{
    reveal_with_fuel(scan_upto, 1);
}

/// The text, read with the lexer's word, comment and line rules, holds a
/// face or line statement with a minus-prefixed index run of nineteen or
/// more digits — an index on which the parser's relative-index adjustment
/// can overflow.
pub open spec fn overflowing_face_index(bytes: Seq<u8>) -> bool {
    scan_upto(bytes, bytes.len() as int).found
}

fn scan_step_exec(st: ScanState, b: u8) -> (r: ScanState)
    ensures
        r == scan_step(st, b),
{
    if st.in_comment {
        if b == 10 {
            ScanState { in_comment: false, line_start: true, face_line: false, ..st }
        } else {
            st
        }
    } else if b == 10 || b == 35 || b == 32 || b == 9 || b == 13 {
        let ended = if st.in_word {
            ScanState {
                face_line: st.face_line || (st.line_start && (st.keyword == 1 || st.keyword
                    == 2)),
                line_start: false,
                in_word: false,
                keyword: 0,
                dash_digits: 255,
                ..st
            }
        } else {
            st
        };
        if b == 10 {
            ScanState { line_start: true, face_line: false, ..ended }
        } else if b == 35 {
            ScanState { in_comment: true, ..ended }
        } else {
            ended
        }
    } else if !st.in_word {
        ScanState {
            in_word: true,
            keyword: if b == 102 { 1 } else if b == 108 { 2 } else { 3 },
            dash_digits: if b == 47 { 254 } else if b == 45 { 0 } else { 255 },
            ..st
        }
    } else {
        let dash: u8 = if b == 47 {
            254
        } else if st.dash_digits == 254 {
            if b == 45 { 0 } else { 255 }
        } else if st.dash_digits <= 18 {
            if 48 <= b && b <= 57 { st.dash_digits + 1 } else { 255 }
        } else {
            st.dash_digits
        };
        ScanState {
            keyword: 3,
            dash_digits: dash,
            found: st.found || (st.face_line && dash == 19),
            ..st
        }
    }
}

/// Whether this text holds a face or line statement with an index token the
/// parser's relative-index adjustment could overflow on.
pub fn has_overflowing_face_index(text: &str) -> (r: bool)
    ensures
        r == overflowing_face_index(vstd::utf8::encode_utf8(text@)),
{
    let bytes = text.as_bytes();
    let ghost bs = vstd::utf8::encode_utf8(text@);
    proof {
        assert(bytes@ == bs);
    }
    let n = bytes.len();
    let mut st = ScanState {
        in_comment: false,
        line_start: true,
        face_line: false,
        in_word: false,
        keyword: 0,
        dash_digits: 255,
        found: false,
    };
    let mut i: usize = 0;
    proof {
        lemma_scan_upto_zero(bs);
        assert(st == scan_upto(bs, 0));
    }
    while i < n
        invariant
            i <= n,
            n == bs.len(),
            bytes@ == bs,
            st == scan_upto(bs, i as int),
        decreases n - i,
    {
        st = scan_step_exec(st, bytes[i]);
        proof {
            lemma_scan_upto_step(bs, i as int);
        }
        i = i + 1;
    }
    st.found
}

} // verus!
