//! What is asked of a source before it goes to the parser.
//!
//! The parser stops the program on three kinds of source, and these are kept
//! from it:
//!
//! - a `#version` whose number is above 65535;
//! - the integer `2147483648` under a minus sign, in any of its three
//!   spellings, which the parser negates as a 32-bit number;
//! - nesting beyond what the parser's stack and patience hold. The parser
//!   goes one step deeper for every open bracket, for every `if`, `for`,
//!   `while`, `switch`, `do` and `else` whose body it is in, and for every
//!   operator of an unfinished expression; and it reads what follows a `(`
//!   twice, so that its time doubles with every `(` inside another.
//!
//! The third is measured by a scan over the bytes of the source that weighs
//! what is open at each byte; comments and preprocessor lines weigh nothing.
//! The weights and the budget were set from what the parser was seen to
//! stand, with room to spare.

use vstd::prelude::*;
use vstd::string::StringSliceAdditionalSpecFns;

verus! {

/// The most that may be open at any byte of a source.
pub const BUDGET: u32 = 2048;

/// The most `(` that may be open at once.
pub const MAX_ROUND: u32 = 10;

/// The weight of `if`, `for`, `while`, `switch`, `do` and `else`.
pub const KEYWORD_WEIGHT: u32 = 96;

/// The weight of an open `(` or `[`.
pub const BRACKET_WEIGHT: u32 = 48;

/// The weight of an open `{`.
pub const BRACE_WEIGHT: u32 = 8;

/// The weight of an operator that can stand before its operand or on the
/// left of a chain: `-`, `+`, `!`, `~`, `.`, `=`, `:` and what is not named
/// elsewhere.
pub const OPERATOR_WEIGHT: u32 = 12;

/// The weight of `?`.
pub const TERNARY_WEIGHT: u32 = 24;

/// The weight of an operator that only stands between two operands: `*`,
/// `/`, `%`, `<`, `>`, `&`, `|`, `^`.
pub const BINARY_WEIGHT: u32 = 4;

/// What the scan is reading.
#[derive(Debug, Clone, Copy, PartialEq, Eq, Structural)]
pub enum Mode {
    Code,
    /// Behind `//`, up to the end of the line.
    LineComment,
    /// Behind `/*`, up to `*/`.
    BlockComment,
    /// Behind `#`, up to the end of the line.
    Directive,
}

/// An open bracket: what the statement around it weighed when it opened, the
/// bracket's own weight, and whether it is a `(`.
#[derive(Debug, Clone, Copy, PartialEq, Eq, Structural)]
pub struct Frame {
    pub run: u32,
    pub weight: u32,
    pub round: bool,
    /// How many `?` of the statement around it waited for their `:`.
    pub ternary: u32,
    /// Whether the bracket around it holds a list.
    pub list: bool,
}

/// The scan's state apart from the open brackets.
#[derive(Debug, Clone, Copy, PartialEq, Eq, Structural)]
pub struct Lex {
    pub mode: Mode,
    /// The byte before this one; 0 at the start and where it must not count.
    pub prev: u8,
    /// The byte before this one was a `/` that may open a comment.
    pub slash: bool,
    /// The byte before this one was a `.` that may begin a number.
    pub dot: bool,
    /// The word being read, or the last one read, began with a digit.
    pub number: bool,
    /// How many `?` of the statement wait for their `:`.
    pub ternary: u32,
    /// The last byte of code that was no blank; 0 at the start.
    pub last: u8,
    /// The last word read was no keyword.
    pub plain: bool,
    /// The innermost open bracket holds a list, whose items the parser reads
    /// one after the other: the arguments of a call, or an initializer list.
    pub list: bool,
    /// A statement has ended and no other has begun.
    pub pending: bool,
    /// The last word was `else`.
    pub after_else: bool,
    /// The length of the word being read, up to 7.
    pub word: u8,
    /// Whether the word being read is so far a beginning of `if`, and so on.
    pub is_if: bool,
    pub is_do: bool,
    pub is_for: bool,
    pub is_else: bool,
    pub is_while: bool,
    pub is_switch: bool,
    pub is_return: bool,
    pub is_case: bool,
    /// The weight of the statement being read, within its bracket.
    pub run: u32,
    /// The weight of all that is open around that bracket.
    pub outer: u32,
    /// How many `(` are open.
    pub round: u32,
    /// Whether the weight has stayed within the budget so far.
    pub ok: bool,
}

/// The scan's state: the state proper and the open brackets, innermost last.
pub struct ScanState {
    pub lex: Lex,
    pub stack: Seq<Frame>,
}

pub open spec fn plus_spec(a: u32, b: u32) -> u32 {
    if a + b > u32::MAX {
        u32::MAX
    } else {
        (a + b) as u32
    }
}

pub open spec fn minus_spec(a: u32, b: u32) -> u32 {
    if a >= b {
        (a - b) as u32
    } else {
        0
    }
}

/// The sum, or the largest number where the sum is larger.
pub fn plus(a: u32, b: u32) -> (r: u32)
    ensures
        r == plus_spec(a, b),
{
    match a.checked_add(b) {
        Some(v) => v,
        None => u32::MAX,
    }
}

/// The difference, or 0 where it is below 0.
pub fn minus(a: u32, b: u32) -> (r: u32)
    ensures
        r == minus_spec(a, b),
{
    if a >= b {
        a - b
    } else {
        0
    }
}

/// Whether a byte belongs to a word: a letter, a digit, `_`, or part of a
/// character beyond ASCII.
pub open spec fn is_word_byte(b: u8) -> bool {
    (48 <= b <= 57) || (65 <= b <= 90) || (97 <= b <= 122) || b == 95 || b >= 128
}

/// Whether a byte weighs nothing and ends nothing but a word: blank, tab,
/// line end and `\`.
pub open spec fn is_quiet_byte(b: u8) -> bool {
    b == 32 || b == 9 || b == 10 || b == 13 || b == 92
}

/// Whether a byte is an operator that only stands between two operands.
pub open spec fn is_binary_byte(b: u8) -> bool {
    b == 42 || b == 37 || b == 60 || b == 62 || b == 38 || b == 124 || b == 94
}

/// The byte at place `at` of keyword number `k`: `if`, `do`, `for`, `else`,
/// `while`, `switch`, `return`, `case`; 0 behind its end.
pub open spec fn keyword_byte(k: u8, at: u8) -> u8 {
    if k == 0 {
        if at == 0 { 105 } else if at == 1 { 102 } else { 0 }
    } else if k == 1 {
        if at == 0 { 100 } else if at == 1 { 111 } else { 0 }
    } else if k == 2 {
        if at == 0 { 102 } else if at == 1 { 111 } else if at == 2 { 114 } else { 0 }
    } else if k == 3 {
        if at == 0 { 101 } else if at == 1 { 108 } else if at == 2 { 115 } else if at == 3 {
            101
        } else {
            0
        }
    } else if k == 4 {
        if at == 0 { 119 } else if at == 1 { 104 } else if at == 2 { 105 } else if at == 3 {
            108
        } else if at == 4 {
            101
        } else {
            0
        }
    } else if k == 5 {
        if at == 0 { 115 } else if at == 1 { 119 } else if at == 2 { 105 } else if at == 3 {
            116
        } else if at == 4 {
            99
        } else if at == 5 {
            104
        } else {
            0
        }
    } else if k == 6 {
        if at == 0 { 114 } else if at == 1 { 101 } else if at == 2 { 116 } else if at == 3 {
            117
        } else if at == 4 {
            114
        } else if at == 5 {
            110
        } else {
            0
        }
    } else {
        if at == 0 { 99 } else if at == 1 { 97 } else if at == 2 { 115 } else if at == 3 {
            101
        } else {
            0
        }
    }
}

/// Whether the word stays a beginning of keyword `k` with the byte `b`.
pub open spec fn still_keyword(so_far: bool, word: u8, k: u8, b: u8) -> bool {
    (word == 0 || so_far) && keyword_byte(k, word) == b
}

/// The state after a byte of a word.
#[verifier::opaque]
pub open spec fn word_byte_spec(lex: Lex, b: u8) -> Lex {
    Lex {
        word: if lex.word < 7 { (lex.word + 1) as u8 } else { 7 },
        number: if lex.word == 0 { 48 <= b <= 57 } else { lex.number },
        is_if: still_keyword(lex.is_if, lex.word, 0, b),
        is_do: still_keyword(lex.is_do, lex.word, 1, b),
        is_for: still_keyword(lex.is_for, lex.word, 2, b),
        is_else: still_keyword(lex.is_else, lex.word, 3, b),
        is_while: still_keyword(lex.is_while, lex.word, 4, b),
        is_switch: still_keyword(lex.is_switch, lex.word, 5, b),
        is_return: still_keyword(lex.is_return, lex.word, 6, b),
        is_case: still_keyword(lex.is_case, lex.word, 7, b),
        ..lex
    }
}

/// The weight of the statement when something new is read: nothing is left
/// of a statement that has ended.
pub open spec fn fresh_run(lex: Lex) -> u32 {
    if lex.pending {
        0
    } else {
        lex.run
    }
}

/// The state after the word being read has ended. `else` goes on with the
/// statement before it; an `if` behind `else` weighs nothing more; another
/// keyword weighs on the statement; any other word only begins one. What
/// stands in brackets behind `return` or `case` is no list of arguments.
#[verifier::opaque]
pub open spec fn end_word_spec(lex: Lex) -> Lex {
    if lex.word == 0 {
        lex
    } else if lex.is_else && lex.word == 4 {
        Lex {
            word: 0,
            run: plus_spec(lex.run, KEYWORD_WEIGHT),
            pending: false,
            after_else: true,
            plain: false,
            ..lex
        }
    } else if lex.is_if && lex.word == 2 && lex.after_else {
        Lex { word: 0, pending: false, after_else: false, plain: false, ..lex }
    } else if (lex.is_if && lex.word == 2) || (lex.is_do && lex.word == 2) || (lex.is_for
        && lex.word == 3) || (lex.is_while && lex.word == 5) || (lex.is_switch && lex.word == 6) {
        Lex {
            word: 0,
            run: plus_spec(fresh_run(lex), KEYWORD_WEIGHT),
            pending: false,
            after_else: false,
            plain: false,
            ..lex
        }
    } else {
        Lex {
            word: 0,
            run: fresh_run(lex),
            pending: false,
            after_else: false,
            plain: !((lex.is_return && lex.word == 6) || (lex.is_case && lex.word == 4)),
            ..lex
        }
    }
}

/// The state after an operator of a weight.
#[verifier::opaque]
pub open spec fn operator_spec(lex: Lex, weight: u32) -> Lex {
    Lex { run: plus_spec(fresh_run(lex), weight), pending: false, after_else: false, ..lex }
}

/// The state after an opening bracket: the statement around it waits, with
/// the bracket's weight, and a new one begins inside.
#[verifier::opaque]
pub open spec fn open_spec(s: ScanState, weight: u32, round: bool, list: bool) -> ScanState {
    let run = fresh_run(s.lex);
    ScanState {
        lex: Lex {
            run: 0,
            outer: plus_spec(s.lex.outer, plus_spec(run, weight)),
            round: if round { plus_spec(s.lex.round, 1) } else { s.lex.round },
            ternary: 0,
            list,
            pending: false,
            after_else: false,
            ..s.lex
        },
        stack: s.stack.push(
            Frame { run, weight, round, ternary: s.lex.ternary, list: s.lex.list },
        ),
    }
}

/// The state after a closing bracket: the statement around it goes on; a `}`
/// ends it.
#[verifier::opaque]
pub open spec fn close_spec(s: ScanState, curly: bool) -> ScanState {
    if s.stack.len() == 0 {
        ScanState {
            lex: Lex {
                pending: curly,
                after_else: false,
                ternary: if curly { 0 } else { s.lex.ternary },
                list: false,
                ..s.lex
            },
            stack: s.stack,
        }
    } else {
        let f = s.stack.last();
        ScanState {
            lex: Lex {
                run: f.run,
                outer: minus_spec(s.lex.outer, plus_spec(f.run, f.weight)),
                round: if f.round { minus_spec(s.lex.round, 1) } else { s.lex.round },
                ternary: if curly { 0 } else { f.ternary },
                list: f.list,
                pending: curly,
                after_else: false,
                ..s.lex
            },
            stack: s.stack.drop_last(),
        }
    }
}

/// Whether a `(` opens the arguments of a call: it stands behind a word that
/// is no keyword, or behind `]`.
pub open spec fn is_call(lex: Lex) -> bool {
    (is_word_byte(lex.last) && lex.plain) || lex.last == 93
}

/// Whether a `{` opens an initializer list: it stands behind `=`, or inside
/// such a list behind `{` or `,`.
pub open spec fn is_initializer(lex: Lex) -> bool {
    lex.last == 61 || (lex.list && (lex.last == 123 || lex.last == 44))
}

/// Whether a byte only sets something aside: `/`, `.`, `#` or `;`.
pub open spec fn is_pause_byte(b: u8) -> bool {
    b == 47 || b == 46 || b == 35 || b == 59
}

/// The state after `/`, `.`, `#` or `;`. A `/` and a `.` wait for the next
/// byte, but for a `.` behind a number, which belongs to the number; a `#`
/// begins a preprocessor line; a `;` ends the statement.
#[verifier::opaque]
pub open spec fn pause_spec(lex: Lex, b: u8) -> Lex {
    if b == 47 {
        Lex { slash: true, ..lex }
    } else if b == 46 {
        if lex.number && is_word_byte(lex.prev) {
            lex
        } else {
            Lex { dot: true, ..lex }
        }
    } else if b == 35 {
        Lex { mode: Mode::Directive, ..lex }
    } else {
        Lex { pending: true, after_else: false, ternary: 0, ..lex }
    }
}

/// The state after a `,`: in a list where no `?` waits for its `:` it ends an
/// item, anywhere else it weighs like an operator between two operands.
#[verifier::opaque]
pub open spec fn comma_spec(lex: Lex) -> Lex {
    if lex.list && lex.ternary == 0 {
        Lex { pending: true, after_else: false, ..lex }
    } else {
        operator_spec(lex, BINARY_WEIGHT)
    }
}

/// The state after `?` or `:`.
#[verifier::opaque]
pub open spec fn ternary_spec(lex: Lex, b: u8) -> Lex {
    if b == 63 {
        Lex { ternary: plus_spec(lex.ternary, 1), ..operator_spec(lex, TERNARY_WEIGHT) }
    } else {
        Lex { ternary: minus_spec(lex.ternary, 1), ..operator_spec(lex, OPERATOR_WEIGHT) }
    }
}

/// The state after a byte of code that is no bracket and belongs to no word.
#[verifier::opaque]
pub open spec fn stop_spec(lex: Lex, b: u8) -> Lex {
    if is_pause_byte(b) {
        pause_spec(lex, b)
    } else if b == 44 {
        comma_spec(lex)
    } else if b == 63 || b == 58 {
        ternary_spec(lex, b)
    } else if is_binary_byte(b) {
        operator_spec(lex, BINARY_WEIGHT)
    } else if is_quiet_byte(b) {
        lex
    } else {
        operator_spec(lex, OPERATOR_WEIGHT)
    }
}

/// The state after a byte of code that belongs to no word.
#[verifier::opaque]
pub open spec fn mark_spec(s: ScanState, b: u8) -> ScanState {
    if b == 40 {
        open_spec(s, BRACKET_WEIGHT, true, is_call(s.lex))
    } else if b == 91 {
        open_spec(s, BRACKET_WEIGHT, false, false)
    } else if b == 123 {
        open_spec(s, BRACE_WEIGHT, false, is_initializer(s.lex))
    } else if b == 41 || b == 93 {
        close_spec(s, false)
    } else if b == 125 {
        close_spec(s, true)
    } else {
        ScanState { lex: stop_spec(s.lex, b), stack: s.stack }
    }
}

/// The state after a byte of code.
#[verifier::opaque]
pub open spec fn code_spec(s: ScanState, b: u8) -> ScanState {
    if is_word_byte(b) {
        ScanState { lex: word_byte_spec(s.lex, b), stack: s.stack }
    } else {
        mark_spec(ScanState { lex: end_word_spec(s.lex), stack: s.stack }, b)
    }
}

/// The state after a byte inside a comment or a preprocessor line. A line
/// ends where no `\` stands before the line end; a block comment at `*/`.
#[verifier::opaque]
pub open spec fn aside_spec(lex: Lex, b: u8) -> Lex {
    if lex.mode == Mode::BlockComment {
        if b == 47 && lex.prev == 42 {
            Lex { mode: Mode::Code, prev: 0, ..lex }
        } else {
            Lex { prev: b, ..lex }
        }
    } else if b == 10 && lex.prev != 92 {
        Lex { mode: Mode::Code, prev: b, ..lex }
    } else {
        Lex { prev: b, ..lex }
    }
}

/// Whether the byte opens a comment behind a `/`.
pub open spec fn opens_comment(lex: Lex, b: u8) -> bool {
    lex.slash && (b == 47 || b == 42)
}

/// The state after the second byte of `//` or `/*`.
#[verifier::opaque]
pub open spec fn comment_spec(lex: Lex, b: u8) -> Lex {
    if b == 47 {
        Lex { mode: Mode::LineComment, slash: false, prev: b, ..lex }
    } else {
        Lex { mode: Mode::BlockComment, slash: false, prev: 0, ..lex }
    }
}

/// The state once it is known what a `/` or a `.` before this byte was: a
/// `/` that opens no comment divides, a `.` before a digit belongs to a
/// number, any other `.` selects.
#[verifier::opaque]
pub open spec fn settled_spec(lex: Lex, b: u8) -> Lex {
    if lex.slash {
        Lex { slash: false, ..operator_spec(lex, BINARY_WEIGHT) }
    } else if lex.dot && 48 <= b <= 57 {
        Lex { dot: false, ..lex }
    } else if lex.dot {
        Lex { dot: false, ..operator_spec(lex, OPERATOR_WEIGHT) }
    } else {
        lex
    }
}

/// The state with the byte noted and the verdict on its weight.
#[verifier::opaque]
pub open spec fn judged_spec(lex: Lex, b: u8) -> Lex {
    Lex {
        prev: b,
        last: if is_quiet_byte(b) { lex.last } else { b },
        ok: lex.ok && plus_spec(lex.outer, lex.run) <= BUDGET && lex.round <= MAX_ROUND,
        ..lex
    }
}

/// The state after one more byte. Once the budget is exceeded nothing
/// changes any more.
pub open spec fn step(s: ScanState, b: u8) -> ScanState {
    if !s.lex.ok {
        s
    } else if s.lex.mode != Mode::Code {
        ScanState { lex: aside_spec(s.lex, b), stack: s.stack }
    } else if opens_comment(s.lex, b) {
        ScanState { lex: comment_spec(s.lex, b), stack: s.stack }
    } else {
        let after = code_spec(ScanState { lex: settled_spec(s.lex, b), stack: s.stack }, b);
        ScanState { lex: judged_spec(after.lex, b), stack: after.stack }
    }
}

/// The state at the start of a source.
pub open spec fn start() -> ScanState {
    ScanState {
        lex: Lex {
            mode: Mode::Code,
            prev: 0,
            slash: false,
            dot: false,
            number: false,
            ternary: 0,
            last: 0,
            plain: false,
            list: false,
            pending: false,
            after_else: false,
            word: 0,
            is_if: false,
            is_do: false,
            is_for: false,
            is_else: false,
            is_while: false,
            is_switch: false,
            is_return: false,
            is_case: false,
            run: 0,
            outer: 0,
            round: 0,
            ok: true,
        },
        stack: Seq::empty(),
    }
}

/// The state after the first `n` bytes.
pub open spec fn scan(bytes: Seq<u8>, n: int) -> ScanState
    decreases n,
{
    if n <= 0 || n > bytes.len() {
        start()
    } else {
        step(scan(bytes, n - 1), bytes[n - 1])
    }
}

/// Whether nothing in the source nests beyond the budget.
pub open spec fn nesting_bounded(bytes: Seq<u8>) -> bool {
    scan(bytes, bytes.len() as int).lex.ok
}

/// Whether a byte is one that may stand between the parts of a preprocessor
/// line: blank, tab, `\` or a line end.
pub open spec fn is_blank(b: u8) -> bool {
    b == 32 || b == 9 || b == 92 || b == 10
}

/// The first place at or behind `j` that holds no blank.
pub open spec fn skip_blanks(bytes: Seq<u8>, j: int) -> int
    decreases bytes.len() - j,
{
    if 0 <= j < bytes.len() && is_blank(bytes[j]) {
        skip_blanks(bytes, j + 1)
    } else {
        j
    }
}

/// The first place at or behind `j` that holds no `0`.
pub open spec fn skip_zeros(bytes: Seq<u8>, j: int) -> int
    decreases bytes.len() - j,
{
    if 0 <= j < bytes.len() && bytes[j] == 48 {
        skip_zeros(bytes, j + 1)
    } else {
        j
    }
}

/// Whether the word `version` stands at `j`.
pub open spec fn version_at(bytes: Seq<u8>, j: int) -> bool {
    &&& 0 <= j
    &&& j + 7 <= bytes.len()
    &&& bytes[j] == 118
    &&& bytes[j + 1] == 101
    &&& bytes[j + 2] == 114
    &&& bytes[j + 3] == 115
    &&& bytes[j + 4] == 105
    &&& bytes[j + 5] == 111
    &&& bytes[j + 6] == 110
}

/// The number that the digits from `j` on spell, behind the digits that gave
/// `so_far`; 65536 stands for every larger number.
pub open spec fn digits_value(bytes: Seq<u8>, j: int, so_far: int) -> int
    decreases bytes.len() - j,
{
    if 0 <= j < bytes.len() && 48 <= bytes[j] <= 57 {
        let next = so_far * 10 + (bytes[j] - 48);
        digits_value(bytes, j + 1, if next > 65535 { 65536 } else { next })
    } else {
        so_far
    }
}

/// Whether a `#version` that begins at `i` has a number that the parser can
/// hold.
pub open spec fn version_fits_at(bytes: Seq<u8>, i: int) -> bool {
    let word = skip_blanks(bytes, i + 1);
    bytes[i] == 35 && version_at(bytes, word) ==> digits_value(
        bytes,
        skip_blanks(bytes, word + 7),
        0,
    ) <= 65535
}

/// Whether every `#version` of the source has a number that the parser can
/// hold.
pub open spec fn versions_fit(bytes: Seq<u8>) -> bool {
    forall|i: int| 0 <= i < bytes.len() ==> version_fits_at(bytes, i)
}

/// Whether the digit `d` and at least `zeros` times `0` stand at `j`.
pub open spec fn digit_and_zeros_at(bytes: Seq<u8>, j: int, d: u8, zeros: int) -> bool {
    &&& 0 <= j
    &&& j + 1 + zeros <= bytes.len()
    &&& bytes[j] == d
    &&& forall|k: int| 0 <= k < zeros ==> #[trigger] bytes[j + 1 + k] == 48
}

/// Whether `2147483648` stands at `j`.
pub open spec fn decimal_minimum_at(bytes: Seq<u8>, j: int) -> bool {
    &&& 0 <= j
    &&& j + 10 <= bytes.len()
    &&& bytes[j] == 50
    &&& bytes[j + 1] == 49
    &&& bytes[j + 2] == 52
    &&& bytes[j + 3] == 55
    &&& bytes[j + 4] == 52
    &&& bytes[j + 5] == 56
    &&& bytes[j + 6] == 51
    &&& bytes[j + 7] == 54
    &&& bytes[j + 8] == 52
    &&& bytes[j + 9] == 56
}

/// Whether a minus sign at `i` stands before 2147483648, written in decimal,
/// in octal (`0`, then 2 and ten times 0) or in hexadecimal (`0x`, then 8 and
/// seven times 0), with any number of `0` before the first other digit.
pub open spec fn negated_minimum_at(bytes: Seq<u8>, i: int) -> bool {
    &&& bytes[i] == 45
    &&& i + 1 < bytes.len()
    &&& {
        ||| decimal_minimum_at(bytes, i + 1)
        ||| bytes[i + 1] == 48 && digit_and_zeros_at(bytes, skip_zeros(bytes, i + 1), 50, 10)
        ||| bytes[i + 1] == 48 && i + 2 < bytes.len() && (bytes[i + 2] == 120 || bytes[i + 2]
            == 88) && digit_and_zeros_at(bytes, skip_zeros(bytes, i + 3), 56, 7)
    }
}

/// Whether the source nowhere negates 2147483648.
pub open spec fn no_negated_minimum(bytes: Seq<u8>) -> bool {
    forall|i: int| 0 <= i < bytes.len() ==> !negated_minimum_at(bytes, i)
}

/// Whether the parser can be given the source.
pub open spec fn parses_safely(bytes: Seq<u8>) -> bool {
    nesting_bounded(bytes) && versions_fit(bytes) && no_negated_minimum(bytes)
}

fn word_byte_test(b: u8) -> (r: bool)
    ensures
        r == is_word_byte(b),
{
    (48 <= b && b <= 57) || (65 <= b && b <= 90) || (97 <= b && b <= 122) || b == 95 || b >= 128
}

fn quiet_byte_test(b: u8) -> (r: bool)
    ensures
        r == is_quiet_byte(b),
{
    b == 32 || b == 9 || b == 10 || b == 13 || b == 92
}

fn binary_byte_test(b: u8) -> (r: bool)
    ensures
        r == is_binary_byte(b),
{
    b == 42 || b == 37 || b == 60 || b == 62 || b == 38 || b == 124 || b == 94
}

fn keyword_byte_of(k: u8, at: u8) -> (r: u8)
    ensures
        r == keyword_byte(k, at),
{
    if k == 0 {
        if at == 0 { 105 } else if at == 1 { 102 } else { 0 }
    } else if k == 1 {
        if at == 0 { 100 } else if at == 1 { 111 } else { 0 }
    } else if k == 2 {
        if at == 0 { 102 } else if at == 1 { 111 } else if at == 2 { 114 } else { 0 }
    } else if k == 3 {
        if at == 0 { 101 } else if at == 1 { 108 } else if at == 2 { 115 } else if at == 3 {
            101
        } else {
            0
        }
    } else if k == 4 {
        if at == 0 { 119 } else if at == 1 { 104 } else if at == 2 { 105 } else if at == 3 {
            108
        } else if at == 4 {
            101
        } else {
            0
        }
    } else if k == 5 {
        if at == 0 { 115 } else if at == 1 { 119 } else if at == 2 { 105 } else if at == 3 {
            116
        } else if at == 4 {
            99
        } else if at == 5 {
            104
        } else {
            0
        }
    } else if k == 6 {
        if at == 0 { 114 } else if at == 1 { 101 } else if at == 2 { 116 } else if at == 3 {
            117
        } else if at == 4 {
            114
        } else if at == 5 {
            110
        } else {
            0
        }
    } else {
        if at == 0 { 99 } else if at == 1 { 97 } else if at == 2 { 115 } else if at == 3 {
            101
        } else {
            0
        }
    }
}

fn still_keyword_test(so_far: bool, word: u8, k: u8, b: u8) -> (r: bool)
    ensures
        r == still_keyword(so_far, word, k, b),
{
    (word == 0 || so_far) && keyword_byte_of(k, word) == b
}

fn fresh_run_of(lex: Lex) -> (r: u32)
    ensures
        r == fresh_run(lex),
{
    if lex.pending {
        0
    } else {
        lex.run
    }
}

fn word_byte(lex: Lex, b: u8) -> (r: Lex)
    ensures
        r == word_byte_spec(lex, b),
{
    proof {
        reveal(word_byte_spec);
    }
    Lex {
        word: if lex.word < 7 { lex.word + 1 } else { 7 },
        number: if lex.word == 0 { 48 <= b && b <= 57 } else { lex.number },
        is_if: still_keyword_test(lex.is_if, lex.word, 0, b),
        is_do: still_keyword_test(lex.is_do, lex.word, 1, b),
        is_for: still_keyword_test(lex.is_for, lex.word, 2, b),
        is_else: still_keyword_test(lex.is_else, lex.word, 3, b),
        is_while: still_keyword_test(lex.is_while, lex.word, 4, b),
        is_switch: still_keyword_test(lex.is_switch, lex.word, 5, b),
        is_return: still_keyword_test(lex.is_return, lex.word, 6, b),
        is_case: still_keyword_test(lex.is_case, lex.word, 7, b),
        ..lex
    }
}

fn end_word(lex: Lex) -> (r: Lex)
    ensures
        r == end_word_spec(lex),
{
    proof {
        reveal(end_word_spec);
    }
    if lex.word == 0 {
        lex
    } else if lex.is_else && lex.word == 4 {
        Lex {
            word: 0,
            run: plus(lex.run, KEYWORD_WEIGHT),
            pending: false,
            after_else: true,
            plain: false,
            ..lex
        }
    } else if lex.is_if && lex.word == 2 && lex.after_else {
        Lex { word: 0, pending: false, after_else: false, plain: false, ..lex }
    } else if (lex.is_if && lex.word == 2) || (lex.is_do && lex.word == 2) || (lex.is_for
        && lex.word == 3) || (lex.is_while && lex.word == 5) || (lex.is_switch && lex.word == 6) {
        Lex {
            word: 0,
            run: plus(fresh_run_of(lex), KEYWORD_WEIGHT),
            pending: false,
            after_else: false,
            plain: false,
            ..lex
        }
    } else {
        Lex {
            word: 0,
            run: fresh_run_of(lex),
            pending: false,
            after_else: false,
            plain: !((lex.is_return && lex.word == 6) || (lex.is_case && lex.word == 4)),
            ..lex
        }
    }
}

fn operator(lex: Lex, weight: u32) -> (r: Lex)
    ensures
        r == operator_spec(lex, weight),
{
    proof {
        reveal(operator_spec);
    }
    Lex { run: plus(fresh_run_of(lex), weight), pending: false, after_else: false, ..lex }
}

fn open(lex: Lex, stack: &mut Vec<Frame>, weight: u32, round: bool, list: bool) -> (r: Lex)
    ensures
        r == open_spec(ScanState { lex, stack: old(stack)@ }, weight, round, list).lex,
        final(stack)@ == open_spec(
            ScanState { lex, stack: old(stack)@ },
            weight,
            round,
            list,
        ).stack,
{
    proof {
        reveal(open_spec);
    }
    let run = fresh_run_of(lex);
    stack.push(Frame { run, weight, round, ternary: lex.ternary, list: lex.list });
    Lex {
        run: 0,
        outer: plus(lex.outer, plus(run, weight)),
        round: if round { plus(lex.round, 1) } else { lex.round },
        ternary: 0,
        list,
        pending: false,
        after_else: false,
        ..lex
    }
}

fn close(lex: Lex, stack: &mut Vec<Frame>, curly: bool) -> (r: Lex)
    ensures
        r == close_spec(ScanState { lex, stack: old(stack)@ }, curly).lex,
        final(stack)@ == close_spec(ScanState { lex, stack: old(stack)@ }, curly).stack,
{
    proof {
        reveal(close_spec);
    }
    match stack.pop() {
        None => Lex {
            pending: curly,
            after_else: false,
            ternary: if curly { 0 } else { lex.ternary },
            list: false,
            ..lex
        },
        Some(f) => {
            assert(stack@ =~= old(stack)@.drop_last());
            Lex {
                run: f.run,
                outer: minus(lex.outer, plus(f.run, f.weight)),
                round: if f.round { minus(lex.round, 1) } else { lex.round },
                ternary: if curly { 0 } else { f.ternary },
                list: f.list,
                pending: curly,
                after_else: false,
                ..lex
            }
        },
    }
}

fn pause(lex: Lex, b: u8) -> (r: Lex)
    ensures
        r == pause_spec(lex, b),
{
    proof {
        reveal(pause_spec);
    }
    if b == 47 {
        Lex { slash: true, ..lex }
    } else if b == 46 {
        if lex.number && word_byte_test(lex.prev) {
            lex
        } else {
            Lex { dot: true, ..lex }
        }
    } else if b == 35 {
        Lex { mode: Mode::Directive, ..lex }
    } else {
        Lex { pending: true, after_else: false, ternary: 0, ..lex }
    }
}

fn comma(lex: Lex) -> (r: Lex)
    ensures
        r == comma_spec(lex),
{
    proof {
        reveal(comma_spec);
    }
    if lex.list && lex.ternary == 0 {
        Lex { pending: true, after_else: false, ..lex }
    } else {
        operator(lex, BINARY_WEIGHT)
    }
}

fn ternary(lex: Lex, b: u8) -> (r: Lex)
    ensures
        r == ternary_spec(lex, b),
{
    proof {
        reveal(ternary_spec);
    }
    if b == 63 {
        Lex { ternary: plus(lex.ternary, 1), ..operator(lex, TERNARY_WEIGHT) }
    } else {
        Lex { ternary: minus(lex.ternary, 1), ..operator(lex, OPERATOR_WEIGHT) }
    }
}

fn stop(lex: Lex, b: u8) -> (r: Lex)
    ensures
        r == stop_spec(lex, b),
{
    proof {
        reveal(stop_spec);
    }
    if b == 47 || b == 46 || b == 35 || b == 59 {
        pause(lex, b)
    } else if b == 44 {
        comma(lex)
    } else if b == 63 || b == 58 {
        ternary(lex, b)
    } else if binary_byte_test(b) {
        operator(lex, BINARY_WEIGHT)
    } else if quiet_byte_test(b) {
        lex
    } else {
        operator(lex, OPERATOR_WEIGHT)
    }
}

fn mark(lex: Lex, stack: &mut Vec<Frame>, b: u8) -> (r: Lex)
    ensures
        r == mark_spec(ScanState { lex, stack: old(stack)@ }, b).lex,
        final(stack)@ == mark_spec(ScanState { lex, stack: old(stack)@ }, b).stack,
{
    proof {
        reveal(mark_spec);
    }
    if b == 40 {
        let call = (word_byte_test(lex.last) && lex.plain) || lex.last == 93;
        open(lex, stack, BRACKET_WEIGHT, true, call)
    } else if b == 91 {
        open(lex, stack, BRACKET_WEIGHT, false, false)
    } else if b == 123 {
        let initializer = lex.last == 61 || (lex.list && (lex.last == 123 || lex.last == 44));
        open(lex, stack, BRACE_WEIGHT, false, initializer)
    } else if b == 41 || b == 93 {
        close(lex, stack, false)
    } else if b == 125 {
        close(lex, stack, true)
    } else {
        stop(lex, b)
    }
}

fn code(lex: Lex, stack: &mut Vec<Frame>, b: u8) -> (r: Lex)
    ensures
        r == code_spec(ScanState { lex, stack: old(stack)@ }, b).lex,
        final(stack)@ == code_spec(ScanState { lex, stack: old(stack)@ }, b).stack,
{
    proof {
        reveal(code_spec);
    }
    if word_byte_test(b) {
        word_byte(lex, b)
    } else {
        mark(end_word(lex), stack, b)
    }
}

fn aside(lex: Lex, b: u8) -> (r: Lex)
    ensures
        r == aside_spec(lex, b),
{
    proof {
        reveal(aside_spec);
    }
    if lex.mode == Mode::BlockComment {
        if b == 47 && lex.prev == 42 {
            Lex { mode: Mode::Code, prev: 0, ..lex }
        } else {
            Lex { prev: b, ..lex }
        }
    } else if b == 10 && lex.prev != 92 {
        Lex { mode: Mode::Code, prev: b, ..lex }
    } else {
        Lex { prev: b, ..lex }
    }
}

fn comment(lex: Lex, b: u8) -> (r: Lex)
    ensures
        r == comment_spec(lex, b),
{
    proof {
        reveal(comment_spec);
    }
    if b == 47 {
        Lex { mode: Mode::LineComment, slash: false, prev: b, ..lex }
    } else {
        Lex { mode: Mode::BlockComment, slash: false, prev: 0, ..lex }
    }
}

fn settled(lex: Lex, b: u8) -> (r: Lex)
    ensures
        r == settled_spec(lex, b),
{
    proof {
        reveal(settled_spec);
    }
    if lex.slash {
        Lex { slash: false, ..operator(lex, BINARY_WEIGHT) }
    } else if lex.dot && 48 <= b && b <= 57 {
        Lex { dot: false, ..lex }
    } else if lex.dot {
        Lex { dot: false, ..operator(lex, OPERATOR_WEIGHT) }
    } else {
        lex
    }
}

fn judged(lex: Lex, b: u8) -> (r: Lex)
    ensures
        r == judged_spec(lex, b),
{
    proof {
        reveal(judged_spec);
    }
    Lex {
        prev: b,
        last: if quiet_byte_test(b) { lex.last } else { b },
        ok: lex.ok && plus(lex.outer, lex.run) <= BUDGET && lex.round <= MAX_ROUND,
        ..lex
    }
}

fn advance(lex: Lex, stack: &mut Vec<Frame>, b: u8) -> (r: Lex)
    ensures
        r == step(ScanState { lex, stack: old(stack)@ }, b).lex,
        final(stack)@ == step(ScanState { lex, stack: old(stack)@ }, b).stack,
{
    if !lex.ok {
        lex
    } else if lex.mode != Mode::Code {
        aside(lex, b)
    } else if lex.slash && (b == 47 || b == 42) {
        comment(lex, b)
    } else {
        let ready = settled(lex, b);
        let after = code(ready, stack, b);
        judged(after, b)
    }
}

/// Whether nothing in the source nests beyond the budget.
pub fn nesting_is_bounded(bytes: &[u8]) -> (r: bool)
    ensures
        r == nesting_bounded(bytes@),
{
    let mut lex = Lex {
        mode: Mode::Code,
        prev: 0,
        slash: false,
        dot: false,
        number: false,
        ternary: 0,
        last: 0,
        plain: false,
        list: false,
        pending: false,
        after_else: false,
        word: 0,
        is_if: false,
        is_do: false,
        is_for: false,
        is_else: false,
        is_while: false,
        is_switch: false,
        is_return: false,
        is_case: false,
        run: 0,
        outer: 0,
        round: 0,
        ok: true,
    };
    let mut stack: Vec<Frame> = Vec::new();
    let n = bytes.len();
    for i in 0..n
        invariant
            n == bytes@.len(),
            lex == scan(bytes@, i as int).lex,
            stack@ == scan(bytes@, i as int).stack,
    {
        lex = advance(lex, &mut stack, bytes[i]);
    }
    lex.ok
}

fn skip_blank_bytes(bytes: &[u8], j: usize) -> (r: usize)
    requires
        j <= bytes@.len(),
    ensures
        r == skip_blanks(bytes@, j as int),
        j <= r <= bytes@.len(),
{
    let n = bytes.len();
    let mut k = j;
    while k < n && (bytes[k] == 32 || bytes[k] == 9 || bytes[k] == 92 || bytes[k] == 10)
        invariant
            n == bytes@.len(),
            j <= k <= n,
            skip_blanks(bytes@, j as int) == skip_blanks(bytes@, k as int),
        decreases n - k,
    {
        k += 1;
    }
    k
}

fn skip_zero_bytes(bytes: &[u8], j: usize) -> (r: usize)
    requires
        j <= bytes@.len(),
    ensures
        r == skip_zeros(bytes@, j as int),
        j <= r <= bytes@.len(),
{
    let n = bytes.len();
    let mut k = j;
    while k < n && bytes[k] == 48
        invariant
            n == bytes@.len(),
            j <= k <= n,
            skip_zeros(bytes@, j as int) == skip_zeros(bytes@, k as int),
        decreases n - k,
    {
        k += 1;
    }
    k
}

fn version_stands_at(bytes: &[u8], j: usize) -> (r: bool)
    requires
        j <= bytes@.len(),
    ensures
        r == version_at(bytes@, j as int),
{
    let n = bytes.len();
    n - j >= 7 && bytes[j] == 118 && bytes[j + 1] == 101 && bytes[j + 2] == 114 && bytes[j + 3]
        == 115 && bytes[j + 4] == 105 && bytes[j + 5] == 111 && bytes[j + 6] == 110
}

fn digits_value_of(bytes: &[u8], j: usize) -> (r: u32)
    requires
        j <= bytes@.len(),
    ensures
        r == digits_value(bytes@, j as int, 0),
{
    let n = bytes.len();
    let mut k = j;
    let mut value: u32 = 0;
    while k < n && 48 <= bytes[k] && bytes[k] <= 57
        invariant
            n == bytes@.len(),
            j <= k <= n,
            value <= 65536,
            digits_value(bytes@, j as int, 0) == digits_value(bytes@, k as int, value as int),
        decreases n - k,
    {
        let digit: u32 = (bytes[k] - 48) as u32;
        let next: u32 = value * 10 + digit;
        value = if next > 65535 { 65536 } else { next };
        k += 1;
    }
    value
}

/// Whether every `#version` of the source has a number that the parser can
/// hold.
pub fn versions_do_fit(bytes: &[u8]) -> (r: bool)
    ensures
        r == versions_fit(bytes@),
{
    let n = bytes.len();
    for i in 0..n
        invariant
            n == bytes@.len(),
            forall|j: int| 0 <= j < i ==> version_fits_at(bytes@, j),
    {
        if bytes[i] == 35 {
            let word = skip_blank_bytes(bytes, i + 1);
            if version_stands_at(bytes, word) {
                let number = skip_blank_bytes(bytes, word + 7);
                if digits_value_of(bytes, number) > 65535 {
                    assert(!version_fits_at(bytes@, i as int));
                    return false;
                }
            }
        }
    }
    true
}

fn digit_and_zeros_stand_at(bytes: &[u8], j: usize, d: u8, zeros: usize) -> (r: bool)
    requires
        j <= bytes@.len(),
        zeros <= 16,
    ensures
        r == digit_and_zeros_at(bytes@, j as int, d, zeros as int),
{
    let n = bytes.len();
    if n - j < 1 + zeros {
        return false;
    }
    if bytes[j] != d {
        return false;
    }
    for k in 0..zeros
        invariant
            n == bytes@.len(),
            j + 1 + zeros <= n,
            bytes@[j as int] == d,
            forall|m: int| 0 <= m < k ==> #[trigger] bytes@[j + 1 + m] == 48,
    {
        if bytes[j + 1 + k] != 48 {
            return false;
        }
    }
    true
}

fn decimal_minimum_stands_at(bytes: &[u8], j: usize) -> (r: bool)
    requires
        j <= bytes@.len(),
    ensures
        r == decimal_minimum_at(bytes@, j as int),
{
    let n = bytes.len();
    n - j >= 10 && bytes[j] == 50 && bytes[j + 1] == 49 && bytes[j + 2] == 52 && bytes[j + 3]
        == 55 && bytes[j + 4] == 52 && bytes[j + 5] == 56 && bytes[j + 6] == 51 && bytes[j + 7]
        == 54 && bytes[j + 8] == 52 && bytes[j + 9] == 56
}

fn negated_minimum_stands_at(bytes: &[u8], i: usize) -> (r: bool)
    requires
        i < bytes@.len(),
    ensures
        r == negated_minimum_at(bytes@, i as int),
{
    let n = bytes.len();
    if bytes[i] != 45 || n - i < 2 {
        return false;
    }
    if decimal_minimum_stands_at(bytes, i + 1) {
        return true;
    }
    if bytes[i + 1] != 48 {
        return false;
    }
    let octal = skip_zero_bytes(bytes, i + 1);
    if digit_and_zeros_stand_at(bytes, octal, 50, 10) {
        return true;
    }
    if n - i >= 3 && (bytes[i + 2] == 120 || bytes[i + 2] == 88) {
        let hexadecimal = skip_zero_bytes(bytes, i + 3);
        digit_and_zeros_stand_at(bytes, hexadecimal, 56, 7)
    } else {
        false
    }
}

/// Whether the source nowhere negates 2147483648.
pub fn has_no_negated_minimum(bytes: &[u8]) -> (r: bool)
    ensures
        r == no_negated_minimum(bytes@),
{
    let n = bytes.len();
    for i in 0..n
        invariant
            n == bytes@.len(),
            forall|j: int| 0 <= j < i ==> !negated_minimum_at(bytes@, j),
    {
        if negated_minimum_stands_at(bytes, i) {
            return false;
        }
    }
    true
}

/// Whether the parser can be given the source.
pub fn scan_source(source: &str) -> (r: bool)
    ensures
        r == parses_safely(source.spec_bytes()),
{
    let bytes = source.as_bytes();
    nesting_is_bounded(bytes) && versions_do_fit(bytes) && has_no_negated_minimum(bytes)
}

} // verus!
