//! A bound on how deeply the collections of a YAML text are nested.
//!
//! The reader calls itself once for each collection that stands in another,
//! so before a text is handed to it, its nesting is bounded from what the
//! reader's scanner does with columns and brackets. The bound is taken on the
//! bytes of the text, of which there are at least as many as characters.
//!
//! The rule that the bound follows:
//!
//! * The scanner counts the column of a character from the last line feed. A
//!   carriage return ends a line, as a line feed does, but the count of columns
//!   goes on after it.
//! * A collection in block style that the reader takes in opens where a key
//!   may begin: at a place with nothing but blanks and indicators (`-`, `?`,
//!   `:`) between it and the end of the line before, be that end a line feed
//!   or a carriage return. Collections that stand in each other open at
//!   columns that grow, but for a sequence that opens at the column of the
//!   mapping it belongs to. So no more than two of them open at one column.
//! * A collection in flow style opens with a bracket. A bracket opens at most
//!   two: a sequence, and the mapping of a single pair in it. The scanner
//!   itself refuses brackets that stand more than [`MAX_FLOW_LEVEL`] deep, and
//!   no collection in block style opens inside brackets.
//!
//! So the collections of a text are nested no deeper than twice the number of
//! columns up to the highest column at which a key may begin, and twice the
//! number of opening brackets or of the scanner's limit, whichever is less.
//! Brackets are counted wherever they stand, also inside a scalar. As their
//! count weighs no more than the scanner's limit does, a text is never
//! refused for its brackets alone.

use vstd::prelude::*;
use vstd::string::StringSliceAdditionalSpecFns;

verus! {

/// How deep the scanner lets brackets stand in each other.
pub const MAX_FLOW_LEVEL: usize = 255;

/// The nesting bound up to which a text is read: the nesting that brackets
/// can reach, and that of sixteen columns.
pub const MAX_NESTING: usize = 542;

/// What is known of a text once its bytes so far have been looked at.
pub struct Scan {
    /// Nothing but blanks and indicators stands between the end of the line
    /// before and this place, so a key may begin here.
    pub key_may_begin: bool,
    /// The column of this place: the bytes since the last line feed.
    pub column: nat,
    /// The highest column at which a key may begin.
    pub highest: nat,
    /// How many opening brackets there are.
    pub brackets: nat,
}

/// A line feed.
pub open spec fn is_line_feed(byte: u8) -> bool {
    byte == 0x0a
}

/// A carriage return.
pub open spec fn is_carriage_return(byte: u8) -> bool {
    byte == 0x0d
}

/// A space, a tab, `-`, `?` or `:`.
pub open spec fn is_blank_or_indicator(byte: u8) -> bool {
    byte == 0x20 || byte == 0x09 || byte == 0x2d || byte == 0x3f || byte == 0x3a
}

/// `[` or `{`.
pub open spec fn is_opening_bracket(byte: u8) -> bool {
    byte == 0x5b || byte == 0x7b
}

/// What is known before the first byte.
pub open spec fn scan_start() -> Scan {
    Scan { key_may_begin: true, column: 0, highest: 0, brackets: 0 }
}

/// What is known after one more byte.
///
/// The byte stands at the column reached so far; where a key may begin
/// there, that column counts. A line feed takes the column back to nought,
/// every other byte takes it one further. After a line feed or a carriage
/// return a key may begin again, and it may still begin after a blank or an
/// indicator, but not after anything else.
pub open spec fn scan_byte(scan: Scan, byte: u8) -> Scan {
    Scan {
        key_may_begin: is_line_feed(byte) || is_carriage_return(byte) || (scan.key_may_begin
            && is_blank_or_indicator(byte)),
        column: if is_line_feed(byte) {
            0
        } else {
            scan.column + 1
        },
        highest: if scan.key_may_begin && scan.column > scan.highest {
            scan.column
        } else {
            scan.highest
        },
        brackets: if is_opening_bracket(byte) {
            scan.brackets + 1
        } else {
            scan.brackets
        },
    }
}

/// What is known after all of `bytes`.
pub open spec fn scan_bytes(bytes: Seq<u8>) -> Scan
    decreases bytes.len(),
{
    if bytes.len() == 0 {
        scan_start()
    } else {
        scan_byte(scan_bytes(bytes.drop_last()), bytes.last())
    }
}

/// The bound on the nesting of collections in block style: two for each
/// column up to the highest at which a key may begin.
pub open spec fn block_nesting_bound(bytes: Seq<u8>) -> nat {
    2 * (scan_bytes(bytes).highest + 1)
}

/// The bound on the nesting of collections in flow style: two for each
/// opening bracket, and no more than the scanner lets through.
pub open spec fn flow_nesting_bound(bytes: Seq<u8>) -> nat {
    if scan_bytes(bytes).brackets < MAX_FLOW_LEVEL {
        2 * scan_bytes(bytes).brackets
    } else {
        2 * (MAX_FLOW_LEVEL as nat)
    }
}

/// The bound on the nesting of the collections of a text.
pub open spec fn nesting_bound(bytes: Seq<u8>) -> nat {
    block_nesting_bound(bytes) + flow_nesting_bound(bytes)
}

/// Neither a column nor the brackets outnumber the bytes.
pub proof fn lemma_scan_is_bounded(bytes: Seq<u8>)
    ensures
        scan_bytes(bytes).column <= bytes.len(),
        scan_bytes(bytes).highest <= bytes.len(),
        scan_bytes(bytes).brackets <= bytes.len(),
    decreases bytes.len(),
{
    if bytes.len() > 0 {
        lemma_scan_is_bounded(bytes.drop_last());
    }
}

/// Brackets alone never take a text over the limit: a text is within it
/// where a key may begin at none but the first sixteen columns.
pub proof fn lemma_brackets_stay_within_limit(bytes: Seq<u8>)
    requires
        scan_bytes(bytes).highest < 16,
    ensures
        nesting_bound(bytes) <= MAX_NESTING,
{
}

/// Whether the nesting bound of `text` is within [`MAX_NESTING`].
pub fn within_nesting_limit(text: &str) -> (within: bool)
    ensures
        within == (nesting_bound(text.spec_bytes()) <= MAX_NESTING),
{
    let bytes = text.as_bytes();
    let mut key_may_begin = true;
    let mut column: usize = 0;
    let mut highest: usize = 0;
    let mut brackets: usize = 0;
    let mut i: usize = 0;
    assert(bytes@.take(0) =~= Seq::<u8>::empty());
    while i < bytes.len()
        invariant
            i <= bytes.len(),
            bytes@ == text.spec_bytes(),
            scan_bytes(bytes@.take(i as int)) == (Scan {
                key_may_begin,
                column: column as nat,
                highest: highest as nat,
                brackets: brackets as nat,
            }),
        decreases bytes.len() - i,
    {
        let byte = bytes[i];
        proof {
            let upto = bytes@.take(i as int + 1);
            assert(upto.drop_last() =~= bytes@.take(i as int));
            assert(upto.last() == byte);
            lemma_scan_is_bounded(bytes@.take(i as int));
        }
        if key_may_begin && column > highest {
            highest = column;
        }
        let blank_or_indicator = byte == 0x20 || byte == 0x09 || byte == 0x2d || byte == 0x3f
            || byte == 0x3a;
        key_may_begin = byte == 0x0a || byte == 0x0d || (key_may_begin && blank_or_indicator);
        if byte == 0x0a {
            column = 0;
        } else {
            column = column + 1;
        }
        if byte == 0x5b || byte == 0x7b {
            brackets = brackets + 1;
        }
        i += 1;
    }
    assert(bytes@.take(i as int) =~= bytes@);
    if highest >= MAX_NESTING {
        return false;
    }
    let flow = if brackets < MAX_FLOW_LEVEL {
        2 * brackets
    } else {
        2 * MAX_FLOW_LEVEL
    };
    2 * (highest + 1) + flow <= MAX_NESTING
}

} // verus!
