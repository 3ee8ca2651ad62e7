//! Opening book: a static table from position keys to candidate
//! replies, consulted before any search is started.
//!
//! A position is keyed by its EPD rendering (piece placement, side to
//! move, castling, en passant).  A hit returns one of the stored
//! candidate moves, picked by a non-reproducible selector; a miss, or
//! a stored move that turns out not to parse or not to be legal, is
//! treated by the caller as "no book move".

use vstd::prelude::*;
use shakmaty::Chess;
use crate::rules::{epd_string, clock_nanos};

verus! {

/// One book line: a position key and its candidate replies in UCI.
pub struct BookEntry {
    pub key: String,
    pub moves: Vec<String>,
}

/// The book, scanned in insertion order; the first key match decides.
pub struct OpeningBook {
    pub entries: Vec<BookEntry>,
}

/// Index of the first entry at or after `i` whose key reads `key`;
/// the length when none does.
pub open spec fn first_match_from(entries: Seq<BookEntry>, key: Seq<char>, i: int) -> int
    decreases entries.len() - i,
{
    if 0 <= i < entries.len() {
        if entries[i].key@ == key {
            i
        } else {
            first_match_from(entries, key, i + 1)
        }
    } else {
        entries.len() as int
    }
}

/// What a book lookup returns: the candidate `pick % n` of the first
/// entry whose key matches, nothing on a miss.
pub open spec fn lookup_spec(entries: Seq<BookEntry>, key: Seq<char>, pick: u64) -> Option<
    Seq<char>,
> {
    let i = first_match_from(entries, key, 0);
    if i < entries.len() && entries[i].moves@.len() > 0 {
        Some(entries[i].moves@[pick as int % entries[i].moves@.len() as int]@)
    } else {
        None
    }
}

proof fn lemma_first_match_bounds(entries: Seq<BookEntry>, key: Seq<char>, i: int)
    requires
        0 <= i <= entries.len(),
    ensures
        i <= first_match_from(entries, key, i) <= entries.len(),
    decreases entries.len() - i,
{
    if i < entries.len() && entries[i].key@ != key {
        lemma_first_match_bounds(entries, key, i + 1);
    }
}

proof fn lemma_first_match_skip(entries: Seq<BookEntry>, key: Seq<char>, idx: int)
    requires
        0 <= idx <= entries.len(),
        forall|j: int| 0 <= j < idx ==> entries[j].key@ != key,
    ensures
        first_match_from(entries, key, 0) == first_match_from(entries, key, idx),
    decreases idx,
{
    if idx > 0 {
        lemma_first_match_skip(entries, key, idx - 1);
    }
}

/// The EPD key of the standard starting position.
pub open spec fn startpos_key() -> Seq<char> {
    "rnbqkbnr/pppppppp/8/8/8/8/PPPPPPPP/RNBQKBNR w KQkq -"@
}

/// The whole book, line for line: each entry's key and its
/// candidate moves in order.
pub open spec fn book_complete(b: OpeningBook) -> bool {
    &&& b.entries@.len() == 25
    &&& b.entries@[0].key@ == "rnbqkbnr/pppppppp/8/8/8/8/PPPPPPPP/RNBQKBNR w KQkq -"@
    &&& b.entries@[0].moves@.len() == 8
    &&& b.entries@[0].moves@[0]@ == "e2e4"@
    &&& b.entries@[0].moves@[1]@ == "d2d4"@
    &&& b.entries@[0].moves@[2]@ == "c2c4"@
    &&& b.entries@[0].moves@[3]@ == "g1f3"@
    &&& b.entries@[0].moves@[4]@ == "b1c3"@
    &&& b.entries@[0].moves@[5]@ == "f2f4"@
    &&& b.entries@[0].moves@[6]@ == "b2b3"@
    &&& b.entries@[0].moves@[7]@ == "g2g3"@
    &&& b.entries@[1].key@ == "rnbqkbnr/pppppppp/8/8/4P3/8/PPPP1PPP/RNBQKBNR b KQkq -"@
    &&& b.entries@[1].moves@.len() == 11
    &&& b.entries@[1].moves@[0]@ == "c7c5"@
    &&& b.entries@[1].moves@[1]@ == "e7e5"@
    &&& b.entries@[1].moves@[2]@ == "e7e6"@
    &&& b.entries@[1].moves@[3]@ == "c7c6"@
    &&& b.entries@[1].moves@[4]@ == "d7d5"@
    &&& b.entries@[1].moves@[5]@ == "g8f6"@
    &&& b.entries@[1].moves@[6]@ == "d7d6"@
    &&& b.entries@[1].moves@[7]@ == "g7g6"@
    &&& b.entries@[1].moves@[8]@ == "b7b6"@
    &&& b.entries@[1].moves@[9]@ == "a7a6"@
    &&& b.entries@[1].moves@[10]@ == "h7h6"@
    &&& b.entries@[2].key@ == "rnbqkbnr/pppppppp/8/8/3P4/8/PPP1PPPP/RNBQKBNR b KQkq -"@
    &&& b.entries@[2].moves@.len() == 7
    &&& b.entries@[2].moves@[0]@ == "g8f6"@
    &&& b.entries@[2].moves@[1]@ == "d7d5"@
    &&& b.entries@[2].moves@[2]@ == "f7f5"@
    &&& b.entries@[2].moves@[3]@ == "e7e6"@
    &&& b.entries@[2].moves@[4]@ == "c7c6"@
    &&& b.entries@[2].moves@[5]@ == "g7g6"@
    &&& b.entries@[2].moves@[6]@ == "d7d6"@
    &&& b.entries@[3].key@ == "rnbqkbnr/pppppppp/8/8/2P5/8/PP1PPPPP/RNBQKBNR b KQkq -"@
    &&& b.entries@[3].moves@.len() == 4
    &&& b.entries@[3].moves@[0]@ == "e7e5"@
    &&& b.entries@[3].moves@[1]@ == "c7c5"@
    &&& b.entries@[3].moves@[2]@ == "g8f6"@
    &&& b.entries@[3].moves@[3]@ == "e7e6"@
    &&& b.entries@[4].key@ == "rnbqkbnr/pppppppp/8/8/8/5N2/PPPPPPPP/RNBQKB1R b KQkq -"@
    &&& b.entries@[4].moves@.len() == 3
    &&& b.entries@[4].moves@[0]@ == "d7d5"@
    &&& b.entries@[4].moves@[1]@ == "g8f6"@
    &&& b.entries@[4].moves@[2]@ == "c7c5"@
    &&& b.entries@[5].key@ == "rnbqkbnr/pp1ppppp/8/2p5/4P3/8/PPPP1PPP/RNBQKBNR w KQkq -"@
    &&& b.entries@[5].moves@.len() == 4
    &&& b.entries@[5].moves@[0]@ == "g1f3"@
    &&& b.entries@[5].moves@[1]@ == "b1c3"@
    &&& b.entries@[5].moves@[2]@ == "d2d3"@
    &&& b.entries@[5].moves@[3]@ == "c2c3"@
    &&& b.entries@[6].key@ == "rnbqkbnr/pp1ppppp/8/2p5/4P3/5N2/PPPP1PPP/RNBQKB1R b KQkq -"@
    &&& b.entries@[6].moves@.len() == 5
    &&& b.entries@[6].moves@[0]@ == "d7d6"@
    &&& b.entries@[6].moves@[1]@ == "e7e6"@
    &&& b.entries@[6].moves@[2]@ == "b8c6"@
    &&& b.entries@[6].moves@[3]@ == "g7g6"@
    &&& b.entries@[6].moves@[4]@ == "a7a6"@
    &&& b.entries@[7].key@ == "r1bqkb1r/1p2pppp/p2p1n2/8/3NP3/2N5/PPP2PPP/R1BQKB1R w KQkq -"@
    &&& b.entries@[7].moves@.len() == 6
    &&& b.entries@[7].moves@[0]@ == "c1g5"@
    &&& b.entries@[7].moves@[1]@ == "f2f4"@
    &&& b.entries@[7].moves@[2]@ == "f1e2"@
    &&& b.entries@[7].moves@[3]@ == "h2h3"@
    &&& b.entries@[7].moves@[4]@ == "g2g4"@
    &&& b.entries@[7].moves@[5]@ == "a2a4"@
    &&& b.entries@[8].key@ == "r1bqkbnr/pppp1ppp/2n5/1B2p3/4P3/5N2/PPPP1PPP/RNBQK2R b KQkq -"@
    &&& b.entries@[8].moves@.len() == 6
    &&& b.entries@[8].moves@[0]@ == "a7a6"@
    &&& b.entries@[8].moves@[1]@ == "g8f6"@
    &&& b.entries@[8].moves@[2]@ == "d7d6"@
    &&& b.entries@[8].moves@[3]@ == "f7f5"@
    &&& b.entries@[8].moves@[4]@ == "g7g6"@
    &&& b.entries@[8].moves@[5]@ == "b8c6"@
    &&& b.entries@[9].key@ == "r1bqkbnr/1ppp1ppp/p1n5/1B2p3/4P3/5N2/PPPP1PPP/RNBQK2R w KQkq -"@
    &&& b.entries@[9].moves@.len() == 2
    &&& b.entries@[9].moves@[0]@ == "b5a4"@
    &&& b.entries@[9].moves@[1]@ == "b5xc6"@
    &&& b.entries@[10].key@ == "r1bqkbnr/1ppp1ppp/2N5/4p3/4P3/5N2/PPPP1PPP/RNBQK2R b KQkq -"@
    &&& b.entries@[10].moves@.len() == 2
    &&& b.entries@[10].moves@[0]@ == "d7xc6"@
    &&& b.entries@[10].moves@[1]@ == "b7xc6"@
    &&& b.entries@[11].key@ == "r1bqkbnr/pppp1ppp/2n5/4p3/2B1P3/5N2/PPPP1PPP/RNBQK2R b KQkq -"@
    &&& b.entries@[11].moves@.len() == 3
    &&& b.entries@[11].moves@[0]@ == "f8c5"@
    &&& b.entries@[11].moves@[1]@ == "g8f6"@
    &&& b.entries@[11].moves@[2]@ == "h7h6"@
    &&& b.entries@[12].key@ == "rnbqkbnr/pppp1ppp/4p3/8/3PP3/8/PPP2PPP/RNBQKBNR b KQkq -"@
    &&& b.entries@[12].moves@.len() == 2
    &&& b.entries@[12].moves@[0]@ == "d7d5"@
    &&& b.entries@[12].moves@[1]@ == "c7c5"@
    &&& b.entries@[13].key@ == "rnbqkbnr/ppp2ppp/4p3/3p4/3PP3/8/PPP2PPP/RNBQKBNR w KQkq -"@
    &&& b.entries@[13].moves@.len() == 4
    &&& b.entries@[13].moves@[0]@ == "b1c3"@
    &&& b.entries@[13].moves@[1]@ == "b1d2"@
    &&& b.entries@[13].moves@[2]@ == "e4e5"@
    &&& b.entries@[13].moves@[3]@ == "e4xd5"@
    &&& b.entries@[14].key@ == "rnbqkbnr/ppp1pppp/8/3p4/2PP4/8/PP2PPPP/RNBQKBNR b KQkq -"@
    &&& b.entries@[14].moves@.len() == 5
    &&& b.entries@[14].moves@[0]@ == "e7e6"@
    &&& b.entries@[14].moves@[1]@ == "c7c6"@
    &&& b.entries@[14].moves@[2]@ == "d5xc4"@
    &&& b.entries@[14].moves@[3]@ == "e7e5"@
    &&& b.entries@[14].moves@[4]@ == "g8f6"@
    &&& b.entries@[15].key@ == "rnbqkb1r/pppppp1p/5np1/8/2PP4/8/PP2PPPP/RNBQKBNR w KQkq -"@
    &&& b.entries@[15].moves@.len() == 3
    &&& b.entries@[15].moves@[0]@ == "b1c3"@
    &&& b.entries@[15].moves@[1]@ == "g1f3"@
    &&& b.entries@[15].moves@[2]@ == "g2g3"@
    &&& b.entries@[16].key@ == "rnbqkbnr/pp1ppppp/2p5/8/3PP3/8/PPP2PPP/RNBQKBNR b KQkq -"@
    &&& b.entries@[16].moves@.len() == 1
    &&& b.entries@[16].moves@[0]@ == "d7d5"@
    &&& b.entries@[17].key@ == "rnbqkbnr/pp2pppp/2p5/3p4/3PP3/8/PPP2PPP/RNBQKBNR w KQkq -"@
    &&& b.entries@[17].moves@.len() == 4
    &&& b.entries@[17].moves@[0]@ == "b1c3"@
    &&& b.entries@[17].moves@[1]@ == "e4e5"@
    &&& b.entries@[17].moves@[2]@ == "e4xd5"@
    &&& b.entries@[17].moves@[3]@ == "b1d2"@
    &&& b.entries@[18].key@ == "rnbqkbnr/ppp1pppp/8/3P4/8/8/PPPP1PPP/RNBQKBNR b KQkq -"@
    &&& b.entries@[18].moves@.len() == 2
    &&& b.entries@[18].moves@[0]@ == "d8xd5"@
    &&& b.entries@[18].moves@[1]@ == "g8f6"@
    &&& b.entries@[19].key@ == "rnbqkbnr/ppp1pppp/8/3p4/3P1B2/8/PPP1PPPP/RN1QKBNR b KQkq -"@
    &&& b.entries@[19].moves@.len() == 3
    &&& b.entries@[19].moves@[0]@ == "g8f6"@
    &&& b.entries@[19].moves@[1]@ == "c7c5"@
    &&& b.entries@[19].moves@[2]@ == "e7e6"@
    &&& b.entries@[20].key@ == "rnbqkb1r/pppp1ppp/4pn2/8/2PP4/2N5/PP2PPPP/R1BQKBNR b KQkq -"@
    &&& b.entries@[20].moves@.len() == 3
    &&& b.entries@[20].moves@[0]@ == "f8b4"@
    &&& b.entries@[20].moves@[1]@ == "d7d5"@
    &&& b.entries@[20].moves@[2]@ == "c7c5"@
    &&& b.entries@[21].key@ == "rnbqkb1r/ppp1pp1p/5np1/3p4/2PP4/2N5/PP2PPPP/R1BQKBNR w KQkq -"@
    &&& b.entries@[21].moves@.len() == 4
    &&& b.entries@[21].moves@[0]@ == "c4xd5"@
    &&& b.entries@[21].moves@[1]@ == "g1f3"@
    &&& b.entries@[21].moves@[2]@ == "c1f4"@
    &&& b.entries@[21].moves@[3]@ == "c1g5"@
    &&& b.entries@[22].key@ == "rnbqkb1r/pppppppp/5n2/2pP4/8/8/PP2PPPP/RNBQKBNR b KQkq -"@
    &&& b.entries@[22].moves@.len() == 3
    &&& b.entries@[22].moves@[0]@ == "e7e6"@
    &&& b.entries@[22].moves@[1]@ == "d7d6"@
    &&& b.entries@[22].moves@[2]@ == "g7g6"@
    &&& b.entries@[23].key@ == "rnbqkbnr/ppppp1pp/8/5p2/3P4/8/PPP1PPPP/RNBQKBNR w KQkq -"@
    &&& b.entries@[23].moves@.len() == 4
    &&& b.entries@[23].moves@[0]@ == "c2c4"@
    &&& b.entries@[23].moves@[1]@ == "g1f3"@
    &&& b.entries@[23].moves@[2]@ == "g2g3"@
    &&& b.entries@[23].moves@[3]@ == "c1g5"@
    &&& b.entries@[24].key@ == "rnbqkb1r/ppp2ppp/4pn2/3p4/2PP4/6P1/PP2PP1P/RNBQKBNR w KQkq -"@
    &&& b.entries@[24].moves@.len() == 2
    &&& b.entries@[24].moves@[0]@ == "f1g2"@
    &&& b.entries@[24].moves@[1]@ == "g1f3"@
}

/// The book's first line is the starting position with its eight
/// candidate first moves.
pub open spec fn has_startpos_entry(b: OpeningBook) -> bool {
    &&& b.entries@.len() > 0
    &&& b.entries@[0].key@ == startpos_key()
    &&& b.entries@[0].moves@.len() == 8
    &&& b.entries@[0].moves@[0]@ == "e2e4"@
    &&& b.entries@[0].moves@[1]@ == "d2d4"@
    &&& b.entries@[0].moves@[2]@ == "c2c4"@
    &&& b.entries@[0].moves@[3]@ == "g1f3"@
    &&& b.entries@[0].moves@[4]@ == "b1c3"@
    &&& b.entries@[0].moves@[5]@ == "f2f4"@
    &&& b.entries@[0].moves@[6]@ == "b2b3"@
    &&& b.entries@[0].moves@[7]@ == "g2g3"@
}

/// On the starting position the book always answers, and only ever
/// with one of its eight stored first moves.
pub proof fn lemma_startpos_book_hit(b: OpeningBook, pick: u64)
    requires
        has_startpos_entry(b),
    ensures
        lookup_spec(b.entries@, startpos_key(), pick) matches Some(m) && (m == "e2e4"@ || m
            == "d2d4"@ || m == "c2c4"@ || m == "g1f3"@ || m == "b1c3"@ || m == "f2f4"@ || m
            == "b2b3"@ || m == "g2g3"@),
{
    let entries = b.entries@;
    assert(first_match_from(entries, startpos_key(), 0) == 0);
    let k = pick as int % 8;
    assert(0 <= k < 8);
}

fn add_entry(entries: &mut Vec<BookEntry>, key: &str, moves: Vec<String>)
    ensures
        final(entries)@.len() == old(entries)@.len() + 1,
        forall|i: int| 0 <= i < old(entries)@.len() ==> final(entries)@[i] == old(entries)@[i],
        final(entries)@[old(entries)@.len() as int].key@ == key@,
        final(entries)@[old(entries)@.len() as int].moves == moves,
{
    entries.push(BookEntry { key: key.to_owned(), moves });
}

impl OpeningBook {
    /// Builds the static book.  The keys are EPD strings; the
    /// candidate replies are UCI move texts.
    pub fn new() -> (b: OpeningBook)
        ensures
            book_complete(b),
            has_startpos_entry(b),
    {
        let mut entries: Vec<BookEntry> = Vec::new();

        // Starting position.
        let mut ms: Vec<String> = Vec::new();
        ms.push("e2e4".to_owned());
        ms.push("d2d4".to_owned());
        ms.push("c2c4".to_owned());
        ms.push("g1f3".to_owned());
        ms.push("b1c3".to_owned());
        ms.push("f2f4".to_owned());
        ms.push("b2b3".to_owned());
        ms.push("g2g3".to_owned());
        add_entry(&mut entries, "rnbqkbnr/pppppppp/8/8/8/8/PPPPPPPP/RNBQKBNR w KQkq -", ms);

        // Replies to 1. e4.
        let mut ms: Vec<String> = Vec::new();
        ms.push("c7c5".to_owned());
        ms.push("e7e5".to_owned());
        ms.push("e7e6".to_owned());
        ms.push("c7c6".to_owned());
        ms.push("d7d5".to_owned());
        ms.push("g8f6".to_owned());
        ms.push("d7d6".to_owned());
        ms.push("g7g6".to_owned());
        ms.push("b7b6".to_owned());
        ms.push("a7a6".to_owned());
        ms.push("h7h6".to_owned());
        add_entry(&mut entries, "rnbqkbnr/pppppppp/8/8/4P3/8/PPPP1PPP/RNBQKBNR b KQkq -", ms);

        // Replies to 1. d4.
        let mut ms: Vec<String> = Vec::new();
        ms.push("g8f6".to_owned());
        ms.push("d7d5".to_owned());
        ms.push("f7f5".to_owned());
        ms.push("e7e6".to_owned());
        ms.push("c7c6".to_owned());
        ms.push("g7g6".to_owned());
        ms.push("d7d6".to_owned());
        add_entry(&mut entries, "rnbqkbnr/pppppppp/8/8/3P4/8/PPP1PPPP/RNBQKBNR b KQkq -", ms);

        // Replies to 1. c4 (English).
        let mut ms: Vec<String> = Vec::new();
        ms.push("e7e5".to_owned());
        ms.push("c7c5".to_owned());
        ms.push("g8f6".to_owned());
        ms.push("e7e6".to_owned());
        add_entry(&mut entries, "rnbqkbnr/pppppppp/8/8/2P5/8/PP1PPPPP/RNBQKBNR b KQkq -", ms);

        // Replies to 1. Nf3 (Reti).
        let mut ms: Vec<String> = Vec::new();
        ms.push("d7d5".to_owned());
        ms.push("g8f6".to_owned());
        ms.push("c7c5".to_owned());
        add_entry(&mut entries, "rnbqkbnr/pppppppp/8/8/8/5N2/PPPPPPPP/RNBQKB1R b KQkq -", ms);

        // Sicilian Defense (1. e4 c5).
        let mut ms: Vec<String> = Vec::new();
        ms.push("g1f3".to_owned());
        ms.push("b1c3".to_owned());
        ms.push("d2d3".to_owned());
        ms.push("c2c3".to_owned());
        add_entry(&mut entries, "rnbqkbnr/pp1ppppp/8/2p5/4P3/8/PPPP1PPP/RNBQKBNR w KQkq -", ms);

        // Open Sicilian (2. Nf3).
        let mut ms: Vec<String> = Vec::new();
        ms.push("d7d6".to_owned());
        ms.push("e7e6".to_owned());
        ms.push("b8c6".to_owned());
        ms.push("g7g6".to_owned());
        ms.push("a7a6".to_owned());
        add_entry(&mut entries, "rnbqkbnr/pp1ppppp/8/2p5/4P3/5N2/PPPP1PPP/RNBQKB1R b KQkq -", ms);

        // Najdorf setup.
        let mut ms: Vec<String> = Vec::new();
        ms.push("c1g5".to_owned());
        ms.push("f2f4".to_owned());
        ms.push("f1e2".to_owned());
        ms.push("h2h3".to_owned());
        ms.push("g2g4".to_owned());
        ms.push("a2a4".to_owned());
        add_entry(&mut entries, "r1bqkb1r/1p2pppp/p2p1n2/8/3NP3/2N5/PPP2PPP/R1BQKB1R w KQkq -", ms);

        // Ruy Lopez (1. e4 e5 2. Nf3 Nc6 3. Bb5).
        let mut ms: Vec<String> = Vec::new();
        ms.push("a7a6".to_owned());
        ms.push("g8f6".to_owned());
        ms.push("d7d6".to_owned());
        ms.push("f7f5".to_owned());
        ms.push("g7g6".to_owned());
        ms.push("b8c6".to_owned());
        add_entry(&mut entries, "r1bqkbnr/pppp1ppp/2n5/1B2p3/4P3/5N2/PPPP1PPP/RNBQK2R b KQkq -", ms);

        // Morphy Defense (3... a6).
        let mut ms: Vec<String> = Vec::new();
        ms.push("b5a4".to_owned());
        ms.push("b5xc6".to_owned());
        add_entry(&mut entries, "r1bqkbnr/1ppp1ppp/p1n5/1B2p3/4P3/5N2/PPPP1PPP/RNBQK2R w KQkq -", ms);

        // Ruy Lopez exchange structure.
        let mut ms: Vec<String> = Vec::new();
        ms.push("d7xc6".to_owned());
        ms.push("b7xc6".to_owned());
        add_entry(&mut entries, "r1bqkbnr/1ppp1ppp/2N5/4p3/4P3/5N2/PPPP1PPP/RNBQK2R b KQkq -", ms);

        // Italian Game (3. Bc4).
        let mut ms: Vec<String> = Vec::new();
        ms.push("f8c5".to_owned());
        ms.push("g8f6".to_owned());
        ms.push("h7h6".to_owned());
        add_entry(&mut entries, "r1bqkbnr/pppp1ppp/2n5/4p3/2B1P3/5N2/PPPP1PPP/RNBQK2R b KQkq -", ms);

        // French Defense (1. e4 e6 2. d4).
        let mut ms: Vec<String> = Vec::new();
        ms.push("d7d5".to_owned());
        ms.push("c7c5".to_owned());
        add_entry(&mut entries, "rnbqkbnr/pppp1ppp/4p3/8/3PP3/8/PPP2PPP/RNBQKBNR b KQkq -", ms);

        // French main line (2... d5).
        let mut ms: Vec<String> = Vec::new();
        ms.push("b1c3".to_owned());
        ms.push("b1d2".to_owned());
        ms.push("e4e5".to_owned());
        ms.push("e4xd5".to_owned());
        add_entry(&mut entries, "rnbqkbnr/ppp2ppp/4p3/3p4/3PP3/8/PPP2PPP/RNBQKBNR w KQkq -", ms);

        // Queen's Gambit (1. d4 d5 2. c4).
        let mut ms: Vec<String> = Vec::new();
        ms.push("e7e6".to_owned());
        ms.push("c7c6".to_owned());
        ms.push("d5xc4".to_owned());
        ms.push("e7e5".to_owned());
        ms.push("g8f6".to_owned());
        add_entry(&mut entries, "rnbqkbnr/ppp1pppp/8/3p4/2PP4/8/PP2PPPP/RNBQKBNR b KQkq -", ms);

        // King's Indian setup (1. d4 Nf6 2. c4 g6).
        let mut ms: Vec<String> = Vec::new();
        ms.push("b1c3".to_owned());
        ms.push("g1f3".to_owned());
        ms.push("g2g3".to_owned());
        add_entry(&mut entries, "rnbqkb1r/pppppp1p/5np1/8/2PP4/8/PP2PPPP/RNBQKBNR w KQkq -", ms);

        // Caro-Kann (1. e4 c6 2. d4).
        let mut ms: Vec<String> = Vec::new();
        ms.push("d7d5".to_owned());
        add_entry(&mut entries, "rnbqkbnr/pp1ppppp/2p5/8/3PP3/8/PPP2PPP/RNBQKBNR b KQkq -", ms);

        // Caro-Kann main line (2... d5).
        let mut ms: Vec<String> = Vec::new();
        ms.push("b1c3".to_owned());
        ms.push("e4e5".to_owned());
        ms.push("e4xd5".to_owned());
        ms.push("b1d2".to_owned());
        add_entry(&mut entries, "rnbqkbnr/pp2pppp/2p5/3p4/3PP3/8/PPP2PPP/RNBQKBNR w KQkq -", ms);

        // Scandinavian (1. e4 d5 2. exd5).
        let mut ms: Vec<String> = Vec::new();
        ms.push("d8xd5".to_owned());
        ms.push("g8f6".to_owned());
        add_entry(&mut entries, "rnbqkbnr/ppp1pppp/8/3P4/8/8/PPPP1PPP/RNBQKBNR b KQkq -", ms);

        // London System (1. d4 d5 2. Bf4).
        let mut ms: Vec<String> = Vec::new();
        ms.push("g8f6".to_owned());
        ms.push("c7c5".to_owned());
        ms.push("e7e6".to_owned());
        add_entry(&mut entries, "rnbqkbnr/ppp1pppp/8/3p4/3P1B2/8/PPP1PPPP/RN1QKBNR b KQkq -", ms);

        // Nimzo-Indian setup (3. Nc3).
        let mut ms: Vec<String> = Vec::new();
        ms.push("f8b4".to_owned());
        ms.push("d7d5".to_owned());
        ms.push("c7c5".to_owned());
        add_entry(&mut entries, "rnbqkb1r/pppp1ppp/4pn2/8/2PP4/2N5/PP2PPPP/R1BQKBNR b KQkq -", ms);

        // Gruenfeld (3... d5).
        let mut ms: Vec<String> = Vec::new();
        ms.push("c4xd5".to_owned());
        ms.push("g1f3".to_owned());
        ms.push("c1f4".to_owned());
        ms.push("c1g5".to_owned());
        add_entry(&mut entries, "rnbqkb1r/ppp1pp1p/5np1/3p4/2PP4/2N5/PP2PPPP/R1BQKBNR w KQkq -", ms);

        // Benoni (1. d4 Nf6 2. c4 c5 3. d5).
        let mut ms: Vec<String> = Vec::new();
        ms.push("e7e6".to_owned());
        ms.push("d7d6".to_owned());
        ms.push("g7g6".to_owned());
        add_entry(&mut entries, "rnbqkb1r/pppppppp/5n2/2pP4/8/8/PP2PPPP/RNBQKBNR b KQkq -", ms);

        // Dutch Defense (1. d4 f5).
        let mut ms: Vec<String> = Vec::new();
        ms.push("c2c4".to_owned());
        ms.push("g1f3".to_owned());
        ms.push("g2g3".to_owned());
        ms.push("c1g5".to_owned());
        add_entry(&mut entries, "rnbqkbnr/ppppp1pp/8/5p2/3P4/8/PPP1PPPP/RNBQKBNR w KQkq -", ms);

        // Catalan setup.
        let mut ms: Vec<String> = Vec::new();
        ms.push("f1g2".to_owned());
        ms.push("g1f3".to_owned());
        add_entry(&mut entries, "rnbqkb1r/ppp2ppp/4pn2/3p4/2PP4/6P1/PP2PP1P/RNBQKBNR w KQkq -", ms);

        OpeningBook { entries }
    }

    /// Scans the book for `key` and returns candidate `pick % n` of
    /// the first matching line.
    pub fn lookup(&self, key: &String, pick: u64) -> (r: Option<String>)
        ensures
            match r {
                Some(m) => lookup_spec(self.entries@, key@, pick) == Some(m@),
                None => lookup_spec(self.entries@, key@, pick) is None,
            },
    {
        let n = self.entries.len();
        let mut i: usize = 0;
        while i < n
            invariant
                n == self.entries@.len(),
                i <= n,
                forall|j: int| 0 <= j < i ==> self.entries@[j].key@ != key@,
            decreases n - i,
        {
            let e = &self.entries[i];
            if e.key == *key {
                proof {
                    lemma_first_match_skip(self.entries@, key@, i as int);
                }
                let count = e.moves.len();
                if count > 0 {
                    let idx = (pick % (count as u64)) as usize;
                    return Some(e.moves[idx].clone());
                } else {
                    return None;
                }
            }
            i = i + 1;
        }
        proof {
            lemma_first_match_skip(self.entries@, key@, n as int);
        }
        None
    }

    /// Book probe for a position: its EPD rendering is the key, the
    /// clock picks among the candidates.  Any move handed back is one
    /// of the book's stored candidate texts.
    pub fn get_move(&self, pos: &Chess) -> (r: Option<String>)
        ensures
            r matches Some(m) ==> exists|i: int, k: int|
                0 <= i < self.entries@.len() && 0 <= k < self.entries@[i].moves@.len() && m@
                    == self.entries@[i].moves@[k]@,
    {
        let key = epd_string(pos);
        let pick = clock_nanos();
        let r = self.lookup(&key, pick);
        match &r {
            Some(m) => {
                proof {
                    let entries = self.entries@;
                    assert(lookup_spec(entries, key@, pick) == Some(m@));
                    lemma_first_match_bounds(entries, key@, 0);
                    let i = first_match_from(entries, key@, 0);
                    assert(0 <= i < entries.len());
                    let mlen = entries[i].moves@.len() as int;
                    assert(mlen > 0);
                    let k = pick as int % mlen;
                    assert(0 <= k < mlen);
                    assert(m@ == entries[i].moves@[k]@);
                }
            },
            None => {},
        }
        r
    }
}

} // verus!
