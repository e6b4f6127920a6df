//! What the front ends show around a claim. Nothing here reads or changes a record.

use crate::rules::{dragon_marker, has_dragon_marker, has_unicorn_marker, unicorn_marker};
use crate::text::has_substring;
use vstd::prelude::*;

verus! {

/// The most entries a board of recent claimers shows.
pub const BOARD_LIMIT: usize = 10;

/// The number of pieces in one burst of confetti.
pub const CONFETTI_PIECES: u32 = 40;

/// One line of the board of recent claimers.
#[derive(Clone, Debug, PartialEq, Eq)]
pub struct LeaderItem {
    /// Who claimed.
    pub username: String,
    /// The streak that the claim led to.
    pub streak: u32,
}

/// One piece of confetti, as the page places it.
#[derive(Clone, Copy, Debug, PartialEq, Eq)]
pub struct ConfettiPiece {
    /// Distance from the left edge, in percent.
    pub left: u32,
    /// Distance from the top edge, in percent.
    pub top: u32,
    /// Width and height, in pixels.
    pub size: u32,
    /// Rotation, in degrees.
    pub rotation: u32,
    /// Fill colour, as a hexadecimal colour code.
    pub color: &'static str,
}

/// The line shown with an accepted claim. The unicorn marker is looked for
/// first, then the dragon marker.
pub open spec fn spec_claim_message(username: Seq<char>) -> Seq<char> {
    if has_substring(username, unicorn_marker()) {
        "You brought unicorns! 🦄✨"@
    } else if has_substring(username, dragon_marker()) {
        "Dragon breathes fire! 🐉 +42 bonus applied"@
    } else {
        "Claim successful!"@
    }
}

/// The colour of the confetti piece with the given index: the palette of six
/// colours, gone through in turn.
pub open spec fn spec_random_color(index: nat) -> Seq<char> {
    let turn = index % 6;
    if turn == 0 {
        "#ff7ab6"@
    } else if turn == 1 {
        "#ffd166"@
    } else if turn == 2 {
        "#06d6a0"@
    } else if turn == 3 {
        "#84ccff"@
    } else if turn == 4 {
        "#b388eb"@
    } else {
        "#ff9f43"@
    }
}

/// The board after `item` was put on top of `board`: `item` first, then the
/// entries of `board` in their order, as many as fit under [`BOARD_LIMIT`].
pub open spec fn spec_board_with(board: Seq<LeaderItem>, item: LeaderItem) -> Seq<LeaderItem> {
    if board.len() < BOARD_LIMIT {
        board.insert(0, item)
    } else {
        board.insert(0, item).take(BOARD_LIMIT as int)
    }
}

/// The line shown with an accepted claim by `username`.
pub fn claim_message(username: &str) -> (message: &'static str)
    ensures
        message@ == spec_claim_message(username@),
{
    if has_unicorn_marker(username) {
        "You brought unicorns! 🦄✨"
    } else if has_dragon_marker(username) {
        "Dragon breathes fire! 🐉 +42 bonus applied"
    } else {
        "Claim successful!"
    }
}

/// The colour of the confetti piece with the given index.
pub fn random_color(index: usize) -> (color: &'static str)
    ensures
        color@ == spec_random_color(index as nat),
{
    let turn: usize = index % 6;
    if turn == 0 {
        "#ff7ab6"
    } else if turn == 1 {
        "#ffd166"
    } else if turn == 2 {
        "#06d6a0"
    } else if turn == 3 {
        "#84ccff"
    } else if turn == 4 {
        "#b388eb"
    } else {
        "#ff9f43"
    }
}

/// Where piece `index` of a burst goes and how it looks.
pub fn confetti_piece(index: u32) -> (piece: ConfettiPiece)
    ensures
        piece.left == (index * 7) % 100,
        piece.top == (index * 3) % 80,
        piece.size == 6 + index % 6,
        piece.rotation == (index * 37) % 360,
        piece.color@ == spec_random_color(index as nat),
{
    let wide: u64 = index as u64;
    ConfettiPiece {
        left: ((wide * 7) % 100) as u32,
        top: ((wide * 3) % 80) as u32,
        size: 6 + index % 6,
        rotation: ((wide * 37) % 360) as u32,
        color: random_color(index as usize),
    }
}

/// The pieces of one burst of confetti, in order.
pub fn confetti_burst() -> (pieces: Vec<ConfettiPiece>)
    ensures
        pieces@.len() == CONFETTI_PIECES,
        forall|i: int|
            0 <= i < CONFETTI_PIECES ==> {
                &&& (#[trigger] pieces@[i]).left == (i * 7) % 100
                &&& pieces@[i].top == (i * 3) % 80
                &&& pieces@[i].size == 6 + i % 6
                &&& pieces@[i].rotation == (i * 37) % 360
                &&& pieces@[i].color@ == spec_random_color(i as nat)
            },
{
    let mut pieces: Vec<ConfettiPiece> = Vec::new();
    let mut index: u32 = 0;
    while index < CONFETTI_PIECES
        invariant
            index <= CONFETTI_PIECES,
            pieces@.len() == index,
            forall|i: int|
                0 <= i < index ==> {
                    &&& (#[trigger] pieces@[i]).left == (i * 7) % 100
                    &&& pieces@[i].top == (i * 3) % 80
                    &&& pieces@[i].size == 6 + i % 6
                    &&& pieces@[i].rotation == (i * 37) % 360
                    &&& pieces@[i].color@ == spec_random_color(i as nat)
                },
        decreases CONFETTI_PIECES - index,
    {
        pieces.push(confetti_piece(index));
        index += 1;
    }
    pieces
}

/// Puts a claim on top of the board of recent claimers and drops what no
/// longer fits under [`BOARD_LIMIT`].
pub fn record_on_board(board: &mut Vec<LeaderItem>, username: String, streak: u32)
    ensures
        final(board)@ == spec_board_with(old(board)@, LeaderItem { username, streak }),
        final(board)@.len() == if old(board)@.len() < BOARD_LIMIT {
            old(board)@.len() + 1
        } else {
            BOARD_LIMIT as nat
        },
{
    board.insert(0, LeaderItem { username, streak });
    if board.len() > BOARD_LIMIT {
        board.truncate(BOARD_LIMIT);
    }
}

} // verus!
