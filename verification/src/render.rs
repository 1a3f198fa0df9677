//! The full-frame render mapping: from a session to the ordered list of
//! positioned text items one redraw paints. The illustration stage shown is
//! the mistake count; the final stage is flagged for an attention color.

use vstd::prelude::*;
use crate::game::{
    spec_guessed_display, spec_masked, GameModel, Outcome, MAX_STAGES,
};
use crate::letters::{ascii_to_string, chars_of_bytes};
use crate::session::Session;

verus! {

/// Rows of one illustration frame, the leading blank row included.
pub const ART_ROWS: usize = 8;

/// One positioned piece of text of a frame. `warning` asks for the attention
/// color instead of the default one.
pub struct FrameItem {
    pub col: u16,
    pub row: u16,
    pub warning: bool,
    pub text: String,
}

/// Row `row` of the illustration at stage `stage`: the gallows is always
/// there; head, torso, arms and legs appear as the stage advances.
pub open spec fn spec_art_line(stage: int, row: int) -> Seq<char> {
    if row == 0 {
        ""@
    } else if row == 1 {
        "    +---+"@
    } else if row == 2 {
        "    |   |"@
    } else if row == 3 {
        if stage >= 1 {
            "    O   |"@
        } else {
            "        |"@
        }
    } else if row == 4 {
        if stage >= 4 {
            "   /|\\  |"@
        } else if stage == 3 {
            "   /|   |"@
        } else if stage == 2 {
            "    |   |"@
        } else {
            "        |"@
        }
    } else if row == 5 {
        if stage >= 6 {
            "   / \\  |"@
        } else if stage == 5 {
            "   /    |"@
        } else {
            "        |"@
        }
    } else if row == 6 {
        "        |"@
    } else {
        "    ========="@
    }
}

pub fn art_line(stage: usize, row: usize) -> (r: &'static str)
    ensures
        r@ == spec_art_line(stage as int, row as int),
{
    if row == 0 {
        ""
    } else if row == 1 {
        "    +---+"
    } else if row == 2 {
        "    |   |"
    } else if row == 3 {
        if stage >= 1 {
            "    O   |"
        } else {
            "        |"
        }
    } else if row == 4 {
        if stage >= 4 {
            "   /|\\  |"
        } else if stage == 3 {
            "   /|   |"
        } else if stage == 2 {
            "    |   |"
        } else {
            "        |"
        }
    } else if row == 5 {
        if stage >= 6 {
            "   / \\  |"
        } else if stage == 5 {
            "   /    |"
        } else {
            "        |"
        }
    } else if row == 6 {
        "        |"
    } else {
        "    ========="
    }
}

/// The one-line instruction for the current phase of the session.
pub open spec fn spec_instruction(m: GameModel) -> Seq<char> {
    if m.outcome() == Outcome::InProgress {
        "Press character to guess or Esc to give up"@
    } else {
        "Press Esc to exit or Enter to start a new game"@
    }
}

/// Whether one frame item is the expected item `k` of a full redraw of `s`:
/// the status line at the top, the illustration of stage `mistakes` under
/// it (in the attention color exactly on the final stage), then the masked
/// word, the guessed-letter listing and the instruction line.
pub open spec fn item_matches(s: Session, k: int, it: FrameItem) -> bool {
    if k == 0 {
        it.col == 0 && it.row == 0 && !it.warning && it.text@ == s.status@
    } else if 1 <= k < 1 + ART_ROWS {
        &&& it.col == 0
        &&& it.row as int == k
        &&& it.warning == s.game@.is_lost()
        &&& it.text@ == spec_art_line(s.game@.mistakes, k - 1)
    } else if k == 1 + ART_ROWS {
        it.col == 20 && it.row as int == MAX_STAGES / 2 + 1 && !it.warning && it.text@ == "Word: "@
            + chars_of_bytes(spec_masked(s.game@))
    } else if k == 2 + ART_ROWS {
        it.col == 0 && it.row as int == 3 + MAX_STAGES && !it.warning && it.text@
            == "Guessed Characters: "@ + chars_of_bytes(spec_guessed_display(s.game@))
    } else {
        it.col == 0 && it.row as int == 4 + MAX_STAGES && !it.warning && it.text@
            == spec_instruction(s.game@)
    }
}

/// Build the full redraw of the session: every frame paints the same twelve
/// items, cleared screen assumed, in the order `item_matches` lays down.
pub fn render_frame(s: &Session) -> (items: Vec<FrameItem>)
    requires
        s.wf(),
    ensures
        items@.len() == 3 + ART_ROWS + 1,
        forall|k: int| 0 <= k < items@.len() ==> item_matches(*s, k, #[trigger] items@[k]),
{
    let mut items: Vec<FrameItem> = Vec::new();
    items.push(FrameItem { col: 0, row: 0, warning: false, text: s.status.clone() });
    let stage = s.game.mistake_count();
    let warn = stage == MAX_STAGES - 1;
    let mut l: usize = 0;
    while l < ART_ROWS
        invariant
            s.wf(),
            stage == s.game@.mistakes,
            warn == s.game@.is_lost(),
            l <= ART_ROWS,
            items@.len() == 1 + l,
            forall|k: int| 0 <= k < 1 + l ==> item_matches(*s, k, #[trigger] items@[k]),
        decreases ART_ROWS - l,
    {
        items.push(
            FrameItem {
                col: 0,
                row: (1 + l) as u16,
                warning: warn,
                text: String::from_str(art_line(stage, l)),
            },
        );
        l += 1;
    }
    let view = s.game.render_view();
    let masked = ascii_to_string(view.masked);
    let listing = ascii_to_string(view.guessed_display);
    proof {
        assert(forall|i: int|
            0 <= i < spec_masked(s.game@).len() ==> #[trigger] spec_masked(s.game@)[i] < 128);
        assert(forall|i: int|
            0 <= i < spec_guessed_display(s.game@).len() ==> #[trigger] spec_guessed_display(
                s.game@,
            )[i] < 128);
    }
    items.push(
        FrameItem {
            col: 20,
            row: (MAX_STAGES / 2 + 1) as u16,
            warning: false,
            text: String::from_str("Word: ").concat(masked.as_str()),
        },
    );
    items.push(
        FrameItem {
            col: 0,
            row: (3 + MAX_STAGES) as u16,
            warning: false,
            text: String::from_str("Guessed Characters: ").concat(listing.as_str()),
        },
    );
    let instruction = if view.outcome == Outcome::InProgress {
        String::from_str("Press character to guess or Esc to give up")
    } else {
        String::from_str("Press Esc to exit or Enter to start a new game")
    };
    items.push(
        FrameItem { col: 0, row: (4 + MAX_STAGES) as u16, warning: false, text: instruction },
    );
    items
}

} // verus!
