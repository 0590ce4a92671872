//! The command interpreter: a pure, total mapping from a received command byte
//! to the display instruction it stands for, or to none for unmapped bytes.

use vstd::prelude::*;

verus! {

/// Vertical reference for a text anchor: the anchor marks the top edge of the
/// glyph bounding box.
#[derive(Clone, Copy, Debug, PartialEq, Eq)]
pub enum Baseline {
    Top,
}

/// A resolved rendering action: a text to draw and where to anchor it.
#[derive(Clone, Copy, Debug, PartialEq, Eq)]
pub struct Instruction {
    pub text: &'static str,
    pub x: i32,
    pub y: i32,
    pub baseline: Baseline,
}

/// The mathematical value of an [`Instruction`]: its text as a character
/// sequence, and the anchor as unbounded integers.
pub struct InstrView {
    pub text: Seq<char>,
    pub x: int,
    pub y: int,
    pub baseline: Baseline,
}

impl View for Instruction {
    type V = InstrView;

    open spec fn view(&self) -> InstrView {
        InstrView { text: self.text@, x: self.x as int, y: self.y as int, baseline: self.baseline }
    }
}

/// The text that a command byte puts on the screen, or `None` when the byte is
/// unmapped and the screen is left blank.
pub open spec fn screen_of(b: u8) -> Option<Seq<char>> {
    if b == 1 {
        Some("Hello!"@)
    } else if b == 2 {
        Some("World!"@)
    } else if b == 3 {
        Some("ESP32 + Rust!"@)
    } else {
        None
    }
}

/// An instruction that draws `text` anchored at the origin with a top baseline:
/// the only shape of instruction the command table produces.
pub open spec fn instr_at_origin(text: Seq<char>) -> InstrView {
    InstrView { text: text, x: 0, y: 0, baseline: Baseline::Top }
}

/// The instruction a command byte resolves to, as a mathematical value.
pub open spec fn resolve_spec(b: u8) -> Option<InstrView> {
    match screen_of(b) {
        Some(t) => Some(instr_at_origin(t)),
        None => None,
    }
}

/// The view of an optional instruction.
pub open spec fn view_opt(r: Option<Instruction>) -> Option<InstrView> {
    match r {
        Some(i) => Some(i@),
        None => None,
    }
}

/// Resolve a command byte to its display instruction.
///
/// The mapping is total and deterministic: bytes 1, 2 and 3 yield their fixed
/// texts anchored at the origin with a top baseline, and every other byte
/// yields no instruction.
pub fn resolve(b: u8) -> (r: Option<Instruction>)
    ensures
        view_opt(r) == resolve_spec(b),
{
    match b {
        1 => Some(Instruction { text: "Hello!", x: 0, y: 0, baseline: Baseline::Top }),
        2 => Some(Instruction { text: "World!", x: 0, y: 0, baseline: Baseline::Top }),
        3 => Some(Instruction { text: "ESP32 + Rust!", x: 0, y: 0, baseline: Baseline::Top }),
        _ => None,
    }
}

/// The command mapping is total: every byte resolves to exactly one of the
/// three fixed texts at the origin, or to no instruction at all.
pub proof fn lemma_resolve_total()
    ensures
        forall|b: u8|
            #![trigger resolve_spec(b)]
            resolve_spec(b) == Some(instr_at_origin("Hello!"@)) || resolve_spec(b) == Some(
                instr_at_origin("World!"@),
            ) || resolve_spec(b) == Some(instr_at_origin("ESP32 + Rust!"@)) || resolve_spec(
                b,
            ) is None,
{
}

} // verus!
