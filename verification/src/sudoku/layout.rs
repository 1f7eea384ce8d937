//! The keys of the digit pad.

use vstd::prelude::*;
use vstd::string::*;

use crate::sudoku_rules::types::Digit;
use crate::text::decimal;

verus! {

/// One key on the digit pad.
#[derive(Debug, Clone, Copy, PartialEq, Eq, Structural)]
pub enum PadKey {
    /// Enter this digit in the selected cell.
    Digit(Digit),
    /// Empty the selected cell.
    Clear,
}

impl PadKey {
    /// A key's digit is one through nine.
    pub open spec fn wf(self) -> bool {
        self matches PadKey::Digit(digit) ==> digit.wf()
    }

    /// The number the key writes in a cell, `0` for emptying it.
    pub open spec fn writes(self) -> int {
        match self {
            PadKey::Digit(digit) => digit@,
            PadKey::Clear => 0,
        }
    }

    /// What the key says.
    pub open spec fn label_text(self) -> Seq<char> {
        match self {
            PadKey::Digit(digit) => decimal(digit@ as nat),
            PadKey::Clear => "CLR"@,
        }
    }

    /// Every key, in the order they are drawn: the nine digits, then the one
    /// that empties.
    pub fn all() -> (keys: [PadKey; 10])
        ensures
            forall|i: int| 0 <= i < 10 ==> (#[trigger] keys@[i]).wf(),
            forall|i: int|
                0 <= i < 9 ==> (#[trigger] keys@[i]) is Digit && keys@[i].writes() == i + 1,
            keys@[9] == PadKey::Clear,
    {
        let keys: [PadKey; 10] = [
            PadKey::Digit(Digit(1)),
            PadKey::Digit(Digit(2)),
            PadKey::Digit(Digit(3)),
            PadKey::Digit(Digit(4)),
            PadKey::Digit(Digit(5)),
            PadKey::Digit(Digit(6)),
            PadKey::Digit(Digit(7)),
            PadKey::Digit(Digit(8)),
            PadKey::Digit(Digit(9)),
            PadKey::Clear,
        ];
        keys
    }

    /// What the key says.
    pub fn label(self) -> (label: String)
        requires
            self.wf(),
        ensures
            label@ == self.label_text(),
    {
        match self {
            PadKey::Digit(digit) => digit.text(),
            PadKey::Clear => "CLR".to_owned(),
        }
    }
}

} // verus!
