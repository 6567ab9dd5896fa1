//! The two enumerations of the format. A document holds each as a fixed whole
//! number, which is part of the format and not the position of a variant.

use vstd::prelude::*;

verus! {

/// Game mode of the map
#[derive(Clone, Copy, Debug, PartialEq, Eq, Structural)]
pub enum GameMode {
    Keys4,
    Keys7,
}

impl GameMode {
    /// The number of keys that the mode is played with.
    pub open spec fn key_count(self) -> int {
        match self {
            GameMode::Keys4 => 4,
            GameMode::Keys7 => 7,
        }
    }

    /// The mode that is played with `key_count` keys, if there is one.
    pub open spec fn of_key_count(key_count: int) -> Option<GameMode> {
        if key_count == 4 {
            Some(GameMode::Keys4)
        } else if key_count == 7 {
            Some(GameMode::Keys7)
        } else {
            None
        }
    }

    /// The number that stands for the mode in a document.
    pub open spec fn code(self) -> int {
        match self {
            GameMode::Keys4 => 1,
            GameMode::Keys7 => 2,
        }
    }

    /// The mode that `code` stands for in a document, if it stands for one.
    pub open spec fn of_code(code: int) -> Option<GameMode> {
        if code == 1 {
            Some(GameMode::Keys4)
        } else if code == 2 {
            Some(GameMode::Keys7)
        } else {
            None
        }
    }

    pub fn from_key_count(key_count: i32) -> (r: Option<GameMode>)
        ensures
            r == Self::of_key_count(key_count as int),
    {
        match key_count {
            4 => Some(GameMode::Keys4),
            7 => Some(GameMode::Keys7),
            _ => None,
        }
    }

    pub fn get_key_count(self) -> (r: i32)
        ensures
            r == self.key_count(),
    {
        match self {
            GameMode::Keys4 => 4,
            GameMode::Keys7 => 7,
        }
    }

    /// The number that a document holds for this mode.
    pub fn to_code(self) -> (r: i64)
        ensures
            r == self.code(),
    {
        match self {
            GameMode::Keys4 => 1,
            GameMode::Keys7 => 2,
        }
    }

    /// The mode that a document means by `code`.
    pub fn from_code(code: i64) -> (r: Option<GameMode>)
        ensures
            r == Self::of_code(code as int),
    {
        match code {
            1 => Some(GameMode::Keys4),
            2 => Some(GameMode::Keys7),
            _ => None,
        }
    }

    /// Every mode is found again from its key count, and a key count that
    /// gives a mode is the key count of that mode.
    pub proof fn lemma_key_count_inverse(mode: GameMode, key_count: int)
        ensures
            Self::of_key_count(mode.key_count()) == Some(mode),
            Self::of_key_count(key_count) matches Some(m) ==> m.key_count() == key_count,
    {
    }

    /// Every mode is found again from its number, and a number that stands for
    /// a mode is the number of that mode.
    pub proof fn lemma_code_inverse(mode: GameMode, code: int)
        ensures
            Self::of_code(mode.code()) == Some(mode),
            Self::of_code(code) matches Some(m) ==> m.code() == code,
    {
    }
}

/// Time signature of the song
#[derive(Clone, Copy, Debug, PartialEq, Eq, Structural)]
pub enum TimeSignature {
    Quadruple,
    Triple,
}

impl TimeSignature {
    /// The number that stands for the signature in a document: its beats.
    pub open spec fn code(self) -> int {
        match self {
            TimeSignature::Quadruple => 4,
            TimeSignature::Triple => 3,
        }
    }

    /// The signature that `code` stands for in a document, if it stands for
    /// one.
    pub open spec fn of_code(code: int) -> Option<TimeSignature> {
        if code == 4 {
            Some(TimeSignature::Quadruple)
        } else if code == 3 {
            Some(TimeSignature::Triple)
        } else {
            None
        }
    }

    /// The number that a document holds for this signature.
    pub fn to_code(self) -> (r: i64)
        ensures
            r == self.code(),
    {
        match self {
            TimeSignature::Quadruple => 4,
            TimeSignature::Triple => 3,
        }
    }

    /// The signature that a document means by `code`.
    pub fn from_code(code: i64) -> (r: Option<TimeSignature>)
        ensures
            r == Self::of_code(code as int),
    {
        match code {
            4 => Some(TimeSignature::Quadruple),
            3 => Some(TimeSignature::Triple),
            _ => None,
        }
    }

    /// Every signature is found again from its number, and a number that
    /// stands for a signature is the number of that signature.
    pub proof fn lemma_code_inverse(signature: TimeSignature, code: int)
        ensures
            Self::of_code(signature.code()) == Some(signature),
            Self::of_code(code) matches Some(s) ==> s.code() == code,
    {
    }
}

} // verus!
