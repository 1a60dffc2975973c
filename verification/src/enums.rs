//! The named styles and weights of a face, and the numeric codes that the font engine
//! uses for them. A code without a name is carried along as it is.

use vstd::prelude::*;

verus! {

/// The slant category of a face.
#[allow(non_camel_case_types)]
#[derive(Clone, Copy, Debug, PartialEq, Eq)]
pub enum Style {
    NORMAL,
    OBLIQUE,
    ITALIC,
    /// A code that has no name.
    OTHER(i32),
}

impl Style {
    /// The engine's code for each style.
    pub open spec fn spec_code(self) -> int {
        match self {
            Style::NORMAL => 0,
            Style::OBLIQUE => 1,
            Style::ITALIC => 2,
            Style::OTHER(code) => code as int,
        }
    }

    /// The style that stands for a code: its name where it has one.
    pub open spec fn spec_from_code(code: int) -> Style {
        if code == 0 {
            Style::NORMAL
        } else if code == 1 {
            Style::OBLIQUE
        } else if code == 2 {
            Style::ITALIC
        } else {
            Style::OTHER(code as i32)
        }
    }

    /// `OTHER` holds no code that has a name.
    pub open spec fn canonical(self) -> bool {
        self matches Style::OTHER(code) ==> !(0 <= code <= 2)
    }

    /// The engine's code for this style.
    pub fn code(&self) -> (r: i32)
        ensures
            r == self.spec_code(),
    {
        match self {
            Style::NORMAL => 0,
            Style::OBLIQUE => 1,
            Style::ITALIC => 2,
            Style::OTHER(code) => *code,
        }
    }

    /// Reads a code of the engine. No code is refused.
    pub fn from_code(code: i32) -> (r: Style)
        ensures
            r == Style::spec_from_code(code as int),
            r.canonical(),
            r.spec_code() == code,
    {
        if code == 0 {
            Style::NORMAL
        } else if code == 1 {
            Style::OBLIQUE
        } else if code == 2 {
            Style::ITALIC
        } else {
            Style::OTHER(code)
        }
    }

    /// Reading the code of a canonical style gives the style back.
    pub proof fn lemma_code_round_trip(style: Style)
        requires
            style.canonical(),
        ensures
            Style::spec_from_code(style.spec_code()) == style,
    {
    }
}

/// The stroke thickness of a face.
#[allow(non_camel_case_types)]
#[derive(Clone, Copy, Debug, PartialEq, Eq)]
pub enum Weight {
    THIN,
    EXTRA_LIGHT,
    LIGHT,
    SEMI_LIGHT,
    NORMAL,
    MEDIUM,
    SEMI_BOLD,
    BOLD,
    EXTRA_BOLD,
    BLACK,
    EXTRA_BLACK,
    /// A code that has no name.
    OTHER(i32),
}

/// Whether a weight code has a name.
pub open spec fn weight_code_is_named(code: int) -> bool {
    code == 100 || code == 200 || code == 300 || code == 350 || code == 400 || code == 500 || code
        == 600 || code == 700 || code == 800 || code == 900 || code == 950
}

impl Weight {
    /// The engine's code for each weight.
    pub open spec fn spec_code(self) -> int {
        match self {
            Weight::THIN => 100,
            Weight::EXTRA_LIGHT => 200,
            Weight::LIGHT => 300,
            Weight::SEMI_LIGHT => 350,
            Weight::NORMAL => 400,
            Weight::MEDIUM => 500,
            Weight::SEMI_BOLD => 600,
            Weight::BOLD => 700,
            Weight::EXTRA_BOLD => 800,
            Weight::BLACK => 900,
            Weight::EXTRA_BLACK => 950,
            Weight::OTHER(code) => code as int,
        }
    }

    /// The weight that stands for a code: its name where it has one.
    pub open spec fn spec_from_code(code: int) -> Weight {
        if code == 100 {
            Weight::THIN
        } else if code == 200 {
            Weight::EXTRA_LIGHT
        } else if code == 300 {
            Weight::LIGHT
        } else if code == 350 {
            Weight::SEMI_LIGHT
        } else if code == 400 {
            Weight::NORMAL
        } else if code == 500 {
            Weight::MEDIUM
        } else if code == 600 {
            Weight::SEMI_BOLD
        } else if code == 700 {
            Weight::BOLD
        } else if code == 800 {
            Weight::EXTRA_BOLD
        } else if code == 900 {
            Weight::BLACK
        } else if code == 950 {
            Weight::EXTRA_BLACK
        } else {
            Weight::OTHER(code as i32)
        }
    }

    /// `OTHER` holds no code that has a name.
    pub open spec fn canonical(self) -> bool {
        self matches Weight::OTHER(code) ==> !weight_code_is_named(code as int)
    }

    /// The engine's code for this weight.
    pub fn code(&self) -> (r: i32)
        ensures
            r == self.spec_code(),
    {
        match self {
            Weight::THIN => 100,
            Weight::EXTRA_LIGHT => 200,
            Weight::LIGHT => 300,
            Weight::SEMI_LIGHT => 350,
            Weight::NORMAL => 400,
            Weight::MEDIUM => 500,
            Weight::SEMI_BOLD => 600,
            Weight::BOLD => 700,
            Weight::EXTRA_BOLD => 800,
            Weight::BLACK => 900,
            Weight::EXTRA_BLACK => 950,
            Weight::OTHER(code) => *code,
        }
    }

    /// Reads a code of the engine. No code is refused.
    pub fn from_code(code: i32) -> (r: Weight)
        ensures
            r == Weight::spec_from_code(code as int),
            r.canonical(),
            r.spec_code() == code,
    {
        if code == 100 {
            Weight::THIN
        } else if code == 200 {
            Weight::EXTRA_LIGHT
        } else if code == 300 {
            Weight::LIGHT
        } else if code == 350 {
            Weight::SEMI_LIGHT
        } else if code == 400 {
            Weight::NORMAL
        } else if code == 500 {
            Weight::MEDIUM
        } else if code == 600 {
            Weight::SEMI_BOLD
        } else if code == 700 {
            Weight::BOLD
        } else if code == 800 {
            Weight::EXTRA_BOLD
        } else if code == 900 {
            Weight::BLACK
        } else if code == 950 {
            Weight::EXTRA_BLACK
        } else {
            Weight::OTHER(code)
        }
    }

    /// Reading the code of a canonical weight gives the weight back.
    pub proof fn lemma_code_round_trip(weight: Weight)
        requires
            weight.canonical(),
        ensures
            Weight::spec_from_code(weight.spec_code()) == weight,
    {
    }
}

} // verus!
