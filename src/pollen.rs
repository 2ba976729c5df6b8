use vstd::prelude::*;

verus! {

/// Forecast pollen index class, from a raw reading truncated to an integer.
#[derive(Debug, Clone, Copy, PartialEq, Eq, Structural)]
pub enum PollenIndex {
    Unknown,
    VeryLow,
    Low,
    Moderate,
    High,
    VeryHigh,
}

/// The class that an integer index code stands for; every other code is `Unknown`.
pub open spec fn index_class(code: i32) -> PollenIndex {
    if code == 1 {
        PollenIndex::VeryLow
    } else if code == 2 {
        PollenIndex::Low
    } else if code == 3 {
        PollenIndex::Moderate
    } else if code == 4 {
        PollenIndex::High
    } else if code == 5 {
        PollenIndex::VeryHigh
    } else {
        PollenIndex::Unknown
    }
}

impl PollenIndex {
    /// Classifies a raw index reading that has been truncated to an integer.
    pub fn from_raw(raw: i32) -> (r: PollenIndex)
        ensures
            r == index_class(raw),
    {
        match raw {
            1 => PollenIndex::VeryLow,
            2 => PollenIndex::Low,
            3 => PollenIndex::Moderate,
            4 => PollenIndex::High,
            5 => PollenIndex::VeryHigh,
            _ => PollenIndex::Unknown,
        }
    }

    /// The words used for the class in spoken text.
    pub fn to_spoken(&self) -> (r: &'static str)
        ensures
            r@ == match *self {
                PollenIndex::Unknown => "unknown"@,
                PollenIndex::VeryLow => "very low"@,
                PollenIndex::Low => "low"@,
                PollenIndex::Moderate => "moderate"@,
                PollenIndex::High => "high"@,
                PollenIndex::VeryHigh => "very high"@,
            },
    {
        match self {
            PollenIndex::Unknown => "unknown",
            PollenIndex::VeryLow => "very low",
            PollenIndex::Low => "low",
            PollenIndex::Moderate => "moderate",
            PollenIndex::High => "high",
            PollenIndex::VeryHigh => "very high",
        }
    }

    /// The digit shown for the class: its rank, `0` for `Unknown`.
    pub fn display_str(&self) -> (r: &'static str)
        ensures
            r@ == match *self {
                PollenIndex::Unknown => "0"@,
                PollenIndex::VeryLow => "1"@,
                PollenIndex::Low => "2"@,
                PollenIndex::Moderate => "3"@,
                PollenIndex::High => "4"@,
                PollenIndex::VeryHigh => "5"@,
            },
    {
        match self {
            PollenIndex::Unknown => "0",
            PollenIndex::VeryLow => "1",
            PollenIndex::Low => "2",
            PollenIndex::Moderate => "3",
            PollenIndex::High => "4",
            PollenIndex::VeryHigh => "5",
        }
    }
}

/// Main pollen source class, from a raw reading truncated to an integer.
#[derive(Debug, Clone, Copy, PartialEq, Eq, Structural)]
pub enum PollenType {
    Unknown,
    Alder,
    Birch,
    Grass,
    Olive,
    Mugwort,
    Ragweed,
}

/// The class that an integer source code stands for; every other code is `Unknown`.
pub open spec fn source_class(code: i32) -> PollenType {
    if code == 1 {
        PollenType::Alder
    } else if code == 2 {
        PollenType::Birch
    } else if code == 3 {
        PollenType::Grass
    } else if code == 4 {
        PollenType::Olive
    } else if code == 5 {
        PollenType::Mugwort
    } else if code == 6 {
        PollenType::Ragweed
    } else {
        PollenType::Unknown
    }
}

impl PollenType {
    /// Classifies a raw source reading that has been truncated to an integer.
    pub fn from_raw(raw: i32) -> (r: PollenType)
        ensures
            r == source_class(raw),
    {
        match raw {
            1 => PollenType::Alder,
            2 => PollenType::Birch,
            3 => PollenType::Grass,
            4 => PollenType::Olive,
            5 => PollenType::Mugwort,
            6 => PollenType::Ragweed,
            _ => PollenType::Unknown,
        }
    }

    /// The word used for the source in spoken text.
    pub fn to_spoken(&self) -> (r: &'static str)
        ensures
            r@ == match *self {
                PollenType::Unknown => "unknown"@,
                PollenType::Alder => "alder"@,
                PollenType::Birch => "birch"@,
                PollenType::Grass => "grass"@,
                PollenType::Olive => "olive"@,
                PollenType::Mugwort => "mugwort"@,
                PollenType::Ragweed => "ragweed"@,
            },
    {
        match self {
            PollenType::Unknown => "unknown",
            PollenType::Alder => "alder",
            PollenType::Birch => "birch",
            PollenType::Grass => "grass",
            PollenType::Olive => "olive",
            PollenType::Mugwort => "mugwort",
            PollenType::Ragweed => "ragweed",
        }
    }

    /// The name shown for the source, `???` for `Unknown`.
    pub fn display_str(&self) -> (r: &'static str)
        ensures
            r@ == match *self {
                PollenType::Unknown => "???"@,
                PollenType::Alder => "Alder"@,
                PollenType::Birch => "Birch"@,
                PollenType::Grass => "Grass"@,
                PollenType::Olive => "Olive"@,
                PollenType::Mugwort => "Mugwort"@,
                PollenType::Ragweed => "Ragweed"@,
            },
    {
        match self {
            PollenType::Unknown => "???",
            PollenType::Alder => "Alder",
            PollenType::Birch => "Birch",
            PollenType::Grass => "Grass",
            PollenType::Olive => "Olive",
            PollenType::Mugwort => "Mugwort",
            PollenType::Ragweed => "Ragweed",
        }
    }
}

/// One hourly forecast reading at a grid cell.
#[derive(Debug, Clone, Copy, PartialEq, Eq, Structural)]
pub struct Pollen {
    /// The hour the reading is for, in seconds since the Unix epoch (UTC).
    pub time: i64,
    pub pollen_index: PollenIndex,
    pub pollen_index_source: PollenType,
}

} // verus!
