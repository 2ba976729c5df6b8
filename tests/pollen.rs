use pollen_party::pollen::{PollenIndex, PollenType};

#[test]
fn index_codes_classify() {
    assert_eq!(PollenIndex::from_raw(1), PollenIndex::VeryLow);
    assert_eq!(PollenIndex::from_raw(2), PollenIndex::Low);
    assert_eq!(PollenIndex::from_raw(3), PollenIndex::Moderate);
    assert_eq!(PollenIndex::from_raw(4), PollenIndex::High);
    assert_eq!(PollenIndex::from_raw(5), PollenIndex::VeryHigh);
}

#[test]
fn unknown_index_codes_are_unknown() {
    for code in [0, -1, 6, 42, i32::MIN, i32::MAX] {
        assert_eq!(PollenIndex::from_raw(code), PollenIndex::Unknown);
    }
}

#[test]
fn source_codes_classify() {
    assert_eq!(PollenType::from_raw(1), PollenType::Alder);
    assert_eq!(PollenType::from_raw(2), PollenType::Birch);
    assert_eq!(PollenType::from_raw(3), PollenType::Grass);
    assert_eq!(PollenType::from_raw(4), PollenType::Olive);
    assert_eq!(PollenType::from_raw(5), PollenType::Mugwort);
    assert_eq!(PollenType::from_raw(6), PollenType::Ragweed);
}

#[test]
fn unknown_source_codes_are_unknown() {
    for code in [-1, 0, 7, 100, i32::MIN, i32::MAX] {
        assert_eq!(PollenType::from_raw(code), PollenType::Unknown);
    }
}

#[test]
fn spoken_words() {
    assert_eq!(PollenIndex::VeryLow.to_spoken(), "very low");
    assert_eq!(PollenIndex::VeryHigh.to_spoken(), "very high");
    assert_eq!(PollenIndex::Unknown.to_spoken(), "unknown");
    assert_eq!(PollenType::Mugwort.to_spoken(), "mugwort");
    assert_eq!(PollenType::Unknown.to_spoken(), "unknown");
}

#[test]
fn display_labels() {
    assert_eq!(PollenIndex::Unknown.display_str(), "0");
    assert_eq!(PollenIndex::High.display_str(), "4");
    assert_eq!(PollenType::Unknown.display_str(), "???");
    assert_eq!(PollenType::Birch.display_str(), "Birch");
}
