//! Range headers.

use orbitrelay::range::{parse_range, RangeParseError, ResolvedRange};

#[test]
fn parses_prefix_open_and_suffix_ranges() {
    assert_eq!(parse_range("bytes=0-3", 10).unwrap().unwrap().length(), 4);
    assert_eq!(parse_range("bytes=4-", 10).unwrap().unwrap().start(), 4);
    assert_eq!(parse_range("bytes=-4", 10).unwrap().unwrap().start(), 6);
    assert_eq!(parse_range("bytes=-99", 10).unwrap().unwrap().start(), 0);
}

#[test]
fn distinguishes_malformed_unsatisfiable_and_multiple() {
    assert_eq!(
        parse_range("bytes=a-b", 10),
        Err(RangeParseError::Malformed)
    );
    assert_eq!(
        parse_range("bytes=10-", 10),
        Err(RangeParseError::Unsatisfiable)
    );
    assert_eq!(
        parse_range("bytes=0-1,2-3", 10),
        Err(RangeParseError::Multiple)
    );
}

#[test]
fn resolves_bounds_exactly() {
    let resolved = |value: &str, total: u64| {
        parse_range(value, total).map(|range| range.map(|range| (range.start(), range.end())))
    };
    assert_eq!(resolved("bytes=0-99", 10), Ok(Some((0, 9))));
    assert_eq!(resolved("bytes=9-9", 10), Ok(Some((9, 9))));
    assert_eq!(resolved("bytes=-1", 10), Ok(Some((9, 9))));
    assert_eq!(resolved("bytes=+2-+3", 10), Ok(Some((2, 3))));
    assert_eq!(
        resolved("bytes=0-18446744073709551615", u64::MAX),
        Ok(Some((0, u64::MAX - 1)))
    );
    assert_eq!(resolved("bytes=3-2", 10), Err(RangeParseError::Unsatisfiable));
    assert_eq!(resolved("bytes=-0", 10), Err(RangeParseError::Unsatisfiable));
    assert_eq!(resolved("bytes=-1", 0), Err(RangeParseError::Unsatisfiable));
    assert_eq!(resolved("bytes=0-", 0), Err(RangeParseError::Unsatisfiable));
    assert_eq!(
        resolved("bytes=18446744073709551616-", 10),
        Err(RangeParseError::Malformed)
    );
    assert_eq!(resolved("bytes=", 10), Err(RangeParseError::Malformed));
    assert_eq!(resolved("bytes=-", 10), Err(RangeParseError::Malformed));
    assert_eq!(resolved("bytes=1--2", 10), Err(RangeParseError::Malformed));
    assert_eq!(resolved("items=0-3", 10), Err(RangeParseError::Malformed));
    assert_eq!(resolved("bytes=0- 3", 10), Err(RangeParseError::Malformed));
}

#[test]
fn resolved_ranges_are_ordered() {
    assert_eq!(ResolvedRange::new(3, 2), Err(RangeParseError::Unsatisfiable));
    assert_eq!(ResolvedRange::new(2, 5).map(|range| range.length()), Ok(4));
}

#[test]
fn range_errors_are_told_in_words() {
    assert_eq!(RangeParseError::Malformed.message(), "malformed byte range");
    assert_eq!(RangeParseError::Unsatisfiable.message(), "byte range is unsatisfiable");
    assert_eq!(RangeParseError::Multiple.message(), "multiple byte ranges are unsupported");
}

#[test]
fn bad_syntax_is_malformed_whatever_the_asset_holds() {
    for value in ["bytes=10-x", "bytes=11-+", "bytes=99- 1", "bytes=0-x", "bytes=-x"] {
        for total in [0, 5, 10, u64::MAX] {
            assert_eq!(parse_range(value, total), Err(RangeParseError::Malformed), "{value}");
        }
    }
    assert_eq!(parse_range("bytes=10-11", 10), Err(RangeParseError::Unsatisfiable));
    assert_eq!(parse_range("bytes=10-", 10), Err(RangeParseError::Unsatisfiable));
    assert_eq!(parse_range("bytes=9-8", 10), Err(RangeParseError::Unsatisfiable));
    assert_eq!(parse_range("bytes=0-0", 0), Err(RangeParseError::Unsatisfiable));
}

#[test]
fn ranges_become_asset_reads() {
    let range = ResolvedRange::new(3, 9).expect("range");
    let read = range.asset_range(true).expect("accepted");
    assert_eq!((read.offset, read.length), (3, 7));
    assert_eq!(range.asset_range(false), Err(RangeParseError::Unsatisfiable));
}
