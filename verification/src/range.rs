//! Single-byte-range parsing for HTTP Asset delivery.

use vstd::prelude::*;
use vstd::slice::slice_subrange;

use crate::asset_read::AssetByteRange;
use crate::text::{
    chars_of, contains_char, decimal, find, find_text, has_prefix, is_digit,
    lemma_decimal_reads_back, lemma_find_from, occurs_at, parse_unsigned, starts_with,
    unsigned_value,
};

verus! {

/// A resolved inclusive HTTP range.
#[derive(Clone, Copy, Debug, PartialEq, Eq, Structural)]
pub struct ResolvedRange {
    start: u64,
    end: u64,
}

/// Range parser failures mapped by HTTP to 400 or 416.
#[derive(Clone, Copy, Debug, PartialEq, Eq, Structural)]
pub enum RangeParseError {
    /// The header syntax is malformed.
    Malformed,
    /// The range is syntactically valid but cannot be served.
    Unsatisfiable,
    /// Multiple ranges are intentionally not implemented.
    Multiple,
}

impl RangeParseError {
    /// The failure in words.
    pub open spec fn spec_message(self) -> Seq<char> {
        match self {
            RangeParseError::Malformed => "malformed byte range"@,
            RangeParseError::Unsatisfiable => "byte range is unsatisfiable"@,
            RangeParseError::Multiple => "multiple byte ranges are unsupported"@,
        }
    }

    /// Returns the failure in words.
    pub fn message(&self) -> (r: String)
        ensures
            r@ == self.spec_message(),
    {
        match self {
            RangeParseError::Malformed => "malformed byte range".to_owned(),
            RangeParseError::Unsatisfiable => "byte range is unsatisfiable".to_owned(),
            RangeParseError::Multiple => "multiple byte ranges are unsupported".to_owned(),
        }
    }
}

impl ResolvedRange {
    /// The inclusive first byte.
    pub closed spec fn first(self) -> int {
        self.start as int
    }

    /// The inclusive last byte.
    pub closed spec fn last(self) -> int {
        self.end as int
    }

    /// A range holds at least one byte.
    #[verifier::type_invariant]
    spec fn ordered(self) -> bool {
        self.start <= self.end
    }

    /// Creates a resolved range after validating inclusive bounds.
    pub fn new(start: u64, end: u64) -> (r: Result<ResolvedRange, RangeParseError>)
        ensures
            match r {
                Ok(range) => start <= end && range.first() == start && range.last() == end,
                Err(error) => start > end && error == RangeParseError::Unsatisfiable,
            },
    {
        if start > end {
            return Err(RangeParseError::Unsatisfiable);
        }
        Ok(ResolvedRange { start, end })
    }

    /// Returns the inclusive first byte.
    pub fn start(self) -> (r: u64)
        ensures
            r == self.first(),
    {
        self.start
    }

    /// Returns the inclusive last byte.
    pub fn end(self) -> (r: u64)
        ensures
            r == self.last(),
            self.first() <= self.last(),
    {
        proof {
            use_type_invariant(self);
        }
        self.end
    }

    /// Returns the number of bytes. The range that holds every one of the 2^64 possible positions
    /// has a length that no 64-bit number can tell.
    pub fn length(self) -> (r: u64)
        requires
            self.last() - self.first() < u64::MAX,
        ensures
            r == self.last() - self.first() + 1,
    {
        proof {
            use_type_invariant(self);
        }
        self.end - self.start + 1
    }

    /// Converts to the half-open range that an Asset is read by; `accepted` tells whether the Asset
    /// runtime takes a range of that offset and length.
    pub fn asset_range(self, accepted: bool) -> (r: Result<AssetByteRange, RangeParseError>)
        requires
            self.last() - self.first() < u64::MAX,
        ensures
            match r {
                Ok(range) => accepted && range.offset == self.first() && range.length == self.last()
                    - self.first() + 1,
                Err(error) => !accepted && error == RangeParseError::Unsatisfiable,
            },
    {
        if accepted {
            Ok(AssetByteRange { offset: self.start, length: self.length() })
        } else {
            Err(RangeParseError::Unsatisfiable)
        }
    }
}

/// What one Range header asks of an Asset of `total` bytes: the first and last byte to serve.
///
/// The value is `bytes=`, then either `first-last`, `first-` or `-suffix`; anything else is
/// malformed, whatever the Asset holds. A last byte past the end means the end, and a suffix longer
/// than the Asset means all of it.
pub open spec fn requested_range(value: Seq<char>, total: int) -> Result<
    (int, int),
    RangeParseError,
> {
    let max = u64::MAX as int;
    let spec = value.skip("bytes="@.len() as int);
    if !starts_with(value, "bytes="@) {
        Err(RangeParseError::Malformed)
    } else if spec.contains(',') {
        Err(RangeParseError::Multiple)
    } else {
        match find_text(spec, seq!['-']) {
            None => Err(RangeParseError::Malformed),
            Some(dash) => {
                let first = spec.take(dash);
                let second = spec.skip(dash + 1);
                if first.len() == 0 {
                    match unsigned_value(second, max) {
                        None => Err(RangeParseError::Malformed),
                        Some(suffix) => if suffix == 0 || total == 0 {
                            Err(RangeParseError::Unsatisfiable)
                        } else {
                            Ok((if suffix < total { total - suffix } else { 0 }, total - 1))
                        },
                    }
                } else {
                    match unsigned_value(first, max) {
                        None => Err(RangeParseError::Malformed),
                        Some(start) => if second.len() == 0 {
                            if start >= total {
                                Err(RangeParseError::Unsatisfiable)
                            } else {
                                Ok((start, total - 1))
                            }
                        } else {
                            match unsigned_value(second, max) {
                                None => Err(RangeParseError::Malformed),
                                Some(end) => if start >= total || end < start {
                                    Err(RangeParseError::Unsatisfiable)
                                } else {
                                    Ok((start, if end < total { end } else { total - 1 }))
                                },
                            }
                        },
                    }
                }
            },
        }
    }
}

/// Parses one HTTP Range header against an immutable Asset length.
pub fn parse_range(value: &str, total: u64) -> (r: Result<Option<ResolvedRange>, RangeParseError>)
    ensures
        match r {
            Ok(Some(range)) => requested_range(value@, total as int) == Ok::<
                (int, int),
                RangeParseError,
            >((range.first(), range.last())) && range.first() <= range.last() < total,
            Ok(None) => false,
            Err(error) => requested_range(value@, total as int) == Err::<
                (int, int),
                RangeParseError,
            >(error),
        },
{
    let text = chars_of(value);
    let prefix = chars_of("bytes=");
    if !has_prefix(text.as_slice(), prefix.as_slice()) {
        return Err(RangeParseError::Malformed);
    }
    let spec = slice_subrange(text.as_slice(), prefix.len(), text.len());
    assert(spec@ =~= value@.skip("bytes="@.len() as int));
    if contains_char(spec, ',') {
        return Err(RangeParseError::Multiple);
    }
    let separator: [char; 1] = ['-'];
    let pattern = separator.as_slice();
    assert(pattern@ =~= seq!['-']);
    let dash: usize = match find(spec, pattern) {
        Some(dash) => dash,
        None => {
            return Err(RangeParseError::Malformed);
        },
    };
    let first = slice_subrange(spec, 0, dash);
    let second = slice_subrange(spec, dash + 1, spec.len());
    assert(first@ =~= spec@.take(dash as int));
    assert(second@ =~= spec@.skip(dash + 1));
    if first.len() == 0 {
        let suffix: u64 = match parse_unsigned(second, u64::MAX) {
            Some(suffix) => suffix,
            None => {
                return Err(RangeParseError::Malformed);
            },
        };
        if suffix == 0 || total == 0 {
            return Err(RangeParseError::Unsatisfiable);
        }
        let start: u64 = total.saturating_sub(suffix);
        return match ResolvedRange::new(start, total - 1) {
            Ok(range) => Ok(Some(range)),
            Err(error) => Err(error),
        };
    }
    let start: u64 = match parse_unsigned(first, u64::MAX) {
        Some(start) => start,
        None => {
            return Err(RangeParseError::Malformed);
        },
    };
    let end: u64 = if second.len() == 0 {
        u64::MAX
    } else {
        match parse_unsigned(second, u64::MAX) {
            Some(end) => end,
            None => {
                return Err(RangeParseError::Malformed);
            },
        }
    };
    if start >= total {
        return Err(RangeParseError::Unsatisfiable);
    }
    let last: u64 = if end < total - 1 {
        end
    } else {
        total - 1
    };
    match ResolvedRange::new(start, last) {
        Ok(range) => Ok(Some(range)),
        Err(error) => Err(error),
    }
}

/// A decimal number holds neither a comma nor a dash.
proof fn lemma_decimal_is_plain(n: int)
    requires
        0 <= n,
    ensures
        decimal(n).len() > 0,
        forall|i: int|
            0 <= i < decimal(n).len() ==> decimal(n)[i] != ',' && decimal(n)[i] != '-',
        find_text(decimal(n), seq!['-']) is None,
{
    lemma_decimal_reads_back(n);
    let s = decimal(n);
    assert forall|i: int| 0 <= i < s.len() implies s[i] != ',' && s[i] != '-' by {
        assert(is_digit(s[i]));
    }
    lemma_find_from(s, seq!['-'], 0);
    if find_text(s, seq!['-']) is Some {
        let k = find_text(s, seq!['-'])->0;
        assert(s.subrange(k, k + 1)[0] == s[k]);
    }
}

/// Where a Range header is made of the text `a`, a dash and the text `b`, its first dash is that
/// one.
proof fn lemma_range_parts(a: Seq<char>, b: Seq<char>)
    requires
        forall|i: int| 0 <= i < a.len() ==> a[i] != ',' && a[i] != '-',
        forall|i: int| 0 <= i < b.len() ==> b[i] != ',' && b[i] != '-',
    ensures
        ({
            let value = "bytes="@ + a + seq!['-'] + b;
            let spec = value.skip("bytes="@.len() as int);
            &&& starts_with(value, "bytes="@)
            &&& !spec.contains(',')
            &&& find_text(spec, seq!['-']) == Some(a.len() as int)
            &&& spec.take(a.len() as int) == a
            &&& spec.skip(a.len() as int + 1) == b
        }),
{
    let value = "bytes="@ + a + seq!['-'] + b;
    let n = "bytes="@.len() as int;
    let spec = value.skip(n);
    assert(value.subrange(0, n) =~= "bytes="@);
    assert(spec =~= a + seq!['-'] + b);
    assert(spec.take(a.len() as int) =~= a);
    assert(spec.skip(a.len() as int + 1) =~= b);
    lemma_find_from(spec, seq!['-'], 0);
    assert(spec.subrange(a.len() as int, a.len() as int + 1) =~= seq!['-']);
    assert(occurs_at(spec, seq!['-'], a.len() as int));
    let found = find_text(spec, seq!['-']);
    assert(found is Some);
    let k = found->0;
    assert(spec.subrange(k, k + 1)[0] == spec[k]);
    assert(k == a.len());
}

/// A range that is granted lies inside the Asset and is not empty.
pub proof fn law_range_lies_inside(value: Seq<char>, total: int)
    requires
        0 <= total <= u64::MAX,
    ensures
        requested_range(value, total) is Ok ==> {
            let (first, last) = requested_range(value, total)->Ok_0;
            0 <= first <= last < total
        },
{
    let spec = value.skip("bytes="@.len() as int);
    lemma_find_from(spec, seq!['-'], 0);
    if let Some(dash) = find_text(spec, seq!['-']) {
        crate::text::lemma_unsigned_value(spec.take(dash), u64::MAX as int);
        crate::text::lemma_unsigned_value(spec.skip(dash + 1), u64::MAX as int);
    }
}

/// A header is malformed or asks for several ranges by its text alone: what the Asset holds decides
/// only whether a well-formed range can be served.
pub proof fn law_syntax_does_not_depend_on_the_asset(value: Seq<char>, total: int, other: int)
    requires
        0 <= total <= u64::MAX,
        0 <= other <= u64::MAX,
    ensures
        requested_range(value, total) == Err::<(int, int), RangeParseError>(
            RangeParseError::Malformed,
        ) <==> requested_range(value, other) == Err::<(int, int), RangeParseError>(
            RangeParseError::Malformed,
        ),
        requested_range(value, total) == Err::<(int, int), RangeParseError>(
            RangeParseError::Multiple,
        ) <==> requested_range(value, other) == Err::<(int, int), RangeParseError>(
            RangeParseError::Multiple,
        ),
{
}

/// Asking for the bytes from `first` to `last` gives those of them that the Asset has, asking from
/// `first` on gives the rest of the Asset, and both are refused where the Asset ends before
/// `first` or `last` comes before `first`.
pub proof fn law_explicit_ranges(first: int, last: int, total: int)
    requires
        0 <= first <= u64::MAX,
        0 <= last <= u64::MAX,
        0 <= total <= u64::MAX,
    ensures
        requested_range("bytes="@ + decimal(first) + seq!['-'] + decimal(last), total) == if first
            >= total || last < first {
            Err::<(int, int), RangeParseError>(RangeParseError::Unsatisfiable)
        } else {
            Ok((first, if last < total { last } else { total - 1 }))
        },
        requested_range("bytes="@ + decimal(first) + seq!['-'] + Seq::<char>::empty(), total)
            == if first >= total {
            Err::<(int, int), RangeParseError>(RangeParseError::Unsatisfiable)
        } else {
            Ok((first, total - 1))
        },
{
    lemma_decimal_is_plain(first);
    lemma_decimal_is_plain(last);
    lemma_decimal_reads_back(first);
    lemma_decimal_reads_back(last);
    lemma_range_parts(decimal(first), decimal(last));
    lemma_range_parts(decimal(first), Seq::<char>::empty());
}

/// Asking for the last `suffix` bytes gives exactly that many, or the whole Asset where it is
/// shorter, and is refused for no bytes or an empty Asset.
pub proof fn law_suffix_ranges(suffix: int, total: int)
    requires
        0 <= suffix <= u64::MAX,
        0 <= total <= u64::MAX,
    ensures
        requested_range("bytes="@ + Seq::<char>::empty() + seq!['-'] + decimal(suffix), total)
            == if suffix == 0 || total == 0 {
            Err::<(int, int), RangeParseError>(RangeParseError::Unsatisfiable)
        } else {
            Ok((if suffix < total { total - suffix } else { 0 }, total - 1))
        },
{
    lemma_decimal_is_plain(suffix);
    lemma_decimal_reads_back(suffix);
    lemma_range_parts(Seq::<char>::empty(), decimal(suffix));
}

/// What makes a header malformed, or one for several ranges, whatever the Asset holds: a value that
/// does not begin with `bytes=` or holds no dash is malformed, and one with a comma asks for
/// several.
pub proof fn law_malformed_ranges(value: Seq<char>, rest: Seq<char>, total: int)
    ensures
        value.len() < 6 || value.take(6) != "bytes="@ ==> requested_range(value, total) == Err::<
            (int, int),
            RangeParseError,
        >(RangeParseError::Malformed),
        rest.contains(',') ==> requested_range("bytes="@ + rest, total) == Err::<
            (int, int),
            RangeParseError,
        >(RangeParseError::Multiple),
        !rest.contains(',') && !rest.contains('-') ==> requested_range("bytes="@ + rest, total)
            == Err::<(int, int), RangeParseError>(RangeParseError::Malformed),
{
    reveal_strlit("bytes=");
    assert("bytes="@.len() == 6);
    if value.len() >= 6 {
        assert(value.take(6) =~= value.subrange(0, 6));
    }
    let whole = "bytes="@ + rest;
    assert(whole.subrange(0, 6) =~= "bytes="@);
    assert(whole.skip(6) =~= rest);
    lemma_find_from(rest, seq!['-'], 0);
    if let Some(k) = find_text(rest, seq!['-']) {
        assert(rest.subrange(k, k + 1)[0] == rest[k]);
        assert(rest.contains(rest[k]));
    }
}

/// A range whose numbers cannot be read is malformed: something else than a digit in either of them
/// is enough.
pub proof fn law_ranges_are_made_of_digits(a: Seq<char>, b: Seq<char>, total: int, i: int)
    requires
        forall|k: int| 0 <= k < a.len() ==> a[k] != ',' && a[k] != '-',
        forall|k: int| 0 <= k < b.len() ==> b[k] != ',' && b[k] != '-',
        (1 <= i < a.len() && !('0' <= a[i] <= '9')) || (1 <= i < b.len() && !('0' <= b[i] <= '9'))
            || (a.len() == 0 && b.len() == 0),
    ensures
        requested_range("bytes="@ + a + seq!['-'] + b, total) == Err::<(int, int), RangeParseError>(
            RangeParseError::Malformed,
        ),
{
    lemma_range_parts(a, b);
    crate::text::law_numbers_are_decimal(0, 0, u64::MAX as int, a);
    crate::text::law_numbers_are_decimal(0, 0, u64::MAX as int, b);
    if 1 <= i < a.len() && !('0' <= a[i] <= '9') {
        assert(unsigned_value(a, u64::MAX as int) is None);
    }
    if 1 <= i < b.len() && !('0' <= b[i] <= '9') {
        assert(unsigned_value(b, u64::MAX as int) is None);
    }
    if a.len() == 0 && b.len() == 0 {
        assert(b =~= Seq::<char>::empty());
    }
}

/// A failed Range is told in words.
pub proof fn law_range_failures_in_words(
    error: RangeParseError,
)
    ensures
        error.spec_message() == match error {
            RangeParseError::Malformed => "malformed byte range"@,
            RangeParseError::Unsatisfiable => "byte range is unsatisfiable"@,
            RangeParseError::Multiple => "multiple byte ranges are unsupported"@,
        },
{
}

} // verus!
