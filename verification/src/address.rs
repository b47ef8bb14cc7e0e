//! Network addresses as plain numbers.

use vstd::prelude::*;
use vstd::slice::slice_subrange;

use crate::text::{
    chars_of, find, find_text, joined, law_split_is_undone_by_joining, lemma_find_from, occurs_at,
    same_chars, split, split_text, texts,
};

verus! {

/// An IP address: its bits, the first octet or group highest.
#[derive(Clone, Copy, Debug, PartialEq, Eq, Structural)]
pub enum IpAddress {
    /// A 32-bit address.
    V4(u32),
    /// A 128-bit address.
    V6(u128),
}

impl IpAddress {
    /// Whether the address is in `127.0.0.0/8`, or is `::1`.
    pub open spec fn spec_is_loopback(self) -> bool {
        match self {
            IpAddress::V4(bits) => bits / 0x100_0000 == 127,
            IpAddress::V6(bits) => bits == 1,
        }
    }

    /// Returns whether the address is in `127.0.0.0/8`, or is `::1`.
    pub fn is_loopback(self) -> (r: bool)
        ensures
            r == self.spec_is_loopback(),
    {
        match self {
            IpAddress::V4(bits) => bits / 0x100_0000 == 127,
            IpAddress::V6(bits) => bits == 1,
        }
    }
}

/// A socket address.
#[derive(Clone, Copy, Debug, PartialEq, Eq, Structural)]
pub struct SocketAddress {
    /// The IP address.
    pub ip: IpAddress,
    /// The port.
    pub port: u16,
    /// The flow information of a 128-bit address, and zero otherwise.
    pub flow_info: u32,
    /// The scope of a 128-bit address, and zero otherwise.
    pub scope_id: u32,
}

impl SocketAddress {
    /// Creates the address of a port at a 32-bit IP address.
    pub fn v4(bits: u32, port: u16) -> (r: SocketAddress)
        ensures
            r == (SocketAddress { ip: IpAddress::V4(bits), port, flow_info: 0, scope_id: 0 }),
    {
        SocketAddress { ip: IpAddress::V4(bits), port, flow_info: 0, scope_id: 0 }
    }
}

/// Whether `s` is a group of an IPv6 literal that is zero: one to four zeros.
pub open spec fn is_zero_group(s: Seq<char>) -> bool {
    1 <= s.len() <= 4 && forall|i: int| 0 <= i < s.len() ==> s[i] == '0'
}

/// The number of 16-bit groups that `s` writes where all of them are zero: groups between colons,
/// the last two written as `0.0.0.0` where `tail` allows it. An empty text writes none.
pub open spec fn zero_groups(s: Seq<char>, tail: bool) -> Option<int> {
    let parts = split_text(s, seq![':']);
    if s.len() == 0 {
        Some(0)
    } else if forall|i: int| 0 <= i < parts.len() ==> is_zero_group(#[trigger] parts[i]) {
        Some(parts.len() as int)
    } else if tail && parts.last() == "0.0.0.0"@ && forall|i: int|
        0 <= i < parts.len() - 1 ==> is_zero_group(#[trigger] parts[i]) {
        Some(parts.len() as int + 1)
    } else {
        None
    }
}

/// Whether `s` is an IP address literal that writes the unspecified address: `0.0.0.0`, or eight
/// zero groups, any run of which may be left out at one `::`.
pub open spec fn is_unspecified_literal(s: Seq<char>) -> bool {
    s == "0.0.0.0"@ || match find_text(s, seq![':', ':']) {
        None => zero_groups(s, true) == Some(8int),
        Some(i) => match (zero_groups(s.take(i), false), zero_groups(s.skip(i + 2), true)) {
            (Some(head), Some(tail)) => head + tail <= 7,
            _ => false,
        },
    }
}

fn zero_group(s: &[char]) -> (r: bool)
    ensures
        r == is_zero_group(s@),
{
    if s.len() < 1 || s.len() > 4 {
        return false;
    }
    let mut i: usize = 0;
    while i < s.len()
        invariant
            i <= s@.len(),
            forall|j: int| 0 <= j < i ==> s@[j] == '0',
        decreases s@.len() - i,
    {
        if s[i] != '0' {
            return false;
        }
        i = i + 1;
    }
    true
}

fn count_zero_groups(s: &[char], tail: bool) -> (r: Option<usize>)
    ensures
        match r {
            Some(n) => zero_groups(s@, tail) == Some(n as int),
            None => zero_groups(s@, tail) is None || zero_groups(s@, tail)->0 > 8,
        },
{
    if s.len() == 0 {
        return Some(0);
    }
    let separator: [char; 1] = [':'];
    let pattern = separator.as_slice();
    assert(pattern@ =~= seq![':']);
    let parts = split(s, pattern);
    let ghost all = split_text(s@, seq![':']);
    assert(texts(parts@) == all);
    assert(parts@.len() == all.len());
    assert(all.len() > 0) by {
        lemma_find_from(s@, seq![':'], 0);
    }
    assert forall|j: int| 0 <= j < parts@.len() implies #[trigger] all[j] == parts@[j]@ by {
        assert(texts(parts@)[j] == parts@[j]@);
    }
    let last: usize = parts.len() - 1;
    let mut i: usize = 0;
    while i < last
        invariant
            i <= last,
            last + 1 == parts@.len(),
            parts@.len() == all.len(),
            all == split_text(s@, seq![':']),
            s@.len() > 0,
            forall|j: int| 0 <= j < parts@.len() ==> #[trigger] all[j] == parts@[j]@,
            forall|j: int| 0 <= j < i ==> is_zero_group(#[trigger] all[j]),
        decreases last - i,
    {
        if !zero_group(parts[i].as_slice()) {
            assert(!is_zero_group(all[i as int]));
            return None;
        }
        i = i + 1;
    }
    assert(all.last() == all[last as int]);
    assert(all[last as int] == parts@[last as int]@);
    let zeros = chars_of("0.0.0.0");
    if zero_group(parts[last].as_slice()) {
        Some(parts.len())
    } else if tail && same_chars(parts[last].as_slice(), zeros.as_slice()) {
        assert(!is_zero_group(all[last as int]));
        if parts.len() > 8 {
            None
        } else {
            Some(parts.len() + 1)
        }
    } else {
        assert(!is_zero_group(all[last as int]));
        None
    }
}

/// Returns whether `s` is an IP address literal that writes the unspecified address.
pub fn unspecified_literal(s: &[char]) -> (r: bool)
    ensures
        r == is_unspecified_literal(s@),
{
    let zeros = chars_of("0.0.0.0");
    if same_chars(s, zeros.as_slice()) {
        return true;
    }
    let separator: [char; 2] = [':', ':'];
    let pattern = separator.as_slice();
    assert(pattern@ =~= seq![':', ':']);
    let length: usize = s.len();
    match find(s, pattern) {
        None => match count_zero_groups(s, true) {
            Some(n) => n == 8,
            None => false,
        },
        Some(i) => {
            let before = slice_subrange(s, 0, i);
            let after = slice_subrange(s, i + 2, length);
            assert(before@ =~= s@.take(i as int));
            assert(after@ =~= s@.skip(i + 2));
            match (count_zero_groups(before, false), count_zero_groups(after, true)) {
                (Some(head), Some(tail)) => head <= 7 && tail <= 7 - head,
                _ => {
                    proof {
                        lemma_zero_groups_count(s@.take(i as int), false);
                        lemma_zero_groups_count(s@.skip(i + 2), true);
                    }
                    false
                },
            }
        },
    }
}

/// A count of groups is not negative.
proof fn lemma_zero_groups_count(s: Seq<char>, tail: bool)
    ensures
        zero_groups(s, tail) is Some ==> zero_groups(s, tail)->0 >= 0,
{
}

/// The loopback addresses are those from 127.0.0.0 to 127.255.255.255, and `::1`.
pub proof fn law_loopback_addresses(bits: u32, long: u128)
    ensures
        IpAddress::V4(bits).spec_is_loopback() <==> 0x7f00_0000 <= bits <= 0x7fff_ffff,
        IpAddress::V6(long).spec_is_loopback() <==> long == 1,
{
}

/// The unspecified address is written `0.0.0.0` or `::`, among others; a text that writes it holds
/// nothing but zeros, colons and dots.
pub proof fn law_unspecified_addresses_are_zeros(s: Seq<char>)
    ensures
        is_unspecified_literal("0.0.0.0"@),
        is_unspecified_literal(seq![':', ':']),
        is_unspecified_literal(s) ==> forall|i: int|
            0 <= i < s.len() ==> #[trigger] s[i] == '0' || s[i] == ':' || s[i] == '.',
{
    let pair = seq![':', ':'];
    lemma_find_from(pair, pair, 0);
    assert(pair.subrange(0, 2) =~= pair);
    assert(occurs_at(pair, pair, 0));
    assert(find_text(pair, pair) == Some(0int));
    assert(pair.take(0).len() == 0);
    assert(pair.skip(2).len() == 0);
    reveal_strlit("0.0.0.0");
    if is_unspecified_literal(s) {
        lemma_find_from(s, pair, 0);
        match find_text(s, pair) {
            None => {
                if s != "0.0.0.0"@ {
                    lemma_zero_groups_are_zeros(s, true);
                }
            },
            Some(k) => {
                if s != "0.0.0.0"@ {
                    lemma_zero_groups_are_zeros(s.take(k), false);
                    lemma_zero_groups_are_zeros(s.skip(k + 2), true);
                    assert(s.subrange(k, k + 2)[0] == s[k]);
                    assert(s.subrange(k, k + 2)[1] == s[k + 1]);
                    assert forall|i: int| 0 <= i < s.len() implies #[trigger] s[i] == '0' || s[i]
                        == ':' || s[i] == '.' by {
                        if i < k {
                            assert(s.take(k)[i] == s[i]);
                        } else if i >= k + 2 {
                            assert(s.skip(k + 2)[i - k - 2] == s[i]);
                        }
                    }
                }
            },
        }
        if s == "0.0.0.0"@ {
            assert forall|i: int| 0 <= i < s.len() implies #[trigger] s[i] == '0' || s[i] == ':'
                || s[i] == '.' by {
                assert(i == 0 || i == 1 || i == 2 || i == 3 || i == 4 || i == 5 || i == 6);
            }
        }
    }
}

proof fn lemma_zero_groups_are_zeros(s: Seq<char>, tail: bool)
    requires
        zero_groups(s, tail) is Some,
    ensures
        forall|i: int|
            0 <= i < s.len() ==> #[trigger] s[i] == '0' || s[i] == ':' || s[i] == '.',
{
    let colon = seq![':'];
    law_split_is_undone_by_joining(s, colon);
    let parts = split_text(s, colon);
    if s.len() > 0 {
        reveal_strlit("0.0.0.0");
        assert forall|i: int, j: int|
            0 <= i < parts.len()
                && 0 <= j < (#[trigger] parts[i]).len() implies #[trigger] parts[i][j]
            == '0' || parts[i][j] == '.' by {
            if !is_zero_group(parts[i]) {
                assert(i == parts.len() - 1);
                assert(parts[i] == "0.0.0.0"@);
                assert(j == 0 || j == 1 || j == 2 || j == 3 || j == 4 || j == 5 || j == 6);
            }
        }
        lemma_joined_of_zeros(parts, colon);
    }
}

proof fn lemma_joined_of_zeros(parts: Seq<Seq<char>>, colon: Seq<char>)
    requires
        colon == seq![':'],
        forall|i: int, j: int|
            0 <= i < parts.len() && 0 <= j < (#[trigger] parts[i]).len() ==> #[trigger] parts[i][j]
                == '0' || parts[i][j] == '.',
    ensures
        forall|i: int|
            0 <= i < joined(parts, colon).len() ==> #[trigger] joined(parts, colon)[i] == '0'
                || joined(parts, colon)[i] == ':' || joined(parts, colon)[i] == '.',
    decreases parts.len(),
{
    if parts.len() > 1 {
        let more = parts.skip(1);
        assert forall|i: int, j: int|
            0 <= i < more.len() && 0 <= j < (#[trigger] more[i]).len() implies #[trigger] more[i][j]
            == '0' || more[i][j] == '.' by {
            assert(more[i] == parts[i + 1]);
            assert(parts[i + 1][j] == more[i][j]);
        }
        lemma_joined_of_zeros(more, colon);
        let all = joined(parts, colon);
        let n = parts[0].len() as int;
        assert forall|i: int| 0 <= i < all.len() implies #[trigger] all[i] == '0' || all[i] == ':'
            || all[i] == '.' by {
            if i < n {
                assert(all[i] == parts[0][i]);
            } else if i > n {
                assert(all[i] == joined(more, colon)[i - n - 1]);
            }
        }
    } else if parts.len() == 1 {
        assert forall|i: int| 0 <= i < joined(parts, colon).len() implies #[trigger] joined(
            parts,
            colon,
        )[i] == '0' || joined(parts, colon)[i] == '.' by {
            assert(joined(parts, colon)[i] == parts[0][i]);
        }
    }
}

} // verus!
