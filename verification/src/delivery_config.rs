//! Asset HTTP listener configuration.

use vstd::prelude::*;
use vstd::slice::slice_subrange;

use crate::address::{
    is_unspecified_literal, unspecified_literal, IpAddress, SocketAddress,
};
use crate::error::{result_view, ServerError, ServerErrorView};
use crate::text::{
    chars_of, contains_char, contains_white_space, copy_range, decimal, find, find_text,
    has_white_space, is_digit, is_white_space, lemma_decimal_reads_back, lemma_find_from, occurs_at,
    optional_text, parse_unsigned, same_chars, split_text, unsigned_value,
};

verus! {

/// Configuration for the independent Asset Delivery HTTP listener.
#[derive(Clone, Debug, PartialEq, Eq)]
pub struct AssetDeliveryConfig {
    /// Whether the independent listener should be started.
    pub enabled: bool,
    /// The bind address.
    pub listen_addr: SocketAddress,
    /// The explicitly advertised base URL.
    pub public_base_url: Option<String>,
    /// The maximum HTTP connections.
    pub max_connections: usize,
    /// The maximum concurrent body downloads.
    pub max_active_downloads: usize,
    /// The bounded body chunk size.
    pub chunk_size: usize,
    /// The idle timeout in milliseconds.
    pub idle_timeout_milliseconds: u64,
    /// The Grant lifetime in seconds.
    pub grant_ttl_seconds: i64,
    /// The maximum number of live Grant records.
    pub max_grants: usize,
    /// The CORS origin allowlist.
    pub allowed_origins: Vec<String>,
}

/// A refused configuration.
pub open spec fn config_error(message: Seq<char>) -> Result<(), ServerErrorView> {
    Err(ServerErrorView::Config(message))
}

/// The host that a URL authority names: a name with an optional port, or an address in brackets
/// with an optional port. Otherwise, what is wrong with it.
pub open spec fn authority_host(authority: Seq<char>) -> Result<Seq<char>, Seq<char>> {
    let max = u16::MAX as int;
    if authority.len() > 0 && authority[0] == '[' {
        let rest = authority.skip(1);
        match find_text(rest, seq![']']) {
            None => Err("asset public base URL has an invalid IPv6 authority"@),
            Some(close) => {
                let suffix = rest.skip(close + 1);
                if suffix.len() == 0 || (suffix[0] == ':' && unsigned_value(
                    suffix.skip(1),
                    max,
                ) is Some) {
                    Ok(rest.take(close))
                } else {
                    Err("asset public base URL has an invalid port"@)
                }
            },
        }
    } else {
        match find_text(authority, seq![':']) {
            None => Ok(authority),
            Some(colon) => {
                let port = authority.skip(colon + 1);
                if port.contains(':') {
                    Err("asset public base URL has an invalid IPv6 authority"@)
                } else if colon == 0 || unsigned_value(port, max) is None {
                    Err("asset public base URL has an invalid port"@)
                } else {
                    Ok(authority.take(colon))
                }
            },
        }
    }
}

/// Whether `c` is a square bracket.
pub open spec fn is_bracket(c: char) -> bool {
    c == '[' || c == ']'
}

/// The text without the brackets at both its ends.
pub open spec fn without_brackets(s: Seq<char>) -> Seq<char>
    decreases s.len(),
{
    if s.len() > 0 && is_bracket(s[0]) {
        without_brackets(s.skip(1))
    } else if s.len() > 0 && is_bracket(s.last()) {
        without_brackets(s.drop_last())
    } else {
        s
    }
}

/// Whether a URL may be advertised: `http` or `https`, `://`, and a host with an optional port that
/// a client can connect to, with nothing after it but one slash.
pub open spec fn base_url_verdict(value: Seq<char>) -> Result<(), ServerErrorView> {
    match find_text(value, "://"@) {
        None => config_error("asset public base URL must be absolute"@),
        Some(i) => {
            let scheme = value.take(i);
            let remainder = value.skip(i + 3);
            let slash = find_text(remainder, seq!['/']);
            let authority = match slash {
                Some(k) => remainder.take(k),
                None => remainder,
            };
            if (scheme != "http"@ && scheme != "https"@) || has_white_space(value) {
                config_error("asset public base URL must use http or https"@)
            } else if authority.len() == 0 || (slash is Some && remainder.skip(slash->0 + 1).len()
                > 0) || remainder.contains('?') || remainder.contains('#') {
                config_error("asset public base URL must include a host without query or fragment"@)
            } else {
                match authority_host(authority) {
                    Err(message) => config_error(message),
                    Ok(host) => if host.len() == 0 {
                        config_error("asset public base URL must include a host"@)
                    } else if is_unspecified_literal(without_brackets(host)) {
                        config_error("asset public base URL must not advertise an unspecified host"@)
                    } else {
                        Ok(())
                    },
                }
            }
        },
    }
}

/// The host that a URL authority names.
fn host_of(authority: &[char]) -> (r: Result<Vec<char>, ServerError>)
    ensures
        match r {
            Ok(host) => authority_host(authority@) == Ok::<Seq<char>, Seq<char>>(host@),
            Err(error) => authority_host(authority@) is Err && error@ == ServerErrorView::Config(
                authority_host(authority@)->Err_0,
            ),
        },
{
    let length: usize = authority.len();
    if length > 0 && authority[0] == '[' {
        let rest = slice_subrange(authority, 1, length);
        assert(rest@ =~= authority@.skip(1));
        let closing: [char; 1] = [']'];
        let pattern = closing.as_slice();
        assert(pattern@ =~= seq![']']);
        let rest_length: usize = rest.len();
        let close: usize = match find(rest, pattern) {
            Some(close) => close,
            None => {
                return Err(
                    ServerError::config("asset public base URL has an invalid IPv6 authority"),
                );
            },
        };
        let suffix = slice_subrange(rest, close + 1, rest_length);
        assert(suffix@ =~= rest@.skip(close + 1));
        if suffix.len() > 0 {
            if suffix[0] != ':' {
                return Err(ServerError::config("asset public base URL has an invalid port"));
            }
            let port = slice_subrange(suffix, 1, suffix.len());
            assert(port@ =~= suffix@.skip(1));
            match parse_unsigned(port, 65535) {
                Some(_) => {},
                None => {
                    return Err(ServerError::config("asset public base URL has an invalid port"));
                },
            }
        }
        let host = copy_range(rest, 0, close);
        assert(host@ =~= rest@.take(close as int));
        return Ok(host);
    }
    let separator: [char; 1] = [':'];
    let pattern = separator.as_slice();
    assert(pattern@ =~= seq![':']);
    match find(authority, pattern) {
        None => {
            let host = copy_range(authority, 0, length);
            assert(host@ =~= authority@);
            Ok(host)
        },
        Some(colon) => {
            let port = slice_subrange(authority, colon + 1, length);
            assert(port@ =~= authority@.skip(colon + 1));
            if contains_char(port, ':') {
                return Err(
                    ServerError::config("asset public base URL has an invalid IPv6 authority"),
                );
            }
            let number = parse_unsigned(port, 65535);
            if colon == 0 || number.is_none() {
                return Err(ServerError::config("asset public base URL has an invalid port"));
            }
            let host = copy_range(authority, 0, colon);
            assert(host@ =~= authority@.take(colon as int));
            Ok(host)
        },
    }
}

fn bracket(c: char) -> (r: bool)
    ensures
        r == is_bracket(c),
{
    c == '[' || c == ']'
}

fn trim_brackets(s: &[char]) -> (r: Vec<char>)
    ensures
        r@ == without_brackets(s@),
{
    let mut start: usize = 0;
    let mut end: usize = s.len();
    assert(s@.subrange(0, end as int) =~= s@);
    while start < end && bracket(s[start])
        invariant
            start <= end == s@.len(),
            without_brackets(s@.subrange(start as int, end as int)) == without_brackets(s@),
        decreases end - start,
    {
        assert(s@.subrange(start as int, end as int).skip(1) =~= s@.subrange(
            start + 1,
            end as int,
        ));
        start = start + 1;
    }
    while start < end && bracket(s[end - 1])
        invariant
            start <= end <= s@.len(),
            start < end ==> !is_bracket(s@[start as int]),
            without_brackets(s@.subrange(start as int, end as int)) == without_brackets(s@),
        decreases end - start,
    {
        assert(s@.subrange(start as int, end as int).drop_last() =~= s@.subrange(
            start as int,
            end - 1,
        ));
        end = end - 1;
    }
    copy_range(s, start, end)
}

/// Checks whether a URL may be advertised as the base of Asset URLs.
pub fn validate_public_base_url(value: &str) -> (r: Result<(), ServerError>)
    ensures
        result_view(r) == base_url_verdict(value@),
{
    let text = chars_of(value);
    let length: usize = text.len();
    proof {
        reveal_strlit("://");
    }
    let mark = chars_of("://");
    let i: usize = match find(text.as_slice(), mark.as_slice()) {
        Some(i) => i,
        None => {
            return Err(ServerError::config("asset public base URL must be absolute"));
        },
    };
    let scheme = slice_subrange(text.as_slice(), 0, i);
    let remainder = slice_subrange(text.as_slice(), i + 3, length);
    assert(scheme@ =~= text@.take(i as int));
    assert(remainder@ =~= text@.skip(i + 3));
    let http = chars_of("http");
    let https = chars_of("https");
    if (!same_chars(scheme, http.as_slice()) && !same_chars(scheme, https.as_slice()))
        || contains_white_space(text.as_slice()) {
        return Err(ServerError::config("asset public base URL must use http or https"));
    }
    let separator: [char; 1] = ['/'];
    let pattern = separator.as_slice();
    assert(pattern@ =~= seq!['/']);
    let remainder_length: usize = remainder.len();
    let (end, has_path): (usize, bool) = match find(remainder, pattern) {
        Some(k) => (k, k + 1 < remainder_length),
        None => (remainder_length, false),
    };
    let authority = slice_subrange(remainder, 0, end);
    proof {
        if let Some(k) = find_text(remainder@, seq!['/']) {
            assert(authority@ =~= remainder@.take(k));
        } else {
            assert(authority@ =~= remainder@);
        }
    }
    if authority.len() == 0 || has_path || contains_char(remainder, '?') || contains_char(
        remainder,
        '#',
    ) {
        return Err(
            ServerError::config(
                "asset public base URL must include a host without query or fragment",
            ),
        );
    }
    let host = match host_of(authority) {
        Ok(host) => host,
        Err(error) => {
            return Err(error);
        },
    };
    if host.len() == 0 {
        return Err(ServerError::config("asset public base URL must include a host"));
    }
    let bare = trim_brackets(host.as_slice());
    if unspecified_literal(bare.as_slice()) {
        return Err(
            ServerError::config("asset public base URL must not advertise an unspecified host"),
        );
    }
    Ok(())
}

impl Default for AssetDeliveryConfig {
    fn default() -> (r: AssetDeliveryConfig)
        ensures
            r.is_default(),
    {
        AssetDeliveryConfig {
            enabled: false,
            listen_addr: SocketAddress::v4(0x7f00_0001, 8081),
            public_base_url: None,
            max_connections: 64,
            max_active_downloads: 8,
            chunk_size: 65536,
            idle_timeout_milliseconds: 30_000,
            grant_ttl_seconds: 600,
            max_grants: 4096,
            allowed_origins: Vec::new(),
        }
    }
}

impl AssetDeliveryConfig {
    /// The configuration that stands where nothing is configured: switched off, loopback port
    /// 8081, no advertised URL and no foreign origins.
    pub open spec fn is_default(self) -> bool {
        &&& !self.enabled
        &&& self.listen_addr == (SocketAddress {
            ip: IpAddress::V4(0x7f00_0001),
            port: 8081,
            flow_info: 0,
            scope_id: 0,
        })
        &&& self.public_base_url is None
        &&& self.max_connections == 64
        &&& self.max_active_downloads == 8
        &&& self.chunk_size == 65536
        &&& self.idle_timeout_milliseconds == 30_000
        &&& self.grant_ttl_seconds == 600
        &&& self.max_grants == 4096
        &&& self.allowed_origins@ == Seq::<String>::empty()
    }

    /// Whether the configuration can be used, and otherwise the first thing wrong with it.
    pub open spec fn verdict(self) -> Result<(), ServerErrorView> {
        if self.max_connections == 0 || self.max_active_downloads == 0 {
            config_error(
                "asset delivery connection and download limits must be greater than zero"@,
            )
        } else if self.chunk_size == 0 {
            config_error("asset delivery chunk size must be greater than zero"@)
        } else if self.idle_timeout_milliseconds == 0 {
            config_error("asset delivery idle timeout must be greater than zero"@)
        } else if self.grant_ttl_seconds <= 0 {
            config_error("asset delivery Grant TTL must be positive"@)
        } else if self.max_grants == 0 {
            config_error("asset delivery max grants must be greater than zero"@)
        } else {
            match self.public_base_url {
                Some(url) => base_url_verdict(url@),
                None => if self.enabled && !self.listen_addr.ip.spec_is_loopback() {
                    config_error("asset public base URL is required for non-loopback binds"@)
                } else {
                    Ok(())
                },
            }
        }
    }

    /// Validates listener, Grant, URL and CORS invariants.
    pub fn validate(&self) -> (r: Result<(), ServerError>)
        ensures
            result_view(r) == self.verdict(),
    {
        if self.max_connections == 0 || self.max_active_downloads == 0 {
            return Err(
                ServerError::config(
                    "asset delivery connection and download limits must be greater than zero",
                ),
            );
        }
        if self.chunk_size == 0 {
            return Err(ServerError::config("asset delivery chunk size must be greater than zero"));
        }
        if self.idle_timeout_milliseconds == 0 {
            return Err(
                ServerError::config("asset delivery idle timeout must be greater than zero"),
            );
        }
        if self.grant_ttl_seconds <= 0 {
            return Err(ServerError::config("asset delivery Grant TTL must be positive"));
        }
        if self.max_grants == 0 {
            return Err(ServerError::config("asset delivery max grants must be greater than zero"));
        }
        match &self.public_base_url {
            Some(url) => validate_public_base_url(url.as_str()),
            None => if self.enabled && !self.listen_addr.ip.is_loopback() {
                Err(ServerError::config("asset public base URL is required for non-loopback binds"))
            } else {
                Ok(())
            },
        }
    }

    /// Whether the independent listener should be started.
    pub fn enabled(&self) -> (r: bool)
        ensures
            r == self.enabled,
    {
        self.enabled
    }

    /// Returns the bind address.
    pub fn listen_addr(&self) -> (r: SocketAddress)
        ensures
            r == self.listen_addr,
    {
        self.listen_addr
    }

    /// Returns the explicitly advertised base URL.
    pub fn public_base_url(&self) -> (r: Option<&str>)
        ensures
            match r {
                Some(url) => optional_text(self.public_base_url) == Some(url@),
                None => self.public_base_url is None,
            },
    {
        match &self.public_base_url {
            Some(url) => Some(url.as_str()),
            None => None,
        }
    }

    /// Returns the maximum HTTP connections.
    pub fn max_connections(&self) -> (r: usize)
        ensures
            r == self.max_connections,
    {
        self.max_connections
    }

    /// Returns the maximum concurrent body downloads.
    pub fn max_active_downloads(&self) -> (r: usize)
        ensures
            r == self.max_active_downloads,
    {
        self.max_active_downloads
    }

    /// Returns the bounded body chunk size.
    pub fn chunk_size(&self) -> (r: usize)
        ensures
            r == self.chunk_size,
    {
        self.chunk_size
    }

    /// Returns the idle timeout in milliseconds.
    pub fn idle_timeout(&self) -> (r: u64)
        ensures
            r == self.idle_timeout_milliseconds,
    {
        self.idle_timeout_milliseconds
    }

    /// Returns the Grant lifetime in seconds.
    pub fn grant_ttl_seconds(&self) -> (r: i64)
        ensures
            r == self.grant_ttl_seconds,
    {
        self.grant_ttl_seconds
    }

    /// Returns the maximum number of live Grant records.
    pub fn max_grants(&self) -> (r: usize)
        ensures
            r == self.max_grants,
    {
        self.max_grants
    }

    /// Returns the configured CORS origins.
    pub fn allowed_origins(&self) -> (r: &[String])
        ensures
            r@ == self.allowed_origins@,
    {
        self.allowed_origins.as_slice()
    }

    /// Enables or disables Asset Delivery.
    pub fn with_enabled(self, value: bool) -> (r: AssetDeliveryConfig)
        ensures
            r == (AssetDeliveryConfig { enabled: value, ..self }),
    {
        let mut config = self;
        config.enabled = value;
        config
    }

    /// Sets the HTTP bind address.
    pub fn with_listen_addr(self, value: SocketAddress) -> (r: AssetDeliveryConfig)
        ensures
            r == (AssetDeliveryConfig { listen_addr: value, ..self }),
    {
        let mut config = self;
        config.listen_addr = value;
        config
    }

    /// Sets the advertised public base URL.
    pub fn with_public_base_url(self, value: String) -> (r: AssetDeliveryConfig)
        ensures
            r == (AssetDeliveryConfig { public_base_url: Some(value), ..self }),
    {
        let mut config = self;
        config.public_base_url = Some(value);
        config
    }

    /// Clears the advertised public base URL.
    pub fn without_public_base_url(self) -> (r: AssetDeliveryConfig)
        ensures
            r == (AssetDeliveryConfig { public_base_url: None, ..self }),
    {
        let mut config = self;
        config.public_base_url = None;
        config
    }

    /// Sets the HTTP connection limit.
    pub fn with_max_connections(self, value: usize) -> (r: AssetDeliveryConfig)
        ensures
            r == (AssetDeliveryConfig { max_connections: value, ..self }),
    {
        let mut config = self;
        config.max_connections = value;
        config
    }

    /// Sets the active download limit.
    pub fn with_max_active_downloads(self, value: usize) -> (r: AssetDeliveryConfig)
        ensures
            r == (AssetDeliveryConfig { max_active_downloads: value, ..self }),
    {
        let mut config = self;
        config.max_active_downloads = value;
        config
    }

    /// Sets the bounded body chunk size.
    pub fn with_chunk_size(self, value: usize) -> (r: AssetDeliveryConfig)
        ensures
            r == (AssetDeliveryConfig { chunk_size: value, ..self }),
    {
        let mut config = self;
        config.chunk_size = value;
        config
    }

    /// Sets the idle timeout in milliseconds.
    pub fn with_idle_timeout_milliseconds(self, value: u64) -> (r: AssetDeliveryConfig)
        ensures
            r == (AssetDeliveryConfig { idle_timeout_milliseconds: value, ..self }),
    {
        let mut config = self;
        config.idle_timeout_milliseconds = value;
        config
    }

    /// Sets the Grant lifetime in seconds.
    pub fn with_grant_ttl_seconds(self, value: i64) -> (r: AssetDeliveryConfig)
        ensures
            r == (AssetDeliveryConfig { grant_ttl_seconds: value, ..self }),
    {
        let mut config = self;
        config.grant_ttl_seconds = value;
        config
    }

    /// Sets the bounded Grant registry size.
    pub fn with_max_grants(self, value: usize) -> (r: AssetDeliveryConfig)
        ensures
            r == (AssetDeliveryConfig { max_grants: value, ..self }),
    {
        let mut config = self;
        config.max_grants = value;
        config
    }

    /// Replaces the CORS origin allowlist.
    pub fn with_allowed_origins(self, origins: Vec<String>) -> (r: AssetDeliveryConfig)
        ensures
            r == (AssetDeliveryConfig { allowed_origins: origins, ..self }),
    {
        let mut config = self;
        config.allowed_origins = origins;
        config
    }
}

/// The default configuration can be used, switched on or off.
pub proof fn law_default_delivery_is_valid(config: AssetDeliveryConfig, enabled: bool)
    requires
        config.is_default(),
    ensures
        config.verdict() == Ok::<(), ServerErrorView>(()),
        (AssetDeliveryConfig { enabled, ..config }).verdict() == Ok::<(), ServerErrorView>(()),
{
    assert(0x7f00_0001u32 / 0x100_0000 == 127);
}

/// A configuration that can be used and listens beyond loopback advertises a base URL that clients
/// can connect to.
pub proof fn law_valid_public_delivery_advertises_a_host(config: AssetDeliveryConfig)
    requires
        config.verdict() is Ok,
        config.enabled,
        !config.listen_addr.ip.spec_is_loopback(),
    ensures
        config.public_base_url is Some,
        base_url_verdict(config.public_base_url->0@) is Ok,
{
}

/// Asset Delivery can be used exactly where every limit is at least one, and the advertised base
/// URL is one that clients can connect to; where none is advertised, delivery has to be switched
/// off or to listen on the loopback address only.
pub proof fn law_usable_delivery(config: AssetDeliveryConfig)
    ensures
        config.verdict() is Ok <==> {
            &&& config.max_connections >= 1
            &&& config.max_active_downloads >= 1
            &&& config.chunk_size >= 1
            &&& config.idle_timeout_milliseconds >= 1
            &&& config.grant_ttl_seconds >= 1
            &&& config.max_grants >= 1
            &&& config.public_base_url matches Some(url) ==> base_url_verdict(url@) is Ok
            &&& config.public_base_url is None && config.enabled ==> match config.listen_addr.ip {
                IpAddress::V4(bits) => 0x7f00_0000 <= bits < 0x8000_0000,
                IpAddress::V6(bits) => bits == 1,
            }
        },
        config.verdict() is Err ==> config.verdict()->Err_0 is Config,
{
}

/// A URL that may be advertised begins with `http://` or `https://`, holds no white space, no query
/// and no fragment, and has something behind that, with a slash at most at its very end.
pub proof fn law_advertised_urls_are_plain(value: Seq<char>)
    requires
        base_url_verdict(value) is Ok,
    ensures
        exists|n: int|
            {
                &&& 4 <= n <= 5
                &&& n + 3 < value.len()
                &&& #[trigger] value.take(n) == "http"@ || value.take(n) == "https"@
                &&& value.subrange(n, n + 3) == "://"@
                &&& forall|i: int|
                    n + 3 <= i < value.len() ==> #[trigger] value[i] != '?' && value[i] != '#' && (
                    value[i] == '/' ==> i == value.len() - 1 && i > n + 3)
            },
        forall|i: int| 0 <= i < value.len() ==> !is_white_space(#[trigger] value[i]),
{
    reveal_strlit("://");
    reveal_strlit("http");
    reveal_strlit("https");
    lemma_find_from(value, "://"@, 0);
    let n = find_text(value, "://"@)->0;
    let remainder = value.skip(n + 3);
    let slash = seq!['/'];
    lemma_find_from(remainder, slash, 0);
    assert(value.take(n).len() == n);
    assert forall|i: int| n + 3 <= i < value.len() implies #[trigger] value[i] != '?' && value[i]
        != '#' && (value[i] == '/' ==> i == value.len() - 1 && i > n + 3) by {
        let k = i - n - 3;
        assert(remainder[k] == value[i]);
        assert(remainder.contains(remainder[k]));
        if value[i] == '/' {
            assert(remainder.subrange(k, k + 1) =~= slash);
            assert(occurs_at(remainder, slash, k));
            let first = find_text(remainder, slash)->0;
            assert(first <= k);
            assert(remainder.skip(first + 1).len() == 0);
        }
    }
    assert(remainder.len() > 0);
}

/// A URL of `http` or `https`, a host without special characters that is not the unspecified
/// address, and possibly a port and one slash, may be advertised.
pub proof fn law_plain_urls_may_be_advertised(host: Seq<char>, port: int, secure: bool)
    requires
        host.len() > 0,
        forall|i: int|
            0 <= i < host.len() ==> {
                let c = #[trigger] host[i];
                c != ':' && c != '/' && c != '?' && c != '#' && c != '[' && c != ']'
                    && !is_white_space(c)
            },
        host != "0.0.0.0"@,
        0 <= port <= u16::MAX,
    ensures
        ({
            let front = if secure {
                "https"@
            } else {
                "http"@
            } + "://"@;
            &&& base_url_verdict(front + host) is Ok
            &&& base_url_verdict(front + host + seq!['/']) is Ok
            &&& base_url_verdict(front + (host + seq![':'] + decimal(port))) is Ok
            &&& base_url_verdict(front + (host + seq![':'] + decimal(port)) + seq!['/']) is Ok
        }),
        base_url_verdict("http"@ + "://"@ + "0.0.0.0"@) is Err,
{
    let scheme = if secure {
        "https"@
    } else {
        "http"@
    };
    let none = Seq::<char>::empty();
    let authority = host + seq![':'] + decimal(port);
    lemma_host_is_plain(host);
    lemma_port_is_plain(host, port);
    lemma_url_taken_apart(scheme, host, none);
    lemma_url_taken_apart(scheme, host, seq!['/']);
    lemma_url_taken_apart(scheme, authority, none);
    lemma_url_taken_apart(scheme, authority, seq!['/']);
    let front = scheme + "://"@;
    assert(front + host + none =~= front + host);
    assert(front + authority + none =~= front + authority);
    let zeros = "0.0.0.0"@;
    reveal_strlit("0.0.0.0");
    assert forall|i: int| 0 <= i < zeros.len() implies {
        let c = #[trigger] zeros[i];
        c != ':' && c != '/' && c != '?' && c != '#' && c != '[' && c != ']' && !is_white_space(c)
    } by {
        assert(zeros[i] == '0' || zeros[i] == '.');
    }
    lemma_find_from(zeros, seq![':'], 0);
    assert(find_text(zeros, seq![':']) is None) by {
        if let Some(k) = find_text(zeros, seq![':']) {
            assert(zeros.subrange(k, k + 1)[0] == zeros[k]);
        }
    }
    lemma_url_taken_apart("http"@, zeros, none);
    assert("http"@ + "://"@ + zeros + none =~= "http"@ + "://"@ + zeros);
    assert(without_brackets(zeros) == zeros);
}

proof fn lemma_host_is_plain(host: Seq<char>)
    requires
        host.len() > 0,
        forall|i: int|
            0 <= i < host.len() ==> {
                let c = #[trigger] host[i];
                c != ':' && c != '[' && c != ']'
            },
        host != "0.0.0.0"@,
    ensures
        authority_host(host) == Ok::<Seq<char>, Seq<char>>(host),
        without_brackets(host) == host,
        !is_unspecified_literal(host),
{
    lemma_find_from(host, seq![':'], 0);
    if let Some(k) = find_text(host, seq![':']) {
        assert(host.subrange(k, k + 1)[0] == host[k]);
    }
    lemma_find_from(host, seq![':', ':'], 0);
    if let Some(k) = find_text(host, seq![':', ':']) {
        assert(host.subrange(k, k + 2)[0] == host[k]);
    }
    assert(host[0] != '[');
    assert(host.last() == host[host.len() - 1]);
    let parts = split_text(host, seq![':']);
    assert(parts =~= seq![host]);
    assert(parts.last() == host);
}

proof fn lemma_port_is_plain(host: Seq<char>, port: int)
    requires
        host.len() > 0,
        forall|i: int|
            0 <= i < host.len() ==> {
                let c = #[trigger] host[i];
                c != ':' && c != '[' && c != ']'
            },
        0 <= port <= u16::MAX,
    ensures
        authority_host(host + seq![':'] + decimal(port)) == Ok::<Seq<char>, Seq<char>>(host),
        forall|i: int|
            0 <= i < decimal(port).len() ==> '0' <= #[trigger] decimal(port)[i] <= '9',
{
    lemma_decimal_reads_back(port);
    let digits = decimal(port);
    let colon = seq![':'];
    let authority = host + colon + digits;
    lemma_find_from(authority, colon, 0);
    let n = host.len() as int;
    assert(authority.subrange(n, n + 1) =~= colon);
    assert(occurs_at(authority, colon, n));
    let k = find_text(authority, colon)->0;
    assert(authority.subrange(k, k + 1)[0] == authority[k]);
    assert(k == n) by {
        if k < n {
            assert(authority[k] == host[k]);
        }
    }
    assert(authority.skip(n + 1) =~= digits);
    assert(authority.take(n) =~= host);
    assert(!digits.contains(':')) by {
        if digits.contains(':') {
            let i = choose|i: int| 0 <= i < digits.len() && digits[i] == ':';
            assert(is_digit(digits[i]));
        }
    }
    assert(authority[0] == host[0]);
    assert forall|i: int| 0 <= i < digits.len() implies '0' <= #[trigger] digits[i] <= '9' by {
        assert(is_digit(digits[i]));
    }
}

proof fn lemma_url_taken_apart(scheme: Seq<char>, authority: Seq<char>, end: Seq<char>)
    requires
        scheme == "http"@ || scheme == "https"@,
        authority.len() > 0,
        forall|i: int|
            0 <= i < authority.len() ==> {
                let c = #[trigger] authority[i];
                c != '/' && c != '?' && c != '#' && !is_white_space(c)
            },
        end == Seq::<char>::empty() || end == seq!['/'],
    ensures
        base_url_verdict(scheme + "://"@ + authority + end) == match authority_host(authority) {
            Err(message) => config_error(message),
            Ok(host) => if host.len() == 0 {
                config_error("asset public base URL must include a host"@)
            } else if is_unspecified_literal(without_brackets(host)) {
                config_error("asset public base URL must not advertise an unspecified host"@)
            } else {
                Ok(())
            },
        },
{
    reveal_strlit("://");
    reveal_strlit("http");
    reveal_strlit("https");
    let mark = "://"@;
    let url = scheme + mark + authority + end;
    let n = scheme.len() as int;
    lemma_find_from(url, mark, 0);
    assert(url.subrange(n, n + 3) =~= mark);
    assert(occurs_at(url, mark, n));
    let k = find_text(url, mark)->0;
    assert(url.subrange(k, k + 3)[0] == url[k]);
    assert(mark[0] == ':');
    assert(k == n) by {
        if k < n {
            assert(url[k] == scheme[k]);
            assert(k == 0 || k == 1 || k == 2 || k == 3 || k == 4);
        }
    }
    let remainder = authority + end;
    assert(url.take(n) =~= scheme);
    assert(url.skip(n + 3) =~= remainder);
    let slash = seq!['/'];
    lemma_find_from(remainder, slash, 0);
    let m = authority.len() as int;
    if end.len() > 0 {
        assert(remainder.subrange(m, m + 1) =~= slash);
        assert(occurs_at(remainder, slash, m));
    }
    if let Some(j) = find_text(remainder, slash) {
        assert(remainder.subrange(j, j + 1)[0] == remainder[j]);
        assert(j == m) by {
            if j < m {
                assert(remainder[j] == authority[j]);
            }
        }
        assert(remainder.take(m) =~= authority);
        assert(remainder.skip(m + 1).len() == 0);
    } else {
        assert(remainder =~= authority);
    }
    assert forall|i: int| 0 <= i < url.len() implies !is_white_space(#[trigger] url[i]) by {
        if i < n {
            assert(url[i] == scheme[i]);
            assert(i == 0 || i == 1 || i == 2 || i == 3 || i == 4);
        } else if i < n + 3 {
            assert(url[i] == mark[i - n]);
        } else if i < n + 3 + m {
            assert(url[i] == authority[i - n - 3]);
        } else {
            assert(url[i] == '/');
        }
    }
    assert forall|i: int| 0 <= i < remainder.len() implies remainder[i] != '?' && remainder[i]
        != '#' by {
        if i < m {
            assert(remainder[i] == authority[i]);
        }
    }
}

/// Brackets are taken away at both ends, however many there are, and nowhere else.
pub proof fn law_brackets_are_taken_from_the_ends(s: Seq<char>)
    ensures
        without_brackets(seq!['['] + s) == without_brackets(s),
        without_brackets(seq![']'] + s) == without_brackets(s),
        s.len() > 0 && s[0] != '[' && s[0] != ']' ==> without_brackets(s + seq![']'])
            == without_brackets(s) && without_brackets(s + seq!['[']) == without_brackets(s),
        s.len() > 0 && s[0] != '[' && s[0] != ']' && s.last() != '[' && s.last() != ']'
            ==> without_brackets(s) == s,
        without_brackets(Seq::empty()) == Seq::<char>::empty(),
{
    assert((seq!['['] + s).skip(1) =~= s);
    assert((seq![']'] + s).skip(1) =~= s);
    assert((s + seq![']']).drop_last() =~= s);
    assert((s + seq!['[']).drop_last() =~= s);
}

/// An authority that is an address in brackets, possibly with a port, names that address; a port
/// beyond 65535, or anything else behind the brackets, is refused, and so are brackets that are not
/// closed.
pub proof fn law_bracketed_authorities(address: Seq<char>, port: int, other: char)
    requires
        !address.contains(']'),
        0 <= port,
    ensures
        authority_host(seq!['['] + (address + seq![']'])) == Ok::<Seq<char>, Seq<char>>(address),
        authority_host(seq!['['] + (address + seq![']'] + (seq![':'] + decimal(port))))
            == if port <= 65535 {
            Ok::<Seq<char>, Seq<char>>(address)
        } else {
            Err("asset public base URL has an invalid port"@)
        },
        other != ':' ==> authority_host(seq!['['] + (address + seq![']'] + seq![other])) is Err,
        authority_host(seq!['['] + address) is Err,
{
    lemma_decimal_reads_back(port);
    let none = Seq::<char>::empty();
    lemma_bracketed(address, none);
    assert(address + seq![']'] + none =~= address + seq![']']);
    let suffix = seq![':'] + decimal(port);
    lemma_bracketed(address, suffix);
    assert(suffix.skip(1) =~= decimal(port));
    assert(is_digit(decimal(port)[0]));
    lemma_bracketed(address, seq![other]);
    assert((seq!['['] + address).skip(1) =~= address);
    lemma_find_from(address, seq![']'], 0);
    if let Some(k) = find_text(address, seq![']']) {
        assert(address.subrange(k, k + 1)[0] == address[k]);
        assert(address.contains(address[k]));
    }
}

proof fn lemma_bracketed(address: Seq<char>, suffix: Seq<char>)
    requires
        !address.contains(']'),
    ensures
        (seq!['['] + (address + seq![']'] + suffix)).skip(1) == address + seq![']'] + suffix,
        find_text(address + seq![']'] + suffix, seq![']']) == Some(address.len() as int),
        (address + seq![']'] + suffix).take(address.len() as int) == address,
        (address + seq![']'] + suffix).skip(address.len() as int + 1) == suffix,
{
    let close = seq![']'];
    let rest = address + close + suffix;
    let n = address.len() as int;
    assert((seq!['['] + rest).skip(1) =~= rest);
    lemma_find_from(rest, close, 0);
    assert(rest.subrange(n, n + 1) =~= close);
    assert(occurs_at(rest, close, n));
    let k = find_text(rest, close)->0;
    assert(rest.subrange(k, k + 1)[0] == rest[k]);
    assert(k == n) by {
        if k < n {
            assert(rest[k] == address[k]);
            assert(address.contains(address[k]));
        }
    }
    assert(rest.take(n) =~= address);
    assert(rest.skip(n + 1) =~= suffix);
}

} // verus!
