//! The `asset.access.resolve` Query and its descriptors.
//!
//! A Query is driven by asking [`AssetAccessQueryHandler::execute`] again and again, each time with
//! one more fact, until it names the answer.

use vstd::prelude::*;

use crate::delivery_config::AssetDeliveryConfig;
use crate::error::{ServerError, ServerErrorView};
use crate::query::{
    authorization_failure, map_read_authorization_error, QueryHandlerError, ReadAuthorizationError,
};
use crate::text::{chars_of, copy_range, decimal, decimal_text, optional_text, same_text, string_of};

verus! {

/// Stable Query type for resolving a short-lived Asset access capability.
pub const ASSET_ACCESS_RESOLVE_QUERY_TYPE: &'static str = "asset.access.resolve";

/// Explicit authorization method carried by an access descriptor.
#[derive(Debug, PartialEq, Eq)]
pub enum AssetAccessAuthorization {
    /// A short-lived HTTP Bearer token.
    Bearer {
        /// The one-time-disclosed short-lived bearer token.
        token: String,
    },
}

impl AssetAccessAuthorization {
    /// The Bearer token.
    pub open spec fn spec_token(self) -> Seq<char> {
        match self {
            AssetAccessAuthorization::Bearer { token } => token@,
        }
    }

    /// Returns the Bearer token when this descriptor uses Bearer auth.
    pub fn bearer_token(&self) -> (r: Option<&str>)
        ensures
            r is Some,
            r->0@ == self.spec_token(),
    {
        match self {
            AssetAccessAuthorization::Bearer { token } => Some(token.as_str()),
        }
    }
}

/// Application-level descriptor for an Asset Delivery locator.
#[derive(Debug, PartialEq, Eq)]
pub struct AssetAccessDescriptor {
    asset_id: String,
    delivery_kind: String,
    url: String,
    authorization: AssetAccessAuthorization,
    expires_at: String,
    supports_range: bool,
}

/// The contents of [`AssetAccessDescriptor`].
pub struct AccessDescriptorView {
    /// The Asset identity.
    pub asset_id: Seq<char>,
    /// The delivery backend kind.
    pub delivery_kind: Seq<char>,
    /// The public delivery URL.
    pub url: Seq<char>,
    /// The Bearer token.
    pub token: Seq<char>,
    /// The encoded grant expiration time.
    pub expires_at: Seq<char>,
    /// Whether byte ranges are supported.
    pub supports_range: bool,
}

impl View for AssetAccessDescriptor {
    type V = AccessDescriptorView;

    closed spec fn view(&self) -> AccessDescriptorView {
        AccessDescriptorView {
            asset_id: self.asset_id@,
            delivery_kind: self.delivery_kind@,
            url: self.url@,
            token: self.authorization.spec_token(),
            expires_at: self.expires_at@,
            supports_range: self.supports_range,
        }
    }
}

/// The descriptor of an Asset that is served over HTTP for a Bearer token.
pub open spec fn http_bearer_descriptor(
    asset_id: Seq<char>,
    url: Seq<char>,
    token: Seq<char>,
    expires_at: Seq<char>,
) -> AccessDescriptorView {
    AccessDescriptorView {
        asset_id,
        delivery_kind: "http"@,
        url,
        token,
        expires_at,
        supports_range: true,
    }
}

impl AssetAccessDescriptor {
    /// Creates an HTTP Bearer access descriptor.
    pub fn http_bearer(asset_id: String, url: String, token: String, expires_at: String) -> (r:
        AssetAccessDescriptor)
        ensures
            r@ == http_bearer_descriptor(asset_id@, url@, token@, expires_at@),
    {
        AssetAccessDescriptor {
            asset_id,
            delivery_kind: "http".to_owned(),
            url,
            authorization: AssetAccessAuthorization::Bearer { token },
            expires_at,
            supports_range: true,
        }
    }

    /// Returns the Asset identity.
    pub fn asset_id(&self) -> (r: &str)
        ensures
            r@ == self@.asset_id,
    {
        self.asset_id.as_str()
    }

    /// Returns the delivery backend kind.
    pub fn delivery_kind(&self) -> (r: &str)
        ensures
            r@ == self@.delivery_kind,
    {
        self.delivery_kind.as_str()
    }

    /// Returns the public delivery URL.
    pub fn url(&self) -> (r: &str)
        ensures
            r@ == self@.url,
    {
        self.url.as_str()
    }

    /// Returns the authorization method.
    pub fn authorization(&self) -> (r: &AssetAccessAuthorization)
        ensures
            r.spec_token() == self@.token,
    {
        &self.authorization
    }

    /// Returns the encoded grant expiration time.
    pub fn expires_at(&self) -> (r: &str)
        ensures
            r@ == self@.expires_at,
    {
        self.expires_at.as_str()
    }

    /// Whether byte ranges are supported.
    pub fn supports_range(&self) -> (r: bool)
        ensures
            r == self@.supports_range,
    {
        self.supports_range
    }
}

/// What the delivery plane advertises, and the limits of its Grants.
#[derive(Debug)]
pub struct AssetDeliveryService {
    public_base_url: Option<String>,
    grant_ttl_seconds: i64,
    max_grants: usize,
}

impl AssetDeliveryService {
    /// The advertised base URL.
    pub closed spec fn spec_base_url(self) -> Option<Seq<char>> {
        optional_text(self.public_base_url)
    }

    /// The lifetime of a Grant in seconds, and how many may live at once.
    pub closed spec fn grant_limits(self) -> (int, int) {
        (self.grant_ttl_seconds as int, self.max_grants as int)
    }

    /// Creates the service of a usable configuration.
    pub fn new(config: &AssetDeliveryConfig) -> (r: Result<AssetDeliveryService, ServerError>)
        ensures
            match r {
                Ok(service) => config.verdict() is Ok && service.spec_base_url() == optional_text(
                    config.public_base_url,
                ) && service.grant_limits() == (
                    config.grant_ttl_seconds as int,
                    config.max_grants as int,
                ),
                Err(error) => config.verdict() == Err::<(), ServerErrorView>(error@),
            },
    {
        match config.validate() {
            Err(error) => Err(error),
            Ok(_) => {
                let public_base_url = match config.public_base_url() {
                    Some(url) => Some(url.to_owned()),
                    None => None,
                };
                Ok(
                    AssetDeliveryService {
                        public_base_url,
                        grant_ttl_seconds: config.grant_ttl_seconds(),
                        max_grants: config.max_grants(),
                    },
                )
            },
        }
    }

    /// Returns the lifetime of a Grant in seconds.
    pub fn grant_ttl_seconds(&self) -> (r: i64)
        ensures
            r == self.grant_limits().0,
    {
        self.grant_ttl_seconds
    }

    /// Returns how many Grants may live at once.
    pub fn max_grants(&self) -> (r: usize)
        ensures
            r == self.grant_limits().1,
    {
        self.max_grants
    }

    /// Sets a loopback public URL after a listener has been bound, unless one is advertised
    /// already.
    pub fn set_bound_public_base_url(&mut self, port: u16)
        ensures
            final(self).spec_base_url() == Some(
                match old(self).spec_base_url() {
                    Some(url) => url,
                    None => "http://127.0.0.1:"@ + decimal(port as int),
                },
            ),
            final(self).grant_limits() == old(self).grant_limits(),
    {
        if self.public_base_url.is_none() {
            let url = "http://127.0.0.1:".to_owned().concat(decimal_text(port as u64).as_str());
            self.public_base_url = Some(url);
        }
    }

    /// Returns the public URL used to build access descriptors.
    pub fn public_base_url(&self) -> (r: Option<String>)
        ensures
            optional_text(r) == self.spec_base_url(),
    {
        match &self.public_base_url {
            Some(url) => Some(url.clone()),
            None => None,
        }
    }
}

/// The text without the slashes at its end.
pub open spec fn without_trailing_slashes(s: Seq<char>) -> Seq<char>
    decreases s.len(),
{
    if s.len() > 0 && s.last() == '/' {
        without_trailing_slashes(s.drop_last())
    } else {
        s
    }
}

/// The URL of an Asset below a base URL.
pub open spec fn asset_url_at(base_url: Seq<char>, asset_id: Seq<char>) -> Seq<char> {
    without_trailing_slashes(base_url) + "/assets/"@ + asset_id
}

/// Returns the URL of an Asset below a base URL.
pub fn asset_url(base_url: &str, asset_id: &str) -> (r: String)
    ensures
        r@ == asset_url_at(base_url@, asset_id@),
{
    let text = chars_of(base_url);
    let mut end: usize = text.len();
    assert(text@.take(end as int) =~= text@);
    while end > 0 && text[end - 1] == '/'
        invariant
            end <= text@.len(),
            text@ == base_url@,
            without_trailing_slashes(base_url@) == without_trailing_slashes(
                text@.take(end as int),
            ),
        decreases end,
    {
        assert(text@.take(end as int).drop_last() =~= text@.take(end - 1));
        assert(text@.take(end as int).last() == text@[end - 1]);
        end = end - 1;
    }
    assert(end > 0 ==> text@.take(end as int).last() == text@[end - 1]);
    let base = copy_range(text.as_slice(), 0, end);
    assert(base@ =~= text@.take(end as int));
    string_of(base.as_slice()).concat("/assets/").concat(asset_id)
}

/// Why no Grant was issued or accepted.
#[derive(Clone, Copy, Debug, PartialEq, Eq, Structural)]
pub enum GrantError {
    /// The Grant registry cannot take another Grant.
    Unavailable,
    /// No token could be made.
    Randomness,
    /// The token is no live Grant for the Asset.
    Unauthorized,
}

/// The failure of a Query for which no Grant was issued.
pub open spec fn grant_failure(error: GrantError) -> QueryHandlerError {
    match error {
        GrantError::Unavailable => QueryHandlerError::Unavailable,
        GrantError::Randomness => QueryHandlerError::Internal,
        GrantError::Unauthorized => QueryHandlerError::Unauthorized,
    }
}

fn map_grant_error(error: GrantError) -> (r: QueryHandlerError)
    ensures
        r == grant_failure(error),
{
    match error {
        GrantError::Unavailable => QueryHandlerError::Unavailable,
        GrantError::Randomness => QueryHandlerError::Internal,
        GrantError::Unauthorized => QueryHandlerError::Unauthorized,
    }
}

/// What a Document catalog tells of a Document.
#[derive(Debug)]
pub struct ResolvedDocument {
    /// The Document identifier.
    pub document_id: String,
    /// The Session it belongs to.
    pub session_id: String,
    /// The Asset it was made from.
    pub source_asset_id: String,
}

/// The contents of [`ResolvedDocument`].
pub struct ResolvedDocumentView {
    /// The Document identifier.
    pub document_id: Seq<char>,
    /// The Session it belongs to.
    pub session_id: Seq<char>,
    /// The Asset it was made from.
    pub source_asset_id: Seq<char>,
}

impl View for ResolvedDocument {
    type V = ResolvedDocumentView;

    open spec fn view(&self) -> ResolvedDocumentView {
        ResolvedDocumentView {
            document_id: self.document_id@,
            session_id: self.session_id@,
            source_asset_id: self.source_asset_id@,
        }
    }
}

/// A Grant that was issued.
#[derive(Debug)]
pub struct IssuedGrant {
    /// The bearer token.
    pub token: String,
    /// The Asset that the Grant is for.
    pub asset_id: String,
    /// The encoded time at which it expires.
    pub expires_at: String,
}

/// The contents of [`IssuedGrant`].
pub struct IssuedGrantView {
    /// The bearer token.
    pub token: Seq<char>,
    /// The Asset that the Grant is for.
    pub asset_id: Seq<char>,
    /// The encoded time at which it expires.
    pub expires_at: Seq<char>,
}

impl View for IssuedGrant {
    type V = IssuedGrantView;

    open spec fn view(&self) -> IssuedGrantView {
        IssuedGrantView {
            token: self.token@,
            asset_id: self.asset_id@,
            expires_at: self.expires_at@,
        }
    }
}

/// What a catalog answered.
#[derive(Debug)]
pub enum Lookup<T> {
    /// The catalog failed.
    Failed,
    /// There is no such thing.
    Missing,
    /// It was found.
    Found(T),
}

/// What is known so far of an access Query.
#[derive(Debug)]
pub struct AccessFacts {
    /// What the Document catalog answered.
    pub document: Option<Lookup<ResolvedDocument>>,
    /// Whether the actor may read the Session of the Document.
    pub authorization: Option<Result<(), ReadAuthorizationError>>,
    /// The identifier that the Asset catalog has for the Asset.
    pub asset: Option<Lookup<String>>,
    /// The advertised base URL, if there is one.
    pub base_url: Option<String>,
    /// The Grant.
    pub grant: Option<Result<IssuedGrant, GrantError>>,
    /// Whether the descriptor could be encoded.
    pub encoded: Option<bool>,
}

/// The contents of [`AccessFacts`].
pub struct AccessFactsView {
    /// What the Document catalog answered.
    pub document: Option<Lookup<ResolvedDocumentView>>,
    /// Whether the actor may read the Session of the Document.
    pub authorization: Option<Result<(), ReadAuthorizationError>>,
    /// The identifier that the Asset catalog has for the Asset.
    pub asset: Option<Lookup<Seq<char>>>,
    /// The advertised base URL, if there is one.
    pub base_url: Option<Seq<char>>,
    /// The Grant.
    pub grant: Option<Result<IssuedGrantView, GrantError>>,
    /// Whether the descriptor could be encoded.
    pub encoded: Option<bool>,
}

impl View for AccessFacts {
    type V = AccessFactsView;

    open spec fn view(&self) -> AccessFactsView {
        AccessFactsView {
            document: match self.document {
                None => None,
                Some(Lookup::Failed) => Some(Lookup::Failed),
                Some(Lookup::Missing) => Some(Lookup::Missing),
                Some(Lookup::Found(document)) => Some(Lookup::Found(document@)),
            },
            authorization: self.authorization,
            asset: match self.asset {
                None => None,
                Some(Lookup::Failed) => Some(Lookup::Failed),
                Some(Lookup::Missing) => Some(Lookup::Missing),
                Some(Lookup::Found(id)) => Some(Lookup::Found(id@)),
            },
            base_url: optional_text(self.base_url),
            grant: match self.grant {
                None => None,
                Some(Ok(grant)) => Some(Ok(grant@)),
                Some(Err(error)) => Some(Err(error)),
            },
            encoded: self.encoded,
        }
    }
}

/// What an access Query does next.
#[derive(Debug, PartialEq, Eq)]
pub enum AccessDecision {
    /// Ask the Document catalog for the Document.
    GetDocument,
    /// Ask whether the actor may read the Session.
    Authorize(String),
    /// Ask the Asset catalog for the Asset.
    GetAsset(String),
    /// Issue a Grant for the Asset, on behalf of the actor, the Session and the Document.
    IssueGrant {
        /// The Asset.
        asset_id: String,
        /// The Session.
        session_id: String,
        /// The Document.
        document_id: String,
    },
    /// Encode the descriptor.
    Encode(AssetAccessDescriptor),
    /// The encoded descriptor is the answer.
    Answer,
    /// The Query fails.
    Fail(QueryHandlerError),
}

/// The contents of [`AccessDecision`].
pub enum AccessDecisionView {
    /// Ask the Document catalog for the Document.
    GetDocument,
    /// Ask whether the actor may read the Session.
    Authorize(Seq<char>),
    /// Ask the Asset catalog for the Asset.
    GetAsset(Seq<char>),
    /// Issue a Grant for the Asset, on behalf of the actor, the Session and the Document.
    IssueGrant(Seq<char>, Seq<char>, Seq<char>),
    /// Encode the descriptor.
    Encode(AccessDescriptorView),
    /// The encoded descriptor is the answer.
    Answer,
    /// The Query fails.
    Fail(QueryHandlerError),
}

impl View for AccessDecision {
    type V = AccessDecisionView;

    open spec fn view(&self) -> AccessDecisionView {
        match *self {
            AccessDecision::GetDocument => AccessDecisionView::GetDocument,
            AccessDecision::Authorize(id) => AccessDecisionView::Authorize(id@),
            AccessDecision::GetAsset(id) => AccessDecisionView::GetAsset(id@),
            AccessDecision::IssueGrant { asset_id, session_id, document_id } =>
            AccessDecisionView::IssueGrant(asset_id@, session_id@, document_id@),
            AccessDecision::Encode(descriptor) => AccessDecisionView::Encode(descriptor@),
            AccessDecision::Answer => AccessDecisionView::Answer,
            AccessDecision::Fail(error) => AccessDecisionView::Fail(error),
        }
    }
}

/// What an access Query does for an actor who may read the Document.
pub open spec fn authorized_access_decision(
    document: ResolvedDocumentView,
    facts: AccessFactsView,
) -> AccessDecisionView {
    let asset_id = document.source_asset_id;
    match facts.asset {
        None => AccessDecisionView::GetAsset(asset_id),
        Some(Lookup::Failed) => AccessDecisionView::Fail(QueryHandlerError::Unavailable),
        Some(Lookup::Missing) => AccessDecisionView::Fail(QueryHandlerError::Internal),
        Some(Lookup::Found(found)) => if found != asset_id {
            AccessDecisionView::Fail(QueryHandlerError::Internal)
        } else {
            match facts.base_url {
                None => AccessDecisionView::Fail(QueryHandlerError::Unavailable),
                Some(base_url) => match facts.grant {
                    None => AccessDecisionView::IssueGrant(
                        asset_id,
                        document.session_id,
                        document.document_id,
                    ),
                    Some(Err(error)) => AccessDecisionView::Fail(grant_failure(error)),
                    Some(Ok(grant)) => match facts.encoded {
                        None => AccessDecisionView::Encode(
                            http_bearer_descriptor(
                                asset_id,
                                asset_url_at(base_url, grant.asset_id),
                                grant.token,
                                grant.expires_at,
                            ),
                        ),
                        Some(true) => AccessDecisionView::Answer,
                        Some(false) => AccessDecisionView::Fail(QueryHandlerError::Internal),
                    },
                },
            }
        },
    }
}

/// What an access Query does next; `readable` tells whether its payload could be read.
pub open spec fn access_decision(readable: bool, facts: AccessFactsView) -> AccessDecisionView {
    if !readable {
        AccessDecisionView::Fail(QueryHandlerError::InvalidQuery)
    } else {
        match facts.document {
            None => AccessDecisionView::GetDocument,
            Some(Lookup::Failed) => AccessDecisionView::Fail(QueryHandlerError::Unavailable),
            Some(Lookup::Missing) => AccessDecisionView::Fail(QueryHandlerError::NotFound),
            Some(Lookup::Found(document)) => match facts.authorization {
                None => AccessDecisionView::Authorize(document.session_id),
                Some(Err(error)) => AccessDecisionView::Fail(authorization_failure(error)),
                Some(Ok(_)) => authorized_access_decision(document, facts),
            },
        }
    }
}

fn decide_authorized(document: &ResolvedDocument, facts: &AccessFacts) -> (r: AccessDecision)
    ensures
        r@ == authorized_access_decision(document@, facts@),
{
    match &facts.asset {
        None => {
            return AccessDecision::GetAsset(document.source_asset_id.clone());
        },
        Some(Lookup::Failed) => {
            return AccessDecision::Fail(QueryHandlerError::Unavailable);
        },
        Some(Lookup::Missing) => {
            return AccessDecision::Fail(QueryHandlerError::Internal);
        },
        Some(Lookup::Found(found)) => if !same_text(
            found.as_str(),
            document.source_asset_id.as_str(),
        ) {
            return AccessDecision::Fail(QueryHandlerError::Internal);
        },
    }
    let base_url = match &facts.base_url {
        Some(base_url) => base_url,
        None => {
            return AccessDecision::Fail(QueryHandlerError::Unavailable);
        },
    };
    match &facts.grant {
        None => AccessDecision::IssueGrant {
            asset_id: document.source_asset_id.clone(),
            session_id: document.session_id.clone(),
            document_id: document.document_id.clone(),
        },
        Some(Err(error)) => AccessDecision::Fail(map_grant_error(*error)),
        Some(Ok(grant)) => match facts.encoded {
            None => AccessDecision::Encode(
                AssetAccessDescriptor::http_bearer(
                    document.source_asset_id.clone(),
                    asset_url(base_url.as_str(), grant.asset_id.as_str()),
                    grant.token.clone(),
                    grant.expires_at.clone(),
                ),
            ),
            Some(done) => if done {
                AccessDecision::Answer
            } else {
                AccessDecision::Fail(QueryHandlerError::Internal)
            },
        },
    }
}

/// Handles `asset.access.resolve` with resolve-then-authorize ordering.
#[derive(Clone, Copy, Debug, Default)]
pub struct AssetAccessQueryHandler;

impl AssetAccessQueryHandler {
    /// Decides what an access Query does next.
    ///
    /// The Document is resolved first, then its Session is authorized; only then is a Grant issued.
    pub fn execute(&self, readable: bool, facts: &AccessFacts) -> (r: AccessDecision)
        ensures
            r@ == access_decision(readable, facts@),
    {
        if !readable {
            return AccessDecision::Fail(QueryHandlerError::InvalidQuery);
        }
        let document = match &facts.document {
            None => {
                return AccessDecision::GetDocument;
            },
            Some(Lookup::Failed) => {
                return AccessDecision::Fail(QueryHandlerError::Unavailable);
            },
            Some(Lookup::Missing) => {
                return AccessDecision::Fail(QueryHandlerError::NotFound);
            },
            Some(Lookup::Found(document)) => document,
        };
        match facts.authorization {
            None => AccessDecision::Authorize(document.session_id.clone()),
            Some(Err(error)) => AccessDecision::Fail(map_read_authorization_error(error)),
            Some(Ok(_)) => decide_authorized(document, facts),
        }
    }
}

/// No Grant is issued, and no Asset is looked up, for an actor who was not found to be allowed to
/// read the Session of the Document; the Session that is asked about is that of the Document, and
/// the Grant is for the Asset of the Document.
pub proof fn law_no_grant_without_authorization(readable: bool, facts: AccessFactsView)
    ensures
        (access_decision(readable, facts) is GetAsset || access_decision(
            readable,
            facts,
        ) is IssueGrant || access_decision(readable, facts) is Encode || access_decision(
            readable,
            facts,
        ) is Answer) ==> (facts.authorization matches Some(Ok(_))),
        access_decision(readable, facts) matches AccessDecisionView::Authorize(session_id) ==> (
        facts.document matches Some(Lookup::Found(document)) && document.session_id == session_id),
        access_decision(readable, facts) matches AccessDecisionView::IssueGrant(
            asset_id,
            session_id,
            document_id,
        ) ==> (facts.document matches Some(Lookup::Found(document)) && document.source_asset_id
            == asset_id && document.session_id == session_id && document.document_id
            == document_id),
{
}

/// A descriptor that is disclosed is one for HTTP with ranges, its token is that of the Grant, and
/// its URL is made of the base URL and the Asset alone: the token is no part of it.
pub proof fn law_descriptor_url_names_only_the_asset(
    readable: bool,
    facts: AccessFactsView,
    base_url: Seq<char>,
    grant: IssuedGrantView,
)
    requires
        facts.base_url == Some(base_url),
        facts.grant == Some(Ok::<IssuedGrantView, GrantError>(grant)),
    ensures
        access_decision(readable, facts) matches AccessDecisionView::Encode(descriptor) ==> {
            &&& descriptor.delivery_kind == "http"@
            &&& descriptor.supports_range
            &&& descriptor.token == grant.token
            &&& descriptor.url == without_trailing_slashes(base_url) + "/assets/"@ + grant.asset_id
        },
{
}

/// An access Query goes step by step: the Document is looked up, then its Session is authorized,
/// then its source Asset is looked up, then a Grant for that Asset is issued on behalf of the
/// Document and its Session, and then the descriptor is encoded, which is the answer. Nothing that
/// was not asked for yet is skipped.
pub proof fn law_access_goes_step_by_step(facts: AccessFactsView, document: ResolvedDocumentView)
    ensures
        facts.document is None ==> access_decision(true, facts) is GetDocument,
        facts.document == Some(Lookup::Found(document)) ==> {
            &&& facts.authorization is None ==> access_decision(true, facts)
                == AccessDecisionView::Authorize(document.session_id)
            &&& facts.authorization == Some(Ok::<(), ReadAuthorizationError>(())) ==> {
                &&& facts.asset is None ==> access_decision(true, facts)
                    == AccessDecisionView::GetAsset(document.source_asset_id)
                &&& facts.asset == Some(Lookup::Found(document.source_asset_id))
                    && facts.base_url is Some ==> {
                    &&& facts.grant is None ==> access_decision(true, facts)
                        == AccessDecisionView::IssueGrant(
                        document.source_asset_id,
                        document.session_id,
                        document.document_id,
                    )
                    &&& (facts.grant matches Some(Ok(_))) ==> {
                        &&& facts.encoded is None ==> access_decision(true, facts) is Encode
                        &&& facts.encoded == Some(true) ==> access_decision(true, facts) is Answer
                    }
                }
            }
        },
        access_decision(true, facts) is Answer ==> facts.encoded == Some(true)
            && facts.document is Some && facts.asset is Some && facts.base_url is Some
            && (facts.authorization matches Some(Ok(_))) && (facts.grant matches Some(Ok(_))),
{
}

/// The descriptor that is disclosed is that of the source Asset of the resolved Document: it has
/// the identifier of that Asset, the token and the end of the Grant, and the URL of the Asset that
/// the Grant is for, below the base URL, which is that same Asset where the Grant is for the Asset
/// it was asked for. The Asset is one that the Asset catalog has under that identifier.
pub proof fn law_descriptor_is_that_of_the_source_asset(
    readable: bool,
    facts: AccessFactsView,
    document: ResolvedDocumentView,
    grant: IssuedGrantView,
    descriptor: AccessDescriptorView,
)
    requires
        facts.document == Some(Lookup::Found(document)),
        facts.grant == Some(Ok::<IssuedGrantView, GrantError>(grant)),
        access_decision(readable, facts) == AccessDecisionView::Encode(descriptor),
    ensures
        descriptor.asset_id == document.source_asset_id,
        facts.asset == Some(Lookup::Found(document.source_asset_id)),
        descriptor.expires_at == grant.expires_at,
        descriptor.token == grant.token,
        descriptor.delivery_kind == "http"@,
        descriptor.supports_range,
        facts.base_url is Some,
        grant.asset_id == document.source_asset_id ==> exists|base: Seq<char>|
            descriptor.url == #[trigger] (base + "/assets/"@) + descriptor.asset_id && (base.len()
                == 0 || base.last() != '/') && base.len() <= facts.base_url->0.len() && base
                == facts.base_url->0.take(base.len() as int) && forall|i: int|
                base.len() <= i < facts.base_url->0.len() ==> #[trigger] facts.base_url->0[i]
                    == '/',
{
    let base_url = facts.base_url->0;
    lemma_without_slashes(base_url);
    let base = without_trailing_slashes(base_url);
    assert(asset_url_at(base_url, grant.asset_id) == (base + "/assets/"@) + grant.asset_id);
}

proof fn lemma_without_slashes(s: Seq<char>)
    ensures
        ({
            let base = without_trailing_slashes(s);
            &&& base.len() <= s.len()
            &&& base == s.take(base.len() as int)
            &&& base.len() == 0 || base.last() != '/'
            &&& forall|i: int| base.len() <= i < s.len() ==> #[trigger] s[i] == '/'
        }),
    decreases s.len(),
{
    if s.len() > 0 && s.last() == '/' {
        let init = s.drop_last();
        lemma_without_slashes(init);
        let base = without_trailing_slashes(init);
        assert(init.take(base.len() as int) =~= s.take(base.len() as int));
        assert forall|i: int| base.len() <= i < s.len() implies #[trigger] s[i] == '/' by {
            if i < init.len() {
                assert(init[i] == s[i]);
            }
        }
    } else {
        assert(s.take(s.len() as int) =~= s);
    }
}

/// The URL of an Asset is the base URL, however many slashes it ends with, then `/assets/` and the
/// identifier; two Assets have different URLs.
pub proof fn law_asset_urls(base: Seq<char>, asset_id: Seq<char>, other: Seq<char>)
    ensures
        base.len() == 0 || base.last() != '/' ==> asset_url_at(base, asset_id) == base + "/assets/"@
            + asset_id,
        asset_url_at(base + seq!['/'], asset_id) == asset_url_at(base, asset_id),
        asset_id != other ==> asset_url_at(base, asset_id) != asset_url_at(base, other),
{
    let longer = base + seq!['/'];
    assert(longer.drop_last() =~= base);
    let front = without_trailing_slashes(base) + "/assets/"@;
    if asset_url_at(base, asset_id) == asset_url_at(base, other) {
        assert((front + asset_id).skip(front.len() as int) =~= asset_id);
        assert((front + other).skip(front.len() as int) =~= other);
    }
}

/// How an access Query fails: an unreadable payload is an invalid Query, a missing Document is not
/// found, and what the catalogs, the authorization, the Grants or the encoding refuse is told apart
/// as these are; an Asset that is missing, or that the catalog has under another identifier, is an
/// internal failure.
pub proof fn law_access_failures(facts: AccessFactsView, document: ResolvedDocumentView)
    ensures
        access_decision(false, facts) == AccessDecisionView::Fail(QueryHandlerError::InvalidQuery),
        facts.document == Some(Lookup::<ResolvedDocumentView>::Failed) ==> access_decision(
            true,
            facts,
        ) == AccessDecisionView::Fail(QueryHandlerError::Unavailable),
        facts.document == Some(Lookup::<ResolvedDocumentView>::Missing) ==> access_decision(
            true,
            facts,
        ) == AccessDecisionView::Fail(QueryHandlerError::NotFound),
        facts.document == Some(Lookup::Found(document)) ==> {
            &&& facts.authorization == Some(
                Err::<(), ReadAuthorizationError>(ReadAuthorizationError::Unauthorized),
            ) ==> access_decision(true, facts) == AccessDecisionView::Fail(
                QueryHandlerError::Unauthorized,
            )
            &&& facts.authorization == Some(
                Err::<(), ReadAuthorizationError>(ReadAuthorizationError::Internal),
            ) ==> access_decision(true, facts) == AccessDecisionView::Fail(
                QueryHandlerError::Internal,
            )
            &&& facts.authorization == Some(
                Err::<(), ReadAuthorizationError>(ReadAuthorizationError::Unavailable),
            ) ==> access_decision(true, facts) == AccessDecisionView::Fail(
                QueryHandlerError::Unavailable,
            )
            &&& facts.authorization == Some(Ok::<(), ReadAuthorizationError>(())) ==> {
                &&& facts.asset == Some(Lookup::<Seq<char>>::Failed)
                    ==> access_decision(true, facts)
                    == AccessDecisionView::Fail(QueryHandlerError::Unavailable)
                &&& facts.asset == Some(Lookup::<Seq<char>>::Missing) ==> access_decision(
                    true,
                    facts,
                ) == AccessDecisionView::Fail(QueryHandlerError::Internal)
                &&& facts.asset matches Some(Lookup::Found(found)) ==> {
                    &&& found != document.source_asset_id ==> access_decision(true, facts)
                        == AccessDecisionView::Fail(QueryHandlerError::Internal)
                    &&& found == document.source_asset_id && facts.base_url is None
                        ==> access_decision(true, facts) == AccessDecisionView::Fail(
                        QueryHandlerError::Unavailable,
                    )
                    &&& found == document.source_asset_id && facts.base_url is Some ==> {
                        &&& facts.grant == Some(
                            Err::<IssuedGrantView, GrantError>(GrantError::Unavailable),
                        ) ==> access_decision(true, facts) == AccessDecisionView::Fail(
                            QueryHandlerError::Unavailable,
                        )
                        &&& facts.grant == Some(
                            Err::<IssuedGrantView, GrantError>(GrantError::Randomness),
                        ) ==> access_decision(true, facts) == AccessDecisionView::Fail(
                            QueryHandlerError::Internal,
                        )
                        &&& facts.grant == Some(
                            Err::<IssuedGrantView, GrantError>(GrantError::Unauthorized),
                        ) ==> access_decision(true, facts) == AccessDecisionView::Fail(
                            QueryHandlerError::Unauthorized,
                        )
                        &&& (facts.grant matches Some(Ok(_))) && facts.encoded == Some(false)
                            ==> access_decision(true, facts) == AccessDecisionView::Fail(
                            QueryHandlerError::Internal,
                        )
                    }
                }
            }
        },
{
}

/// The facts of an access Query, a Document and a Grant show what they hold.
pub proof fn law_views_of_access(
    facts: AccessFacts,
    document: ResolvedDocument,
    grant: IssuedGrant,
)
    ensures
        facts@.document == match facts.document {
            None => None,
            Some(Lookup::Failed) => Some(Lookup::Failed),
            Some(Lookup::Missing) => Some(Lookup::Missing),
            Some(Lookup::Found(found)) => Some(Lookup::Found(found@)),
        },
        facts@.authorization == facts.authorization,
        facts@.asset == match facts.asset {
            None => None,
            Some(Lookup::Failed) => Some(Lookup::Failed),
            Some(Lookup::Missing) => Some(Lookup::Missing),
            Some(Lookup::Found(found)) => Some(Lookup::Found(found@)),
        },
        facts@.base_url == optional_text(facts.base_url),
        facts@.grant == match facts.grant {
            None => None,
            Some(Ok(issued)) => Some(Ok(issued@)),
            Some(Err(error)) => Some(Err(error)),
        },
        facts@.encoded == facts.encoded,
        document@.document_id == document.document_id@,
        document@.session_id == document.session_id@,
        document@.source_asset_id == document.source_asset_id@,
        grant@.token == grant.token@,
        grant@.asset_id == grant.asset_id@,
        grant@.expires_at == grant.expires_at@,
{
}

} // verus!
