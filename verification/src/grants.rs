//! Short-lived Grants for Asset bytes.
//!
//! The registry is bounded: no more Grants live at once than it was made for. The clock and the
//! randomness of the tokens come from outside.

use vstd::prelude::*;

use crate::access::GrantError;
use crate::text::{optional_text, same_text};

verus! {

/// Whom a Grant is issued to, and for what.
#[derive(Debug)]
pub struct Grantee {
    /// The Asset.
    pub asset_id: String,
    /// The actor.
    pub actor_id: String,
    /// The Session of the Document.
    pub session_id: String,
    /// The Document that was made from the Asset.
    pub document_id: String,
}

/// The contents of [`Grantee`].
pub struct GranteeView {
    /// The Asset.
    pub asset_id: Seq<char>,
    /// The actor.
    pub actor_id: Seq<char>,
    /// The Session of the Document.
    pub session_id: Seq<char>,
    /// The Document that was made from the Asset.
    pub document_id: Seq<char>,
}

impl View for Grantee {
    type V = GranteeView;

    open spec fn view(&self) -> GranteeView {
        GranteeView {
            asset_id: self.asset_id@,
            actor_id: self.actor_id@,
            session_id: self.session_id@,
            document_id: self.document_id@,
        }
    }
}

/// A Grant.
#[derive(Debug)]
pub struct AssetAccessGrant {
    /// Whom it was issued to, and for what.
    pub grantee: Grantee,
    /// The second from which on it is over.
    pub expires_at: i64,
}

/// The contents of [`AssetAccessGrant`].
pub struct GrantView {
    /// Whom it was issued to, and for what.
    pub grantee: GranteeView,
    /// The second from which on it is over.
    pub expires_at: int,
}

impl View for AssetAccessGrant {
    type V = GrantView;

    open spec fn view(&self) -> GrantView {
        GrantView { grantee: self.grantee@, expires_at: self.expires_at as int }
    }
}

/// A Grant and its token.
#[derive(Debug)]
struct HeldGrant {
    token: String,
    grant: AssetAccessGrant,
}

/// A token and its Grant.
pub type HeldGrantView = (Seq<char>, GrantView);

impl View for HeldGrant {
    type V = HeldGrantView;

    closed spec fn view(&self) -> HeldGrantView {
        (self.token@, self.grant@)
    }
}

/// Issues and validates Grants.
#[derive(Debug)]
pub struct AssetAccessGrantIssuer {
    ttl_seconds: i64,
    max_grants: usize,
    grants: Vec<HeldGrant>,
}

/// The contents of [`AssetAccessGrantIssuer`].
pub struct IssuerView {
    /// How many seconds a Grant lives.
    pub ttl_seconds: int,
    /// How many Grants may live at once.
    pub max_grants: int,
    /// The Grants in the order in which they were issued; one that is over may still be among them.
    pub grants: Seq<HeldGrantView>,
}

spec fn held_view(grants: Seq<HeldGrant>) -> Seq<HeldGrantView> {
    Seq::new(grants.len(), |i: int| grants[i]@)
}

impl View for AssetAccessGrantIssuer {
    type V = IssuerView;

    closed spec fn view(&self) -> IssuerView {
        IssuerView {
            ttl_seconds: self.ttl_seconds as int,
            max_grants: self.max_grants as int,
            grants: held_view(self.grants@),
        }
    }
}

/// The Grants that are not over at `now`.
pub open spec fn live_grants(grants: Seq<HeldGrantView>, now: int) -> Seq<HeldGrantView>
    decreases grants.len(),
{
    if grants.len() == 0 {
        Seq::empty()
    } else {
        let init = live_grants(grants.drop_last(), now);
        if now < grants.last().1.expires_at {
            init.push(grants.last())
        } else {
            init
        }
    }
}

/// Whether the token is that of a Grant for the Asset that is not over at `now`.
pub open spec fn opens(
    grants: Seq<HeldGrantView>,
    now: int,
    token: Seq<char>,
    asset_id: Seq<char>,
) -> bool {
    exists|i: int|
        0 <= i < grants.len() && (#[trigger] grants[i]).0 == token && now < grants[i].1.expires_at
            && grants[i].1.grantee.asset_id == asset_id
}

/// Whether the clock gave a time, and the end of a Grant that begins then can be told.
pub open spec fn is_within_reach(issuer: IssuerView, now: Option<i64>) -> bool {
    now is Some && i64::MIN <= now->0 + issuer.ttl_seconds <= i64::MAX
}

/// What issuing a Grant at `now` comes to, where `token` is a fresh token: until when the Grant
/// lives, or why there is none. The clock and the randomness may fail.
pub open spec fn issue_verdict(
    issuer: IssuerView,
    now: Option<i64>,
    token: Option<Seq<char>>,
) -> Result<int, GrantError> {
    if !is_within_reach(issuer, now) {
        Err(GrantError::Unavailable)
    } else if token is None {
        Err(GrantError::Randomness)
    } else if live_grants(issuer.grants, now->0 as int).len() >= issuer.max_grants {
        Err(GrantError::Unavailable)
    } else {
        Ok(now->0 + issuer.ttl_seconds)
    }
}

/// The Grants after issuing one at `now`.
pub open spec fn issued(
    issuer: IssuerView,
    now: int,
    token: Seq<char>,
    grant: GrantView,
) -> IssuerView {
    IssuerView { grants: live_grants(issuer.grants, now).push((token, grant)), ..issuer }
}

impl AssetAccessGrantIssuer {
    /// Creates an issuer that has issued nothing.
    pub fn new(ttl_seconds: i64, max_grants: usize) -> (r: AssetAccessGrantIssuer)
        ensures
            r@ == (IssuerView {
                ttl_seconds: ttl_seconds as int,
                max_grants: max_grants as int,
                grants: Seq::empty(),
            }),
    {
        let grants: Vec<HeldGrant> = Vec::new();
        assert(held_view(grants@) =~= Seq::<HeldGrantView>::empty());
        AssetAccessGrantIssuer { ttl_seconds, max_grants, grants }
    }

    /// Drops the Grants that are over.
    fn drop_expired(&mut self, now: i64)
        ensures
            final(self)@ == (IssuerView {
                grants: live_grants(old(self)@.grants, now as int),
                ..old(self)@
            }),
    {
        let mut held: Vec<HeldGrant> = Vec::new();
        core::mem::swap(&mut held, &mut self.grants);
        let ghost all = held_view(held@);
        let ghost limits = (self.ttl_seconds, self.max_grants);
        assert(all.take(0) =~= Seq::<HeldGrantView>::empty());
        for entry in it: held
            invariant
                it.seq() == held@,
                all == held_view(held@),
                limits == (self.ttl_seconds, self.max_grants),
                held_view(self.grants@) == live_grants(all.take(it.index()), now as int),
        {
            let ghost index = it.index();
            let ghost before = self.grants@;
            assert(all.take(index + 1).drop_last() =~= all.take(index));
            assert(all.take(index + 1).last() == entry@);
            if now < entry.grant.expires_at {
                self.grants.push(entry);
                assert(held_view(self.grants@) =~= held_view(before).push(entry@));
            }
        }
        assert(all.take(all.len() as int) =~= all);
    }

    /// Issues a Grant under a fresh token, and returns the token and until when it lives. The Grants
    /// that are over make room first.
    pub fn issue(&mut self, now: Option<i64>, token: Option<String>, grantee: Grantee) -> (r: Result<
        (String, i64),
        GrantError,
    >)
        ensures
            match r {
                Ok((given, expires_at)) => issue_verdict(old(self)@, now, optional_text(token)) == Ok::<
                    int,
                    GrantError,
                >(expires_at as int) && given@ == token->0@ && final(self)@ == issued(
                    old(self)@,
                    now->0 as int,
                    token->0@,
                    GrantView { grantee: grantee@, expires_at: expires_at as int },
                ),
                Err(error) => issue_verdict(old(self)@, now, optional_text(token)) == Err::<
                    int,
                    GrantError,
                >(error) && final(self)@ == (IssuerView {
                    grants: if is_within_reach(old(self)@, now) && token is Some {
                        live_grants(old(self)@.grants, now->0 as int)
                    } else {
                        old(self)@.grants
                    },
                    ..old(self)@
                }),
            },
    {
        let now: i64 = match now {
            Some(now) => now,
            None => {
                return Err(GrantError::Unavailable);
            },
        };
        let expires_at: i64 = match now.checked_add(self.ttl_seconds) {
            Some(expires_at) => expires_at,
            None => {
                return Err(GrantError::Unavailable);
            },
        };
        let token = match token {
            Some(token) => token,
            None => {
                return Err(GrantError::Randomness);
            },
        };
        self.drop_expired(now);
        if self.grants.len() >= self.max_grants {
            return Err(GrantError::Unavailable);
        }
        let ghost before = self.grants@;
        let held = HeldGrant { token: token.clone(), grant: AssetAccessGrant { grantee, expires_at } };
        self.grants.push(held);
        assert(held_view(self.grants@) =~= held_view(before).push(held@));
        Ok((token, expires_at))
    }

    /// Checks that a token is that of a Grant for the Asset that is not over.
    pub fn validate(&self, now: Option<i64>, token: &str, asset_id: &str) -> (r: Result<
        (),
        GrantError,
    >)
        ensures
            r == if now is Some && opens(self@.grants, now->0 as int, token@, asset_id@) {
                Ok::<(), GrantError>(())
            } else {
                Err(GrantError::Unauthorized)
            },
    {
        let second: i64 = match now {
            Some(second) => second,
            None => {
                return Err(GrantError::Unauthorized);
            },
        };
        let ghost all = self@.grants;
        let mut i: usize = 0;
        while i < self.grants.len()
            invariant
                i <= self.grants@.len(),
                all == held_view(self.grants@),
                now == Some(second),
                forall|k: int|
                    0 <= k < i ==> !((#[trigger] all[k]).0 == token@ && second < all[k].1.expires_at
                        && all[k].1.grantee.asset_id == asset_id@),
            decreases self.grants@.len() - i,
        {
            let held = &self.grants[i];
            assert(all[i as int] == held@);
            if second < held.grant.expires_at && same_text(held.token.as_str(), token) && same_text(
                held.grant.grantee.asset_id.as_str(),
                asset_id,
            ) {
                assert(opens(self@.grants, second as int, token@, asset_id@));
                return Ok(());
            }
            i = i + 1;
        }
        Err(GrantError::Unauthorized)
    }
}

/// The registry is bounded: where a Grant was issued, no more Grants live than the issuer was made
/// for, and all of them are live.
pub proof fn law_live_grants_are_bounded(
    issuer: IssuerView,
    now: i64,
    token: Seq<char>,
    grant: GrantView,
)
    requires
        issue_verdict(issuer, Some(now), Some(token)) == Ok::<int, GrantError>(grant.expires_at),
        issuer.ttl_seconds > 0,
    ensures
        issued(issuer, now as int, token, grant).grants.len() <= issuer.max_grants,
        forall|i: int|
            0 <= i < issued(issuer, now as int, token, grant).grants.len() ==> now < (
            #[trigger] issued(issuer, now as int, token, grant).grants[i]).1.expires_at,
{
    lemma_live_grants(issuer.grants, now as int);
}

/// A Grant opens the Asset that it was issued for from then on until it is over, and never
/// afterwards; a fresh token opens no other Asset.
pub proof fn law_grant_opens_its_asset_until_it_is_over(
    issuer: IssuerView,
    now: i64,
    token: Seq<char>,
    grant: GrantView,
    later: int,
    asset_id: Seq<char>,
)
    requires
        issue_verdict(issuer, Some(now), Some(token)) == Ok::<int, GrantError>(grant.expires_at),
        forall|i: int| 0 <= i < issuer.grants.len() ==> (#[trigger] issuer.grants[i]).0 != token,
    ensures
        opens(issued(issuer, now as int, token, grant).grants, later, token, asset_id) <==> later
            < now + issuer.ttl_seconds && asset_id == grant.grantee.asset_id,
{
    let live = live_grants(issuer.grants, now as int);
    let after = issued(issuer, now as int, token, grant).grants;
    lemma_live_grants(issuer.grants, now as int);
    assert(after[live.len() as int] == (token, grant));
    assert forall|i: int| 0 <= i < live.len() implies (#[trigger] after[i]).0 != token by {
        assert(after[i] == live[i]);
    }
}

/// A Grant that is not over is not disturbed when another one is issued, and no other token comes
/// to open anything.
pub proof fn law_issuing_disturbs_no_other_grant(
    issuer: IssuerView,
    now: i64,
    token: Seq<char>,
    grant: GrantView,
    later: int,
    other: Seq<char>,
    asset_id: Seq<char>,
)
    requires
        now <= later,
        other != token,
    ensures
        opens(issued(issuer, now as int, token, grant).grants, later, other, asset_id) <==> opens(
            issuer.grants,
            later,
            other,
            asset_id,
        ),
{
    let live = live_grants(issuer.grants, now as int);
    let after = issued(issuer, now as int, token, grant).grants;
    lemma_live_grants(issuer.grants, now as int);
    if opens(issuer.grants, later, other, asset_id) {
        let i = choose|i: int|
            0 <= i < issuer.grants.len() && (#[trigger] issuer.grants[i]).0 == other && later
                < issuer.grants[i].1.expires_at && issuer.grants[i].1.grantee.asset_id == asset_id;
        let k = choose|k: int| 0 <= k < live.len() && live[k] == issuer.grants[i];
        assert(after[k] == live[k]);
    }
    if opens(after, later, other, asset_id) {
        let i = choose|i: int|
            0 <= i < after.len() && (#[trigger] after[i]).0 == other && later
                < after[i].1.expires_at && after[i].1.grantee.asset_id == asset_id;
        assert(after[i] == live[i]);
    }
}

/// The live Grants are those Grants that are not over.
proof fn lemma_live_grants(grants: Seq<HeldGrantView>, now: int)
    ensures
        forall|i: int|
            0 <= i < live_grants(grants, now).len() ==> now < (#[trigger] live_grants(
                grants,
                now,
            )[i]).1.expires_at && grants.contains(live_grants(grants, now)[i]),
        forall|i: int|
            0 <= i < grants.len() && now < (#[trigger] grants[i]).1.expires_at ==> live_grants(
                grants,
                now,
            ).contains(grants[i]),
    decreases grants.len(),
{
    if grants.len() > 0 {
        let init = grants.drop_last();
        let live = live_grants(grants, now);
        let before = live_grants(init, now);
        lemma_live_grants(init, now);
        assert forall|i: int| 0 <= i < live.len() implies now < (#[trigger] live[i]).1.expires_at
            && grants.contains(live[i]) by {
            if i < before.len() {
                assert(live[i] == before[i]);
                let k = choose|k: int| 0 <= k < init.len() && init[k] == before[i];
                assert(grants[k] == live[i]);
            } else {
                assert(grants[grants.len() - 1] == live[i]);
            }
        }
        assert forall|i: int|
            0 <= i < grants.len() && now < (#[trigger] grants[i]).1.expires_at implies live.contains(
            grants[i]) by {
            if i < init.len() {
                assert(init[i] == grants[i]);
                let k = choose|k: int| 0 <= k < before.len() && before[k] == init[i];
                assert(live[k] == grants[i]);
            } else {
                assert(live[live.len() - 1] == grants[i]);
            }
        }
    }
}

/// A Grant is issued exactly where the clock and the randomness gave something, its end can be
/// told, and fewer Grants live than the issuer was made for; it lives for the configured time. A
/// full registry or a clock that fails is unavailable, and a missing token is a failure of the
/// randomness.
pub proof fn law_grants_are_issued_where_there_is_room(
    issuer: IssuerView,
    now: Option<i64>,
    token: Option<Seq<char>>,
)
    requires
        0 < issuer.ttl_seconds <= i64::MAX,
    ensures
        ({
            let outcome = issue_verdict(issuer, now, token);
            let told = now is Some && now->0 + issuer.ttl_seconds <= i64::MAX;
            &&& outcome is Ok <==> told && token is Some && live_grants(
                issuer.grants,
                now->0 as int,
            ).len() < issuer.max_grants
            &&& outcome matches Ok(end) ==> end == now->0 + issuer.ttl_seconds
            &&& !told ==> outcome == Err::<int, GrantError>(GrantError::Unavailable)
            &&& told && token is None ==> outcome == Err::<int, GrantError>(GrantError::Randomness)
            &&& told && token is Some && live_grants(issuer.grants, now->0 as int).len()
                >= issuer.max_grants ==> outcome == Err::<int, GrantError>(GrantError::Unavailable)
        }),
{
}

/// A Grant counts as live as long as its end has not come, and those that live keep their order.
pub proof fn law_grants_live_until_their_end(
    grants: Seq<HeldGrantView>,
    held: HeldGrantView,
    now: int,
)
    ensures
        live_grants(Seq::empty(), now) == Seq::<HeldGrantView>::empty(),
        now < held.1.expires_at ==> live_grants(grants.push(held), now) == live_grants(
            grants,
            now,
        ).push(held),
        now >= held.1.expires_at ==> live_grants(grants.push(held), now)
            == live_grants(grants, now),
{
    assert(grants.push(held).drop_last() =~= grants);
}

} // verus!
