use crate::domain::data_store::BannedTokenStore;
use crate::domain::error::{AuthAPIError, AuthAPIErrorView};
use crate::routes::login::STATUS_OK;
use crate::routes::verify_token::{verify_token_model, TokenVerdictView};
use crate::utils::auth::{unix_now, validate_model, validate_token_at};
use vstd::prelude::*;

verus! {

/// An answer to a logout, as plain values.
pub open spec fn logout_answer_view(answer: Result<u16, AuthAPIError>) -> Result<
    u16,
    AuthAPIErrorView,
> {
    match answer {
        Ok(status) => Ok(status),
        Err(refusal) => Err(refusal@),
    }
}

/// What a logout does at the second `now` when nothing is in its way.
///
/// Without a token nothing happens. A token that is presented is revoked
/// before it is looked at, so that it is revoked whatever it turns out to
/// be; the answer then tells whether it was good.
pub open spec fn logout_model(
    banned: Set<Seq<char>>,
    secret: Seq<char>,
    token: Option<Seq<char>>,
    now: i64,
) -> (Set<Seq<char>>, Result<u16, AuthAPIErrorView>) {
    match token {
        None => (banned, Err(AuthAPIErrorView::MissingToken)),
        Some(token) => (
            banned.insert(token),
            match validate_model(secret, token, now) {
                Ok(_) => Ok(STATUS_OK),
                Err(_) => Err(AuthAPIErrorView::InvalidToken),
            },
        ),
    }
}

/// A token that went through a logout is turned away ever after, though
/// it has not run out: at any later check against the same ledger, with
/// whatever else was revoked in between.
pub proof fn lemma_logged_out_token_is_turned_away(
    banned: Set<Seq<char>>,
    secret: Seq<char>,
    token: Seq<char>,
    now: i64,
    later_banned: Set<Seq<char>>,
    later: i64,
)
    requires
        logout_model(banned, secret, Some(token), now).0.subset_of(later_banned),
    ensures
        verify_token_model(later_banned, secret, token, later) == TokenVerdictView::Revoked,
{
    assert(logout_model(banned, secret, Some(token), now).0.contains(token));
}

/// The text of a token that was presented, if one was.
pub open spec fn token_text(token: Option<&str>) -> Option<Seq<char>> {
    match token {
        Some(token) => Some(token@),
        None => None,
    }
}

/// A logout at the second `now`. The ledger is asked to revoke the token;
/// should it fail, the logout goes on all the same.
pub fn logout_at<B: BannedTokenStore + ?Sized>(
    ledger: &mut B,
    secret: &str,
    token: Option<&str>,
    now: i64,
) -> (answer: Result<u16, AuthAPIError>)
    ensures
        final(ledger).dependable() == old(ledger).dependable(),
        token is None ==> answer is Err && answer->Err_0 is MissingToken,
        token is None ==> final(ledger)@ == old(ledger)@,
        token matches Some(text) ==> logout_answer_view(answer) == logout_model(
            old(ledger)@,
            secret@,
            Some(text@),
            now,
        ).1,
        old(ledger).dependable() ==> (final(ledger)@, logout_answer_view(answer)) == logout_model(
            old(ledger)@,
            secret@,
            token_text(token),
            now,
        ),
{
    let cookie = match token {
        Some(cookie) => cookie,
        None => {
            return Err(AuthAPIError::MissingToken);
        },
    };
    let _ = ledger.add_token(cookie);
    proof {
        if old(ledger).dependable() {
            assert(final(ledger)@ =~= old(ledger)@.insert(cookie@));
        }
    }
    match validate_token_at(cookie, secret, now) {
        Ok(_) => Ok(STATUS_OK),
        Err(_) => Err(AuthAPIError::InvalidToken),
    }
}

/// A logout, now.
pub fn logout<B: BannedTokenStore + ?Sized>(
    ledger: &mut B,
    secret: &str,
    token: Option<&str>,
) -> (answer: Result<u16, AuthAPIError>)
    ensures
        final(ledger).dependable() == old(ledger).dependable(),
        token is None ==> answer is Err && answer->Err_0 is MissingToken,
        token is None ==> final(ledger)@ == old(ledger)@,
        answer matches Err(refusal) ==> refusal is MissingToken || refusal is InvalidToken,
        token matches Some(text) ==> exists|now: i64|
            0 <= now && logout_answer_view(answer) == (#[trigger] logout_model(
                old(ledger)@,
                secret@,
                Some(text@),
                now,
            )).1,
        old(ledger).dependable() ==> (token matches Some(text) ==> final(ledger)@.contains(text@)),
        old(ledger).dependable() ==> exists|now: i64|
            0 <= now && (final(ledger)@, logout_answer_view(answer)) == #[trigger] logout_model(
                old(ledger)@,
                secret@,
                token_text(token),
                now,
            ),
{
    let now: i64 = unix_now();
    let answer = logout_at(ledger, secret, token, now);
    proof {
        if let Some(text) = token {
            assert(logout_answer_view(answer) == logout_model(
                old(ledger)@,
                secret@,
                Some(text@),
                now,
            ).1);
        }
        if old(ledger).dependable() {
            assert((final(ledger)@, logout_answer_view(answer)) == logout_model(
                old(ledger)@,
                secret@,
                token_text(token),
                now,
            ));
        }
    }
    answer
}

} // verus!
