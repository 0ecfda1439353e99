//! The authentication flows: registration hashes the password and persists
//! the row; login verifies the password and issues an access and a refresh
//! token; refresh trades a valid refresh token for a fresh access token.

use vstd::prelude::*;

use crate::credentials::{credentials_match, generated_credentials, SaltedHash};
use crate::models::NewUser;
use crate::store::{lemma_unique_username, UserStore};
use crate::token::{
    decode_jwt_at, decode_outcome, encode_jwt_at, jwt_of, sat_add64, SECONDS_IN_1_WEEK,
    SECONDS_IN_20_MINUTES,
};

verus! {

/// The pair of tokens a successful login or refresh hands back.
#[derive(Debug)]
pub struct JWTResponse {
    pub access_token: String,
    pub refresh_token: String,
}

/// Why registration failed.
#[derive(Clone, Copy, PartialEq, Eq, Structural, Debug)]
pub enum RegisterError {
    /// The secure random source refused to produce a salt.
    CredentialGeneration,
    /// The user store refused the row.
    Storage,
}

/// Login failure: one uniform case for unknown user and wrong password, so
/// the login endpoint cannot be used to enumerate usernames.
#[derive(Clone, Copy, PartialEq, Eq, Structural, Debug)]
pub enum LoginError {
    WrongCredentials,
}

/// Why refresh failed.
#[derive(Clone, Copy, PartialEq, Eq, Structural, Debug)]
pub enum RefreshError {
    /// The presented token decoded, but is an access-class token.
    NotRefreshToken,
    /// The presented token cannot be decoded, or has expired.
    InvalidToken,
}

/// Hashes the password and persists a new user row with no permissions. The
/// salt and hash are produced together by one hashing invocation and never
/// set individually.
pub fn register(
    store: &mut UserStore,
    username: &str,
    display_name: &str,
    password: &str,
) -> (r: Result<(), RegisterError>)
    requires
        old(store).wf(),
    ensures
        final(store).wf(),
        r matches Ok(()) ==> {
            &&& final(store)@.len() == old(store)@.len() + 1
            &&& final(store)@ == old(store)@.push(final(store)@.last())
            &&& final(store)@.last().username == username@
            &&& final(store)@.last().display_name == display_name@
            &&& final(store)@.last().permissions =~= Seq::<Seq<char>>::empty()
            &&& generated_credentials(
                final(store)@.last().password_salt,
                final(store)@.last().password_hash,
                password@,
            )
            &&& credentials_match(
                final(store)@.last().password_salt,
                final(store)@.last().password_hash,
                password@,
            )
        },
        r is Err ==> final(store)@ == old(store)@,
        old(store).contains_username(username@) ==> r is Err,
        r == Err::<(), RegisterError>(RegisterError::Storage) ==> (old(store).contains_username(
            username@,
        ) || old(store)@.len() >= i32::MAX),
        !old(store).contains_username(username@) && old(store)@.len() < i32::MAX ==> (r matches Ok(
            (),
        ) || r == Err::<(), RegisterError>(RegisterError::CredentialGeneration)),
{
    let salted_hash = match SaltedHash::generate(password) {
        Ok(sh) => sh,
        Err(_) => {
            return Err(RegisterError::CredentialGeneration);
        },
    };
    let new_user = NewUser {
        username: username.to_owned(),
        display_name: display_name.to_owned(),
        password_salt: salted_hash.salt,
        password_hash: salted_hash.hash,
        permissions: Vec::new(),
    };
    match store.insert(new_user) {
        Ok(()) => Ok(()),
        Err(_) => Err(RegisterError::Storage),
    }
}

/// Whether the store holds a user with this username whose stored salt and
/// hash verify against this password: exactly the logins that succeed.
pub open spec fn login_accepted(store: &UserStore, username: Seq<char>, password: Seq<char>) -> bool {
    exists|i: int|
        0 <= i < store@.len() && (#[trigger] store@[i]).username == username && credentials_match(
            store@[i].password_salt,
            store@[i].password_hash,
            password,
        )
}

/// Loads the user by name, verifies the password against the stored pair,
/// and on success issues an access and a refresh token for the username,
/// both from the instant `now`. Unknown user and wrong password fail alike.
pub fn login(
    store: &UserStore,
    key: &str,
    username: &str,
    password: &str,
    now: u64,
) -> (r: Result<JWTResponse, LoginError>)
    requires
        store.wf(),
    ensures
        r matches Ok(t) ==> {
            &&& t.access_token@ == jwt_of(
                key@,
                sat_add64(now, SECONDS_IN_20_MINUTES),
                username@,
                false,
            )
            &&& t.refresh_token@ == jwt_of(key@, sat_add64(now, SECONDS_IN_1_WEEK), username@, true)
            &&& t.access_token@.len() > 0
            &&& t.refresh_token@.len() > 0
        },
        r is Ok <==> login_accepted(store, username@, password@),
{
    let user = match store.find_by_username(username) {
        Some(u) => u,
        None => {
            return Err(LoginError::WrongCredentials);
        },
    };
    let salted_hash = SaltedHash {
        salt: user.password_salt.clone(),
        hash: user.password_hash.clone(),
    };
    let verified = salted_hash.verify(password);
    proof {
        assert forall|i: int|
            0 <= i < store@.len() && (#[trigger] store@[i]).username == username@ implies store@[i]
            == user@ by {
            lemma_unique_username(store, user@, i);
        }
    }
    if !verified {
        Err(LoginError::WrongCredentials)
    } else {
        Ok(
            JWTResponse {
                access_token: encode_jwt_at(key, username, SECONDS_IN_20_MINUTES, false, now),
                refresh_token: encode_jwt_at(key, username, SECONDS_IN_1_WEEK, true, now),
            },
        )
    }
}

/// Decodes the presented token, confirms it is refresh-class, and issues a
/// fresh access token for the same subject from the instant `now`; the
/// refresh token itself is handed back unchanged.
pub fn refresh(key: &str, refresh_token: &str, now: u64) -> (r: Result<JWTResponse, RefreshError>)
    ensures
        r matches Ok(t) ==> t.refresh_token@ == refresh_token@ && t.access_token@.len() > 0,
        forall|exp: u64, sub: Seq<char>|
            refresh_token@ == #[trigger] jwt_of(key@, exp, sub, true) && exp > now ==> (r matches
                Ok(t) && t.access_token@ == jwt_of(
                key@,
                sat_add64(now, SECONDS_IN_20_MINUTES),
                sub,
                false,
            ) && t.refresh_token@ == refresh_token@),
        forall|exp: u64, sub: Seq<char>|
            refresh_token@ == #[trigger] jwt_of(key@, exp, sub, false) && exp > now ==> r == Err::<
                JWTResponse,
                RefreshError,
            >(RefreshError::NotRefreshToken),
        forall|exp: u64, sub: Seq<char>, refresh_class: bool|
            refresh_token@ == #[trigger] jwt_of(key@, exp, sub, refresh_class) && exp <= now ==> r
                == Err::<JWTResponse, RefreshError>(RefreshError::InvalidToken),
        decode_outcome(key@, refresh_token@, now) is Err ==> r == Err::<JWTResponse, RefreshError>(
            RefreshError::InvalidToken,
        ),
        decode_outcome(key@, refresh_token@, now) matches Ok(claims) ==> (if claims.2 {
            r matches Ok(t) && t.access_token@ == jwt_of(
                key@,
                sat_add64(now, SECONDS_IN_20_MINUTES),
                claims.1,
                false,
            ) && t.refresh_token@ == refresh_token@
        } else {
            r == Err::<JWTResponse, RefreshError>(RefreshError::NotRefreshToken)
        }),
{
    match decode_jwt_at(key, refresh_token, now) {
        Ok(token) => {
            if token.refresh {
                Ok(
                    JWTResponse {
                        refresh_token: refresh_token.to_owned(),
                        access_token: encode_jwt_at(
                            key,
                            token.sub.as_str(),
                            SECONDS_IN_20_MINUTES,
                            false,
                            now,
                        ),
                    },
                )
            } else {
                Err(RefreshError::NotRefreshToken)
            }
        },
        Err(_) => Err(RefreshError::InvalidToken),
    }
}

} // verus!
