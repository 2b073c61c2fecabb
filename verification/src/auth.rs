//! Who may use the server: a caller shows a bearer token that one of
//! the authorized keys has signed and that claims the right to slice.
use crate::config::Config;
use crate::error::{unauthorized_error, Error};
use crate::text::{chars_of, is_prefix, skip, starts_with, string_of};
use vstd::prelude::*;
use vstd::string::StringExecFns;

verus! {

/// What the header of `token` says of the key that signed it, as
/// `Token::decode_metadata` reads it: `None` where the header cannot be
/// read, `Some(None)` where it names no key, else the id of the key.
pub uninterp spec fn key_id_of(token: Seq<char>) -> Option<Option<Seq<char>>>;

/// Calls `Token::decode_metadata`, which reads the header of a token
/// without verifying it, and takes the key id out of what it returns.
/// The result is a function of the token alone; the contract names it
/// `key_id_of` and claims nothing more.
#[verifier::external_body]
fn decode_key_id(token: &str) -> (r: Option<Option<String>>)
    ensures
        match r {
            Some(Some(id)) => key_id_of(token@) == Some(Some(id@)),
            Some(None) => key_id_of(token@) == Some(None::<Seq<char>>),
            None => key_id_of(token@) is None,
        },
{
    match jwt_simple::token::Token::decode_metadata(token) {
        Ok(metadata) => match metadata.key_id() {
            Some(id) => Some(Some(id.to_owned())),
            None => Some(None),
        },
        Err(_) => None,
    }
}

/// The status code that turns a caller away.
pub const UNAUTHORIZED: u16 = 401;

/// What a bearer token is announced with.
pub const BEARER: &'static str = "Bearer ";

/// The token that an authorization header carries: what follows
/// `Bearer `, where the header begins with it.
pub open spec fn bearer_token_of(auth_header: Seq<char>) -> Option<Seq<char>> {
    if is_prefix(BEARER@, auth_header) {
        Some(auth_header.skip(BEARER@.len() as int))
    } else {
        None
    }
}

/// The token that an authorization header carries.
pub fn bearer_token(auth_header: &str) -> (r: Result<String, Error>)
    ensures
        match bearer_token_of(auth_header@) {
            Some(token) => r matches Ok(found) && found@ == token,
            None => r matches Err(e) && e@ == unauthorized_error("Invalid bearer auth"@),
        },
{
    let header = chars_of(auth_header);
    let bearer = chars_of(BEARER);
    if !starts_with(&header, &bearer) {
        return Err(Error::unauthorized("Invalid bearer auth"));
    }
    Ok(string_of(&skip(&header, bearer.len())))
}

/// What the header of a token says of the key that signed it.
#[derive(Debug)]
pub enum KeyId {
    /// The header cannot be read.
    Unreadable,
    /// The header names no key.
    Missing,
    /// The header names this key.
    Named(String),
}

/// The public key, in PEM, against which a token is to be verified
/// whose header says `key_id`: that of the authorized key of that id.
pub fn verification_key(config: &Config, key_id: KeyId) -> (r: Result<String, Error>)
    ensures
        match key_id {
            KeyId::Unreadable => r matches Err(e) && e@ == unauthorized_error(
                "Invalid JWT metadata"@,
            ),
            KeyId::Missing => r matches Err(e) && e@ == unauthorized_error(
                "Missing JWT key id (kid)"@,
            ),
            KeyId::Named(id) => match r {
                Ok(pem) => exists|i: int|
                    0 <= i < config@.len() && (#[trigger] config@[i]).id == id@ && config@[i].public_key_pem
                        == pem@,
                Err(e) => e@ == unauthorized_error("Unauthorized JWT key id"@) && forall|i: int|
                    0 <= i < config@.len() ==> (#[trigger] config@[i]).id != id@,
            },
        },
{
    match key_id {
        KeyId::Unreadable => Err(Error::unauthorized("Invalid JWT metadata")),
        KeyId::Missing => Err(Error::unauthorized("Missing JWT key id (kid)")),
        KeyId::Named(id) => match config.get(id.as_str()) {
            Some(key) => Ok(key.public_key_pem.clone()),
            None => Err(Error::unauthorized("Unauthorized JWT key id")),
        },
    }
}

/// What the header of `token` says of the key that signed it.
fn key_id(token: &str) -> (r: KeyId)
    ensures
        match key_id_of(token@) {
            None => r is Unreadable,
            Some(None) => r is Missing,
            Some(Some(id)) => r matches KeyId::Named(found) && found@ == id,
        },
{
    match decode_key_id(token) {
        None => KeyId::Unreadable,
        Some(None) => KeyId::Missing,
        Some(Some(id)) => KeyId::Named(id),
    }
}

/// A token and the public key, in PEM, that must have signed it.
#[derive(Debug)]
pub struct Verification {
    pub bearer_token: String,
    pub public_key_pem: String,
}

/// What came of verifying a token against a public key.
#[derive(Clone, Copy, Debug, PartialEq, Eq, Structural)]
pub enum Verified {
    /// The configured key is no public key.
    InvalidKey,
    /// The token is not a valid token of that key.
    InvalidToken,
    /// The token is valid; `slicing` is what it claims under that name.
    Claims { slicing: bool },
}

/// Finds the token in `auth_header` and the authorized key that its
/// header names. Fails where the header carries no bearer token, where
/// the header of the token cannot be read or names no key, and where
/// the key that it names is not authorized.
pub fn token_is_valid(config: &Config, auth_header: &str) -> (r: Result<Verification, Error>)
    ensures
        match bearer_token_of(auth_header@) {
            None => r matches Err(e) && e@ == unauthorized_error("Invalid bearer auth"@),
            Some(token) => match key_id_of(token) {
                None => r matches Err(e) && e@ == unauthorized_error("Invalid JWT metadata"@),
                Some(None) => r matches Err(e) && e@ == unauthorized_error(
                    "Missing JWT key id (kid)"@,
                ),
                Some(Some(id)) => match r {
                    Ok(verification) => verification.bearer_token@ == token && exists|i: int|
                        0 <= i < config@.len() && (#[trigger] config@[i]).id == id
                            && config@[i].public_key_pem == verification.public_key_pem@,
                    Err(e) => e@ == unauthorized_error("Unauthorized JWT key id"@) && forall|
                        i: int,
                    |
                        0 <= i < config@.len() ==> (#[trigger] config@[i]).id != id,
                },
            },
        },
{
    let bearer_token = match bearer_token(auth_header) {
        Ok(token) => token,
        Err(e) => {
            return Err(e);
        },
    };
    match verification_key(config, key_id(bearer_token.as_str())) {
        Ok(public_key_pem) => Ok(Verification { bearer_token, public_key_pem }),
        Err(e) => Err(e),
    }
}

/// Whether a verified token lets its bearer in: it does where it is
/// valid and claims `slicing`.
pub fn claims_are_valid(verified: Verified) -> (r: Result<(), Error>)
    ensures
        match verified {
            Verified::InvalidKey => r matches Err(e) && e@ == unauthorized_error(
                "Invalid public key configured"@,
            ),
            Verified::InvalidToken => r matches Err(e) && e@ == unauthorized_error("Invalid JWT"@),
            Verified::Claims { slicing } => if slicing {
                r is Ok
            } else {
                r matches Err(e) && e@ == unauthorized_error(
                    "slicing must be set to true in the JWT to authorize slicing server access"@,
                )
            },
        },
{
    match verified {
        Verified::InvalidKey => Err(Error::unauthorized("Invalid public key configured")),
        Verified::InvalidToken => Err(Error::unauthorized("Invalid JWT")),
        Verified::Claims { slicing } => if slicing {
            Ok(())
        } else {
            Err(
                Error::unauthorized(
                    "slicing must be set to true in the JWT to authorize slicing server access",
                ),
            )
        },
    }
}

/// Whether a request goes on to its handler: it does where it carried
/// an authorization header and the token in it was found valid. All
/// others are turned away as unauthorized.
pub fn auth(validity: Option<Result<(), Error>>) -> (r: Result<(), u16>)
    ensures
        r is Ok <==> (validity matches Some(found) && found is Ok),
        r matches Err(status) ==> status == UNAUTHORIZED,
{
    match validity {
        Some(Ok(_)) => Ok(()),
        _ => Err(UNAUTHORIZED),
    }
}

} // verus!
