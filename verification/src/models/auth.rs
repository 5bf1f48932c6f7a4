use vstd::prelude::*;

verus! {

/// Body of a token request.
#[derive(Debug)]
pub struct AuthRequest {
    pub uid: u32,
    pub access_key: String,
}

/// The data part of a token response.
#[derive(Debug)]
pub struct TokenData {
    pub token: String,
}

/// A token response: the API's status code and the token data.
#[derive(Debug)]
pub struct TokenResponse {
    pub status_code: i32,
    pub data: TokenData,
}

} // verus!
