//! Decisions around the HTTP API: endpoints, status codes and responses.

use vstd::prelude::*;
use vstd::string::*;

use crate::config::{spec_mode_query, Config};
use crate::error::PaintboardError;
use crate::models::auth::TokenResponse;
use crate::models::board::{Board, BOARD_BYTES};
use crate::pool::{append_decimal_u64, spec_decimal};

verus! {

/// The endpoint that serves the board.
pub fn board_url(api_base_url: &str) -> (u: String)
    ensures
        u@ == api_base_url@ + "/api/paintboard/getboard"@,
{
    let mut u = String::from_str(api_base_url);
    u.append("/api/paintboard/getboard");
    u
}

/// The endpoint that hands out tokens.
pub fn token_url(api_base_url: &str) -> (u: String)
    ensures
        u@ == api_base_url@ + "/api/auth/gettoken"@,
{
    let mut u = String::from_str(api_base_url);
    u.append("/api/auth/gettoken");
    u
}

/// A response status other than 2xx is an `Http` error carrying the status.
pub fn check_http_status(status: u16) -> (r: Result<(), PaintboardError>)
    ensures
        200 <= status < 300 ==> r is Ok,
        !(200 <= status < 300) ==> r == Err::<(), PaintboardError>(PaintboardError::Http(status)),
{
    if status >= 200 && status < 300 {
        Ok(())
    } else {
        Err(PaintboardError::Http(status))
    }
}

/// The board from the body of a board response, which must be exactly
/// 1,800,000 bytes.
pub fn board_from_response(bytes: Vec<u8>) -> (r: Result<Board, PaintboardError>)
    ensures
        bytes@.len() == BOARD_BYTES ==> (r matches Ok(b) && b.width == 1000 && b.height == 600 && b.data@ == bytes@),
        bytes@.len() != BOARD_BYTES ==> r matches Err(PaintboardError::InvalidData),
{
    if bytes.len() != BOARD_BYTES {
        return Err(PaintboardError::InvalidData);
    }
    Ok(Board::from_bytes(bytes))
}

/// The decimal text of a signed number.
pub open spec fn spec_signed_decimal(n: i32) -> Seq<char> {
    if n < 0 {
        "-"@ + spec_decimal((-n) as nat)
    } else {
        spec_decimal(n as nat)
    }
}

/// The message of the error for a token response whose code is not 200.
pub open spec fn spec_token_error_message(code: i32) -> Seq<char> {
    "API returned error status "@ + spec_signed_decimal(code) + ": token data"@
}

/// The token of a token response, or an `Auth` error when its code is not 200.
pub fn token_from_response(resp: TokenResponse) -> (r: Result<String, PaintboardError>)
    ensures
        resp.status_code == 200 ==> (r matches Ok(t) && t@ == resp.data.token@),
        resp.status_code != 200 ==> (r matches Err(PaintboardError::Auth(m)) && m@ == spec_token_error_message(resp.status_code)),
{
    if resp.status_code != 200 {
        let mut m = String::from_str("API returned error status ");
        if resp.status_code < 0 {
            m.append("-");
            let v: i64 = -(resp.status_code as i64);
            append_decimal_u64(&mut m, v as u64);
        } else {
            append_decimal_u64(&mut m, resp.status_code as u64);
        }
        m.append(": token data");
        return Err(PaintboardError::Auth(m));
    }
    Ok(resp.data.token)
}

/// Declares `url::Url` to Verus (opaque).
#[verifier::external_type_specification]
#[verifier::external_body]
pub struct ExUrl(url::Url);

/// Name for what `url::Url::parse` makes of a string: the URL, or the
/// display text of its error.
pub uninterp spec fn url_parse(s: Seq<char>) -> Result<url::Url, Seq<char>>;

/// Name for the URL `url::Url::set_query` leaves when given `Some(query)`.
pub uninterp spec fn url_with_query(u: url::Url, query: Seq<char>) -> url::Url;

/// Calls `url::Url::parse`; the result is the one named for the string, an
/// error coming back as its display text.
#[verifier::external_body]
fn parse_url(s: &str) -> (r: Result<url::Url, String>)
    ensures
        match r {
            Ok(u) => url_parse(s@) == Ok::<url::Url, Seq<char>>(u),
            Err(m) => url_parse(s@) == Err::<url::Url, Seq<char>>(m@),
        },
{
    url::Url::parse(s).map_err(|e| e.to_string())
}

/// Calls `url::Url::set_query` with `Some(query)`; the URL becomes the one
/// named for the old URL and the query.
#[verifier::external_body]
fn set_url_query(u: &mut url::Url, query: &str)
    ensures
        *final(u) == url_with_query(*old(u), query@),
{
    u.set_query(Some(query));
}

/// The URL of the WebSocket for a configuration: the parsed URL with the
/// query of the connection mode (none for read-write).
pub open spec fn spec_ws_url(u: url::Url, mode: crate::config::ConnectionMode) -> url::Url {
    match spec_mode_query(mode) {
        Some(q) => url_with_query(u, q),
        None => u,
    }
}

/// The URL to open the WebSocket with: the configured URL with the query of
/// the connection mode; an `InvalidUrl` error with the parser's message when
/// the configured URL does not parse.
pub fn ws_connect_url(config: &Config) -> (r: Result<url::Url, PaintboardError>)
    ensures
        match url_parse(config.ws_url@) {
            Ok(u) => r == Ok::<url::Url, PaintboardError>(spec_ws_url(u, config.connection_mode)),
            Err(m) => r matches Err(PaintboardError::InvalidUrl(e)) && e@ == m,
        },
{
    match parse_url(config.ws_url.as_str()) {
        Ok(mut u) => {
            match config.connection_mode.query() {
                Some(q) => set_url_query(&mut u, q),
                None => {},
            }
            Ok(u)
        },
        Err(m) => Err(PaintboardError::InvalidUrl(m)),
    }
}

} // verus!
