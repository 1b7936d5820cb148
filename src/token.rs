//! Token endpoint requests and responses: the form bodies and client
//! authentication of the two exchanges, and how a reply becomes a token pair.
use vstd::prelude::*;
use base64::Engine;

verus! {

/// The provider's token endpoint.
pub const TOKEN_ENDPOINT: &'static str = "https://accounts.spotify.com/api/token";

/// An access token with the refresh token that renews it and its lifetime in
/// seconds, as reported when it was issued.
#[derive(Debug, Clone)]
pub struct TokenPair {
    pub access_token: String,
    pub refresh_token: String,
    pub expires_in_seconds: i32,
}

/// The fields of a token endpoint reply that the exchange reads, each absent
/// where the reply does not carry it.
#[derive(Debug, Clone)]
pub struct TokenResponse {
    pub access_token: Option<String>,
    pub refresh_token: Option<String>,
    pub expires_in: Option<i32>,
}

/// Why an exchange with the token endpoint gave no token pair.
#[derive(Debug, Clone)]
pub enum ExchangeError {
    /// The request did not complete (connection, timeout).
    Network(String),
    /// The endpoint answered with a status outside 200..=299.
    Rejected { status: u16, body: String },
    /// The reply is not a token response.
    Undecodable { body: String },
    /// The reply gives no lifetime, so the pair cannot be renewed in time.
    MissingExpiry,
    /// The reply gives no refresh token and there is none to keep.
    MissingRefreshToken,
}

/// How the client proves its identity to the token endpoint.
#[derive(Debug, Clone, Copy, PartialEq, Eq, Structural)]
pub enum ClientAuth {
    /// `Authorization: Basic base64(client_id:client_secret)`.
    BasicHeader,
    /// `client_id` and `client_secret` as form fields.
    FormFields,
}

/// A request to the token endpoint: the `Authorization` header, if any, and
/// the form fields of its body, in order.
#[derive(Debug)]
pub struct TokenRequest {
    pub authorization: Option<String>,
    pub form: Vec<(String, String)>,
}

/// The standard Base64 encoding (RFC 4648 alphabet, `=` padding) of the UTF-8
/// bytes of `text`.
pub uninterp spec fn base64_standard(text: Seq<char>) -> Seq<char>;

/// Relies on base64's `BASE64_STANDARD.encode`: the padded standard-alphabet
/// encoding of the text's bytes, which depends on them alone; no bytes give
/// an empty text.
#[verifier::external_body]
fn encode_base64(text: &str) -> (r: String)
    ensures
        r@ == base64_standard(text@),
        text@.len() == 0 ==> r@.len() == 0,
{
    base64::prelude::BASE64_STANDARD.encode(text)
}

/// The value of the `Authorization` header for HTTP Basic client credentials.
pub open spec fn basic_credentials(client_id: Seq<char>, client_secret: Seq<char>) -> Seq<char> {
    "Basic "@ + base64_standard(client_id + ":"@ + client_secret)
}

/// `Basic ` followed by the Base64 of `client_id:client_secret`.
pub fn basic_authorization(client_id: &str, client_secret: &str) -> (r: String)
    ensures
        r@ == basic_credentials(client_id@, client_secret@),
{
    let mut joined = String::from_str(client_id);
    joined.append(":");
    joined.append(client_secret);
    let encoded = encode_base64(joined.as_str());
    let mut r = String::from_str("Basic ");
    r.append(encoded.as_str());
    r
}

/// The client's credentials as form fields, where they travel in the body.
pub open spec fn client_fields(auth: ClientAuth, client_id: Seq<char>, client_secret: Seq<char>) -> Seq<
    (Seq<char>, Seq<char>),
> {
    match auth {
        ClientAuth::BasicHeader => Seq::empty(),
        ClientAuth::FormFields => seq![("client_id"@, client_id), ("client_secret"@, client_secret)],
    }
}

/// The `Authorization` header, where the credentials travel in it.
pub open spec fn client_header(auth: ClientAuth, client_id: Seq<char>, client_secret: Seq<char>) -> Option<
    Seq<char>,
> {
    match auth {
        ClientAuth::BasicHeader => Some(basic_credentials(client_id, client_secret)),
        ClientAuth::FormFields => None,
    }
}

fn field(key: &str, value: &str) -> (r: (String, String))
    ensures
        r.deep_view() == (key@, value@),
{
    (String::from_str(key), String::from_str(value))
}

fn add_client_credentials(
    request: &mut TokenRequest,
    auth: ClientAuth,
    client_id: &str,
    client_secret: &str,
)
    requires
        old(request).authorization is None,
    ensures
        final(request).authorization.deep_view() == client_header(auth, client_id@, client_secret@),
        final(request).form.deep_view() == old(request).form.deep_view() + client_fields(
            auth,
            client_id@,
            client_secret@,
        ),
{
    match auth {
        ClientAuth::BasicHeader => {
            request.authorization = Some(basic_authorization(client_id, client_secret));
            assert(request.form.deep_view() =~= old(request).form.deep_view() + Seq::empty());
        },
        ClientAuth::FormFields => {
            let ghost before = request.form.deep_view();
            request.form.push(field("client_id", client_id));
            request.form.push(field("client_secret", client_secret));
            assert(request.form.deep_view() =~= before + client_fields(
                auth,
                client_id@,
                client_secret@,
            ));
        },
    }
}

/// The request that trades an authorization code for a token pair.
pub fn code_exchange_request(
    code: &str,
    redirect_uri: &str,
    client_id: &str,
    client_secret: &str,
    auth: ClientAuth,
) -> (r: TokenRequest)
    ensures
        r.authorization.deep_view() == client_header(auth, client_id@, client_secret@),
        r.form.deep_view() == seq![
            ("grant_type"@, "authorization_code"@),
            ("code"@, code@),
            ("redirect_uri"@, redirect_uri@),
        ] + client_fields(auth, client_id@, client_secret@),
{
    let mut form: Vec<(String, String)> = Vec::new();
    form.push(field("grant_type", "authorization_code"));
    form.push(field("code", code));
    form.push(field("redirect_uri", redirect_uri));
    assert(form.deep_view() =~= seq![
        ("grant_type"@, "authorization_code"@),
        ("code"@, code@),
        ("redirect_uri"@, redirect_uri@),
    ]);
    let mut request = TokenRequest { authorization: None, form };
    add_client_credentials(&mut request, auth, client_id, client_secret);
    request
}

/// The request that trades a refresh token for a new token pair.
pub fn refresh_request(
    refresh_token: &str,
    client_id: &str,
    client_secret: &str,
    auth: ClientAuth,
) -> (r: TokenRequest)
    ensures
        r.authorization.deep_view() == client_header(auth, client_id@, client_secret@),
        r.form.deep_view() == seq![("grant_type"@, "refresh_token"@), ("refresh_token"@, refresh_token@)]
            + client_fields(auth, client_id@, client_secret@),
{
    let mut form: Vec<(String, String)> = Vec::new();
    form.push(field("grant_type", "refresh_token"));
    form.push(field("refresh_token", refresh_token));
    assert(form.deep_view() =~= seq![
        ("grant_type"@, "refresh_token"@),
        ("refresh_token"@, refresh_token@),
    ]);
    let mut request = TokenRequest { authorization: None, form };
    add_client_credentials(&mut request, auth, client_id, client_secret);
    request
}

/// What a token endpoint reply comes to: its HTTP `status`, its raw `body`,
/// the fields `decoded` from it (`None` where the body is not a token
/// response), and the refresh token in use before, if any.
/// A status outside 200..=299 is `Rejected`; no decoded reply or no access
/// token is `Undecodable`; no lifetime is `MissingExpiry`; a reply without a
/// refresh token keeps `previous_refresh`, and is `MissingRefreshToken` where
/// there is none.
pub open spec fn token_outcome(
    status: u16,
    body: String,
    decoded: Option<TokenResponse>,
    previous_refresh: Option<String>,
) -> Result<TokenPair, ExchangeError> {
    if !(200 <= status && status <= 299) {
        Err(ExchangeError::Rejected { status, body })
    } else {
        match decoded {
            None => Err(ExchangeError::Undecodable { body }),
            Some(d) => match d.access_token {
                None => Err(ExchangeError::Undecodable { body }),
                Some(access) => match d.expires_in {
                    None => Err(ExchangeError::MissingExpiry),
                    Some(expires) => match d.refresh_token {
                        Some(refresh) => Ok(
                            TokenPair { access_token: access, refresh_token: refresh, expires_in_seconds: expires },
                        ),
                        None => match previous_refresh {
                            Some(refresh) => Ok(
                                TokenPair {
                                    access_token: access,
                                    refresh_token: refresh,
                                    expires_in_seconds: expires,
                                },
                            ),
                            None => Err(ExchangeError::MissingRefreshToken),
                        },
                    },
                },
            },
        }
    }
}

/// Turns a token endpoint reply into a token pair (see `token_outcome`).
pub fn parse_response(
    status: u16,
    body: String,
    decoded: Option<TokenResponse>,
    previous_refresh: Option<String>,
) -> (r: Result<TokenPair, ExchangeError>)
    ensures
        r == token_outcome(status, body, decoded, previous_refresh),
{
    if !(200 <= status && status <= 299) {
        return Err(ExchangeError::Rejected { status, body });
    }
    let d = match decoded {
        None => return Err(ExchangeError::Undecodable { body }),
        Some(d) => d,
    };
    let access = match d.access_token {
        None => return Err(ExchangeError::Undecodable { body }),
        Some(a) => a,
    };
    let expires = match d.expires_in {
        None => return Err(ExchangeError::MissingExpiry),
        Some(e) => e,
    };
    let refresh = match d.refresh_token {
        Some(r) => r,
        None => match previous_refresh {
            Some(r) => r,
            None => return Err(ExchangeError::MissingRefreshToken),
        },
    };
    Ok(TokenPair { access_token: access, refresh_token: refresh, expires_in_seconds: expires })
}

} // verus!
