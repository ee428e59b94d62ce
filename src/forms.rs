use crate::proxy::ProxyConfig;
use crate::text::decimal;
use vstd::prelude::*;

verus! {

/// The provider's authorization page.
pub const AUTHORIZE_URL: &'static str = "https://accounts.spotify.com/authorize";

/// The provider's token endpoint.
pub const TOKEN_URL: &'static str = "https://accounts.spotify.com/api/token";

/// The URL that `base` and the query pairs give once the pairs are
/// form-encoded into its query string, or `None` when `base` is no URL.
pub uninterp spec fn url_with_query(base: Seq<char>, params: Seq<(Seq<char>, Seq<char>)>) -> Option<
    Seq<char>,
>;

/// The text of a list of name/value pairs.
pub open spec fn pairs_view(p: Seq<(String, String)>) -> Seq<(Seq<char>, Seq<char>)> {
    p.map_values(|x: (String, String)| (x.0@, x.1@))
}

/// The query of the authorization page for a session.
pub open spec fn authorize_params_spec(
    cfg: ProxyConfig,
    challenge: Seq<char>,
    id: u64,
) -> Seq<(Seq<char>, Seq<char>)> {
    seq![
        ("response_type"@, "code"@),
        ("client_id"@, cfg.application_id@),
        ("redirect_uri"@, cfg.callback_url@),
        ("scope"@, cfg.scope@),
        ("code_challenge"@, challenge),
        ("code_challenge_method"@, "S256"@),
        ("state"@, decimal(id as nat)),
    ]
}

/// The form that exchanges a refresh token for a new access token.
pub open spec fn refresh_form_spec(refresh_token: Seq<char>, application_id: Seq<char>) -> Seq<
    (Seq<char>, Seq<char>),
> {
    seq![
        ("grant_type"@, "refresh_token"@),
        ("refresh_token"@, refresh_token),
        ("client_id"@, application_id),
    ]
}

/// The form that exchanges an authorization code, with its PKCE verifier,
/// for tokens.
pub open spec fn exchange_form_spec(
    code: Seq<char>,
    redirect_uri: Seq<char>,
    verifier: Seq<char>,
    application_id: Seq<char>,
) -> Seq<(Seq<char>, Seq<char>)> {
    seq![
        ("grant_type"@, "authorization_code"@),
        ("code"@, code),
        ("redirect_uri"@, redirect_uri),
        ("code_verifier"@, verifier),
        ("client_id"@, application_id),
    ]
}

/// Relies on url's `Url::parse_with_params`: the base URL with the pairs
/// form-encoded as its query; it fails only when the base is no URL. The
/// outcome depends on the base and the pairs alone.
#[verifier::external_body]
pub(crate) fn url_with_params(base: &str, params: &Vec<(String, String)>) -> (r: Option<String>)
    ensures
        match r {
            Some(u) => url_with_query(base@, pairs_view(params@)) == Some(u@),
            None => url_with_query(base@, pairs_view(params@)) is None,
        },
{
    url::Url::parse_with_params(base, params.iter()).ok().map(String::from)
}

fn pair(k: &str, v: &str) -> (r: (String, String))
    ensures
        r.0@ == k@,
        r.1@ == v@,
{
    (String::from_str(k), String::from_str(v))
}

/// The query pairs of the authorization page for session `id`.
pub fn authorize_params(cfg: &ProxyConfig, challenge: &str, id: u64) -> (r: Vec<(String, String)>)
    ensures
        pairs_view(r@) == authorize_params_spec(*cfg, challenge@, id),
{
    let state = crate::text::u64_to_decimal(id);
    let mut v: Vec<(String, String)> = Vec::new();
    v.push(pair("response_type", "code"));
    v.push(pair("client_id", cfg.application_id.as_str()));
    v.push(pair("redirect_uri", cfg.callback_url.as_str()));
    v.push(pair("scope", cfg.scope.as_str()));
    v.push(pair("code_challenge", challenge));
    v.push(pair("code_challenge_method", "S256"));
    v.push(pair("state", state.as_str()));
    assert(pairs_view(v@) =~= authorize_params_spec(*cfg, challenge@, id));
    v
}

/// The token form of a refresh.
pub fn refresh_form(refresh_token: &str, application_id: &str) -> (r: Vec<(String, String)>)
    ensures
        pairs_view(r@) == refresh_form_spec(refresh_token@, application_id@),
{
    let mut v: Vec<(String, String)> = Vec::new();
    v.push(pair("grant_type", "refresh_token"));
    v.push(pair("refresh_token", refresh_token));
    v.push(pair("client_id", application_id));
    assert(pairs_view(v@) =~= refresh_form_spec(refresh_token@, application_id@));
    v
}

/// The token form of an authorization-code exchange.
pub fn exchange_form(code: &str, redirect_uri: &str, verifier: &str, application_id: &str) -> (r:
    Vec<(String, String)>)
    ensures
        pairs_view(r@) == exchange_form_spec(code@, redirect_uri@, verifier@, application_id@),
{
    let mut v: Vec<(String, String)> = Vec::new();
    v.push(pair("grant_type", "authorization_code"));
    v.push(pair("code", code));
    v.push(pair("redirect_uri", redirect_uri));
    v.push(pair("code_verifier", verifier));
    v.push(pair("client_id", application_id));
    assert(pairs_view(v@) =~= exchange_form_spec(code@, redirect_uri@, verifier@, application_id@));
    v
}

/// The upstream URL of an endpoint: the base URL, a slash, the endpoint.
pub fn upstream_url(base_url: &str, endpoint: &str) -> (r: String)
    ensures
        r@ == base_url@ + "/"@ + endpoint@,
{
    String::from_str(base_url).concat("/").concat(endpoint)
}

} // verus!
