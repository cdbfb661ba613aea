use vstd::prelude::*;
use vstd::string::StringSliceAdditionalSpecFns;

verus! {

/// The identity provider's user.
pub struct GitHubUser {
    pub id: u64,
}

/// What the identity provider answers about an access token: its user, and
/// the token itself.
pub struct TokenPayload {
    pub user: GitHubUser,
    pub token: String,
}

/// What the identity provider is asked about an access token.
pub struct TokenVerificationPayload {
    pub access_token: String,
}

impl TokenVerificationPayload {
    pub fn new(access_token: &str) -> (r: TokenVerificationPayload)
        ensures
            r.access_token@ == access_token@,
    {
        TokenVerificationPayload { access_token: String::from_str(access_token) }
    }
}

/// The standard, padded base64 form of the UTF-8 encoding of `s`.
pub uninterp spec fn base64_of(s: Seq<char>) -> Seq<char>;

/// A character of the standard base64 alphabet, or the padding `=`.
pub open spec fn is_base64_char(c: char) -> bool {
    ('A' <= c && c <= 'Z') || ('a' <= c && c <= 'z') || ('0' <= c && c <= '9') || c == '+' || c
        == '/' || c == '='
}

/// Relies on base64's `Engine::encode` with the `STANDARD` engine: the padded
/// base64 of the string's bytes, four characters of the standard alphabet
/// for every three bytes begun (`encoded_len` with padding). It panics only
/// when the encoded length overflows `usize`; at most four bytes per
/// character keep it below.
#[verifier::external_body]
fn base64_standard(s: &str) -> (r: String)
    requires
        s@.len() <= usize::MAX / 8,
    ensures
        r@ == base64_of(s@),
        r@.len() == 4 * ((s.spec_bytes().len() + 2) / 3),
        forall|i: int| 0 <= i < r@.len() ==> is_base64_char(#[trigger] r@[i]),
{
    base64::Engine::encode(&base64::engine::general_purpose::STANDARD, s)
}

/// Where the service checks a user's access token with the identity provider.
pub fn token_check_url(client_id: &str) -> (r: String)
    ensures
        r@ == "https://api.github.com/applications/"@ + client_id@ + "/token"@,
{
    String::from_str("https://api.github.com/applications/").concat(client_id).concat("/token")
}

/// The basic `Authorization` value with which the service presents its
/// client id and secret to the identity provider.
pub fn basic_authorization(client_id: &str, client_secret: &str) -> (r: String)
    requires
        client_id@.len() + client_secret@.len() < usize::MAX / 8,
    ensures
        r@ == "Basic "@ + base64_of(client_id@ + ":"@ + client_secret@),
        forall|i: int| 6 <= i < r@.len() ==> is_base64_char(#[trigger] r@[i]),
{
    proof {
        reveal_strlit(":");
    }
    let credentials = String::from_str(client_id).concat(":").concat(client_secret);
    let encoded = base64_standard(credentials.as_str());
    let r = String::from_str("Basic ").concat(encoded.as_str());
    proof {
        reveal_strlit("Basic ");
        assert forall|i: int| 6 <= i < r@.len() implies is_base64_char(#[trigger] r@[i]) by {
            assert(r@[i] == encoded@[i - 6]);
        }
    }
    r
}

} // verus!
