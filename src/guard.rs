use vstd::prelude::*;

verus! {

/// Why a request was not let through.
#[derive(Debug, PartialEq, Eq, Structural, Clone, Copy)]
pub enum AuthError {
    /// The `Authorization` header is missing or is no bearer header.
    BadRequest,
    /// The token did not verify.
    InvalidToken,
    /// The service has no secret to verify tokens with.
    InternalServerError,
}

pub open spec fn bearer_prefix() -> Seq<char> {
    "Bearer "@
}

pub open spec fn starts_with_bearer(s: Seq<char>) -> bool {
    s.len() >= 7 && s.subrange(0, 7) == bearer_prefix()
}

/// `s` with every leading `Bearer ` removed.
pub open spec fn strip_bearer(s: Seq<char>) -> Seq<char>
    decreases s.len(),
{
    if starts_with_bearer(s) {
        strip_bearer(s.subrange(7, s.len() as int))
    } else {
        s
    }
}

fn has_bearer_prefix(s: &str) -> (r: bool)
    ensures
        r == starts_with_bearer(s@),
{
    let p = "Bearer ";
    proof {
        reveal_strlit("Bearer ");
    }
    let n = s.unicode_len();
    if n < 7 {
        return false;
    }
    let mut i: usize = 0;
    while i < 7
        invariant
            0 <= i <= 7,
            7 <= s@.len(),
            p@ == bearer_prefix(),
            p@.len() == 7,
            forall|j: int| 0 <= j < i ==> s@[j] == p@[j],
        decreases 7 - i,
    {
        if s.get_char(i) != p.get_char(i) {
            assert(s@.subrange(0, 7)[i as int] != bearer_prefix()[i as int]);
            return false;
        }
        i = i + 1;
    }
    assert(s@.subrange(0, 7) =~= p@);
    true
}

/// The token of a bearer `Authorization` header, which the caller then
/// verifies with `jwt_secret`: a missing header or one without the `Bearer `
/// prefix is a `BadRequest`, an empty secret an `InternalServerError`. Every
/// leading `Bearer ` is removed from the token.
pub fn bearer_token(header: Option<&str>, jwt_secret: &str) -> (r: Result<String, AuthError>)
    ensures
        match header {
            None => r == Err::<String, AuthError>(AuthError::BadRequest),
            Some(h) => if !starts_with_bearer(h@) {
                r == Err::<String, AuthError>(AuthError::BadRequest)
            } else if jwt_secret@.len() == 0 {
                r == Err::<String, AuthError>(AuthError::InternalServerError)
            } else {
                r matches Ok(t) && t@ == strip_bearer(h@)
            },
        },
{
    let h = match header {
        None => {
            return Err(AuthError::BadRequest);
        },
        Some(h) => h,
    };
    if !has_bearer_prefix(h) {
        return Err(AuthError::BadRequest);
    }
    let mut rest: &str = h;
    while has_bearer_prefix(rest)
        invariant
            strip_bearer(rest@) == strip_bearer(h@),
        decreases rest@.len(),
    {
        let n = rest.unicode_len();
        rest = rest.substring_char(7, n);
    }
    if jwt_secret.unicode_len() == 0 {
        return Err(AuthError::InternalServerError);
    }
    Ok(rest.to_owned())
}

} // verus!
