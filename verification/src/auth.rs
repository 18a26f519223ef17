//! Authorization decisions: token claims, role permissions, and the signer
//! IP allow-list. Token encoding and decoding live at the process boundary;
//! every decision about what a caller may do is made here.

use vstd::prelude::*;

use crate::error::TssError;

verus! {

/// Caller roles carried in token claims.
#[derive(Clone, Copy, Debug, PartialEq, Eq, Structural)]
pub enum Role {
    Public,
    Signer,
    Admin,
}

/// Claims of a bearer token.
#[derive(Clone, Debug, PartialEq)]
pub struct Claims {
    pub sub: String,
    pub exp: usize,
    pub role: Role,
    pub iat: usize,
}

/// Why a request was not authenticated.
#[derive(Clone, Copy, Debug, PartialEq, Eq, Structural)]
pub enum AuthError {
    Missing,
    Invalid,
    Expired,
    WrongRole,
    IpNotAllowed,
}

/// A caller whose token was accepted.
#[derive(Clone, Debug, PartialEq)]
pub struct AuthenticatedUser {
    pub user_id: String,
    pub role: Role,
}

/// Marks a caller admitted by the signer IP allow-list.
#[derive(Clone, Copy, Debug, PartialEq, Eq, Structural)]
pub struct SignerAuth;

/// Seconds a freshly issued token stays valid.
pub const TOKEN_LIFETIME_SECS: usize = 3600;

/// What `has_permission_for_endpoint` grants: the public role reaches only
/// `/sign` and the signing-result lookups, the signer role reaches no
/// token-guarded endpoint at all (signer endpoints are IP-guarded instead),
/// and the administrator reaches everything.
pub open spec fn spec_has_permission(role: Role, path: Seq<char>) -> bool {
    match role {
        Role::Public => path == "/sign"@ || (path.len() >= 16 && path.subrange(0, 16)
            == "/signing_result/"@),
        Role::Signer => false,
        Role::Admin => true,
    }
}

/// Role-based endpoint permission for token-guarded endpoints.
pub fn has_permission_for_endpoint(role: &Role, path: &str) -> (r: bool)
    ensures
        r == spec_has_permission(*role, path@),
{
    proof {
        reveal_strlit("/sign");
        reveal_strlit("/signing_result/");
    }
    match role {
        Role::Admin => true,
        Role::Signer => false,
        Role::Public => {
            let n = path.unicode_len();
            if n == 5 {
                let owned = path.to_owned();
                if owned == String::from_str("/sign") {
                    return true;
                }
                proof {
                    assert(path@.len() == 5 && "/signing_result/"@.len() == 16);
                    assert(path@ != "/sign"@ && !(path@.len() >= 16));
                }
                false
            } else if n >= 16 {
                let prefix = path.substring_char(0, 16).to_owned();
                let is_result = prefix == String::from_str("/signing_result/");
                proof {
                    assert(path@.len() != 5 && "/sign"@.len() == 5);
                    if path@ == "/sign"@ {
                        assert(path@.len() == 5);
                    }
                }
                is_result
            } else {
                proof {
                    assert("/sign"@.len() == 5);
                    if path@ == "/sign"@ {
                        assert(path@.len() == 5);
                    }
                }
                false
            }
        },
    }
}

/// Only the public role may submit messages and poll signing results; any
/// other role on those endpoints is refused.
pub fn role_is_public(role: &Role) -> (r: bool)
    ensures
        r == (*role is Public),
{
    match role {
        Role::Public => true,
        _ => false,
    }
}

/// Forms the claims of a token to issue: the signer role never receives a
/// token (signers authenticate by IP alone); other roles get claims issued
/// at `now` that expire `TOKEN_LIFETIME_SECS` later.
pub fn make_claims(user_id: &str, role: Role, now: usize) -> (r: Result<Claims, TssError>)
    requires
        now + TOKEN_LIFETIME_SECS <= usize::MAX,
    ensures
        role is Signer ==> (r matches Err(e) && e matches TssError::AuthError(m) && m@
            == "Cannot create token for Signer role"@),
        !(role is Signer) ==> (r matches Ok(c) && c.sub@ == user_id@ && c.role == role && c.iat
            == now && c.exp == now + TOKEN_LIFETIME_SECS),
{
    proof {
        reveal_strlit("Cannot create token for Signer role");
    }
    match role {
        Role::Signer => Err(
            TssError::AuthError(String::from_str("Cannot create token for Signer role")),
        ),
        _ => Ok(
            Claims {
                sub: user_id.to_owned(),
                exp: now + TOKEN_LIFETIME_SECS,
                role,
                iat: now,
            },
        ),
    }
}

/// Claims are current at `now` exactly when they have not expired.
pub fn claims_current(claims: &Claims, now: usize) -> (r: bool)
    ensures
        r == (now <= claims.exp),
{
    now <= claims.exp
}

} // verus!
