//! Digest authentication: credentials, the digest response computation, and
//! the rebuilding of a challenged request with an `Authorization` or
//! `Proxy-Authorization` header and a fresh `CSeq`.
use vstd::prelude::*;
use crate::msg::{
    spec_challenge, spec_unique_push, unique_push, Algorithm, Challenge, ChallengeView,
    DigestAuth, DigestAuthView, Header, HeaderView, Method, Qop, Request, RequestView, Response,
};
use crate::fmt::{spec_uri_str, uri_to_string};

verus! {

/// Specification view of a [`Credential`].
pub struct CredentialView {
    pub username: Seq<char>,
    pub password: Seq<char>,
    pub realm: Option<Seq<char>>,
}

/// A username and password, with an optional realm of their own. The realm a
/// digest is computed over is always the one the challenge names.
#[derive(Debug, PartialEq, Eq)]
pub struct Credential {
    pub username: String,
    pub password: String,
    pub realm: Option<String>,
}

impl View for Credential {
    type V = CredentialView;

    open spec fn view(&self) -> CredentialView {
        CredentialView {
            username: self.username@,
            password: self.password@,
            realm: self.realm.deep_view(),
        }
    }
}

impl DeepView for Credential {
    type V = CredentialView;

    open spec fn deep_view(&self) -> CredentialView {
        self.view()
    }
}

impl Credential {
    /// Copies the credential, preserving its view.
    pub fn dup(&self) -> (r: Credential)
        ensures
            r@ == self@,
    {
        Credential {
            username: self.username.clone(),
            password: self.password.clone(),
            realm: crate::msg::dup_opt_string(&self.realm),
        }
    }
}

/// The MD5 digest response over the given parameters: what
/// `rsip::services::DigestGenerator::compute` returns for them. The optional
/// pair is the client nonce and nonce count of a `qop=auth` answer.
pub uninterp spec fn spec_digest_response(
    username: Seq<char>,
    password: Seq<char>,
    realm: Seq<char>,
    nonce: Seq<char>,
    method: Seq<char>,
    uri: Seq<char>,
    qop: Option<(Seq<char>, u8)>,
) -> Seq<char>;

/// Whether the digest computation accepts a method and URI string: whether
/// rsip's `Method::from_str` and `Uri::try_from` both parse them. Both parse
/// functions of their argument strings alone.
pub uninterp spec fn spec_digest_accepts(method: Seq<char>, uri: Seq<char>) -> bool;

/// Relies on `rsip::services::DigestGenerator::compute`: the MD5 digest
/// response is a function of the generator's fields alone. The computation
/// succeeds exactly when rsip accepts `method` and `uri`, which depends on
/// those two strings alone.
#[verifier::external_body]
fn compute_digest_md5(
    username: &str,
    password: &str,
    realm: &str,
    nonce: &str,
    method: &str,
    uri: &str,
    qop: Option<(&str, u8)>,
) -> (r: Option<String>)
    ensures
        r is Some <==> spec_digest_accepts(method@, uri@),
        r is Some ==> r->0@ == spec_digest_response(
            username@,
            password@,
            realm@,
            nonce@,
            method@,
            uri@,
            match qop {
                Some((c, n)) => Some((c@, n)),
                None => None,
            },
        ),
{
    let m: rsip::common::Method = method.parse().ok()?;
    let u = rsip::common::uri::Uri::try_from(uri).ok()?;
    let q = qop.map(
        |(c, n)| rsip::headers::auth::AuthQop::Auth { cnonce: c.to_string(), nc: n },
    );
    let generator = rsip::services::DigestGenerator {
        username, password, nonce, realm,
        uri: &u,
        method: &m,
        qop: q.as_ref(),
        algorithm: rsip::headers::auth::Algorithm::Md5,
    };
    Some(generator.compute())
}

/// The credentials answering `challenge` for `cred`, on a request with the
/// given method and URI string: the challenge's realm, nonce and opaque, the
/// digest response over them, and a `qop=auth` answer with the given client
/// nonce exactly when the challenge names a quality of protection.
pub open spec fn spec_digest_auth(
    cred: CredentialView,
    challenge: ChallengeView,
    method: Method,
    uri: Seq<char>,
    cnonce: Seq<char>,
) -> DigestAuthView {
    DigestAuthView {
        username: cred.username,
        realm: challenge.realm,
        nonce: challenge.nonce,
        uri: uri,
        response: spec_digest_response(
            cred.username,
            cred.password,
            challenge.realm,
            challenge.nonce,
            method.spec_name(),
            uri,
            match challenge.qop {
                Some(_) => Some((cnonce, 1u8)),
                None => None,
            },
        ),
        algorithm: Algorithm::Md5,
        qop: match challenge.qop {
            Some(_) => Some((Qop::Auth, cnonce, 1u8)),
            None => None,
        },
        opaque: challenge.opaque,
    }
}

/// The challenged request rebuilt for its retry: the same request with its
/// `CSeq` number replaced by `new_seq` and the digest credentials attached,
/// as `Proxy-Authorization` for a proxy challenge and `Authorization`
/// otherwise.
pub open spec fn spec_authorized_request(
    orig: RequestView,
    new_seq: u32,
    auth: DigestAuthView,
    proxy: bool,
) -> RequestView {
    RequestView {
        method: orig.method,
        uri: orig.uri,
        headers: spec_unique_push(
            spec_unique_push(orig.headers, HeaderView::CSeq(new_seq, orig.method)),
            if proxy {
                HeaderView::ProxyAuthorization(auth)
            } else {
                HeaderView::Authorization(auth)
            },
        ),
        body: orig.body,
    }
}

/// Attaches computed digest credentials to a copy of a challenged request,
/// replacing its `CSeq` number by `new_seq`.
pub fn attach_authorization(original: &Request, new_seq: u32, auth: DigestAuth, proxy: bool) -> (r:
    Request)
    ensures
        r@ == spec_authorized_request(original@, new_seq, auth@, proxy),
{
    let mut r = original.dup();
    let method = r.method;
    unique_push(&mut r.headers, Header::CSeq(new_seq, method));
    if proxy {
        unique_push(&mut r.headers, Header::ProxyAuthorization(auth));
    } else {
        unique_push(&mut r.headers, Header::Authorization(auth));
    }
    r
}

/// Why a challenged request could not be rebuilt.
#[derive(Clone, Copy, Debug, PartialEq, Eq, Structural)]
pub enum AuthError {
    /// The response carries no digest challenge.
    NoChallenge,
    /// The challenge names an algorithm other than MD5.
    UnsupportedAlgorithm,
    /// The digest computation did not accept the request's method or URI.
    DigestUnavailable,
}

/// Answers a 401/407 challenge: computes the digest response for the
/// challenge carried by `resp` and returns a copy of `original` with the
/// credentials attached and its `CSeq` number replaced by `new_seq`. The
/// caller chooses `new_seq` (unchanged for CANCEL, incremented otherwise)
/// and supplies the client nonce used when the challenge asks for a quality
/// of protection.
///
/// Success is owed exactly when the response carries an MD5 digest challenge
/// and the digest computation accepts the request's method and URI strings.
pub fn handle_client_authenticate(
    new_seq: u32,
    original: &Request,
    resp: &Response,
    cred: &Credential,
    cnonce: &String,
) -> (r: Result<Request, AuthError>)
    ensures
        spec_challenge(resp@.headers) is None <==> r == Err::<Request, AuthError>(
            AuthError::NoChallenge,
        ),
        (match spec_challenge(resp@.headers) {
            Some((_, c)) => c.algorithm != Algorithm::Md5,
            None => false,
        }) <==> r == Err::<Request, AuthError>(AuthError::UnsupportedAlgorithm),
        (match spec_challenge(resp@.headers) {
            Some((_, c)) => c.algorithm == Algorithm::Md5 && !spec_digest_accepts(
                original@.method.spec_name(),
                spec_uri_str(original@.uri),
            ),
            None => false,
        }) <==> r == Err::<Request, AuthError>(AuthError::DigestUnavailable),
        r is Ok <==> (match spec_challenge(resp@.headers) {
            Some((_, c)) => c.algorithm == Algorithm::Md5 && spec_digest_accepts(
                original@.method.spec_name(),
                spec_uri_str(original@.uri),
            ),
            None => false,
        }),
        r is Ok ==> {
            &&& spec_challenge(resp@.headers) is Some
            &&& {
                let (proxy, c) = spec_challenge(resp@.headers)->0;
                r->Ok_0@ == spec_authorized_request(
                    original@,
                    new_seq,
                    spec_digest_auth(cred@, c, original@.method, spec_uri_str(original@.uri), cnonce@),
                    proxy,
                )
            }
        },
{
    let challenge = crate::msg::find_challenge(&resp.headers);
    match challenge {
        None => Err(AuthError::NoChallenge),
        Some((proxy, c)) => {
            if !matches!(c.algorithm, Algorithm::Md5) {
                return Err(AuthError::UnsupportedAlgorithm);
            }
            let uri_string = uri_to_string(&original.uri);
            let qop_arg: Option<(&str, u8)> = match c.qop {
                Some(_) => Some((cnonce.as_str(), 1)),
                None => None,
            };
            let digest = compute_digest_md5(
                cred.username.as_str(),
                cred.password.as_str(),
                c.realm.as_str(),
                c.nonce.as_str(),
                original.method.name(),
                uri_string.as_str(),
                qop_arg,
            );
            match digest {
                None => Err(AuthError::DigestUnavailable),
                Some(response) => {
                    let auth = DigestAuth {
                        username: cred.username.clone(),
                        realm: c.realm.clone(),
                        nonce: c.nonce.clone(),
                        uri: uri_string,
                        response,
                        algorithm: Algorithm::Md5,
                        qop: match c.qop {
                            Some(_) => Some((Qop::Auth, cnonce.clone(), 1)),
                            None => None,
                        },
                        opaque: crate::msg::dup_opt_string(&c.opaque),
                    };
                    assert(auth@ == spec_digest_auth(
                        cred@,
                        (spec_challenge(resp@.headers)->0).1,
                        original@.method,
                        spec_uri_str(original@.uri),
                        cnonce@,
                    ));
                    Ok(attach_authorization(original, new_seq, auth, proxy))
                },
            }
        },
    }
}

} // verus!
