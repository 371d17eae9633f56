//! Bearer-token authentication per the Docker Token Authentication
//! Specification: reading `WWW-Authenticate` challenges, planning the token
//! request each challenge calls for, and judging the realm's answer.

use vstd::prelude::*;

use crate::registry::RegistryError;
use crate::text::{split_spec, split_str, Sep};

verus! {

/// A token handed out by an authentication realm.
#[derive(Debug, Clone, PartialEq)]
pub struct Token {
    pub token: String,
    pub expires_in: Option<u64>,
    /// An RFC 3339 timestamp, kept as the realm sent it.
    pub issued_at: Option<String>,
    pub refresh_token: Option<String>,
}

/// A credential the registry engine can present.
#[derive(Debug, Clone, PartialEq)]
pub enum Credential {
    Token(Token),
}

/// One challenge as the header parser hands it over: either a token68 blob
/// or a field map reduced to the three fields the engine reads.
#[derive(Debug, Clone, PartialEq)]
pub enum RawChallengeData {
    Token68(String),
    Fields { realm: Option<String>, service: Option<String>, scope: Option<String> },
}

/// What parsing a `WWW-Authenticate` header value can come to.
#[derive(Debug, Clone, PartialEq)]
pub enum BearerParseOutcome {
    /// The header value was not a well-formed challenge list.
    Malformed,
    /// No challenge used the `Bearer` scheme.
    NoBearer,
    /// The `Bearer` challenges, in header order.
    Challenges(Vec<RawChallengeData>),
}

/// What a `WWW-Authenticate` header value holds, as a function of the text.
pub uninterp spec fn bearer_parse_of(s: Seq<char>) -> BearerParseOutcome;

/// Relies on www_authenticate's WWW-Authenticate parser and its
/// ChallengeFields::remove: the Bearer challenges read from a header value
/// are a function of the text alone. A header whose final character is a
/// backslash is excluded: the crate's quoted-string scanner steps past a
/// backslash and reads the next byte unchecked, so such a header can make
/// it read out of bounds.
#[verifier::external_body]
fn parse_www_authenticate(header: &str) -> (r: BearerParseOutcome)
    requires
        header@.len() > 0 ==> header@.last() != '\\',
    ensures
        r == bearer_parse_of(header@),
{
    let raw = hyperx::header::Raw::from(header);
    let parsed = <www_authenticate::WwwAuthenticate as hyperx::header::Header>::parse_header(&raw);
    let auth = match parsed { Ok(a) => a, Err(_) => return BearerParseOutcome::Malformed };
    let chs = match auth.get_raw("Bearer") {
        Some(c) => c,
        None => return BearerParseOutcome::NoBearer,
    };
    BearerParseOutcome::Challenges(chs.iter().cloned().map(|c| match c {
        www_authenticate::RawChallenge::Token68(t) => RawChallengeData::Token68(t),
        www_authenticate::RawChallenge::Fields(mut f) => RawChallengeData::Fields {
            realm: f.remove("realm"), service: f.remove("service"), scope: f.remove("scope") },
    }).collect())
}

/// A `Bearer` challenge: its realm, service, and whitespace-split scopes.
#[derive(Debug, Clone, PartialEq)]
pub struct BearerChallenge {
    pub realm: Option<String>,
    pub service: Option<String>,
    pub scopes: Option<Vec<String>>,
}

/// How a converted challenge relates to the raw fields it came from.
pub open spec fn challenge_matches_raw(c: BearerChallenge, raw: RawChallengeData) -> bool {
    match raw {
        RawChallengeData::Token68(_) => false,
        RawChallengeData::Fields { realm, service, scope } => {
            &&& c.realm == realm
            &&& c.service == service
            &&& match scope {
                None => c.scopes is None,
                Some(s) => c.scopes matches Some(v) && v.deep_view() == split_spec(s@, Sep::Space),
            }
        },
    }
}

/// Clone an optional string, value for value.
fn clone_opt_string(o: &Option<String>) -> (r: Option<String>)
    ensures
        r == *o,
{
    match o {
        Some(s) => Some(s.clone()),
        None => None,
    }
}

impl BearerChallenge {
    /// Convert one raw challenge: token68 challenges are dropped, and the
    /// `scope` field is split at spaces.
    pub fn from_raw(raw: &RawChallengeData) -> (r: Option<BearerChallenge>)
        ensures
            match *raw {
                RawChallengeData::Token68(_) => r is None,
                RawChallengeData::Fields { .. } => r matches Some(c) && challenge_matches_raw(
                    c,
                    *raw,
                ),
            },
    {
        match raw {
            RawChallengeData::Token68(_) => None,
            RawChallengeData::Fields { realm, service, scope } => {
                let scopes = match scope {
                    Some(s) => Some(split_str(s.as_str(), Sep::Space)),
                    None => None,
                };
                Some(
                    BearerChallenge {
                        realm: clone_opt_string(realm),
                        service: clone_opt_string(service),
                        scopes,
                    },
                )
            },
        }
    }
}

/// The field-map challenges among the first `i` raw challenges.
pub open spec fn fields_prefix(raws: Seq<RawChallengeData>, i: int) -> Seq<RawChallengeData>
    decreases i,
{
    if i <= 0 {
        seq![]
    } else {
        fields_prefix(raws, i - 1) + (if raws[i - 1] is Fields {
            seq![raws[i - 1]]
        } else {
            seq![]
        })
    }
}

/// Read the `Bearer` challenges out of a `WWW-Authenticate` header value.
/// A header that does not parse, or carries no `Bearer` challenge, is an
/// invalid authentication challenge; token68 challenges are dropped. A
/// header ending in a backslash — a truncated quoted string — is rejected
/// up front as an invalid challenge, without reaching the parser.
pub fn bearer_challenges(header: &str) -> (r: Result<Vec<BearerChallenge>, RegistryError>)
    ensures
        header@.len() > 0 && header@.last() == '\\' ==> r matches Err(
            RegistryError::InvalidAuthenticationChallenge(_),
        ),
        (header@.len() == 0 || header@.last() != '\\') ==> match bearer_parse_of(header@) {
            BearerParseOutcome::Malformed => r matches Err(
                RegistryError::InvalidAuthenticationChallenge(_),
            ),
            BearerParseOutcome::NoBearer => r matches Err(
                RegistryError::InvalidAuthenticationChallenge(_),
            ),
            BearerParseOutcome::Challenges(raws) => r matches Ok(cs) && {
                let kept = fields_prefix(raws@, raws@.len() as int);
                &&& cs@.len() == kept.len()
                &&& forall|j: int|
                    0 <= j < kept.len() ==> challenge_matches_raw(#[trigger] cs@[j], kept[j])
            },
        },
{
    let n = header.unicode_len();
    if n > 0 && header.get_char(n - 1) == '\\' {
        return Err(RegistryError::InvalidAuthenticationChallenge(header.to_owned()));
    }
    match parse_www_authenticate(header) {
        BearerParseOutcome::Malformed => Err(
            RegistryError::InvalidAuthenticationChallenge(header.to_owned()),
        ),
        BearerParseOutcome::NoBearer => Err(
            RegistryError::InvalidAuthenticationChallenge(
                "No Bearer Challenge provided".to_owned(),
            ),
        ),
        BearerParseOutcome::Challenges(raws) => {
            let mut out: Vec<BearerChallenge> = Vec::new();
            let n = raws.len();
            let mut i: usize = 0;
            while i < n
                invariant
                    i <= n,
                    n == raws.len(),
                    out@.len() == fields_prefix(raws@, i as int).len(),
                    forall|j: int|
                        0 <= j < fields_prefix(raws@, i as int).len() ==> challenge_matches_raw(
                            #[trigger] out@[j],
                            fields_prefix(raws@, i as int)[j],
                        ),
                decreases n - i,
            {
                let ghost prev = out@;
                match BearerChallenge::from_raw(&raws[i]) {
                    Some(c) => {
                        out.push(c);
                        proof {
                            assert(fields_prefix(raws@, i + 1) =~= fields_prefix(raws@, i as int)
                                + seq![raws@[i as int]]);
                        }
                    },
                    None => {
                        proof {
                            assert(fields_prefix(raws@, i + 1) =~= fields_prefix(raws@, i as int));
                        }
                    },
                }
                i += 1;
            }
            Ok(out)
        },
    }
}

/// The token a realm's JSON answer carries, as a function of the text: the
/// `token` field, with `access_token` accepted as its synonym when `token`
/// is absent.
pub uninterp spec fn token_of(s: Seq<char>) -> Option<Token>;

/// Relies on serde_json::from_str and the Value accessors: the token read
/// from a realm's JSON answer is a function of the text alone. One of
/// `token` and `access_token` is required (the latter is the OAuth 2.0
/// synonym); the other fields are optional.
#[verifier::external_body]
fn parse_token(s: &str) -> (r: Result<Token, serde_json::Error>)
    ensures
        match r {
            Ok(t) => token_of(s@) == Some(t),
            Err(_) => token_of(s@) is None,
        },
{
    let v: serde_json::Value = match serde_json::from_str(s) { Ok(v) => v, Err(e) => return Err(e) };
    let token = match v.get("token").and_then(serde_json::Value::as_str)
        .or_else(|| v.get("access_token").and_then(serde_json::Value::as_str)) {
        Some(t) => t.to_string(),
        None => return Err(<serde_json::Error as serde::de::Error>::custom("token missing")),
    };
    let expires_in = v.get("expires_in").and_then(serde_json::Value::as_u64);
    let issued_at = v.get("issued_at").and_then(serde_json::Value::as_str).map(str::to_string);
    let refresh = v.get("refresh_token").and_then(serde_json::Value::as_str).map(str::to_string);
    Ok(Token { token, expires_in, issued_at, refresh_token: refresh })
}

/// The unauthenticated GET a challenge calls for: the realm, and one
/// `scope=<value>` pair per scope followed by `service=<value>` when the
/// challenge names a service.
#[derive(Debug)]
pub struct TokenRequest {
    pub realm: String,
    pub query: Vec<(String, String)>,
}

/// How many query pairs a challenge's scopes contribute.
pub open spec fn scope_count(c: BearerChallenge) -> int {
    match c.scopes {
        Some(sc) => sc.len() as int,
        None => 0,
    }
}

/// Plan the token request for one challenge. A challenge without a realm
/// cannot be attempted.
pub fn token_request(chall: &BearerChallenge) -> (r: Result<TokenRequest, RegistryError>)
    ensures
        match r {
            Ok(t) => {
                &&& chall.realm matches Some(re) && t.realm@ == re@
                &&& t.query@.len() == scope_count(*chall) + if chall.service is Some {
                    1int
                } else {
                    0int
                }
                &&& forall|i: int|
                    0 <= i < scope_count(*chall) ==> (#[trigger] t.query@[i]).0@ == "scope"@
                        && t.query@[i].1@ == chall.scopes.unwrap()@[i]@
                &&& chall.service matches Some(svc) ==> t.query@[scope_count(*chall)].0@
                    == "service"@ && t.query@[scope_count(*chall)].1@ == svc@
            },
            Err(e) => chall.realm is None && e matches
                RegistryError::InvalidAuthenticationChallenge(_),
        },
{
    let realm = match &chall.realm {
        Some(re) => re.clone(),
        None => {
            return Err(
                RegistryError::InvalidAuthenticationChallenge("No Realm provided".to_owned()),
            );
        },
    };
    let mut query: Vec<(String, String)> = Vec::new();
    match &chall.scopes {
        Some(sc) => {
            let n = sc.len();
            let mut i: usize = 0;
            while i < n
                invariant
                    i <= n,
                    n == sc@.len(),
                    chall.scopes matches Some(s) && s@ == sc@,
                    query@.len() == i,
                    forall|j: int|
                        0 <= j < i ==> (#[trigger] query@[j]).0@ == "scope"@ && query@[j].1@
                            == sc@[j]@,
                decreases n - i,
            {
                query.push((String::from_str("scope"), sc[i].clone()));
                i += 1;
            }
        },
        None => {},
    }
    match &chall.service {
        Some(svc) => {
            query.push((String::from_str("service"), svc.clone()));
        },
        None => {},
    }
    Ok(TokenRequest { realm, query })
}

/// Does an HTTP status report success?
pub open spec fn status_is_success(status: u16) -> bool {
    200 <= status < 300
}

/// Decide whether an HTTP status reports success.
pub fn is_success_status(status: u16) -> (r: bool)
    ensures
        r == status_is_success(status),
{
    200 <= status && status < 300
}

/// Judge a realm's answer to a token request: a non-success status means the
/// token could not be had, and a success body must parse as a token.
pub fn handle_token_response(status: u16, body: &str) -> (r: Result<Token, RegistryError>)
    ensures
        !status_is_success(status) ==> (r matches Err(RegistryError::CouldNotGetToken(s)) && s
            == status),
        status_is_success(status) ==> match token_of(body@) {
            Some(t) => r == Ok::<Token, RegistryError>(t),
            None => r matches Err(RegistryError::ReqwestError(_)),
        },
{
    if !(200 <= status && status < 300) {
        return Err(RegistryError::CouldNotGetToken(status));
    }
    match parse_token(body) {
        Ok(t) => Ok(t),
        Err(_) => Err(RegistryError::ReqwestError("could not decode token response".to_owned())),
    }
}

/// The successful tokens among the first `i` outcomes.
pub open spec fn oks_prefix(results: Seq<Result<Token, RegistryError>>, i: int) -> Seq<Token>
    decreases i,
{
    if i <= 0 {
        seq![]
    } else {
        oks_prefix(results, i - 1) + (match results[i - 1] {
            Ok(t) => seq![t],
            Err(_) => seq![],
        })
    }
}

/// Clone a token, value for value.
fn clone_token(t: &Token) -> (r: Token)
    ensures
        r == *t,
{
    Token {
        token: t.token.clone(),
        expires_in: t.expires_in,
        issued_at: clone_opt_string(&t.issued_at),
        refresh_token: clone_opt_string(&t.refresh_token),
    }
}

/// Collect the credentials of the challenges that succeeded; per-challenge
/// failures are dropped, not surfaced.
pub fn collect_credentials(results: &Vec<Result<Token, RegistryError>>) -> (r: Vec<Credential>)
    ensures
        r@.len() == oks_prefix(results@, results@.len() as int).len(),
        forall|j: int|
            0 <= j < r@.len() ==> #[trigger] r@[j] == Credential::Token(
                oks_prefix(results@, results@.len() as int)[j],
            ),
{
    let mut out: Vec<Credential> = Vec::new();
    let n = results.len();
    let mut idx: usize = 0;
    while idx < n
        invariant
            idx <= n,
            n == results@.len(),
            out@.len() == oks_prefix(results@, idx as int).len(),
            forall|j: int|
                0 <= j < out@.len() ==> #[trigger] out@[j] == Credential::Token(
                    oks_prefix(results@, idx as int)[j],
                ),
        decreases n - idx,
    {
        match &results[idx] {
            Ok(t) => {
                out.push(Credential::Token(clone_token(t)));
                proof {
                    assert(oks_prefix(results@, idx + 1) =~= oks_prefix(results@, idx as int)
                        + seq![results@[idx as int].unwrap()]);
                }
            },
            Err(_) => {
                proof {
                    assert(oks_prefix(results@, idx + 1) =~= oks_prefix(results@, idx as int));
                }
            },
        }
        idx += 1;
    }
    out
}

impl Credential {
    /// The `Authorization` header value this credential presents.
    pub fn authorization_value(&self) -> (r: String)
        ensures
            match *self {
                Credential::Token(t) => r@ == "Bearer "@ + t.token@,
            },
    {
        match self {
            Credential::Token(t) => {
                let mut s = String::from_str("Bearer ");
                s.append(t.token.as_str());
                s
            },
        }
    }
}

} // verus!
