//! OpenID Connect: the provider configuration and the checks on verified
//! ID-token claims that bind a login to its issuer, audience, nonce and time.
//!
//! Instants are whole seconds since the Unix epoch; URLs are held as their
//! serialization.

use vstd::prelude::*;
use vstd::utf8::encode_utf8;
use vstd::string::StringSliceAdditionalSpecFns;
use crate::digest::{constant_time_eq, sha256, sha256_of};
use crate::text::{
    chars_of, char_is_white_space, hex_encode, hex_lower, is_white_space, push_chars, push_str,
    str_eq, string_from_chars,
};

verus! {

#[derive(Debug, Clone, PartialEq, Eq)]
pub struct OidcProviderConfig {
    pub issuer: String,
    pub authorization_endpoint: String,
    pub token_endpoint: String,
    pub jwks_uri: String,
    pub client_id: String,
    pub redirect_uri: String,
    pub scopes: Vec<String>,
    pub clock_skew_seconds: i64,
    pub max_token_age_seconds: i64,
}

#[derive(Debug, Clone, PartialEq, Eq)]
pub enum OidcAudience {
    One(String),
    Many(Vec<String>),
}

#[derive(Debug, Clone, PartialEq, Eq)]
pub struct VerifiedOidcClaims {
    pub iss: String,
    pub sub: String,
    pub aud: OidcAudience,
    pub azp: Option<String>,
    pub exp: i64,
    pub iat: i64,
    pub nonce: String,
    pub name: Option<String>,
    pub preferred_username: Option<String>,
}

#[derive(Debug, Clone, PartialEq, Eq)]
pub struct OidcIdentity {
    pub subject_id: String,
    pub display_name: String,
}

/// Why a login's claims are refused.
#[derive(Debug, Clone, Copy, PartialEq, Eq)]
pub enum OidcClaimsError {
    IssuerMismatch,
    AudienceEmpty,
    AudienceMismatch,
    AudiencesNotUnique,
    AzpRequired,
    AzpMismatch,
    NonceMismatch,
    SubjectInvalid,
    Expired,
    IssuedInFuture,
    TooOld,
    LifetimeInvalid,
    LifetimeTooLong,
    DisplayNameMissing,
    DisplayNameInvalid,
}

impl OidcClaimsError {
    /// The human-readable text of the error.
    pub open spec fn spec_message(self) -> Seq<char> {
        match self {
            OidcClaimsError::IssuerMismatch => "OIDC issuer mismatch"@,
            OidcClaimsError::AudienceEmpty => "OIDC audience is empty"@,
            OidcClaimsError::AudienceMismatch => "OIDC audience mismatch"@,
            OidcClaimsError::AudiencesNotUnique => "OIDC audiences must be unique"@,
            OidcClaimsError::AzpRequired => "OIDC azp is required for multiple audiences"@,
            OidcClaimsError::AzpMismatch => "OIDC azp mismatch"@,
            OidcClaimsError::NonceMismatch => "OIDC nonce mismatch"@,
            OidcClaimsError::SubjectInvalid => "OIDC subject is invalid"@,
            OidcClaimsError::Expired => "OIDC token is expired"@,
            OidcClaimsError::IssuedInFuture => "OIDC token was issued in the future"@,
            OidcClaimsError::TooOld => "OIDC token is older than the configured maximum"@,
            OidcClaimsError::LifetimeInvalid => "OIDC token lifetime is invalid"@,
            OidcClaimsError::LifetimeTooLong => "OIDC token lifetime exceeds the configured maximum"@,
            OidcClaimsError::DisplayNameMissing => "OIDC display name claim is missing"@,
            OidcClaimsError::DisplayNameInvalid => "OIDC display name must contain 1..=80 printable characters"@,
        }
    }

    pub fn message(self) -> (r: &'static str)
        ensures
            r@ == self.spec_message(),
    {
        match self {
            OidcClaimsError::IssuerMismatch => "OIDC issuer mismatch",
            OidcClaimsError::AudienceEmpty => "OIDC audience is empty",
            OidcClaimsError::AudienceMismatch => "OIDC audience mismatch",
            OidcClaimsError::AudiencesNotUnique => "OIDC audiences must be unique",
            OidcClaimsError::AzpRequired => "OIDC azp is required for multiple audiences",
            OidcClaimsError::AzpMismatch => "OIDC azp mismatch",
            OidcClaimsError::NonceMismatch => "OIDC nonce mismatch",
            OidcClaimsError::SubjectInvalid => "OIDC subject is invalid",
            OidcClaimsError::Expired => "OIDC token is expired",
            OidcClaimsError::IssuedInFuture => "OIDC token was issued in the future",
            OidcClaimsError::TooOld => "OIDC token is older than the configured maximum",
            OidcClaimsError::LifetimeInvalid => "OIDC token lifetime is invalid",
            OidcClaimsError::LifetimeTooLong => "OIDC token lifetime exceeds the configured maximum",
            OidcClaimsError::DisplayNameMissing => "OIDC display name claim is missing",
            OidcClaimsError::DisplayNameInvalid =>
                "OIDC display name must contain 1..=80 printable characters",
        }
    }
}

/// The audiences a token names, in order.
pub open spec fn audiences(aud: OidcAudience) -> Seq<Seq<char>> {
    match aud {
        OidcAudience::One(v) => seq![v@],
        OidcAudience::Many(vs) => vs@.map_values(|s: String| s@),
    }
}

/// No audience is named twice.
pub open spec fn all_distinct(xs: Seq<Seq<char>>) -> bool {
    forall|i: int, j: int| 0 <= i < j < xs.len() ==> #[trigger] xs[i] != #[trigger] xs[j]
}

/// An ASCII control byte.
pub open spec fn is_control_byte(b: u8) -> bool {
    b < 0x20 || b == 0x7f
}

/// A subject: 1..=255 bytes, none of them an ASCII control byte.
pub open spec fn is_valid_subject(s: Seq<char>) -> bool {
    let b = encode_utf8(s);
    s.len() > 0 && b.len() <= 255 && forall|i: int| 0 <= i < b.len() ==> !is_control_byte(#[trigger] b[i])
}

/// A Unicode control character (general category Cc).
pub open spec fn is_control_char(c: char) -> bool {
    let n = c as u32;
    n <= 0x1f || (0x7f <= n && n <= 0x9f)
}

/// A display name: something besides white space, at most 80 characters, no control character.
pub open spec fn is_valid_display_name(s: Seq<char>) -> bool {
    &&& exists|i: int| 0 <= i < s.len() && !is_white_space(#[trigger] s[i])
    &&& s.len() <= 80
    &&& forall|i: int| 0 <= i < s.len() ==> !is_control_char(#[trigger] s[i])
}

/// The stable, non-reversible subject id of an issuer and subject: `oidc:`,
/// the first 16 hex digits of the issuer's SHA-256, `:`, and the first 32
/// of the subject's.
pub open spec fn stable_subject_id_of(issuer: Seq<char>, subject: Seq<char>) -> Seq<char> {
    "oidc:"@ + hex_lower(sha256_of(encode_utf8(issuer))).take(16) + ":"@ + hex_lower(
        sha256_of(encode_utf8(subject)),
    ).take(32)
}

/// The display name a token offers: its name, else its preferred user name.
pub open spec fn offered_name(claims: VerifiedOidcClaims) -> Option<Seq<char>> {
    match claims.name {
        Some(n) => Some(n@),
        None => match claims.preferred_username {
            Some(u) => Some(u@),
            None => None,
        },
    }
}

/// The display name a token offers is its name claim whenever it carries
/// one; its preferred user name stands in only when there is no name, and a
/// token with neither offers none.
pub proof fn lemma_display_name_prefers_name(claims: VerifiedOidcClaims)
    ensures
        claims.name matches Some(n) ==> offered_name(claims) == Some(n@),
        claims.name is None ==> (claims.preferred_username matches Some(u) ==> offered_name(claims)
            == Some(u@)),
        claims.name is None && claims.preferred_username is None ==> offered_name(claims) is None,
{
}

impl OidcProviderConfig {
    /// Why verified claims are refused at `now`, in the order the checks run.
    pub open spec fn claims_error(
        self,
        claims: VerifiedOidcClaims,
        expected_nonce: Seq<char>,
        now: i64,
    ) -> Option<OidcClaimsError> {
        let auds = audiences(claims.aud);
        let skew = self.clock_skew_seconds as int;
        let max_age = self.max_token_age_seconds as int;
        if claims.iss@ != self.issuer@ {
            Some(OidcClaimsError::IssuerMismatch)
        } else if auds.len() == 0 {
            Some(OidcClaimsError::AudienceEmpty)
        } else if !auds.contains(self.client_id@) {
            Some(OidcClaimsError::AudienceMismatch)
        } else if !all_distinct(auds) {
            Some(OidcClaimsError::AudiencesNotUnique)
        } else if auds.len() > 1 && !(claims.azp matches Some(a) && a@ == self.client_id@) {
            Some(OidcClaimsError::AzpRequired)
        } else if claims.azp matches Some(a) && a@ != self.client_id@ {
            Some(OidcClaimsError::AzpMismatch)
        } else if encode_utf8(expected_nonce).len() < 32 || encode_utf8(claims.nonce@)
            != encode_utf8(expected_nonce) {
            Some(OidcClaimsError::NonceMismatch)
        } else if !is_valid_subject(claims.sub@) {
            Some(OidcClaimsError::SubjectInvalid)
        } else if claims.exp < now - skew {
            Some(OidcClaimsError::Expired)
        } else if claims.iat > now + skew {
            Some(OidcClaimsError::IssuedInFuture)
        } else if now - claims.iat > max_age + skew {
            Some(OidcClaimsError::TooOld)
        } else if claims.exp <= claims.iat {
            Some(OidcClaimsError::LifetimeInvalid)
        } else if claims.exp - claims.iat > max_age + 2 * skew {
            Some(OidcClaimsError::LifetimeTooLong)
        } else if offered_name(claims) is None {
            Some(OidcClaimsError::DisplayNameMissing)
        } else if !is_valid_display_name(offered_name(claims)->0) {
            Some(OidcClaimsError::DisplayNameInvalid)
        } else {
            None
        }
    }
}

fn audience_list(aud: &OidcAudience) -> (r: Vec<&str>)
    ensures
        r@.map_values(|s: &str| s@) == audiences(*aud),
{
    let mut out: Vec<&str> = Vec::new();
    match aud {
        OidcAudience::One(v) => {
            out.push(v.as_str());
            assert(out@.map_values(|s: &str| s@) =~= audiences(*aud));
        },
        OidcAudience::Many(vs) => {
            let mut i: usize = 0;
            while i < vs.len()
                invariant
                    i <= vs@.len(),
                    out@.len() == i,
                    forall|k: int| 0 <= k < i ==> (#[trigger] out@[k])@ == vs@[k]@,
                decreases vs.len() - i,
            {
                let t = vs[i].as_str();
                out.push(t);
                i = i + 1;
            }
            assert(out@.map_values(|s: &str| s@) =~= vs@.map_values(|s: String| s@));
        },
    }
    out
}

fn contains_text(xs: &Vec<&str>, v: &str) -> (r: bool)
    ensures
        r == xs@.map_values(|s: &str| s@).contains(v@),
{
    let ghost view = xs@.map_values(|s: &str| s@);
    let mut i: usize = 0;
    while i < xs.len()
        invariant
            i <= xs@.len(),
            view == xs@.map_values(|s: &str| s@),
            forall|j: int| 0 <= j < i ==> view[j] != v@,
        decreases xs.len() - i,
    {
        if str_eq(xs[i], v) {
            assert(view[i as int] == v@);
            return true;
        }
        i = i + 1;
    }
    false
}

fn distinct_texts(xs: &Vec<&str>) -> (r: bool)
    ensures
        r == all_distinct(xs@.map_values(|s: &str| s@)),
{
    let ghost view = xs@.map_values(|s: &str| s@);
    let mut i: usize = 0;
    while i < xs.len()
        invariant
            i <= xs@.len(),
            view == xs@.map_values(|s: &str| s@),
            forall|a: int, b: int| 0 <= a < b < xs@.len() && a < i ==> #[trigger] view[a] != #[trigger] view[b],
        decreases xs.len() - i,
    {
        let mut j: usize = i + 1;
        while j < xs.len()
            invariant
                i < xs@.len(),
                i + 1 <= j <= xs@.len(),
                view == xs@.map_values(|s: &str| s@),
                forall|a: int, b: int| 0 <= a < b < xs@.len() && a < i ==> #[trigger] view[a] != #[trigger] view[b],
                forall|b: int| i < b < j ==> view[i as int] != #[trigger] view[b],
            decreases xs.len() - j,
        {
            if str_eq(xs[i], xs[j]) {
                assert(view[i as int] == view[j as int]);
                return false;
            }
            j = j + 1;
        }
        i = i + 1;
    }
    true
}

pub fn validate_subject(subject: &str) -> (r: bool)
    ensures
        r == is_valid_subject(subject@),
{
    let b = subject.as_bytes();
    if subject.is_empty() || b.len() > 255 {
        return false;
    }
    let mut i: usize = 0;
    while i < b.len()
        invariant
            i <= b@.len(),
            b@ == encode_utf8(subject@),
            forall|j: int| 0 <= j < i ==> !is_control_byte(#[trigger] b@[j]),
        decreases b.len() - i,
    {
        if b[i] < 0x20 || b[i] == 0x7f {
            return false;
        }
        i = i + 1;
    }
    true
}

pub fn validate_display_name(value: &str) -> (r: bool)
    ensures
        r == is_valid_display_name(value@),
{
    let v = chars_of(value);
    if v.len() > 80 {
        return false;
    }
    let mut printable = false;
    let mut i: usize = 0;
    while i < v.len()
        invariant
            i <= v@.len(),
            v@ == value@,
            forall|j: int| 0 <= j < i ==> !is_control_char(#[trigger] v@[j]),
            printable <==> exists|j: int| 0 <= j < i && !is_white_space(#[trigger] v@[j]),
        decreases v.len() - i,
    {
        let n: u32 = v[i] as u32;
        if n <= 0x1f || (0x7f <= n && n <= 0x9f) {
            return false;
        }
        if !char_is_white_space(v[i]) {
            printable = true;
        }
        i = i + 1;
    }
    printable
}

/// The subject id that identifies a login without revealing the subject.
pub fn stable_subject_id(issuer: &str, subject: &str) -> (r: String)
    ensures
        r@ == stable_subject_id_of(issuer@, subject@),
{
    let issuer_hash = hex_encode(sha256(issuer.as_bytes()).as_slice());
    let subject_hash = hex_encode(sha256(subject.as_bytes()).as_slice());
    proof {
        crate::text::lemma_hex_lower_len(sha256_of(encode_utf8(issuer@)));
        crate::text::lemma_hex_lower_len(sha256_of(encode_utf8(subject@)));
    }
    let mut out: Vec<char> = Vec::new();
    push_str(&mut out, "oidc:");
    let mut i: usize = 0;
    let ghost before = out@;
    while i < 16
        invariant
            i <= 16,
            issuer_hash@.len() == 64,
            out@ == before + issuer_hash@.take(i as int),
        decreases 16 - i,
    {
        out.push(issuer_hash[i]);
        i = i + 1;
        assert(out@ =~= before + issuer_hash@.take(i as int));
    }
    push_str(&mut out, ":");
    let ghost middle = out@;
    let mut j: usize = 0;
    while j < 32
        invariant
            j <= 32,
            subject_hash@.len() == 64,
            out@ == middle + subject_hash@.take(j as int),
        decreases 32 - j,
    {
        out.push(subject_hash[j]);
        j = j + 1;
        assert(out@ =~= middle + subject_hash@.take(j as int));
    }
    assert(out@ =~= stable_subject_id_of(issuer@, subject@));
    string_from_chars(&out)
}

} // verus!

verus! {

impl OidcProviderConfig {
    /// Binds verified ID-token claims to this provider: issuer, audience
    /// (with `azp` for several audiences), nonce (compared in constant time),
    /// subject, issue and expiry times within the clock skew and maximum
    /// age, and a printable display name. The identity it returns names the
    /// login by a hash of issuer and subject.
    pub fn validate_verified_claims(
        &self,
        claims: &VerifiedOidcClaims,
        expected_nonce: &str,
        now: i64,
    ) -> (r: Result<OidcIdentity, OidcClaimsError>)
        ensures
            match self.claims_error(*claims, expected_nonce@, now) {
                Some(e) => r == Err::<OidcIdentity, OidcClaimsError>(e),
                None => r matches Ok(id) && id.subject_id@ == stable_subject_id_of(
                    claims.iss@,
                    claims.sub@,
                ) && Some(id.display_name@) == offered_name(*claims),
            },
            r matches Ok(id) ==> match claims.name {
                Some(n) => id.display_name@ == n@,
                None => claims.preferred_username matches Some(u) && id.display_name@ == u@,
            },
    {
        proof {
            lemma_display_name_prefers_name(*claims);
        }
        if !str_eq(claims.iss.as_str(), self.issuer.as_str()) {
            return Err(OidcClaimsError::IssuerMismatch);
        }
        let auds = audience_list(&claims.aud);
        if auds.len() == 0 {
            return Err(OidcClaimsError::AudienceEmpty);
        }
        if !contains_text(&auds, self.client_id.as_str()) {
            return Err(OidcClaimsError::AudienceMismatch);
        }
        if !distinct_texts(&auds) {
            return Err(OidcClaimsError::AudiencesNotUnique);
        }
        let azp_is_client = match &claims.azp {
            Some(a) => str_eq(a.as_str(), self.client_id.as_str()),
            None => false,
        };
        if auds.len() > 1 && !azp_is_client {
            return Err(OidcClaimsError::AzpRequired);
        }
        if claims.azp.is_some() && !azp_is_client {
            return Err(OidcClaimsError::AzpMismatch);
        }
        let nonce: &str = claims.nonce.as_str();
        let nonce_bytes = nonce.as_bytes();
        let expected_bytes = expected_nonce.as_bytes();
        assert(nonce@ == claims.nonce@);
        assert(nonce_bytes@ == encode_utf8(claims.nonce@));
        assert(expected_bytes@ == encode_utf8(expected_nonce@));
        if expected_bytes.len() < 32 || nonce_bytes.len() != expected_bytes.len()
            || !constant_time_eq(nonce_bytes, expected_bytes) {
            return Err(OidcClaimsError::NonceMismatch);
        }
        if !validate_subject(claims.sub.as_str()) {
            return Err(OidcClaimsError::SubjectInvalid);
        }
        let now_w = now as i128;
        let skew = self.clock_skew_seconds as i128;
        let max_age = self.max_token_age_seconds as i128;
        let exp = claims.exp as i128;
        let iat = claims.iat as i128;
        if exp < now_w - skew {
            return Err(OidcClaimsError::Expired);
        }
        if iat > now_w + skew {
            return Err(OidcClaimsError::IssuedInFuture);
        }
        if now_w - iat > max_age + skew {
            return Err(OidcClaimsError::TooOld);
        }
        if exp <= iat {
            return Err(OidcClaimsError::LifetimeInvalid);
        }
        if exp - iat > max_age + 2 * skew {
            return Err(OidcClaimsError::LifetimeTooLong);
        }
        let display_name: &str = match &claims.name {
            Some(n) => n.as_str(),
            None => match &claims.preferred_username {
                Some(u) => u.as_str(),
                None => {
                    return Err(OidcClaimsError::DisplayNameMissing);
                },
            },
        };
        if !validate_display_name(display_name) {
            return Err(OidcClaimsError::DisplayNameInvalid);
        }
        Ok(
            OidcIdentity {
                subject_id: stable_subject_id(claims.iss.as_str(), claims.sub.as_str()),
                display_name: display_name.to_owned(),
            },
        )
    }
}

} // verus!

verus! {

/// The provider settings as the configuration file spells them.
#[derive(Debug, Clone, PartialEq, Eq)]
pub struct OidcProviderConfigInput {
    pub issuer: String,
    pub authorization_endpoint: String,
    pub token_endpoint: String,
    pub jwks_uri: String,
    pub client_id: String,
    pub redirect_uri: String,
    pub scopes: Vec<String>,
    pub clock_skew_seconds: i64,
    pub max_token_age_seconds: i64,
}

/// What `url::Url::parse` makes of a text, as far as the checks read it.
#[derive(Debug, Clone, PartialEq, Eq)]
pub struct UrlParts {
    pub serialization: String,
    pub scheme: String,
    pub cannot_be_a_base: bool,
    pub username: String,
    pub password: Option<String>,
    pub query: Option<String>,
    pub fragment: Option<String>,
    pub host: Option<String>,
}

/// The view of optional text.
pub open spec fn opt_view(o: Option<String>) -> Option<Seq<char>> {
    match o {
        Some(s) => Some(s@),
        None => None,
    }
}

/// `url::Url::parse` of a text: serialization, scheme, whether it cannot be
/// a base, user name, password, query, fragment and host; `None` when the
/// text is not a URL.
pub uninterp spec fn url_parse_of(raw: Seq<char>) -> Option<
    (
        Seq<char>,
        Seq<char>,
        bool,
        Seq<char>,
        Option<Seq<char>>,
        Option<Seq<char>>,
        Option<Seq<char>>,
        Option<Seq<char>>,
    ),
>;

/// The serialization of `url::Url::join` of a relative reference onto a
/// parsed base URL; `None` when the base does not parse or the join fails.
pub uninterp spec fn url_join_of(base: Seq<char>, relative: Seq<char>) -> Option<Seq<char>>;

impl UrlParts {
    pub open spec fn spec_tuple(self) -> (
        Seq<char>,
        Seq<char>,
        bool,
        Seq<char>,
        Option<Seq<char>>,
        Option<Seq<char>>,
        Option<Seq<char>>,
        Option<Seq<char>>,
    ) {
        (
            self.serialization@,
            self.scheme@,
            self.cannot_be_a_base,
            self.username@,
            opt_view(self.password),
            opt_view(self.query),
            opt_view(self.fragment),
            opt_view(self.host),
        )
    }
}

/// `url::Url::parse`, read out into plain parts; its result is named by `url_parse_of`.
#[verifier::external_body]
pub(crate) fn parse_url(raw: &str) -> (r: Option<UrlParts>)
    ensures
        match r {
            Some(p) => url_parse_of(raw@) == Some(p.spec_tuple()),
            None => url_parse_of(raw@) is None,
        },
{
    let url = url::Url::parse(raw).ok()?;
    Some(UrlParts {
        serialization: url.as_str().to_owned(),
        scheme: url.scheme().to_owned(),
        cannot_be_a_base: url.cannot_be_a_base(),
        username: url.username().to_owned(),
        password: url.password().map(str::to_owned),
        query: url.query().map(str::to_owned),
        fragment: url.fragment().map(str::to_owned),
        host: url.host_str().map(str::to_owned),
    })
}

/// `url::Url::parse` of the base followed by `Url::join`; its result is named by `url_join_of`.
#[verifier::external_body]
fn join_url(base: &str, relative: &str) -> (r: Option<String>)
    ensures
        opt_view(r) == url_join_of(base@, relative@),
{
    let joined = url::Url::parse(base).ok()?.join(relative).ok()?;
    Some(joined.as_str().to_owned())
}

/// Why a provider configuration is refused.
#[derive(Debug, Clone, Copy, PartialEq, Eq)]
pub enum OidcConfigError {
    UrlInvalid(&'static str),
    UrlNotPlainHttps(&'static str),
    OpaqueInvalid(&'static str),
    RedirectInvalid,
    CallbackUnformable,
    RedirectMismatch,
    RedirectNotHttps,
    ScopeCount,
    ScopesInvalid,
    ScopesMissingOpenid,
    ClockSkewRange,
    MaxAgeRange,
}

impl OidcConfigError {
    /// The human-readable text of the error.
    pub open spec fn spec_message(self) -> Seq<char> {
        match self {
            OidcConfigError::UrlInvalid(field) => field@ + " is invalid"@,
            OidcConfigError::UrlNotPlainHttps(field) => field@ + " must be a plain HTTPS URL"@,
            OidcConfigError::OpaqueInvalid(field) => field@ + " must be an opaque ASCII identifier"@,
            OidcConfigError::RedirectInvalid => "redirect_uri is invalid"@,
            OidcConfigError::CallbackUnformable => "public origin cannot form an OIDC callback"@,
            OidcConfigError::RedirectMismatch => "redirect_uri must equal the public origin OIDC callback"@,
            OidcConfigError::RedirectNotHttps => "redirect_uri must use HTTPS except on loopback"@,
            OidcConfigError::ScopeCount => "OIDC scopes must contain 1..=16 entries"@,
            OidcConfigError::ScopesInvalid => "OIDC scopes must be unique opaque ASCII tokens"@,
            OidcConfigError::ScopesMissingOpenid => "OIDC scopes must include openid"@,
            OidcConfigError::ClockSkewRange => "clock_skew_seconds must be in 0..=120"@,
            OidcConfigError::MaxAgeRange => "max_token_age_seconds must be in 60..=900"@,
        }
    }

    pub fn message(self) -> (r: String)
        ensures
            r@ == self.spec_message(),
    {
        let mut out: Vec<char> = Vec::new();
        match self {
            OidcConfigError::UrlInvalid(field) => {
                push_str(&mut out, field);
                push_str(&mut out, " is invalid");
            },
            OidcConfigError::UrlNotPlainHttps(field) => {
                push_str(&mut out, field);
                push_str(&mut out, " must be a plain HTTPS URL");
            },
            OidcConfigError::OpaqueInvalid(field) => {
                push_str(&mut out, field);
                push_str(&mut out, " must be an opaque ASCII identifier");
            },
            OidcConfigError::RedirectInvalid => push_str(&mut out, "redirect_uri is invalid"),
            OidcConfigError::CallbackUnformable => push_str(
                &mut out,
                "public origin cannot form an OIDC callback",
            ),
            OidcConfigError::RedirectMismatch => push_str(
                &mut out,
                "redirect_uri must equal the public origin OIDC callback",
            ),
            OidcConfigError::RedirectNotHttps => push_str(
                &mut out,
                "redirect_uri must use HTTPS except on loopback",
            ),
            OidcConfigError::ScopeCount => push_str(&mut out, "OIDC scopes must contain 1..=16 entries"),
            OidcConfigError::ScopesInvalid => push_str(
                &mut out,
                "OIDC scopes must be unique opaque ASCII tokens",
            ),
            OidcConfigError::ScopesMissingOpenid => push_str(&mut out, "OIDC scopes must include openid"),
            OidcConfigError::ClockSkewRange => push_str(&mut out, "clock_skew_seconds must be in 0..=120"),
            OidcConfigError::MaxAgeRange => push_str(
                &mut out,
                "max_token_age_seconds must be in 60..=900",
            ),
        }
        string_from_chars(&out)
    }
}

/// A plain HTTPS URL: https scheme, a base, no credentials, query or fragment.
pub open spec fn is_plain_https(
    p: (
        Seq<char>,
        Seq<char>,
        bool,
        Seq<char>,
        Option<Seq<char>>,
        Option<Seq<char>>,
        Option<Seq<char>>,
        Option<Seq<char>>,
    ),
) -> bool {
    let (_, scheme, cannot_be_a_base, username, password, query, fragment, _) = p;
    scheme == "https"@ && !cannot_be_a_base && username.len() == 0 && password is None && query is None
        && fragment is None
}

/// Why a field is not a plain HTTPS URL.
pub open spec fn https_url_error(field: &'static str, raw: Seq<char>) -> Option<OidcConfigError> {
    match url_parse_of(raw) {
        None => Some(OidcConfigError::UrlInvalid(field)),
        Some(p) => if is_plain_https(p) {
            None
        } else {
            Some(OidcConfigError::UrlNotPlainHttps(field))
        },
    }
}

/// A byte of an opaque ASCII token: letter, digit, `.`, `_`, `:` or `-`.
pub open spec fn is_opaque_byte(b: u8) -> bool {
    (48 <= b && b <= 57) || (65 <= b && b <= 90) || (97 <= b && b <= 122) || b == 46 || b == 95
        || b == 58 || b == 45
}

pub open spec fn is_opaque(s: Seq<char>, max: nat) -> bool {
    let b = encode_utf8(s);
    s.len() > 0 && b.len() <= max && forall|i: int| 0 <= i < b.len() ==> is_opaque_byte(#[trigger] b[i])
}

/// Why a scope list is refused: 1..=16 unique opaque tokens of at most 64
/// bytes, one of them `openid`.
pub open spec fn scopes_error(scopes: Seq<Seq<char>>) -> Option<OidcConfigError> {
    if scopes.len() == 0 || scopes.len() > 16 {
        Some(OidcConfigError::ScopeCount)
    } else if exists|i: int| 0 <= i < scopes.len() && !is_opaque(#[trigger] scopes[i], 64) {
        Some(OidcConfigError::ScopesInvalid)
    } else if !all_distinct(scopes) {
        Some(OidcConfigError::ScopesInvalid)
    } else if !scopes.contains("openid"@) {
        Some(OidcConfigError::ScopesMissingOpenid)
    } else {
        None
    }
}

/// A loopback host name.
pub open spec fn is_loopback_host(host: Option<Seq<char>>) -> bool {
    host == Some("localhost"@) || host == Some("127.0.0.1"@) || host == Some("::1"@)
}

/// Why a redirect URI is refused: it must parse, the public origin must
/// form a callback, the two must be equal, and the scheme must be HTTPS
/// (or HTTP on a loopback host).
pub open spec fn redirect_error(
    redirect: Option<
        (
            Seq<char>,
            Seq<char>,
            bool,
            Seq<char>,
            Option<Seq<char>>,
            Option<Seq<char>>,
            Option<Seq<char>>,
            Option<Seq<char>>,
        ),
    >,
    callback: Option<Seq<char>>,
) -> Option<OidcConfigError> {
    match redirect {
        None => Some(OidcConfigError::RedirectInvalid),
        Some((serialization, scheme, _, _, _, _, _, host)) => match callback {
            None => Some(OidcConfigError::CallbackUnformable),
            Some(expected) => if serialization != expected {
                Some(OidcConfigError::RedirectMismatch)
            } else if scheme != "https"@ && !(scheme == "http"@ && is_loopback_host(host)) {
                Some(OidcConfigError::RedirectNotHttps)
            } else {
                None
            },
        },
    }
}

/// Why a configuration is refused, in the order the checks run.
pub open spec fn config_error(input: OidcProviderConfigInput, public_origin: Seq<char>) -> Option<
    OidcConfigError,
> {
    let redirect = url_parse_of(input.redirect_uri@);
    let callback = url_join_of(public_origin, "oidc/callback"@);
    if https_url_error("issuer", input.issuer@) is Some {
        https_url_error("issuer", input.issuer@)
    } else if https_url_error("authorization_endpoint", input.authorization_endpoint@) is Some {
        https_url_error("authorization_endpoint", input.authorization_endpoint@)
    } else if https_url_error("token_endpoint", input.token_endpoint@) is Some {
        https_url_error("token_endpoint", input.token_endpoint@)
    } else if https_url_error("jwks_uri", input.jwks_uri@) is Some {
        https_url_error("jwks_uri", input.jwks_uri@)
    } else if !is_opaque(input.client_id@, 256) {
        Some(OidcConfigError::OpaqueInvalid("client_id"))
    } else if redirect_error(redirect, callback) is Some {
        redirect_error(redirect, callback)
    } else if scopes_error(input.scopes@.map_values(|s: String| s@)) is Some {
        scopes_error(input.scopes@.map_values(|s: String| s@))
    } else if !(0 <= input.clock_skew_seconds <= 120) {
        Some(OidcConfigError::ClockSkewRange)
    } else if !(60 <= input.max_token_age_seconds <= 900) {
        Some(OidcConfigError::MaxAgeRange)
    } else {
        None
    }
}

fn parse_https_url(field: &'static str, raw: &str) -> (r: Result<UrlParts, OidcConfigError>)
    ensures
        match https_url_error(field, raw@) {
            Some(e) => r == Err::<UrlParts, OidcConfigError>(e),
            None => r matches Ok(p) && url_parse_of(raw@) == Some(p.spec_tuple()),
        },
{
    let url = match parse_url(raw) {
        Some(u) => u,
        None => {
            return Err(OidcConfigError::UrlInvalid(field));
        },
    };
    if !str_eq(url.scheme.as_str(), "https") || url.cannot_be_a_base || !url.username.as_str().is_empty()
        || url.password.is_some() || url.query.is_some() || url.fragment.is_some() {
        return Err(OidcConfigError::UrlNotPlainHttps(field));
    }
    Ok(url)
}

pub fn validate_opaque(field: &'static str, value: &str, max: usize) -> (r: Result<
    (),
    OidcConfigError,
>)
    ensures
        r is Ok <==> is_opaque(value@, max as nat),
        r is Err ==> r == Err::<(), OidcConfigError>(OidcConfigError::OpaqueInvalid(field)),
{
    let b = value.as_bytes();
    if value.is_empty() || b.len() > max {
        return Err(OidcConfigError::OpaqueInvalid(field));
    }
    let mut i: usize = 0;
    while i < b.len()
        invariant
            i <= b@.len(),
            b@ == encode_utf8(value@),
            forall|j: int| 0 <= j < i ==> is_opaque_byte(#[trigger] b@[j]),
        decreases b.len() - i,
    {
        let c = b[i];
        if !((48 <= c && c <= 57) || (65 <= c && c <= 90) || (97 <= c && c <= 122) || c == 46
            || c == 95 || c == 58 || c == 45) {
            return Err(OidcConfigError::OpaqueInvalid(field));
        }
        i = i + 1;
    }
    Ok(())
}

pub fn validate_scopes(scopes: &Vec<String>) -> (r: Result<(), OidcConfigError>)
    ensures
        r == (match scopes_error(scopes@.map_values(|s: String| s@)) {
            Some(e) => Err(e),
            None => Ok(()),
        }),
{
    let ghost view = scopes@.map_values(|s: String| s@);
    if scopes.len() == 0 || scopes.len() > 16 {
        return Err(OidcConfigError::ScopeCount);
    }
    let mut texts: Vec<&str> = Vec::new();
    let mut i: usize = 0;
    while i < scopes.len()
        invariant
            i <= scopes@.len(),
            0 < scopes@.len() <= 16,
            view == scopes@.map_values(|s: String| s@),
            texts@.len() == i,
            forall|k: int| 0 <= k < i ==> (#[trigger] texts@[k])@ == view[k],
            forall|k: int| 0 <= k < i ==> is_opaque(#[trigger] view[k], 64),
        decreases scopes.len() - i,
    {
        let t = scopes[i].as_str();
        if validate_opaque("scope", t, 64).is_err() {
            assert(!is_opaque(view[i as int], 64));
            return Err(OidcConfigError::ScopesInvalid);
        }
        texts.push(t);
        i = i + 1;
    }
    assert(texts@.map_values(|s: &str| s@) =~= view);
    if !distinct_texts(&texts) {
        return Err(OidcConfigError::ScopesInvalid);
    }
    if !contains_text(&texts, "openid") {
        return Err(OidcConfigError::ScopesMissingOpenid);
    }
    Ok(())
}

fn is_loopback(host: &Option<String>) -> (r: bool)
    ensures
        r == is_loopback_host(opt_view(*host)),
{
    match host {
        Some(h) => str_eq(h.as_str(), "localhost") || str_eq(h.as_str(), "127.0.0.1") || str_eq(
            h.as_str(),
            "::1",
        ),
        None => false,
    }
}

fn copy_texts(v: &Vec<String>) -> (r: Vec<String>)
    ensures
        r@.map_values(|s: String| s@) == v@.map_values(|s: String| s@),
{
    let mut out: Vec<String> = Vec::new();
    let mut i: usize = 0;
    while i < v.len()
        invariant
            i <= v@.len(),
            out@.len() == i,
            forall|k: int| 0 <= k < i ==> (#[trigger] out@[k])@ == v@[k]@,
        decreases v.len() - i,
    {
        out.push(v[i].as_str().to_owned());
        i = i + 1;
    }
    assert(out@.map_values(|s: String| s@) =~= v@.map_values(|s: String| s@));
    out
}

impl OidcProviderConfig {
    /// The provider configuration, once every endpoint is a plain HTTPS URL,
    /// the client id is opaque, the redirect URI is the public origin's
    /// `oidc/callback` (HTTPS, or HTTP on loopback), the scopes are valid,
    /// the clock skew is at most two minutes and the token age 1..=15 minutes.
    pub fn from_input(input: &OidcProviderConfigInput, public_origin: &str) -> (r: Result<
        Self,
        OidcConfigError,
    >)
        ensures
            match config_error(*input, public_origin@) {
                Some(e) => r == Err::<Self, OidcConfigError>(e),
                None => r matches Ok(c) && {
                    &&& c.issuer@ == input.issuer@
                    &&& Some(c.authorization_endpoint@) == (match url_parse_of(
                        input.authorization_endpoint@,
                    ) {
                        Some((serialization, _, _, _, _, _, _, _)) => Some(serialization),
                        None => None,
                    })
                    &&& Some(c.token_endpoint@) == (match url_parse_of(input.token_endpoint@) {
                        Some((serialization, _, _, _, _, _, _, _)) => Some(serialization),
                        None => None,
                    })
                    &&& Some(c.jwks_uri@) == (match url_parse_of(input.jwks_uri@) {
                        Some((serialization, _, _, _, _, _, _, _)) => Some(serialization),
                        None => None,
                    })
                    &&& c.client_id@ == input.client_id@
                    &&& Some(c.redirect_uri@) == url_join_of(public_origin@, "oidc/callback"@)
                    &&& c.scopes@.map_values(|s: String| s@) == input.scopes@.map_values(
                        |s: String| s@,
                    )
                    &&& c.clock_skew_seconds == input.clock_skew_seconds
                    &&& c.max_token_age_seconds == input.max_token_age_seconds
                },
            },
    {
        parse_https_url("issuer", input.issuer.as_str())?;
        let authorization_endpoint = parse_https_url(
            "authorization_endpoint",
            input.authorization_endpoint.as_str(),
        )?;
        let token_endpoint = parse_https_url("token_endpoint", input.token_endpoint.as_str())?;
        let jwks_uri = parse_https_url("jwks_uri", input.jwks_uri.as_str())?;
        validate_opaque("client_id", input.client_id.as_str(), 256)?;
        let redirect_uri = match parse_url(input.redirect_uri.as_str()) {
            Some(u) => u,
            None => {
                return Err(OidcConfigError::RedirectInvalid);
            },
        };
        let expected = match join_url(public_origin, "oidc/callback") {
            Some(e) => e,
            None => {
                return Err(OidcConfigError::CallbackUnformable);
            },
        };
        if !str_eq(redirect_uri.serialization.as_str(), expected.as_str()) {
            return Err(OidcConfigError::RedirectMismatch);
        }
        if !str_eq(redirect_uri.scheme.as_str(), "https") && !(str_eq(
            redirect_uri.scheme.as_str(),
            "http",
        ) && is_loopback(&redirect_uri.host)) {
            return Err(OidcConfigError::RedirectNotHttps);
        }
        validate_scopes(&input.scopes)?;
        if !(0 <= input.clock_skew_seconds && input.clock_skew_seconds <= 120) {
            return Err(OidcConfigError::ClockSkewRange);
        }
        if !(60 <= input.max_token_age_seconds && input.max_token_age_seconds <= 900) {
            return Err(OidcConfigError::MaxAgeRange);
        }
        Ok(
            OidcProviderConfig {
                issuer: input.issuer.as_str().to_owned(),
                authorization_endpoint: authorization_endpoint.serialization,
                token_endpoint: token_endpoint.serialization,
                jwks_uri: jwks_uri.serialization,
                client_id: input.client_id.as_str().to_owned(),
                redirect_uri: redirect_uri.serialization,
                scopes: copy_texts(&input.scopes),
                clock_skew_seconds: input.clock_skew_seconds,
                max_token_age_seconds: input.max_token_age_seconds,
            },
        )
    }
}

/// An accepted login is bound to the configured issuer, names this client
/// as an audience (and as the authorized party whenever it names several),
/// carries exactly the nonce the login was started with, and holds a token
/// issued no later than `now` plus the clock skew, not expired before `now`
/// minus the skew, no older than the maximum age plus the skew, and
/// expiring after it was issued.
pub proof fn lemma_accepted_claims_are_bound(
    config: OidcProviderConfig,
    claims: VerifiedOidcClaims,
    expected_nonce: Seq<char>,
    now: i64,
)
    requires
        config.claims_error(claims, expected_nonce, now) is None,
    ensures
        claims.iss@ == config.issuer@,
        audiences(claims.aud).contains(config.client_id@),
        audiences(claims.aud).len() > 1 ==> (claims.azp matches Some(a) && a@ == config.client_id@),
        claims.nonce@ == expected_nonce,
        claims.exp >= now - config.clock_skew_seconds,
        claims.iat <= now + config.clock_skew_seconds,
        now - claims.iat <= config.max_token_age_seconds + config.clock_skew_seconds,
        claims.iat < claims.exp,
        is_valid_subject(claims.sub@),
{
    vstd::utf8::encode_utf8_decode_utf8(claims.nonce@);
    vstd::utf8::encode_utf8_decode_utf8(expected_nonce);
}

} // verus!
