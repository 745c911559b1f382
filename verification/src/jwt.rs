//! Issuing and checking of the bearer tokens (HS512 JSON web tokens).
//!
//! The claims travel as a JSON object that this module writes and reads
//! itself; signing, base64 and the expiry check are those of `jsonwebtoken`.
use vstd::prelude::*;
use vstd::string::*;
use crate::text::{
    dec, dec_value, digit_run_end, json_escape, json_quoted, json_unescape_at, lemma_dec,
    lemma_digit_run_of_numeral, lemma_json_unescape_escaped, push_decimal, push_json_string,
    read_json_string, read_u64, has_literal_at, JsonScalar, json_object_text, json_members_text,
    json_member_text, json_scalar_text, plain_key, plain_keys,
};

verus! {

/// Seconds of clock skew tolerated when checking the expiry of a token.
pub const TOKEN_LEEWAY_SECS: u64 = 1;

/// The claims a token carries.
#[derive(Debug)]
pub struct Claims {
    pub user_id: u32,
    pub username: String,
    pub iat: u64,
    pub exp: u64,
}

/// The claims as plain values.
pub struct ClaimsView {
    pub user_id: u32,
    pub username: Seq<char>,
    pub iat: u64,
    pub exp: u64,
}

impl View for Claims {
    type V = ClaimsView;

    open spec fn view(&self) -> ClaimsView {
        ClaimsView { user_id: self.user_id, username: self.username@, iat: self.iat, exp: self.exp }
    }
}

impl Claims {
    pub fn get_user_id(&self) -> (r: u32)
        ensures
            r == self.user_id,
    {
        self.user_id
    }

    pub fn get_user_name(&self) -> (r: &str)
        ensures
            r@ == self.username@,
    {
        self.username.as_str()
    }
}

/// The JSON text of the claims, fields in the order `user_id`, `username`,
/// `iat`, `exp`, without white space.
pub open spec fn claims_text(c: ClaimsView) -> Seq<char> {
    "{\"user_id\":"@ + dec(c.user_id as nat) + ",\"username\":"@ + json_quoted(c.username)
        + ",\"iat\":"@ + dec(c.iat as nat) + ",\"exp\":"@ + dec(c.exp as nat) + "}"@
}

/// The claims whose JSON text is `p`, if `p` is the text of some claims.
pub open spec fn claims_of_text(p: Seq<char>) -> Option<ClaimsView> {
    if exists|c: ClaimsView| claims_text(c) == p {
        Some(choose|c: ClaimsView| claims_text(c) == p)
    } else {
        None
    }
}

/// Where the pieces of the claims text stand: each numeral is a maximal run
/// of digits with the field's value, and the user name is the string literal
/// that starts after the `username` key.
proof fn lemma_claims_text_layout(c: ClaimsView)
    ensures
        ({
            let p = claims_text(c);
            let a = "{\"user_id\":"@.len() as int;
            let e1 = digit_run_end(p, a);
            let b = e1 + ",\"username\":"@.len() + 1;
            let e2 = b + json_escape(c.username).len() + 1;
            let s3 = e2 + ",\"iat\":"@.len();
            let e3 = digit_run_end(p, s3);
            let s4 = e3 + ",\"exp\":"@.len();
            let e4 = digit_run_end(p, s4);
            &&& p.subrange(0, a) == "{\"user_id\":"@
            &&& a < e1 && dec_value(p.subrange(a, e1)) == c.user_id
            &&& e1 + ",\"username\":"@.len() <= p.len()
            &&& p.subrange(e1, e1 + ",\"username\":"@.len()) == ",\"username\":"@
            &&& p.subrange(b - 1, b) == "\""@
            &&& json_unescape_at(p, b) == Some((c.username, e2))
            &&& e2 + ",\"iat\":"@.len() <= p.len()
            &&& p.subrange(e2, s3) == ",\"iat\":"@
            &&& s3 < e3 && dec_value(p.subrange(s3, e3)) == c.iat
            &&& s4 <= p.len()
            &&& p.subrange(e3, s4) == ",\"exp\":"@
            &&& s4 < e4 && dec_value(p.subrange(s4, e4)) == c.exp
            &&& e4 + 1 == p.len()
            &&& p.subrange(e4, e4 + 1) == "}"@
        }),
{
    reveal_strlit("{\"user_id\":");
    reveal_strlit(",\"username\":");
    reveal_strlit("\"");
    reveal_strlit(",\"iat\":");
    reveal_strlit(",\"exp\":");
    reveal_strlit("}");
    let l1 = "{\"user_id\":"@;
    let l2 = ",\"username\":"@;
    let l3 = ",\"iat\":"@;
    let l4 = ",\"exp\":"@;
    let l5 = "}"@;
    let d1 = dec(c.user_id as nat);
    let d2 = dec(c.iat as nat);
    let d3 = dec(c.exp as nat);
    let en = json_escape(c.username);
    let q = seq!['"'];
    let p = claims_text(c);
    assert(json_quoted(c.username) == q + en + q);
    assert(p =~= l1 + d1 + l2 + q + en + q + l3 + d2 + l4 + d3 + l5);
    lemma_dec(c.user_id as nat);
    lemma_dec(c.iat as nat);
    lemma_dec(c.exp as nat);
    let a = l1.len() as int;
    let e1 = a + d1.len();
    let b = e1 + l2.len() + 1;
    let e2 = b + en.len() + 1;
    let s3 = e2 + l3.len();
    let e3 = s3 + d2.len();
    let s4 = e3 + l4.len();
    let e4 = s4 + d3.len();
    assert(p.len() == e4 + 1);
    assert(p.subrange(0, a) =~= l1);
    assert(p.subrange(a, e1) =~= d1);
    assert(p[e1] == l2[0]);
    lemma_digit_run_of_numeral(p, a, c.user_id as nat);
    assert(p.subrange(e1, e1 + l2.len()) =~= l2);
    assert(p.subrange(b - 1, b) =~= q);
    assert(p.subrange(b, e2) =~= en + q);
    lemma_json_unescape_escaped(p, b, c.username);
    assert(p.subrange(e2, s3) =~= l3);
    assert(p.subrange(s3, e3) =~= d2);
    assert(p[e3] == l4[0]);
    lemma_digit_run_of_numeral(p, s3, c.iat as nat);
    assert(p.subrange(e3, s4) =~= l4);
    assert(p.subrange(s4, e4) =~= d3);
    assert(p[e4] == l5[0]);
    lemma_digit_run_of_numeral(p, s4, c.exp as nat);
    assert(p.subrange(e4, e4 + 1) =~= l5);
}

/// The members of the claims object, in the order the claims text writes
/// them.
pub open spec fn claims_members(c: ClaimsView) -> Seq<(Seq<char>, JsonScalar)> {
    seq![
        ("user_id"@, JsonScalar::Nat(c.user_id as nat)),
        ("username"@, JsonScalar::Str(c.username)),
        ("iat"@, JsonScalar::Nat(c.iat as nat)),
        ("exp"@, JsonScalar::Nat(c.exp as nat)),
    ]
}

/// The claims text is a JSON object with plain keys, string and number
/// values.
pub proof fn lemma_claims_text_is_object(c: ClaimsView)
    ensures
        plain_keys(claims_members(c)),
        claims_text(c) == json_object_text(claims_members(c)),
{
    reveal_strlit("user_id");
    reveal_strlit("username");
    reveal_strlit("iat");
    reveal_strlit("exp");
    reveal_strlit("{\"user_id\":");
    reveal_strlit(",\"username\":");
    reveal_strlit(",\"iat\":");
    reveal_strlit(",\"exp\":");
    reveal_strlit("}");
    let m = claims_members(c);
    assert forall|i: int| 0 <= i < m.len() implies plain_key(#[trigger] m[i].0) by {
        let k = m[i].0;
        if i == 0 {
            assert(k =~= seq!['u', 's', 'e', 'r', '_', 'i', 'd']);
        } else if i == 1 {
            assert(k =~= seq!['u', 's', 'e', 'r', 'n', 'a', 'm', 'e']);
        } else if i == 2 {
            assert(k =~= seq!['i', 'a', 't']);
        } else {
            assert(k =~= seq!['e', 'x', 'p']);
        }
    }
    let m1 = m.take(1);
    let m2 = m.take(2);
    let m3 = m.take(3);
    assert(m1.len() == 1 && m1[0] == m[0]);
    assert(m2.drop_last() =~= m1 && m2.last() == m[1]);
    assert(m3.drop_last() =~= m2 && m3.last() == m[2]);
    assert(m.drop_last() =~= m3 && m.last() == m[3]);
    assert(json_members_text(m1) == json_member_text(m[0]));
    assert(json_members_text(m2) == json_members_text(m1) + seq![','] + json_member_text(m[1]));
    assert(json_members_text(m3) == json_members_text(m2) + seq![','] + json_member_text(m[2]));
    assert(json_members_text(m) == json_members_text(m3) + seq![','] + json_member_text(m[3]));
    assert(claims_text(c) =~= json_object_text(m));
}

/// The claims object's members are ones the decoder checks without
/// complaint.
pub proof fn lemma_claims_members_decodable(c: ClaimsView)
    ensures
        decodable_members(claims_members(c)),
{
    reveal_strlit("user_id");
    reveal_strlit("username");
    reveal_strlit("iat");
    reveal_strlit("exp");
    reveal_strlit("aud");
    lemma_claims_text_is_object(c);
    let m = claims_members(c);
    assert(m[0].0.len() == 7 && m[1].0.len() == 8 && m[2].0.len() == 3 && m[3].0.len() == 3);
    assert(m[2].0[0] == 'i' && m[3].0[0] == 'e' && "aud"@[0] == 'a' && "aud"@.len() == 3);
    assert forall|i: int, j: int| 0 <= i < j < m.len() implies #[trigger] m[i].0 != #[trigger] m[j].0 by {
        if i == 2 && j == 3 {
            assert(m[i].0[0] != m[j].0[0]);
        } else {
            assert(m[i].0.len() != m[j].0.len());
        }
    }
    assert forall|i: int| 0 <= i < m.len() implies #[trigger] m[i].0 != "aud"@ by {
        if i >= 2 {
            assert(m[i].0[0] != "aud"@[0]);
        }
    }
    assert(m[3].0 == "exp"@);
}

/// Different claims have different texts.
pub proof fn lemma_claims_text_injective(c1: ClaimsView, c2: ClaimsView)
    requires
        claims_text(c1) == claims_text(c2),
    ensures
        c1 == c2,
{
    lemma_claims_text_layout(c1);
    lemma_claims_text_layout(c2);
}

/// Reading the claims text back gives the claims it was written from.
pub proof fn lemma_claims_of_text(c: ClaimsView)
    ensures
        claims_of_text(claims_text(c)) == Some(c),
{
    let p = claims_text(c);
    assert(exists|x: ClaimsView| claims_text(x) == p);
    let d = choose|x: ClaimsView| claims_text(x) == p;
    lemma_claims_text_injective(c, d);
}

/// Writes the JSON text of the claims.
pub fn claims_payload(c: &Claims) -> (r: String)
    ensures
        r@ == claims_text(c@),
{
    let mut out = String::new();
    out.append("{\"user_id\":");
    push_decimal(&mut out, c.user_id as u64);
    out.append(",\"username\":");
    push_json_string(&mut out, c.username.as_str());
    out.append(",\"iat\":");
    push_decimal(&mut out, c.iat);
    out.append(",\"exp\":");
    push_decimal(&mut out, c.exp);
    out.append("}");
    assert(out@ =~= claims_text(c@));
    out
}

/// Reads claims back from their JSON text; `None` when `p` is not the text
/// of any claims.
pub fn parse_claims(p: &str) -> (r: Option<Claims>)
    ensures
        match r {
            Some(c) => claims_of_text(p@) == Some(c@),
            None => claims_of_text(p@) is None,
        },
{
    let ghost has = exists|c: ClaimsView| claims_text(c) == p@;
    let ghost cv = choose|c: ClaimsView| claims_text(c) == p@;
    let n = p.unicode_len();
    let a = "{\"user_id\":".unicode_len();
    let found = parse_claims_fields(p);
    let (user_id, username, iat, exp) = match found {
        Some(x) => x,
        None => {
            return None;
        },
    };
    let c = Claims { user_id, username, iat, exp };
    let text = claims_payload(&c);
    if text.unicode_len() != n || !has_literal_at(p, 0, text.as_str()) {
        proof {
            if has {
                assert(claims_text(cv) == p@);
                assert(c@ == cv);
                assert(p@.subrange(0, n as int) =~= p@);
            }
        }
        return None;
    }
    assert(p@ =~= text@);
    proof {
        lemma_claims_of_text(c@);
    }
    Some(c)
}

/// Reads the fields of a claims text at the places where the claims text
/// puts them. Succeeds, with the claims' fields, on every claims text.
fn parse_claims_fields(p: &str) -> (r: Option<(u32, String, u64, u64)>)
    ensures
        forall|c: ClaimsView| claims_text(c) == p@ ==> (r matches Some(
            (user_id, username, iat, exp),
        ) && user_id == c.user_id && username@ == c.username && iat == c.iat && exp == c.exp),
{
    let ghost has = exists|c: ClaimsView| claims_text(c) == p@;
    let ghost cv = choose|c: ClaimsView| claims_text(c) == p@;
    proof {
        if has {
            lemma_claims_text_layout(cv);
            assert forall|c: ClaimsView| claims_text(c) == p@ implies c == cv by {
                lemma_claims_text_injective(c, cv);
            }
        }
    }
    let n = p.unicode_len();
    if !has_literal_at(p, 0, "{\"user_id\":") {
        return None;
    }
    let a = "{\"user_id\":".unicode_len();
    let (user_id, e1) = match read_u64(p, a) {
        Some(x) => x,
        None => {
            return None;
        },
    };
    if user_id > u32::MAX as u64 {
        return None;
    }
    if !has_literal_at(p, e1, ",\"username\":") {
        return None;
    }
    let q = e1 + ",\"username\":".unicode_len();
    if !has_literal_at(p, q, "\"") {
        return None;
    }
    let b = q + "\"".unicode_len();
    let (username, e2) = match read_json_string(p, b) {
        Some(x) => x,
        None => {
            return None;
        },
    };
    if !has_literal_at(p, e2, ",\"iat\":") {
        return None;
    }
    let s3 = e2 + ",\"iat\":".unicode_len();
    let (iat, e3) = match read_u64(p, s3) {
        Some(x) => x,
        None => {
            return None;
        },
    };
    if !has_literal_at(p, e3, ",\"exp\":") {
        return None;
    }
    let s4 = e3 + ",\"exp\":".unicode_len();
    let (exp, e4) = match read_u64(p, s4) {
        Some(x) => x,
        None => {
            return None;
        },
    };
    if e4 >= n || !has_literal_at(p, e4, "}") || e4 + 1 != n {
        return None;
    }
    Some((user_id as u32, username, iat, exp))
}

/// Why issuing or checking a token failed.
#[derive(Debug)]
pub enum JwtError {
    ExpGenError(String),
    EncodeError(String),
    DecodeError(String),
}

impl JwtError {
    pub open spec fn message_text(&self) -> Seq<char> {
        match self {
            JwtError::ExpGenError(m) => "failed to generate expiration. "@ + m@,
            JwtError::EncodeError(m) => "failed to encode token. "@ + m@,
            JwtError::DecodeError(m) => "failed to decode token. "@ + m@,
        }
    }

    /// The error's message.
    pub fn message(&self) -> (r: String)
        ensures
            r@ == self.message_text(),
    {
        match self {
            JwtError::ExpGenError(m) => String::from_str("failed to generate expiration. ").concat(m.as_str()),
            JwtError::EncodeError(m) => String::from_str("failed to encode token. ").concat(m.as_str()),
            JwtError::DecodeError(m) => String::from_str("failed to decode token. ").concat(m.as_str()),
        }
    }
}

#[verifier::external_type_specification]
#[verifier::external_body]
pub struct ExSystemTime(std::time::SystemTime);

/// `std::time::SystemTime::now`: the current time of the system clock.
/// Nothing is stated of it.
#[verifier::external_body]
fn system_now() -> std::time::SystemTime {
    std::time::SystemTime::now()
}

/// `SystemTime::duration_since(UNIX_EPOCH)`, in whole seconds; the error
/// (a time before the epoch) as its message. Nothing is stated of the value.
#[verifier::external_body]
fn seconds_since_epoch(t: &std::time::SystemTime) -> Result<u64, String> {
    t.duration_since(std::time::UNIX_EPOCH).map(|d| d.as_secs()).map_err(|e| e.to_string())
}

/// The system clock in whole seconds since the Unix epoch; a clock before
/// the epoch as the error's message. Nothing is stated of the reading.
pub fn clock_seconds() -> Result<u64, String> {
    seconds_since_epoch(&system_now())
}

/// The token that `jsonwebtoken::encode` makes, with an HS512 header, for the
/// JSON text `payload` and the secret `secret`.
pub uninterp spec fn hs512_token(payload: Seq<char>, secret: Seq<u8>) -> Seq<char>;

/// The payload text that `jsonwebtoken::decode` reads out of `token` with
/// the key `secret` and `Validation::new(HS512)` with the expiry check off:
/// `None` when it refuses the token (a bad signature or encoding, another
/// algorithm, a missing or non-numeric `exp`, an `aud` claim).
pub uninterp spec fn hs512_payload(token: Seq<char>, secret: Seq<u8>) -> Option<Seq<char>>;

/// Members of a JSON object that `jsonwebtoken` checks without complaint
/// once the signature holds: plain keys, each once, an `exp` that is a
/// `u64`, and no `aud`.
pub open spec fn decodable_members(m: Seq<(Seq<char>, JsonScalar)>) -> bool {
    &&& plain_keys(m)
    &&& forall|i: int, j: int| 0 <= i < j < m.len() ==> #[trigger] m[i].0 != #[trigger] m[j].0
    &&& exists|i: int| 0 <= i < m.len() && #[trigger] m[i].0 == "exp"@
        && (m[i].1 matches JsonScalar::Nat(n) && n <= u64::MAX)
    &&& forall|i: int| 0 <= i < m.len() ==> #[trigger] m[i].0 != "aud"@
}

/// Signs the JSON text `payload` as an HS512 token: `serde_json`'s
/// `RawValue::from_string` and `jsonwebtoken::encode` with
/// `Header::new(HS512)` and `EncodingKey::from_secret`. Claimed: a token is
/// a function of the payload and the secret; it succeeds on the text of a
/// JSON object whose keys need no escapes and whose values are strings and
/// natural numbers (`RawValue` accepts any well-formed JSON, and HMAC-SHA512
/// signs with a key of any length); and when those members are also ones
/// the decoder checks without complaint, decoding the token with the same
/// secret reads the payload back (`RawValue` keeps the text as it is). When
/// else it fails is not stated.
#[verifier::external_body]
fn hs512_encode(payload: &str, secret: &[u8]) -> (r: Result<String, String>)
    ensures
        r matches Ok(t) ==> t@ == hs512_token(payload@, secret@),
        forall|m: Seq<(Seq<char>, JsonScalar)>| plain_keys(m) && payload@ == #[trigger] json_object_text(m) ==> r is Ok,
        r matches Ok(t) ==> forall|m: Seq<(Seq<char>, JsonScalar)>|
            decodable_members(m) && payload@ == #[trigger] json_object_text(m) ==> hs512_payload(t@, secret@) == Some(payload@),
{
    let claims = serde_json::value::RawValue::from_string(payload.to_string()).map_err(|e| e.to_string())?;
    let header = jsonwebtoken::Header::new(jsonwebtoken::Algorithm::HS512);
    jsonwebtoken::encode(&header, &claims, &jsonwebtoken::EncodingKey::from_secret(secret))
        .map_err(|e| e.to_string())
}

/// Checks an HS512 token and reads its payload as JSON text:
/// `jsonwebtoken::decode` into a `RawValue`, with `Validation::new(HS512)`
/// and its expiry check turned off, so that no clock is read; the error as
/// its message. Claimed: it succeeds exactly when `hs512_payload` names a
/// payload, and returns that payload.
#[verifier::external_body]
fn hs512_decode(token: &str, secret: &[u8]) -> (r: Result<String, String>)
    ensures
        r matches Ok(p) ==> hs512_payload(token@, secret@) == Some(p@),
        r is Err ==> hs512_payload(token@, secret@) is None,
{
    let mut validation = jsonwebtoken::Validation::new(jsonwebtoken::Algorithm::HS512);
    validation.validate_exp = false;
    jsonwebtoken::decode::<Box<serde_json::value::RawValue>>(token, &jsonwebtoken::DecodingKey::from_secret(secret), &validation)
        .map(|d| d.claims.get().to_string()).map_err(|e| e.to_string())
}

/// The claims a token yields, if its signature checks with `secret` and its
/// payload is the text of some claims (expiry aside).
pub open spec fn token_claims(token: Seq<char>, secret: Seq<u8>) -> Option<ClaimsView> {
    match hs512_payload(token, secret) {
        Some(p) => claims_of_text(p),
        None => None,
    }
}

/// `token` was issued with `secret` for the claims `c`, which expire `ttl`
/// seconds after a reading of the clock: it is the signed text of `c`, and
/// checking it reads `c` back.
pub open spec fn issued_for(token: Seq<char>, secret: Seq<u8>, c: ClaimsView, ttl: u32) -> bool {
    &&& c.exp >= ttl
    &&& token == hs512_token(claims_text(c), secret)
    &&& hs512_payload(token, secret) == Some(claims_text(c))
    &&& token_claims(token, secret) == Some(c)
}

/// Issues and checks tokens with one secret and one lifetime.
#[derive(Debug, Clone)]
pub struct JwtService {
    secret: Vec<u8>,
    ttl: u32,
}

impl JwtService {
    pub closed spec fn secret(&self) -> Seq<u8> {
        self.secret@
    }

    pub closed spec fn ttl(&self) -> u32 {
        self.ttl
    }

    pub fn new(secret: String, ttl: u32) -> (r: Self)
        ensures
            r.secret() == vstd::utf8::encode_utf8(secret@),
            r.ttl() == ttl,
    {
        let bytes = secret.as_str().as_bytes_vec();
        JwtService { secret: bytes, ttl }
    }

    /// Issues a token for the user: issued now, expiring `ttl` seconds after
    /// a second reading of the clock. A clock before the Unix epoch, or an
    /// expiry past `u64::MAX`, fails with `ExpGenError`.
    pub fn generate_token(&self, user_id: u32, username: &str) -> (r: Result<String, JwtError>)
        ensures
            r matches Ok(t) ==> hs512_payload(t@, self.secret()) is Some,
            r matches Ok(t) ==> exists|c: ClaimsView|
                #[trigger] issued_for(t@, self.secret(), c, self.ttl()) && c.user_id == user_id
                    && c.username == username@,
            r matches Err(e) ==> e is ExpGenError,
    {
        let iat = match seconds_since_epoch(&system_now()) {
            Ok(s) => s,
            Err(e) => {
                return Err(JwtError::ExpGenError(e));
            },
        };
        let now = match seconds_since_epoch(&system_now()) {
            Ok(s) => s,
            Err(e) => {
                return Err(JwtError::ExpGenError(e));
            },
        };
        self.issue_at(user_id, username, iat, now)
    }

    /// Issues a token for the user with the clock readings given: issued at
    /// `iat`, expiring `ttl` seconds after `now`. An expiry past `u64::MAX`
    /// is refused.
    pub fn issue_at(&self, user_id: u32, username: &str, iat: u64, now: u64) -> (r: Result<String, JwtError>)
        ensures
            now + self.ttl() > u64::MAX <==> (r matches Err(JwtError::ExpGenError(m))
                && m@ == "expiration is out of range"@),
            now + self.ttl() <= u64::MAX ==> (r matches Ok(t) && issued_for(
                t@,
                self.secret(),
                ClaimsView { user_id, username: username@, iat, exp: (now + self.ttl()) as u64 },
                self.ttl(),
            )),
            r matches Err(e) ==> e is ExpGenError,
    {
        let exp = match now.checked_add(self.ttl as u64) {
            Some(v) => v,
            None => {
                return Err(JwtError::ExpGenError(String::from_str("expiration is out of range")));
            },
        };
        let claims = Claims { user_id, username: String::from_str(username), iat, exp };
        let payload = claims_payload(&claims);
        let ghost cv = ClaimsView { user_id, username: username@, iat, exp };
        proof {
            lemma_claims_of_text(claims@);
            lemma_claims_text_is_object(cv);
            lemma_claims_members_decodable(cv);
            assert(claims@ == cv);
            assert(payload@ == json_object_text(claims_members(cv)));
        }
        match hs512_encode(payload.as_str(), self.secret.as_slice()) {
            Ok(t) => {
                assert(cv.exp >= self.ttl());
                assert(t@ == hs512_token(claims_text(cv), self.secret()));
                assert(hs512_payload(t@, self.secret()) == Some(claims_text(cv)));
                assert(issued_for(t@, self.secret(), cv, self.ttl()));
                Ok(t)
            },
            Err(e) => Err(JwtError::EncodeError(e)),
        }
    }

    /// Checks a token against the clock and returns its claims.
    pub fn verify_token(&self, token: &str) -> (r: Result<Claims, JwtError>)
        ensures
            r matches Ok(c) ==> token_claims(token@, self.secret()) == Some(c@),
            r matches Err(e) ==> e is DecodeError,
    {
        let now = match clock_seconds() {
            Ok(s) => s,
            Err(e) => {
                return Err(JwtError::DecodeError(e));
            },
        };
        self.verify_at(token, now)
    }

    /// Checks a token at the time `now` (seconds since the Unix epoch): its
    /// signature and claims must check, and it must not have expired more
    /// than `TOKEN_LEEWAY_SECS` seconds before `now`; an expired token is
    /// refused with `ExpiredSignature`.
    pub fn verify_at(&self, token: &str, now: u64) -> (r: Result<Claims, JwtError>)
        ensures
            r is Ok <==> (token_claims(token@, self.secret()) matches Some(c)
                && c.exp + TOKEN_LEEWAY_SECS >= now),
            r matches Ok(c) ==> token_claims(token@, self.secret()) == Some(c@),
            (token_claims(token@, self.secret()) matches Some(c) && c.exp + TOKEN_LEEWAY_SECS < now) ==> (
                r matches Err(JwtError::DecodeError(m)) && m@ == "ExpiredSignature"@),
            r matches Err(e) ==> e is DecodeError,
    {
        let payload = match hs512_decode(token, self.secret.as_slice()) {
            Ok(p) => p,
            Err(e) => {
                return Err(JwtError::DecodeError(e));
            },
        };
        let claims = match claims_from_payload(payload.as_str()) {
            Ok(c) => c,
            Err(e) => {
                return Err(e);
            },
        };
        if now <= claims.exp || now - claims.exp <= TOKEN_LEEWAY_SECS {
            Ok(claims)
        } else {
            Err(JwtError::DecodeError(String::from_str("ExpiredSignature")))
        }
    }
}

/// The claims of a checked token's payload text.
pub fn claims_from_payload(payload: &str) -> (r: Result<Claims, JwtError>)
    ensures
        match r {
            Ok(c) => claims_of_text(payload@) == Some(c@),
            Err(e) => claims_of_text(payload@) is None && e is DecodeError,
        },
{
    match parse_claims(payload) {
        Some(c) => Ok(c),
        None => Err(JwtError::DecodeError(String::from_str("the token's claims are not of the form this service issues"))),
    }
}

/// A token that `generate_token` issued, once `verify_token` accepts it with
/// the same secret, yields exactly the claims it was issued with: the user id
/// and the name among them.
pub proof fn lemma_issued_token_yields_issued_claims(
    secret: Seq<u8>,
    token: Seq<char>,
    issued: ClaimsView,
    accepted: ClaimsView,
)
    requires
        hs512_payload(token, secret) == Some(claims_text(issued)),
        token_claims(token, secret) == Some(accepted),
    ensures
        accepted == issued,
        accepted.user_id == issued.user_id,
        accepted.username == issued.username,
{
    lemma_claims_of_text(issued);
}

} // verus!
