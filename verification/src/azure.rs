use vstd::prelude::*;
use vstd::string::{StrSliceExecFns, StringExecFns};

use crate::errors::PimError;
use crate::json::{json_parse_ok, json_text_fields_of, parse_json, text_field};
use crate::text::{find_char, lemma_find_char_at};

verus! {

/// A bearer credential for one audience, together with the identity claims
/// read from its payload segment. Immutable once created; shared by every
/// caller that asks for the same audience within a run.
pub struct Token {
    pub subject_id: String,
    pub access_token: String,
    pub tenant_id: String,
}

impl Token {
    /// An equal copy: what every reader of a filled cache observes.
    pub fn duplicate(&self) -> (r: Token)
        ensures
            r.subject_id@ == self.subject_id@,
            r.access_token@ == self.access_token@,
            r.tenant_id@ == self.tenant_id@,
    {
        Token {
            subject_id: self.subject_id.clone(),
            access_token: self.access_token.clone(),
            tenant_id: self.tenant_id.clone(),
        }
    }
}

/// What base64's URL-safe alphabet without padding decodes these characters
/// to, when it accepts them.
pub uninterp spec fn b64url_decoded(s: Seq<char>) -> Option<Seq<u8>>;

/// Relies on base64's Engine::decode with the URL_SAFE_NO_PAD engine: whether
/// the input is accepted, and what it decodes to, are functions of the input
/// characters alone.
#[verifier::external_body]
fn b64url_decode(s: &str) -> (r: Option<Vec<u8>>)
    ensures
        r is Some <==> b64url_decoded(s@) is Some,
        r is Some ==> r.unwrap()@ == b64url_decoded(s@).unwrap(),
{
    base64::Engine::decode(&base64::prelude::BASE64_URL_SAFE_NO_PAD, s).ok()
}

/// The second '.'-separated segment of a bearer token, when the token has
/// one: the claims payload of a three-part token.
pub open spec fn payload_segment(s: Seq<char>) -> Option<Seq<char>> {
    if find_char(s, '.') == s.len() {
        None
    } else {
        let rest = s.skip(find_char(s, '.') + 1);
        Some(rest.take(find_char(rest, '.')))
    }
}

/// Cuts the payload segment out of a bearer token.
fn payload_of(s: &str) -> (r: Option<String>)
    ensures
        r is Some <==> payload_segment(s@) is Some,
        r is Some ==> r.unwrap()@ == payload_segment(s@).unwrap(),
{
    let n = s.unicode_len();
    let mut i: usize = 0;
    while i < n && s.get_char(i) != '.'
        invariant
            0 <= i <= n,
            n == s@.len(),
            forall|k: int| 0 <= k < i ==> s@[k] != '.',
        decreases n - i,
    {
        i = i + 1;
    }
    proof {
        lemma_find_char_at(s@, '.', i as int);
    }
    if i == n {
        return None;
    }
    let start = i + 1;
    let mut j: usize = start;
    while j < n && s.get_char(j) != '.'
        invariant
            start <= j <= n,
            n == s@.len(),
            forall|k: int| start <= k < j ==> s@[k] != '.',
        decreases n - j,
    {
        j = j + 1;
    }
    proof {
        let rest = s@.skip(start as int);
        assert forall|k: int| 0 <= k < j - start implies rest[k] != '.' by {
            assert(s@[start + k] != '.');
        }
        lemma_find_char_at(rest, '.', j - start);
        assert(rest.take(find_char(rest, '.')) =~= s@.subrange(start as int, j as int));
    }
    let seg = s.substring_char(start, j);
    Some(seg.to_owned())
}

/// The access token named in the issuer's JSON envelope, when the envelope
/// parses and carries one as a string field.
pub open spec fn envelope_token(bytes: Seq<u8>) -> Option<Seq<char>> {
    if json_parse_ok(bytes) && json_text_fields_of(bytes).dom().contains("accessToken"@) {
        Some(json_text_fields_of(bytes)["accessToken"@])
    } else {
        None
    }
}

/// The string claims carried by a bearer token: its payload segment is
/// base64url-decoded and read as one JSON document.
pub open spec fn token_claims(access_token: Seq<char>) -> Option<Map<Seq<char>, Seq<char>>> {
    match payload_segment(access_token) {
        None => None,
        Some(seg) => match b64url_decoded(seg) {
            None => None,
            Some(bytes) => if json_parse_ok(bytes) {
                Some(json_text_fields_of(bytes))
            } else {
                None
            },
        },
    }
}

/// When the issuer's raw output yields a token: the envelope parses and names
/// an access token whose payload decodes to claims holding "oid" and "tid".
pub open spec fn issuer_output_ok(bytes: Seq<u8>) -> bool {
    match envelope_token(bytes) {
        None => false,
        Some(at) => match token_claims(at) {
            None => false,
            Some(claims) => claims.dom().contains("oid"@) && claims.dom().contains("tid"@),
        },
    }
}

/// Reads the credential helper's raw output: the envelope's access token, and
/// from the token's payload segment the subject-object-id ("oid") and
/// tenant-id ("tid") claims. The payload is decoded without verifying any
/// signature: the issuer is a locally trusted helper, not a contested party.
pub fn parse_token(output: &[u8]) -> (r: Result<Token, PimError>)
    ensures
        r is Ok <==> issuer_output_ok(output@),
        r is Ok ==> r.unwrap().access_token@ == envelope_token(output@).unwrap(),
        r is Ok ==> r.unwrap().subject_id@ == token_claims(
            envelope_token(output@).unwrap(),
        ).unwrap()["oid"@],
        r is Ok ==> r.unwrap().tenant_id@ == token_claims(
            envelope_token(output@).unwrap(),
        ).unwrap()["tid"@],
        r is Err ==> r == Err::<Token, PimError>(PimError::TokenIssuerFailure),
{
    let envelope = match parse_json(output) {
        Some(v) => v,
        None => {
            return Err(PimError::TokenIssuerFailure);
        },
    };
    let access_token = match text_field(&envelope, "accessToken") {
        Some(s) => s,
        None => {
            return Err(PimError::TokenIssuerFailure);
        },
    };
    let segment = match payload_of(access_token.as_str()) {
        Some(s) => s,
        None => {
            return Err(PimError::TokenIssuerFailure);
        },
    };
    let claim_bytes = match b64url_decode(segment.as_str()) {
        Some(b) => b,
        None => {
            return Err(PimError::TokenIssuerFailure);
        },
    };
    let claims = match parse_json(claim_bytes.as_slice()) {
        Some(v) => v,
        None => {
            return Err(PimError::TokenIssuerFailure);
        },
    };
    let subject_id = match text_field(&claims, "oid") {
        Some(s) => s,
        None => {
            return Err(PimError::TokenIssuerFailure);
        },
    };
    let tenant_id = match text_field(&claims, "tid") {
        Some(s) => s,
        None => {
            return Err(PimError::TokenIssuerFailure);
        },
    };
    Ok(Token { subject_id, access_token, tenant_id })
}

/// Per-audience, lazily filled credential cache. Within one run the issuer is
/// consulted at most once per audience: the caller that finds the cache empty
/// performs the one fetch and records it with `fill`; every later reader
/// observes that stored token through `cached`. The ghost fetch count makes
/// the at-most-once discipline a stated invariant.
pub struct LazyToken {
    resource_uri: String,
    token: Option<Token>,
    fetches: Ghost<int>,
}

impl LazyToken {
    /// The audience URI this cache serves.
    pub closed spec fn spec_uri(&self) -> Seq<char> {
        self.resource_uri@
    }

    /// The cached token, when one was fetched.
    pub closed spec fn spec_token(&self) -> Option<Token> {
        self.token
    }

    /// How many issuer fetches have filled this cache.
    pub closed spec fn spec_fetches(&self) -> int {
        self.fetches@
    }

    /// A cache records exactly one fetch once it holds a token, none before.
    pub open spec fn wf(&self) -> bool {
        self.spec_fetches() == if self.spec_token() is Some {
            1int
        } else {
            0int
        }
    }

    pub fn new(resource_uri: &str) -> (r: LazyToken)
        ensures
            r.wf(),
            r.spec_uri() == resource_uri@,
            r.spec_token() is None,
    {
        LazyToken { resource_uri: resource_uri.to_owned(), token: None, fetches: Ghost(0) }
    }

    pub fn resource_uri(&self) -> (r: &String)
        ensures
            r@ == self.spec_uri(),
    {
        &self.resource_uri
    }

    /// The check half of check-then-fill: a filled cache answers without any
    /// further fetch, handing out the one stored token.
    pub fn cached(&self) -> (r: Option<&Token>)
        ensures
            r is Some <==> self.spec_token() is Some,
            r is Some ==> *r.unwrap() == self.spec_token().unwrap(),
    {
        match &self.token {
            Some(t) => Some(t),
            None => None,
        }
    }

    /// The fill half: only the caller that held the empty cache may record its
    /// fetch, so a second fetch for the same audience cannot be recorded.
    pub fn fill(&mut self, fetched: Token)
        requires
            old(self).wf(),
            old(self).spec_token() is None,
        ensures
            final(self).wf(),
            final(self).spec_uri() == old(self).spec_uri(),
            final(self).spec_token() == Some(fetched),
            final(self).spec_fetches() == old(self).spec_fetches() + 1,
    {
        self.fetches = Ghost(self.fetches@ + 1);
        self.token = Some(fetched);
    }
}

/// Law (token idempotence): a well-formed audience cache has recorded at most
/// one issuer fetch — exactly one as soon as it holds a token — and `cached`
/// hands every caller that one stored token, so all callers for an audience
/// observe identical token contents from a single underlying fetch.
pub proof fn lemma_token_single_fetch(c: LazyToken)
    requires
        c.wf(),
    ensures
        c.spec_fetches() <= 1,
        c.spec_token() is Some ==> c.spec_fetches() == 1,
        c.spec_token() is None ==> c.spec_fetches() == 0,
{
}

} // verus!
