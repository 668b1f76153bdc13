//! The embedding client: a token exchange followed by the embedding call.
use vstd::prelude::*;
use crate::error::{ClientError, is_success_spec, status_outcome};
use crate::json::{
    Json, json_doc, json_quoted, parse, quote, member_of, element_spec, member_spec, items_spec,
    text_spec,
};

verus! {

/// Where and how the embedding provider is reached.
pub struct EmbeddingConfig {
    /// The client id presented at the token endpoint.
    pub api_key: String,
    /// The client secret presented at the token endpoint.
    pub secret_key: String,
    /// The address of the token endpoint, without query.
    pub token_endpoint: String,
    /// The address of the embedding endpoint, without query.
    pub embedding_endpoint: String,
    /// The length that every vector must have, when one is required.
    pub dimension: Option<usize>,
}

/// The address that a token is requested from.
pub open spec fn token_url_spec(cfg: EmbeddingConfig) -> Seq<char> {
    cfg.token_endpoint@ + "?grant_type=client_credentials&client_id="@ + cfg.api_key@
        + "&client_secret="@ + cfg.secret_key@
}

/// The address that the embedding request is sent to, bearing the token.
pub open spec fn embedding_url_spec(cfg: EmbeddingConfig, token: Seq<char>) -> Seq<char> {
    cfg.embedding_endpoint@ + "?access_token="@ + token
}

/// The JSON body of the embedding request for a text.
pub open spec fn embedding_body_spec(text: Seq<char>) -> Seq<char> {
    "{\"input\":"@ + json_quoted(text) + "}"@
}

/// Whether a vector of `len` entries has the length that `dimension` asks for.
pub open spec fn fits_dimension(dimension: Option<usize>, len: nat) -> bool {
    match dimension {
        Some(d) => len == d,
        None => true,
    }
}

/// The entries of the embedding in a reply, at `data[0].embedding`, where
/// that is an array.
pub open spec fn embedding_of(reply: Json) -> Option<Seq<Json>> {
    match member_spec(reply, "data"@) {
        Some(data) => match element_spec(data, 0) {
            Some(first) => match member_spec(first, "embedding"@) {
                Some(e) => items_spec(e),
                None => None,
            },
            None => None,
        },
        None => None,
    }
}

/// Whether every entry is a JSON number.
pub open spec fn all_numbers_spec(entries: Seq<Json>) -> bool {
    forall|i: int| 0 <= i < entries.len() ==> (#[trigger] entries[i]) is Number
}

/// The access token in the reply of the token endpoint: the text of its
/// `access_token` member, where that is a JSON string.
pub open spec fn token_of(doc: Option<Json>) -> Option<Seq<char>> {
    match member_of(doc, "access_token"@) {
        Some(t) => text_spec(t),
        None => None,
    }
}

impl EmbeddingConfig {
    pub fn new(
        api_key: &str,
        secret_key: &str,
        token_endpoint: &str,
        embedding_endpoint: &str,
        dimension: Option<usize>,
    ) -> (r: Self)
        ensures
            r.api_key@ == api_key@,
            r.secret_key@ == secret_key@,
            r.token_endpoint@ == token_endpoint@,
            r.embedding_endpoint@ == embedding_endpoint@,
            r.dimension == dimension,
    {
        EmbeddingConfig {
            api_key: api_key.to_string(),
            secret_key: secret_key.to_string(),
            token_endpoint: token_endpoint.to_string(),
            embedding_endpoint: embedding_endpoint.to_string(),
            dimension,
        }
    }

    /// The address of the token request (first step).
    pub fn token_url(&self) -> (r: String)
        ensures
            r@ == token_url_spec(*self),
    {
        let mut s = self.token_endpoint.clone();
        s.append("?grant_type=client_credentials&client_id=");
        s.append(self.api_key.as_str());
        s.append("&client_secret=");
        s.append(self.secret_key.as_str());
        s
    }

    /// The address of the embedding request (second step).
    pub fn embedding_url(&self, token: &str) -> (r: String)
        ensures
            r@ == embedding_url_spec(*self, token@),
    {
        let mut s = self.embedding_endpoint.clone();
        s.append("?access_token=");
        s.append(token);
        s
    }

    /// Decides the second step from the reply of the token endpoint: the
    /// address and body of the embedding request for `text` where the reply
    /// held a token, an authentication failure otherwise.
    pub fn embedding_request(&self, text: &str, status: u16, token_reply: &str) -> (r: Result<
        (String, String),
        ClientError,
    >)
        ensures
            r is Ok <==> (is_success_spec(status) && token_of(json_doc(token_reply@)) is Some),
            r is Ok ==> r->Ok_0.0@ == embedding_url_spec(*self, token_of(json_doc(token_reply@))->Some_0),
            r is Ok ==> r->Ok_0.1@ == embedding_body_spec(text@),
            r is Err ==> r->Err_0 == ClientError::Auth,
    {
        match read_token(status, token_reply) {
            Ok(token) => Ok((self.embedding_url(token.as_str()), embedding_body(text))),
            Err(e) => Err(e),
        }
    }

    /// Checks the entries of an embedding against the required length.
    pub fn check_dimension(&self, len: usize) -> (r: Result<(), ClientError>)
        ensures
            r == (if fits_dimension(self.dimension, len as nat) {
                Ok::<(), ClientError>(())
            } else {
                Err(ClientError::Embedding)
            }),
    {
        match self.dimension {
            Some(d) => if len == d {
                Ok(())
            } else {
                Err(ClientError::Embedding)
            },
            None => Ok(()),
        }
    }

    /// Finds the embedding in a parsed reply of the embedding endpoint, at
    /// `data[0].embedding`: an array of numbers of the required length.
    pub fn embedding_entries<'a>(&self, reply: &'a Json) -> (r: Result<&'a Vec<Json>, ClientError>)
        ensures
            r is Ok <==> (embedding_of(*reply) is Some && all_numbers_spec(embedding_of(*reply)->Some_0)
                && fits_dimension(self.dimension, embedding_of(*reply)->Some_0.len())),
            r is Ok ==> embedding_of(*reply) == Some(r->Ok_0@),
            r is Err ==> r->Err_0 == ClientError::Embedding,
    {
        let data = match reply.member("data") {
            Some(d) => d,
            None => return Err(ClientError::Embedding),
        };
        let first = match data.element(0) {
            Some(f) => f,
            None => return Err(ClientError::Embedding),
        };
        let embedding = match first.member("embedding") {
            Some(e) => e,
            None => return Err(ClientError::Embedding),
        };
        let entries = match embedding.items() {
            Some(a) => a,
            None => return Err(ClientError::Embedding),
        };
        if !all_numbers(entries) {
            return Err(ClientError::Embedding);
        }
        match self.check_dimension(entries.len()) {
            Ok(()) => Ok(entries),
            Err(e) => Err(e),
        }
    }
}

/// Whether every entry is a JSON number.
pub fn all_numbers(entries: &Vec<Json>) -> (r: bool)
    ensures
        r == all_numbers_spec(entries@),
{
    let mut i: usize = 0;
    while i < entries.len()
        invariant
            i <= entries@.len(),
            forall|j: int| 0 <= j < i ==> (#[trigger] entries@[j]) is Number,
        decreases entries.len() - i,
    {
        if !entries[i].is_number() {
            return false;
        }
        i = i + 1;
    }
    true
}

/// The JSON body of the embedding request for `text`.
pub fn embedding_body(text: &str) -> (r: String)
    ensures
        r@ == embedding_body_spec(text@),
{
    let mut s = String::from_str("{\"input\":");
    let q = quote(text);
    s.append(q.as_str());
    s.append("}");
    s
}

/// Parses the body of a reply; a body that is no JSON document is a failure
/// of the step that asked for it.
pub fn parse_reply(body: &str, on_failure: ClientError) -> (r: Result<Json, ClientError>)
    ensures
        r is Ok <==> json_doc(body@) is Some,
        r is Ok ==> json_doc(body@) == Some(r->Ok_0),
        r is Err ==> r->Err_0 == on_failure,
{
    match parse(body) {
        Ok(v) => Ok(v),
        Err(_) => Err(on_failure),
    }
}

/// Reads the access token out of the reply of the token endpoint (first
/// step): the text of the `access_token` member after a 2xx status. Every
/// failure here is an authentication failure.
pub fn read_token(status: u16, body: &str) -> (r: Result<String, ClientError>)
    ensures
        r is Ok <==> (is_success_spec(status) && token_of(json_doc(body@)) is Some),
        r is Ok ==> token_of(json_doc(body@)) == Some(r->Ok_0@),
        r is Err ==> r->Err_0 == ClientError::Auth,
{
    match status_outcome(status, ClientError::Auth) {
        Ok(()) => {},
        Err(e) => return Err(e),
    }
    let reply = match parse_reply(body, ClientError::Auth) {
        Ok(v) => v,
        Err(e) => return Err(e),
    };
    match reply.member("access_token") {
        Some(t) => accept_token(t.text()),
        None => Err(ClientError::Auth),
    }
}

/// The token found in a reply, or an authentication failure where none was.
pub fn accept_token(found: Option<String>) -> (r: Result<String, ClientError>)
    ensures
        r == (match found {
            Some(t) => Ok::<String, ClientError>(t),
            None => Err(ClientError::Auth),
        }),
{
    match found {
        Some(t) => Ok(t),
        None => Err(ClientError::Auth),
    }
}

} // verus!
