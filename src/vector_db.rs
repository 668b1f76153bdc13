//! The vector store client: requests to a search engine that keeps each
//! vector under an identifier and scores stored vectors against a query.
use vstd::prelude::*;
use crate::error::ClientError;
use crate::json::{Json, member_spec, items_spec, text_spec};
use crate::text::{decimal, to_decimal};
use vstd::slice::slice_subrange;

verus! {

/// A collection of vectors in a search engine, reached over HTTP.
pub struct VectorDB {
    /// The base address of the search engine.
    pub es_url: String,
    /// The name of the collection.
    pub index_name: String,
}

/// The address under which the record `id` is written.
pub open spec fn doc_url_spec(db: VectorDB, id: Seq<char>) -> Seq<char> {
    db.es_url@ + "/"@ + db.index_name@ + "/_doc/"@ + id
}

/// The address of the similarity search.
pub open spec fn search_url_spec(db: VectorDB) -> Seq<char> {
    db.es_url@ + "/"@ + db.index_name@ + "/_search"@
}

/// The body that writes a vector, given as a JSON array.
pub open spec fn store_body_spec(vector_json: Seq<char>) -> Seq<char> {
    "{\"vector\":"@ + vector_json + "}"@
}

/// The first part of the search body, before the query vector: the number
/// of hits asked for, and a score of cosine similarity shifted by one.
pub open spec fn search_head(top_k: nat) -> Seq<char> {
    "{\"size\":"@ + decimal(top_k)
        + ",\"query\":{\"script_score\":{\"query\":{\"match_all\":{}},\"script\":{\"source\":\"cosineSimilarity(params.query_vector, 'vector') + 1.0\",\"params\":{\"query_vector\":"@
}

/// The body of a search for the `top_k` stored vectors most similar to a
/// query vector, given as a JSON array.
pub open spec fn search_body_spec(vector_json: Seq<char>, top_k: nat) -> Seq<char> {
    search_head(top_k) + vector_json + "}}}}}"@
}

impl VectorDB {
    /// Captures the configuration; nothing is sent.
    pub fn new(es_url: &str, index_name: &str) -> (r: Self)
        ensures
            r.es_url@ == es_url@,
            r.index_name@ == index_name@,
    {
        VectorDB { es_url: es_url.to_string(), index_name: index_name.to_string() }
    }

    /// The address that `put` sends the record `id` to.
    pub fn doc_url(&self, id: &str) -> (r: String)
        ensures
            r@ == doc_url_spec(*self, id@),
    {
        let mut s = self.es_url.clone();
        s.append("/");
        s.append(self.index_name.as_str());
        s.append("/_doc/");
        s.append(id);
        s
    }

    /// The address that a query is sent to.
    pub fn search_url(&self) -> (r: String)
        ensures
            r@ == search_url_spec(*self),
    {
        let mut s = self.es_url.clone();
        s.append("/");
        s.append(self.index_name.as_str());
        s.append("/_search");
        s
    }
}

/// The body of the request that writes a vector, given as a JSON array.
pub fn store_body(vector_json: &str) -> (r: String)
    ensures
        r@ == store_body_spec(vector_json@),
{
    let mut s = String::from_str("{\"vector\":");
    s.append(vector_json);
    s.append("}");
    s
}

/// The body of the request that asks for the `top_k` best hits for a query
/// vector, given as a JSON array.
pub fn search_body(vector_json: &str, top_k: usize) -> (r: String)
    ensures
        r@ == search_body_spec(vector_json@, top_k as nat),
{
    let mut s = String::from_str("{\"size\":");
    let size = to_decimal(top_k);
    s.append(size.as_str());
    s.append(
        ",\"query\":{\"script_score\":{\"query\":{\"match_all\":{}},\"script\":{\"source\":\"cosineSimilarity(params.query_vector, 'vector') + 1.0\",\"params\":{\"query_vector\":",
    );
    s.append(vector_json);
    s.append("}}}}}");
    s
}

/// The first `top_k` of `hits`, or all of them where there are fewer.
pub fn first_hits<'a>(hits: &'a [Json], top_k: usize) -> (r: &'a [Json])
    ensures
        r@ == hits@.subrange(0, kept(hits@.len(), top_k as nat)),
{
    if hits.len() <= top_k {
        hits
    } else {
        slice_subrange(hits, 0, top_k)
    }
}

/// The hits of a search reply, at `hits.hits`, where that is an array.
pub open spec fn hits_spec(reply: Json) -> Option<Seq<Json>> {
    match member_spec(reply, "hits"@) {
        Some(outer) => match member_spec(outer, "hits"@) {
            Some(inner) => items_spec(inner),
            None => None,
        },
        None => None,
    }
}

/// The number of hits kept out of `n` when `top_k` are asked for.
pub open spec fn kept(n: nat, top_k: nat) -> int {
    if n <= top_k {
        n as int
    } else {
        top_k as int
    }
}

/// The identifier of a hit: the text of `_id` where that is a JSON string,
/// and empty otherwise.
pub open spec fn hit_id_spec(hit: Json) -> Seq<char> {
    match member_spec(hit, "_id"@) {
        Some(v) => match text_spec(v) {
            Some(t) => t,
            None => Seq::empty(),
        },
        None => Seq::empty(),
    }
}

/// The hits of a parsed search reply, at `hits.hits`, in the order the
/// engine ranked them; at most `top_k` of them.
pub fn hits_of<'a>(reply: &'a Json, top_k: usize) -> (r: Result<&'a [Json], ClientError>)
    ensures
        r is Ok <==> hits_spec(*reply) is Some,
        r is Ok ==> r->Ok_0@ == hits_spec(*reply)->Some_0.subrange(
            0,
            kept(hits_spec(*reply)->Some_0.len(), top_k as nat),
        ),
        r is Err ==> r->Err_0 == ClientError::Query,
{
    let outer = match reply.member("hits") {
        Some(h) => h,
        None => return Err(ClientError::Query),
    };
    let inner = match outer.member("hits") {
        Some(h) => h,
        None => return Err(ClientError::Query),
    };
    match inner.items() {
        Some(a) => Ok(first_hits(a.as_slice(), top_k)),
        None => Err(ClientError::Query),
    }
}

/// The identifier of a hit, at `_id`; empty where it is absent or no string.
pub fn hit_id(hit: &Json) -> (r: String)
    ensures
        r@ == hit_id_spec(*hit),
{
    match hit.member("_id") {
        Some(v) => match v.text() {
            Some(id) => id,
            None => String::new(),
        },
        None => String::new(),
    }
}

/// The identifiers of the hits, in their order.
pub fn hit_ids(hits: &[Json]) -> (r: Vec<String>)
    ensures
        r@.len() == hits@.len(),
        forall|i: int| 0 <= i < hits@.len() ==> (#[trigger] r@[i])@ == hit_id_spec(hits@[i]),
{
    let mut ids: Vec<String> = Vec::new();
    let mut i: usize = 0;
    while i < hits.len()
        invariant
            i <= hits@.len(),
            ids@.len() == i,
            forall|j: int| 0 <= j < i ==> (#[trigger] ids@[j])@ == hit_id_spec(hits@[j]),
        decreases hits.len() - i,
    {
        ids.push(hit_id(&hits[i]));
        i = i + 1;
    }
    ids
}

} // verus!
