//! Google Gemini (AI Studio) embedding adapter.
//!
//! Every call is a batch, `POST {base}/models/{model}:batchEmbedContents`; a
//! single input is a batch of one. The body is
//!
//! ```json
//! {"requests": [
//!   {"model": "models/text-embedding-004", "content": {"parts": [{"text": "..."}]}}
//! ]}
//! ```
//!
//! and the reply
//!
//! ```json
//! {"embeddings": [{"values": [0.1, 0.2]}]}
//! ```
//!
//! Gemini reports no token counts on embedding calls.

use crate::adapter::{array_under, decode_array, malformed, text_part};
use crate::http::{
    built_for, endpoint_error, header_views, is_success, key_error, model_url, request_headers,
    unexpected_status, unexpected_status_error, unparsed_error, Endpoint, Header, HttpRequest,
};
use crate::json::{
    array1, json_from_slice, lemma_trees_of, lemma_trees_push, object1, text_json, trees_of,
    with_field, Fields, Json, Number, Tree,
};
use crate::normalized::{
    EmbeddingResponseView, NormalizedEmbeddingRequest, NormalizedEmbeddingResponse, ProviderError,
    ProviderErrorView,
};
use crate::text::{
    chars_of, has, mentions, text_from_utf8_lossy, text_lowercase, unicode_lower, utf8_lossy,
    without_trailing,
};
use std::time::Duration;
use vstd::prelude::*;

verus! {

/// How many inputs one call takes at most.
pub const GEMINI_MAX_INPUTS: usize = 100;

/// The document that asks for the embedding of one text.
pub open spec fn input_tree(request: NormalizedEmbeddingRequest, text: Seq<char>) -> Tree {
    Tree::Object(
        with_field(
            map![
                "model"@ => Tree::Text("models/"@ + request.model@),
                "content"@ => Tree::Object(map!["parts"@ => Tree::Array(seq![text_part(text)])]),
            ],
            "outputDimensionality"@,
            match request.dimensions {
                Some(d) => Some(Tree::Number(Number::PosInt(d as u64))),
                None => None,
            },
        ),
    )
}

/// The documents that ask for the embeddings of the inputs, in their order.
pub open spec fn input_trees(request: NormalizedEmbeddingRequest) -> Seq<Tree> {
    request.inputs@.map_values(|text: String| input_tree(request, text@))
}

/// The body of a `batchEmbedContents` request.
pub open spec fn request_tree(request: NormalizedEmbeddingRequest) -> Tree {
    Tree::Object(map!["requests"@ => Tree::Array(input_trees(request))])
}

/// Encodes the request for the embedding of one text.
fn encode_input(request: &NormalizedEmbeddingRequest, text: &str) -> (json: Json)
    ensures
        json@ == input_tree(*request, text@),
{
    let mut model: String = "models/".to_owned();
    model.append(request.model.as_str());
    let mut fields = Fields::new();
    fields.insert("model", Json::Text(model));
    fields.insert("content", object1("parts", array1(object1("text", text_json(text)))));
    if let Some(d) = request.dimensions {
        fields.insert("outputDimensionality", Json::Number(Number::PosInt(d as u64)));
    }
    fields.into_json()
}

/// Encodes an embedding request as the body of a `batchEmbedContents` request.
pub fn encode_request(request: &NormalizedEmbeddingRequest) -> (body: Json)
    ensures
        body@ == request_tree(*request),
{
    let ghost encoded = input_trees(*request);
    let mut requests: Vec<Json> = Vec::new();
    let mut i: usize = 0;
    assert(trees_of(requests@) =~= encoded.take(0));
    while i < request.inputs.len()
        invariant
            i <= request.inputs@.len(),
            encoded == input_trees(*request),
            trees_of(requests@) == encoded.take(i as int),
        decreases request.inputs@.len() - i,
    {
        let json = encode_input(request, request.inputs[i].as_str());
        proof {
            lemma_trees_push(requests@, json);
        }
        requests.push(json);
        i = i + 1;
        assert(encoded.take(i as int) =~= encoded.take(i - 1).push(encoded[i - 1]));
    }
    assert(encoded.take(i as int) =~= encoded);
    object1("requests", Json::Array(requests))
}

/// The numbers of an array, where it holds nothing else.
pub open spec fn numbers_of(items: Seq<Tree>) -> Option<Seq<Number>> {
    if forall|i: int| 0 <= i < items.len() ==> #[trigger] items[i] is Number {
        Some(items.map_values(|item: Tree| item->Number_0))
    } else {
        None
    }
}

/// The vector of an entry, or what is wrong with it.
pub open spec fn vector_of(entry: Tree) -> Result<Seq<Number>, ProviderErrorView> {
    match array_under(entry, "values"@) {
        None => Err(
            ProviderErrorView::Malformed { message: "embedding entry missing `values`"@ },
        ),
        Some(items) => match numbers_of(items) {
            Some(numbers) => Ok(numbers),
            None => Err(
                ProviderErrorView::Malformed { message: "embedding contains non-number"@ },
            ),
        },
    }
}

/// The length of a vector as a 32-bit number: its low 32 bits.
pub open spec fn short_len(vector: Seq<Number>) -> u32 {
    (vector.len() % 0x1_0000_0000) as u32
}

/// The vectors of the entries and their common dimension, or what is wrong with
/// the first entry that something is wrong with. The first vector sets the
/// length that all of them have to have; without vectors the dimension is zero.
pub open spec fn vectors_of(entries: Seq<Tree>) -> Result<
    (Seq<Seq<Number>>, u32),
    ProviderErrorView,
>
    decreases entries.len(),
{
    if entries.len() == 0 {
        Ok((Seq::empty(), 0))
    } else {
        match vectors_of(entries.drop_last()) {
            Err(error) => Err(error),
            Ok((vectors, _)) => match vector_of(entries.last()) {
                Err(error) => Err(error),
                Ok(vector) => if vectors.len() == 0 || vector.len() == vectors[0].len() {
                    Ok((vectors.push(vector), short_len(vector)))
                } else {
                    Err(
                        ProviderErrorView::Malformed {
                            message: "embeddings have inconsistent dimensions"@,
                        },
                    )
                },
            },
        }
    }
}

/// What a reply of `batchEmbedContents` says, or what is wrong with it.
pub open spec fn response_of(reply: Tree) -> Result<EmbeddingResponseView, ProviderErrorView> {
    match array_under(reply, "embeddings"@) {
        None => Err(ProviderErrorView::Malformed { message: "response missing `embeddings`"@ }),
        Some(entries) => match vectors_of(entries) {
            Ok((embeddings, dimensions)) => Ok(
                EmbeddingResponseView { embeddings, dimensions, usage: None },
            ),
            Err(error) => Err(error),
        },
    }
}

/// The vector of an entry.
fn decode_vector(entry: &Json) -> (decoded: Result<Vec<Number>, ProviderError>)
    ensures
        match decoded {
            Ok(vector) => vector_of(entry@) == Ok::<Seq<Number>, ProviderErrorView>(vector@),
            Err(error) => vector_of(entry@) == Err::<Seq<Number>, ProviderErrorView>(error@),
        },
{
    let items = match decode_array(entry, "values") {
        Some(items) => items,
        None => {
            return Err(malformed("embedding entry missing `values`"));
        },
    };
    let ghost trees = trees_of(items@);
    proof {
        lemma_trees_of(items@);
    }
    let mut vector: Vec<Number> = Vec::new();
    let mut i: usize = 0;
    while i < items.len()
        invariant
            i <= items@.len(),
            trees == trees_of(items@),
            trees.len() == items@.len(),
            forall|k: int| 0 <= k < items@.len() ==> #[trigger] trees[k] == items@[k]@,
            array_under(entry@, "values"@) == Some(trees),
            vector@.len() == i,
            forall|k: int| 0 <= k < i ==> #[trigger] trees[k] == Tree::Number(vector@[k]),
        decreases items@.len() - i,
    {
        assert(trees[i as int] == items@[i as int]@);
        match &items[i] {
            Json::Number(n) => {
                vector.push(*n);
            },
            _ => {
                assert(!(trees[i as int] is Number));
                return Err(malformed("embedding contains non-number"));
            },
        }
        i = i + 1;
    }
    proof {
        assert forall|k: int| 0 <= k < trees.len() implies #[trigger] trees[k] is Number by {
            assert(trees[k] == Tree::Number(vector@[k]));
        }
        assert(trees.map_values(|item: Tree| item->Number_0) =~= vector@);
    }
    Ok(vector)
}

/// Where one entry fails, so does the list.
proof fn lemma_vectors_fail(entries: Seq<Tree>, i: int)
    requires
        0 <= i <= entries.len(),
        vectors_of(entries.take(i)) is Err,
    ensures
        vectors_of(entries) == vectors_of(entries.take(i)),
    decreases entries.len() - i,
{
    if i < entries.len() {
        assert(entries.take(i + 1).drop_last() =~= entries.take(i));
        lemma_vectors_fail(entries, i + 1);
    } else {
        assert(entries.take(i) =~= entries);
    }
}

/// What a list of vectors says.
pub open spec fn vector_views(vectors: Seq<Vec<Number>>) -> Seq<Seq<Number>> {
    vectors.map_values(|vector: Vec<Number>| vector@)
}

/// Decodes a reply of `batchEmbedContents`.
pub fn decode_response(value: &Json) -> (decoded: Result<
    NormalizedEmbeddingResponse,
    ProviderError,
>)
    ensures
        match decoded {
            Ok(response) => response_of(value@) == Ok::<EmbeddingResponseView, ProviderErrorView>(
                response@,
            ),
            Err(error) => response_of(value@) == Err::<EmbeddingResponseView, ProviderErrorView>(
                error@,
            ),
        },
{
    let entries = match decode_array(value, "embeddings") {
        Some(items) => items,
        None => {
            return Err(malformed("response missing `embeddings`"));
        },
    };
    let ghost trees = trees_of(entries@);
    let mut vectors: Vec<Vec<Number>> = Vec::new();
    let mut dimensions: u32 = 0;
    let mut i: usize = 0;
    proof {
        lemma_trees_of(entries@);
        assert(vector_views(vectors@) =~= Seq::empty());
    }
    while i < entries.len()
        invariant
            i <= entries@.len(),
            trees == trees_of(entries@),
            trees.len() == entries@.len(),
            forall|k: int| 0 <= k < entries@.len() ==> #[trigger] trees[k] == entries@[k]@,
            array_under(value@, "embeddings"@) == Some(trees),
            vectors_of(trees.take(i as int)) == Ok::<
                (Seq<Seq<Number>>, u32),
                ProviderErrorView,
            >((vector_views(vectors@), dimensions)),
        decreases entries@.len() - i,
    {
        assert(trees[i as int] == entries@[i as int]@);
        assert(trees.take(i + 1).drop_last() =~= trees.take(i as int));
        assert(trees.take(i + 1).last() == trees[i as int]);
        let vector = match decode_vector(&entries[i]) {
            Ok(vector) => vector,
            Err(error) => {
                proof {
                    lemma_vectors_fail(trees, i + 1);
                }
                return Err(error);
            },
        };
        proof {
            if vectors@.len() > 0 {
                assert(vector_views(vectors@)[0] == vectors@[0]@);
            }
        }
        if vectors.len() > 0 && vector.len() != vectors[0].len() {
            proof {
                lemma_vectors_fail(trees, i + 1);
            }
            return Err(malformed("embeddings have inconsistent dimensions"));
        }
        dimensions = (vector.len() as u64 % 0x1_0000_0000) as u32;
        proof {
            assert(vector_views(vectors@.push(vector)) =~= vector_views(vectors@).push(vector@));
        }
        vectors.push(vector);
        i = i + 1;
    }
    assert(trees.take(i as int) =~= trees);
    Ok(NormalizedEmbeddingResponse { embeddings: vectors, dimensions, usage: None })
}

/// What a status code other than of success is reported as; `lower` is the body
/// in lower case.
pub open spec fn status_error(status: u16, body: Seq<char>, lower: Seq<char>) -> ProviderErrorView {
    if status == 401 || status == 403 {
        ProviderErrorView::AuthFailed { message: body }
    } else if status == 429 {
        ProviderErrorView::RateLimited { message: body }
    } else if status == 400 && mentions(lower, "token"@) {
        ProviderErrorView::ContextLimit { message: body }
    } else if 400 <= status <= 499 {
        ProviderErrorView::BadRequest { message: body }
    } else if 500 <= status <= 599 {
        ProviderErrorView::Server { message: body }
    } else {
        unexpected_status(status, body)
    }
}

/// Reports a status code other than of success, given the body as text and in
/// lower case.
pub fn classify_status(status: u16, body: String, lower: &str) -> (error: ProviderError)
    requires
        100 <= status <= 999,
    ensures
        error@ == status_error(status, body@, lower@),
{
    if status == 401 || status == 403 {
        ProviderError::AuthFailed { message: body }
    } else if status == 429 {
        ProviderError::RateLimited { message: body }
    } else if status == 400 && has(&chars_of(lower), "token") {
        ProviderError::ContextLimit { message: body }
    } else if 400 <= status && status <= 499 {
        ProviderError::BadRequest { message: body }
    } else if 500 <= status && status <= 599 {
        ProviderError::Server { message: body }
    } else {
        unexpected_status_error(status, body.as_str())
    }
}

/// Reports a status code other than of success.
pub fn map_status_error(status: u16, body: &[u8]) -> (error: ProviderError)
    requires
        100 <= status <= 999,
    ensures
        error@ == status_error(status, utf8_lossy(body@), unicode_lower(utf8_lossy(body@))),
{
    let text = text_from_utf8_lossy(body);
    let lower = text_lowercase(text.as_str());
    classify_status(status, text, lower.as_str())
}

/// What a reply amounts to.
pub open spec fn reply_of(status: u16, body: Seq<u8>) -> Result<
    EmbeddingResponseView,
    ProviderErrorView,
> {
    if !is_success(status) {
        Err(status_error(status, utf8_lossy(body), unicode_lower(utf8_lossy(body))))
    } else {
        match json_from_slice(body) {
            Ok(tree) => response_of(tree),
            Err(text) => Err(
                ProviderErrorView::Malformed { message: "parse response json: "@ + text },
            ),
        }
    }
}

/// Google Gemini (AI Studio) embeddings.
pub struct GeminiEmbeddingAdapter {
    endpoint: Endpoint,
}

impl GeminiEmbeddingAdapter {
    /// The base of every URL.
    pub closed spec fn base(self) -> Seq<char> {
        self.endpoint.base()
    }

    /// The key.
    pub closed spec fn key(self) -> Seq<char> {
        self.endpoint.key()
    }

    /// The client.
    pub closed spec fn sender(self) -> reqwest::Client {
        self.endpoint.sender()
    }

    /// The adapter for a client that was built, or for the failure to build
    /// one.
    pub fn with_client(
        client: Result<reqwest::Client, String>,
        base_url: &str,
        api_key: &str,
    ) -> (made: Result<GeminiEmbeddingAdapter, ProviderError>)
        ensures
            match made {
                Ok(adapter) => {
                    &&& endpoint_error(client, base_url@, "base_url is empty"@) is None
                    &&& adapter.base() == without_trailing(base_url@, '/')
                    &&& adapter.key() == api_key@
                    &&& client == Ok::<reqwest::Client, String>(adapter.sender())
                },
                Err(error) => endpoint_error(client, base_url@, "base_url is empty"@) == Some(
                    error@,
                ),
            },
    {
        match Endpoint::with_client(client, base_url, api_key, "base_url is empty") {
            Ok(endpoint) => Ok(GeminiEmbeddingAdapter { endpoint }),
            Err(error) => Err(error),
        }
    }

    /// The adapter for a client of its own. Whether there is one rests on the
    /// machine; an empty base is refused in any case.
    pub fn new(base_url: &str, api_key: &str, connect_timeout: Duration) -> (made: Result<
        GeminiEmbeddingAdapter,
        ProviderError,
    >)
        ensures
            match made {
                Ok(adapter) => {
                    &&& base_url@.len() > 0
                    &&& adapter.base() == without_trailing(base_url@, '/')
                    &&& adapter.key() == api_key@
                    &&& built_for(adapter.sender(), connect_timeout)
                },
                Err(error) => exists|client: Result<reqwest::Client, String>| #[trigger]
                    endpoint_error(client, base_url@, "base_url is empty"@) == Some(error@),
            },
    {
        match Endpoint::new(base_url, api_key, connect_timeout, "base_url is empty") {
            Ok(endpoint) => Ok(GeminiEmbeddingAdapter { endpoint }),
            Err(error) => Err(error),
        }
    }

    /// The client to send requests with.
    pub fn client(&self) -> (client: &reqwest::Client)
        ensures
            *client == self.sender(),
    {
        self.endpoint.client()
    }

    /// The base of every URL.
    pub fn base_url(&self) -> (base: &str)
        ensures
            base@ == self.base(),
    {
        self.endpoint.base_url()
    }

    /// The provider's name.
    pub fn label(&self) -> (label: &'static str)
        ensures
            label@ == "gemini"@,
    {
        "gemini"
    }

    /// The URL of every request.
    pub fn endpoint_url(&self, model: &str) -> (url: String)
        ensures
            url@ == model_url(self.base(), model@, ":batchEmbedContents"@),
    {
        self.endpoint.url(model, ":batchEmbedContents")
    }

    /// The headers of every request; an empty key is refused.
    pub fn build_headers(&self) -> (headers: Result<Vec<Header>, ProviderError>)
        ensures
            match headers {
                Ok(list) => key_error(self.key()) is None && header_views(list@)
                    == request_headers(self.key()),
                Err(error) => key_error(self.key()) == Some(error@),
            },
    {
        self.endpoint.keyed_headers()
    }

    /// The request for a call.
    pub fn prepare(&self, request: &NormalizedEmbeddingRequest) -> (prepared: Result<
        HttpRequest,
        ProviderError,
    >)
        ensures
            match prepared {
                Ok(http) => {
                    &&& key_error(self.key()) is None
                    &&& http.url@ == model_url(self.base(), request.model@, ":batchEmbedContents"@)
                    &&& header_views(http.headers@) == request_headers(self.key())
                    &&& http.body@ == request_tree(*request)
                },
                Err(error) => key_error(self.key()) == Some(error@),
            },
    {
        let body = encode_request(request);
        let headers = match self.build_headers() {
            Ok(list) => list,
            Err(error) => {
                return Err(error);
            },
        };
        Ok(HttpRequest { url: self.endpoint_url(request.model.as_str()), headers, body })
    }

    /// How many inputs one call takes at most.
    pub fn max_batch_size(&self) -> (size: usize)
        ensures
            size == GEMINI_MAX_INPUTS,
    {
        GEMINI_MAX_INPUTS
    }

    /// What a reply amounts to.
    pub fn read_reply(&self, status: u16, body: &[u8]) -> (read: Result<
        NormalizedEmbeddingResponse,
        ProviderError,
    >)
        requires
            100 <= status <= 999,
        ensures
            match read {
                Ok(response) => reply_of(status, body@) == Ok::<
                    EmbeddingResponseView,
                    ProviderErrorView,
                >(response@),
                Err(error) => reply_of(status, body@) == Err::<
                    EmbeddingResponseView,
                    ProviderErrorView,
                >(error@),
            },
    {
        if status < 200 || 299 < status {
            return Err(map_status_error(status, body));
        }
        match Json::parse_slice(body) {
            Ok(value) => decode_response(&value),
            Err(text) => Err(unparsed_error("parse response json: ", text.as_str())),
        }
    }
}

} // verus!
