//! Where requests go.

use crate::adapter;
use crate::adapter::GeminiAdapter;
use crate::embedding_adapter;
use crate::embedding_adapter::GeminiEmbeddingAdapter;
use crate::http;
use crate::http::{Header, HttpRequest};
use crate::image_adapter;
use crate::image_adapter::GeminiImageAdapter;
use crate::laws::failures::{auth_failed, bad_request, network_failed};
use crate::normalized::{
    NormalizedChatRequest, NormalizedEmbeddingRequest, NormalizedImageRequest, ProviderError,
};
use crate::text;
use std::time::Duration;
use vstd::prelude::*;

verus! {

/// Slashes at the end of a base URL make no difference.
pub proof fn law_trailing_slashes_make_no_difference(base_url: Seq<char>, slashes: Seq<char>)
    requires
        forall|i: int| 0 <= i < slashes.len() ==> #[trigger] slashes[i] == '/',
    ensures
        text::without_trailing(base_url + slashes, '/') == text::without_trailing(base_url, '/'),
    decreases slashes.len(),
{
    if slashes.len() == 0 {
        assert(base_url + slashes =~= base_url);
    } else {
        assert(slashes[slashes.len() - 1] == '/');
        assert((base_url + slashes).drop_last() =~= base_url + slashes.drop_last());
        law_trailing_slashes_make_no_difference(base_url, slashes.drop_last());
    }
}

/// The URL of a method has no double slash before `models`: what precedes
/// `/models/` does not end in a slash.
pub proof fn law_no_double_slash_before_models(
    base_url: Seq<char>,
    model: Seq<char>,
    method: Seq<char>,
)
    ensures
        ({
            let base = text::without_trailing(base_url, '/');
            &&& base.len() > 0 ==> base.last() != '/'
            &&& text::occurs_at(
                http::model_url(base, model, method),
                "/models/"@,
                base.len() as int,
            )
            &&& base.len() > 0 ==> http::model_url(base, model, method)[base.len() - 1] != '/'
        }),
    decreases base_url.len(),
{
    let base = text::without_trailing(base_url, '/');
    if base_url.len() > 0 && base_url.last() == '/' {
        law_no_double_slash_before_models(base_url.drop_last(), model, method);
    } else {
        let url = http::model_url(base, model, method);
        let mark = "/models/"@;
        assert(url.subrange(base.len() as int, (base.len() + mark.len()) as int) =~= mark);
    }
}

// ---------------------------------------------------------------------------
// What a request is sent with
// ---------------------------------------------------------------------------

/// The path of a method of a model under a base.
pub open spec fn path_of(base: Seq<char>, model: Seq<char>, method: Seq<char>) -> Seq<char> {
    base + "/models/"@ + model + method
}

/// Each adapter asks its own method, of the model that it is given, under its
/// base.
pub proof fn law_each_adapter_has_its_method(
    chat: GeminiAdapter,
    embeddings: GeminiEmbeddingAdapter,
    images: GeminiImageAdapter,
    model: &str,
    whole: String,
    streamed: String,
    embedded: String,
    pictured: String,
)
    requires
        call_ensures(GeminiAdapter::endpoint_url, (&chat, model), whole),
        call_ensures(GeminiAdapter::streaming_endpoint_url, (&chat, model), streamed),
        call_ensures(GeminiEmbeddingAdapter::endpoint_url, (&embeddings, model), embedded),
        call_ensures(GeminiImageAdapter::endpoint_url, (&images, model), pictured),
    ensures
        whole@ == path_of(chat.base(), model@, ":generateContent"@),
        streamed@ == path_of(chat.base(), model@, ":streamGenerateContent?alt=sse"@),
        embedded@ == path_of(embeddings.base(), model@, ":batchEmbedContents"@),
        pictured@ == path_of(images.base(), model@, ":predict"@),
{
}

/// A key that can stand in a header: no character of it is a control character
/// of ASCII other than a tab.
pub open spec fn sendable(key: Seq<char>) -> bool {
    forall|i: int|
        0 <= i < key.len() ==> #[trigger] key[i] as u32 == 9 || key[i] as u32 >= 32 && key[i] as u32
            != 127
}

/// The two headers of a request: its body is JSON, and this is its key.
pub open spec fn carries(headers: Seq<Header>, key: Seq<char>) -> bool {
    &&& headers.len() == 2
    &&& headers[0].name@ == "content-type"@
    &&& headers[0].value@ == "application/json"@
    &&& headers[1].name@ == "x-goog-api-key"@
    &&& headers[1].value@ == key
}

/// What is said of a key that cannot stand in a header.
pub open spec fn unsendable(error: ProviderError) -> bool {
    bad_request(error, "api_key contains characters not allowed in HTTP headers"@)
}

proof fn lemma_headers(headers: Seq<Header>, key: Seq<char>)
    requires
        http::header_views(headers) == http::request_headers(key),
    ensures
        carries(headers, key),
{
    let views = http::header_views(headers);
    assert(views.len() == headers.len());
    assert(views[0] == headers[0]@);
    assert(views[1] == headers[1]@);
}

/// Every request carries its key, as it is, and says that its body is JSON. A
/// key that cannot stand in a header is refused, and the embedding and the image
/// adapter refuse an empty one too.
pub proof fn law_requests_carry_the_key(
    chat: GeminiAdapter,
    embeddings: GeminiEmbeddingAdapter,
    images: GeminiImageAdapter,
    of_chat: Result<Vec<Header>, ProviderError>,
    of_embeddings: Result<Vec<Header>, ProviderError>,
    of_images: Result<Vec<Header>, ProviderError>,
)
    requires
        call_ensures(GeminiAdapter::build_headers, (&chat,), of_chat),
        call_ensures(GeminiEmbeddingAdapter::build_headers, (&embeddings,), of_embeddings),
        call_ensures(GeminiImageAdapter::build_headers, (&images,), of_images),
    ensures
        match of_chat {
            Ok(headers) => sendable(chat.key()) && carries(headers@, chat.key()),
            Err(error) => !sendable(chat.key()) && unsendable(error),
        },
        match of_embeddings {
            Ok(headers) => embeddings.key().len() > 0 && sendable(embeddings.key()) && carries(
                headers@,
                embeddings.key(),
            ),
            Err(error) => if embeddings.key().len() == 0 {
                auth_failed(error, "api_key is empty"@)
            } else {
                !sendable(embeddings.key()) && unsendable(error)
            },
        },
        match of_images {
            Ok(headers) => images.key().len() > 0 && sendable(images.key()) && carries(
                headers@,
                images.key(),
            ),
            Err(error) => if images.key().len() == 0 {
                auth_failed(error, "api_key is empty"@)
            } else {
                !sendable(images.key()) && unsendable(error)
            },
        },
{
    if let Ok(headers) = of_chat {
        lemma_headers(headers@, chat.key());
    }
    if let Ok(headers) = of_embeddings {
        lemma_headers(headers@, embeddings.key());
    }
    if let Ok(headers) = of_images {
        lemma_headers(headers@, images.key());
    }
}

/// A chat request goes to the method for whole or for streamed replies of its
/// model, with the headers of every request and with its body; only its key can
/// stop it.
pub proof fn law_chat_requests_are_put_together(
    chat: GeminiAdapter,
    request: NormalizedChatRequest,
    streaming: bool,
    prepared: Result<HttpRequest, ProviderError>,
)
    requires
        call_ensures(GeminiAdapter::prepare, (&chat, &request, streaming), prepared),
    ensures
        match prepared {
            Ok(ready) => {
                &&& sendable(chat.key())
                &&& streaming ==> ready.url@ == path_of(
                    chat.base(),
                    request.model@,
                    ":streamGenerateContent?alt=sse"@,
                )
                &&& !streaming ==> ready.url@ == path_of(
                    chat.base(),
                    request.model@,
                    ":generateContent"@,
                )
                &&& carries(ready.headers@, chat.key())
                &&& ready.body@ == adapter::request_tree(request)
            },
            Err(error) => !sendable(chat.key()) && unsendable(error),
        },
{
    if let Ok(ready) = prepared {
        lemma_headers(ready.headers@, chat.key());
    }
}

/// An embedding request goes to the batch method of its model, with the headers
/// of every request and with its body; only its key can stop it.
pub proof fn law_embedding_requests_are_put_together(
    embeddings: GeminiEmbeddingAdapter,
    request: NormalizedEmbeddingRequest,
    prepared: Result<HttpRequest, ProviderError>,
)
    requires
        call_ensures(GeminiEmbeddingAdapter::prepare, (&embeddings, &request), prepared),
    ensures
        match prepared {
            Ok(ready) => {
                &&& embeddings.key().len() > 0 && sendable(embeddings.key())
                &&& ready.url@ == path_of(
                    embeddings.base(),
                    request.model@,
                    ":batchEmbedContents"@,
                )
                &&& carries(ready.headers@, embeddings.key())
                &&& ready.body@ == embedding_adapter::request_tree(request)
            },
            Err(error) => if embeddings.key().len() == 0 {
                auth_failed(error, "api_key is empty"@)
            } else {
                !sendable(embeddings.key()) && unsendable(error)
            },
        },
{
    if let Ok(ready) = prepared {
        lemma_headers(ready.headers@, embeddings.key());
    }
}

/// An image request goes to the predict method of its model, with the headers of
/// every request and with its body; only its key can stop it.
pub proof fn law_image_requests_are_put_together(
    images: GeminiImageAdapter,
    request: NormalizedImageRequest,
    prepared: Result<HttpRequest, ProviderError>,
)
    requires
        call_ensures(GeminiImageAdapter::prepare, (&images, &request), prepared),
    ensures
        match prepared {
            Ok(ready) => {
                &&& images.key().len() > 0 && sendable(images.key())
                &&& ready.url@ == path_of(images.base(), request.model@, ":predict"@)
                &&& carries(ready.headers@, images.key())
                &&& ready.body@ == image_adapter::request_tree(request)
            },
            Err(error) => if images.key().len() == 0 {
                auth_failed(error, "api_key is empty"@)
            } else {
                !sendable(images.key()) && unsendable(error)
            },
        },
{
    if let Ok(ready) = prepared {
        lemma_headers(ready.headers@, images.key());
    }
}

// ---------------------------------------------------------------------------
// How an adapter is made
// ---------------------------------------------------------------------------

/// A base without the slashes at its end.
pub open spec fn is_base_of(base: Seq<char>, base_url: Seq<char>) -> bool {
    &&& base.len() <= base_url.len()
    &&& base == base_url.take(base.len() as int)
    &&& base.len() > 0 ==> base.last() != '/'
    &&& forall|i: int| base.len() <= i < base_url.len() ==> #[trigger] base_url[i] == '/'
}

proof fn lemma_base(base_url: Seq<char>)
    ensures
        is_base_of(text::without_trailing(base_url, '/'), base_url),
    decreases base_url.len(),
{
    if base_url.len() > 0 && base_url.last() == '/' {
        let fewer = base_url.drop_last();
        lemma_base(fewer);
        let base = text::without_trailing(fewer, '/');
        assert(base_url.take(base.len() as int) =~= fewer.take(base.len() as int));
        assert forall|i: int| base.len() <= i < base_url.len() implies #[trigger] base_url[i]
            == '/' by {
            if i < fewer.len() {
                assert(fewer[i] == base_url[i]);
            }
        }
    } else {
        assert(base_url.take(base_url.len() as int) =~= base_url);
    }
}

/// What is said where no client could be built.
pub open spec fn lacks_client(error: ProviderError, why: Seq<char>) -> bool {
    network_failed(error, "build http client: "@ + why)
}

/// A chat adapter is made of a client, a base URL that is not empty and a key.
/// It keeps all three, the base without the slashes at its end.
pub proof fn law_chat_adapters_are_made(
    client: Result<reqwest::Client, String>,
    base_url: &str,
    api_key: &str,
    made: Result<GeminiAdapter, ProviderError>,
)
    requires
        call_ensures(GeminiAdapter::with_client, (client, base_url, api_key), made),
    ensures
        match client {
            Err(why) => made matches Err(error) && lacks_client(error, why@),
            Ok(sender) => if base_url@.len() == 0 {
                made matches Err(error) && bad_request(error, "gemini base_url is empty"@)
            } else {
                made matches Ok(adapter) && is_base_of(adapter.base(), base_url@) && adapter.key()
                    == api_key@ && adapter.sender() == sender
            },
        },
{
    lemma_base(base_url@);
}

/// An embedding adapter is made as a chat adapter is.
pub proof fn law_embedding_adapters_are_made(
    client: Result<reqwest::Client, String>,
    base_url: &str,
    api_key: &str,
    made: Result<GeminiEmbeddingAdapter, ProviderError>,
)
    requires
        call_ensures(GeminiEmbeddingAdapter::with_client, (client, base_url, api_key), made),
    ensures
        match client {
            Err(why) => made matches Err(error) && lacks_client(error, why@),
            Ok(sender) => if base_url@.len() == 0 {
                made matches Err(error) && bad_request(error, "base_url is empty"@)
            } else {
                made matches Ok(adapter) && is_base_of(adapter.base(), base_url@) && adapter.key()
                    == api_key@ && adapter.sender() == sender
            },
        },
{
    lemma_base(base_url@);
}

/// An image adapter is made as a chat adapter is.
pub proof fn law_image_adapters_are_made(
    client: Result<reqwest::Client, String>,
    base_url: &str,
    api_key: &str,
    made: Result<GeminiImageAdapter, ProviderError>,
)
    requires
        call_ensures(GeminiImageAdapter::with_client, (client, base_url, api_key), made),
    ensures
        match client {
            Err(why) => made matches Err(error) && lacks_client(error, why@),
            Ok(sender) => if base_url@.len() == 0 {
                made matches Err(error) && bad_request(error, "base_url is empty"@)
            } else {
                made matches Ok(adapter) && is_base_of(adapter.base(), base_url@) && adapter.key()
                    == api_key@ && adapter.sender() == sender
            },
        },
{
    lemma_base(base_url@);
}

/// A client of the adapters': it introduces itself by their name, and waits for
/// a connection as long as it is told.
pub open spec fn introduces_itself(client: reqwest::Client, connect_timeout: Duration) -> bool {
    http::client_settings(client) == (
        "mcpg-plugin-backend-llm-gemini/1.0"@,
        http::duration_nanos(connect_timeout),
    )
}

/// An adapter that is made with a client of its own keeps its base and its key
/// too, and its client introduces itself and waits as long as it is told. An
/// empty base is never accepted.
pub proof fn law_adapters_bring_their_client(
    base_url: &str,
    api_key: &str,
    connect_timeout: Duration,
    chat: Result<GeminiAdapter, ProviderError>,
    embeddings: Result<GeminiEmbeddingAdapter, ProviderError>,
    images: Result<GeminiImageAdapter, ProviderError>,
)
    requires
        call_ensures(GeminiAdapter::new, (base_url, api_key, connect_timeout), chat),
        call_ensures(GeminiEmbeddingAdapter::new, (base_url, api_key, connect_timeout), embeddings),
        call_ensures(GeminiImageAdapter::new, (base_url, api_key, connect_timeout), images),
    ensures
        base_url@.len() == 0 ==> chat is Err && embeddings is Err && images is Err,
        chat matches Ok(adapter) ==> is_base_of(adapter.base(), base_url@) && adapter.key()
            == api_key@ && introduces_itself(adapter.sender(), connect_timeout),
        embeddings matches Ok(adapter) ==> is_base_of(adapter.base(), base_url@) && adapter.key()
            == api_key@ && introduces_itself(adapter.sender(), connect_timeout),
        images matches Ok(adapter) ==> is_base_of(adapter.base(), base_url@) && adapter.key()
            == api_key@ && introduces_itself(adapter.sender(), connect_timeout),
{
    lemma_base(base_url@);
}

/// What an adapter says of itself: the provider's name, its base and its client.
/// A batch of embeddings takes a hundred inputs.
pub proof fn law_adapters_say_what_they_are(
    chat: GeminiAdapter,
    embeddings: GeminiEmbeddingAdapter,
    images: GeminiImageAdapter,
    names: (&'static str, &'static str, &'static str),
    bases: (&str, &str),
    clients: (&reqwest::Client, &reqwest::Client, &reqwest::Client),
    batch: usize,
)
    requires
        call_ensures(GeminiAdapter::label, (&chat,), names.0),
        call_ensures(GeminiEmbeddingAdapter::label, (&embeddings,), names.1),
        call_ensures(GeminiImageAdapter::label, (&images,), names.2),
        call_ensures(GeminiEmbeddingAdapter::base_url, (&embeddings,), bases.0),
        call_ensures(GeminiImageAdapter::base_url, (&images,), bases.1),
        call_ensures(GeminiAdapter::client, (&chat,), clients.0),
        call_ensures(GeminiEmbeddingAdapter::client, (&embeddings,), clients.1),
        call_ensures(GeminiImageAdapter::client, (&images,), clients.2),
        call_ensures(GeminiEmbeddingAdapter::max_batch_size, (&embeddings,), batch),
    ensures
        names.0@ == "gemini"@ && names.1@ == "gemini"@ && names.2@ == "gemini"@,
        bases.0@ == embeddings.base() && bases.1@ == images.base(),
        *clients.0 == chat.sender(),
        *clients.1 == embeddings.sender(),
        *clients.2 == images.sender(),
        batch == 100,
{
}

} // verus!
