//! How failures are reported.

use crate::adapter;
use crate::adapter::GeminiAdapter;
use crate::embedding_adapter;
use crate::embedding_adapter::GeminiEmbeddingAdapter;
use crate::http;
use crate::http::TransportFailure;
use crate::image_adapter;
use crate::image_adapter::GeminiImageAdapter;
use crate::json;
use crate::normalized::{
    ChatResponseView, EmbeddingResponseView, ImageView, NormalizedChatResponse,
    NormalizedEmbeddingResponse, NormalizedImageResponse, ProviderError, ProviderErrorView,
};
use crate::text;
use vstd::prelude::*;
use vstd::utf8::*;

verus! {

/// What is quoted of a body is the body, or its beginning up to the limit and a
/// note.
pub proof fn law_excerpt_is_a_beginning(body: Seq<char>)
    requires
        adapter::quotable(body),
    ensures
        encode_utf8(body).len() <= adapter::MAX_EXCERPT ==> adapter::excerpt(body) == body,
        encode_utf8(body).len() > adapter::MAX_EXCERPT ==> exists|n: int|
            0 <= n <= body.len() && encode_utf8(#[trigger] body.take(n)).len()
                == adapter::MAX_EXCERPT && adapter::excerpt(body) == body.take(n)
                + "\u{2026}[truncated]"@,
{
    let bytes = encode_utf8(body);
    if bytes.len() > adapter::MAX_EXCERPT {
        let limit = adapter::MAX_EXCERPT as int;
        encode_utf8_valid_utf8(body);
        encode_utf8_decode_utf8(body);
        valid_utf8_split(bytes, limit);
        decode_utf8_split(bytes, limit);
        let head = decode_utf8(bytes.subrange(0, limit));
        let tail = decode_utf8(bytes.subrange(limit, bytes.len() as int));
        decode_utf8_encode_utf8(bytes.subrange(0, limit));
        assert(body =~= head + tail);
        assert(body.take(head.len() as int) =~= head);
    }
}

/// A chat call that failed by its status code is worth another try unless the
/// request or its credentials are at fault. The failure says what was quoted of
/// the body.
pub proof fn law_chat_status_errors(code: u16, quoted: Seq<char>)
    ensures
        adapter::status_error(code, quoted).retryable() <==> code != 400 && code != 401 && code
            != 403,
        adapter::status_error(code, quoted).text() == quoted,
{
}

/// An embedding call that failed by its status code is worth another try unless
/// the code is one of 4xx other than 429. On 4xx and 5xx the failure says what
/// the body says.
pub proof fn law_embedding_status_errors(code: u16, body: Seq<char>, lower: Seq<char>)
    ensures
        embedding_adapter::status_error(code, body, lower).retryable() <==> !(400 <= code <= 499)
            || code == 429,
        400 <= code <= 599 ==> embedding_adapter::status_error(code, body, lower).text() == body,
{
}

/// An image call that failed by its status code is worth another try unless the
/// code is one of 4xx other than 429. On 4xx and 5xx the failure says what the
/// body says.
pub proof fn law_image_status_errors(code: u16, body: Seq<char>)
    ensures
        image_adapter::status_error(code, body).retryable() <==> !(400 <= code <= 499) || code
            == 429,
        400 <= code <= 599 ==> image_adapter::status_error(code, body).text() == body,
{
}

/// Every failure of the transport is worth another try.
pub proof fn law_transport_errors_are_retryable(failure: http::TransportFailure)
    ensures
        http::transport_error(failure).retryable(),
{
}

// ---------------------------------------------------------------------------
// Which failure it is
// ---------------------------------------------------------------------------

/// The provider wants fewer calls, and says this.
pub open spec fn rate_limited(error: ProviderError, said: Seq<char>) -> bool {
    error matches ProviderError::RateLimited { message } && message@ == said
}

/// The provider does not accept the key, and says this.
pub open spec fn auth_failed(error: ProviderError, said: Seq<char>) -> bool {
    error matches ProviderError::AuthFailed { message } && message@ == said
}

/// The conversation is too long for the model, and this is said of it.
pub open spec fn context_limit(error: ProviderError, said: Seq<char>) -> bool {
    error matches ProviderError::ContextLimit { message } && message@ == said
}

/// The request is at fault, and this is said of it.
pub open spec fn bad_request(error: ProviderError, said: Seq<char>) -> bool {
    error matches ProviderError::BadRequest { message } && message@ == said
}

/// The provider is at fault, and says this.
pub open spec fn server_failed(error: ProviderError, said: Seq<char>) -> bool {
    error matches ProviderError::Server { message } && message@ == said
}

/// The network is at fault, and this is said of it.
pub open spec fn network_failed(error: ProviderError, said: Seq<char>) -> bool {
    error matches ProviderError::Network { message } && message@ == said
}

/// The reply is at fault, and this is said of it.
pub open spec fn malformed(error: ProviderError, said: Seq<char>) -> bool {
    error matches ProviderError::Malformed { message } && message@ == said
}

/// A failure says of itself what it is: its class and its message.
pub proof fn law_failures_say_what_they_are(error: ProviderError, said: Seq<char>)
    ensures
        rate_limited(error, said) <==> error@ == (ProviderErrorView::RateLimited { message: said }),
        auth_failed(error, said) <==> error@ == (ProviderErrorView::AuthFailed { message: said }),
        context_limit(error, said) <==> error@ == (ProviderErrorView::ContextLimit {
            message: said,
        }),
        bad_request(error, said) <==> error@ == (ProviderErrorView::BadRequest { message: said }),
        server_failed(error, said) <==> error@ == (ProviderErrorView::Server { message: said }),
        network_failed(error, said) <==> error@ == (ProviderErrorView::Network { message: said }),
        malformed(error, said) <==> error@ == (ProviderErrorView::Malformed { message: said }),
{
}

/// Worth another try are a rate limit, a failing server and a failing network;
/// and what a failure says in words is its message.
pub proof fn law_what_is_worth_another_try(
    error: ProviderError,
    yes: bool,
    said: &str,
    message: Seq<char>,
)
    requires
        call_ensures(ProviderError::is_retryable, (&error,), yes),
        call_ensures(ProviderError::message, (&error,), said),
    ensures
        yes <==> (error is RateLimited || error is Server || error is Network),
        rate_limited(error, message) || auth_failed(error, message) || context_limit(error, message)
            || bad_request(error, message) || server_failed(error, message) || network_failed(
            error,
            message,
        ) || malformed(error, message) ==> said@ == message,
{
}

/// A failed chat call is told apart by its status code, and on 400 by whether
/// what is quoted complains of the length of the conversation.
pub open spec fn tells_chat_failure(error: ProviderError, code: u16, quoted: Seq<char>) -> bool {
    let long = text::mentions(quoted, "maximum number of tokens"@) || text::mentions(
        quoted,
        "exceeds"@,
    ) || text::mentions(quoted, "context length"@);
    &&& code == 429 ==> rate_limited(error, quoted)
    &&& code == 401 || code == 403 ==> auth_failed(error, quoted)
    &&& code == 400 && long ==> context_limit(error, quoted)
    &&& code == 400 && !long ==> bad_request(error, quoted)
    &&& code != 429 && code != 401 && code != 403 && code != 400 ==> server_failed(error, quoted)
}

/// Chat failures by their status code.
pub proof fn law_chat_failures_by_status(code: u16, quoted: String, error: ProviderError)
    requires
        call_ensures(adapter::classify_status, (code, quoted), error),
    ensures
        tells_chat_failure(error, code, quoted@),
{
}

/// What is quoted of a body that can be quoted is all of its text up to 512
/// bytes, and of a longer one the characters that make up its first 512 bytes,
/// with a note. A body can be quoted unless a character straddles that place.
pub proof fn law_bodies_are_quoted(body: &[u8], quoted: String)
    requires
        call_ensures(adapter::body_excerpt, (body,), quoted),
        adapter::quotable(text::utf8_lossy(body@)),
    ensures
        ({
            let said = text::utf8_lossy(body@);
            let bytes = encode_utf8(said);
            &&& bytes.len() <= 512 ==> quoted@ == said
            &&& bytes.len() > 512 ==> exists|n: int|
                0 <= n <= said.len() && encode_utf8(#[trigger] said.take(n)).len() == 512
                    && quoted@ == said.take(n) + "\u{2026}[truncated]"@
        }),
{
    law_excerpt_is_a_beginning(text::utf8_lossy(body@));
}

/// A text can be quoted if and only if it has up to 512 bytes, or a character
/// ends right there.
pub proof fn law_what_can_be_quoted(said: &str, yes: bool)
    requires
        call_ensures(adapter::is_quotable, (said,), yes),
    ensures
        yes <==> encode_utf8(said@).len() <= 512 || is_char_boundary(encode_utf8(said@), 512),
        yes == adapter::quotable(said@),
{
}

/// A chat reply of a status code other than 2xx is a failure that quotes its
/// body, where that can be quoted. Any other is decoded, or refused where it is
/// no JSON.
pub proof fn law_chat_replies_by_status(
    chat: GeminiAdapter,
    status: u16,
    body: &[u8],
    read: Option<Result<NormalizedChatResponse, ProviderError>>,
)
    requires
        call_ensures(GeminiAdapter::read_reply, (&chat, status, body), read),
    ensures
        ({
            let failed = status < 200 || status > 299;
            let said = text::utf8_lossy(body@);
            &&& failed && !adapter::quotable(said) ==> read is None
            &&& failed && adapter::quotable(said) ==> (read matches Some(Err(error))
                && tells_chat_failure(error, status, adapter::excerpt(said)))
            &&& !failed ==> match json::json_from_slice(body@) {
                Ok(document) => match read {
                    Some(Ok(response)) => adapter::response_of(document) == Ok::<
                        ChatResponseView,
                        ProviderErrorView,
                    >(response@),
                    Some(Err(error)) => adapter::response_of(document) == Err::<
                        ChatResponseView,
                        ProviderErrorView,
                    >(error@),
                    None => false,
                },
                Err(why) => read matches Some(Err(error)) && malformed(
                    error,
                    "response is not JSON: "@ + why,
                ),
            }
        }),
{
}

/// The opening of a stream fails as a whole reply does, and not at all on 2xx.
pub proof fn law_stream_openings_by_status(
    chat: GeminiAdapter,
    status: u16,
    body: &[u8],
    failure: Option<Option<ProviderError>>,
)
    requires
        call_ensures(GeminiAdapter::read_stream_start, (&chat, status, body), failure),
    ensures
        ({
            let failed = status < 200 || status > 299;
            let said = text::utf8_lossy(body@);
            &&& !failed ==> failure is None
            &&& failed && !adapter::quotable(said) ==> failure == Some(None::<ProviderError>)
            &&& failed && adapter::quotable(said) ==> (failure matches Some(Some(error))
                && tells_chat_failure(error, status, adapter::excerpt(said)))
        }),
{
}

/// A failed embedding call is told apart by its status code, and on 400 by
/// whether its body speaks of tokens, in whatever case.
pub open spec fn tells_embedding_failure(
    error: ProviderError,
    status: u16,
    body: Seq<char>,
    lower: Seq<char>,
) -> bool {
    let tokens = text::mentions(lower, "token"@);
    &&& status == 401 || status == 403 ==> auth_failed(error, body)
    &&& status == 429 ==> rate_limited(error, body)
    &&& status == 400 && tokens ==> context_limit(error, body)
    &&& 400 <= status <= 499 && status != 401 && status != 403 && status != 429 && !(status == 400
        && tokens) ==> bad_request(error, body)
    &&& 500 <= status <= 599 ==> server_failed(error, body)
    &&& status < 400 || status > 599 ==> network_failed(
        error,
        "unexpected status "@ + http::status_text(status) + ": "@ + body,
    )
}

/// Embedding failures by their status code.
pub proof fn law_embedding_failures_by_status(
    status: u16,
    body: String,
    lower: &str,
    error: ProviderError,
)
    requires
        call_ensures(embedding_adapter::classify_status, (status, body, lower), error),
    ensures
        tells_embedding_failure(error, status, body@, lower@),
{
}

/// An embedding reply of a status code other than 2xx is a failure. Any other is
/// decoded, or refused where it is no JSON.
pub proof fn law_embedding_replies_by_status(
    embeddings: GeminiEmbeddingAdapter,
    status: u16,
    body: &[u8],
    read: Result<NormalizedEmbeddingResponse, ProviderError>,
)
    requires
        call_ensures(GeminiEmbeddingAdapter::read_reply, (&embeddings, status, body), read),
    ensures
        ({
            let said = text::utf8_lossy(body@);
            if status < 200 || status > 299 {
                read matches Err(error) && tells_embedding_failure(
                    error,
                    status,
                    said,
                    text::unicode_lower(said),
                )
            } else {
                match json::json_from_slice(body@) {
                    Ok(document) => match read {
                        Ok(response) => embedding_adapter::response_of(document) == Ok::<
                            EmbeddingResponseView,
                            ProviderErrorView,
                        >(response@),
                        Err(error) => embedding_adapter::response_of(document) == Err::<
                            EmbeddingResponseView,
                            ProviderErrorView,
                        >(error@),
                    },
                    Err(why) => read matches Err(error) && malformed(
                        error,
                        "parse response json: "@ + why,
                    ),
                }
            }
        }),
{
}

/// A failed image call is told apart by its status code.
pub open spec fn tells_image_failure(error: ProviderError, status: u16, body: Seq<char>) -> bool {
    &&& status == 401 || status == 403 ==> auth_failed(error, body)
    &&& status == 429 ==> rate_limited(error, body)
    &&& 400 <= status <= 499 && status != 401 && status != 403 && status != 429 ==> bad_request(
        error,
        body,
    )
    &&& 500 <= status <= 599 ==> server_failed(error, body)
    &&& status < 400 || status > 599 ==> network_failed(
        error,
        "unexpected status "@ + http::status_text(status) + ": "@ + body,
    )
}

/// Image failures by their status code.
pub proof fn law_image_failures_by_status(status: u16, body: String, error: ProviderError)
    requires
        call_ensures(image_adapter::classify_status, (status, body), error),
    ensures
        tells_image_failure(error, status, body@),
{
}

/// An image reply of a status code other than 2xx is a failure. Any other is
/// decoded, or refused where it is no JSON.
pub proof fn law_image_replies_by_status(
    images: GeminiImageAdapter,
    status: u16,
    body: &[u8],
    read: Result<NormalizedImageResponse, ProviderError>,
)
    requires
        call_ensures(GeminiImageAdapter::read_reply, (&images, status, body), read),
    ensures
        if status < 200 || status > 299 {
            read matches Err(error) && tells_image_failure(error, status, text::utf8_lossy(body@))
        } else {
            match json::json_from_slice(body@) {
                Ok(document) => match read {
                    Ok(response) => image_adapter::response_of(document) == Ok::<
                        Seq<ImageView>,
                        ProviderErrorView,
                    >(response@),
                    Err(error) => image_adapter::response_of(document) == Err::<
                        Seq<ImageView>,
                        ProviderErrorView,
                    >(error@),
                },
                Err(why) => read matches Err(error) && malformed(
                    error,
                    "parse response json: "@ + why,
                ),
            }
        },
{
}

/// The bodies of failures are read as they come: each adapter classifies the
/// text of the body under the status code.
pub proof fn law_bodies_of_failures_are_read(
    status: u16,
    body: &[u8],
    chat: ProviderError,
    embedding: ProviderError,
    image: ProviderError,
)
    requires
        call_ensures(adapter::map_status_error, (status, body), chat),
        call_ensures(embedding_adapter::map_status_error, (status, body), embedding),
        call_ensures(image_adapter::map_status_error, (status, body), image),
    ensures
        ({
            let said = text::utf8_lossy(body@);
            &&& tells_chat_failure(chat, status, adapter::excerpt(said))
            &&& tells_embedding_failure(embedding, status, said, text::unicode_lower(said))
            &&& tells_image_failure(image, status, said)
        }),
{
}

/// A failure of the transport is one of the network. What it says goes after the
/// first of its kinds, and stands alone where it is of none.
pub proof fn law_transport_failures_by_kind(failure: TransportFailure, error: ProviderError)
    requires
        call_ensures(http::map_transport_error, (&failure,), error),
    ensures
        ({
            let said = failure.text@;
            let sending = failure.request || failure.body || failure.decode;
            &&& failure.timeout ==> network_failed(error, "timeout: "@ + said)
            &&& !failure.timeout && failure.connect ==> network_failed(
                error,
                "connect failed: "@ + said,
            )
            &&& !failure.timeout && !failure.connect && sending ==> network_failed(
                error,
                "transport: "@ + said,
            )
            &&& !failure.timeout && !failure.connect && !sending ==> network_failed(error, said)
        }),
{
}

/// A failure at a stage of a call names the stage and then says why.
pub proof fn law_stages_are_named(stage: &str, why: &str, error: ProviderError)
    requires
        call_ensures(http::network_error, (stage, why), error),
    ensures
        network_failed(error, stage@ + ": "@ + why@),
{
}

} // verus!
