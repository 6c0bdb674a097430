//! Google Gemini (AI Studio) image-generation adapter: Imagen.
//!
//! The call is `POST {base}/models/{model}:predict`. The body is
//!
//! ```json
//! {
//!   "instances": [{"prompt": "a cat sitting on a chair"}],
//!   "parameters": {"sampleCount": 1, "sampleImageSize": "1024x1024", "aspectRatio": "1:1"}
//! }
//! ```
//!
//! and the reply
//!
//! ```json
//! {"predictions": [{"bytesBase64Encoded": "iVBORw0...", "mimeType": "image/png"}]}
//! ```

use crate::adapter::{array_under, decode_array, malformed};
use crate::http::{
    built_for, endpoint_error, header_views, is_success, key_error, model_url, request_headers,
    unexpected_status, unexpected_status_error, unparsed_error, Endpoint, Header, HttpRequest,
};
use crate::json::{
    array1, json_from_slice, lemma_trees_of, object1, object2, text_json, trees_of, with_field,
    Fields, Json, Number, Tree,
};
use crate::normalized::{
    GeneratedImage, ImageView, NormalizedImageRequest, NormalizedImageResponse, ProviderError,
    ProviderErrorView,
};
use crate::text::{
    char_index, chars_of, find_char, parse_u32, text_from_utf8_lossy, u32_value, utf8_lossy,
    without_trailing,
};
use base64::Engine;
use std::time::Duration;
use vstd::prelude::*;

verus! {

/// The width and the height of a `WxH` size: what stands before the first `x`,
/// and what stands after it.
pub open spec fn width_and_height(size: Seq<char>) -> Option<(u32, u32)> {
    let at = char_index(size, 'x') as int;
    if at >= size.len() {
        None
    } else {
        match (u32_value(size.take(at)), u32_value(size.skip(at + 1))) {
            (Some(w), Some(h)) => Some((w, h)),
            _ => None,
        }
    }
}

/// The aspect-ratio label that Imagen has for a width and a height: the one
/// whose proportion they are in.
pub open spec fn ratio_label(w: int, h: int) -> Option<Seq<char>> {
    if w == h {
        Some("1:1"@)
    } else if w * 9 == h * 16 {
        Some("16:9"@)
    } else if w * 16 == h * 9 {
        Some("9:16"@)
    } else if w * 3 == h * 4 {
        Some("4:3"@)
    } else if w * 4 == h * 3 {
        Some("3:4"@)
    } else {
        None
    }
}

/// The aspect-ratio label that Imagen has for a size.
pub open spec fn size_label(size: Seq<char>) -> Option<Seq<char>> {
    match width_and_height(size) {
        Some((w, h)) => ratio_label(w as int, h as int),
        None => None,
    }
}

/// Maps a `WxH` size to the aspect-ratio label that Imagen has for it. Of a size
/// that fits no label, and of what is no size, there is none: Imagen then goes
/// by `sampleImageSize` alone.
pub fn aspect_ratio_for_size(size: &str) -> (label: Option<&'static str>)
    ensures
        match label {
            Some(s) => size_label(size@) == Some(s@),
            None => size_label(size@) is None,
        },
{
    let chars = chars_of(size);
    assert(chars@.skip(0) =~= chars@);
    let at: usize = find_char(&chars, 0, 'x');
    if at == chars.len() {
        return None;
    }
    assert(chars@.subrange(0, at as int) =~= size@.take(at as int));
    assert(chars@.subrange(at + 1, chars@.len() as int) =~= size@.skip(at + 1));
    let width: Option<u32> = parse_u32(&chars, 0, at);
    let height: Option<u32> = parse_u32(&chars, at + 1, chars.len());
    match (width, height) {
        (Some(w), Some(h)) => {
            let w: u64 = w as u64;
            let h: u64 = h as u64;
            if w == h {
                Some("1:1")
            } else if w * 9 == h * 16 {
                Some("16:9")
            } else if w * 16 == h * 9 {
                Some("9:16")
            } else if w * 3 == h * 4 {
                Some("4:3")
            } else if w * 4 == h * 3 {
                Some("3:4")
            } else {
                None
            }
        },
        _ => None,
    }
}

/// The `parameters` of a request: the count, and what else the request sets.
pub open spec fn parameter_fields(request: NormalizedImageRequest) -> Map<Seq<char>, Tree> {
    let fields = map!["sampleCount"@ => Tree::Number(Number::PosInt(request.n as u64))];
    let fields = match request.size {
        Some(size) => with_field(
            fields.insert("sampleImageSize"@, Tree::Text(size@)),
            "aspectRatio"@,
            match size_label(size@) {
                Some(label) => Some(Tree::Text(label)),
                None => None,
            },
        ),
        None => fields,
    };
    let fields = with_field(
        fields,
        "seed"@,
        match request.seed {
            Some(seed) => Some(Tree::Number(Number::PosInt(seed))),
            None => None,
        },
    );
    with_field(
        fields,
        "negativePrompt"@,
        match request.negative_prompt {
            Some(text) => Some(Tree::Text(text@)),
            None => None,
        },
    )
}

/// The body of a `predict` request.
pub open spec fn request_tree(request: NormalizedImageRequest) -> Tree {
    Tree::Object(
        map![
            "instances"@ => Tree::Array(
                seq![Tree::Object(map!["prompt"@ => Tree::Text(request.prompt@)])],
            ),
            "parameters"@ => Tree::Object(parameter_fields(request)),
        ],
    )
}

/// Encodes an image request as the body of a `predict` request.
pub fn encode_request(request: &NormalizedImageRequest) -> (body: Json)
    ensures
        body@ == request_tree(*request),
{
    let mut params = Fields::new();
    params.insert("sampleCount", Json::Number(Number::PosInt(request.n as u64)));
    if let Some(size) = &request.size {
        params.insert("sampleImageSize", text_json(size.as_str()));
        if let Some(label) = aspect_ratio_for_size(size.as_str()) {
            params.insert("aspectRatio", text_json(label));
        }
    }
    if let Some(seed) = request.seed {
        params.insert("seed", Json::Number(Number::PosInt(seed)));
    }
    if let Some(text) = &request.negative_prompt {
        params.insert("negativePrompt", text_json(text.as_str()));
    }
    object2(
        "instances",
        array1(object1("prompt", text_json(request.prompt.as_str()))),
        "parameters",
        params.into_json(),
    )
}

/// What the standard base64 engine makes of a text: the bytes, or the text of
/// the error.
pub uninterp spec fn base64_decoded(text: Seq<char>) -> Result<Seq<u8>, Seq<char>>;

/// Calls `decode` of `base64::engine::general_purpose::STANDARD`. Its outcome
/// depends on the text alone; an error is rendered with its `Display`.
#[verifier::external_body]
fn decode_base64(text: &str) -> (decoded: Result<Vec<u8>, String>)
    ensures
        match decoded {
            Ok(bytes) => base64_decoded(text@) == Ok::<Seq<u8>, Seq<char>>(bytes@),
            Err(error) => base64_decoded(text@) == Err::<Seq<u8>, Seq<char>>(error@),
        },
{
    base64::engine::general_purpose::STANDARD.decode(text).map_err(|e| e.to_string())
}

/// The base64 text of a prediction, where it has one.
pub open spec fn prediction_text(entry: Tree) -> Option<Seq<char>> {
    match entry.get("bytesBase64Encoded"@) {
        Some(tree) => tree.as_text(),
        None => None,
    }
}

/// The MIME type of a prediction; PNG where it names none.
pub open spec fn prediction_mime(entry: Tree) -> Seq<char> {
    match entry.get("mimeType"@) {
        Some(tree) => match tree.as_text() {
            Some(s) => s,
            None => "image/png"@,
        },
        None => "image/png"@,
    }
}

/// The image of a prediction, given what its base64 text decodes to.
pub open spec fn image_from(entry: Tree, decoded: Result<Seq<u8>, Seq<char>>) -> Result<
    ImageView,
    ProviderErrorView,
> {
    match decoded {
        Ok(bytes) => Ok(
            ImageView { bytes, mime_type: prediction_mime(entry), revised_prompt: None },
        ),
        Err(text) => Err(
            ProviderErrorView::Malformed { message: "decode bytesBase64Encoded: "@ + text },
        ),
    }
}

/// The image of a prediction, or what is wrong with it.
pub open spec fn image_of(entry: Tree) -> Result<ImageView, ProviderErrorView> {
    match prediction_text(entry) {
        None => Err(
            ProviderErrorView::Malformed { message: "prediction missing `bytesBase64Encoded`"@ },
        ),
        Some(text) => image_from(entry, base64_decoded(text)),
    }
}

/// The images of the predictions, in their order, or what is wrong with the
/// first that something is wrong with.
pub open spec fn images_of(entries: Seq<Tree>) -> Result<Seq<ImageView>, ProviderErrorView>
    decreases entries.len(),
{
    if entries.len() == 0 {
        Ok(Seq::empty())
    } else {
        match images_of(entries.drop_last()) {
            Err(error) => Err(error),
            Ok(images) => match image_of(entries.last()) {
                Ok(image) => Ok(images.push(image)),
                Err(error) => Err(error),
            },
        }
    }
}

/// What a reply of `predict` says, or what is wrong with it.
pub open spec fn response_of(reply: Tree) -> Result<Seq<ImageView>, ProviderErrorView> {
    match array_under(reply, "predictions"@) {
        None => Err(ProviderErrorView::Malformed { message: "response missing `predictions`"@ }),
        Some(entries) => images_of(entries),
    }
}

/// What the decoding of a base64 text came to.
pub open spec fn decoded_view(decoded: Result<Vec<u8>, String>) -> Result<Seq<u8>, Seq<char>> {
    match decoded {
        Ok(bytes) => Ok(bytes@),
        Err(text) => Err(text@),
    }
}

/// The image of a prediction, given what its base64 text decodes to.
pub fn decode_image(entry: &Json, decoded: Result<Vec<u8>, String>) -> (image: Result<
    GeneratedImage,
    ProviderError,
>)
    ensures
        match image {
            Ok(made) => image_from(entry@, decoded_view(decoded)) == Ok::<
                ImageView,
                ProviderErrorView,
            >(made@),
            Err(error) => image_from(entry@, decoded_view(decoded)) == Err::<
                ImageView,
                ProviderErrorView,
            >(error@),
        },
{
    let bytes = match decoded {
        Ok(bytes) => bytes,
        Err(text) => {
            return Err(unparsed_error("decode bytesBase64Encoded: ", text.as_str()));
        },
    };
    let mime_type: String = match entry.get("mimeType") {
        Some(json) => match json.as_text() {
            Some(s) => s.to_owned(),
            None => "image/png".to_owned(),
        },
        None => "image/png".to_owned(),
    };
    Ok(GeneratedImage { bytes, mime_type, revised_prompt: None })
}

/// The image of a prediction.
fn decode_prediction(entry: &Json) -> (image: Result<GeneratedImage, ProviderError>)
    ensures
        match image {
            Ok(made) => image_of(entry@) == Ok::<ImageView, ProviderErrorView>(made@),
            Err(error) => image_of(entry@) == Err::<ImageView, ProviderErrorView>(error@),
        },
{
    let found: Option<&Json> = entry.get("bytesBase64Encoded");
    let text: Option<&str> = match found {
        Some(json) => json.as_text(),
        None => None,
    };
    match text {
        Some(encoded) => decode_image(entry, decode_base64(encoded)),
        None => Err(malformed("prediction missing `bytesBase64Encoded`")),
    }
}

/// Where one prediction fails, so does the list.
proof fn lemma_images_fail(entries: Seq<Tree>, i: int)
    requires
        0 <= i <= entries.len(),
        images_of(entries.take(i)) is Err,
    ensures
        images_of(entries) == images_of(entries.take(i)),
    decreases entries.len() - i,
{
    if i < entries.len() {
        assert(entries.take(i + 1).drop_last() =~= entries.take(i));
        lemma_images_fail(entries, i + 1);
    } else {
        assert(entries.take(i) =~= entries);
    }
}

/// What a list of images is.
pub open spec fn image_views(images: Seq<GeneratedImage>) -> Seq<ImageView> {
    images.map_values(|image: GeneratedImage| image@)
}

/// Decodes a reply of `predict`.
pub fn decode_response(value: &Json) -> (decoded: Result<NormalizedImageResponse, ProviderError>)
    ensures
        match decoded {
            Ok(response) => response_of(value@) == Ok::<Seq<ImageView>, ProviderErrorView>(
                response@,
            ),
            Err(error) => response_of(value@) == Err::<Seq<ImageView>, ProviderErrorView>(error@),
        },
{
    let entries = match decode_array(value, "predictions") {
        Some(items) => items,
        None => {
            return Err(malformed("response missing `predictions`"));
        },
    };
    let ghost trees = trees_of(entries@);
    let mut images: Vec<GeneratedImage> = Vec::new();
    let mut i: usize = 0;
    proof {
        lemma_trees_of(entries@);
        assert(image_views(images@) =~= Seq::empty());
    }
    while i < entries.len()
        invariant
            i <= entries@.len(),
            trees == trees_of(entries@),
            trees.len() == entries@.len(),
            forall|k: int| 0 <= k < entries@.len() ==> #[trigger] trees[k] == entries@[k]@,
            array_under(value@, "predictions"@) == Some(trees),
            images_of(trees.take(i as int)) == Ok::<Seq<ImageView>, ProviderErrorView>(
                image_views(images@),
            ),
        decreases entries@.len() - i,
    {
        assert(trees[i as int] == entries@[i as int]@);
        assert(trees.take(i + 1).drop_last() =~= trees.take(i as int));
        assert(trees.take(i + 1).last() == trees[i as int]);
        match decode_prediction(&entries[i]) {
            Ok(image) => {
                proof {
                    assert(image_views(images@.push(image)) =~= image_views(images@).push(image@));
                }
                images.push(image);
            },
            Err(error) => {
                proof {
                    lemma_images_fail(trees, i + 1);
                }
                return Err(error);
            },
        }
        i = i + 1;
    }
    assert(trees.take(i as int) =~= trees);
    Ok(NormalizedImageResponse { images })
}

/// What a status code other than of success is reported as.
pub open spec fn status_error(status: u16, body: Seq<char>) -> ProviderErrorView {
    if status == 401 || status == 403 {
        ProviderErrorView::AuthFailed { message: body }
    } else if status == 429 {
        ProviderErrorView::RateLimited { message: body }
    } else if 400 <= status <= 499 {
        ProviderErrorView::BadRequest { message: body }
    } else if 500 <= status <= 599 {
        ProviderErrorView::Server { message: body }
    } else {
        unexpected_status(status, body)
    }
}

/// Reports a status code other than of success, given the body as text.
pub fn classify_status(status: u16, body: String) -> (error: ProviderError)
    requires
        100 <= status <= 999,
    ensures
        error@ == status_error(status, body@),
{
    if status == 401 || status == 403 {
        ProviderError::AuthFailed { message: body }
    } else if status == 429 {
        ProviderError::RateLimited { message: body }
    } else if 400 <= status && status <= 499 {
        ProviderError::BadRequest { message: body }
    } else if 500 <= status && status <= 599 {
        ProviderError::Server { message: body }
    } else {
        unexpected_status_error(status, body.as_str())
    }
}

/// Reports a status code other than of success.
pub fn map_status_error(status: u16, body: &[u8]) -> (error: ProviderError)
    requires
        100 <= status <= 999,
    ensures
        error@ == status_error(status, utf8_lossy(body@)),
{
    classify_status(status, text_from_utf8_lossy(body))
}

/// What a reply amounts to.
pub open spec fn reply_of(status: u16, body: Seq<u8>) -> Result<
    Seq<ImageView>,
    ProviderErrorView,
> {
    if !is_success(status) {
        Err(status_error(status, utf8_lossy(body)))
    } else {
        match json_from_slice(body) {
            Ok(tree) => response_of(tree),
            Err(text) => Err(
                ProviderErrorView::Malformed { message: "parse response json: "@ + text },
            ),
        }
    }
}

/// Google Gemini (AI Studio) image generation.
pub struct GeminiImageAdapter {
    endpoint: Endpoint,
}

impl GeminiImageAdapter {
    /// The base of every URL.
    pub closed spec fn base(self) -> Seq<char> {
        self.endpoint.base()
    }

    /// The key.
    pub closed spec fn key(self) -> Seq<char> {
        self.endpoint.key()
    }

    /// The client.
    pub closed spec fn sender(self) -> reqwest::Client {
        self.endpoint.sender()
    }

    /// The adapter for a client that was built, or for the failure to build
    /// one.
    pub fn with_client(
        client: Result<reqwest::Client, String>,
        base_url: &str,
        api_key: &str,
    ) -> (made: Result<GeminiImageAdapter, ProviderError>)
        ensures
            match made {
                Ok(adapter) => {
                    &&& endpoint_error(client, base_url@, "base_url is empty"@) is None
                    &&& adapter.base() == without_trailing(base_url@, '/')
                    &&& adapter.key() == api_key@
                    &&& client == Ok::<reqwest::Client, String>(adapter.sender())
                },
                Err(error) => endpoint_error(client, base_url@, "base_url is empty"@) == Some(
                    error@,
                ),
            },
    {
        match Endpoint::with_client(client, base_url, api_key, "base_url is empty") {
            Ok(endpoint) => Ok(GeminiImageAdapter { endpoint }),
            Err(error) => Err(error),
        }
    }

    /// The adapter for a client of its own. Whether there is one rests on the
    /// machine; an empty base is refused in any case.
    pub fn new(base_url: &str, api_key: &str, connect_timeout: Duration) -> (made: Result<
        GeminiImageAdapter,
        ProviderError,
    >)
        ensures
            match made {
                Ok(adapter) => {
                    &&& base_url@.len() > 0
                    &&& adapter.base() == without_trailing(base_url@, '/')
                    &&& adapter.key() == api_key@
                    &&& built_for(adapter.sender(), connect_timeout)
                },
                Err(error) => exists|client: Result<reqwest::Client, String>| #[trigger]
                    endpoint_error(client, base_url@, "base_url is empty"@) == Some(error@),
            },
    {
        match Endpoint::new(base_url, api_key, connect_timeout, "base_url is empty") {
            Ok(endpoint) => Ok(GeminiImageAdapter { endpoint }),
            Err(error) => Err(error),
        }
    }

    /// The client to send requests with.
    pub fn client(&self) -> (client: &reqwest::Client)
        ensures
            *client == self.sender(),
    {
        self.endpoint.client()
    }

    /// The base of every URL.
    pub fn base_url(&self) -> (base: &str)
        ensures
            base@ == self.base(),
    {
        self.endpoint.base_url()
    }

    /// The provider's name.
    pub fn label(&self) -> (label: &'static str)
        ensures
            label@ == "gemini"@,
    {
        "gemini"
    }

    /// The URL of every request.
    pub fn endpoint_url(&self, model: &str) -> (url: String)
        ensures
            url@ == model_url(self.base(), model@, ":predict"@),
    {
        self.endpoint.url(model, ":predict")
    }

    /// The headers of every request; an empty key is refused.
    pub fn build_headers(&self) -> (headers: Result<Vec<Header>, ProviderError>)
        ensures
            match headers {
                Ok(list) => key_error(self.key()) is None && header_views(list@)
                    == request_headers(self.key()),
                Err(error) => key_error(self.key()) == Some(error@),
            },
    {
        self.endpoint.keyed_headers()
    }

    /// The request for a call.
    pub fn prepare(&self, request: &NormalizedImageRequest) -> (prepared: Result<
        HttpRequest,
        ProviderError,
    >)
        ensures
            match prepared {
                Ok(http) => {
                    &&& key_error(self.key()) is None
                    &&& http.url@ == model_url(self.base(), request.model@, ":predict"@)
                    &&& header_views(http.headers@) == request_headers(self.key())
                    &&& http.body@ == request_tree(*request)
                },
                Err(error) => key_error(self.key()) == Some(error@),
            },
    {
        let body = encode_request(request);
        let headers = match self.build_headers() {
            Ok(list) => list,
            Err(error) => {
                return Err(error);
            },
        };
        Ok(HttpRequest { url: self.endpoint_url(request.model.as_str()), headers, body })
    }

    /// What a reply amounts to.
    pub fn read_reply(&self, status: u16, body: &[u8]) -> (read: Result<
        NormalizedImageResponse,
        ProviderError,
    >)
        requires
            100 <= status <= 999,
        ensures
            match read {
                Ok(response) => reply_of(status, body@) == Ok::<
                    Seq<ImageView>,
                    ProviderErrorView,
                >(response@),
                Err(error) => reply_of(status, body@) == Err::<
                    Seq<ImageView>,
                    ProviderErrorView,
                >(error@),
            },
    {
        if status < 200 || 299 < status {
            return Err(map_status_error(status, body));
        }
        match Json::parse_slice(body) {
            Ok(value) => decode_response(&value),
            Err(text) => Err(unparsed_error("parse response json: ", text.as_str())),
        }
    }
}

} // verus!
