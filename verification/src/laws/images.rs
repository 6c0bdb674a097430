//! Generated images.

use crate::image_adapter;
use crate::json::{Json, Number, Tree};
use crate::laws::documents::has_just;
use crate::normalized::{
    GeneratedImage, ImageView, NormalizedImageRequest, NormalizedImageResponse, ProviderError,
    ProviderErrorView,
};
use crate::text;
use vstd::prelude::*;

verus! {

/// A decoded reply has one image per prediction, in their order, none with a
/// revised prompt.
pub proof fn law_one_image_per_prediction(entries: Seq<Tree>)
    requires
        image_adapter::images_of(entries) is Ok,
    ensures
        image_adapter::images_of(entries)->Ok_0.len() == entries.len(),
        forall|i: int|
            0 <= i < entries.len() ==> image_adapter::image_of(entries[i]) == Ok::<
                ImageView,
                ProviderErrorView,
            >(#[trigger] image_adapter::images_of(entries)->Ok_0[i]),
        forall|i: int|
            0 <= i < entries.len() ==> (#[trigger] image_adapter::images_of(
                entries,
            )->Ok_0[i]).revised_prompt is None,
    decreases entries.len(),
{
    if entries.len() > 0 {
        let fewer = entries.drop_last();
        law_one_image_per_prediction(fewer);
        assert forall|i: int| 0 <= i < entries.len() implies image_adapter::image_of(entries[i])
            == Ok::<ImageView, ProviderErrorView>(
            #[trigger] image_adapter::images_of(entries)->Ok_0[i],
        ) by {
            if i < fewer.len() {
                assert(fewer[i] == entries[i]);
                assert(image_adapter::images_of(fewer)->Ok_0[i] == image_adapter::images_of(
                    entries,
                )->Ok_0[i]);
            }
        }
    }
}

/// The label of a picture that is turned on its side.
pub open spec fn turned(label: Seq<char>) -> Seq<char> {
    if label == "16:9"@ {
        "9:16"@
    } else if label == "9:16"@ {
        "16:9"@
    } else if label == "4:3"@ {
        "3:4"@
    } else if label == "3:4"@ {
        "4:3"@
    } else {
        label
    }
}

/// To swap width and height turns the label.
pub proof fn law_swapped_sides_turn_the_label(w: nat, h: nat)
    ensures
        image_adapter::ratio_label(h as int, w as int) == match image_adapter::ratio_label(
            w as int,
            h as int,
        ) {
            Some(label) => Some(turned(label)),
            None => None,
        },
{
    reveal_strlit("1:1");
    reveal_strlit("16:9");
    reveal_strlit("9:16");
    reveal_strlit("4:3");
    reveal_strlit("3:4");
    assert("1:1"@.len() == 3 && "1:1"@[0] == '1');
    assert("16:9"@.len() == 4 && "16:9"@[0] == '1');
    assert("9:16"@.len() == 4 && "9:16"@[0] == '9');
    assert("4:3"@.len() == 3 && "4:3"@[0] == '4');
    assert("3:4"@.len() == 3 && "3:4"@[0] == '3');
}

/// Pictures in the same proportion have the same label, whatever their size.
pub proof fn law_scale_keeps_the_label(w: nat, h: nat, factor: nat)
    requires
        factor > 0,
    ensures
        image_adapter::ratio_label((factor * w) as int, (factor * h) as int)
            == image_adapter::ratio_label(w as int, h as int),
{
    let a = w as int;
    let b = h as int;
    let k = factor as int;
    assert(k * a == k * b <==> a == b) by (nonlinear_arith)
        requires
            k > 0,
    ;
    assert((k * a) * 9 == (k * b) * 16 <==> a * 9 == b * 16) by (nonlinear_arith)
        requires
            k > 0,
    ;
    assert((k * a) * 16 == (k * b) * 9 <==> a * 16 == b * 9) by (nonlinear_arith)
        requires
            k > 0,
    ;
    assert((k * a) * 3 == (k * b) * 4 <==> a * 3 == b * 4) by (nonlinear_arith)
        requires
            k > 0,
    ;
    assert((k * a) * 4 == (k * b) * 3 <==> a * 4 == b * 3) by (nonlinear_arith)
        requires
            k > 0,
    ;
}

/// A request names an aspect ratio if and only if it has a size whose
/// proportion has a label.
pub proof fn law_aspect_ratio_follows_the_size(request: NormalizedImageRequest)
    ensures
        Tree::Object(image_adapter::parameter_fields(request)).get("aspectRatio"@) == (
        match request.size {
            Some(size) => match image_adapter::size_label(size@) {
                Some(label) => Some(Tree::Text(label)),
                None => None,
            },
            None => None,
        }),
        Tree::Object(image_adapter::parameter_fields(request)).get("sampleCount"@) == Some(
            Tree::Number(Number::PosInt(request.n as u64)),
        ),
{
    reveal_strlit("sampleCount");
    reveal_strlit("sampleImageSize");
    reveal_strlit("aspectRatio");
    reveal_strlit("seed");
    reveal_strlit("negativePrompt");
    assert("sampleCount"@.len() == 11 && "sampleCount"@[0] == 's');
    assert("sampleImageSize"@.len() == 15);
    assert("aspectRatio"@.len() == 11 && "aspectRatio"@[0] == 'a');
    assert("seed"@.len() == 4);
    assert("negativePrompt"@.len() == 14);
}

/// The quality, the style and the output format of a request have no effect.
pub proof fn law_unused_image_settings_have_no_effect(
    one: NormalizedImageRequest,
    other: NormalizedImageRequest,
)
    requires
        one == (NormalizedImageRequest {
            quality: one.quality,
            style: one.style,
            output_format: one.output_format,
            ..other
        }),
    ensures
        image_adapter::request_tree(one) == image_adapter::request_tree(other),
{
}

/// A numeral is made of digits, and of one at least.
proof fn lemma_decimal_digits(n: nat)
    ensures
        text::decimal(n).len() > 0,
        forall|i: int|
            0 <= i < text::decimal(n).len() ==> '0' <= #[trigger] text::decimal(n)[i] <= '9',
    decreases n,
{
    if n >= 10 {
        lemma_decimal_digits(n / 10);
    }
}

/// A character is first found right after a text that does not hold it.
proof fn lemma_char_index_after(before: Seq<char>, c: char, after: Seq<char>)
    requires
        forall|i: int| 0 <= i < before.len() ==> #[trigger] before[i] != c,
    ensures
        text::char_index(before.push(c) + after, c) == before.len(),
    decreases before.len(),
{
    let whole = before.push(c) + after;
    if before.len() > 0 {
        assert(whole[0] == before[0]);
        assert(whole.skip(1) =~= before.skip(1).push(c) + after);
        assert forall|i: int| 0 <= i < before.skip(1).len() implies #[trigger] before.skip(1)[i]
            != c by {
            assert(before.skip(1)[i] == before[i + 1]);
        }
        lemma_char_index_after(before.skip(1), c, after);
    }
}

/// A width and a height that are written as `WxH` read back.
pub proof fn law_sizes_read_back(w: u32, h: u32)
    ensures
        image_adapter::width_and_height(
            text::decimal(w as nat).push('x') + text::decimal(h as nat),
        ) == Some((w, h)),
{
    let width = text::decimal(w as nat);
    let height = text::decimal(h as nat);
    let size = width.push('x') + height;
    lemma_decimal_digits(w as nat);
    lemma_decimal_digits(h as nat);
    text::lemma_decimal_value(w as nat);
    text::lemma_decimal_value(h as nat);
    lemma_char_index_after(width, 'x', height);
    assert(size.take(width.len() as int) =~= width);
    assert(size.skip(width.len() as int + 1) =~= height);
    assert(width[0] != '+' && height[0] != '+');
}

// ---------------------------------------------------------------------------
// What a request asks for
// ---------------------------------------------------------------------------

/// A field that is there where there is something to say, and says just that.
pub open spec fn says(tree: Tree, key: Seq<char>, value: Option<Tree>) -> bool {
    tree.get(key) == value
}

/// The body that an image request is encoded as holds one instance with the very
/// prompt, and the parameters. Each of these says what the request says of it,
/// whatever else the request says, and is left out where it says nothing.
pub proof fn law_images_are_asked_for_as_wanted(
    request: NormalizedImageRequest,
    body: Json,
    key: Seq<char>,
)
    requires
        call_ensures(image_adapter::encode_request, (&request,), body),
    ensures
        has_just(body@, set!["instances"@, "parameters"@]),
        body@.get("instances"@) matches Some(Tree::Array(instances)) && instances.len() == 1
            && instances[0].get("prompt"@) == Some(Tree::Text(request.prompt@)) && has_just(
            instances[0],
            set!["prompt"@],
        ),
        body@.get("parameters"@) matches Some(Tree::Object(fields)) && {
            let parameters = Tree::Object(fields);
            &&& says(
                parameters,
                "sampleCount"@,
                Some(Tree::Number(Number::PosInt(request.n as u64))),
            )
            &&& says(
                parameters,
                "sampleImageSize"@,
                match request.size {
                    Some(size) => Some(Tree::Text(size@)),
                    None => None,
                },
            )
            &&& says(
                parameters,
                "seed"@,
                match request.seed {
                    Some(seed) => Some(Tree::Number(Number::PosInt(seed))),
                    None => None,
                },
            )
            &&& says(
                parameters,
                "negativePrompt"@,
                match request.negative_prompt {
                    Some(prompt) => Some(Tree::Text(prompt@)),
                    None => None,
                },
            )
            &&& request.size is None ==> says(parameters, "aspectRatio"@, None)
            &&& key != "sampleCount"@ && key != "sampleImageSize"@ && key != "aspectRatio"@ && key
                != "seed"@ && key != "negativePrompt"@ ==> says(parameters, key, None)
        },
{
    lemma_parameter_keys();
    reveal_strlit("instances");
    reveal_strlit("parameters");
    assert("instances"@.len() == 9);
    assert("parameters"@.len() == 10);
    let tree = image_adapter::request_tree(request);
    assert(tree->Object_0.dom() =~= set!["instances"@, "parameters"@]);
    let instances = tree.get("instances"@)->0->Array_0;
    assert(instances[0]->Object_0.dom() =~= set!["prompt"@]);
}

proof fn lemma_parameter_keys()
    ensures
        "sampleCount"@.len() == 11,
        "sampleCount"@[0] == 's',
        "sampleImageSize"@.len() == 15,
        "aspectRatio"@.len() == 11,
        "aspectRatio"@[0] == 'a',
        "seed"@.len() == 4,
        "negativePrompt"@.len() == 14,
{
    reveal_strlit("sampleCount");
    reveal_strlit("sampleImageSize");
    reveal_strlit("aspectRatio");
    reveal_strlit("seed");
    reveal_strlit("negativePrompt");
}

/// A width and a height in the proportion of two numbers.
pub open spec fn in_proportion(w: u32, h: u32, across: int, up: int) -> bool {
    w * up == h * across
}

/// The label of a size of a width and a height is that of their proportion: it
/// goes into the request, and there is none where they are in no proportion
/// that has one.
pub proof fn law_labels_name_the_proportion(
    request: NormalizedImageRequest,
    body: Json,
    width: Seq<char>,
    height: Seq<char>,
    w: u32,
    h: u32,
)
    requires
        call_ensures(image_adapter::encode_request, (&request,), body),
        forall|i: int| 0 <= i < width.len() ==> #[trigger] width[i] != 'x',
        text::u32_value(width) == Some(w),
        text::u32_value(height) == Some(h),
        request.size matches Some(size) && size@ == width.push('x') + height,
    ensures
        body@.get("parameters"@) matches Some(parameters) && {
            let square = in_proportion(w, h, 1, 1);
            &&& square ==> says(parameters, "aspectRatio"@, Some(Tree::Text("1:1"@)))
            &&& !square && in_proportion(w, h, 16, 9) ==> says(
                parameters,
                "aspectRatio"@,
                Some(Tree::Text("16:9"@)),
            )
            &&& !square && in_proportion(w, h, 9, 16) ==> says(
                parameters,
                "aspectRatio"@,
                Some(Tree::Text("9:16"@)),
            )
            &&& !square && in_proportion(w, h, 4, 3) ==> says(
                parameters,
                "aspectRatio"@,
                Some(Tree::Text("4:3"@)),
            )
            &&& !square && in_proportion(w, h, 3, 4) ==> says(
                parameters,
                "aspectRatio"@,
                Some(Tree::Text("3:4"@)),
            )
            &&& !square && !in_proportion(w, h, 16, 9) && !in_proportion(w, h, 9, 16)
                && !in_proportion(w, h, 4, 3) && !in_proportion(w, h, 3, 4) ==> says(
                parameters,
                "aspectRatio"@,
                None,
            )
        },
{
    lemma_parameter_keys();
    reveal_strlit("instances");
    reveal_strlit("parameters");
    assert("instances"@.len() == 9);
    assert("parameters"@.len() == 10);
    let size = request.size->0@;
    lemma_char_index_after(width, 'x', height);
    assert(size.take(width.len() as int) =~= width);
    assert(size.skip(width.len() as int + 1) =~= height);
    assert(image_adapter::width_and_height(size) == Some((w, h)));
}

/// What is no width and height with an `x` between them has no label.
pub proof fn law_what_is_no_size_has_no_label(
    request: NormalizedImageRequest,
    body: Json,
    width: Seq<char>,
    height: Seq<char>,
)
    requires
        call_ensures(image_adapter::encode_request, (&request,), body),
        forall|i: int| 0 <= i < width.len() ==> #[trigger] width[i] != 'x',
        request.size matches Some(size) && (size@ == width || (size@ == width.push('x') + height
            && (text::u32_value(width) is None || text::u32_value(height) is None))),
    ensures
        body@.get("parameters"@) matches Some(parameters) && says(
            parameters,
            "aspectRatio"@,
            None,
        ),
{
    lemma_parameter_keys();
    reveal_strlit("instances");
    reveal_strlit("parameters");
    assert("instances"@.len() == 9);
    assert("parameters"@.len() == 10);
    let size = request.size->0@;
    if size == width {
        lemma_char_index_none(width, 'x');
    } else {
        lemma_char_index_after(width, 'x', height);
        assert(size.take(width.len() as int) =~= width);
        assert(size.skip(width.len() as int + 1) =~= height);
    }
    assert(image_adapter::width_and_height(size) is None);
}

proof fn lemma_char_index_none(s: Seq<char>, c: char)
    requires
        forall|i: int| 0 <= i < s.len() ==> #[trigger] s[i] != c,
    ensures
        text::char_index(s, c) == s.len(),
    decreases s.len(),
{
    if s.len() > 0 {
        assert forall|i: int| 0 <= i < s.skip(1).len() implies #[trigger] s.skip(1)[i] != c by {
            assert(s.skip(1)[i] == s[i + 1]);
        }
        lemma_char_index_none(s.skip(1), c);
    }
}

// ---------------------------------------------------------------------------
// What a reply holds
// ---------------------------------------------------------------------------

/// A prediction that holds an image: these bytes in base64, of this type, or of
/// PNG where it names no type.
pub open spec fn depicts(entry: Tree, bytes: Seq<u8>, mime_type: Seq<char>) -> bool {
    &&& entry.get("bytesBase64Encoded"@) matches Some(Tree::Text(text))
    &&& image_adapter::base64_decoded(text) == Ok::<Seq<u8>, Seq<char>>(bytes)
    &&& match entry.get("mimeType"@) {
        Some(Tree::Text(named)) => mime_type == named,
        _ => mime_type == "image/png"@,
    }
}

/// What is wrong with a reply.
pub open spec fn faulty(
    decoded: Result<NormalizedImageResponse, ProviderError>,
    message: Seq<char>,
) -> bool {
    decoded matches Err(error) && error@ == (ProviderErrorView::Malformed { message })
}

/// A reply of predictions that hold images is decoded to these very images, in
/// their order, none with a revised prompt.
pub proof fn law_images_are_read_as_they_are(
    reply: Json,
    bytes: Seq<Seq<u8>>,
    types: Seq<Seq<char>>,
    decoded: Result<NormalizedImageResponse, ProviderError>,
    i: int,
)
    requires
        call_ensures(image_adapter::decode_response, (&reply,), decoded),
        reply@.get("predictions"@) matches Some(Tree::Array(entries)) && entries.len()
            == bytes.len() && forall|k: int|
            0 <= k < entries.len() ==> depicts(#[trigger] entries[k], bytes[k], types[k]),
    ensures
        decoded matches Ok(response) && response.images@.len() == bytes.len() && (0 <= i
            < bytes.len() ==> response.images@[i].bytes@ == bytes[i]
            && response.images@[i].mime_type@ == types[i]
            && response.images@[i].revised_prompt is None),
{
    let entries = reply@.get("predictions"@)->0->Array_0;
    lemma_images(entries, bytes, types);
    match decoded {
        Ok(response) => {
            assert(response@ == image_adapter::images_of(entries)->Ok_0);
            assert(response@.len() == response.images@.len());
            if 0 <= i < bytes.len() {
                assert(response@[i] == response.images@[i]@);
                assert(depicts(entries[i], bytes[i], types[i]));
            }
        },
        Err(_) => {},
    }
}

proof fn lemma_images(entries: Seq<Tree>, bytes: Seq<Seq<u8>>, types: Seq<Seq<char>>)
    requires
        entries.len() <= bytes.len(),
        forall|k: int|
            0 <= k < entries.len() ==> depicts(#[trigger] entries[k], bytes[k], types[k]),
    ensures
        image_adapter::images_of(entries) matches Ok(images) && images.len() == entries.len()
            && forall|k: int|
            0 <= k < images.len() ==> #[trigger] images[k] == (ImageView {
                bytes: bytes[k],
                mime_type: types[k],
                revised_prompt: None,
            }),
    decreases entries.len(),
{
    if entries.len() > 0 {
        let fewer = entries.drop_last();
        assert forall|k: int| 0 <= k < fewer.len() implies depicts(
            #[trigger] fewer[k],
            bytes[k],
            types[k],
        ) by {
            assert(entries[k] == fewer[k]);
        }
        lemma_images(fewer, bytes, types);
        let last = entries.len() - 1;
        assert(depicts(entries[last], bytes[last], types[last]));
    }
}

/// A reply without an array of predictions is refused for the lack of it. So is
/// one whose first prediction that does not fit holds no text of bytes, or one
/// that is no base64.
pub proof fn law_faults_of_predictions(
    reply: Json,
    bytes: Seq<Seq<u8>>,
    types: Seq<Seq<char>>,
    decoded: Result<NormalizedImageResponse, ProviderError>,
)
    requires
        call_ensures(image_adapter::decode_response, (&reply,), decoded),
        reply@.get("predictions"@) matches Some(Tree::Array(entries)) ==> entries.len()
            > bytes.len() && forall|k: int|
            0 <= k < bytes.len() ==> depicts(#[trigger] entries[k], bytes[k], types[k]),
    ensures
        match reply@.get("predictions"@) {
            Some(Tree::Array(entries)) => match entries[bytes.len() as int].get(
                "bytesBase64Encoded"@,
            ) {
                Some(Tree::Text(text)) => image_adapter::base64_decoded(text) matches Err(why)
                    ==> faulty(decoded, "decode bytesBase64Encoded: "@ + why),
                _ => faulty(decoded, "prediction missing `bytesBase64Encoded`"@),
            },
            _ => faulty(decoded, "response missing `predictions`"@),
        },
{
    if let Some(Tree::Array(entries)) = reply@.get("predictions"@) {
        let n = bytes.len() as int;
        let fine = entries.take(n);
        let start = entries.take(n + 1);
        assert forall|k: int| 0 <= k < fine.len() implies depicts(
            #[trigger] fine[k],
            bytes[k],
            types[k],
        ) by {
            assert(entries[k] == fine[k]);
        }
        lemma_images(fine, bytes, types);
        assert(start.drop_last() =~= fine);
        assert(start.last() == entries[n]);
        if image_adapter::images_of(start) is Err {
            lemma_predictions_fail(entries, n + 1);
        }
    }
}

proof fn lemma_predictions_fail(entries: Seq<Tree>, n: int)
    requires
        0 <= n <= entries.len(),
        image_adapter::images_of(entries.take(n)) is Err,
    ensures
        image_adapter::images_of(entries) == image_adapter::images_of(entries.take(n)),
    decreases entries.len() - n,
{
    if n < entries.len() {
        assert(entries.take(n + 1).drop_last() =~= entries.take(n));
        lemma_predictions_fail(entries, n + 1);
    } else {
        assert(entries.take(n) =~= entries);
    }
}

/// The label that a size is mapped to is that of the size.
pub proof fn law_sizes_are_mapped_to_their_label(size: &str, label: Option<&'static str>)
    requires
        call_ensures(image_adapter::aspect_ratio_for_size, (size,), label),
    ensures
        match label {
            Some(name) => image_adapter::size_label(size@) == Some(name@),
            None => image_adapter::size_label(size@) is None,
        },
{
}

/// An image is made of the bytes that were decoded, as they are, and of the type
/// that its prediction names, or PNG. What could not be decoded is refused.
pub proof fn law_images_are_made_of_their_bytes(
    entry: Json,
    decoded: Result<Vec<u8>, String>,
    image: Result<GeneratedImage, ProviderError>,
)
    requires
        call_ensures(image_adapter::decode_image, (&entry, decoded), image),
    ensures
        match decoded {
            Ok(bytes) => {
                &&& image matches Ok(made)
                &&& made.bytes@ == bytes@
                &&& made.revised_prompt is None
                &&& match entry@.get("mimeType"@) {
                    Some(Tree::Text(named)) => made.mime_type@ == named,
                    _ => made.mime_type@ == "image/png"@,
                }
            },
            Err(why) => image matches Err(error) && error@ == (ProviderErrorView::Malformed {
                message: "decode bytesBase64Encoded: "@ + why@,
            }),
        },
{
}

} // verus!
