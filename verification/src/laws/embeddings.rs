//! Batches of embeddings.

use crate::embedding_adapter;
use crate::json::{Json, Number, Tree};
use crate::laws::documents::has_just;
use crate::normalized::{
    NormalizedEmbeddingRequest, NormalizedEmbeddingResponse, ProviderError, ProviderErrorView,
};
use vstd::prelude::*;

verus! {

/// A batch asks for one embedding per input, in the order of the inputs, each
/// naming the model.
pub proof fn law_one_request_per_input(request: NormalizedEmbeddingRequest, i: int)
    requires
        0 <= i < request.inputs@.len(),
    ensures
        embedding_adapter::input_trees(request).len() == request.inputs@.len(),
        embedding_adapter::input_trees(request)[i] == embedding_adapter::input_tree(
            request,
            request.inputs@[i]@,
        ),
        embedding_adapter::input_trees(request)[i].get("model"@) == Some(
            Tree::Text("models/"@ + request.model@),
        ),
        embedding_adapter::input_trees(request)[i].get("outputDimensionality"@) is Some
            <==> request.dimensions is Some,
{
    reveal_strlit("model");
    reveal_strlit("content");
    reveal_strlit("outputDimensionality");
    assert("model"@.len() == 5);
    assert("content"@.len() == 7);
    assert("outputDimensionality"@.len() == 20);
}

/// A decoded batch has one vector per entry, in their order. All are of one
/// length, which is the dimension that is reported as a 32-bit number; without
/// vectors that is zero.
pub proof fn law_vectors_are_of_one_dimension(entries: Seq<Tree>)
    requires
        embedding_adapter::vectors_of(entries) is Ok,
    ensures
        ({
            let (vectors, dimensions) = embedding_adapter::vectors_of(entries)->Ok_0;
            &&& vectors.len() == entries.len()
            &&& forall|i: int|
                0 <= i < vectors.len() ==> embedding_adapter::vector_of(entries[i]) == Ok::<
                    Seq<Number>,
                    ProviderErrorView,
                >(#[trigger] vectors[i])
            &&& forall|i: int|
                #![trigger vectors[i]]
                0 <= i < vectors.len() ==> vectors[i].len() == vectors[0].len()
                    && embedding_adapter::short_len(vectors[i]) == dimensions
            &&& vectors.len() == 0 ==> dimensions == 0
        }),
    decreases entries.len(),
{
    if entries.len() > 0 {
        law_vectors_are_of_one_dimension(entries.drop_last());
        let (fewer, before) = embedding_adapter::vectors_of(entries.drop_last())->Ok_0;
        let (vectors, dimensions) = embedding_adapter::vectors_of(entries)->Ok_0;
        assert forall|i: int| 0 <= i < vectors.len() implies embedding_adapter::vector_of(
            entries[i],
        ) == Ok::<Seq<Number>, ProviderErrorView>(#[trigger] vectors[i]) by {
            if i < fewer.len() {
                assert(entries.drop_last()[i] == entries[i]);
                assert(fewer[i] == vectors[i]);
            }
        }
        assert forall|i: int|
            #![trigger vectors[i]]
            0 <= i < vectors.len() implies vectors[i].len() == vectors[0].len()
            && embedding_adapter::short_len(vectors[i]) == dimensions by {
            if fewer.len() > 0 {
                assert(fewer[0] == vectors[0]);
            }
            if i < fewer.len() {
                assert(fewer[i] == vectors[i]);
            }
        }
    }
}

/// A batch with two vectors of unequal length is refused.
pub proof fn law_unequal_vectors_are_refused(entries: Seq<Tree>, i: int, j: int)
    requires
        0 <= i < j < entries.len(),
        embedding_adapter::vector_of(entries[i]) is Ok,
        embedding_adapter::vector_of(entries[j]) is Ok,
        embedding_adapter::vector_of(entries[i])->Ok_0.len() != embedding_adapter::vector_of(
            entries[j],
        )->Ok_0.len(),
    ensures
        embedding_adapter::vectors_of(entries) matches Err(error) && error is Malformed,
{
    if embedding_adapter::vectors_of(entries) is Ok {
        law_vectors_are_of_one_dimension(entries);
        let vectors = embedding_adapter::vectors_of(entries)->Ok_0.0;
        assert(vectors[i].len() == vectors[j].len());
    }
    lemma_vectors_fail_malformed(entries);
}

/// Whatever is wrong with a batch, it is reported as malformed.
proof fn lemma_vectors_fail_malformed(entries: Seq<Tree>)
    ensures
        embedding_adapter::vectors_of(entries) matches Err(error) ==> error is Malformed,
    decreases entries.len(),
{
    if entries.len() > 0 {
        lemma_vectors_fail_malformed(entries.drop_last());
    }
}

// ---------------------------------------------------------------------------
// What a batch asks for
// ---------------------------------------------------------------------------

/// A request of a batch: it names the model, and holds one part with the very
/// text, and the dimensions where any are wanted. It holds nothing else.
pub open spec fn asks_for(
    entry: Tree,
    model: Seq<char>,
    text: Seq<char>,
    dimensions: Option<u32>,
) -> bool {
    &&& entry.get("model"@) == Some(Tree::Text("models/"@ + model))
    &&& entry.get("content"@) matches Some(content)
    &&& content.get("parts"@) matches Some(Tree::Array(parts))
    &&& parts.len() == 1
    &&& parts[0].get("text"@) == Some(Tree::Text(text))
    &&& has_just(parts[0], set!["text"@])
    &&& has_just(content, set!["parts"@])
    &&& match dimensions {
        Some(d) => entry.get("outputDimensionality"@) == Some(
            Tree::Number(Number::PosInt(d as u64)),
        ) && has_just(entry, set!["model"@, "content"@, "outputDimensionality"@]),
        None => has_just(entry, set!["model"@, "content"@]),
    }
}

/// The body that an embedding request is encoded as asks for each input, in
/// their order, by its very text, and for nothing else.
pub proof fn law_batches_ask_for_each_input(
    request: NormalizedEmbeddingRequest,
    body: Json,
    i: int,
)
    requires
        call_ensures(embedding_adapter::encode_request, (&request,), body),
    ensures
        has_just(body@, set!["requests"@]),
        body@.get("requests"@) matches Some(Tree::Array(entries)) && entries.len()
            == request.inputs@.len() && (0 <= i < entries.len() ==> asks_for(
            entries[i],
            request.model@,
            request.inputs@[i]@,
            request.dimensions,
        )),
{
    reveal_strlit("model");
    reveal_strlit("content");
    reveal_strlit("outputDimensionality");
    assert("model"@.len() == 5);
    assert("content"@.len() == 7);
    assert("outputDimensionality"@.len() == 20);
    assert(embedding_adapter::request_tree(request)->Object_0.dom() =~= set!["requests"@]);
    if 0 <= i < request.inputs@.len() {
        let text = request.inputs@[i]@;
        let entry = embedding_adapter::input_tree(request, text);
        let content = entry.get("content"@)->0;
        let parts = content.get("parts"@)->0->Array_0;
        assert(parts[0]->Object_0.dom() =~= set!["text"@]);
        assert(content->Object_0.dom() =~= set!["parts"@]);
        match request.dimensions {
            Some(_) => assert(entry->Object_0.dom() =~= set![
                "model"@,
                "content"@,
                "outputDimensionality"@,
            ]),
            None => assert(entry->Object_0.dom() =~= set!["model"@, "content"@]),
        }
    }
}

// ---------------------------------------------------------------------------
// What a reply says
// ---------------------------------------------------------------------------

/// An entry that holds these numbers, in this order.
pub open spec fn holds(entry: Tree, numbers: Seq<Number>) -> bool {
    entry.get("values"@) matches Some(Tree::Array(items)) && items.len() == numbers.len()
        && forall|i: int|
        0 <= i < items.len() ==> #[trigger] items[i] == Tree::Number(numbers[i])
}

/// An entry without an array of values.
pub open spec fn valueless(entry: Tree) -> bool {
    !(entry.get("values"@) matches Some(Tree::Array(_)))
}

/// An entry one of whose values is no number.
pub open spec fn holds_more_than_numbers(entry: Tree) -> bool {
    entry.get("values"@) matches Some(Tree::Array(items)) && exists|i: int|
        0 <= i < items.len() && !(#[trigger] items[i] is Number)
}

/// What is wrong with a reply.
pub open spec fn faulty(
    decoded: Result<NormalizedEmbeddingResponse, ProviderError>,
    message: Seq<char>,
) -> bool {
    decoded matches Err(error) && error@ == (ProviderErrorView::Malformed { message })
}

/// A reply of entries that hold vectors of one length is decoded to these very
/// vectors, in their order, with their length, or its low 32 bits, as the
/// dimension and no token counts.
pub proof fn law_vectors_are_read_as_they_are(
    reply: Json,
    vectors: Seq<Seq<Number>>,
    length: nat,
    decoded: Result<NormalizedEmbeddingResponse, ProviderError>,
    i: int,
)
    requires
        call_ensures(embedding_adapter::decode_response, (&reply,), decoded),
        reply@.get("embeddings"@) matches Some(Tree::Array(entries)) && entries.len()
            == vectors.len() && forall|k: int|
            0 <= k < entries.len() ==> holds(#[trigger] entries[k], vectors[k]),
        forall|k: int| 0 <= k < vectors.len() ==> (#[trigger] vectors[k]).len() == length,
    ensures
        decoded matches Ok(response) && response.embeddings@.len() == vectors.len() && (0 <= i
            < vectors.len() ==> response.embeddings@[i]@ == vectors[i]) && response.dimensions == (
        if vectors.len() == 0 {
            0
        } else {
            length as int % 0x1_0000_0000
        }) && response.usage is None,
{
    let entries = reply@.get("embeddings"@)->0->Array_0;
    lemma_vectors(entries, vectors, length);
    match decoded {
        Ok(response) => {
            assert(response@.embeddings == vectors);
            assert(response@.embeddings.len() == response.embeddings@.len());
            if 0 <= i < vectors.len() {
                assert(response@.embeddings[i] == response.embeddings@[i]@);
            }
        },
        Err(_) => {},
    }
}

proof fn lemma_vectors(entries: Seq<Tree>, vectors: Seq<Seq<Number>>, length: nat)
    requires
        entries.len() == vectors.len(),
        forall|k: int| 0 <= k < entries.len() ==> holds(#[trigger] entries[k], vectors[k]),
        forall|k: int| 0 <= k < vectors.len() ==> (#[trigger] vectors[k]).len() == length,
    ensures
        embedding_adapter::vectors_of(entries) == Ok::<(Seq<Seq<Number>>, u32), ProviderErrorView>(
            (
                vectors,
                if vectors.len() == 0 {
                    0
                } else {
                    (length % 0x1_0000_0000) as u32
                },
            ),
        ),
    decreases entries.len(),
{
    if entries.len() == 0 {
        assert(vectors =~= Seq::empty());
    } else {
        let fewer = entries.drop_last();
        let before = vectors.drop_last();
        assert forall|k: int| 0 <= k < fewer.len() implies holds(
            #[trigger] fewer[k],
            before[k],
        ) by {
            assert(entries[k] == fewer[k]);
        }
        assert forall|k: int| 0 <= k < before.len() implies (#[trigger] before[k]).len()
            == length by {
            assert(vectors[k] == before[k]);
        }
        lemma_vectors(fewer, before, length);
        let last = entries.len() - 1;
        assert(holds(entries[last], vectors[last]));
        lemma_numbers(entries[last], vectors[last]);
        assert(vectors[last].len() == length);
        assert(before.push(vectors[last]) =~= vectors);
        if before.len() > 0 {
            assert(before[0].len() == length);
        }
    }
}

proof fn lemma_numbers(entry: Tree, numbers: Seq<Number>)
    requires
        holds(entry, numbers),
    ensures
        embedding_adapter::vector_of(entry) == Ok::<Seq<Number>, ProviderErrorView>(numbers),
{
    let items = entry.get("values"@)->0->Array_0;
    assert forall|i: int| 0 <= i < items.len() implies #[trigger] items[i] is Number by {
        assert(items[i] == Tree::Number(numbers[i]));
    }
    assert(items.map_values(|item: Tree| item->Number_0) =~= numbers) by {
        assert forall|i: int| 0 <= i < items.len() implies items[i]->Number_0 == numbers[i] by {
            assert(items[i] == Tree::Number(numbers[i]));
        }
    }
}

/// A reply without an array of embeddings is refused for the lack of it. So is
/// one of whose entries the first that does not fit holds no array of values, or
/// more than numbers, or a vector of another length.
pub proof fn law_faults_of_a_batch(
    reply: Json,
    vectors: Seq<Seq<Number>>,
    length: nat,
    decoded: Result<NormalizedEmbeddingResponse, ProviderError>,
    other: Seq<Number>,
)
    requires
        call_ensures(embedding_adapter::decode_response, (&reply,), decoded),
        reply@.get("embeddings"@) matches Some(Tree::Array(entries)) ==> entries.len()
            > vectors.len() && forall|k: int|
            0 <= k < vectors.len() ==> holds(#[trigger] entries[k], vectors[k]),
        forall|k: int| 0 <= k < vectors.len() ==> (#[trigger] vectors[k]).len() == length,
    ensures
        match reply@.get("embeddings"@) {
            Some(Tree::Array(entries)) => {
                let entry = entries[vectors.len() as int];
                &&& valueless(entry) ==> faulty(decoded, "embedding entry missing `values`"@)
                &&& holds_more_than_numbers(entry) ==> faulty(
                    decoded,
                    "embedding contains non-number"@,
                )
                &&& vectors.len() > 0 && holds(entry, other) && other.len() != length ==> faulty(
                    decoded,
                    "embeddings have inconsistent dimensions"@,
                )
            },
            _ => faulty(decoded, "response missing `embeddings`"@),
        },
{
    if let Some(Tree::Array(entries)) = reply@.get("embeddings"@) {
        let n = vectors.len() as int;
        let entry = entries[n];
        let fine = entries.take(n);
        let start = entries.take(n + 1);
        assert forall|k: int| 0 <= k < fine.len() implies holds(#[trigger] fine[k], vectors[k]) by {
            assert(entries[k] == fine[k]);
        }
        lemma_vectors(fine, vectors, length);
        assert(start.drop_last() =~= fine);
        assert(start.last() == entry);
        if holds(entry, other) {
            lemma_numbers(entry, other);
        }
        if vectors.len() > 0 {
            assert(vectors[0].len() == length);
        }
        if embedding_adapter::vectors_of(start) is Err {
            lemma_batch_fails(entries, n + 1);
        }
    }
}

proof fn lemma_batch_fails(entries: Seq<Tree>, n: int)
    requires
        0 <= n <= entries.len(),
        embedding_adapter::vectors_of(entries.take(n)) is Err,
    ensures
        embedding_adapter::vectors_of(entries) == embedding_adapter::vectors_of(entries.take(n)),
    decreases entries.len() - n,
{
    if n < entries.len() {
        assert(entries.take(n + 1).drop_last() =~= entries.take(n));
        lemma_batch_fails(entries, n + 1);
    } else {
        assert(entries.take(n) =~= entries);
    }
}

} // verus!
