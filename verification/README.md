# mcpg-plugin-backend-llm-gemini

Google's AI Studio as backends of the MCPG gateway: Gemini chat, Gemini
embeddings and Imagen images. The library turns the gateway's requests into the
provider's JSON, reads its replies and streams back, classifies its failures, and
says what the host is to hear of each call. It is written in Verus: every
function states in `requires` and `ensures` what it does, and Verus proves it.

## Layout

`src/` is the verified library.

| Module | What it holds |
|---|---|
| `adapter` | chat requests, chat replies, chat failures, `GeminiAdapter` |
| `stream` | streamed chat replies: server-sent events to normalized events |
| `embedding_adapter` | batches of embeddings, `GeminiEmbeddingAdapter` |
| `image_adapter` | Imagen requests and predictions, `GeminiImageAdapter` |
| `config` | the bindings' configurations and the rules they have to keep |
| `plugin` | registration, calls, the watch over streamed calls, `GeminiChatPlugin` |
| `host_handle_obs` | outcome labels, spans, metrics, audit events |
| `http` | endpoints, headers, status codes, failures of the transport |
| `backend`, `normalized` | the gateway's types |
| `json`, `text`, `counter`, `registry` | documents, texts, numbering, values by name |
| `laws` | what holds of the library as a whole, by subject |

`tests/` runs the compiled library. `app/` is ordinary Rust around it: HTTP,
tasks, locks, the clock, floating point, and the types with `serde` derives.

## What is believed without proof

The library calls `serde_json` (reading and writing), `base64` (decoding), `reqwest`
(building a client, header values, the text of a status code) and a few functions
of the standard library (UTF-8, lower case, `String::push`,
`Duration::from_millis`). Each call stands behind an item whose doc comment says
what is believed of it.

Numbers with a fraction are held by their IEEE-754 bits and never computed with.
