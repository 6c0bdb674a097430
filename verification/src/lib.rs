//! Google Gemini (AI Studio) backends: chat, embeddings and Imagen images.

pub mod adapter;
pub mod backend;
pub mod config;
pub mod counter;
pub mod embedding_adapter;
pub mod host_handle_obs;
pub mod http;
pub mod image_adapter;
pub mod json;
pub mod laws;
pub mod normalized;
pub mod plugin;
pub mod registry;
pub mod stream;
pub mod text;

pub use adapter::GeminiAdapter;
pub use config::{GeminiChatSpec, GeminiEmbeddingSpec, GeminiImageSpec};
pub use embedding_adapter::{GeminiEmbeddingAdapter, GEMINI_MAX_INPUTS};
pub use image_adapter::GeminiImageAdapter;
pub use plugin::GeminiChatPlugin;
