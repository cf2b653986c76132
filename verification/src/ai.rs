pub mod gemini;
pub mod json;
