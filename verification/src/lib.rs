//! Verified core of a local text-to-speech front end for Qwen3-TTS GGUF models.

pub mod commands;
pub mod config;
pub mod downloader;
pub mod gguf_probe;
pub mod gui;
pub mod platform;
pub mod qwen_ffi;
pub mod qwentts_cli;
pub mod text;
