//! Core of a chat-bot document analyzer: text normalization, OCR output
//! cleaning, hybrid PDF classification, extraction dispatch, and the
//! orchestration state machine that sequences download, extraction, AI
//! analysis and delivery with guaranteed cleanup of scratch artifacts.
//!
//! Everything here is decision logic over plain values; the surrounding
//! process (network transport, external tool invocation, filesystem access)
//! feeds results in as values and carries the returned actions out.

pub mod ai;
pub mod dispatch;
pub mod errors;
pub mod image;
pub mod markdown;
pub mod orchestrator;
pub mod pages;
pub mod pdf;
pub mod text;
pub mod tool;
