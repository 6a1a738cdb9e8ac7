//! Conversion into Alpaca, ChatML, or raw pretraining formats.

use vstd::prelude::*;

verus! {

/// Target serialization format for supervised fine-tuning.
#[derive(Debug, Clone, Copy, PartialEq, Eq, Structural)]
pub enum SftFormat {
    /// Alpaca triples.
    Alpaca,
    /// ChatML style messages.
    ChatMl,
    /// Plain continuation corpus.
    RawText,
}

} // verus!
