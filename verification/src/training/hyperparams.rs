//! Defaults and clamping for LoRA hyperparameters.

use vstd::prelude::*;
use crate::hal::quant_hint;
use crate::text::str_eq;
use crate::types::{QuantizationMode, TrainingConfig};

verus! {

/// `v.clamp(lo, hi)` for `lo <= hi`.
pub open spec fn clamp(v: u32, lo: u32, hi: u32) -> u32 {
    if v < lo {
        lo
    } else if v > hi {
        hi
    } else {
        v
    }
}

/// The configuration that [`normalize`] makes of `c`: LoRA rank clamped to
/// `4..=128`, alpha at least 1, epochs clamped to `1..=100`, a batch size of 0
/// replaced by 1; every other field as it was.
pub open spec fn normalized(c: TrainingConfig) -> TrainingConfig {
    TrainingConfig {
        lora_rank: clamp(c.lora_rank, 4, 128),
        lora_alpha: if c.lora_alpha < 1 {
            1
        } else {
            c.lora_alpha
        },
        epochs: clamp(c.epochs, 1, 100),
        batch_size: if c.batch_size == 0 {
            1
        } else {
            c.batch_size
        },
        ..c
    }
}

/// Whether the hyperparameters of `c` lie in the ranges the trainer accepts.
pub open spec fn within_bounds(c: TrainingConfig) -> bool {
    &&& 4 <= c.lora_rank <= 128
    &&& 1 <= c.lora_alpha
    &&& 1 <= c.epochs <= 100
    &&& 1 <= c.batch_size
}

/// Applies conservative clamps and fills missing auto-fields before spawning the trainer.
pub fn normalize(config: &mut TrainingConfig)
    ensures
        *final(config) == normalized(*old(config)),
{
    if config.lora_rank < 4 {
        config.lora_rank = 4;
    } else if config.lora_rank > 128 {
        config.lora_rank = 128;
    }
    if config.lora_alpha < 1 {
        config.lora_alpha = 1;
    }
    if config.epochs < 1 {
        config.epochs = 1;
    } else if config.epochs > 100 {
        config.epochs = 100;
    }
    if config.batch_size == 0 {
        config.batch_size = 1;
    }
}

/// A normalized configuration lies within the trainer's bounds, normalizing
/// it again changes nothing, and a configuration already within bounds is
/// left as it is.
pub proof fn lemma_normalize_idempotent(c: TrainingConfig)
    ensures
        within_bounds(normalized(c)),
        normalized(normalized(c)) == normalized(c),
        within_bounds(c) ==> normalized(c) == c,
{
}

/// Normalizing clamps each bounded hyperparameter to its nearest bound and
/// leaves it alone inside the range: a rank below 4 becomes 4, above 128
/// becomes 128; an alpha of 0 becomes 1; epochs below 1 become 1, above 100
/// become 100; a batch size of 0 becomes 1; and a value inside its range is
/// kept. Nothing else changes.
pub proof fn lemma_normalize_clamps(c: TrainingConfig)
    ensures
        c.lora_rank < 4 ==> normalized(c).lora_rank == 4,
        c.lora_rank > 128 ==> normalized(c).lora_rank == 128,
        4 <= c.lora_rank <= 128 ==> normalized(c).lora_rank == c.lora_rank,
        c.lora_alpha == 0 ==> normalized(c).lora_alpha == 1,
        c.lora_alpha >= 1 ==> normalized(c).lora_alpha == c.lora_alpha,
        c.epochs < 1 ==> normalized(c).epochs == 1,
        c.epochs > 100 ==> normalized(c).epochs == 100,
        1 <= c.epochs <= 100 ==> normalized(c).epochs == c.epochs,
        c.batch_size == 0 ==> normalized(c).batch_size == 1,
        c.batch_size >= 1 ==> normalized(c).batch_size == c.batch_size,
        normalized(c) == (TrainingConfig {
            lora_rank: normalized(c).lora_rank,
            lora_alpha: normalized(c).lora_alpha,
            epochs: normalized(c).epochs,
            batch_size: normalized(c).batch_size,
            ..c
        }),
{
}

/// The quantization mode named by a HAL recommendation string.
pub open spec fn mode_for_hint(hint: Seq<char>) -> QuantizationMode {
    if hint == "fp16"@ {
        QuantizationMode::Unquantized
    } else if hint == "8bit_or_fp16_lora"@ || hint == "5bit_or_8bit_lora"@ {
        QuantizationMode::EightBit
    } else {
        QuantizationMode::FourBit
    }
}

/// Maps HAL recommendation strings to a concrete quantization mode.
pub fn quantization_from_hint(hint: &str) -> (r: QuantizationMode)
    ensures
        r == mode_for_hint(hint@),
{
    if str_eq(hint, "fp16") {
        QuantizationMode::Unquantized
    } else if str_eq(hint, "8bit_or_fp16_lora") || str_eq(hint, "5bit_or_8bit_lora") {
        QuantizationMode::EightBit
    } else {
        QuantizationMode::FourBit
    }
}

/// The mode that a HAL recommendation leads to, by VRAM: up to 4 GiB (or
/// unknown) 4-bit, up to 16 GiB 8-bit, above that no quantization.
pub proof fn lemma_hint_mode_by_vram(vram_mb: Option<u32>)
    ensures
        mode_for_hint(quant_hint(vram_mb)) == match vram_mb {
            None => QuantizationMode::FourBit,
            Some(mb) => if mb < 4096 {
                QuantizationMode::FourBit
            } else if mb < 16384 {
                QuantizationMode::EightBit
            } else {
                QuantizationMode::Unquantized
            },
        },
{
    reveal_strlit("4bit");
    reveal_strlit("fp16");
    reveal_strlit("5bit_or_8bit_lora");
    reveal_strlit("8bit_or_fp16_lora");
    assert("4bit"@[0] != "fp16"@[0]);
    assert("4bit"@ != "5bit_or_8bit_lora"@);
    assert("4bit"@ != "8bit_or_fp16_lora"@);
    assert("5bit_or_8bit_lora"@.len() != "fp16"@.len());
    assert("8bit_or_fp16_lora"@.len() != "fp16"@.len());
}

} // verus!
