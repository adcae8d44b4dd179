//! Settings of the Chatterbox Turbo voice-cloning model.
use vstd::prelude::*;
use vstd::string::StringExecFns;
use crate::error::VoxError;
use crate::text::{ascii_lower, is_ascii_str, lowercase, push_str, str_eq, to_lowercase};
use crate::types::{voice, voice_view, VoiceInfo};

verus! {

/// Quantization variants of the Chatterbox model weights.
#[derive(Debug, Clone, Copy, PartialEq, Eq, Structural)]
pub enum ChatterboxVariant {
    Fp32,
    Fp16,
    Q4,
    Q4f16,
    Q8,
    Q8f16,
    Quantized,
}

/// The variant a lower-cased dtype name selects.
pub open spec fn variant_for(dtype: Seq<char>) -> Option<ChatterboxVariant> {
    if dtype == "fp32"@ {
        Some(ChatterboxVariant::Fp32)
    } else if dtype == "fp16"@ {
        Some(ChatterboxVariant::Fp16)
    } else if dtype == "q4"@ {
        Some(ChatterboxVariant::Q4)
    } else if dtype == "q4f16"@ {
        Some(ChatterboxVariant::Q4f16)
    } else if dtype == "q8"@ {
        Some(ChatterboxVariant::Q8)
    } else if dtype == "q8f16"@ {
        Some(ChatterboxVariant::Q8f16)
    } else if dtype == "quantized"@ {
        Some(ChatterboxVariant::Quantized)
    } else {
        None
    }
}

/// The weight variant named by `dtype`, in any letter case; an unknown name
/// is a `Tts` error that lists the accepted ones.
pub fn parse_model_variant(dtype: &str) -> (r: Result<ChatterboxVariant, VoxError>)
    ensures
        match variant_for(lowercase(dtype@)) {
            Some(v) => r == Ok::<ChatterboxVariant, VoxError>(v),
            None => r matches Err(VoxError::Tts(m)) && m@ == "unknown chatterbox dtype '"@ + lowercase(dtype@)
                + "'; expected: fp32, fp16, q4, q4f16, q8, q8f16"@,
        },
        is_ascii_str(dtype@) ==> match variant_for(ascii_lower(dtype@)) {
            Some(v) => r == Ok::<ChatterboxVariant, VoxError>(v),
            None => r is Err,
        },
{
    let lower = to_lowercase(dtype);
    let d = lower.as_str();
    if str_eq(d, "fp32") {
        Ok(ChatterboxVariant::Fp32)
    } else if str_eq(d, "fp16") {
        Ok(ChatterboxVariant::Fp16)
    } else if str_eq(d, "q4") {
        Ok(ChatterboxVariant::Q4)
    } else if str_eq(d, "q4f16") {
        Ok(ChatterboxVariant::Q4f16)
    } else if str_eq(d, "q8") {
        Ok(ChatterboxVariant::Q8)
    } else if str_eq(d, "q8f16") {
        Ok(ChatterboxVariant::Q8f16)
    } else if str_eq(d, "quantized") {
        Ok(ChatterboxVariant::Quantized)
    } else {
        let mut m = String::from_str("unknown chatterbox dtype '");
        push_str(&mut m, d);
        push_str(&mut m, "'; expected: fp32, fp16, q4, q4f16, q8, q8f16");
        Err(VoxError::Tts(m))
    }
}

/// The one voice of the model: the voice cloned from the reference audio.
pub fn voice_list() -> (r: Vec<VoiceInfo>)
    ensures
        r@.map_values(|v: VoiceInfo| voice_view(v)) == seq![
            ("custom"@, "Custom (Voice Cloning)"@, "any"@, "en"@, "Cloned"@),
        ],
{
    let mut v: Vec<VoiceInfo> = Vec::new();
    v.push(voice("custom", "Custom (Voice Cloning)", "any", "en", "Cloned"));
    assert(v@.map_values(|x: VoiceInfo| voice_view(x)) =~= seq![
        ("custom"@, "Custom (Voice Cloning)"@, "any"@, "en"@, "Cloned"@),
    ]);
    v
}

} // verus!
