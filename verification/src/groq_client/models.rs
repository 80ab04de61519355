//! Identifiers of commonly used backend models.

use vstd::prelude::*;

verus! {

/// Fast models, good for simple text generation.
pub const LLAMA3_8B: &'static str = "llama3-8b-8192";

pub const LLAMA3_70B: &'static str = "llama3-70b-8192";

/// Models that support structured output.
pub const GPT_OSS_20B: &'static str = "openai/gpt-oss-20b";

pub const GPT_OSS_120B: &'static str = "openai/gpt-oss-120b";

pub const KIMI_K2: &'static str = "moonshotai/kimi-k2-instruct";

pub const LLAMA4_MAVERICK: &'static str = "meta-llama/llama-4-maverick-17b-128e-instruct";

pub const LLAMA4_SCOUT: &'static str = "meta-llama/llama-4-scout-17b-16e-instruct";

} // verus!
