//! Attribute keys and span names, after the OpenTelemetry conventions for
//! generative AI.

use vstd::prelude::*;

verus! {

pub const GEN_AI_SYSTEM: &'static str = "gen_ai.system";

pub const GEN_AI_REQUEST_MODEL: &'static str = "gen_ai.request.model";

pub const GEN_AI_RESPONSE_FINISH_REASONS: &'static str = "gen_ai.response.finish_reasons";

pub const GEN_AI_USAGE_INPUT_TOKENS: &'static str = "gen_ai.usage.input_tokens";

pub const GEN_AI_USAGE_OUTPUT_TOKENS: &'static str = "gen_ai.usage.output_tokens";

pub const GEN_AI_USAGE_TOTAL_TOKENS: &'static str = "gen_ai.usage.total_tokens";

pub const GEN_AI_USAGE_CACHED_INPUT_TOKENS: &'static str = "gen_ai.usage.cached_input_tokens";

pub const GEN_AI_USAGE_CACHE_CREATION_INPUT_TOKENS: &'static str =
    "gen_ai.usage.cache_creation_input_tokens";

pub const GEN_AI_REQUEST_TEMPERATURE: &'static str = "gen_ai.request.temperature";

pub const GEN_AI_REQUEST_TOP_P: &'static str = "gen_ai.request.top_p";

pub const GEN_AI_REQUEST_TOP_K: &'static str = "gen_ai.request.top_k";

pub const GEN_AI_REQUEST_MAX_TOKENS: &'static str = "gen_ai.request.max_tokens";

pub const GEN_AI_REQUEST_STOP_SEQUENCES: &'static str = "gen_ai.request.stop_sequences";

pub const GEN_AI_REQUEST_SEED: &'static str = "gen_ai.request.seed";

pub const GEN_AI_REQUEST_FREQUENCY_PENALTY: &'static str = "gen_ai.request.frequency_penalty";

pub const GEN_AI_REQUEST_PRESENCE_PENALTY: &'static str = "gen_ai.request.presence_penalty";

pub const HTTP_REQUEST_BODY: &'static str = "http.request.body";

pub const HTTP_RESPONSE_BODY: &'static str = "http.response.body";

pub const HTTP_REQUEST_METHOD: &'static str = "http.request.method";

pub const HTTP_REQUEST_URL: &'static str = "http.request.url";

pub const HTTP_RESPONSE_STATUS_CODE: &'static str = "http.response.status_code";

pub const HTTP_RESPONSE_CONTENT_TYPE: &'static str = "http.response.content_type";

pub const ERROR_TYPE: &'static str = "error.type";

pub const ERROR_MESSAGE: &'static str = "error.message";

pub const ERROR_STACKTRACE: &'static str = "error.stacktrace";

pub const SPAN_STREAM_COMPLETION: &'static str = "llm.stream_completion";

pub const SPAN_HTTP_REQUEST: &'static str = "llm.http_request";

pub const SPAN_STREAM_PROCESSING: &'static str = "llm.stream_processing";

pub const SPAN_TOOL_CALL: &'static str = "llm.tool_call";

} // verus!
