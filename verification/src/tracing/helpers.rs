//! Attribute sets for the common events of a completion.

use vstd::prelude::*;
use crate::json::{fields_set, members_view, set_member, Fields, JsonV, Member};
use crate::tracing::attributes::{
    ERROR_MESSAGE, ERROR_TYPE, GEN_AI_REQUEST_MAX_TOKENS, GEN_AI_REQUEST_MODEL,
    GEN_AI_REQUEST_TEMPERATURE, GEN_AI_REQUEST_TOP_K, GEN_AI_REQUEST_TOP_P,
    GEN_AI_RESPONSE_FINISH_REASONS, GEN_AI_SYSTEM, GEN_AI_USAGE_CACHED_INPUT_TOKENS,
    GEN_AI_USAGE_CACHE_CREATION_INPUT_TOKENS, GEN_AI_USAGE_INPUT_TOKENS,
    GEN_AI_USAGE_OUTPUT_TOKENS, GEN_AI_USAGE_TOTAL_TOKENS, SPAN_STREAM_COMPLETION,
};
use crate::tracing::span::TraceBuilder;
use crate::tracing::types::{float_attr, int_attr, spec_float_attr, string_attr};

verus! {

/// `fields` with `key` bound to a real number, where one is given.
pub open spec fn with_real(fields: Fields, key: Seq<char>, bits: Option<u64>) -> Fields {
    match bits {
        Some(b) => fields_set(fields, key, spec_float_attr(b)),
        None => fields,
    }
}

/// `fields` with `key` bound to an integer, where one is given.
pub open spec fn with_int(fields: Fields, key: Seq<char>, value: Option<i32>) -> Fields {
    match value {
        Some(v) => fields_set(fields, key, JsonV::Int(v as int)),
        None => fields,
    }
}

/// The attributes after the sampling parameters of a request are recorded.
pub open spec fn spec_request_params(
    fields: Fields,
    temperature: Option<u64>,
    top_p: Option<u64>,
    top_k: Option<i32>,
    max_tokens: Option<i32>,
) -> Fields {
    with_int(
        with_int(
            with_real(
                with_real(fields, GEN_AI_REQUEST_TEMPERATURE@, temperature),
                GEN_AI_REQUEST_TOP_P@,
                top_p,
            ),
            GEN_AI_REQUEST_TOP_K@,
            top_k,
        ),
        GEN_AI_REQUEST_MAX_TOKENS@,
        max_tokens,
    )
}

/// The attributes after the token counts of an answer are recorded.
pub open spec fn spec_usage(
    fields: Fields,
    input_tokens: i32,
    output_tokens: i32,
    total_tokens: Option<i32>,
    cached_input_tokens: Option<i32>,
    cache_creation_input_tokens: Option<i32>,
) -> Fields {
    with_int(
        with_int(
            with_int(
                fields_set(
                    fields_set(
                        fields,
                        GEN_AI_USAGE_INPUT_TOKENS@,
                        JsonV::Int(input_tokens as int),
                    ),
                    GEN_AI_USAGE_OUTPUT_TOKENS@,
                    JsonV::Int(output_tokens as int),
                ),
                GEN_AI_USAGE_TOTAL_TOKENS@,
                total_tokens,
            ),
            GEN_AI_USAGE_CACHED_INPUT_TOKENS@,
            cached_input_tokens,
        ),
        GEN_AI_USAGE_CACHE_CREATION_INPUT_TOKENS@,
        cache_creation_input_tokens,
    )
}

/// Binds `key` to a real number where one is given.
fn set_real(attributes: &mut Vec<Member>, key: &str, bits: Option<u64>)
    ensures
        members_view(final(attributes)@) == with_real(members_view(old(attributes)@), key@, bits),
{
    match bits {
        Some(b) => set_member(attributes, key, float_attr(b)),
        None => {},
    }
}

/// Binds `key` to an integer where one is given.
fn set_int(attributes: &mut Vec<Member>, key: &str, value: Option<i32>)
    ensures
        members_view(final(attributes)@) == with_int(members_view(old(attributes)@), key@, value),
{
    match value {
        Some(v) => set_member(attributes, key, int_attr(v as i64)),
        None => {},
    }
}

/// A builder for the trace of a stream completion by `model` at `provider`.
pub fn start_stream_completion_trace(trace_id: String, model: &str, provider: &str) -> (builder:
    TraceBuilder)
    ensures
        builder.trace() == trace_id@,
        builder.root_name() == SPAN_STREAM_COMPLETION@,
        builder.root_attributes() == fields_set(
            fields_set(Seq::empty(), GEN_AI_REQUEST_MODEL@, JsonV::Str(model@)),
            GEN_AI_SYSTEM@,
            JsonV::Str(provider@),
        ),
{
    let builder = TraceBuilder::with_trace_id(trace_id, SPAN_STREAM_COMPLETION);
    let builder = builder.with_attribute(GEN_AI_REQUEST_MODEL, string_attr(model));
    builder.with_attribute(GEN_AI_SYSTEM, string_attr(provider))
}

/// Records the sampling parameters of a request. Real numbers are given by
/// the bits of their doubles.
pub fn add_request_params(
    attributes: &mut Vec<Member>,
    temperature: Option<u64>,
    top_p: Option<u64>,
    top_k: Option<i32>,
    max_tokens: Option<i32>,
)
    ensures
        members_view(final(attributes)@) == spec_request_params(
            members_view(old(attributes)@),
            temperature,
            top_p,
            top_k,
            max_tokens,
        ),
{
    set_real(attributes, GEN_AI_REQUEST_TEMPERATURE, temperature);
    set_real(attributes, GEN_AI_REQUEST_TOP_P, top_p);
    set_int(attributes, GEN_AI_REQUEST_TOP_K, top_k);
    set_int(attributes, GEN_AI_REQUEST_MAX_TOKENS, max_tokens);
}

/// Records the token counts of an answer.
pub fn add_usage(
    attributes: &mut Vec<Member>,
    input_tokens: i32,
    output_tokens: i32,
    total_tokens: Option<i32>,
    cached_input_tokens: Option<i32>,
    cache_creation_input_tokens: Option<i32>,
)
    ensures
        members_view(final(attributes)@) == spec_usage(
            members_view(old(attributes)@),
            input_tokens,
            output_tokens,
            total_tokens,
            cached_input_tokens,
            cache_creation_input_tokens,
        ),
{
    set_member(attributes, GEN_AI_USAGE_INPUT_TOKENS, int_attr(input_tokens as i64));
    set_member(attributes, GEN_AI_USAGE_OUTPUT_TOKENS, int_attr(output_tokens as i64));
    set_int(attributes, GEN_AI_USAGE_TOTAL_TOKENS, total_tokens);
    set_int(attributes, GEN_AI_USAGE_CACHED_INPUT_TOKENS, cached_input_tokens);
    set_int(attributes, GEN_AI_USAGE_CACHE_CREATION_INPUT_TOKENS, cache_creation_input_tokens);
}

/// Records why an answer ended.
pub fn add_finish_reason(attributes: &mut Vec<Member>, finish_reason: &str)
    ensures
        members_view(final(attributes)@) == fields_set(
            members_view(old(attributes)@),
            GEN_AI_RESPONSE_FINISH_REASONS@,
            JsonV::Str(finish_reason@),
        ),
{
    set_member(attributes, GEN_AI_RESPONSE_FINISH_REASONS, string_attr(finish_reason));
}

/// Records a failure.
pub fn add_error(attributes: &mut Vec<Member>, error_type: &str, error_message: &str)
    ensures
        members_view(final(attributes)@) == fields_set(
            fields_set(members_view(old(attributes)@), ERROR_TYPE@, JsonV::Str(error_type@)),
            ERROR_MESSAGE@,
            JsonV::Str(error_message@),
        ),
{
    set_member(attributes, ERROR_TYPE, string_attr(error_type));
    set_member(attributes, ERROR_MESSAGE, string_attr(error_message));
}

} // verus!
