//! Request building: from a canonical request and the model as the provider
//! names it to the payload of one wire-format family.

use vstd::prelude::*;
use crate::json::{
    array1, fields_set, items_view, lemma_fields_position, lemma_fields_position_none,
    members_view, merge_members, object1, object2, object3, push_item, push_member, set_member,
    text, Fields, Json, JsonV, Member,
};
use crate::models::ResolvedModel;
use crate::text::{blank, is_blank, owned, str_eq};
use crate::types::{
    ContentPart, ErrorKind, GatewayError, GatewayErrorV, Message, MessageContent, ProtocolType,
    ProviderConfig, StreamTextRequest, ToolDefinition,
};

verus! {

/// The number of tokens asked of a family that must be told a limit, where
/// the request names none.
pub const DEFAULT_MAX_TOKENS: i32 = 4096;

/// Whether the upstream of `protocol` rejects a request that carries member
/// `key`. Such a member is never sent, whoever asked for it.
pub open spec fn rejects(protocol: ProtocolType, key: Seq<char>) -> bool {
    protocol == ProtocolType::Google && key == "top_k"@
}

/// Whether `protocol` takes system messages out of the conversation and
/// sends them apart.
pub open spec fn hoists_system(protocol: ProtocolType) -> bool {
    protocol == ProtocolType::Anthropic
}

/// The members of an optional list of members.
pub open spec fn opt_members(members: Option<Vec<Member>>) -> Fields {
    match members {
        Some(m) => members_view(m@),
        None => Seq::empty(),
    }
}

/// One part of a message, as `protocol` writes it.
pub open spec fn wire_part(part: ContentPart, protocol: ProtocolType) -> JsonV {
    match part {
        ContentPart::Text { text } => JsonV::Object(
            seq![("type"@, JsonV::Str("text"@)), ("text"@, JsonV::Str(text@))],
        ),
        ContentPart::Image { url } => if protocol == ProtocolType::Anthropic {
            JsonV::Object(
                seq![
                    ("type"@, JsonV::Str("image"@)),
                    (
                        "source"@,
                        JsonV::Object(
                            seq![("type"@, JsonV::Str("url"@)), ("url"@, JsonV::Str(url@))],
                        ),
                    ),
                ],
            )
        } else {
            JsonV::Object(
                seq![
                    ("type"@, JsonV::Str("image_url"@)),
                    ("image_url"@, JsonV::Object(seq![("url"@, JsonV::Str(url@))])),
                ],
            )
        },
    }
}

/// The parts of a message in order, as `protocol` writes them.
pub open spec fn wire_parts(parts: Seq<ContentPart>, protocol: ProtocolType) -> Seq<JsonV>
    decreases parts.len(),
{
    if parts.len() == 0 {
        Seq::empty()
    } else {
        wire_parts(parts.drop_last(), protocol).push(wire_part(parts.last(), protocol))
    }
}

/// What a message says, as `protocol` writes it: text as a string, parts
/// as a list.
pub open spec fn wire_content(content: MessageContent, protocol: ProtocolType) -> JsonV {
    match content {
        MessageContent::Text(text) => JsonV::Str(text@),
        MessageContent::Parts(parts) => JsonV::Array(wire_parts(parts@, protocol)),
    }
}

/// A message without its passthrough options, as `protocol` writes it.
pub open spec fn wire_message_base(message: Message, protocol: ProtocolType) -> Fields {
    match message {
        Message::System { content, .. } => seq![
            ("role"@, JsonV::Str("system"@)),
            ("content"@, wire_content(content, protocol)),
        ],
        Message::User { content, .. } => seq![
            ("role"@, JsonV::Str("user"@)),
            ("content"@, wire_content(content, protocol)),
        ],
        Message::Assistant { content, .. } => seq![
            ("role"@, JsonV::Str("assistant"@)),
            ("content"@, wire_content(content, protocol)),
        ],
        Message::Tool { tool_call_id, content, .. } => if protocol == ProtocolType::Anthropic {
            seq![
                ("role"@, JsonV::Str("user"@)),
                (
                    "content"@,
                    JsonV::Array(
                        seq![
                            JsonV::Object(
                                seq![
                                    ("type"@, JsonV::Str("tool_result"@)),
                                    ("tool_use_id"@, JsonV::Str(tool_call_id@)),
                                    ("content"@, wire_content(content, protocol)),
                                ],
                            ),
                        ],
                    ),
                ),
            ]
        } else {
            seq![
                ("role"@, JsonV::Str("tool"@)),
                ("tool_call_id"@, JsonV::Str(tool_call_id@)),
                ("content"@, wire_content(content, protocol)),
            ]
        },
    }
}

/// The passthrough options of a message.
pub open spec fn message_options(message: Message) -> Fields {
    match message {
        Message::System { provider_options, .. } => opt_members(provider_options),
        Message::User { provider_options, .. } => opt_members(provider_options),
        Message::Assistant { provider_options, .. } => opt_members(provider_options),
        Message::Tool { provider_options, .. } => opt_members(provider_options),
    }
}

/// A message as `protocol` writes it: its role and content, then its
/// passthrough options bound over them.
pub open spec fn wire_message(message: Message, protocol: ProtocolType) -> JsonV {
    JsonV::Object(
        crate::json::fields_merge(wire_message_base(message, protocol), message_options(message)),
    )
}

/// Whether `message` stays in the conversation that `protocol` sends.
pub open spec fn in_conversation(message: Message, protocol: ProtocolType) -> bool {
    !(hoists_system(protocol) && message is System)
}

/// The conversation in order, as `protocol` writes it.
pub open spec fn wire_messages(messages: Seq<Message>, protocol: ProtocolType) -> Seq<JsonV>
    decreases messages.len(),
{
    if messages.len() == 0 {
        Seq::empty()
    } else {
        let before = wire_messages(messages.drop_last(), protocol);
        if in_conversation(messages.last(), protocol) {
            before.push(wire_message(messages.last(), protocol))
        } else {
            before
        }
    }
}

/// The blocks of one system message: its text as one block, or its parts.
pub open spec fn system_blocks_of(content: MessageContent) -> Seq<JsonV> {
    match content {
        MessageContent::Text(text) => seq![
            JsonV::Object(seq![("type"@, JsonV::Str("text"@)), ("text"@, JsonV::Str(text@))]),
        ],
        MessageContent::Parts(parts) => wire_parts(parts@, ProtocolType::Anthropic),
    }
}

/// The blocks of the system messages of a conversation, in order.
pub open spec fn system_blocks(messages: Seq<Message>) -> Seq<JsonV>
    decreases messages.len(),
{
    if messages.len() == 0 {
        Seq::empty()
    } else {
        let before = system_blocks(messages.drop_last());
        match messages.last() {
            Message::System { content, .. } => before + system_blocks_of(content),
            _ => before,
        }
    }
}

/// A tool as `protocol` writes it.
pub open spec fn wire_tool(tool: ToolDefinition, protocol: ProtocolType) -> JsonV {
    if protocol == ProtocolType::Anthropic {
        JsonV::Object(
            seq![
                ("name"@, JsonV::Str(tool.name@)),
                ("description"@, JsonV::Str(tool.description@)),
                ("input_schema"@, tool.parameters@),
            ],
        )
    } else {
        JsonV::Object(
            seq![
                ("type"@, JsonV::Str("function"@)),
                (
                    "function"@,
                    JsonV::Object(
                        seq![
                            ("name"@, JsonV::Str(tool.name@)),
                            ("description"@, JsonV::Str(tool.description@)),
                            ("parameters"@, tool.parameters@),
                        ],
                    ),
                ),
            ],
        )
    }
}

/// The tools in order, as `protocol` writes them.
pub open spec fn wire_tools(tools: Seq<ToolDefinition>, protocol: ProtocolType) -> Seq<JsonV>
    decreases tools.len(),
{
    if tools.len() == 0 {
        Seq::empty()
    } else {
        wire_tools(tools.drop_last(), protocol).push(wire_tool(tools.last(), protocol))
    }
}

/// The members that every payload of `protocol` starts with.
pub open spec fn base_fields(
    protocol: ProtocolType,
    model: Seq<char>,
    request: StreamTextRequest,
) -> Fields {
    let stream = match request.stream {
        Some(s) => s,
        None => true,
    };
    let messages = JsonV::Array(wire_messages(request.messages@, protocol));
    if protocol == ProtocolType::Anthropic {
        let limit = match request.max_tokens {
            Some(n) => n,
            None => DEFAULT_MAX_TOKENS,
        };
        let required = seq![
            ("model"@, JsonV::Str(model)),
            ("max_tokens"@, JsonV::Int(limit as int)),
            ("messages"@, messages),
            ("stream"@, JsonV::Bool(stream)),
        ];
        if system_blocks(request.messages@).len() > 0 {
            required.push(("system"@, JsonV::Array(system_blocks(request.messages@))))
        } else {
            required
        }
    } else {
        seq![
            ("model"@, JsonV::Str(model)),
            ("messages"@, messages),
            ("stream"@, JsonV::Bool(stream)),
        ]
    }
}

/// `fields` with the tools of the request, where it has any.
pub open spec fn with_tools(
    fields: Fields,
    protocol: ProtocolType,
    tools: Option<Vec<ToolDefinition>>,
) -> Fields {
    match tools {
        Some(list) => if list@.len() > 0 {
            fields_set(fields, "tools"@, JsonV::Array(wire_tools(list@, protocol)))
        } else {
            fields
        },
        None => fields,
    }
}

/// `fields` with `key` bound to `value`, where a value is given and
/// `protocol` does not reject the key.
pub open spec fn with_knob(
    fields: Fields,
    protocol: ProtocolType,
    key: Seq<char>,
    value: Option<JsonV>,
) -> Fields {
    match value {
        Some(v) => if rejects(protocol, key) {
            fields
        } else {
            fields_set(fields, key, v)
        },
        None => fields,
    }
}

/// A real number given by its bits, as a JSON value.
pub open spec fn real_knob(bits: Option<u64>) -> Option<JsonV> {
    match bits {
        Some(b) => Some(JsonV::Real(b)),
        None => None,
    }
}

/// An integer, as a JSON value.
pub open spec fn int_knob(value: Option<i32>) -> Option<JsonV> {
    match value {
        Some(v) => Some(JsonV::Int(v as int)),
        None => None,
    }
}

/// `fields` with the sampling parameters of the request that `protocol`
/// accepts: `temperature`, `top_p`, `top_k`, `max_tokens`.
pub open spec fn with_sampling(
    fields: Fields,
    protocol: ProtocolType,
    request: StreamTextRequest,
) -> Fields {
    with_knob(
        with_knob(
            with_knob(
                with_knob(fields, protocol, "temperature"@, real_knob(request.temperature)),
                protocol,
                "top_p"@,
                real_knob(request.top_p),
            ),
            protocol,
            "top_k"@,
            int_knob(request.top_k),
        ),
        protocol,
        "max_tokens"@,
        int_knob(request.max_tokens),
    )
}

/// `fields` after binding each member of `extra` in order, but for the
/// members that `protocol` rejects.
pub open spec fn merge_allowed(fields: Fields, extra: Fields, protocol: ProtocolType) -> Fields
    decreases extra.len(),
{
    if extra.len() == 0 {
        fields
    } else {
        let before = merge_allowed(fields, extra.drop_last(), protocol);
        if rejects(protocol, extra.last().0) {
            before
        } else {
            fields_set(before, extra.last().0, extra.last().1)
        }
    }
}

/// The members of the payload: the required ones, the tools, the sampling
/// parameters, the provider's default body, and last the caller's options,
/// which may override what stands before them.
pub open spec fn payload_fields(
    protocol: ProtocolType,
    model: Seq<char>,
    request: StreamTextRequest,
    extra_body: Fields,
) -> Fields {
    merge_allowed(
        merge_allowed(
            with_sampling(
                with_tools(base_fields(protocol, model, request), protocol, request.tools),
                protocol,
                request,
            ),
            extra_body,
            protocol,
        ),
        opt_members(request.provider_options),
        protocol,
    )
}

/// The failure for a request without a model.
pub open spec fn no_model() -> GatewayErrorV {
    GatewayErrorV { kind: ErrorKind::Validation, message: "Model name is empty"@ }
}

/// The failure for a request without messages.
pub open spec fn no_messages() -> GatewayErrorV {
    GatewayErrorV { kind: ErrorKind::Validation, message: "Message list is empty"@ }
}

/// The payload that `protocol` sends for `request` to the model that the
/// provider knows as `model`, or the failure for a request that is not
/// well formed.
pub open spec fn spec_build(
    protocol: ProtocolType,
    model: Seq<char>,
    request: StreamTextRequest,
    extra_body: Fields,
) -> Result<JsonV, GatewayErrorV> {
    if is_blank(model) {
        Err(no_model())
    } else if request.messages@.len() == 0 {
        Err(no_messages())
    } else {
        Ok(JsonV::Object(payload_fields(protocol, model, request, extra_body)))
    }
}

/// Whether `result` is what building gives for these inputs.
pub open spec fn is_build_of(
    result: Result<Json, GatewayError>,
    protocol: ProtocolType,
    model: Seq<char>,
    request: StreamTextRequest,
    extra_body: Fields,
) -> bool {
    match result {
        Ok(payload) => spec_build(protocol, model, request, extra_body) == Ok::<
            JsonV,
            GatewayErrorV,
        >(payload@),
        Err(e) => spec_build(protocol, model, request, extra_body) == Err::<JsonV, GatewayErrorV>(
            e@,
        ),
    }
}

/// Tells whether the upstream of `protocol` rejects member `key`.
pub fn is_rejected(protocol: ProtocolType, key: &str) -> (b: bool)
    ensures
        b == rejects(protocol, key@),
{
    match protocol {
        ProtocolType::Google => str_eq(key, "top_k"),
        _ => false,
    }
}

/// Writes one part of a message.
fn build_part(part: &ContentPart, protocol: ProtocolType) -> (json: Json)
    ensures
        json@ == wire_part(*part, protocol),
{
    match part {
        ContentPart::Text { text: t } => object2("type", text("text"), "text", text(t.as_str())),
        ContentPart::Image { url } => match protocol {
            ProtocolType::Anthropic => object2(
                "type",
                text("image"),
                "source",
                object2("type", text("url"), "url", text(url.as_str())),
            ),
            _ => object2(
                "type",
                text("image_url"),
                "image_url",
                object1("url", text(url.as_str())),
            ),
        },
    }
}

/// Writes the parts of a message.
fn build_parts(parts: &Vec<ContentPart>, protocol: ProtocolType) -> (items: Vec<Json>)
    ensures
        items_view(items@) == wire_parts(parts@, protocol),
{
    let mut items: Vec<Json> = Vec::new();
    let mut i: usize = 0;
    while i < parts.len()
        invariant
            i <= parts.len(),
            items_view(items@) == wire_parts(parts@.take(i as int), protocol),
        decreases parts.len() - i,
    {
        proof {
            assert(parts@.take(i + 1).drop_last() =~= parts@.take(i as int));
        }
        push_item(&mut items, build_part(&parts[i], protocol));
        i += 1;
    }
    proof {
        assert(parts@.take(i as int) =~= parts@);
    }
    items
}

/// Writes what a message says.
fn build_content(content: &MessageContent, protocol: ProtocolType) -> (json: Json)
    ensures
        json@ == wire_content(*content, protocol),
{
    match content {
        MessageContent::Text(t) => text(t.as_str()),
        MessageContent::Parts(parts) => Json::Array(build_parts(parts, protocol)),
    }
}

/// Binds the passthrough options over the members of a message.
fn finish_message(base: Json, options: &Option<Vec<Member>>) -> (json: Json)
    requires
        base@ is Object,
    ensures
        json@ == JsonV::Object(crate::json::fields_merge(base@->Object_0, opt_members(*options))),
{
    match base {
        Json::Object(members) => {
            let mut members = members;
            match options {
                Some(extra) => {
                    merge_members(&mut members, extra);
                },
                None => {},
            }
            Json::Object(members)
        },
        other => other,
    }
}

/// Writes one message.
fn build_message(message: &Message, protocol: ProtocolType) -> (json: Json)
    ensures
        json@ == wire_message(*message, protocol),
{
    match message {
        Message::System { content, provider_options } => finish_message(
            object2("role", text("system"), "content", build_content(content, protocol)),
            provider_options,
        ),
        Message::User { content, provider_options } => finish_message(
            object2("role", text("user"), "content", build_content(content, protocol)),
            provider_options,
        ),
        Message::Assistant { content, provider_options } => finish_message(
            object2("role", text("assistant"), "content", build_content(content, protocol)),
            provider_options,
        ),
        Message::Tool { tool_call_id, content, provider_options } => match protocol {
            ProtocolType::Anthropic => finish_message(
                object2(
                    "role",
                    text("user"),
                    "content",
                    array1(
                        object3(
                            "type",
                            text("tool_result"),
                            "tool_use_id",
                            text(tool_call_id.as_str()),
                            "content",
                            build_content(content, protocol),
                        ),
                    ),
                ),
                provider_options,
            ),
            _ => finish_message(
                object3(
                    "role",
                    text("tool"),
                    "tool_call_id",
                    text(tool_call_id.as_str()),
                    "content",
                    build_content(content, protocol),
                ),
                provider_options,
            ),
        },
    }
}

/// Tells whether `message` stays in the conversation that `protocol` sends.
fn stays(message: &Message, protocol: ProtocolType) -> (b: bool)
    ensures
        b == in_conversation(*message, protocol),
{
    match protocol {
        ProtocolType::Anthropic => match message {
            Message::System { .. } => false,
            _ => true,
        },
        _ => true,
    }
}

/// Writes the conversation.
fn build_messages(messages: &Vec<Message>, protocol: ProtocolType) -> (items: Vec<Json>)
    ensures
        items_view(items@) == wire_messages(messages@, protocol),
{
    let mut items: Vec<Json> = Vec::new();
    let mut i: usize = 0;
    while i < messages.len()
        invariant
            i <= messages.len(),
            items_view(items@) == wire_messages(messages@.take(i as int), protocol),
        decreases messages.len() - i,
    {
        proof {
            assert(messages@.take(i + 1).drop_last() =~= messages@.take(i as int));
        }
        if stays(&messages[i], protocol) {
            push_item(&mut items, build_message(&messages[i], protocol));
        }
        i += 1;
    }
    proof {
        assert(messages@.take(i as int) =~= messages@);
    }
    items
}

/// Writes the blocks of the system messages.
fn build_system_blocks(messages: &Vec<Message>) -> (items: Vec<Json>)
    ensures
        items_view(items@) == system_blocks(messages@),
{
    let mut items: Vec<Json> = Vec::new();
    let mut i: usize = 0;
    while i < messages.len()
        invariant
            i <= messages.len(),
            items_view(items@) == system_blocks(messages@.take(i as int)),
        decreases messages.len() - i,
    {
        proof {
            assert(messages@.take(i + 1).drop_last() =~= messages@.take(i as int));
        }
        match &messages[i] {
            Message::System { content, .. } => match content {
                MessageContent::Text(t) => {
                    push_item(&mut items, object2("type", text("text"), "text", text(t.as_str())));
                },
                MessageContent::Parts(parts) => {
                    let ghost before = items_view(items@);
                    let mut j: usize = 0;
                    while j < parts.len()
                        invariant
                            j <= parts.len(),
                            items_view(items@) == before + wire_parts(
                                parts@.take(j as int),
                                ProtocolType::Anthropic,
                            ),
                        decreases parts.len() - j,
                    {
                        proof {
                            assert(parts@.take(j + 1).drop_last() =~= parts@.take(j as int));
                        }
                        push_item(&mut items, build_part(&parts[j], ProtocolType::Anthropic));
                        j += 1;
                    }
                    proof {
                        assert(parts@.take(j as int) =~= parts@);
                    }
                },
            },
            _ => {},
        }
        i += 1;
    }
    proof {
        assert(messages@.take(i as int) =~= messages@);
    }
    items
}

/// Writes one tool.
fn build_tool(tool: &ToolDefinition, protocol: ProtocolType) -> (json: Json)
    ensures
        json@ == wire_tool(*tool, protocol),
{
    match protocol {
        ProtocolType::Anthropic => object3(
            "name",
            text(tool.name.as_str()),
            "description",
            text(tool.description.as_str()),
            "input_schema",
            tool.parameters.duplicate(),
        ),
        _ => object2(
            "type",
            text("function"),
            "function",
            object3(
                "name",
                text(tool.name.as_str()),
                "description",
                text(tool.description.as_str()),
                "parameters",
                tool.parameters.duplicate(),
            ),
        ),
    }
}

/// Writes the tools.
fn build_tools(tools: &Vec<ToolDefinition>, protocol: ProtocolType) -> (items: Vec<Json>)
    ensures
        items_view(items@) == wire_tools(tools@, protocol),
{
    let mut items: Vec<Json> = Vec::new();
    let mut i: usize = 0;
    while i < tools.len()
        invariant
            i <= tools.len(),
            items_view(items@) == wire_tools(tools@.take(i as int), protocol),
        decreases tools.len() - i,
    {
        proof {
            assert(tools@.take(i + 1).drop_last() =~= tools@.take(i as int));
        }
        push_item(&mut items, build_tool(&tools[i], protocol));
        i += 1;
    }
    proof {
        assert(tools@.take(i as int) =~= tools@);
    }
    items
}

/// Binds `key` to `value` where a value is given and `protocol` does not
/// reject the key.
fn set_knob(members: &mut Vec<Member>, protocol: ProtocolType, key: &str, value: Option<Json>)
    ensures
        members_view(final(members)@) == with_knob(
            members_view(old(members)@),
            protocol,
            key@,
            match value {
                Some(v) => Some(v@),
                None => None,
            },
        ),
{
    match value {
        Some(v) => {
            if !is_rejected(protocol, key) {
                set_member(members, key, v);
            }
        },
        None => {},
    }
}

/// Binds each member of `extra` that `protocol` does not reject.
fn merge_allowed_members(members: &mut Vec<Member>, extra: &Vec<Member>, protocol: ProtocolType)
    ensures
        members_view(final(members)@) == merge_allowed(
            members_view(old(members)@),
            members_view(extra@),
            protocol,
        ),
{
    let mut i: usize = 0;
    while i < extra.len()
        invariant
            i <= extra.len(),
            members_view(members@) == merge_allowed(
                members_view(old(members)@),
                members_view(extra@.take(i as int)),
                protocol,
            ),
        decreases extra.len() - i,
    {
        proof {
            crate::json::lemma_members_view_push(extra@.take(i as int), extra@[i as int]);
            assert(extra@.take(i + 1) =~= extra@.take(i as int).push(extra@[i as int]));
            let grown = members_view(extra@.take(i + 1));
            assert(grown.drop_last() =~= members_view(extra@.take(i as int)));
        }
        if !is_rejected(protocol, extra[i].key.as_str()) {
            set_member(members, extra[i].key.as_str(), extra[i].value.duplicate());
        }
        i += 1;
    }
    proof {
        assert(extra@.take(i as int) =~= extra@);
    }
}

/// Builds the payload that `protocol` sends for `request` to the model that
/// the provider knows as `model`. `extra_body` is the provider's default
/// body. Nothing is read but the arguments.
pub fn build_request(
    protocol: ProtocolType,
    model: &str,
    request: &StreamTextRequest,
    extra_body: &Option<Vec<Member>>,
) -> (result: Result<Json, GatewayError>)
    ensures
        is_build_of(result, protocol, model@, *request, opt_members(*extra_body)),
{
    if blank(model) {
        return Err(
            GatewayError { kind: ErrorKind::Validation, message: owned("Model name is empty") },
        );
    }
    if request.messages.len() == 0 {
        return Err(
            GatewayError { kind: ErrorKind::Validation, message: owned("Message list is empty") },
        );
    }
    let stream = match request.stream {
        Some(s) => s,
        None => true,
    };
    let mut members: Vec<Member> = Vec::new();
    push_member(&mut members, "model", text(model));
    match protocol {
        ProtocolType::Anthropic => {
            let limit = match request.max_tokens {
                Some(n) => n,
                None => DEFAULT_MAX_TOKENS,
            };
            push_member(&mut members, "max_tokens", Json::Int(limit as i64));
        },
        _ => {},
    }
    push_member(&mut members, "messages", Json::Array(build_messages(&request.messages, protocol)));
    push_member(&mut members, "stream", Json::Bool(stream));
    match protocol {
        ProtocolType::Anthropic => {
            let blocks = build_system_blocks(&request.messages);
            proof {
                crate::json::lemma_items_view(blocks@);
            }
            if blocks.len() > 0 {
                push_member(&mut members, "system", Json::Array(blocks));
            }
        },
        _ => {},
    }
    assert(members_view(members@) =~= base_fields(protocol, model@, *request));
    match &request.tools {
        Some(list) => {
            if list.len() > 0 {
                set_member(&mut members, "tools", Json::Array(build_tools(list, protocol)));
            }
        },
        None => {},
    }
    let temperature = match request.temperature {
        Some(b) => Some(Json::Real(b)),
        None => None,
    };
    let top_p = match request.top_p {
        Some(b) => Some(Json::Real(b)),
        None => None,
    };
    let top_k = match request.top_k {
        Some(v) => Some(Json::Int(v as i64)),
        None => None,
    };
    let max_tokens = match request.max_tokens {
        Some(v) => Some(Json::Int(v as i64)),
        None => None,
    };
    set_knob(&mut members, protocol, "temperature", temperature);
    set_knob(&mut members, protocol, "top_p", top_p);
    set_knob(&mut members, protocol, "top_k", top_k);
    set_knob(&mut members, protocol, "max_tokens", max_tokens);
    match extra_body {
        Some(extra) => merge_allowed_members(&mut members, extra, protocol),
        None => {},
    }
    match &request.provider_options {
        Some(extra) => merge_allowed_members(&mut members, extra, protocol),
        None => {},
    }
    Ok(Json::Object(members))
}

/// Builds the payload for `request` as sent to candidate `resolved`, whose
/// provider is `provider`.
pub fn build(request: &StreamTextRequest, resolved: &ResolvedModel, provider: &ProviderConfig) -> (result:
    Result<Json, GatewayError>)
    ensures
        is_build_of(
            result,
            provider.protocol,
            resolved.model_name@,
            *request,
            opt_members(provider.extra_body),
        ),
{
    build_request(provider.protocol, resolved.model_name.as_str(), request, &provider.extra_body)
}

/// Whether no member of `fields` is named `key`.
pub open spec fn lacks(fields: Fields, key: Seq<char>) -> bool {
    forall|j: int| 0 <= j < fields.len() ==> (#[trigger] fields[j]).0 != key
}

/// Binding another key leaves an absent key absent.
pub proof fn lemma_set_keeps_lacking(fields: Fields, k: Seq<char>, v: JsonV, key: Seq<char>)
    requires
        lacks(fields, key),
        k != key,
    ensures
        lacks(fields_set(fields, k, v), key),
{
    lemma_fields_position(fields, k);
}

/// A knob that is rejected, or that has another name, leaves an absent key
/// absent.
pub proof fn lemma_knob_keeps_lacking(
    fields: Fields,
    protocol: ProtocolType,
    k: Seq<char>,
    v: Option<JsonV>,
    key: Seq<char>,
)
    requires
        lacks(fields, key),
        k != key || rejects(protocol, k),
    ensures
        lacks(with_knob(fields, protocol, k, v), key),
{
    if v is Some && !rejects(protocol, k) {
        lemma_set_keeps_lacking(fields, k, v->Some_0, key);
    }
}

/// Merging what is allowed leaves a rejected key absent.
pub proof fn lemma_merge_keeps_lacking(
    fields: Fields,
    extra: Fields,
    protocol: ProtocolType,
    key: Seq<char>,
)
    requires
        lacks(fields, key),
        rejects(protocol, key),
    ensures
        lacks(merge_allowed(fields, extra, protocol), key),
    decreases extra.len(),
{
    if extra.len() > 0 {
        lemma_merge_keeps_lacking(fields, extra.drop_last(), protocol, key);
        if !rejects(protocol, extra.last().0) {
            lemma_set_keeps_lacking(
                merge_allowed(fields, extra.drop_last(), protocol),
                extra.last().0,
                extra.last().1,
                key,
            );
        }
    }
}

/// The name `top_k` differs from the name of every other member that the
/// builder itself writes.
pub proof fn lemma_top_k_is_no_other_member()
    ensures
        "top_k"@ != "model"@,
        "top_k"@ != "messages"@,
        "top_k"@ != "stream"@,
        "top_k"@ != "tools"@,
        "top_k"@ != "temperature"@,
        "top_k"@ != "top_p"@,
        "top_k"@ != "max_tokens"@,
{
    reveal_strlit("top_k");
    reveal_strlit("top_p");
    reveal_strlit("tools");
    reveal_strlit("model");
    reveal_strlit("messages");
    reveal_strlit("stream");
    reveal_strlit("temperature");
    reveal_strlit("max_tokens");
    assert("top_k"@[0] != "model"@[0]);
    assert("top_k"@[2] != "tools"@[2]);
    assert("top_k"@[4] != "top_p"@[4]);
    assert("top_k"@.len() != "messages"@.len());
    assert("top_k"@.len() != "stream"@.len());
    assert("top_k"@.len() != "temperature"@.len());
    assert("top_k"@.len() != "max_tokens"@.len());
}

/// A member that the family rejects is never in the payload, whatever the
/// request, the provider's default body and the caller's options hold.
pub proof fn law_rejected_member_never_sent(
    protocol: ProtocolType,
    key: Seq<char>,
    model: Seq<char>,
    request: StreamTextRequest,
    extra_body: Fields,
)
    requires
        rejects(protocol, key),
    ensures
        match spec_build(protocol, model, request, extra_body) {
            Ok(payload) => payload.member(key) is None,
            Err(_) => true,
        },
{
    reveal_strlit("top_k");
    reveal_strlit("top_p");
    reveal_strlit("tools");
    reveal_strlit("model");
    reveal_strlit("messages");
    reveal_strlit("stream");
    reveal_strlit("temperature");
    reveal_strlit("max_tokens");
    lemma_top_k_is_no_other_member();
    let base = base_fields(protocol, model, request);
    assert(lacks(base, key));
    let tooled = with_tools(base, protocol, request.tools);
    assert(lacks(tooled, key)) by {
        if request.tools is Some && request.tools->Some_0@.len() > 0 {
            lemma_set_keeps_lacking(
                base,
                "tools"@,
                JsonV::Array(wire_tools(request.tools->Some_0@, protocol)),
                key,
            );
        }
    }
    let a = with_knob(tooled, protocol, "temperature"@, real_knob(request.temperature));
    lemma_knob_keeps_lacking(tooled, protocol, "temperature"@, real_knob(request.temperature), key);
    let b = with_knob(a, protocol, "top_p"@, real_knob(request.top_p));
    lemma_knob_keeps_lacking(a, protocol, "top_p"@, real_knob(request.top_p), key);
    let c = with_knob(b, protocol, "top_k"@, int_knob(request.top_k));
    lemma_knob_keeps_lacking(b, protocol, "top_k"@, int_knob(request.top_k), key);
    let d = with_knob(c, protocol, "max_tokens"@, int_knob(request.max_tokens));
    lemma_knob_keeps_lacking(c, protocol, "max_tokens"@, int_knob(request.max_tokens), key);
    let e = merge_allowed(d, extra_body, protocol);
    lemma_merge_keeps_lacking(d, extra_body, protocol, key);
    let f = merge_allowed(e, opt_members(request.provider_options), protocol);
    lemma_merge_keeps_lacking(e, opt_members(request.provider_options), protocol, key);
    assert(f == payload_fields(protocol, model, request, extra_body));
    lemma_fields_position_none(f, key);
}

/// A sampling parameter that the family accepts and the request sets is in
/// the payload with the value of the request, unless the provider's default
/// body or the caller's options name the same member.
pub proof fn law_accepted_knob_is_sent(
    protocol: ProtocolType,
    model: Seq<char>,
    request: StreamTextRequest,
)
    requires
        !is_blank(model),
        request.messages@.len() > 0,
        request.provider_options is None,
        request.top_k is Some,
        !rejects(protocol, "top_k"@),
    ensures
        spec_build(protocol, model, request, Seq::empty()) matches Ok(payload) && payload.member(
            "top_k"@,
        ) == Some(JsonV::Int(request.top_k->Some_0 as int)),
{
    lemma_top_k_is_no_other_member();
    let tooled = with_tools(base_fields(protocol, model, request), protocol, request.tools);
    let a = with_knob(tooled, protocol, "temperature"@, real_knob(request.temperature));
    let b = with_knob(a, protocol, "top_p"@, real_knob(request.top_p));
    let c = with_knob(b, protocol, "top_k"@, int_knob(request.top_k));
    let d = with_knob(c, protocol, "max_tokens"@, int_knob(request.max_tokens));
    let value = JsonV::Int(request.top_k->Some_0 as int);
    crate::json::lemma_fields_get_set(b, "top_k"@, value, "top_k"@);
    if request.max_tokens is Some {
        crate::json::lemma_fields_get_set(
            c,
            "max_tokens"@,
            JsonV::Int(request.max_tokens->Some_0 as int),
            "top_k"@,
        );
    }
    assert(merge_allowed(d, Seq::empty(), protocol) == d);
}

/// Building is a function of its arguments: two results for the same
/// arguments hold the same payload, or the same failure.
pub proof fn law_build_is_deterministic(
    first: Result<Json, GatewayError>,
    second: Result<Json, GatewayError>,
    protocol: ProtocolType,
    model: Seq<char>,
    request: StreamTextRequest,
    extra_body: Fields,
)
    requires
        is_build_of(first, protocol, model, request, extra_body),
        is_build_of(second, protocol, model, request, extra_body),
    ensures
        match (first, second) {
            (Ok(a), Ok(b)) => a@ == b@,
            (Err(a), Err(b)) => a@ == b@,
            _ => false,
        },
{
}

} // verus!
