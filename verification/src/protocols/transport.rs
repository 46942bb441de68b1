//! What goes around a payload on its way to a provider: the address it is
//! sent to and the headers it is sent with.

use vstd::prelude::*;
use vstd::string::*;
use crate::text::{
    concat2, index_of, lemma_index_of_is, lemma_index_of_none, owned, pairs_view, str_eq,
    strip_trailing, trim_end_matches,
};
use crate::types::{AuthType, ProtocolType, ProviderConfig, ProviderConfigV};

verus! {

/// The version of the messages schema that requests declare.
pub const ANTHROPIC_VERSION: &'static str = "2023-06-01";

/// Headers, as pairs of name and value.
pub type Headers = Seq<(Seq<char>, Seq<char>)>;

/// The base address of a provider: the address of its coding plan or of
/// its international service where that is asked for, supported and
/// configured, in this order; else its own.
pub open spec fn spec_base_url(
    config: ProviderConfigV,
    use_coding_plan: bool,
    use_international: bool,
) -> Seq<char> {
    if use_coding_plan && config.supports_coding_plan && config.coding_plan_base_url is Some {
        config.coding_plan_base_url->Some_0
    } else if use_international && config.supports_international
        && config.international_base_url is Some {
        config.international_base_url->Some_0
    } else {
        config.base_url
    }
}

/// The address that streamed requests of `protocol` go to, below `base_url`.
pub open spec fn spec_chat_endpoint(protocol: ProtocolType, base_url: Seq<char>) -> Seq<char> {
    strip_trailing(base_url, '/') + if protocol == ProtocolType::Anthropic {
        "/messages"@
    } else {
        "/chat/completions"@
    }
}

/// The names of headers, header by header.
pub open spec fn header_names(headers: Headers) -> Seq<Seq<char>> {
    headers.map_values(|h: (Seq<char>, Seq<char>)| h.0)
}

/// `headers` with `name` set to `value`: the first header of that name has
/// its value replaced; without one, a header is added at the end.
pub open spec fn header_set(headers: Headers, name: Seq<char>, value: Seq<char>) -> Headers {
    match index_of(header_names(headers), name) {
        Some(i) => headers.update(i, (name, value)),
        None => headers.push((name, value)),
    }
}

/// `headers` after setting each header of `more`, in order.
pub open spec fn headers_merge(headers: Headers, more: Headers) -> Headers
    decreases more.len(),
{
    if more.len() == 0 {
        headers
    } else {
        header_set(headers_merge(headers, more.drop_last()), more.last().0, more.last().1)
    }
}

/// The headers that every request of `protocol` carries, with the secret
/// presented as `auth_type` asks.
pub open spec fn spec_required_headers(
    protocol: ProtocolType,
    auth_type: AuthType,
    secret: Seq<char>,
) -> Headers {
    let content = seq![("Content-Type"@, "application/json"@)];
    let authorized = match auth_type {
        AuthType::Bearer => content.push(("Authorization"@, "Bearer "@ + secret)),
        AuthType::ApiKey => content.push(("x-api-key"@, secret)),
        AuthType::NoAuth => content,
    };
    if protocol == ProtocolType::Anthropic {
        authorized.push(("anthropic-version"@, ANTHROPIC_VERSION@))
    } else {
        authorized
    }
}

/// The headers of a request to a provider: the required ones, then the
/// provider's own, which may override them.
pub open spec fn spec_request_headers(config: ProviderConfigV, secret: Seq<char>) -> Headers {
    headers_merge(
        spec_required_headers(config.protocol, config.auth_type, secret),
        match config.headers {
            Some(h) => h,
            None => Seq::empty(),
        },
    )
}

/// Picks the base address of a provider.
pub fn resolve_base_url(config: &ProviderConfig, use_coding_plan: bool, use_international: bool) -> (url:
    String)
    ensures
        url@ == spec_base_url(config@, use_coding_plan, use_international),
{
    if use_coding_plan && config.supports_coding_plan {
        match &config.coding_plan_base_url {
            Some(url) => {
                return url.clone();
            },
            None => {},
        }
    }
    if use_international && config.supports_international {
        match &config.international_base_url {
            Some(url) => {
                return url.clone();
            },
            None => {},
        }
    }
    config.base_url.clone()
}

/// Builds the address that streamed requests of `protocol` go to.
pub fn chat_endpoint(protocol: ProtocolType, base_url: &str) -> (url: String)
    ensures
        url@ == spec_chat_endpoint(protocol, base_url@),
{
    let mut url = trim_end_matches(base_url, '/');
    match protocol {
        ProtocolType::Anthropic => url.append("/messages"),
        _ => url.append("/chat/completions"),
    }
    url
}

/// Sets header `name` to `value`.
pub fn set_header(headers: &mut Vec<(String, String)>, name: &str, value: &str)
    ensures
        pairs_view(final(headers)@) == header_set(pairs_view(old(headers)@), name@, value@),
{
    let ghost names = header_names(pairs_view(headers@));
    let mut i: usize = 0;
    while i < headers.len()
        invariant
            i <= headers.len(),
            headers@ == old(headers)@,
            names == header_names(pairs_view(headers@)),
            forall|j: int| 0 <= j < i ==> names[j] != name@,
        decreases headers.len() - i,
    {
        if str_eq(headers[i].0.as_str(), name) {
            proof {
                lemma_index_of_is(names, name@, i as int);
            }
            headers.set(i, (owned(name), owned(value)));
            return ;
        }
        i += 1;
    }
    proof {
        lemma_index_of_none(names, name@);
    }
    headers.push((owned(name), owned(value)));
}

/// Builds the headers of a request to a provider, made with `secret`.
pub fn request_headers(config: &ProviderConfig, secret: &str) -> (headers: Vec<(String, String)>)
    ensures
        pairs_view(headers@) == spec_request_headers(config@, secret@),
{
    let mut headers: Vec<(String, String)> = Vec::new();
    headers.push((owned("Content-Type"), owned("application/json")));
    match config.auth_type {
        AuthType::Bearer => {
            headers.push((owned("Authorization"), concat2("Bearer ", secret)));
        },
        AuthType::ApiKey => {
            headers.push((owned("x-api-key"), owned(secret)));
        },
        AuthType::NoAuth => {},
    }
    match config.protocol {
        ProtocolType::Anthropic => {
            headers.push((owned("anthropic-version"), owned(ANTHROPIC_VERSION)));
        },
        _ => {},
    }
    assert(pairs_view(headers@) =~= spec_required_headers(
        config.protocol,
        config.auth_type,
        secret@,
    ));
    match &config.headers {
        Some(more) => {
            let ghost required = pairs_view(headers@);
            let ghost extra = pairs_view(more@);
            let mut i: usize = 0;
            while i < more.len()
                invariant
                    i <= more.len(),
                    extra == pairs_view(more@),
                    pairs_view(headers@) == headers_merge(required, extra.take(i as int)),
                decreases more.len() - i,
            {
                proof {
                    assert(extra.take(i + 1).drop_last() =~= extra.take(i as int));
                }
                set_header(&mut headers, more[i].0.as_str(), more[i].1.as_str());
                i += 1;
            }
            proof {
                assert(extra.take(i as int) =~= extra);
            }
        },
        None => {},
    }
    headers
}

} // verus!
