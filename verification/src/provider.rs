//! Planning one completion call: from a credential snapshot and a chat
//! request to everything the transport needs — the URL, the
//! authentication header, the payload, and the transport mode.

use vstd::prelude::*;
use crate::auth::Credentials;
use crate::endpoint::{api_key_header, completions_url_for, spec_completions_url};
use crate::model::ModelDescriptor;
use crate::request::{AzureOpenAiRequest, ChatRequest, build_request_payload, is_translation};

verus! {

/// One planned request: what to send, where, and in which transport
/// mode. A plan whose `streaming` flag is off is sent as one blocking
/// request and its body handed to the non-streaming path; otherwise the
/// body is decoded as an event stream.
pub struct RequestPlan {
    pub url: String,
    pub header_name: String,
    pub header_value: String,
    pub payload: AzureOpenAiRequest,
    pub streaming: bool,
}

/// Plans one completion call against the deployment the credentials
/// name: the payload is the translation of the request for that model
/// and deployment, the URL addresses the deployment's chat-completions
/// endpoint, and the key travels in the `api-key` header.
pub fn plan_request(request: ChatRequest, model: &ModelDescriptor, credentials: &Credentials) -> (r:
    RequestPlan)
    ensures
        is_translation(request, *model, credentials@.deployment_name, r.payload),
        r.url@ == spec_completions_url(
            credentials@.api_url,
            credentials@.deployment_name,
            credentials@.api_version,
        ),
        r.header_name@ == "api-key"@,
        r.header_value@ == credentials@.api_key,
        r.streaming == r.payload.stream,
{
    let url = completions_url_for(credentials);
    let (header_name, header_value) = api_key_header(credentials);
    let payload = build_request_payload(request, model, credentials.deployment_name.as_str());
    let streaming = payload.stream;
    RequestPlan { url, header_name, header_value, payload, streaming }
}

} // verus!
