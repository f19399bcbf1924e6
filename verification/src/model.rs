//! Model descriptors and the model-family classification that drives the
//! Azure-specific payload quirks.

use vstd::prelude::*;
use crate::text;

verus! {

/// A model offered through an Azure deployment: either one of the
/// provider's predefined models, or a custom entry configured by the user.
/// Azure addresses the model by its deployment name, which is carried
/// beside the descriptor, not inside it.
pub enum ModelDescriptor {
    Named { id: String, supports_parallel_tool_calls: bool },
    Custom {
        name: String,
        display_name: Option<String>,
        max_tokens: u64,
        max_output_tokens: Option<u64>,
        max_completion_tokens: Option<u64>,
    },
}

/// The two families that the payload rules branch on: reasoning models
/// (id prefix `o1` or `o3`) and everything else.
#[derive(PartialEq, Eq, Structural, Debug, Clone, Copy)]
pub enum ModelFamily {
    Reasoning,
    Standard,
}

/// Whether a model id names a reasoning model.
pub open spec fn spec_is_reasoning(id: Seq<char>) -> bool {
    "o1"@.is_prefix_of(id) || "o3"@.is_prefix_of(id)
}

/// Whether a model id names a model that rejects `stream = true`.
pub open spec fn spec_forbids_streaming(id: Seq<char>) -> bool {
    "o1"@.is_prefix_of(id)
}

/// Whether a model id names a model that accepts tools.
pub open spec fn spec_supports_tools(id: Seq<char>) -> bool {
    !"o1"@.is_prefix_of(id)
}

/// The family of a model id.
pub open spec fn spec_family(id: Seq<char>) -> ModelFamily {
    if spec_is_reasoning(id) {
        ModelFamily::Reasoning
    } else {
        ModelFamily::Standard
    }
}

impl ModelDescriptor {
    /// The model id used in the payload and in the family classification.
    pub open spec fn spec_id(&self) -> Seq<char> {
        match self {
            ModelDescriptor::Named { id, .. } => id@,
            ModelDescriptor::Custom { name, .. } => name@,
        }
    }

    pub open spec fn spec_supports_parallel_tool_calls(&self) -> bool {
        match self {
            ModelDescriptor::Named { supports_parallel_tool_calls, .. } => *supports_parallel_tool_calls,
            ModelDescriptor::Custom { .. } => false,
        }
    }

    pub open spec fn spec_max_output_tokens(&self) -> Option<u64> {
        match self {
            ModelDescriptor::Named { .. } => None,
            ModelDescriptor::Custom { max_output_tokens, .. } => *max_output_tokens,
        }
    }

    pub fn id(&self) -> (r: &str)
        ensures
            r@ == self.spec_id(),
    {
        match self {
            ModelDescriptor::Named { id, .. } => id.as_str(),
            ModelDescriptor::Custom { name, .. } => name.as_str(),
        }
    }

    /// Reasoning models receive `max_completion_tokens` and must not
    /// receive `max_tokens`.
    pub fn is_reasoning(&self) -> (r: bool)
        ensures
            r == spec_is_reasoning(self.spec_id()),
    {
        let id = self.id();
        text::has_prefix(id, "o1") || text::has_prefix(id, "o3")
    }

    /// Models of this kind are served through a single blocking request;
    /// the stream flag is forced off for them.
    pub fn forbids_streaming(&self) -> (r: bool)
        ensures
            r == spec_forbids_streaming(self.spec_id()),
    {
        text::has_prefix(self.id(), "o1")
    }

    /// The family, computed once per request and then branched on.
    pub fn family(&self) -> (r: ModelFamily)
        ensures
            r == spec_family(self.spec_id()),
    {
        if self.is_reasoning() {
            ModelFamily::Reasoning
        } else {
            ModelFamily::Standard
        }
    }

    /// Whether the model accepts tools at all: the `o1` family does not.
    pub fn supports_tools(&self) -> (r: bool)
        ensures
            r == spec_supports_tools(self.spec_id()),
    {
        !text::has_prefix(self.id(), "o1")
    }

    pub fn supports_parallel_tool_calls(&self) -> (r: bool)
        ensures
            r == self.spec_supports_parallel_tool_calls(),
    {
        match self {
            ModelDescriptor::Named { supports_parallel_tool_calls, .. } => *supports_parallel_tool_calls,
            ModelDescriptor::Custom { .. } => false,
        }
    }

    pub fn max_output_tokens(&self) -> (r: Option<u64>)
        ensures
            r == self.spec_max_output_tokens(),
    {
        match self {
            ModelDescriptor::Named { .. } => None,
            ModelDescriptor::Custom { max_output_tokens, .. } => *max_output_tokens,
        }
    }

    /// The name shown to the user: the configured display name where one
    /// is set, else the model id.
    pub fn display_name(&self) -> (r: &str)
        ensures
            r@ == (match self {
                ModelDescriptor::Named { id, .. } => id@,
                ModelDescriptor::Custom { name, display_name: Some(d), .. } => d@,
                ModelDescriptor::Custom { name, display_name: None, .. } => name@,
            }),
    {
        match self {
            ModelDescriptor::Named { id, .. } => id.as_str(),
            ModelDescriptor::Custom { display_name: Some(d), .. } => d.as_str(),
            ModelDescriptor::Custom { name, display_name: None, .. } => name.as_str(),
        }
    }

    /// The model's identifier in telemetry: the provider id, a slash, the
    /// model id.
    pub fn telemetry_id(&self) -> (r: String)
        ensures
            r@ == spec_provider_id() + "/"@ + self.spec_id(),
    {
        let mut r = provider_id();
        r.append("/");
        r.append(self.id());
        r
    }
}

/// The provider's stable identifier.
pub open spec fn spec_provider_id() -> Seq<char> {
    "azure_openai"@
}

pub fn provider_id() -> (r: String)
    ensures
        r@ == spec_provider_id(),
{
    String::from_str("azure_openai")
}

/// The provider's human-readable name.
pub fn provider_name() -> (r: String)
    ensures
        r@ == "Azure OpenAI"@,
{
    String::from_str("Azure OpenAI")
}

/// A model entry as it appears in the provider's settings.
pub struct AvailableModel {
    pub name: String,
    pub deployment_name: String,
    pub display_name: Option<String>,
    pub max_tokens: u64,
    pub max_output_tokens: Option<u64>,
    pub max_completion_tokens: Option<u64>,
}

impl AvailableModel {
    /// The descriptor for this settings entry.
    pub fn to_descriptor(&self) -> (r: ModelDescriptor)
        ensures
            r matches ModelDescriptor::Custom {
                name,
                display_name,
                max_tokens,
                max_output_tokens,
                max_completion_tokens,
            } && name@ == self.name@ && max_tokens == self.max_tokens
                && max_output_tokens == self.max_output_tokens
                && max_completion_tokens == self.max_completion_tokens,
    {
        ModelDescriptor::Custom {
            name: self.name.clone(),
            display_name: match &self.display_name {
                Some(d) => Some(d.clone()),
                None => None,
            },
            max_tokens: self.max_tokens,
            max_output_tokens: self.max_output_tokens,
            max_completion_tokens: self.max_completion_tokens,
        }
    }
}

/// The provider's settings: the deployments it may talk to.
pub struct AzureOpenAiSettings {
    pub resource_name: String,
    pub api_version: String,
    pub available_models: Vec<AvailableModel>,
}

/// What one settings entry contributes to the provider's model list.
pub open spec fn spec_provided_model(e: &AvailableModel, d: &ModelDescriptor, dep: Seq<char>) -> bool {
    &&& d matches ModelDescriptor::Custom {
        name,
        display_name,
        max_tokens,
        max_output_tokens,
        max_completion_tokens,
    } && name@ == e.name@ && max_tokens == e.max_tokens && max_output_tokens
        == e.max_output_tokens && max_completion_tokens == e.max_completion_tokens
    &&& dep == e.deployment_name@
}

impl AzureOpenAiSettings {
    /// The descriptor and deployment name of every configured model, in
    /// settings order.
    pub fn provided_models(&self) -> (r: Vec<(ModelDescriptor, String)>)
        ensures
            r@.len() == self.available_models@.len(),
            forall|i: int|
                0 <= i < r@.len() ==> spec_provided_model(
                    &self.available_models@[i],
                    &(#[trigger] r@[i]).0,
                    r@[i].1@,
                ),
    {
        let mut out: Vec<(ModelDescriptor, String)> = Vec::new();
        let mut i: usize = 0;
        while i < self.available_models.len()
            invariant
                0 <= i <= self.available_models@.len(),
                out@.len() == i,
                forall|k: int|
                    0 <= k < i ==> spec_provided_model(
                        &self.available_models@[k],
                        &(#[trigger] out@[k]).0,
                        out@[k].1@,
                    ),
            decreases self.available_models@.len() - i,
        {
            let entry = &self.available_models[i];
            out.push((entry.to_descriptor(), entry.deployment_name.clone()));
            i = i + 1;
        }
        out
    }

    /// The first configured model, which the provider offers as its
    /// default.
    pub fn default_model(&self) -> (r: Option<(ModelDescriptor, String)>)
        ensures
            r is Some <==> self.available_models@.len() > 0,
            r matches Some(m) ==> spec_provided_model(&self.available_models@[0], &m.0, m.1@),
    {
        if self.available_models.len() > 0 {
            let entry = &self.available_models[0];
            Some((entry.to_descriptor(), entry.deployment_name.clone()))
        } else {
            None
        }
    }
}

} // verus!
