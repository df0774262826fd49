//! The supported providers and what each one needs to be called.
use crate::config::ProviderConfig;
use crate::error::GatewayError;
use crate::text::{chars_eq, clone_opt, to_chars};
use vstd::prelude::*;
use vstd::string::*;

verus! {

/// Supported AI provider types.
#[derive(Debug, Clone, Copy, PartialEq, Eq, Hash, Structural)]
pub enum ProviderType {
    /// OpenAI GPT models
    OpenAI,
    /// Azure OpenAI Service
    Azure,
    /// DeepSeek models
    DeepSeek,
    /// Alibaba Qwen models
    Qwen,
}

/// What `str::to_lowercase` returns for a string.
pub uninterp spec fn lower_of(s: Seq<char>) -> Seq<char>;

/// Relies on `str::to_lowercase`: the result depends on the characters alone.
#[verifier::external_body]
fn lowercase(s: &str) -> (r: String)
    ensures
        r@ == lower_of(s@),
{
    s.to_lowercase()
}

/// The lowercase name of a provider.
pub open spec fn provider_name(t: ProviderType) -> Seq<char> {
    match t {
        ProviderType::OpenAI => "openai"@,
        ProviderType::Azure => "azure"@,
        ProviderType::DeepSeek => "deepseek"@,
        ProviderType::Qwen => "qwen"@,
    }
}

/// The provider whose lowercase name is `s`.
pub open spec fn provider_of_name(s: Seq<char>) -> Option<ProviderType> {
    if s == "openai"@ {
        Some(ProviderType::OpenAI)
    } else if s == "azure"@ {
        Some(ProviderType::Azure)
    } else if s == "deepseek"@ {
        Some(ProviderType::DeepSeek)
    } else if s == "qwen"@ {
        Some(ProviderType::Qwen)
    } else {
        None
    }
}

/// The name used in messages about a provider.
pub open spec fn provider_label(t: ProviderType) -> Seq<char> {
    match t {
        ProviderType::OpenAI => "OpenAI"@,
        ProviderType::Azure => "Azure"@,
        ProviderType::DeepSeek => "DeepSeek"@,
        ProviderType::Qwen => "Qwen"@,
    }
}

impl ProviderType {
    /// The lowercase name of the provider.
    pub fn name(&self) -> (r: &'static str)
        ensures
            r@ == provider_name(*self),
    {
        match self {
            ProviderType::OpenAI => "openai",
            ProviderType::Azure => "azure",
            ProviderType::DeepSeek => "deepseek",
            ProviderType::Qwen => "qwen",
        }
    }

    /// The name used in messages about the provider.
    pub fn label(&self) -> (r: &'static str)
        ensures
            r@ == provider_label(*self),
    {
        match self {
            ProviderType::OpenAI => "OpenAI",
            ProviderType::Azure => "Azure",
            ProviderType::DeepSeek => "DeepSeek",
            ProviderType::Qwen => "Qwen",
        }
    }

    /// The provider named exactly `s` (already in lowercase).
    pub fn from_lowercase(s: &str) -> (r: Option<ProviderType>)
        ensures
            r == provider_of_name(s@),
    {
        let c = to_chars(s);
        if chars_eq(&c, &to_chars("openai")) {
            Some(ProviderType::OpenAI)
        } else if chars_eq(&c, &to_chars("azure")) {
            Some(ProviderType::Azure)
        } else if chars_eq(&c, &to_chars("deepseek")) {
            Some(ProviderType::DeepSeek)
        } else if chars_eq(&c, &to_chars("qwen")) {
            Some(ProviderType::Qwen)
        } else {
            None
        }
    }

    /// Parses a provider name, ignoring case.
    pub fn parse(s: &str) -> (r: Result<ProviderType, String>)
        ensures
            r matches Ok(t) ==> provider_of_name(lower_of(s@)) == Some(t),
            r matches Err(m) ==> provider_of_name(lower_of(s@)) is None && m@
                == "Unknown provider type: "@ + s@,
    {
        let lower = lowercase(s);
        match Self::from_lowercase(lower.as_str()) {
            Some(t) => Ok(t),
            None => Err(String::from_str("Unknown provider type: ").concat(s)),
        }
    }
}

impl std::str::FromStr for ProviderType {
    type Err = String;

    fn from_str(s: &str) -> Result<ProviderType, String> {
        ProviderType::parse(s)
    }
}

/// The base URL a provider uses when none is configured.
pub open spec fn default_base_url(t: ProviderType) -> Seq<char> {
    match t {
        ProviderType::OpenAI => "https://api.openai.com/v1"@,
        ProviderType::Azure => Seq::empty(),
        ProviderType::DeepSeek => "https://api.deepseek.com/v1"@,
        ProviderType::Qwen => "https://dashscope.aliyuncs.com/compatible-mode/v1"@,
    }
}

/// The model a provider falls back to when none is configured.
pub open spec fn builtin_model(t: ProviderType) -> Option<Seq<char>> {
    match t {
        ProviderType::OpenAI => Some("gpt-3.5-turbo"@),
        ProviderType::Azure => None,
        ProviderType::DeepSeek => Some("deepseek-coder"@),
        ProviderType::Qwen => Some("qwen-max"@),
    }
}

/// The Azure API version used when none is configured.
pub open spec fn default_api_version() -> Seq<char> {
    "2024-02-15-preview"@
}

/// A provider ready to be called: where to send requests and how to sign them.
#[derive(Debug, Clone)]
pub struct ProviderSettings {
    /// Which provider this is
    pub kind: ProviderType,
    /// Secret key sent with each request
    pub api_key: String,
    /// Base URL, or the resource endpoint for Azure
    pub base_url: String,
    /// API version sent as a query parameter (Azure only)
    pub api_version: String,
    /// Configured model, or the deployment name for Azure
    pub model: Option<String>,
}

/// `s` holds what `ProviderSettings::new` derives from configuration `c` of
/// provider `t`: defaults fill in what `c` leaves out.
pub open spec fn settings_ok(t: ProviderType, c: ProviderConfig, s: ProviderSettings) -> bool {
    &&& s.kind == t
    &&& s.api_key@ == c.api_key@
    &&& s.base_url@ == (match c.base_url {
        Some(u) => u@,
        None => default_base_url(t),
    })
    &&& s.api_version@ == (if t == ProviderType::Azure {
        match crate::config::extra_lookup(c.extra@, "api_version"@) {
            Some(v) => v,
            None => default_api_version(),
        }
    } else {
        Seq::empty()
    })
    &&& (s.model is Some <==> c.default_model is Some)
    &&& (s.model matches Some(m) ==> m@ == c.default_model->0@)
}

/// The configuration is complete enough to be called: a key, and for Azure an
/// endpoint and a deployment.
pub open spec fn config_valid(t: ProviderType, c: ProviderConfig) -> bool {
    &&& c.api_key@.len() > 0
    &&& t == ProviderType::Azure ==> (c.base_url matches Some(u) && u@.len() > 0)
    &&& t == ProviderType::Azure ==> c.default_model is Some
}

impl ProviderSettings {
    /// Builds the settings of provider `kind` from its configuration; Azure
    /// needs an endpoint.
    pub fn new(kind: ProviderType, config: &ProviderConfig) -> (r: Result<Self, GatewayError>)
        ensures
            r is Err <==> kind == ProviderType::Azure && config.base_url is None,
            r matches Ok(s) ==> settings_ok(kind, *config, s),
            r matches Err(e) ==> e matches GatewayError::Config(m) && m@
                == "Azure endpoint is required"@,
    {
        let base_url = match &config.base_url {
            Some(u) => u.clone(),
            None => match kind {
                ProviderType::OpenAI => String::from_str("https://api.openai.com/v1"),
                ProviderType::Azure => {
                    return Err(GatewayError::Config(String::from_str("Azure endpoint is required")));
                },
                ProviderType::DeepSeek => String::from_str("https://api.deepseek.com/v1"),
                ProviderType::Qwen => String::from_str(
                    "https://dashscope.aliyuncs.com/compatible-mode/v1",
                ),
            },
        };
        let api_version = match kind {
            ProviderType::Azure => match config.get_extra("api_version") {
                Some(v) => v.clone(),
                None => String::from_str("2024-02-15-preview"),
            },
            _ => String::new(),
        };
        Ok(ProviderSettings {
            kind,
            api_key: config.api_key.clone(),
            base_url,
            api_version,
            model: clone_opt(&config.default_model),
        })
    }

    /// The provider this is.
    pub fn provider_type(&self) -> (r: ProviderType)
        ensures
            r == self.kind,
    {
        self.kind
    }

    /// The model used when a request names none: the configured one, else the
    /// provider's own default.
    pub fn default_model(&self) -> (r: Option<&str>)
        ensures
            r is Some <==> self.model is Some || builtin_model(self.kind) is Some,
            r matches Some(m) ==> m@ == (match self.model {
                Some(x) => x@,
                None => builtin_model(self.kind)->0,
            }),
    {
        match &self.model {
            Some(m) => Some(m.as_str()),
            None => match self.kind {
                ProviderType::OpenAI => Some("gpt-3.5-turbo"),
                ProviderType::Azure => None,
                ProviderType::DeepSeek => Some("deepseek-coder"),
                ProviderType::Qwen => Some("qwen-max"),
            },
        }
    }

    /// Streaming is not offered by this library.
    pub fn supports_streaming(&self) -> (r: bool)
        ensures
            !r,
    {
        false
    }

    /// Checks that the provider can be called: a non-empty key, and for Azure a
    /// non-empty endpoint and a deployment name.
    pub fn validate_config(&self) -> (r: Result<(), GatewayError>)
        ensures
            r is Ok <==> settings_valid(*self),
            r matches Err(e) ==> e is Config,
    {
        if self.api_key.as_str().unicode_len() == 0 {
            return Err(
                GatewayError::Config(
                    String::from_str(self.kind.label()).concat(" API key is required"),
                ),
            );
        }
        if let ProviderType::Azure = self.kind {
            if self.base_url.as_str().unicode_len() == 0 {
                return Err(GatewayError::Config(String::from_str("Azure endpoint is required")));
            }
            if self.model.is_none() {
                return Err(
                    GatewayError::Config(String::from_str("Azure deployment name is required")),
                );
            }
        }
        Ok(())
    }

    /// The URL that chat requests are posted to.
    pub fn chat_url(&self) -> (r: Result<String, GatewayError>)
        ensures
            r is Err <==> self.kind == ProviderType::Azure && self.model is None,
            r matches Ok(u) ==> u@ == chat_url_of(*self),
            r matches Err(e) ==> e is Config,
    {
        match self.kind {
            ProviderType::Azure => match &self.model {
                Some(d) => Ok(
                    String::from_str(self.base_url.as_str()).concat(
                        "/openai/deployments/",
                    ).concat(d.as_str()).concat("/chat/completions?api-version=").concat(
                        self.api_version.as_str(),
                    ),
                ),
                None => Err(
                    GatewayError::Config(String::from_str("Azure deployment name is required")),
                ),
            },
            _ => Ok(String::from_str(self.base_url.as_str()).concat("/chat/completions")),
        }
    }

    /// The model named in the request body: Azure addresses the deployment in
    /// the URL and sends its name as the model.
    pub fn request_model(&self, requested: String) -> (r: String)
        ensures
            r@ == (if self.kind == ProviderType::Azure && self.model is Some {
                self.model->0@
            } else {
                requested@
            }),
    {
        if let ProviderType::Azure = self.kind {
            if let Some(d) = &self.model {
                return d.clone();
            }
        }
        requested
    }

    /// The authentication header: a bearer token, or Azure's `api-key`.
    pub fn auth_header(&self) -> (r: (String, String))
        ensures
            self.kind == ProviderType::Azure ==> r.0@ == "api-key"@ && r.1@ == self.api_key@,
            self.kind != ProviderType::Azure ==> r.0@ == "Authorization"@ && r.1@ == "Bearer "@
                + self.api_key@,
    {
        match self.kind {
            ProviderType::Azure => (String::from_str("api-key"), self.api_key.clone()),
            _ => (
                String::from_str("Authorization"),
                String::from_str("Bearer ").concat(self.api_key.as_str()),
            ),
        }
    }
}

/// How a provider's API is named in error messages.
pub open spec fn api_label(t: ProviderType) -> Seq<char> {
    match t {
        ProviderType::OpenAI => "OpenAI API error "@,
        ProviderType::Azure => "Azure OpenAI API error "@,
        ProviderType::DeepSeek => "DeepSeek API error "@,
        ProviderType::Qwen => "Qwen API error "@,
    }
}

impl ProviderSettings {
    /// Accepts a reply whose status is 2xx; any other status becomes a
    /// provider error carrying the status text and the reply body.
    pub fn check_status(&self, status: u16, status_text: &str, body: &str) -> (r: Result<(), GatewayError>)
        ensures
            r is Ok <==> 200 <= status < 300,
            r matches Err(e) ==> e == GatewayError::Provider(e->Provider_0) && e->Provider_0@
                == api_label(self.kind) + status_text@ + ": "@ + body@,
    {
        if 200 <= status && status < 300 {
            return Ok(());
        }
        let label = match self.kind {
            ProviderType::OpenAI => "OpenAI API error ",
            ProviderType::Azure => "Azure OpenAI API error ",
            ProviderType::DeepSeek => "DeepSeek API error ",
            ProviderType::Qwen => "Qwen API error ",
        };
        Err(
            GatewayError::Provider(
                String::from_str(label).concat(status_text).concat(": ").concat(body),
            ),
        )
    }
}

/// The provider can be called.
pub open spec fn settings_valid(s: ProviderSettings) -> bool {
    &&& s.api_key@.len() > 0
    &&& s.kind == ProviderType::Azure ==> s.base_url@.len() > 0 && s.model is Some
}

/// The chat URL of a provider.
pub open spec fn chat_url_of(s: ProviderSettings) -> Seq<char> {
    if s.kind == ProviderType::Azure {
        s.base_url@ + "/openai/deployments/"@ + s.model->0@ + "/chat/completions?api-version="@
            + s.api_version@
    } else {
        s.base_url@ + "/chat/completions"@
    }
}

} // verus!
