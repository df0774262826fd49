//! The gateway: owns one set of settings per configured provider and turns a
//! chat call into a request for the selected provider.
use crate::config::{GatewayConfig, ProviderConfig, ProviderTable};
use crate::error::GatewayError;
use crate::providers::{
    builtin_model, chat_url_of, config_valid, provider_name, settings_ok, ProviderSettings,
    ProviderType,
};
use crate::types::ChatMessage;
use vstd::prelude::*;
use vstd::string::*;

verus! {

/// The configuration can back a gateway: at least one provider, the default
/// provider among them, and every configured provider complete.
pub open spec fn gateway_config_ok(c: GatewayConfig) -> bool {
    &&& exists|t: ProviderType| #[trigger] c.providers.entry(t) is Some
    &&& c.providers.entry(c.default_provider) is Some
    &&& forall|t: ProviderType| #[trigger]
        c.providers.entry(t) matches Some(p) ==> config_valid(t, p)
}

/// Main LLM gateway.
pub struct LLMGateway {
    config: GatewayConfig,
    providers: ProviderTable<ProviderSettings>,
}

/// Everything needed to send one chat request, except the sampling temperature.
pub struct PreparedChat {
    /// The provider addressed
    pub provider: ProviderType,
    /// Where the request is posted
    pub url: String,
    /// Authentication header name and value
    pub auth: (String, String),
    /// Model named in the request body
    pub model: String,
    /// The conversation
    pub messages: Vec<ChatMessage>,
    /// Maximum number of tokens to generate
    pub max_tokens: Option<u32>,
}

/// Creates and validates the settings of one configured provider.
fn setup_provider(t: ProviderType, c: &ProviderConfig) -> (r: Result<ProviderSettings, GatewayError>)
    ensures
        r is Ok <==> config_valid(t, *c),
        r matches Ok(s) ==> settings_ok(t, *c, s),
        r matches Err(e) ==> e is Config,
{
    let s = ProviderSettings::new(t, c)?;
    s.validate_config()?;
    Ok(s)
}

/// Adds the settings of provider `t` to `table` when `c` configures it.
fn add_configured(
    table: &mut ProviderTable<ProviderSettings>,
    t: ProviderType,
    c: &Option<ProviderConfig>,
) -> (r: Result<(), GatewayError>)
    ensures
        r is Ok <==> (*c matches Some(p) ==> config_valid(t, p)),
        r matches Err(e) ==> e is Config,
        r is Ok ==> forall|q: ProviderType|
            (q != t || c is None) ==> #[trigger] final(table).entry(q) == old(table).entry(q),
        r is Ok && c is Some ==> (final(table).entry(t) matches Some(s) && settings_ok(t, c->0, s)),
{
    if let Some(p) = c {
        let s = setup_provider(t, p)?;
        table.insert(t, s);
    }
    Ok(())
}

impl LLMGateway {
    /// The configuration the gateway was built from.
    pub closed spec fn spec_config(&self) -> GatewayConfig {
        self.config
    }

    /// The settings of each provider the gateway can reach.
    pub closed spec fn spec_providers(&self) -> ProviderTable<ProviderSettings> {
        self.providers
    }

    /// Creates a gateway, setting up and validating every configured provider;
    /// the first provider that fails stops construction.
    pub fn new(config: GatewayConfig) -> (r: Result<Self, GatewayError>)
        ensures
            r is Ok <==> gateway_config_ok(config),
            r matches Err(e) ==> e is Config,
            r matches Ok(g) ==> g.spec_config() == config,
            r matches Ok(g) ==> forall|t: ProviderType| #[trigger]
                g.spec_providers().entry(t) is Some <==> config.providers.entry(t) is Some,
            r matches Ok(g) ==> forall|t: ProviderType| #[trigger]
                g.spec_providers().entry(t) matches Some(s) ==> settings_ok(
                    t,
                    config.providers.entry(t)->0,
                    s,
                ),
    {
        if config.providers.is_empty() {
            return Err(
                GatewayError::Config(
                    String::from_str(
                        "No providers configured. Please set at least one provider's API key.",
                    ),
                ),
            );
        }
        if !config.providers.contains_key(&config.default_provider) {
            return Err(
                GatewayError::Config(
                    String::from_str("Default provider ").concat(
                        config.default_provider.name(),
                    ).concat(" is not configured"),
                ),
            );
        }
        let mut table: ProviderTable<ProviderSettings> = ProviderTable::empty();
        let r1 = add_configured(&mut table, ProviderType::OpenAI, &config.providers.openai);
        if let Err(e) = r1 {
            assert(config.providers.entry(ProviderType::OpenAI) is Some);
            return Err(e);
        }
        let r2 = add_configured(&mut table, ProviderType::Azure, &config.providers.azure);
        if let Err(e) = r2 {
            assert(config.providers.entry(ProviderType::Azure) is Some);
            return Err(e);
        }
        let r3 = add_configured(&mut table, ProviderType::DeepSeek, &config.providers.deepseek);
        if let Err(e) = r3 {
            assert(config.providers.entry(ProviderType::DeepSeek) is Some);
            return Err(e);
        }
        let r4 = add_configured(&mut table, ProviderType::Qwen, &config.providers.qwen);
        if let Err(e) = r4 {
            assert(config.providers.entry(ProviderType::Qwen) is Some);
            return Err(e);
        }
        proof {
            assert forall|t: ProviderType| #[trigger]
                config.providers.entry(t) is Some implies config_valid(
                t,
                config.providers.entry(t)->0,
            ) by {
                match t {
                    ProviderType::OpenAI => {},
                    ProviderType::Azure => {},
                    ProviderType::DeepSeek => {},
                    ProviderType::Qwen => {},
                }
            }
            assert forall|t: ProviderType| #[trigger] table.entry(t) is Some
                <==> config.providers.entry(t) is Some by {
                match t {
                    ProviderType::OpenAI => {},
                    ProviderType::Azure => {},
                    ProviderType::DeepSeek => {},
                    ProviderType::Qwen => {},
                }
            }
            assert forall|t: ProviderType| #[trigger]
                table.entry(t) is Some implies settings_ok(
                t,
                config.providers.entry(t)->0,
                table.entry(t)->0,
            ) by {
                match t {
                    ProviderType::OpenAI => {},
                    ProviderType::Azure => {},
                    ProviderType::DeepSeek => {},
                    ProviderType::Qwen => {},
                }
            }
        }
        Ok(LLMGateway { config, providers: table })
    }

    /// The settings of a provider, or a configuration error naming it.
    pub fn get_provider(&self, provider_type: &ProviderType) -> (r: Result<
        &ProviderSettings,
        GatewayError,
    >)
        ensures
            r is Ok <==> self.spec_providers().entry(*provider_type) is Some,
            r matches Ok(s) ==> *s == self.spec_providers().entry(*provider_type)->0,
            r matches Err(e) ==> e matches GatewayError::Config(m) && m@ == "Provider "@
                + provider_name(*provider_type) + " is not configured"@,
    {
        match self.providers.get(provider_type) {
            Some(s) => Ok(s),
            None => Err(
                GatewayError::Config(
                    String::from_str("Provider ").concat(provider_type.name()).concat(
                        " is not configured",
                    ),
                ),
            ),
        }
    }

    /// The providers this gateway can reach, in declaration order.
    pub fn available_providers(&self) -> (r: Vec<ProviderType>)
        ensures
            r@ == self.spec_providers().key_seq(),
    {
        self.providers.keys()
    }

    /// The provider used when a call names none.
    pub fn default_provider(&self) -> (r: ProviderType)
        ensures
            r == self.spec_config().default_provider,
    {
        self.config.default_provider
    }

    /// Whether the gateway can reach a provider.
    pub fn has_provider(&self, provider_type: &ProviderType) -> (r: bool)
        ensures
            r == self.spec_providers().entry(*provider_type) is Some,
    {
        self.providers.contains_key(provider_type)
    }

    /// The configuration the gateway was built from.
    pub fn config(&self) -> (r: &GatewayConfig)
        ensures
            *r == self.spec_config(),
    {
        &self.config
    }

    /// Prepares a chat call: the provider is the one named, else the default;
    /// the model is the one named, else the provider's default, else
    /// `gpt-3.5-turbo`.
    pub fn prepare_chat(
        &self,
        messages: Vec<ChatMessage>,
        provider_type: Option<ProviderType>,
        model: Option<String>,
        max_tokens: Option<u32>,
    ) -> (r: Result<PreparedChat, GatewayError>)
        ensures
            ({
                let t = match provider_type {
                    Some(p) => p,
                    None => self.spec_config().default_provider,
                };
                &&& r is Ok <==> self.spec_providers().entry(t) is Some && (self.spec_providers().entry(t)->0.kind == ProviderType::Azure ==> self.spec_providers().entry(t)->0.model is Some)
                &&& r matches Err(e) ==> e is Config
                &&& r matches Ok(c) ==> {
                    let s = self.spec_providers().entry(t)->0;
                    let chosen = match model {
                        Some(m) => m@,
                        None => resolved_default_model(s),
                    };
                    &&& c.provider == t
                    &&& c.url@ == chat_url_of(s)
                    &&& c.model@ == (if s.kind == ProviderType::Azure {
                        s.model->0@
                    } else {
                        chosen
                    })
                    &&& c.messages == messages
                    &&& c.max_tokens == max_tokens
                    &&& (s.kind == ProviderType::Azure ==> c.auth.0@ == "api-key"@ && c.auth.1@
                        == s.api_key@)
                    &&& (s.kind != ProviderType::Azure ==> c.auth.0@ == "Authorization"@
                        && c.auth.1@ == "Bearer "@ + s.api_key@)
                }
            }),
    {
        let t = match provider_type {
            Some(p) => p,
            None => self.config.default_provider,
        };
        let s = self.get_provider(&t)?;
        let chosen = match model {
            Some(m) => m,
            None => match s.default_model() {
                Some(d) => String::from_str(d),
                None => String::from_str("gpt-3.5-turbo"),
            },
        };
        let url = s.chat_url()?;
        Ok(
            PreparedChat {
                provider: t,
                url,
                auth: s.auth_header(),
                model: s.request_model(chosen),
                messages,
                max_tokens,
            },
        )
    }
}

/// The names of the providers in `ts`, separated by `, `.
pub open spec fn joined_names(ts: Seq<ProviderType>) -> Seq<char>
    decreases ts.len(),
{
    if ts.len() == 0 {
        Seq::empty()
    } else if ts.len() == 1 {
        provider_name(ts[0])
    } else {
        joined_names(ts.drop_last()) + ", "@ + provider_name(ts.last())
    }
}

/// Joins the names of providers with `, `.
pub fn join_names(ts: &Vec<ProviderType>) -> (r: String)
    ensures
        r@ == joined_names(ts@),
{
    let mut r = String::new();
    let mut i: usize = 0;
    while i < ts.len()
        invariant
            i <= ts.len(),
            r@ == joined_names(ts@.subrange(0, i as int)),
        decreases ts.len() - i,
    {
        let ghost sub = ts@.subrange(0, i + 1);
        proof {
            assert(sub.drop_last() =~= ts@.subrange(0, i as int));
        }
        if i > 0 {
            r.append(", ");
        }
        r.append(ts[i].name());
        proof {
            if i == 0 {
                assert(r@ =~= provider_name(sub[0]));
            }
        }
        i += 1;
    }
    proof {
        assert(ts@.subrange(0, ts.len() as int) =~= ts@);
    }
    r
}

impl LLMGateway {
    /// Checks that the gateway can reach provider `t`; the error lists the
    /// providers it can reach.
    pub fn require_provider(&self, t: &ProviderType) -> (r: Result<(), GatewayError>)
        ensures
            r is Ok <==> self.spec_providers().entry(*t) is Some,
            r matches Err(e) ==> e == GatewayError::Config(e->Config_0) && e->Config_0@
                == "Provider "@ + provider_name(*t) + " is not configured. Available providers: "@
                + joined_names(self.spec_providers().key_seq()),
    {
        if self.providers.contains_key(t) {
            Ok(())
        } else {
            let names = join_names(&self.providers.keys());
            Err(
                GatewayError::Config(
                    String::from_str("Provider ").concat(t.name()).concat(
                        " is not configured. Available providers: ",
                    ).concat(names.as_str()),
                ),
            )
        }
    }
}

/// The model used when a call names none.
pub open spec fn resolved_default_model(s: ProviderSettings) -> Seq<char> {
    match s.model {
        Some(m) => m@,
        None => match builtin_model(s.kind) {
            Some(b) => b,
            None => "gpt-3.5-turbo"@,
        },
    }
}

/// A provider that lacks an API key stops gateway construction with a
/// configuration error, whatever the rest of the configuration holds.
pub proof fn lemma_gateway_fail_fast(config: GatewayConfig, t: ProviderType)
    requires
        config.providers.entry(t) matches Some(p) && p.api_key@.len() == 0,
    ensures
        !gateway_config_ok(config),
{
}

} // verus!
