//! Typed configuration of the providers and of the gateway.
use crate::error::GatewayError;
use crate::providers::{lower_of, provider_of_name, ProviderType};
use crate::text::{
    chars_eq, clone_opt, find, find_first, has_char, lemma_find_from, opt_view, slice, to_chars,
};
use vstd::prelude::*;
use vstd::string::*;

verus! {

/// The value stored last under `key` in a list of key/value entries.
pub open spec fn extra_lookup(entries: Seq<(String, String)>, key: Seq<char>) -> Option<Seq<char>>
    decreases entries.len(),
{
    if entries.len() == 0 {
        None
    } else if entries.last().0@ == key {
        Some(entries.last().1@)
    } else {
        extra_lookup(entries.drop_last(), key)
    }
}

/// Configuration for a specific provider.
#[derive(Debug, Clone)]
pub struct ProviderConfig {
    /// API key for the provider
    pub api_key: String,
    /// Base URL for the provider's API
    pub base_url: Option<String>,
    /// Default model to use
    pub default_model: Option<String>,
    /// Additional provider-specific settings; a later entry overrides an
    /// earlier one with the same key
    pub extra: Vec<(String, String)>,
}

impl ProviderConfig {
    /// Creates a configuration holding only an API key.
    pub fn new(api_key: String) -> (r: Self)
        ensures
            r.api_key == api_key,
            r.base_url is None,
            r.default_model is None,
            r.extra@.len() == 0,
    {
        ProviderConfig { api_key, base_url: None, default_model: None, extra: Vec::new() }
    }

    /// Sets the base URL.
    pub fn with_base_url(self, base_url: String) -> (r: Self)
        ensures
            r.base_url == Some(base_url),
            r.api_key == self.api_key,
            r.default_model == self.default_model,
            r.extra == self.extra,
    {
        ProviderConfig { base_url: Some(base_url), ..self }
    }

    /// Sets the default model.
    pub fn with_default_model(self, model: String) -> (r: Self)
        ensures
            r.default_model == Some(model),
            r.api_key == self.api_key,
            r.base_url == self.base_url,
            r.extra == self.extra,
    {
        ProviderConfig { default_model: Some(model), ..self }
    }

    /// Adds a provider-specific setting, overriding any earlier one under `key`.
    pub fn with_extra(self, key: String, value: String) -> (r: Self)
        ensures
            r.extra@ == self.extra@.push((key, value)),
            forall|k: Seq<char>|
                #![trigger extra_lookup(r.extra@, k)]
                extra_lookup(r.extra@, k) == if k == key@ {
                    Some(value@)
                } else {
                    extra_lookup(self.extra@, k)
                },
            r.api_key == self.api_key,
            r.base_url == self.base_url,
            r.default_model == self.default_model,
    {
        let mut extra = self.extra;
        let ghost before = extra@;
        extra.push((key, value));
        proof {
            assert(extra@.drop_last() =~= before);
        }
        ProviderConfig { extra, ..self }
    }

    /// The setting stored under `key`, if any.
    pub fn get_extra(&self, key: &str) -> (r: Option<&String>)
        ensures
            r is Some <==> extra_lookup(self.extra@, key@) is Some,
            r matches Some(v) ==> v@ == extra_lookup(self.extra@, key@)->0,
    {
        let k = to_chars(key);
        let mut i: usize = self.extra.len();
        proof {
            assert(self.extra@.subrange(0, i as int) =~= self.extra@);
        }
        while i > 0
            invariant
                i <= self.extra@.len(),
                k@ == key@,
                extra_lookup(self.extra@, key@) == extra_lookup(
                    self.extra@.subrange(0, i as int),
                    key@,
                ),
            decreases i,
        {
            let ghost sub = self.extra@.subrange(0, i as int);
            proof {
                assert(sub.drop_last() =~= self.extra@.subrange(0, i - 1));
            }
            if chars_eq(&to_chars(self.extra[i - 1].0.as_str()), &k) {
                return Some(&self.extra[i - 1].1);
            }
            i -= 1;
        }
        None
    }
}

/// One optional entry for each provider.
#[derive(Debug, Clone)]
pub struct ProviderTable<T> {
    pub openai: Option<T>,
    pub azure: Option<T>,
    pub deepseek: Option<T>,
    pub qwen: Option<T>,
}

impl<T> ProviderTable<T> {
    /// The entry of provider `t`.
    pub open spec fn entry(&self, t: ProviderType) -> Option<T> {
        match t {
            ProviderType::OpenAI => self.openai,
            ProviderType::Azure => self.azure,
            ProviderType::DeepSeek => self.deepseek,
            ProviderType::Qwen => self.qwen,
        }
    }

    /// The providers that have an entry, in declaration order.
    pub open spec fn key_seq(&self) -> Seq<ProviderType> {
        let s0 = Seq::<ProviderType>::empty();
        let s1 = if self.openai is Some {
            s0.push(ProviderType::OpenAI)
        } else {
            s0
        };
        let s2 = if self.azure is Some {
            s1.push(ProviderType::Azure)
        } else {
            s1
        };
        let s3 = if self.deepseek is Some {
            s2.push(ProviderType::DeepSeek)
        } else {
            s2
        };
        if self.qwen is Some {
            s3.push(ProviderType::Qwen)
        } else {
            s3
        }
    }

    /// A table with no entries.
    pub fn empty() -> (r: Self)
        ensures
            forall|t: ProviderType| #[trigger] r.entry(t) is None,
    {
        ProviderTable { openai: None, azure: None, deepseek: None, qwen: None }
    }

    /// The entry of provider `t`, if any.
    pub fn get(&self, t: &ProviderType) -> (r: Option<&T>)
        ensures
            r is Some <==> self.entry(*t) is Some,
            r matches Some(v) ==> *v == self.entry(*t)->0,
    {
        match t {
            ProviderType::OpenAI => self.openai.as_ref(),
            ProviderType::Azure => self.azure.as_ref(),
            ProviderType::DeepSeek => self.deepseek.as_ref(),
            ProviderType::Qwen => self.qwen.as_ref(),
        }
    }

    /// Whether provider `t` has an entry.
    pub fn contains_key(&self, t: &ProviderType) -> (r: bool)
        ensures
            r == self.entry(*t) is Some,
    {
        self.get(t).is_some()
    }

    /// Whether no provider has an entry.
    pub fn is_empty(&self) -> (r: bool)
        ensures
            r == (forall|t: ProviderType| #[trigger] self.entry(t) is None),
    {
        let r = self.openai.is_none() && self.azure.is_none() && self.deepseek.is_none()
            && self.qwen.is_none();
        proof {
            if !r {
                if self.openai is Some {
                    assert(self.entry(ProviderType::OpenAI) is Some);
                } else if self.azure is Some {
                    assert(self.entry(ProviderType::Azure) is Some);
                } else if self.deepseek is Some {
                    assert(self.entry(ProviderType::DeepSeek) is Some);
                } else {
                    assert(self.entry(ProviderType::Qwen) is Some);
                }
            }
        }
        r
    }

    /// Sets the entry of provider `t`, replacing any earlier one.
    pub fn insert(&mut self, t: ProviderType, v: T)
        ensures
            forall|q: ProviderType| #[trigger]
                final(self).entry(q) == if q == t {
                    Some(v)
                } else {
                    old(self).entry(q)
                },
    {
        match t {
            ProviderType::OpenAI => self.openai = Some(v),
            ProviderType::Azure => self.azure = Some(v),
            ProviderType::DeepSeek => self.deepseek = Some(v),
            ProviderType::Qwen => self.qwen = Some(v),
        }
    }

    /// The providers that have an entry, in declaration order.
    pub fn keys(&self) -> (r: Vec<ProviderType>)
        ensures
            r@ == self.key_seq(),
    {
        let mut r: Vec<ProviderType> = Vec::new();
        if self.openai.is_some() {
            r.push(ProviderType::OpenAI);
        }
        if self.azure.is_some() {
            r.push(ProviderType::Azure);
        }
        if self.deepseek.is_some() {
            r.push(ProviderType::DeepSeek);
        }
        if self.qwen.is_some() {
            r.push(ProviderType::Qwen);
        }
        r
    }
}

/// Main gateway configuration.
#[derive(Debug, Clone)]
pub struct GatewayConfig {
    /// Default provider to use
    pub default_provider: ProviderType,
    /// Configuration for each provider
    pub providers: ProviderTable<ProviderConfig>,
    /// Global timeout in seconds
    pub timeout_seconds: Option<u64>,
    /// Maximum number of retries
    pub max_retries: Option<u32>,
}

impl GatewayConfig {
    /// Creates a configuration with a default provider and no providers configured.
    pub fn new(default_provider: ProviderType) -> (r: Self)
        ensures
            r.default_provider == default_provider,
            forall|t: ProviderType| #[trigger] r.providers.entry(t) is None,
            r.timeout_seconds is None,
            r.max_retries is None,
    {
        GatewayConfig {
            default_provider,
            providers: ProviderTable::empty(),
            timeout_seconds: None,
            max_retries: None,
        }
    }

    /// Adds (or replaces) the configuration of one provider.
    pub fn with_provider(self, provider_type: ProviderType, config: ProviderConfig) -> (r: Self)
        ensures
            forall|q: ProviderType| #[trigger]
                r.providers.entry(q) == if q == provider_type {
                    Some(config)
                } else {
                    self.providers.entry(q)
                },
            r.default_provider == self.default_provider,
            r.timeout_seconds == self.timeout_seconds,
            r.max_retries == self.max_retries,
    {
        let mut s = self;
        s.providers.insert(provider_type, config);
        s
    }

    /// Sets the global timeout.
    pub fn with_timeout(self, timeout_seconds: u64) -> (r: Self)
        ensures
            r.timeout_seconds == Some(timeout_seconds),
            r.default_provider == self.default_provider,
            r.providers == self.providers,
            r.max_retries == self.max_retries,
    {
        GatewayConfig { timeout_seconds: Some(timeout_seconds), ..self }
    }

    /// Sets the maximum number of retries.
    pub fn with_max_retries(self, max_retries: u32) -> (r: Self)
        ensures
            r.max_retries == Some(max_retries),
            r.default_provider == self.default_provider,
            r.providers == self.providers,
            r.timeout_seconds == self.timeout_seconds,
    {
        GatewayConfig { max_retries: Some(max_retries), ..self }
    }

    /// The configuration of a specific provider.
    pub fn get_provider_config(&self, provider_type: &ProviderType) -> (r: Option<&ProviderConfig>)
        ensures
            r is Some <==> self.providers.entry(*provider_type) is Some,
            r matches Some(c) ==> *c == self.providers.entry(*provider_type)->0,
    {
        self.providers.get(provider_type)
    }

    /// The configuration of the default provider.
    pub fn get_default_provider_config(&self) -> (r: Option<&ProviderConfig>)
        ensures
            r is Some <==> self.providers.entry(self.default_provider) is Some,
            r matches Some(c) ==> *c == self.providers.entry(self.default_provider)->0,
    {
        self.get_provider_config(&self.default_provider)
    }
}


/// The value of a decimal numeral: an optional `+`, then one or more digits;
/// `None` for any other text.
pub open spec fn decimal_value(s: Seq<char>) -> Option<nat> {
    let digits = numeral_digits(s);
    if digits.len() > 0 && all_digits(digits) {
        Some(digits_value(digits))
    } else {
        None
    }
}

/// A numeral without its leading `+`, if it has one.
pub open spec fn numeral_digits(s: Seq<char>) -> Seq<char> {
    if s.len() > 0 && s[0] == '+' {
        s.drop_first()
    } else {
        s
    }
}

/// A decimal digit.
pub open spec fn is_digit(c: char) -> bool {
    '0' <= c && c <= '9'
}

/// Every character is a decimal digit.
pub open spec fn all_digits(d: Seq<char>) -> bool {
    forall|i: int| 0 <= i < d.len() ==> is_digit(#[trigger] d[i])
}

/// The value of a string of decimal digits.
pub open spec fn digits_value(d: Seq<char>) -> nat
    decreases d.len(),
{
    if d.len() == 0 {
        0
    } else {
        digits_value(d.drop_last()) * 10 + (d.last() as nat - '0' as nat) as nat
    }
}

/// Reads an unsigned decimal number no greater than `max`, as `str::parse`
/// reads one into an integer type whose largest value is `max`.
pub fn parse_bounded(s: &str, max: u64) -> (r: Option<u64>)
    ensures
        r is Some <==> (decimal_value(s@) matches Some(v) && v <= max),
        r matches Some(x) ==> decimal_value(s@) == Some(x as nat),
{
    let c = to_chars(s);
    let n = c.len();
    let start: usize = if n > 0 && c[0] == '+' {
        1
    } else {
        0
    };
    let ghost digits = numeral_digits(s@);
    proof {
        assert(digits =~= c@.subrange(start as int, n as int));
    }
    if start == n {
        return None;
    }
    let mut value: u64 = 0;
    let mut i: usize = start;
    proof {
        assert(c@.subrange(start as int, start as int) =~= Seq::<char>::empty());
    }
    while i < n
        invariant
            start <= i <= n,
            n == c@.len(),
            c@ == s@,
            digits == c@.subrange(start as int, n as int),
            digits == numeral_digits(s@),
            forall|j: int| start <= j < i ==> is_digit(#[trigger] c@[j]),
            value as nat == digits_value(c@.subrange(start as int, i as int)),
            value <= max,
        decreases n - i,
    {
        let d = c[i];
        if d < '0' || d > '9' {
            proof {
                assert(digits[i - start] == d);
                assert(!is_digit(digits[i - start]));
                assert(!all_digits(digits));
            }
            return None;
        }
        let ghost prefix = c@.subrange(start as int, i + 1);
        proof {
            assert(prefix.drop_last() =~= c@.subrange(start as int, i as int));
            assert(prefix.last() == d);
        }
        let digit: u64 = (d as u64) - ('0' as u64);
        if digit > max || value > (max - digit) / 10 {
            proof {
                assert(value * 10 + digit > max) by (nonlinear_arith)
                    requires
                        digit > max || value > (max - digit) / 10,
                ;
                assert(digits.subrange(0, i - start + 1) =~= prefix);
                assert(digits_value(prefix) == value * 10 + digit);
                if all_digits(digits) {
                    lemma_digits_tail(digits, (i - start) as int);
                    assert(digits_value(digits) > max);
                }
            }
            return None;
        }
        proof {
            assert(value * 10 + digit <= max) by (nonlinear_arith)
                requires
                    value <= (max - digit) / 10,
                    digit <= 9,
                    max - digit >= 0,
            ;
        }
        value = value * 10 + digit;
        i += 1;
    }
    proof {
        assert(c@.subrange(start as int, n as int) =~= digits);
    }
    Some(value)
}

/// The value of a digit string is at least that of any of its prefixes.
proof fn lemma_digits_tail(digits: Seq<char>, k: int)
    requires
        0 <= k < digits.len(),
        all_digits(digits),
    ensures
        digits_value(digits) >= digits_value(digits.subrange(0, k + 1)),
    decreases digits.len(),
{
    if k + 1 < digits.len() {
        lemma_digits_tail(digits.drop_last(), k);
        assert(digits.drop_last().subrange(0, k + 1) =~= digits.subrange(0, k + 1));
    } else {
        assert(digits.subrange(0, k + 1) =~= digits);
    }
}


/// The two sides of the one `/` in `s`; `None` unless `s` holds exactly one.
pub open spec fn single_slash_parts(s: Seq<char>) -> Option<(Seq<char>, Seq<char>)> {
    let i = find_first(s, seq!['/']);
    if i >= 0 && !s.subrange(i + 1, s.len() as int).contains('/') {
        Some((s.subrange(0, i), s.subrange(i + 1, s.len() as int)))
    } else {
        None
    }
}

/// Splits `s` at its one `/`.
pub fn split_single_slash(s: &str) -> (r: Option<(String, String)>)
    ensures
        r is Some <==> single_slash_parts(s@) is Some,
        r matches Some((a, b)) ==> (a@, b@) == single_slash_parts(s@)->0,
{
    let c = to_chars(s);
    let n = c.len();
    let slash: Vec<char> = vec!['/'];
    proof {
        assert(slash@ =~= seq!['/']);
        lemma_find_from(c@, slash@, 0);
    }
    match find(&c, &slash) {
        Some(i) => {
            let rest = slice(&c, i + 1, n);
            if has_char(&rest, '/') {
                None
            } else {
                Some(
                    (
                        String::from_str(s.substring_char(0, i)),
                        String::from_str(s.substring_char(i + 1, n)),
                    ),
                )
            }
        },
        None => None,
    }
}

/// The environment variables that configure the gateway, as they were read.
#[derive(Debug, Clone, Default)]
pub struct EnvVars {
    /// `provider/model` choosing the default provider and its model
    pub llm_model: Option<String>,
    pub openai_api_key: Option<String>,
    pub openai_base_url: Option<String>,
    pub openai_model: Option<String>,
    pub azure_api_key: Option<String>,
    pub azure_endpoint: Option<String>,
    pub azure_deployment: Option<String>,
    pub azure_api_version: Option<String>,
    pub deepseek_api_key: Option<String>,
    pub deepseek_base_url: Option<String>,
    pub deepseek_model: Option<String>,
    pub qwen_api_key: Option<String>,
    pub qwen_base_url: Option<String>,
    pub qwen_model: Option<String>,
    pub timeout_seconds: Option<String>,
    pub max_retries: Option<String>,
}

impl EnvVars {
    /// The API key variable of a provider.
    pub open spec fn key_of(&self, t: ProviderType) -> Option<String> {
        match t {
            ProviderType::OpenAI => self.openai_api_key,
            ProviderType::Azure => self.azure_api_key,
            ProviderType::DeepSeek => self.deepseek_api_key,
            ProviderType::Qwen => self.qwen_api_key,
        }
    }

    /// The base URL (Azure: endpoint) variable of a provider.
    pub open spec fn url_of(&self, t: ProviderType) -> Option<String> {
        match t {
            ProviderType::OpenAI => self.openai_base_url,
            ProviderType::Azure => self.azure_endpoint,
            ProviderType::DeepSeek => self.deepseek_base_url,
            ProviderType::Qwen => self.qwen_base_url,
        }
    }

    /// The model (Azure: deployment) variable of a provider.
    pub open spec fn model_of(&self, t: ProviderType) -> Option<String> {
        match t {
            ProviderType::OpenAI => self.openai_model,
            ProviderType::Azure => self.azure_deployment,
            ProviderType::DeepSeek => self.deepseek_model,
            ProviderType::Qwen => self.qwen_model,
        }
    }

    /// What `LLM_MODEL` selects: nothing, a provider and model, or an error text.
    pub open spec fn llm_choice(&self) -> Result<Option<(ProviderType, Seq<char>)>, Seq<char>> {
        match self.llm_model {
            None => Ok(None),
            Some(pm) => match single_slash_parts(pm@) {
                None => Err("LLM_MODEL must be in format 'provider/model' (e.g., 'openai/gpt-4')"@),
                Some((p, m)) => match provider_of_name(lower_of(p)) {
                    None => Err("Invalid provider in LLM_MODEL: "@ + p),
                    Some(t) => Ok(Some((t, m))),
                },
            },
        }
    }

    /// The timeout, if set and valid.
    pub open spec fn timeout_ok(&self) -> bool {
        self.timeout_seconds matches Some(v) ==> (decimal_value(v@) matches Some(x) && x
            <= u64::MAX)
    }

    /// The retry count, if set and valid.
    pub open spec fn retries_ok(&self) -> bool {
        self.max_retries matches Some(v) ==> (decimal_value(v@) matches Some(x) && x
            <= u32::MAX)
    }
}

/// The configuration of one provider from its variables, when its key is set.
fn provider_from_vars(
    key: &Option<String>,
    url: &Option<String>,
    model: &Option<String>,
) -> (r: Option<ProviderConfig>)
    ensures
        r is Some <==> key is Some,
        r matches Some(c) ==> c.api_key@ == key->0@ && opt_view(c.base_url) == opt_view(*url)
            && opt_view(c.default_model) == opt_view(*model) && c.extra@.len() == 0,
{
    match key {
        Some(k) => Some(
            ProviderConfig {
                api_key: k.clone(),
                base_url: clone_opt(url),
                default_model: clone_opt(model),
                extra: Vec::new(),
            },
        ),
        None => None,
    }
}

impl GatewayConfig {
    /// Builds the configuration from environment variables: one provider for
    /// each API key that is set, `LLM_MODEL` choosing the default provider
    /// (else OpenAI) and overriding its model.
    pub fn from_vars(vars: &EnvVars) -> (r: Result<GatewayConfig, GatewayError>)
        ensures
            r is Ok <==> vars.llm_choice() is Ok && vars.timeout_ok() && vars.retries_ok() && (
            exists|t: ProviderType| #[trigger] vars.key_of(t) is Some) && vars.key_of(
                match vars.llm_choice() {
                    Ok(Some((t, _))) => t,
                    _ => ProviderType::OpenAI,
                },
            ) is Some,
            r matches Err(e) ==> e is Config,
            vars.llm_choice() matches Err(m) ==> (r matches Err(e) && e == GatewayError::Config(
                e->Config_0,
            ) && e->Config_0@ == m),
            r matches Ok(c) ==> {
                &&& c.default_provider == match vars.llm_choice() {
                    Ok(Some((t, _))) => t,
                    _ => ProviderType::OpenAI,
                }
                &&& c.timeout_seconds == match vars.timeout_seconds {
                    Some(v) => Some(decimal_value(v@)->0 as u64),
                    None => None,
                }
                &&& c.max_retries == match vars.max_retries {
                    Some(v) => Some(decimal_value(v@)->0 as u32),
                    None => None,
                }
                &&& forall|t: ProviderType| #[trigger]
                    c.providers.entry(t) is Some <==> vars.key_of(t) is Some
                &&& forall|t: ProviderType| #[trigger]
                    c.providers.entry(t) matches Some(p) ==> {
                        &&& p.api_key@ == vars.key_of(t)->0@
                        &&& opt_view(p.base_url) == opt_view(vars.url_of(t))
                        &&& opt_view(p.default_model) == match vars.llm_choice() {
                            Ok(Some((l, m))) => if l == t {
                                Some(m)
                            } else {
                                opt_view(vars.model_of(t))
                            },
                            _ => opt_view(vars.model_of(t)),
                        }
                        &&& extra_lookup(p.extra@, "api_version"@) == if t
                            == ProviderType::Azure {
                            opt_view(vars.azure_api_version)
                        } else {
                            None
                        }
                    }
            },
    {
        let mut default_provider = ProviderType::OpenAI;
        let mut model_override: Option<String> = None;
        if let Some(pm) = &vars.llm_model {
            match split_single_slash(pm.as_str()) {
                Some((p, m)) => {
                    match ProviderType::parse(p.as_str()) {
                        Ok(t) => {
                            default_provider = t;
                            model_override = Some(m);
                        },
                        Err(_) => {
                            return Err(
                                GatewayError::Config(
                                    String::from_str("Invalid provider in LLM_MODEL: ").concat(
                                        p.as_str(),
                                    ),
                                ),
                            );
                        },
                    }
                },
                None => {
                    return Err(
                        GatewayError::Config(
                            String::from_str(
                                "LLM_MODEL must be in format 'provider/model' (e.g., 'openai/gpt-4')",
                            ),
                        ),
                    );
                },
            }
        }
        let ghost choice = vars.llm_choice();
        assert(match choice {
            Ok(Some((t, m))) => default_provider == t && (model_override matches Some(x) && x@ == m),
            Ok(None) => default_provider == ProviderType::OpenAI && model_override is None,
            Err(_) => false,
        });
        let openai_model = if let ProviderType::OpenAI = default_provider {
            if model_override.is_some() {
                clone_opt(&model_override)
            } else {
                clone_opt(&vars.openai_model)
            }
        } else {
            clone_opt(&vars.openai_model)
        };
        let azure_model = if let ProviderType::Azure = default_provider {
            if model_override.is_some() {
                clone_opt(&model_override)
            } else {
                clone_opt(&vars.azure_deployment)
            }
        } else {
            clone_opt(&vars.azure_deployment)
        };
        let deepseek_model = if let ProviderType::DeepSeek = default_provider {
            if model_override.is_some() {
                clone_opt(&model_override)
            } else {
                clone_opt(&vars.deepseek_model)
            }
        } else {
            clone_opt(&vars.deepseek_model)
        };
        let qwen_model = if let ProviderType::Qwen = default_provider {
            if model_override.is_some() {
                clone_opt(&model_override)
            } else {
                clone_opt(&vars.qwen_model)
            }
        } else {
            clone_opt(&vars.qwen_model)
        };
        let openai = provider_from_vars(&vars.openai_api_key, &vars.openai_base_url, &openai_model);
        let mut azure = provider_from_vars(&vars.azure_api_key, &vars.azure_endpoint, &azure_model);
        if let Some(a) = azure {
            azure = Some(
                match &vars.azure_api_version {
                    Some(v) => a.with_extra(String::from_str("api_version"), v.clone()),
                    None => a,
                },
            );
        }
        let deepseek = provider_from_vars(
            &vars.deepseek_api_key,
            &vars.deepseek_base_url,
            &deepseek_model,
        );
        let qwen = provider_from_vars(&vars.qwen_api_key, &vars.qwen_base_url, &qwen_model);
        let timeout_seconds = match &vars.timeout_seconds {
            Some(v) => match parse_bounded(v.as_str(), u64::MAX) {
                Some(x) => Some(x),
                None => {
                    return Err(GatewayError::Config(String::from_str("Invalid timeout value")));
                },
            },
            None => None,
        };
        let max_retries = match &vars.max_retries {
            Some(v) => match parse_bounded(v.as_str(), u32::MAX as u64) {
                Some(x) => Some(x as u32),
                None => {
                    return Err(
                        GatewayError::Config(String::from_str("Invalid max retries value")),
                    );
                },
            },
            None => None,
        };
        let config = GatewayConfig {
            default_provider,
            providers: ProviderTable { openai, azure, deepseek, qwen },
            timeout_seconds,
            max_retries,
        };
        if config.providers.is_empty() {
            proof {
                assert forall|t: ProviderType| #[trigger] vars.key_of(t) is None by {
                    assert(config.providers.entry(t) is None);
                }
            }
            return Err(
                GatewayError::Config(
                    String::from_str(
                        "No providers configured. Please set at least one provider's API key.",
                    ),
                ),
            );
        }
        if !config.providers.contains_key(&config.default_provider) {
            return Err(
                GatewayError::Config(
                    String::from_str("Default provider ").concat(
                        config.default_provider.label(),
                    ).concat(" is not configured"),
                ),
            );
        }
        proof {
            let t0 = choose|t: ProviderType| #[trigger] config.providers.entry(t) is Some;
            assert(vars.key_of(t0) is Some);
            assert(extra_lookup(Seq::<(String, String)>::empty(), "api_version"@) is None);
        }
        Ok(config)
    }
}

} // verus!
