//! Stored credentials of the providers, prompt templates and exclusion
//! patterns, as the library holds them once they have been read.
use crate::text::{
    chars_eq, clone_opt, ends_with, find, find_first, has_char, has_suffix, lemma_find_from,
    opt_view, slice, to_chars,
};
use vstd::prelude::*;
use vstd::string::*;

verus! {

/// Stored settings of one provider.
#[derive(Debug, Clone)]
pub struct ProviderConfig {
    pub api_key: String,
    pub model: Option<String>,
    pub endpoint: Option<String>,
}

/// The configuration stored last under `name`.
pub open spec fn auth_lookup(entries: Seq<(String, ProviderConfig)>, name: Seq<char>) -> Option<
    ProviderConfig,
>
    decreases entries.len(),
{
    if entries.len() == 0 {
        None
    } else if entries.last().0@ == name {
        Some(entries.last().1)
    } else {
        auth_lookup(entries.drop_last(), name)
    }
}

/// Replacing, at an index past which `e`'s name does not occur, an entry of the
/// same name changes what that name finds and nothing else.
pub proof fn lemma_auth_lookup_update(
    entries: Seq<(String, ProviderConfig)>,
    i: int,
    e: (String, ProviderConfig),
)
    requires
        0 <= i < entries.len(),
        entries[i].0@ == e.0@,
        forall|j: int| i < j < entries.len() ==> entries[j].0@ != e.0@,
    ensures
        forall|k: Seq<char>| #[trigger]
            auth_lookup(entries.update(i, e), k) == if k == e.0@ {
                Some(e.1)
            } else {
                auth_lookup(entries, k)
            },
    decreases entries.len(),
{
    let u = entries.update(i, e);
    if i == entries.len() - 1 {
        assert(u.drop_last() =~= entries.drop_last());
        assert forall|k: Seq<char>| #[trigger]
            auth_lookup(u, k) == if k == e.0@ {
                Some(e.1)
            } else {
                auth_lookup(entries, k)
            } by {
            assert(u.last() == e);
        }
    } else {
        lemma_auth_lookup_update(entries.drop_last(), i, e);
        assert(u.drop_last() =~= entries.drop_last().update(i, e));
        assert(u.last() == entries.last());
        assert(entries.last().0@ != e.0@);
        assert forall|k: Seq<char>| #[trigger]
            auth_lookup(u, k) == if k == e.0@ {
                Some(e.1)
            } else {
                auth_lookup(entries, k)
            } by {
            assert(auth_lookup(entries.drop_last().update(i, e), k) == if k == e.0@ {
                Some(e.1)
            } else {
                auth_lookup(entries.drop_last(), k)
            });
        }
    }
}

/// Credentials of the configured providers and which one is active.
#[derive(Debug, Clone)]
pub struct AuthConfig {
    providers: Vec<(String, ProviderConfig)>,
    active_provider: Option<String>,
}

/// Tells whether `name` is `key`.
fn same_name(key: &String, name: &str) -> (r: bool)
    ensures
        r == (key@ == name@),
{
    chars_eq(&to_chars(key.as_str()), &to_chars(name))
}

impl AuthConfig {
    /// The configuration of provider `name`.
    pub closed spec fn entry(&self, name: Seq<char>) -> Option<ProviderConfig> {
        auth_lookup(self.providers@, name)
    }

    /// The active provider, if one is set.
    pub closed spec fn active(&self) -> Option<Seq<char>> {
        match self.active_provider {
            Some(a) => Some(a@),
            None => None,
        }
    }

    /// Whether any provider is configured.
    pub closed spec fn nonempty(&self) -> bool {
        self.providers@.len() > 0
    }

    /// No provider configured, none active.
    pub fn new() -> (r: Self)
        ensures
            forall|k: Seq<char>| #[trigger] r.entry(k) is None,
            r.active() is None,
            !r.nonempty(),
    {
        AuthConfig { providers: Vec::new(), active_provider: None }
    }

    /// A configuration holding the given entries (a later entry overrides an
    /// earlier one of the same name) and active provider.
    pub fn from_parts(
        providers: Vec<(String, ProviderConfig)>,
        active_provider: Option<String>,
    ) -> (r: Self)
        ensures
            forall|k: Seq<char>| #[trigger] r.entry(k) == auth_lookup(providers@, k),
            r.active() == opt_view(active_provider),
            r.nonempty() == (providers@.len() > 0),
    {
        AuthConfig { providers, active_provider }
    }

    /// The stored entries and the active provider.
    pub fn into_parts(self) -> (r: (Vec<(String, ProviderConfig)>, Option<String>))
        ensures
            forall|k: Seq<char>| #[trigger] auth_lookup(r.0@, k) == self.entry(k),
            opt_view(r.1) == self.active(),
            (r.0@.len() > 0) == self.nonempty(),
    {
        (self.providers, self.active_provider)
    }

    /// The index of the last entry named `name`.
    fn position(&self, name: &str) -> (r: Option<usize>)
        ensures
            r is None <==> self.entry(name@) is None,
            r matches Some(i) ==> i < self.providers@.len() && self.providers@[i as int].0@
                == name@ && self.entry(name@) == Some(self.providers@[i as int].1) && forall|
                j: int,
            |
                i < j < self.providers@.len() ==> self.providers@[j].0@ != name@,
    {
        let mut i: usize = self.providers.len();
        proof {
            assert(self.providers@.subrange(0, i as int) =~= self.providers@);
        }
        while i > 0
            invariant
                i <= self.providers@.len(),
                auth_lookup(self.providers@, name@) == auth_lookup(
                    self.providers@.subrange(0, i as int),
                    name@,
                ),
                forall|j: int| i <= j < self.providers@.len() ==> self.providers@[j].0@ != name@,
            decreases i,
        {
            let ghost sub = self.providers@.subrange(0, i as int);
            proof {
                assert(sub.drop_last() =~= self.providers@.subrange(0, i - 1));
            }
            if same_name(&self.providers[i - 1].0, name) {
                return Some(i - 1);
            }
            i -= 1;
        }
        None
    }

    /// Stores the API key of a provider, replacing any earlier settings of it;
    /// the first provider added becomes the active one.
    pub fn add_provider(&mut self, provider: &str, api_key: &str) -> (r: Result<(), String>)
        ensures
            r is Ok,
            forall|k: Seq<char>| #[trigger]
                final(self).entry(k) == if k == provider@ {
                    final(self).entry(provider@)
                } else {
                    old(self).entry(k)
                },
            final(self).entry(provider@) matches Some(c) && c.api_key@ == api_key@ && c.model is None
                && c.endpoint is None,
            final(self).active() == if old(self).active() is None {
                Some(provider@)
            } else {
                old(self).active()
            },
            final(self).nonempty(),
    {
        let config = ProviderConfig {
            api_key: String::from_str(api_key),
            model: None,
            endpoint: None,
        };
        let entry = (String::from_str(provider), config);
        let ghost e = entry;
        match self.position(provider) {
            Some(i) => {
                proof {
                    lemma_auth_lookup_update(self.providers@, i as int, e);
                }
                self.providers.set(i, entry);
            },
            None => {
                let ghost before = self.providers@;
                self.providers.push(entry);
                proof {
                    assert(self.providers@.drop_last() =~= before);
                }
            },
        }
        if self.active_provider.is_none() {
            self.active_provider = Some(String::from_str(provider));
        }
        Ok(())
    }

    /// Makes `provider` the active one if it is configured; says whether it was.
    pub fn set_active_provider(&mut self, provider: &str) -> (r: Result<bool, String>)
        ensures
            r matches Ok(b) && b == old(self).entry(provider@) is Some,
            forall|k: Seq<char>| #[trigger] final(self).entry(k) == old(self).entry(k),
            final(self).nonempty() == old(self).nonempty(),
            final(self).active() == if old(self).entry(provider@) is Some {
                Some(provider@)
            } else {
                old(self).active()
            },
    {
        if self.position(provider).is_some() {
            self.active_provider = Some(String::from_str(provider));
            Ok(true)
        } else {
            Ok(false)
        }
    }

    /// The name of the active provider, or an error telling how to add one.
    pub fn get_active_provider(&self) -> (r: Result<String, String>)
        ensures
            r is Ok <==> self.active() is Some,
            r matches Ok(a) ==> a@ == self.active()->0,
            r matches Err(m) ==> m@
                == "No active provider set. Use 'fuckmit auth add <provider> <apiKey>' to add a provider."@,
    {
        match &self.active_provider {
            Some(a) => Ok(a.clone()),
            None => Err(
                String::from_str(
                    "No active provider set. Use 'fuckmit auth add <provider> <apiKey>' to add a provider.",
                ),
            ),
        }
    }

    /// Sets one property (`api_key`, `model` or `endpoint`) of a configured
    /// provider.
    pub fn set_provider_property(&mut self, provider: &str, property: &str, value: &str) -> (r:
        Result<(), String>)
        ensures
            old(self).entry(provider@) is None ==> (r matches Err(m) && m@ == "Provider not found"@),
            old(self).entry(provider@) is Some && !(property@ == "api_key"@ || property@
                == "model"@ || property@ == "endpoint"@) ==> (r matches Err(m) && m@
                == "Invalid property: "@ + property@),
            r is Err ==> forall|k: Seq<char>| #[trigger] final(self).entry(k) == old(self).entry(k),
            r is Ok ==> {
                let c = old(self).entry(provider@)->0;
                let d = final(self).entry(provider@)->0;
                &&& old(self).entry(provider@) is Some
                &&& final(self).entry(provider@) is Some
                &&& (property@ == "api_key"@ ==> d.api_key@ == value@ && opt_view(d.model) == opt_view(
                    c.model,
                ) && opt_view(d.endpoint) == opt_view(c.endpoint))
                &&& (property@ == "model"@ ==> (d.model matches Some(m) && m@ == value@
                    && d.api_key@ == c.api_key@ && opt_view(d.endpoint) == opt_view(c.endpoint)))
                &&& (property@ == "endpoint"@ ==> (d.endpoint matches Some(x) && x@ == value@
                    && d.api_key@ == c.api_key@ && opt_view(d.model) == opt_view(c.model)))
                &&& forall|k: Seq<char>| #[trigger]
                    final(self).entry(k) == if k == provider@ {
                        final(self).entry(provider@)
                    } else {
                        old(self).entry(k)
                    }
            },
            r is Ok <==> old(self).entry(provider@) is Some && (property@ == "api_key"@
                || property@ == "model"@ || property@ == "endpoint"@),
            final(self).active() == old(self).active(),
            final(self).nonempty() == old(self).nonempty(),
    {
        let i = match self.position(provider) {
            Some(i) => i,
            None => {
                return Err(String::from_str("Provider not found"));
            },
        };
        proof {
            reveal_strlit("api_key");
            reveal_strlit("model");
            reveal_strlit("endpoint");
            assert("api_key"@.len() != "model"@.len());
            assert("api_key"@.len() != "endpoint"@.len());
            assert("model"@.len() != "endpoint"@.len());
        }
        let old_config = &self.providers[i].1;
        let p = to_chars(property);
        let config = if chars_eq(&p, &to_chars("api_key")) {
            ProviderConfig {
                api_key: String::from_str(value),
                model: clone_opt(&old_config.model),
                endpoint: clone_opt(&old_config.endpoint),
            }
        } else if chars_eq(&p, &to_chars("model")) {
            ProviderConfig {
                api_key: old_config.api_key.clone(),
                model: Some(String::from_str(value)),
                endpoint: clone_opt(&old_config.endpoint),
            }
        } else if chars_eq(&p, &to_chars("endpoint")) {
            ProviderConfig {
                api_key: old_config.api_key.clone(),
                model: clone_opt(&old_config.model),
                endpoint: Some(String::from_str(value)),
            }
        } else {
            return Err(String::from_str("Invalid property: ").concat(property));
        };
        let entry = (self.providers[i].0.clone(), config);
        let ghost e = entry;
        let ghost before = self.providers@;
        proof {
            lemma_auth_lookup_update(self.providers@, i as int, entry);
        }
        self.providers.set(i, entry);
        proof {
            assert(self.providers@ == before.update(i as int, e));
            assert(auth_lookup(self.providers@, provider@) == Some(e.1));
        }
        Ok(())
    }

    /// The configuration of a provider, or an error naming it.
    pub fn get_provider_config(&self, provider: &str) -> (r: Result<&ProviderConfig, String>)
        ensures
            r is Ok <==> self.entry(provider@) is Some,
            r matches Ok(c) ==> *c == self.entry(provider@)->0,
            r matches Err(m) ==> m@ == "Provider not found: "@ + provider@,
    {
        match self.position(provider) {
            Some(i) => Ok(&self.providers[i].1),
            None => Err(String::from_str("Provider not found: ").concat(provider)),
        }
    }

    /// All configured providers with their settings, one entry per name.
    pub fn get_providers(&self) -> (r: &Vec<(String, ProviderConfig)>)
        ensures
            forall|k: Seq<char>| #[trigger] auth_lookup(r@, k) == self.entry(k),
            r@.len() > 0 <==> self.nonempty(),
    {
        &self.providers
    }

    /// Whether any provider is configured.
    pub fn has_providers(&self) -> (r: bool)
        ensures
            r == self.nonempty(),
    {
        self.providers.len() > 0
    }

    /// The name of the active provider, if set.
    pub fn get_active_provider_name(&self) -> (r: Option<&str>)
        ensures
            r is Some <==> self.active() is Some,
            r matches Some(a) ==> a@ == self.active()->0,
    {
        match &self.active_provider {
            Some(a) => Some(a.as_str()),
            None => None,
        }
    }
}

/// System and user prompt templates; the user template holds `{{diff}}`.
#[derive(Debug, Clone)]
pub struct PromptTemplates {
    pub system: String,
    pub user: String,
}

/// Prompt templates and exclusion patterns of a repository.
#[derive(Debug, Clone)]
pub struct CommitConfig {
    pub prompt: PromptTemplates,
    pub exclude: Vec<String>,
}

/// The default system prompt template.
pub open spec fn default_system_template() -> Seq<char> {
    "You are a helpful assistant that generates clear and concise git commit messages.Follow conventional commits format."@
}

/// The default user prompt template.
pub open spec fn default_user_template() -> Seq<char> {
    "Generate a concise git commit message for the following changes:\n\n{{diff}}"@
}

impl Default for CommitConfig {
    fn default() -> (r: Self)
        ensures
            r.prompt.system@ == default_system_template(),
            r.prompt.user@ == default_user_template(),
            r.exclude@.len() == 0,
    {
        CommitConfig {
            prompt: PromptTemplates {
                system: String::from_str(
                    "You are a helpful assistant that generates clear and concise git commit messages.Follow conventional commits format.",
                ),
                user: String::from_str(
                    "Generate a concise git commit message for the following changes:\n\n{{diff}}",
                ),
            },
            exclude: Vec::new(),
        }
    }
}

impl CommitConfig {
    /// The default templates with the given exclusion patterns.
    pub fn new(exclude_patterns: Vec<String>) -> (r: Self)
        ensures
            r.prompt.system@ == default_system_template(),
            r.prompt.user@ == default_user_template(),
            r.exclude == exclude_patterns,
    {
        let d = CommitConfig::default();
        CommitConfig { prompt: d.prompt, exclude: exclude_patterns }
    }
}

/// The configuration in effect: the one that was found on disk, else the
/// default one.
pub fn get_commit_config(found: Option<CommitConfig>) -> (r: CommitConfig)
    ensures
        found matches Some(c) ==> r == c,
        found is None ==> r.prompt.system@ == default_system_template() && r.prompt.user@
            == default_user_template() && r.exclude@.len() == 0,
{
    match found {
        Some(c) => c,
        None => CommitConfig::default(),
    }
}

/// Which named configuration each repository path uses.
#[derive(Debug, Clone)]
pub struct Mappings {
    pub mappings: Vec<(String, String)>,
}


/// The suffix of a configuration file name.
pub open spec fn yml_suffix() -> Seq<char> {
    ".fuckmit.yml"@
}

/// The alternative suffix of a configuration file name.
pub open spec fn yaml_suffix() -> Seq<char> {
    ".fuckmit.yaml"@
}

/// Whether a file name is that of a commit configuration.
pub fn is_config_file(file_name: &str) -> (r: bool)
    ensures
        r == (has_suffix(file_name@, yml_suffix()) || has_suffix(file_name@, yaml_suffix())),
{
    let c = to_chars(file_name);
    ends_with(&c, &to_chars(".fuckmit.yml")) || ends_with(&c, &to_chars(".fuckmit.yaml"))
}

/// The name a configuration file is listed under: its file name without the
/// configuration suffix.
pub fn config_display_name(file_name: &str) -> (r: String)
    ensures
        r@ == if has_suffix(file_name@, yml_suffix()) {
            file_name@.subrange(0, file_name@.len() - yml_suffix().len())
        } else if has_suffix(file_name@, yaml_suffix()) {
            file_name@.subrange(0, file_name@.len() - yaml_suffix().len())
        } else {
            file_name@
        },
{
    let c = to_chars(file_name);
    let n = c.len();
    let yml = to_chars(".fuckmit.yml");
    let yaml = to_chars(".fuckmit.yaml");
    if ends_with(&c, &yml) {
        String::from_str(file_name.substring_char(0, n - yml.len()))
    } else if ends_with(&c, &yaml) {
        String::from_str(file_name.substring_char(0, n - yaml.len()))
    } else {
        String::from_str(file_name)
    }
}

/// The file name of a named configuration: the name itself when it already
/// carries a configuration suffix, else the name with `.fuckmit.yml`.
pub fn config_file_name(name: &str) -> (r: String)
    ensures
        r@ == if has_suffix(name@, yml_suffix()) || has_suffix(name@, yaml_suffix()) {
            name@
        } else {
            name@ + yml_suffix()
        },
{
    if is_config_file(name) {
        String::from_str(name)
    } else {
        String::from_str(name).concat(".fuckmit.yml")
    }
}

/// The two sides of the one `.` in `s`; `None` unless `s` holds exactly one.
pub open spec fn property_path_parts(s: Seq<char>) -> Option<(Seq<char>, Seq<char>)> {
    let i = find_first(s, seq!['.']);
    if i >= 0 && !s.subrange(i + 1, s.len() as int).contains('.') {
        Some((s.subrange(0, i), s.subrange(i + 1, s.len() as int)))
    } else {
        None
    }
}

/// Splits a `provider.property` path.
pub fn parse_property_path(path: &str) -> (r: Result<(String, String), String>)
    ensures
        r is Ok <==> property_path_parts(path@) is Some,
        r matches Ok((a, b)) ==> (a@, b@) == property_path_parts(path@)->0,
        r matches Err(m) ==> m@ == "Invalid property path format. Use provider.property"@,
{
    let c = to_chars(path);
    let n = c.len();
    let dot: Vec<char> = vec!['.'];
    proof {
        assert(dot@ =~= seq!['.']);
        lemma_find_from(c@, dot@, 0);
    }
    if let Some(i) = find(&c, &dot) {
        let rest = slice(&c, i + 1, n);
        if !has_char(&rest, '.') {
            return Ok(
                (
                    String::from_str(path.substring_char(0, i)),
                    String::from_str(path.substring_char(i + 1, n)),
                ),
            );
        }
    }
    Err(String::from_str("Invalid property path format. Use provider.property"))
}


/// The line listing a configuration file, marked when it is the active one.
pub fn config_list_entry(file_name: &str, active: Option<&str>) -> (r: String)
    ensures
        r@ == "  "@ + (if has_suffix(file_name@, yml_suffix()) {
            file_name@.subrange(0, file_name@.len() - yml_suffix().len())
        } else if has_suffix(file_name@, yaml_suffix()) {
            file_name@.subrange(0, file_name@.len() - yaml_suffix().len())
        } else {
            file_name@
        }) + (if active matches Some(a) && a@ == file_name@ {
            " (active)"@
        } else {
            Seq::empty()
        }),
{
    let shown = String::from_str("  ").concat(config_display_name(file_name).as_str());
    let is_active = match active {
        Some(a) => chars_eq(&to_chars(a), &to_chars(file_name)),
        None => false,
    };
    if is_active {
        shown.concat(" (active)")
    } else {
        proof {
            assert(shown@ + Seq::<char>::empty() =~= shown@);
        }
        shown
    }
}

/// `s` followed by spaces up to `width` characters.
pub open spec fn padded(s: Seq<char>, width: nat) -> Seq<char> {
    if s.len() >= width {
        s
    } else {
        s + Seq::new((width - s.len()) as nat, |i: int| ' ')
    }
}

/// Pads `s` with spaces on the right to `width` characters.
pub fn pad_right(s: &str, width: usize) -> (r: String)
    ensures
        r@ == padded(s@, width as nat),
{
    let n = s.unicode_len();
    let mut r = String::from_str(s);
    if n >= width {
        return r;
    }
    let mut k: usize = n;
    while k < width
        invariant
            n == s@.len(),
            n <= k <= width,
            r@ == s@ + Seq::new((k - n) as nat, |i: int| ' '),
        decreases width - k,
    {
        let ghost before = r@;
        proof {
            reveal_strlit(" ");
        }
        r.append(" ");
        proof {
            assert(r@ =~= s@ + Seq::new((k + 1 - n) as nat, |i: int| ' '));
        }
        k += 1;
    }
    r
}

/// One row of the provider listing: an active marker, the name, the model and
/// the endpoint in padded columns.
pub fn provider_row(is_active: bool, name: &str, config: &ProviderConfig) -> (r: String)
    ensures
        r@ == padded(
            if is_active {
                "*"@
            } else {
                " "@
            },
            2,
        ) + " "@ + padded(name@, 15) + " "@ + padded(
            match config.model {
                Some(m) => m@,
                None => "<not set>"@,
            },
            25,
        ) + " "@ + match config.endpoint {
            Some(e) => e@,
            None => "<default>"@,
        },
{
    let marker = if is_active {
        "*"
    } else {
        " "
    };
    let model: &str = match &config.model {
        Some(m) => m.as_str(),
        None => "<not set>",
    };
    let endpoint: &str = match &config.endpoint {
        Some(e) => e.as_str(),
        None => "<default>",
    };
    pad_right(marker, 2).concat(" ").concat(pad_right(name, 15).as_str()).concat(" ").concat(
        pad_right(model, 25).as_str(),
    ).concat(" ").concat(endpoint)
}

} // verus!
