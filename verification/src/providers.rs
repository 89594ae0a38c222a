//! LLM provider configuration and model-name resolution.
//!
//! A provider is selected by a settings key (default `anthropic`), its
//! configuration is validated, and its model-listing endpoint is used to
//! map friendly model names (no date-stamped snapshot suffix) to full model
//! identifiers.

use vstd::prelude::*;

verus! {

broadcast use vstd::string::group_string_axioms;

// ---------------------------------------------------------------------------
// Friendly model names
// ---------------------------------------------------------------------------
/// Whether a character is a decimal digit.
pub open spec fn spec_is_digit(c: char) -> bool {
    48 <= c as int && c as int <= 57
}

/// Whether a model id ends in a date suffix: a hyphen followed by exactly
/// the last eight characters, all digits.
pub open spec fn has_date_suffix(s: Seq<char>) -> bool {
    &&& s.len() >= 9
    &&& s[s.len() - 9] == '-'
    &&& forall|i: int| s.len() - 8 <= i < s.len() ==> spec_is_digit(#[trigger] s[i])
}

/// The friendly name of a model id: the id with its date suffix stripped,
/// or the id itself when it carries none.
pub open spec fn friendly_name_of(s: Seq<char>) -> Seq<char> {
    if has_date_suffix(s) {
        s.take(s.len() - 9)
    } else {
        s
    }
}

/// Strip a trailing `-DDDDDDDD` date suffix from a model id; ids without
/// such a suffix are returned unchanged.
pub fn derive_friendly_name(model_id: &str) -> (r: String)
    ensures
        r@ == friendly_name_of(model_id@),
{
    let n = model_id.unicode_len();
    if n < 9 {
        return String::from_str(model_id);
    }
    if model_id.get_char(n - 9) != '-' {
        return String::from_str(model_id);
    }
    let mut i: usize = n - 8;
    while i < n
        invariant
            n == model_id@.len(),
            n - 8 <= i <= n,
            forall|j: int| n - 8 <= j < i ==> spec_is_digit(#[trigger] model_id@[j]),
        decreases n - i,
    {
        let c = model_id.get_char(i);
        let u = c as u32;
        if !(48 <= u && u <= 57) {
            return String::from_str(model_id);
        }
        i += 1;
    }
    let prefix = model_id.substring_char(0, n - 9);
    proof {
        assert(has_date_suffix(model_id@));
        assert(prefix@ =~= friendly_name_of(model_id@));
    }
    String::from_str(prefix)
}

// ---------------------------------------------------------------------------
// Trusted views on character classes of std
// ---------------------------------------------------------------------------
/// What `char::is_whitespace` holds of a character.
pub uninterp spec fn unicode_whitespace(c: char) -> bool;

/// Relies on char::is_whitespace of std: whether a character is Unicode
/// whitespace depends on the character alone.
pub assume_specification[ char::is_whitespace ](c: char) -> (r: bool)
    ensures
        r == unicode_whitespace(c),
;

/// What `str::to_lowercase` returns for a string.
pub uninterp spec fn lower_of(s: Seq<char>) -> Seq<char>;

/// Relies on str::to_lowercase of std: the result depends on the
/// characters alone; an empty string stays empty.
#[verifier::external_body]
fn lowercase(s: &str) -> (r: String)
    ensures
        r@ == lower_of(s@),
{
    s.to_lowercase()
}

/// What `char::to_uppercase` yields for a character.
pub uninterp spec fn upper_of(c: char) -> Seq<char>;

/// Relies on char::to_uppercase of std: the uppercase mapping of a
/// character depends on the character alone and yields one or more
/// characters.
#[verifier::external_body]
fn upper_char(c: char) -> (r: String)
    ensures
        r@ == upper_of(c),
        r@.len() >= 1,
{
    c.to_uppercase().collect()
}

/// Whether every character of a string is whitespace; this is exactly when
/// trimming leaves the string empty.
pub open spec fn spec_blank(s: Seq<char>) -> bool {
    forall|i: int| 0 <= i < s.len() ==> unicode_whitespace(#[trigger] s[i])
}

/// Whether a string is empty or entirely whitespace.
pub fn is_blank(s: &str) -> (r: bool)
    ensures
        r == spec_blank(s@),
{
    let n = s.unicode_len();
    let mut i: usize = 0;
    while i < n
        invariant
            n == s@.len(),
            0 <= i <= n,
            forall|j: int| 0 <= j < i ==> unicode_whitespace(#[trigger] s@[j]),
        decreases n - i,
    {
        if !s.get_char(i).is_whitespace() {
            return false;
        }
        i += 1;
    }
    true
}

// ---------------------------------------------------------------------------
// Providers
// ---------------------------------------------------------------------------
/// The closed set of supported LLM providers.
#[derive(Debug)]
pub enum Provider {
    Anthropic,
    LiteLLM,
}

impl Provider {
    /// Parse a provider selector, case-insensitively.
    pub fn from_str(s: &str) -> (r: Result<Provider, String>)
        ensures
            lower_of(s@) == "anthropic"@ ==> (r matches Ok(p) && p is Anthropic),
            lower_of(s@) == "litellm"@ ==> (r matches Ok(p) && p is LiteLLM),
            lower_of(s@) != "anthropic"@ && lower_of(s@) != "litellm"@ ==> (r matches Err(m)
                && m@ == "Unknown provider: "@ + s@),
    {
        proof {
            reveal_strlit("anthropic");
            reveal_strlit("litellm");
            assert("anthropic"@.len() == 9);
            assert("litellm"@.len() == 7);
        }
        let low = lowercase(s);
        if low == String::from_str("anthropic") {
            Ok(Provider::Anthropic)
        } else if low == String::from_str("litellm") {
            Ok(Provider::LiteLLM)
        } else {
            Err(String::from_str("Unknown provider: ").concat(s))
        }
    }
}

/// The capability interface of a provider configuration: chat endpoint,
/// model-listing endpoint, request headers, and validation.
pub trait ProviderConfig {
    /// The chat completion endpoint URL.
    spec fn spec_endpoint(&self) -> Seq<char>;

    /// The model-listing endpoint URL.
    spec fn spec_models_endpoint(&self) -> Seq<char>;

    /// The request headers, in order.
    spec fn spec_headers(&self) -> Seq<(Seq<char>, Seq<char>)>;

    /// Whether the configuration is complete and well-formed.
    spec fn spec_valid(&self) -> bool;

    /// The message reported when the configuration is invalid.
    spec fn spec_invalid_message(&self) -> Seq<char>;

    fn get_endpoint(&self) -> (r: String)
        ensures
            r@ == self.spec_endpoint(),
    ;

    fn get_models_endpoint(&self) -> (r: String)
        ensures
            r@ == self.spec_models_endpoint(),
    ;

    fn get_headers(&self) -> (r: Vec<(String, String)>)
        ensures
            r.deep_view() == self.spec_headers(),
    ;

    fn validate(&self) -> (r: Result<(), String>)
        ensures
            r is Ok <==> self.spec_valid(),
            r matches Err(m) ==> m@ == self.spec_invalid_message(),
    ;
}

/// Configuration for the Anthropic first-party API.
#[derive(Debug)]
pub struct AnthropicConfig {
    pub api_key: String,
}

impl ProviderConfig for AnthropicConfig {
    open spec fn spec_endpoint(&self) -> Seq<char> {
        "https://api.anthropic.com/v1/messages"@
    }

    open spec fn spec_models_endpoint(&self) -> Seq<char> {
        "https://api.anthropic.com/v1/models"@
    }

    open spec fn spec_headers(&self) -> Seq<(Seq<char>, Seq<char>)> {
        seq![("x-api-key"@, self.api_key@), ("anthropic-version"@, "2023-06-01"@)]
    }

    open spec fn spec_valid(&self) -> bool {
        !spec_blank(self.api_key@)
    }

    open spec fn spec_invalid_message(&self) -> Seq<char> {
        "Anthropic API key cannot be empty"@
    }

    fn get_endpoint(&self) -> (r: String) {
        String::from_str("https://api.anthropic.com/v1/messages")
    }

    fn get_models_endpoint(&self) -> (r: String) {
        String::from_str("https://api.anthropic.com/v1/models")
    }

    fn get_headers(&self) -> (r: Vec<(String, String)>) {
        let mut v: Vec<(String, String)> = Vec::new();
        v.push((String::from_str("x-api-key"), self.api_key.clone()));
        v.push((String::from_str("anthropic-version"), String::from_str("2023-06-01")));
        proof {
            assert(v.deep_view() =~= self.spec_headers());
        }
        v
    }

    fn validate(&self) -> (r: Result<(), String>) {
        if is_blank(self.api_key.as_str()) {
            Err(String::from_str("Anthropic API key cannot be empty"))
        } else {
            Ok(())
        }
    }
}

/// What `url::Url::parse` reports for a string: no message when the string
/// is a well-formed URL, otherwise the text of the parse error.
pub uninterp spec fn url_parse_error(s: Seq<char>) -> Option<Seq<char>>;

/// Whether a string parses as a well-formed URL.
pub open spec fn is_parsable_url(s: Seq<char>) -> bool {
    url_parse_error(s) is None
}

/// Relies on url::Url::parse: whether a string is a well-formed URL, and
/// the text of the parse error otherwise, depend on the string alone.
#[verifier::external_body]
fn check_url(s: &str) -> (r: Result<(), String>)
    ensures
        r is Ok <==> is_parsable_url(s@),
        r matches Err(m) ==> m@ == "Invalid URL format: "@ + url_parse_error(s@).unwrap(),
{
    match url::Url::parse(s) {
        Ok(_) => Ok(()),
        Err(e) => Err(format!("Invalid URL format: {}", e)),
    }
}

/// The string with every trailing `/` removed.
pub open spec fn strip_trailing_slashes(s: Seq<char>) -> Seq<char>
    decreases s.len(),
{
    if s.len() > 0 && s[s.len() - 1] == '/' {
        strip_trailing_slashes(s.drop_last())
    } else {
        s
    }
}

proof fn lemma_strip_trailing_slashes(s: Seq<char>, k: int)
    requires
        0 <= k <= s.len(),
        forall|j: int| k <= j < s.len() ==> s[j] == '/',
        k > 0 ==> s[k - 1] != '/',
    ensures
        strip_trailing_slashes(s) == s.take(k),
    decreases s.len(),
{
    if s.len() == k {
        assert(s.take(k) =~= s);
    } else {
        assert(s[s.len() - 1] == '/');
        lemma_strip_trailing_slashes(s.drop_last(), k);
        assert(s.drop_last().take(k) =~= s.take(k));
    }
}

/// Configuration for a LiteLLM gateway.
#[derive(Debug)]
pub struct LiteLLMConfig {
    pub base_url: String,
    pub api_key: String,
}

impl LiteLLMConfig {
    /// The base URL with trailing slashes removed.
    fn trimmed_base(&self) -> (r: String)
        ensures
            r@ == strip_trailing_slashes(self.base_url@),
    {
        let s = self.base_url.as_str();
        let n = s.unicode_len();
        let mut k: usize = n;
        while k > 0 && s.get_char(k - 1) == '/'
            invariant
                n == s@.len(),
                0 <= k <= n,
                forall|j: int| k <= j < n ==> s@[j] == '/',
            decreases k,
        {
            k -= 1;
        }
        let r = s.substring_char(0, k);
        proof {
            lemma_strip_trailing_slashes(s@, k as int);
            assert(r@ =~= s@.take(k as int));
        }
        String::from_str(r)
    }
}

impl ProviderConfig for LiteLLMConfig {
    open spec fn spec_endpoint(&self) -> Seq<char> {
        strip_trailing_slashes(self.base_url@) + "/v1/messages"@
    }

    open spec fn spec_models_endpoint(&self) -> Seq<char> {
        strip_trailing_slashes(self.base_url@) + "/v1/models"@
    }

    open spec fn spec_headers(&self) -> Seq<(Seq<char>, Seq<char>)> {
        seq![("Authorization"@, "Bearer "@ + self.api_key@)]
    }

    open spec fn spec_valid(&self) -> bool {
        &&& !spec_blank(self.base_url@)
        &&& !spec_blank(self.api_key@)
        &&& is_parsable_url(self.base_url@)
    }

    open spec fn spec_invalid_message(&self) -> Seq<char> {
        if spec_blank(self.base_url@) {
            "LiteLLM base URL cannot be empty"@
        } else if spec_blank(self.api_key@) {
            "LiteLLM API key cannot be empty"@
        } else {
            "Invalid URL format: "@ + url_parse_error(self.base_url@).unwrap()
        }
    }

    fn get_endpoint(&self) -> (r: String) {
        self.trimmed_base().concat("/v1/messages")
    }

    fn get_models_endpoint(&self) -> (r: String) {
        self.trimmed_base().concat("/v1/models")
    }

    fn get_headers(&self) -> (r: Vec<(String, String)>) {
        let mut v: Vec<(String, String)> = Vec::new();
        let bearer = String::from_str("Bearer ").concat(self.api_key.as_str());
        v.push((String::from_str("Authorization"), bearer));
        proof {
            assert(v.deep_view() =~= self.spec_headers());
        }
        v
    }

    fn validate(&self) -> (r: Result<(), String>) {
        if is_blank(self.base_url.as_str()) {
            return Err(String::from_str("LiteLLM base URL cannot be empty"));
        }
        if is_blank(self.api_key.as_str()) {
            return Err(String::from_str("LiteLLM API key cannot be empty"));
        }
        check_url(self.base_url.as_str())
    }
}

// ---------------------------------------------------------------------------
// Configuration loading
// ---------------------------------------------------------------------------
/// The settings values that provider resolution reads. A `None` stands for
/// a setting that the store does not hold (or could not read).
#[derive(Debug)]
pub struct ProviderSettings {
    pub api_provider: Option<String>,
    pub anthropic_api_key: Option<String>,
    pub anthropic_api_key_env: Option<String>,
    pub litellm_base_url: Option<String>,
    pub litellm_api_key: Option<String>,
}

/// The provider selector in force: the stored setting, or `anthropic` when
/// none is stored.
pub open spec fn selected_provider(s: &ProviderSettings) -> Seq<char> {
    match s.api_provider {
        Some(p) => p@,
        None => "anthropic"@,
    }
}

/// The Anthropic API key in force: the stored setting, with the
/// environment value as fallback.
pub open spec fn anthropic_key_in_force(s: &ProviderSettings) -> Option<Seq<char>> {
    match s.anthropic_api_key {
        Some(k) => Some(k@),
        None => match s.anthropic_api_key_env {
            Some(k) => Some(k@),
            None => None,
        },
    }
}

/// A validated configuration for the provider in force.
#[derive(Debug)]
pub enum ActiveProviderConfig {
    Anthropic(AnthropicConfig),
    LiteLLM(LiteLLMConfig),
}

impl ProviderConfig for ActiveProviderConfig {
    open spec fn spec_endpoint(&self) -> Seq<char> {
        match self {
            ActiveProviderConfig::Anthropic(c) => c.spec_endpoint(),
            ActiveProviderConfig::LiteLLM(c) => c.spec_endpoint(),
        }
    }

    open spec fn spec_models_endpoint(&self) -> Seq<char> {
        match self {
            ActiveProviderConfig::Anthropic(c) => c.spec_models_endpoint(),
            ActiveProviderConfig::LiteLLM(c) => c.spec_models_endpoint(),
        }
    }

    open spec fn spec_headers(&self) -> Seq<(Seq<char>, Seq<char>)> {
        match self {
            ActiveProviderConfig::Anthropic(c) => c.spec_headers(),
            ActiveProviderConfig::LiteLLM(c) => c.spec_headers(),
        }
    }

    open spec fn spec_valid(&self) -> bool {
        match self {
            ActiveProviderConfig::Anthropic(c) => c.spec_valid(),
            ActiveProviderConfig::LiteLLM(c) => c.spec_valid(),
        }
    }

    open spec fn spec_invalid_message(&self) -> Seq<char> {
        match self {
            ActiveProviderConfig::Anthropic(c) => c.spec_invalid_message(),
            ActiveProviderConfig::LiteLLM(c) => c.spec_invalid_message(),
        }
    }

    fn get_endpoint(&self) -> (r: String) {
        match self {
            ActiveProviderConfig::Anthropic(c) => c.get_endpoint(),
            ActiveProviderConfig::LiteLLM(c) => c.get_endpoint(),
        }
    }

    fn get_models_endpoint(&self) -> (r: String) {
        match self {
            ActiveProviderConfig::Anthropic(c) => c.get_models_endpoint(),
            ActiveProviderConfig::LiteLLM(c) => c.get_models_endpoint(),
        }
    }

    fn get_headers(&self) -> (r: Vec<(String, String)>) {
        match self {
            ActiveProviderConfig::Anthropic(c) => c.get_headers(),
            ActiveProviderConfig::LiteLLM(c) => c.get_headers(),
        }
    }

    fn validate(&self) -> (r: Result<(), String>) {
        match self {
            ActiveProviderConfig::Anthropic(c) => c.validate(),
            ActiveProviderConfig::LiteLLM(c) => c.validate(),
        }
    }
}

/// Resolve and validate the configuration of the provider selected by the
/// given settings values.
pub fn load_provider_config(settings: &ProviderSettings) -> (r: Result<
    ActiveProviderConfig,
    String,
>)
    ensures
        lower_of(selected_provider(settings)) != "anthropic"@ && lower_of(
            selected_provider(settings),
        ) != "litellm"@ ==> (r matches Err(m) && m@ == "Unknown provider: "@ + selected_provider(
            settings,
        )),
        lower_of(selected_provider(settings)) == "anthropic"@ ==> match anthropic_key_in_force(
            settings,
        ) {
            None => r matches Err(m) && m@
                == "Anthropic API key not configured. Please set it in Settings."@,
            Some(key) => if spec_blank(key) {
                r matches Err(m) && m@ == "Anthropic API key cannot be empty"@
            } else {
                r matches Ok(c) && c matches ActiveProviderConfig::Anthropic(a) && a.api_key@ == key
            },
        },
        lower_of(selected_provider(settings)) == "litellm"@ ==> match (
            settings.litellm_base_url,
            settings.litellm_api_key,
        ) {
            (None, _) => r matches Err(m) && m@
                == "LiteLLM base URL not configured. Please set it in Settings."@,
            (Some(_), None) => r matches Err(m) && m@
                == "LiteLLM API key not configured. Please set it in Settings."@,
            (Some(base), Some(key)) => {
                let cfg = LiteLLMConfig { base_url: base, api_key: key };
                if cfg.spec_valid() {
                    r matches Ok(c) && c matches ActiveProviderConfig::LiteLLM(l) && l.base_url@
                        == base@ && l.api_key@ == key@
                } else {
                    r matches Err(m) && m@ == cfg.spec_invalid_message()
                }
            },
        },
{
    let provider_str: String = match &settings.api_provider {
        Some(p) => p.clone(),
        None => String::from_str("anthropic"),
    };
    let provider = match Provider::from_str(provider_str.as_str()) {
        Ok(p) => p,
        Err(e) => {
            return Err(e);
        },
    };
    match provider {
        Provider::Anthropic => {
            let api_key: String = match &settings.anthropic_api_key {
                Some(k) => k.clone(),
                None => match &settings.anthropic_api_key_env {
                    Some(k) => k.clone(),
                    None => {
                        return Err(
                            String::from_str(
                                "Anthropic API key not configured. Please set it in Settings.",
                            ),
                        );
                    },
                },
            };
            let config = AnthropicConfig { api_key };
            match config.validate() {
                Ok(_) => Ok(ActiveProviderConfig::Anthropic(config)),
                Err(e) => Err(e),
            }
        },
        Provider::LiteLLM => {
            let base_url: String = match &settings.litellm_base_url {
                Some(b) => b.clone(),
                None => {
                    return Err(
                        String::from_str(
                            "LiteLLM base URL not configured. Please set it in Settings.",
                        ),
                    );
                },
            };
            let api_key: String = match &settings.litellm_api_key {
                Some(k) => k.clone(),
                None => {
                    return Err(
                        String::from_str(
                            "LiteLLM API key not configured. Please set it in Settings.",
                        ),
                    );
                },
            };
            let config = LiteLLMConfig { base_url, api_key };
            match config.validate() {
                Ok(_) => Ok(ActiveProviderConfig::LiteLLM(config)),
                Err(e) => Err(e),
            }
        },
    }
}

// ---------------------------------------------------------------------------
// Model listings
// ---------------------------------------------------------------------------
/// Model information as reported to the UI.
#[derive(Debug)]
pub struct ModelInfo {
    /// Full snapshot id, e.g. `some-model-20250101`.
    pub id: String,
    /// Friendly name: the id without its date suffix.
    pub display_name: String,
    /// Human-readable label.
    pub display_label: String,
}

/// The mathematical content of a `ModelInfo`.
pub struct ModelInfoV {
    pub id: Seq<char>,
    pub display_name: Seq<char>,
    pub display_label: Seq<char>,
}

impl View for ModelInfo {
    type V = ModelInfoV;

    open spec fn view(&self) -> ModelInfoV {
        ModelInfoV { id: self.id@, display_name: self.display_name@, display_label: self.display_label@ }
    }
}

/// Whether a character separates words of a display label: a hyphen or
/// whitespace.
pub open spec fn spec_label_sep(c: char) -> bool {
    c == '-' || unicode_whitespace(c)
}

/// One pass of display-label building: separators split words, the first
/// character of each word is uppercased, words are joined by single
/// spaces.
pub open spec fn label_fold(s: Seq<char>, i: int, acc: Seq<char>, word_start: bool) -> Seq<char>
    decreases s.len() - i
        when 0 <= i <= s.len()
{
    if i >= s.len() {
        acc
    } else if spec_label_sep(s[i]) {
        label_fold(s, i + 1, acc, true)
    } else if word_start {
        let sep: Seq<char> = if acc.len() > 0 {
            seq![' ']
        } else {
            Seq::empty()
        };
        label_fold(s, i + 1, acc + sep + upper_of(s[i]), false)
    } else {
        label_fold(s, i + 1, acc.push(s[i]), false)
    }
}

/// The display label derived from a friendly model name.
pub open spec fn display_label_of(s: Seq<char>) -> Seq<char> {
    label_fold(s, 0, Seq::empty(), true)
}

/// Derive a human-readable label from a friendly model name: hyphens
/// become word breaks and each word is capitalized.
pub fn derive_display_label(s: &str) -> (r: String)
    ensures
        r@ == display_label_of(s@),
{
    let n = s.unicode_len();
    let mut acc = String::new();
    let mut word_start = true;
    let mut i: usize = 0;
    while i < n
        invariant
            n == s@.len(),
            0 <= i <= n,
            label_fold(s@, i as int, acc@, word_start) == display_label_of(s@),
        decreases n - i,
    {
        let ghost acc0 = acc@;
        let ghost ws0 = word_start;
        let c = s.get_char(i);
        if c == '-' || c.is_whitespace() {
            word_start = true;
        } else if word_start {
            if acc.unicode_len() > 0 {
                acc.append(" ");
                proof {
                    reveal_strlit(" ");
                }
            }
            let up = upper_char(c);
            acc.append(up.as_str());
            word_start = false;
        } else {
            acc = push_char(acc, c);
            word_start = false;
        }
        proof {
            let ci = s@[i as int];
            if spec_label_sep(ci) {
                assert(acc@ == acc0 && word_start);
            } else if ws0 {
                let sep: Seq<char> = if acc0.len() > 0 {
                    seq![' ']
                } else {
                    Seq::empty()
                };
                assert(acc@ =~= acc0 + sep + upper_of(ci));
            } else {
                assert(acc@ =~= acc0.push(ci));
            }
            assert(label_fold(s@, i as int, acc0, ws0) == label_fold(
                s@,
                i as int + 1,
                acc@,
                word_start,
            ));
        }
        i += 1;
    }
    acc
}

/// Append one character to a string.
fn push_char(s: String, c: char) -> (r: String)
    ensures
        r@ == s@.push(c),
{
    let ghost s0 = s@;
    let mut t = s;
    let one = char_to_string(c);
    t.append(one.as_str());
    proof {
        assert(t@ =~= s0.push(c));
    }
    t
}

/// Relies on char::to_string of std: the one-character string of a
/// character.
#[verifier::external_body]
fn char_to_string(c: char) -> (r: String)
    ensures
        r@ == seq![c],
{
    c.to_string()
}

/// What the Anthropic model-list document contains: the `(id,
/// display_name)` pairs of its `data` array, in order, or nothing when the
/// text is not such a document.
pub uninterp spec fn anthropic_models_of(s: Seq<char>) -> Option<Seq<(Seq<char>, Seq<char>)>>;

/// Relies on serde_json::from_str and the Value accessors: parsing the
/// Anthropic model-list JSON document `{"data": [{"id", "display_name"},
/// ..]}` depends on the text alone.
#[verifier::external_body]
fn parse_anthropic_models(s: &str) -> (r: Result<Vec<(String, String)>, String>)
    ensures
        r is Ok <==> anthropic_models_of(s@) is Some,
        r matches Ok(v) ==> v.deep_view() == anthropic_models_of(s@).unwrap(),
{
    let v: serde_json::Value = serde_json::from_str(s).map_err(|e| e.to_string())?;
    let arr = v.get("data").and_then(serde_json::Value::as_array).ok_or("missing data array")?;
    let mut out = Vec::new();
    for m in arr {
        let id = m.get("id").and_then(serde_json::Value::as_str).ok_or("missing model id")?;
        let label = m.get("display_name").and_then(serde_json::Value::as_str).ok_or("missing display_name")?;
        out.push((id.to_string(), label.to_string()));
    }
    Ok(out)
}

/// What the OpenAI-style model-list document contains: the ids of its
/// `data` array, in order, or nothing when the text is not such a
/// document.
pub uninterp spec fn openai_models_of(s: Seq<char>) -> Option<Seq<Seq<char>>>;

/// Relies on serde_json::from_str and the Value accessors: parsing the
/// OpenAI-style model-list JSON document `{"data": [{"id"}, ..]}` depends
/// on the text alone.
#[verifier::external_body]
fn parse_openai_models(s: &str) -> (r: Result<Vec<String>, String>)
    ensures
        r is Ok <==> openai_models_of(s@) is Some,
        r matches Ok(v) ==> v.deep_view() == openai_models_of(s@).unwrap(),
{
    let v: serde_json::Value = serde_json::from_str(s).map_err(|e| e.to_string())?;
    let arr = v.get("data").and_then(serde_json::Value::as_array).ok_or("missing data array")?;
    let mut out = Vec::new();
    for m in arr {
        out.push(m.get("id").and_then(serde_json::Value::as_str).ok_or("missing model id")?.to_string());
    }
    Ok(out)
}

/// Turn the text of an Anthropic model-list response into model
/// information: the friendly name is derived from each id, the label is
/// the provider-reported display name.
pub fn models_from_anthropic_response(text: &str) -> (r: Result<Vec<ModelInfo>, String>)
    ensures
        r is Ok <==> anthropic_models_of(text@) is Some,
        r matches Ok(models) ==> {
            let pairs = anthropic_models_of(text@).unwrap();
            &&& models@.len() == pairs.len()
            &&& forall|i: int|
                0 <= i < pairs.len() ==> (#[trigger] models@[i])@ == (ModelInfoV {
                    id: pairs[i].0,
                    display_name: friendly_name_of(pairs[i].0),
                    display_label: pairs[i].1,
                })
        },
        r matches Err(m) ==> {
            let p = "Failed to parse Anthropic models response: "@;
            m@.len() >= p.len() && m@.take(p.len() as int) == p
        },
{
    let parsed = match parse_anthropic_models(text) {
        Ok(v) => v,
        Err(e) => {
            let msg = String::from_str("Failed to parse Anthropic models response: ").concat(
                e.as_str(),
            );
            proof {
                let p = "Failed to parse Anthropic models response: "@;
                assert(msg@.take(p.len() as int) =~= p);
            }
            return Err(msg);
        },
    };
    let ghost pairs = anthropic_models_of(text@).unwrap();
    let mut models: Vec<ModelInfo> = Vec::new();
    let mut i: usize = 0;
    while i < parsed.len()
        invariant
            parsed.deep_view() == pairs,
            0 <= i <= parsed.len(),
            parsed@.len() == pairs.len(),
            models@.len() == i,
            forall|j: int|
                0 <= j < i ==> (#[trigger] models@[j])@ == (ModelInfoV {
                    id: pairs[j].0,
                    display_name: friendly_name_of(pairs[j].0),
                    display_label: pairs[j].1,
                }),
        decreases parsed.len() - i,
    {
        let id = parsed[i].0.clone();
        let label = parsed[i].1.clone();
        let friendly = derive_friendly_name(id.as_str());
        proof {
            assert(parsed@[i as int].deep_view() == pairs[i as int]);
        }
        models.push(ModelInfo { id, display_name: friendly, display_label: label });
        i += 1;
    }
    Ok(models)
}

/// Turn the text of an OpenAI-style model-list response into model
/// information: both the friendly name and the label are derived from each
/// id, since the document carries no display name.
pub fn models_from_openai_response(text: &str) -> (r: Result<Vec<ModelInfo>, String>)
    ensures
        r is Ok <==> openai_models_of(text@) is Some,
        r matches Ok(models) ==> {
            let ids = openai_models_of(text@).unwrap();
            &&& models@.len() == ids.len()
            &&& forall|i: int|
                0 <= i < ids.len() ==> (#[trigger] models@[i])@ == (ModelInfoV {
                    id: ids[i],
                    display_name: friendly_name_of(ids[i]),
                    display_label: display_label_of(friendly_name_of(ids[i])),
                })
        },
        r matches Err(m) ==> {
            let p = "Failed to parse LiteLLM models response: "@;
            m@.len() >= p.len() && m@.take(p.len() as int) == p
        },
{
    let parsed = match parse_openai_models(text) {
        Ok(v) => v,
        Err(e) => {
            let msg = String::from_str("Failed to parse LiteLLM models response: ").concat(
                e.as_str(),
            );
            proof {
                let p = "Failed to parse LiteLLM models response: "@;
                assert(msg@.take(p.len() as int) =~= p);
            }
            return Err(msg);
        },
    };
    let ghost ids = openai_models_of(text@).unwrap();
    let mut models: Vec<ModelInfo> = Vec::new();
    let mut i: usize = 0;
    while i < parsed.len()
        invariant
            parsed.deep_view() == ids,
            0 <= i <= parsed.len(),
            parsed@.len() == ids.len(),
            models@.len() == i,
            forall|j: int|
                0 <= j < i ==> (#[trigger] models@[j])@ == (ModelInfoV {
                    id: ids[j],
                    display_name: friendly_name_of(ids[j]),
                    display_label: display_label_of(friendly_name_of(ids[j])),
                }),
        decreases parsed.len() - i,
    {
        let id = parsed[i].clone();
        let friendly = derive_friendly_name(id.as_str());
        let label = derive_display_label(friendly.as_str());
        proof {
            assert(parsed@[i as int].deep_view() == ids[i as int]);
        }
        models.push(ModelInfo { id, display_name: friendly, display_label: label });
        i += 1;
    }
    Ok(models)
}

/// The id resolved for a friendly name: the id of the first model whose
/// friendly name matches, or the name itself when none matches.
pub open spec fn resolve_spec(models: Seq<ModelInfoV>, name: Seq<char>) -> Seq<char>
    decreases models.len(),
{
    if models.len() == 0 {
        name
    } else if models[0].display_name == name {
        models[0].id
    } else {
        resolve_spec(models.drop_first(), name)
    }
}

/// The views of a model list.
pub open spec fn models_view(models: Seq<ModelInfo>) -> Seq<ModelInfoV> {
    models.map_values(|m: ModelInfo| m@)
}

/// Resolve a friendly model name to the full id of the first matching
/// model; a name no model matches is taken to already be a full id and
/// returned unchanged.
pub fn resolve_model_name(models: &Vec<ModelInfo>, friendly_name: &str) -> (r: String)
    ensures
        r@ == resolve_spec(models_view(models@), friendly_name@),
{
    let name = String::from_str(friendly_name);
    proof {
        assert(models_view(models@).skip(0) =~= models_view(models@));
    }
    let mut i: usize = 0;
    while i < models.len()
        invariant
            name@ == friendly_name@,
            0 <= i <= models@.len(),
            resolve_spec(models_view(models@).skip(i as int), friendly_name@) == resolve_spec(
                models_view(models@),
                friendly_name@,
            ),
        decreases models@.len() - i,
    {
        proof {
            assert(models_view(models@).skip(i as int).drop_first() =~= models_view(models@).skip(
                i as int + 1,
            ));
            assert(models_view(models@).skip(i as int)[0] == models@[i as int]@);
        }
        if models[i].display_name == name {
            return models[i].id.clone();
        }
        i += 1;
    }
    proof {
        assert(models_view(models@).skip(models@.len() as int) =~= Seq::<ModelInfoV>::empty());
    }
    name
}

} // verus!
