//! The plugin manifest: merged from computed defaults, a base file and the
//! environment (prefix `MANIFEST`, separator `.`), then checked field by field
//! and against the authentication mode.

use vstd::prelude::*;
use vstd::string::StringExecFns;
use crate::error::{ConfigError, ErrorKind};
use crate::layers::{entry_value, env_name, env_value, Sources};
use crate::settings::{derived_url, logo_path, openapi_json_path, settings_outcome, Settings};
use crate::url_text::{opt_view, parse_url, url_parsed};

verus! {

/// How a merged configuration answers a key.
pub type Lookup = spec_fn(Seq<char>) -> Option<Seq<char>>;

pub open spec fn first_of(a: Option<(ErrorKind, Seq<char>)>, b: Option<(ErrorKind, Seq<char>)>) -> Option<(ErrorKind, Seq<char>)> {
    if a is Some { a } else { b }
}

/// Error of a required text field.
pub open spec fn required_error(v: Lookup, key: Seq<char>) -> Option<(ErrorKind, Seq<char>)> {
    if v(key) is None { Some((ErrorKind::MissingField, key)) } else { None }
}

/// Error of a required URL field.
pub open spec fn url_error(v: Lookup, key: Seq<char>) -> Option<(ErrorKind, Seq<char>)> {
    match v(key) {
        None => Some((ErrorKind::MissingField, key)),
        Some(raw) => if url_parsed(raw) is None { Some((ErrorKind::InvalidUrl, key)) } else { None },
    }
}

/// Text with an `@` that has text on both sides.
pub open spec fn email_shaped(s: Seq<char>) -> bool {
    exists|i: int| 0 < i < s.len() - 1 && s[i] == '@'
}

/// Error of a required email field.
pub open spec fn email_error(v: Lookup, key: Seq<char>) -> Option<(ErrorKind, Seq<char>)> {
    match v(key) {
        None => Some((ErrorKind::MissingField, key)),
        Some(x) => if email_shaped(x) { None } else { Some((ErrorKind::InvalidEmail, key)) },
    }
}

/// Error of an optional URL field.
pub open spec fn optional_url_error(v: Lookup, key: Seq<char>) -> Option<(ErrorKind, Seq<char>)> {
    match v(key) {
        None => None,
        Some(raw) => if url_parsed(raw) is None { Some((ErrorKind::InvalidUrl, key)) } else { None },
    }
}

/// An optional URL field as it is stored: parsed and normalised.
pub open spec fn optional_url(v: Lookup, key: Seq<char>) -> Option<Seq<char>> {
    match v(key) {
        None => None,
        Some(raw) => url_parsed(raw),
    }
}

/// The authentication mode that requires every optional field.
pub open spec fn oauth() -> Seq<char> {
    seq!['o', 'a', 'u', 't', 'h']
}

/// The optional authentication fields are all present, or the mode does not need them.
pub open spec fn auth_complete(
    auth_type: Seq<char>,
    client_url: bool,
    authorization_url: bool,
    authorization_content_type: bool,
    scope: bool,
    verification_tokens: bool,
) -> bool {
    auth_type != oauth() || (client_url && authorization_url && authorization_content_type && scope
        && verification_tokens)
}

/// The first error of the fields, in schema order.
pub open spec fn field_error(v: Lookup) -> Option<(ErrorKind, Seq<char>)> {
    first_of(required_error(v, "schema_version"@),
    first_of(required_error(v, "name_for_human"@),
    first_of(required_error(v, "name_for_model"@),
    first_of(url_error(v, "logo_url"@),
    first_of(email_error(v, "contact_email"@),
    first_of(url_error(v, "legal_info_url"@),
    first_of(required_error(v, "api.type"@),
    first_of(url_error(v, "api.url"@),
    first_of(required_error(v, "auth.type"@),
    first_of(optional_url_error(v, "auth.client_url"@),
    first_of(optional_url_error(v, "auth.authorization_url"@),
    first_of(required_error(v, "description_for_human"@),
    required_error(v, "description_for_model"@)
    ))))))))))))
}

/// The error of the authentication section: its mode lacks a field it needs.
pub open spec fn auth_error(v: Lookup) -> Option<(ErrorKind, Seq<char>)> {
    if auth_complete(
        v("auth.type"@)->0,
        v("auth.client_url"@) is Some,
        v("auth.authorization_url"@) is Some,
        v("auth.authorization_content_type"@) is Some,
        v("auth.scope"@) is Some,
        v("auth.verification_tokens.openai"@) is Some,
    ) {
        None
    } else {
        Some((ErrorKind::AuthValidation, "auth"@))
    }
}

/// The first error that building a manifest from `v` meets: the fields in
/// schema order, then the authentication mode.
pub open spec fn manifest_error(v: Lookup) -> Option<(ErrorKind, Seq<char>)> {
    first_of(field_error(v), auth_error(v))
}

/// With every field well formed, an `oauth` section that lacks any of its five
/// optional fields makes the build fail with an authentication error.
pub proof fn lemma_oauth_requires_all_fields(v: Lookup)
    requires
        field_error(v) is None,
        v("auth.type"@) == Some(oauth()),
        v("auth.client_url"@) is None || v("auth.authorization_url"@) is None
            || v("auth.authorization_content_type"@) is None || v("auth.scope"@) is None
            || v("auth.verification_tokens.openai"@) is None,
    ensures
        manifest_error(v) == Some((ErrorKind::AuthValidation, "auth"@)),
{
}

/// With every field well formed, a section in any mode but `oauth` passes,
/// whichever optional fields it has.
pub proof fn lemma_other_modes_pass(v: Lookup)
    requires
        field_error(v) is None,
        v("auth.type"@) != Some(oauth()),
    ensures
        manifest_error(v) is None,
{
}

/// Where the machine-readable API specification is found.
pub struct Api {
    pub api_type: String,
    pub url: String,
}

pub struct VerificationTokens {
    pub openai: String,
}

/// Authentication section; the optional fields matter for the `oauth` mode.
pub struct Auth {
    pub auth_type: String,
    pub client_url: Option<String>,
    pub authorization_url: Option<String>,
    pub authorization_content_type: Option<String>,
    pub scope: Option<String>,
    pub verification_tokens: Option<VerificationTokens>,
}

impl Auth {
    pub open spec fn complete(&self) -> bool {
        auth_complete(
            self.auth_type@,
            self.client_url is Some,
            self.authorization_url is Some,
            self.authorization_content_type is Some,
            self.scope is Some,
            self.verification_tokens is Some,
        )
    }

    /// Checks that an `oauth` section has all five optional fields; any other
    /// mode passes.
    pub fn validate(&self) -> (r: Result<(), String>)
        ensures
            r is Ok == self.complete(),
            r matches Err(m) ==> m@ == "Missing required fields for OAuth"@,
    {
        proof {
            reveal_strlit("oauth");
            assert("oauth"@ =~= oauth());
        }
        if crate::url_text::text_eq(self.auth_type.as_str(), "oauth") {
            if self.client_url.is_none() || self.authorization_url.is_none()
                || self.authorization_content_type.is_none() || self.scope.is_none()
                || self.verification_tokens.is_none() {
                return Err("Missing required fields for OAuth".to_string());
            }
        }
        Ok(())
    }
}

/// The plugin descriptor served to plugin-discovery consumers.
pub struct Manifest {
    pub schema_version: String,
    pub name_for_human: String,
    pub name_for_model: String,
    pub logo_url: String,
    pub contact_email: String,
    pub legal_info_url: String,
    pub api: Api,
    pub auth: Auth,
    pub description_for_human: String,
    pub description_for_model: String,
}

/// The sources of a manifest as seen through its prefix and separator.
pub open spec fn source_lookup(src: Sources) -> Lookup {
    |k: Seq<char>| src.value("MANIFEST"@, "."@, k)
}

/// The defaults that the settings give: the logo and the API specification URLs.
pub open spec fn default_value(public_url: Seq<char>, key: Seq<char>) -> Option<Seq<char>> {
    if key == "logo_url"@ {
        Some(derived_url(public_url, logo_path()))
    } else if key == "api.url"@ {
        Some(derived_url(public_url, openapi_json_path()))
    } else {
        None
    }
}

/// The merge of defaults, file entries and environment variables for a manifest.
pub open spec fn layered_lookup(
    public_url: Seq<char>,
    file: Seq<(String, String)>,
    env: Seq<(String, String)>,
) -> Lookup {
    |k: Seq<char>|
        match env_value(env, env_name("MANIFEST"@, "."@, k)) {
            Some(x) => Some(x),
            None => match entry_value(file, k) {
                Some(x) => Some(x),
                None => default_value(public_url, k),
            },
        }
}

impl Manifest {
    /// Every field holds what `v` gives its key, URL fields normalised.
    pub open spec fn agrees_with(&self, v: Lookup) -> bool {
        &&& v("schema_version"@) == Some(self.schema_version@)
        &&& v("name_for_human"@) == Some(self.name_for_human@)
        &&& v("name_for_model"@) == Some(self.name_for_model@)
        &&& v("logo_url"@) is Some && url_parsed(v("logo_url"@)->0) == Some(self.logo_url@)
        &&& v("contact_email"@) == Some(self.contact_email@)
        &&& v("legal_info_url"@) is Some && url_parsed(v("legal_info_url"@)->0) == Some(
            self.legal_info_url@,
        )
        &&& v("api.type"@) == Some(self.api.api_type@)
        &&& v("api.url"@) is Some && url_parsed(v("api.url"@)->0) == Some(self.api.url@)
        &&& v("auth.type"@) == Some(self.auth.auth_type@)
        &&& optional_url(v, "auth.client_url"@) == opt_view(self.auth.client_url)
        &&& optional_url(v, "auth.authorization_url"@) == opt_view(self.auth.authorization_url)
        &&& v("auth.authorization_content_type"@) == opt_view(self.auth.authorization_content_type)
        &&& v("auth.scope"@) == opt_view(self.auth.scope)
        &&& v("auth.verification_tokens.openai"@) == match self.auth.verification_tokens {
            Some(t) => Some(t.openai@),
            None => None,
        }
        &&& v("description_for_human"@) == Some(self.description_for_human@)
        &&& v("description_for_model"@) == Some(self.description_for_model@)
    }
}

fn required(src: &Sources, key: &str) -> (r: Result<String, ConfigError>)
    ensures
        match r {
            Ok(x) => source_lookup(*src)(key@) == Some(x@),
            Err(e) => required_error(source_lookup(*src), key@) == Some((e.kind, e.key@)),
        },
{
    match src.get("MANIFEST", ".", key) {
        Some(x) => Ok(x),
        None => Err(ConfigError::new(ErrorKind::MissingField, key)),
    }
}

fn optional(src: &Sources, key: &str) -> (r: Option<String>)
    ensures
        opt_view(r) == source_lookup(*src)(key@),
{
    src.get("MANIFEST", ".", key)
}

fn required_url(src: &Sources, key: &str) -> (r: Result<String, ConfigError>)
    ensures
        match r {
            Ok(x) => source_lookup(*src)(key@) is Some && url_parsed(source_lookup(*src)(key@)->0)
                == Some(x@),
            Err(e) => url_error(source_lookup(*src), key@) == Some((e.kind, e.key@)),
        },
{
    let raw = required(src, key)?;
    match parse_url(raw.as_str()) {
        Some(u) => Ok(u),
        None => Err(ConfigError::new(ErrorKind::InvalidUrl, key)),
    }
}

/// Whether the text has an `@` with text on both sides.
pub fn is_email_shaped(s: &str) -> (r: bool)
    ensures
        r == email_shaped(s@),
{
    let n = s.unicode_len();
    if n == 0 {
        return false;
    }
    let mut i: usize = 1;
    while i < n - 1
        invariant
            n == s@.len(),
            1 <= i <= n,
            forall|j: int| 0 < j < i && j < n - 1 ==> s@[j] != '@',
        decreases n - i,
    {
        if s.get_char(i) == '@' {
            return true;
        }
        i = i + 1;
    }
    false
}

fn required_email(src: &Sources, key: &str) -> (r: Result<String, ConfigError>)
    ensures
        match r {
            Ok(x) => source_lookup(*src)(key@) == Some(x@) && email_shaped(x@),
            Err(e) => email_error(source_lookup(*src), key@) == Some((e.kind, e.key@)),
        },
{
    let x = required(src, key)?;
    if is_email_shaped(x.as_str()) {
        Ok(x)
    } else {
        Err(ConfigError::new(ErrorKind::InvalidEmail, key))
    }
}

fn optional_url_field(src: &Sources, key: &str) -> (r: Result<Option<String>, ConfigError>)
    ensures
        match r {
            Ok(x) => optional_url_error(source_lookup(*src), key@) is None && opt_view(x)
                == optional_url(source_lookup(*src), key@),
            Err(e) => optional_url_error(source_lookup(*src), key@) == Some((e.kind, e.key@)),
        },
{
    match optional(src, key) {
        None => Ok(None),
        Some(raw) => match parse_url(raw.as_str()) {
            Some(u) => Ok(Some(u)),
            None => Err(ConfigError::new(ErrorKind::InvalidUrl, key)),
        },
    }
}

impl Manifest {
    /// Builds the manifest from merged sources: every field in schema order,
    /// URL fields parsed, then the authentication section validated.
    pub fn build(src: &Sources) -> (r: Result<Manifest, ConfigError>)
        ensures
            match r {
                Ok(m) => manifest_error(source_lookup(*src)) is None && m.agrees_with(
                    source_lookup(*src),
                ),
                Err(e) => manifest_error(source_lookup(*src)) == Some((e.kind, e.key@)),
            },
    {
        let schema_version = required(src, "schema_version")?;
        let name_for_human = required(src, "name_for_human")?;
        let name_for_model = required(src, "name_for_model")?;
        let logo_url = required_url(src, "logo_url")?;
        let contact_email = required_email(src, "contact_email")?;
        let legal_info_url = required_url(src, "legal_info_url")?;
        let api_type = required(src, "api.type")?;
        let api_url = required_url(src, "api.url")?;
        let auth_type = required(src, "auth.type")?;
        let client_url = optional_url_field(src, "auth.client_url")?;
        let authorization_url = optional_url_field(src, "auth.authorization_url")?;
        let authorization_content_type = optional(src, "auth.authorization_content_type");
        let scope = optional(src, "auth.scope");
        let verification_tokens = match optional(src, "auth.verification_tokens.openai") {
            Some(openai) => Some(VerificationTokens { openai }),
            None => None,
        };
        let description_for_human = required(src, "description_for_human")?;
        let description_for_model = required(src, "description_for_model")?;
        let auth = Auth {
            auth_type,
            client_url,
            authorization_url,
            authorization_content_type,
            scope,
            verification_tokens,
        };
        if auth.validate().is_err() {
            return Err(ConfigError::new(ErrorKind::AuthValidation, "auth"));
        }
        let m = Manifest {
            schema_version,
            name_for_human,
            name_for_model,
            logo_url,
            contact_email,
            legal_info_url,
            api: Api { api_type, url: api_url },
            auth,
            description_for_human,
            description_for_model,
        };
        Ok(m)
    }

    /// Builds the manifest with the settings' logo URL (`logo_url`) and API
    /// specification URL (`api.url`) as defaults, below the base file's
    /// entries and the environment's variables.
    pub fn from_config(
        settings: &Settings,
        file: Vec<(String, String)>,
        env: Vec<(String, String)>,
    ) -> (r: Result<Manifest, ConfigError>)
        requires
            settings.wf(),
        ensures
            match r {
                Ok(m) => manifest_error(layered_lookup(settings.public_url@, file@, env@)) is None
                    && m.agrees_with(layered_lookup(settings.public_url@, file@, env@)),
                Err(e) => manifest_error(layered_lookup(settings.public_url@, file@, env@)) == Some(
                    (e.kind, e.key@),
                ),
            },
    {
        let ghost file0 = file@;
        let ghost env0 = env@;
        let logo_key = String::from_str("logo_url");
        let api_url_key = String::from_str("api.url");
        let defaults = vec![(logo_key, settings.logo_url()), (api_url_key, settings.openapi_json_url())];
        let src = Sources { defaults, file, env };
        proof {
            reveal_strlit("logo_url");
            reveal_strlit("api.url");
            assert forall|k: Seq<char>| entry_value(src.defaults@, k) == default_value(settings.public_url@, k) by {
                reveal_with_fuel(entry_value, 3);
                assert(src.defaults@.drop_last().drop_last() =~= Seq::<(String, String)>::empty());
                assert("logo_url"@ != "api.url"@) by {
                    assert("logo_url"@.len() != "api.url"@.len());
                }
            }
            assert(source_lookup(src) =~= layered_lookup(settings.public_url@, file0, env0));
        }
        Manifest::build(&src)
    }
}

/// Precedence of the manifest's sources: a variable that addresses a key
/// overrides the base file and the defaults, and a file entry overrides the
/// defaults.
pub proof fn lemma_manifest_precedence(
    public_url: Seq<char>,
    file: Seq<(String, String)>,
    env: Seq<(String, String)>,
    key: Seq<char>,
)
    ensures
        env_value(env, env_name("MANIFEST"@, "."@, key)) matches Some(x) ==> layered_lookup(
            public_url,
            file,
            env,
        )(key) == Some(x),
        env_value(env, env_name("MANIFEST"@, "."@, key)) is None && entry_value(file, key) is Some
            ==> layered_lookup(public_url, file, env)(key) == entry_value(file, key),
        env_value(env, env_name("MANIFEST"@, "."@, key)) is None && entry_value(file, key) is None
            ==> layered_lookup(public_url, file, env)(key) == default_value(public_url, key),
{
}

/// The variable that addresses a key under `MANIFEST` and `.` sets the built
/// manifest's field, over the base file and the defaults: text fields take
/// its value, URL fields its normalised form.
pub proof fn lemma_env_sets_fields(
    settings: Settings,
    file: Seq<(String, String)>,
    env: Seq<(String, String)>,
    m: Manifest,
)
    requires
        m.agrees_with(layered_lookup(settings.public_url@, file, env)),
    ensures
        env_value(env, env_name("MANIFEST"@, "."@, "schema_version"@)) matches Some(x) ==> m.schema_version@ == x,
        env_value(env, env_name("MANIFEST"@, "."@, "name_for_human"@)) matches Some(x) ==> m.name_for_human@ == x,
        env_value(env, env_name("MANIFEST"@, "."@, "name_for_model"@)) matches Some(x) ==> m.name_for_model@ == x,
        env_value(env, env_name("MANIFEST"@, "."@, "logo_url"@)) matches Some(x) ==> Some(m.logo_url@) == url_parsed(x),
        env_value(env, env_name("MANIFEST"@, "."@, "contact_email"@)) matches Some(x) ==> m.contact_email@ == x,
        env_value(env, env_name("MANIFEST"@, "."@, "legal_info_url"@)) matches Some(x) ==> Some(m.legal_info_url@) == url_parsed(x),
        env_value(env, env_name("MANIFEST"@, "."@, "api.type"@)) matches Some(x) ==> m.api.api_type@ == x,
        env_value(env, env_name("MANIFEST"@, "."@, "api.url"@)) matches Some(x) ==> Some(m.api.url@) == url_parsed(x),
        env_value(env, env_name("MANIFEST"@, "."@, "auth.type"@)) matches Some(x) ==> m.auth.auth_type@ == x,
        env_value(env, env_name("MANIFEST"@, "."@, "auth.client_url"@)) matches Some(x) ==> opt_view(m.auth.client_url) == url_parsed(x),
        env_value(env, env_name("MANIFEST"@, "."@, "auth.authorization_url"@)) matches Some(x) ==> opt_view(m.auth.authorization_url) == url_parsed(x),
        env_value(env, env_name("MANIFEST"@, "."@, "auth.authorization_content_type"@)) matches Some(x) ==> opt_view(m.auth.authorization_content_type) == Some(x),
        env_value(env, env_name("MANIFEST"@, "."@, "auth.scope"@)) matches Some(x) ==> opt_view(m.auth.scope) == Some(x),
        env_value(env, env_name("MANIFEST"@, "."@, "description_for_human"@)) matches Some(x) ==> m.description_for_human@ == x,
        env_value(env, env_name("MANIFEST"@, "."@, "description_for_model"@)) matches Some(x) ==> m.description_for_model@ == x,
{
}

/// Where neither the base file nor the environment gives `logo_url` or
/// `api.url`, the manifest holds the public URL joined with `/logo.png` and
/// `/openapi.json`.
pub proof fn lemma_defaults_fill_urls(
    settings: Settings,
    file: Seq<(String, String)>,
    env: Seq<(String, String)>,
    m: Manifest,
)
    requires
        settings.wf(),
        m.agrees_with(layered_lookup(settings.public_url@, file, env)),
    ensures
        env_value(env, env_name("MANIFEST"@, "."@, "logo_url"@)) is None && entry_value(file, "logo_url"@) is None
            ==> m.logo_url@ == derived_url(settings.public_url@, logo_path()),
        env_value(env, env_name("MANIFEST"@, "."@, "api.url"@)) is None && entry_value(file, "api.url"@) is None
            ==> m.api.url@ == derived_url(settings.public_url@, openapi_json_path()),
{
    reveal_strlit("logo_url");
    reveal_strlit("api.url");
    assert("logo_url"@ != "api.url"@) by {
        assert("logo_url"@.len() != "api.url"@.len());
    }
}

/// With the public URL `https://p.example/` and no other source for them, the
/// manifest's API URL is `https://p.example/openapi.json` and its logo URL
/// `https://p.example/logo.png`.
pub proof fn lemma_defaults_of_p_example(
    settings: Settings,
    file: Seq<(String, String)>,
    env: Seq<(String, String)>,
    m: Manifest,
)
    requires
        settings.wf(),
        settings.public_url@ == "https://p.example/"@,
        m.agrees_with(layered_lookup(settings.public_url@, file, env)),
        env_value(env, env_name("MANIFEST"@, "."@, "logo_url"@)) is None,
        entry_value(file, "logo_url"@) is None,
        env_value(env, env_name("MANIFEST"@, "."@, "api.url"@)) is None,
        entry_value(file, "api.url"@) is None,
    ensures
        m.api.url@ == "https://p.example/openapi.json"@,
        m.logo_url@ == "https://p.example/logo.png"@,
{
    lemma_defaults_fill_urls(settings, file, env, m);
    reveal_strlit("https://p.example/");
    reveal_strlit("https://p.example/openapi.json");
    reveal_strlit("https://p.example/logo.png");
    let u = settings.public_url@;
    assert(u.take(8) =~= crate::url_text::https_prefix());
    crate::url_text::lemma_slash_from(u, 8, 17);
    assert(derived_url(u, logo_path()) =~= "https://p.example/logo.png"@);
    assert(derived_url(u, openapi_json_path()) =~= "https://p.example/openapi.json"@);
}

/// Loads the settings from their sources, then the manifest from its base
/// file entries and the environment, with the settings' derived URLs as
/// defaults. Fails with the settings' error, or else with the manifest's.
pub fn load(
    settings_src: &Sources,
    file: Vec<(String, String)>,
    env: Vec<(String, String)>,
) -> (r: Result<(Settings, Manifest), ConfigError>)
    ensures
        match settings_outcome(*settings_src) {
            Err(x) => r matches Err(e) && (e.kind, e.key@) == x,
            Ok((host, url)) => match r {
                Ok((s, m)) => s.host@ == host && s.public_url@ == url && s.wf()
                    && manifest_error(layered_lookup(url, file@, env@)) is None
                    && m.agrees_with(layered_lookup(url, file@, env@)),
                Err(e) => manifest_error(layered_lookup(url, file@, env@)) == Some((e.kind, e.key@)),
            },
        },
{
    let settings = Settings::from_config(settings_src)?;
    let manifest = Manifest::from_config(&settings, file, env)?;
    Ok((settings, manifest))
}

} // verus!
