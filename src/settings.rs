//! The service's own settings: bind address and public base URL.

use vstd::prelude::*;
use crate::error::{ConfigError, ErrorKind};
use crate::layers::Sources;
use crate::url_text::{http_origin, join_url, origin_of, parse_url, plain_absolute_path, url_joined, url_parsed};

verus! {

pub open spec fn env_prefix() -> Seq<char> {
    seq!['A', 'P', 'P']
}

pub open spec fn env_separator() -> Seq<char> {
    seq!['_']
}

pub open spec fn logo_path() -> Seq<char> {
    seq!['/', 'l', 'o', 'g', 'o', '.', 'p', 'n', 'g']
}

pub open spec fn openapi_json_path() -> Seq<char> {
    seq!['/', 'o', 'p', 'e', 'n', 'a', 'p', 'i', '.', 'j', 's', 'o', 'n']
}

pub open spec fn api_path() -> Seq<char> {
    seq!['/', 'a', 'p', 'i']
}

/// Host and normalised public URL, or the kind of error and the key it concerns.
pub type SettingsOutcome = Result<(Seq<char>, Seq<char>), (ErrorKind, Seq<char>)>;

pub open spec fn settings_outcome(src: Sources) -> SettingsOutcome {
    let p = env_prefix();
    let s = env_separator();
    match src.value(p, s, "host"@) {
        None => Err((ErrorKind::MissingField, "host"@)),
        Some(host) => match src.value(p, s, "public_url"@) {
            None => Err((ErrorKind::MissingField, "public_url"@)),
            Some(raw) => match url_parsed(raw) {
                None => Err((ErrorKind::InvalidUrl, "public_url"@)),
                Some(u) => if http_origin(u) is None {
                    Err((ErrorKind::UnsupportedUrl, "public_url"@))
                } else {
                    Ok((host, u))
                },
            },
        },
    }
}

/// The public URL joined with an absolute path, as the `url` crate resolves it.
pub open spec fn derived_url(public_url: Seq<char>, path: Seq<char>) -> Seq<char> {
    http_origin(public_url)->0 + path
}

pub struct Settings {
    /// Bind address, `host:port`.
    pub host: String,
    /// Absolute `http` or `https` base URL, in the `url` crate's serialisation.
    pub public_url: String,
}

impl Settings {
    /// The public URL is an `http` or `https` URL with a path, normalised (it
    /// parses to itself).
    pub open spec fn base_wf(&self) -> bool {
        url_parsed(self.public_url@) == Some(self.public_url@) && http_origin(self.public_url@) is Some
    }

    /// A normalised public URL whose derived URLs are normalised too.
    pub open spec fn wf(&self) -> bool {
        &&& self.base_wf()
        &&& url_parsed(derived_url(self.public_url@, logo_path())) == Some(
            derived_url(self.public_url@, logo_path()),
        )
        &&& url_parsed(derived_url(self.public_url@, openapi_json_path())) == Some(
            derived_url(self.public_url@, openapi_json_path()),
        )
    }

    /// Builds the settings from the merged sources: keys `host` and
    /// `public_url`, addressed in the environment as `APP_HOST` and
    /// `APP_PUBLIC_URL`.
    pub fn from_config(src: &Sources) -> (r: Result<Settings, ConfigError>)
        ensures
            match r {
                Ok(s) => s.wf() && settings_outcome(*src) == SettingsOutcome::Ok((s.host@, s.public_url@)),
                Err(e) => settings_outcome(*src) == SettingsOutcome::Err((e.kind, e.key@)),
            },
    {
        proof {
            reveal_strlit("APP");
            reveal_strlit("_");
            assert("APP"@ =~= env_prefix());
            assert("_"@ =~= env_separator());
        }
        let host = match src.get("APP", "_", "host") {
            Some(h) => h,
            None => return Err(ConfigError::new(ErrorKind::MissingField, "host")),
        };
        let raw = match src.get("APP", "_", "public_url") {
            Some(u) => u,
            None => return Err(ConfigError::new(ErrorKind::MissingField, "public_url")),
        };
        let url = match parse_url(raw.as_str()) {
            Some(u) => u,
            None => return Err(ConfigError::new(ErrorKind::InvalidUrl, "public_url")),
        };
        if origin_of(url.as_str()).is_none() {
            return Err(ConfigError::new(ErrorKind::UnsupportedUrl, "public_url"));
        }
        let s = Settings { host, public_url: url };
        proof {
            reveal_strlit("/logo.png");
            reveal_strlit("/openapi.json");
            assert("/logo.png"@ =~= logo_path());
            assert("/openapi.json"@ =~= openapi_json_path());
        }
        let _ = s.join_path("/logo.png");
        let _ = s.join_path("/openapi.json");
        Ok(s)
    }

    fn join_path(&self, path: &str) -> (r: String)
        requires
            self.base_wf(),
            plain_absolute_path(path@),
        ensures
            r@ == derived_url(self.public_url@, path@),
            Some(r@) == url_joined(self.public_url@, path@),
            url_parsed(r@) == Some(r@),
    {
        proof {
            crate::url_text::lemma_origin_of_joined(self.public_url@, path@);
        }
        match join_url(self.public_url.as_str(), path) {
            Some(u) => u,
            None => String::new(),
        }
    }

    /// The public URL joined with `/logo.png`.
    pub fn logo_url(&self) -> (r: String)
        requires
            self.wf(),
        ensures
            r@ == derived_url(self.public_url@, logo_path()),
    {
        proof {
            reveal_strlit("/logo.png");
            assert("/logo.png"@ =~= logo_path());
        }
        self.join_path("/logo.png")
    }

    /// The public URL joined with `/openapi.json`.
    pub fn openapi_json_url(&self) -> (r: String)
        requires
            self.wf(),
        ensures
            r@ == derived_url(self.public_url@, openapi_json_path()),
    {
        proof {
            reveal_strlit("/openapi.json");
            assert("/openapi.json"@ =~= openapi_json_path());
        }
        self.join_path("/openapi.json")
    }

    /// The public URL joined with `/api`, where the API is served.
    pub fn api_url(&self) -> (r: String)
        requires
            self.wf(),
        ensures
            r@ == derived_url(self.public_url@, api_path()),
    {
        proof {
            reveal_strlit("/api");
            assert("/api"@ =~= api_path());
        }
        self.join_path("/api")
    }
}

/// The derived URLs of a base URL at the root of its host replace its path:
/// for `https://host.example/`, `https://host.example/logo.png` and
/// `https://host.example/openapi.json`.
pub proof fn lemma_derived_urls_of_root(s: Settings)
    requires
        s.wf(),
        s.public_url@ == "https://host.example/"@,
    ensures
        derived_url(s.public_url@, logo_path()) == "https://host.example/logo.png"@,
        derived_url(s.public_url@, openapi_json_path()) == "https://host.example/openapi.json"@,
{
    reveal_strlit("https://host.example/");
    reveal_strlit("https://host.example/logo.png");
    reveal_strlit("https://host.example/openapi.json");
    let u = s.public_url@;
    assert(u.take(8) =~= crate::url_text::https_prefix());
    crate::url_text::lemma_slash_from(u, 8, 20);
    assert(derived_url(u, logo_path()) =~= "https://host.example/logo.png"@);
    assert(derived_url(u, openapi_json_path()) =~= "https://host.example/openapi.json"@);
}

/// Environment overrides of the settings: where the last variable addresses
/// `host` or `public_url` (as `APP_HOST`, `APP_PUBLIC_URL`, any letter case),
/// the settings built hold its value, the URL as the `url` crate normalises it.
pub proof fn lemma_settings_env_override(src: Sources)
    requires
        src.env@.len() > 0,
        settings_outcome(src) is Ok,
    ensures
        crate::layers::same_ignoring_case(
            src.env@.last().0@,
            crate::layers::env_name(env_prefix(), env_separator(), "host"@),
        ) ==> settings_outcome(src)->Ok_0.0 == src.env@.last().1@,
        crate::layers::same_ignoring_case(
            src.env@.last().0@,
            crate::layers::env_name(env_prefix(), env_separator(), "public_url"@),
        ) ==> Some(settings_outcome(src)->Ok_0.1) == url_parsed(src.env@.last().1@),
{
}

} // verus!
