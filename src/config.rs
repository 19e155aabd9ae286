use vstd::prelude::*;
use crate::resample::{TARGET_CHANNELS, TARGET_SAMPLE_RATE};
use crate::inbound::decimal;

verus! {

/// The settings of one capture session, fixed when it starts.
#[derive(Clone, Debug, PartialEq, Eq)]
pub struct CaptureConfig {
    /// Bearer token for the transcription service.
    pub auth_token: String,
    /// Base URL of the transcription service.
    pub service_url: String,
    pub language: String,
    pub provider: String,
    pub model: String,
    /// Base URL of the analysis endpoint.
    pub collaborator_url: String,
    /// Bearer credential for the analysis endpoint.
    pub collaborator_key: String,
    /// Internal key sent to the analysis endpoint.
    pub internal_key: String,
}

pub open spec fn or_default(o: Option<String>, d: Seq<char>) -> Seq<char> {
    match o {
        Some(s) => s@,
        None => d,
    }
}

/// Transcription service used where the caller names none.
pub open spec fn default_service_url() -> Seq<char> {
    "https://interview-stt-proxy.agusmontoya.workers.dev"@
}

fn string_or(o: Option<String>, d: &str) -> (r: String)
    ensures
        r@ == or_default(o, d@),
{
    match o {
        Some(s) => s,
        None => String::from_str(d),
    }
}

/// Whether `s` begins with `p`.
pub open spec fn has_prefix(s: Seq<char>, p: Seq<char>) -> bool {
    p.len() <= s.len() && s.subrange(0, p.len() as int) == p
}

fn starts_with(s: &str, p: &str) -> (r: bool)
    ensures
        r == has_prefix(s@, p@),
{
    let n = s.unicode_len();
    let m = p.unicode_len();
    if m > n {
        return false;
    }
    let mut i: usize = 0;
    while i < m
        invariant
            m <= n,
            n == s@.len(),
            m == p@.len(),
            i <= m,
            s@.subrange(0, i as int) == p@.subrange(0, i as int),
        decreases m - i,
    {
        if s.get_char(i) != p.get_char(i) {
            assert(s@.subrange(0, m as int)[i as int] != p@[i as int]);
            return false;
        }
        assert(s@.subrange(0, i + 1) =~= s@.subrange(0, i as int).push(s@[i as int]));
        assert(p@.subrange(0, i + 1) =~= p@.subrange(0, i as int).push(p@[i as int]));
        i = i + 1;
    }
    assert(p@.subrange(0, m as int) =~= p@);
    true
}

/// `u` with its scheme `https://` or `http://` replaced by `secure` or `plain`.
pub open spec fn with_scheme(u: Seq<char>, secure: Seq<char>, plain: Seq<char>) -> Seq<char> {
    if has_prefix(u, "https://"@) {
        secure + u.subrange(8, u.len() as int)
    } else if has_prefix(u, "http://"@) {
        plain + u.subrange(7, u.len() as int)
    } else {
        u
    }
}

fn replace_scheme(u: &str, secure: &str, plain: &str) -> (r: String)
    ensures
        r@ == with_scheme(u@, secure@, plain@),
{
    proof {
        reveal_strlit("https://");
        reveal_strlit("http://");
    }
    let n = u.unicode_len();
    if starts_with(u, "https://") {
        let mut r = String::from_str(secure);
        r.append(u.substring_char(8, n));
        r
    } else if starts_with(u, "http://") {
        let mut r = String::from_str(plain);
        r.append(u.substring_char(7, n));
        r
    } else {
        String::from_str(u)
    }
}

/// The URL of the streaming endpoint: the service URL with a WebSocket scheme,
/// path `/ws`, and the provider, language, model, channel count, sample rate
/// and encoding as query parameters.
pub open spec fn stream_url_of(c: CaptureConfig) -> Seq<char> {
    with_scheme(c.service_url@, "wss://"@, "ws://"@) + "/ws?provider="@ + c.provider@
        + "&language="@ + c.language@ + "&model="@ + c.model@ + "&channels="@ + decimal(
        TARGET_CHANNELS as int,
    ) + "&sample_rate="@ + decimal(TARGET_SAMPLE_RATE as int) + "&encoding=linear16"@
}

impl CaptureConfig {
    /// Builds the settings from the caller's options; an option left out takes
    /// its default: an empty token and empty analysis settings, the default
    /// service, language `en`, provider `deepgram`, model `nova-3`.
    pub fn from_options(
        auth_token: Option<String>,
        service_url: Option<String>,
        language: Option<String>,
        provider: Option<String>,
        model: Option<String>,
        collaborator_url: Option<String>,
        collaborator_key: Option<String>,
        internal_key: Option<String>,
    ) -> (c: CaptureConfig)
        ensures
            c.auth_token@ == or_default(auth_token, ""@),
            c.service_url@ == or_default(service_url, default_service_url()),
            c.language@ == or_default(language, "en"@),
            c.provider@ == or_default(provider, "deepgram"@),
            c.model@ == or_default(model, "nova-3"@),
            c.collaborator_url@ == or_default(collaborator_url, ""@),
            c.collaborator_key@ == or_default(collaborator_key, ""@),
            c.internal_key@ == or_default(internal_key, ""@),
    {
        CaptureConfig {
            auth_token: string_or(auth_token, ""),
            service_url: string_or(
                service_url,
                "https://interview-stt-proxy.agusmontoya.workers.dev",
            ),
            language: string_or(language, "en"),
            provider: string_or(provider, "deepgram"),
            model: string_or(model, "nova-3"),
            collaborator_url: string_or(collaborator_url, ""),
            collaborator_key: string_or(collaborator_key, ""),
            internal_key: string_or(internal_key, ""),
        }
    }

    /// The URL of the streaming endpoint.
    pub fn stream_url(&self) -> (r: String)
        ensures
            r@ == stream_url_of(*self),
    {
        proof {
            reveal_strlit("1");
            reveal_strlit("16000");
            assert(decimal(1) =~= "1"@);
            reveal_with_fuel(crate::inbound::digits_of, 6);
            assert(decimal(16000) =~= "16000"@);
        }
        let mut r = replace_scheme(self.service_url.as_str(), "wss://", "ws://");
        r.append("/ws?provider=");
        r.append(self.provider.as_str());
        r.append("&language=");
        r.append(self.language.as_str());
        r.append("&model=");
        r.append(self.model.as_str());
        r.append("&channels=");
        r.append("1");
        r.append("&sample_rate=");
        r.append("16000");
        r.append("&encoding=linear16");
        r
    }

    /// The `Host` of the streaming endpoint: the service URL without its scheme.
    pub fn host(&self) -> (r: String)
        ensures
            r@ == with_scheme(self.service_url@, ""@, ""@),
    {
        replace_scheme(self.service_url.as_str(), "", "")
    }

    /// The authorization header value for the transcription service.
    pub fn service_authorization(&self) -> (r: String)
        ensures
            r@ == "Bearer "@ + self.auth_token@,
    {
        let mut r = String::from_str("Bearer ");
        r.append(self.auth_token.as_str());
        r
    }

    /// The authorization header value for the analysis endpoint.
    pub fn collaborator_authorization(&self) -> (r: String)
        ensures
            r@ == "Bearer "@ + self.collaborator_key@,
    {
        let mut r = String::from_str("Bearer ");
        r.append(self.collaborator_key.as_str());
        r
    }

    /// The analysis endpoint that each final transcript chunk is posted to.
    pub fn analyze_url(&self) -> (r: String)
        ensures
            r@ == self.collaborator_url@ + "/functions/v1/analyze-chunk"@,
    {
        let mut r = String::from_str(self.collaborator_url.as_str());
        r.append("/functions/v1/analyze-chunk");
        r
    }
}

} // verus!
