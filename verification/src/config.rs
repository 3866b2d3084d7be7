//! Client configuration, with URL validation delegated to the `url`
//! crate.

use vstd::prelude::*;

use crate::error::OllamaError;

verus! {

/// What url::Url::parse yields on the given text, rendered back to URL
/// text; nothing where the text is not an acceptable URL. The outcome
/// is a function of the text alone.
pub uninterp spec fn parsed_url_of(s: Seq<char>) -> Option<Seq<char>>;

/// Relies on url::Url::parse, with the accepted URL rendered back to
/// text through url::Url's Display and the rejection rendered through
/// url::ParseError's Display.
#[verifier::external_body]
fn parse_url(s: &str) -> (r: Result<String, String>)
    ensures
        r matches Ok(u) ==> parsed_url_of(s@) == Some(u@),
        r is Err ==> parsed_url_of(s@) is None,
{
    match url::Url::parse(s) {
        Ok(u) => Ok(u.to_string()),
        Err(e) => Err(e.to_string()),
    }
}

/// What parsing `base` and joining `path` onto it yields, rendered back
/// to URL text; nothing where either step is rejected. The outcome is a
/// function of the two texts alone.
pub uninterp spec fn joined_url_of(base: Seq<char>, path: Seq<char>) -> Option<Seq<char>>;

/// Relies on url::Url::parse and url::Url::join, with the resulting URL
/// rendered back to text through url::Url's Display.
#[verifier::external_body]
fn join_url(base: &str, path: &str) -> (r: Result<String, String>)
    ensures
        r matches Ok(u) ==> joined_url_of(base@, path@) == Some(u@),
        r is Err ==> joined_url_of(base@, path@) is None,
{
    match url::Url::parse(base).and_then(|b| b.join(path)) {
        Ok(u) => Ok(u.to_string()),
        Err(e) => Err(e.to_string()),
    }
}

/// The view of a header list.
pub open spec fn header_pairs(h: Seq<(String, String)>) -> Seq<(Seq<char>, Seq<char>)> {
    h.map_values(|p: (String, String)| (p.0@, p.1@))
}

/// The position of the first pair carrying key `k` at or after `i`;
/// nothing where none follows.
pub open spec fn first_key_index(h: Seq<(Seq<char>, Seq<char>)>, k: Seq<char>, i: int) -> Option<
    int,
>
    decreases h.len() - i,
{
    if i < 0 || i >= h.len() {
        None
    } else if h[i].0 == k {
        Some(i)
    } else {
        first_key_index(h, k, i + 1)
    }
}

/// The header list with `(k, v)` inserted: the value of an existing
/// entry for `k` is overwritten in place, a new key is appended. Keys
/// set one at a time thus stay unique.
pub open spec fn upsert_header(
    h: Seq<(Seq<char>, Seq<char>)>,
    k: Seq<char>,
    v: Seq<char>,
) -> Seq<(Seq<char>, Seq<char>)> {
    match first_key_index(h, k, 0) {
        Some(i) => h.update(i, (k, v)),
        None => h.push((k, v)),
    }
}

/// Configuration for the client.
#[derive(Debug, Clone)]
pub struct ClientConfig {
    /// Base URL for the API, as normalized URL text.
    pub base_url: String,
    /// Request timeout in milliseconds.
    pub timeout: u64,
    /// User agent string.
    pub user_agent: String,
    /// Maximum number of retries for failed requests.
    pub max_retries: u32,
    /// Delay between retries in milliseconds.
    pub retry_delay: u64,
    /// Whether to follow HTTP redirects.
    pub follow_redirects: bool,
    /// Custom headers to include in requests, in insertion order.
    pub headers: Vec<(String, String)>,
}

/// Whether the fields other than the base URL hold their default
/// values.
pub open spec fn config_defaults_except_url(c: ClientConfig) -> bool {
    &&& c.timeout == 120000
    &&& c.user_agent@ == "ollama-rust-sdk/0.1.0"@
    &&& c.max_retries == 3
    &&& c.retry_delay == 1000
    &&& c.follow_redirects == true
    &&& c.headers@.len() == 0
}

impl Default for ClientConfig {
    /// The local service endpoint with a two-minute timeout.
    fn default() -> (r: Self)
        ensures
            r.base_url@ == "http://localhost:11434/"@,
            config_defaults_except_url(r),
    {
        ClientConfig {
            base_url: String::from_str("http://localhost:11434/"),
            timeout: 120000,
            user_agent: String::from_str("ollama-rust-sdk/0.1.0"),
            max_retries: 3,
            retry_delay: 1000,
            follow_redirects: true,
            headers: Vec::new(),
        }
    }
}

impl ClientConfig {
    /// A configuration for the given base URL with everything else at
    /// its default. Accepts exactly the texts that the URL parser
    /// accepts, and stores the URL normalized.
    pub fn new(base_url: &str) -> (r: Result<Self, OllamaError>)
        ensures
            match r {
                Ok(c) => parsed_url_of(base_url@) == Some(c.base_url@)
                    && config_defaults_except_url(c),
                Err(e) => parsed_url_of(base_url@) is None && e matches OllamaError::ConfigError(
                    _,
                ),
            },
    {
        match parse_url(base_url) {
            Ok(u) => {
                let mut c = ClientConfig::default();
                c.base_url = u;
                Ok(c)
            },
            Err(msg) => {
                let mut m = String::from_str("Invalid base URL: ");
                m.append(msg.as_str());
                Err(OllamaError::ConfigError(m))
            },
        }
    }

    /// A fresh configuration builder.
    pub fn builder() -> (r: ClientConfigBuilder)
        ensures
            r@ == empty_builder(),
    {
        ClientConfigBuilder::new()
    }

    /// The path with a leading slash supplied where it is missing.
    pub open spec fn rooted_path(path: Seq<char>) -> Seq<char> {
        if path.len() > 0 && path[0] == '/' {
            path
        } else {
            seq!['/'] + path
        }
    }

    /// The full URL text for an API endpoint: the path, given a leading
    /// slash where it has none, joined onto the base URL. Accepts
    /// exactly what the URL parser accepts of the combination.
    pub fn endpoint_url(&self, path: &str) -> (r: Result<String, OllamaError>)
        ensures
            match r {
                Ok(u) => joined_url_of(self.base_url@, Self::rooted_path(path@)) == Some(u@),
                Err(e) => joined_url_of(self.base_url@, Self::rooted_path(path@)) is None
                    && e matches OllamaError::ConfigError(_),
            },
    {
        let rooted: String = if !path.is_empty() && path.get_char(0) == '/' {
            String::from_str(path)
        } else {
            let mut s = String::from_str("/");
            s.append(path);
            proof {
                reveal_strlit("/");
                assert(s@ =~= Self::rooted_path(path@));
            }
            s
        };
        match join_url(self.base_url.as_str(), rooted.as_str()) {
            Ok(u) => Ok(u),
            Err(msg) => {
                let mut m = String::from_str("Invalid endpoint path: ");
                m.append(msg.as_str());
                Err(OllamaError::ConfigError(m))
            },
        }
    }
}

/// Ghost-level state of a [`ClientConfigBuilder`].
pub struct ClientConfigBuilderV {
    pub base_url: Option<Seq<char>>,
    pub timeout: Option<u64>,
    pub user_agent: Option<Seq<char>>,
    pub max_retries: Option<u32>,
    pub retry_delay: Option<u64>,
    pub follow_redirects: Option<bool>,
    pub headers: Seq<(Seq<char>, Seq<char>)>,
}

/// The state of a builder with nothing set.
pub open spec fn empty_builder() -> ClientConfigBuilderV {
    ClientConfigBuilderV {
        base_url: None,
        timeout: None,
        user_agent: None,
        max_retries: None,
        retry_delay: None,
        follow_redirects: None,
        headers: Seq::empty(),
    }
}

/// Builder for a [`ClientConfig`]: each setter records a choice, and
/// [`ClientConfigBuilder::build`] fills everything not chosen with its
/// default.
#[derive(Debug)]
pub struct ClientConfigBuilder {
    base_url: Option<String>,
    timeout: Option<u64>,
    user_agent: Option<String>,
    max_retries: Option<u32>,
    retry_delay: Option<u64>,
    follow_redirects: Option<bool>,
    headers: Vec<(String, String)>,
}

impl View for ClientConfigBuilder {
    type V = ClientConfigBuilderV;

    closed spec fn view(&self) -> ClientConfigBuilderV {
        ClientConfigBuilderV {
            base_url: match self.base_url {
                Some(ref s) => Some(s@),
                None => None,
            },
            timeout: self.timeout,
            user_agent: match self.user_agent {
                Some(ref s) => Some(s@),
                None => None,
            },
            max_retries: self.max_retries,
            retry_delay: self.retry_delay,
            follow_redirects: self.follow_redirects,
            headers: header_pairs(self.headers@),
        }
    }
}

/// The chosen value, or the default where none was chosen.
pub open spec fn chosen<T>(o: Option<T>, d: T) -> T {
    match o {
        Some(x) => x,
        None => d,
    }
}

impl ClientConfigBuilder {
    /// A builder with nothing set.
    pub fn new() -> (r: Self)
        ensures
            r@ == empty_builder(),
    {
        let r = ClientConfigBuilder {
            base_url: None,
            timeout: None,
            user_agent: None,
            max_retries: None,
            retry_delay: None,
            follow_redirects: None,
            headers: Vec::new(),
        };
        proof {
            assert(r@.headers =~= empty_builder().headers);
        }
        r
    }

    /// Sets the base URL for the API.
    pub fn base_url(self, url: &str) -> (r: Self)
        ensures
            r@ == (ClientConfigBuilderV { base_url: Some(url@), ..self@ }),
    {
        ClientConfigBuilder { base_url: Some(String::from_str(url)), ..self }
    }

    /// Sets the request timeout, in milliseconds.
    pub fn timeout(self, timeout: u64) -> (r: Self)
        ensures
            r@ == (ClientConfigBuilderV { timeout: Some(timeout), ..self@ }),
    {
        ClientConfigBuilder { timeout: Some(timeout), ..self }
    }

    /// Sets the user agent string.
    pub fn user_agent(self, user_agent: &str) -> (r: Self)
        ensures
            r@ == (ClientConfigBuilderV { user_agent: Some(user_agent@), ..self@ }),
    {
        ClientConfigBuilder { user_agent: Some(String::from_str(user_agent)), ..self }
    }

    /// Sets the maximum number of retries.
    pub fn max_retries(self, retries: u32) -> (r: Self)
        ensures
            r@ == (ClientConfigBuilderV { max_retries: Some(retries), ..self@ }),
    {
        ClientConfigBuilder { max_retries: Some(retries), ..self }
    }

    /// Sets the delay between retries, in milliseconds.
    pub fn retry_delay(self, delay: u64) -> (r: Self)
        ensures
            r@ == (ClientConfigBuilderV { retry_delay: Some(delay), ..self@ }),
    {
        ClientConfigBuilder { retry_delay: Some(delay), ..self }
    }

    /// Sets whether to follow HTTP redirects.
    pub fn follow_redirects(self, follow: bool) -> (r: Self)
        ensures
            r@ == (ClientConfigBuilderV { follow_redirects: Some(follow), ..self@ }),
    {
        ClientConfigBuilder { follow_redirects: Some(follow), ..self }
    }

    /// Adds a custom header, overwriting the value of an existing
    /// entry for the same key.
    #[verifier::loop_isolation(false)]
    pub fn header(self, key: &str, value: &str) -> (r: Self)
        ensures
            r@ == (ClientConfigBuilderV {
                headers: upsert_header(self@.headers, key@, value@),
                ..self@
            }),
    {
        let ghost pre_view = self@;
        let mut headers = self.headers;
        let ghost pre = header_pairs(headers@);
        proof {
            assert(pre == pre_view.headers);
        }
        let key_string = String::from_str(key);
        let value_string = String::from_str(value);
        let mut i: usize = 0;
        while i < headers.len()
            invariant
                0 <= i <= headers@.len(),
                header_pairs(headers@) == pre,
                first_key_index(pre, key@, 0) == first_key_index(pre, key@, i as int),
            decreases headers@.len() - i,
        {
            if headers[i].0 == key_string {
                proof {
                    assert(pre[i as int] == (headers@[i as int].0@, headers@[i as int].1@));
                    assert(pre[i as int].0 == key@);
                    assert(first_key_index(pre, key@, i as int) == Some(i as int));
                }
                headers.set(i, (key_string, value_string));
                proof {
                    assert(header_pairs(headers@) =~= pre.update(i as int, (key@, value@)));
                    assert(upsert_header(pre_view.headers, key@, value@) == pre.update(
                        i as int,
                        (key@, value@),
                    ));
                }
                let r = ClientConfigBuilder { headers, ..self };
                proof {
                    assert(r@ == (ClientConfigBuilderV {
                        headers: upsert_header(pre_view.headers, key@, value@),
                        ..pre_view
                    }));
                }
                return r;
            }
            proof {
                assert(pre[i as int] == (headers@[i as int].0@, headers@[i as int].1@));
                assert(pre[i as int].0 != key@);
            }
            i = i + 1;
        }
        headers.push((key_string, value_string));
        proof {
            assert(first_key_index(pre, key@, i as int) is None);
            assert(first_key_index(pre, key@, 0) is None);
            assert(header_pairs(headers@) =~= pre.push((key@, value@)));
        }
        let r = ClientConfigBuilder { headers, ..self };
        proof {
            assert(r@ == (ClientConfigBuilderV {
                headers: upsert_header(pre_view.headers, key@, value@),
                ..pre_view
            }));
        }
        r
    }

    /// Builds the configuration: the chosen base URL is parsed and
    /// stored normalized — a rejected URL fails the build — and every
    /// field not chosen falls back to its default.
    pub fn build(self) -> (r: Result<ClientConfig, OllamaError>)
        ensures
            match self@.base_url {
                None => r matches Ok(c) && c.base_url@ == "http://localhost:11434/"@
                    && Self::built_from(self@, c),
                Some(u) => match parsed_url_of(u) {
                    Some(n) => r matches Ok(c) && c.base_url@ == n && Self::built_from(self@, c),
                    None => r matches Err(e) && e matches OllamaError::ConfigError(_),
                },
            },
    {
        let base_url = match self.base_url {
            Some(url) => {
                match parse_url(url.as_str()) {
                    Ok(u) => u,
                    Err(msg) => {
                        let mut m = String::from_str("Invalid base URL: ");
                        m.append(msg.as_str());
                        return Err(OllamaError::ConfigError(m));
                    },
                }
            },
            None => String::from_str("http://localhost:11434/"),
        };
        let user_agent = match self.user_agent {
            Some(ua) => ua,
            None => String::from_str("ollama-rust-sdk/0.1.0"),
        };
        Ok(
            ClientConfig {
                base_url,
                timeout: match self.timeout {
                    Some(t) => t,
                    None => 120000,
                },
                user_agent,
                max_retries: match self.max_retries {
                    Some(m) => m,
                    None => 3,
                },
                retry_delay: match self.retry_delay {
                    Some(d) => d,
                    None => 1000,
                },
                follow_redirects: match self.follow_redirects {
                    Some(f) => f,
                    None => true,
                },
                headers: self.headers,
            },
        )
    }

    /// How a built configuration relates to the builder state, apart
    /// from the base URL.
    pub open spec fn built_from(b: ClientConfigBuilderV, c: ClientConfig) -> bool {
        &&& c.timeout == chosen(b.timeout, 120000u64)
        &&& c.user_agent@ == chosen(b.user_agent, "ollama-rust-sdk/0.1.0"@)
        &&& c.max_retries == chosen(b.max_retries, 3u32)
        &&& c.retry_delay == chosen(b.retry_delay, 1000u64)
        &&& c.follow_redirects == chosen(b.follow_redirects, true)
        &&& header_pairs(c.headers@) == b.headers
    }
}

} // verus!
