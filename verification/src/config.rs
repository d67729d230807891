use vstd::prelude::*;
use crate::models::Protocol;
use crate::text::chars_of;

verus! {

/// Where the fetcher keeps its data and which subgraphs it reads.
pub struct Config {
    pub db_path: String,
    pub ticks_db_path: String,
    pub url_uni_v3: String,
    pub url_aerodrome: String,
    pub url_uni_v2: String,
    pub url_uni_v4: String,
    pub url_pancake_v4: String,
}

/// A subgraph URL that the environment does not give.
#[derive(Debug, Clone, Copy, PartialEq, Eq, Structural)]
pub enum ConfigError {
    MissingUniV3Url,
    MissingAerodromeUrl,
    MissingUniV2Url,
    MissingUniV4Url,
    MissingPancakeV4Url,
}

impl ConfigError {
    /// The message with which loading the configuration stops.
    pub open spec fn text(self) -> Seq<char> {
        match self {
            ConfigError::MissingUniV3Url => "Missing URL_UNIV3_BASE in .env"@,
            ConfigError::MissingAerodromeUrl => "Missing URL_AERODROME_BASE in .env"@,
            ConfigError::MissingUniV2Url => "Missing URL_UNIV2_BASE in .env"@,
            ConfigError::MissingUniV4Url => "Missing URL_UNIV4_BASE in .env"@,
            ConfigError::MissingPancakeV4Url => "Missing URL_PANCAKE_V4_BASE in .env"@,
        }
    }

    /// The message with which loading the configuration stops.
    pub fn message(&self) -> (r: &'static str)
        ensures
            r@ == self.text(),
    {
        match self {
            ConfigError::MissingUniV3Url => "Missing URL_UNIV3_BASE in .env",
            ConfigError::MissingAerodromeUrl => "Missing URL_AERODROME_BASE in .env",
            ConfigError::MissingUniV2Url => "Missing URL_UNIV2_BASE in .env",
            ConfigError::MissingUniV4Url => "Missing URL_UNIV4_BASE in .env",
            ConfigError::MissingPancakeV4Url => "Missing URL_PANCAKE_V4_BASE in .env",
        }
    }
}

/// The text, or `default` where there is none.
pub open spec fn or_default(o: Option<String>, default: Seq<char>) -> Seq<char> {
    match o {
        Some(s) => s@,
        None => default,
    }
}

/// The first subgraph URL, in the order in which they are read, that is
/// missing.
pub open spec fn first_missing(
    uni_v3: Option<String>,
    aerodrome: Option<String>,
    uni_v2: Option<String>,
    uni_v4: Option<String>,
    pancake_v4: Option<String>,
) -> Option<ConfigError> {
    if uni_v3 is None {
        Some(ConfigError::MissingUniV3Url)
    } else if aerodrome is None {
        Some(ConfigError::MissingAerodromeUrl)
    } else if uni_v2 is None {
        Some(ConfigError::MissingUniV2Url)
    } else if uni_v4 is None {
        Some(ConfigError::MissingUniV4Url)
    } else if pancake_v4 is None {
        Some(ConfigError::MissingPancakeV4Url)
    } else {
        None
    }
}

/// Loading stops exactly when a subgraph URL is missing, and then on a
/// missing one: the first in the order Uniswap V3, Aerodrome, Uniswap V2,
/// Uniswap V4, PancakeSwap V4, every one before it being given.
pub proof fn lemma_missing_url_order(
    uni_v3: Option<String>,
    aerodrome: Option<String>,
    uni_v2: Option<String>,
    uni_v4: Option<String>,
    pancake_v4: Option<String>,
)
    ensures
        first_missing(uni_v3, aerodrome, uni_v2, uni_v4, pancake_v4) is None <==> (uni_v3 is Some
            && aerodrome is Some && uni_v2 is Some && uni_v4 is Some && pancake_v4 is Some),
        first_missing(uni_v3, aerodrome, uni_v2, uni_v4, pancake_v4) == Some(ConfigError::MissingUniV3Url)
            <==> uni_v3 is None,
        first_missing(uni_v3, aerodrome, uni_v2, uni_v4, pancake_v4) == Some(ConfigError::MissingAerodromeUrl)
            <==> (uni_v3 is Some && aerodrome is None),
        first_missing(uni_v3, aerodrome, uni_v2, uni_v4, pancake_v4) == Some(ConfigError::MissingUniV2Url)
            <==> (uni_v3 is Some && aerodrome is Some && uni_v2 is None),
        first_missing(uni_v3, aerodrome, uni_v2, uni_v4, pancake_v4) == Some(ConfigError::MissingUniV4Url)
            <==> (uni_v3 is Some && aerodrome is Some && uni_v2 is Some && uni_v4 is None),
        first_missing(uni_v3, aerodrome, uni_v2, uni_v4, pancake_v4) == Some(ConfigError::MissingPancakeV4Url)
            <==> (uni_v3 is Some && aerodrome is Some && uni_v2 is Some && uni_v4 is Some && pancake_v4 is None),
{
}

impl Config {
    /// Builds the configuration from the values of `DATABASE_URL`,
    /// `TICKS_DATABASE_URL`, `URL_UNIV3_BASE`, `URL_AERODROME_BASE`,
    /// `URL_UNIV2_BASE`, `URL_UNIV4_BASE` and `URL_PANCAKE_V4_BASE` (`None`
    /// where a variable is unset): the database paths default to `pools.db`
    /// and `ticks.db`; every URL is required.
    pub fn from_values(
        db_path: Option<String>,
        ticks_db_path: Option<String>,
        url_uni_v3: Option<String>,
        url_aerodrome: Option<String>,
        url_uni_v2: Option<String>,
        url_uni_v4: Option<String>,
        url_pancake_v4: Option<String>,
    ) -> (r: Result<Config, ConfigError>)
        ensures
            match first_missing(url_uni_v3, url_aerodrome, url_uni_v2, url_uni_v4, url_pancake_v4) {
                Some(e) => r == Err::<Config, ConfigError>(e),
                None => r matches Ok(c) && {
                    &&& c.db_path@ == or_default(db_path, "pools.db"@)
                    &&& c.ticks_db_path@ == or_default(ticks_db_path, "ticks.db"@)
                    &&& c.url_uni_v3@ == url_uni_v3->0@
                    &&& c.url_aerodrome@ == url_aerodrome->0@
                    &&& c.url_uni_v2@ == url_uni_v2->0@
                    &&& c.url_uni_v4@ == url_uni_v4->0@
                    &&& c.url_pancake_v4@ == url_pancake_v4->0@
                },
            },
    {
        let db_path = match db_path {
            Some(p) => p,
            None => String::from_str("pools.db"),
        };
        let ticks_db_path = match ticks_db_path {
            Some(p) => p,
            None => String::from_str("ticks.db"),
        };
        let url_uni_v3 = match url_uni_v3 {
            Some(u) => u,
            None => return Err(ConfigError::MissingUniV3Url),
        };
        let url_aerodrome = match url_aerodrome {
            Some(u) => u,
            None => return Err(ConfigError::MissingAerodromeUrl),
        };
        let url_uni_v2 = match url_uni_v2 {
            Some(u) => u,
            None => return Err(ConfigError::MissingUniV2Url),
        };
        let url_uni_v4 = match url_uni_v4 {
            Some(u) => u,
            None => return Err(ConfigError::MissingUniV4Url),
        };
        let url_pancake_v4 = match url_pancake_v4 {
            Some(u) => u,
            None => return Err(ConfigError::MissingPancakeV4Url),
        };
        Ok(Config {
            db_path,
            ticks_db_path,
            url_uni_v3,
            url_aerodrome,
            url_uni_v2,
            url_uni_v4,
            url_pancake_v4,
        })
    }

    /// The first subgraph URL, in the order in which they are read, that is
    /// missing: loading a configuration stops on it.
    pub fn missing_url(
        url_uni_v3: &Option<String>,
        url_aerodrome: &Option<String>,
        url_uni_v2: &Option<String>,
        url_uni_v4: &Option<String>,
        url_pancake_v4: &Option<String>,
    ) -> (r: Option<ConfigError>)
        ensures
            r == first_missing(*url_uni_v3, *url_aerodrome, *url_uni_v2, *url_uni_v4, *url_pancake_v4),
    {
        if url_uni_v3.is_none() {
            Some(ConfigError::MissingUniV3Url)
        } else if url_aerodrome.is_none() {
            Some(ConfigError::MissingAerodromeUrl)
        } else if url_uni_v2.is_none() {
            Some(ConfigError::MissingUniV2Url)
        } else if url_uni_v4.is_none() {
            Some(ConfigError::MissingUniV4Url)
        } else if url_pancake_v4.is_none() {
            Some(ConfigError::MissingPancakeV4Url)
        } else {
            None
        }
    }

    /// Loads the configuration from the values of the environment variables
    /// (as for [`Config::from_values`]) where every subgraph URL is given;
    /// loading stops (with the message of [`Config::missing_url`]) where one
    /// is not, so those inputs are left out.
    pub fn load_values(
        db_path: Option<String>,
        ticks_db_path: Option<String>,
        url_uni_v3: Option<String>,
        url_aerodrome: Option<String>,
        url_uni_v2: Option<String>,
        url_uni_v4: Option<String>,
        url_pancake_v4: Option<String>,
    ) -> (c: Config)
        requires
            first_missing(url_uni_v3, url_aerodrome, url_uni_v2, url_uni_v4, url_pancake_v4) is None,
        ensures
            c.db_path@ == or_default(db_path, "pools.db"@),
            c.ticks_db_path@ == or_default(ticks_db_path, "ticks.db"@),
            c.url_uni_v3@ == url_uni_v3->0@,
            c.url_aerodrome@ == url_aerodrome->0@,
            c.url_uni_v2@ == url_uni_v2->0@,
            c.url_uni_v4@ == url_uni_v4->0@,
            c.url_pancake_v4@ == url_pancake_v4->0@,
    {
        let ghost (u3, ua, u2, u4, up) = (url_uni_v3, url_aerodrome, url_uni_v2, url_uni_v4, url_pancake_v4);
        match Config::from_values(
            db_path,
            ticks_db_path,
            url_uni_v3,
            url_aerodrome,
            url_uni_v2,
            url_uni_v4,
            url_pancake_v4,
        ) {
            Ok(c) => c,
            Err(_) => {
                proof {
                    assert(first_missing(u3, ua, u2, u4, up) is None);
                    assert(false);
                }
                Config {
                    db_path: String::new(),
                    ticks_db_path: String::new(),
                    url_uni_v3: String::new(),
                    url_aerodrome: String::new(),
                    url_uni_v2: String::new(),
                    url_uni_v4: String::new(),
                    url_pancake_v4: String::new(),
                }
            },
        }
    }

    /// The subgraph URL of a protocol.
    pub open spec fn url_of(&self, protocol: Protocol) -> Seq<char> {
        match protocol {
            Protocol::UniV3 => self.url_uni_v3@,
            Protocol::AerodromeV3 => self.url_aerodrome@,
            Protocol::UniV2 => self.url_uni_v2@,
            Protocol::UniV4 => self.url_uni_v4@,
            Protocol::PancakeV4 => self.url_pancake_v4@,
        }
    }

    /// The subgraph URL of a protocol.
    pub fn url_for(&self, protocol: Protocol) -> (r: &str)
        ensures
            r@ == self.url_of(protocol),
    {
        match protocol {
            Protocol::UniV3 => self.url_uni_v3.as_str(),
            Protocol::AerodromeV3 => self.url_aerodrome.as_str(),
            Protocol::UniV2 => self.url_uni_v2.as_str(),
            Protocol::UniV4 => self.url_uni_v4.as_str(),
            Protocol::PancakeV4 => self.url_pancake_v4.as_str(),
        }
    }
}

/// The proxy URL for a proxy address: the address itself where it starts
/// with `http`, else the address after `http://`.
pub open spec fn proxy_url_text(addr: Seq<char>) -> Seq<char> {
    if addr.len() >= 4 && addr.take(4) == seq!['h', 't', 't', 'p'] {
        addr
    } else {
        seq!['h', 't', 't', 'p', ':', '/', '/'] + addr
    }
}

/// Whether a text begins with the characters `h`, `t`, `t`, `p`.
pub open spec fn has_http_start(addr: Seq<char>) -> bool {
    &&& addr.len() >= 4
    &&& addr[0] == 'h'
    &&& addr[1] == 't'
    &&& addr[2] == 't'
    &&& addr[3] == 'p'
}

/// A proxy address is kept as it is exactly when it begins with `http`;
/// any other address gets `http://` put in front of it.
pub proof fn lemma_proxy_url_scheme(addr: Seq<char>)
    ensures
        has_http_start(addr) ==> proxy_url_text(addr) == addr,
        !has_http_start(addr) ==> proxy_url_text(addr) == seq!['h', 't', 't', 'p', ':', '/', '/'] + addr,
        proxy_url_text(addr) == addr <==> has_http_start(addr),
{
    if has_http_start(addr) {
        assert(addr.take(4) =~= seq!['h', 't', 't', 'p']);
    } else {
        if addr.len() >= 4 && addr.take(4) == seq!['h', 't', 't', 'p'] {
            assert(addr[0] == addr.take(4)[0]);
            assert(addr[1] == addr.take(4)[1]);
            assert(addr[2] == addr.take(4)[2]);
            assert(addr[3] == addr.take(4)[3]);
        }
        assert((seq!['h', 't', 't', 'p', ':', '/', '/'] + addr).len() != addr.len());
    }
}

/// The proxy URL for a proxy address taken from the environment.
pub fn proxy_url(addr: String) -> (r: String)
    ensures
        r@ == proxy_url_text(addr@),
        has_http_start(addr@) ==> r@ == addr@,
        !has_http_start(addr@) ==> r@ == seq!['h', 't', 't', 'p', ':', '/', '/'] + addr@,
{
    proof {
        lemma_proxy_url_scheme(addr@);
    }
    let cs = chars_of(addr.as_str());
    if cs.len() >= 4 && cs[0] == 'h' && cs[1] == 't' && cs[2] == 't' && cs[3] == 'p' {
        assert(cs@.take(4) =~= seq!['h', 't', 't', 'p']);
        addr
    } else {
        let mut out = String::new();
        crate::text::push_char(&mut out, 'h');
        crate::text::push_char(&mut out, 't');
        crate::text::push_char(&mut out, 't');
        crate::text::push_char(&mut out, 'p');
        crate::text::push_char(&mut out, ':');
        crate::text::push_char(&mut out, '/');
        crate::text::push_char(&mut out, '/');
        out.append(addr.as_str());
        proof {
            if cs@.len() >= 4 && cs@.take(4) == seq!['h', 't', 't', 'p'] {
                assert(cs@[0] == cs@.take(4)[0]);
                assert(cs@[1] == cs@.take(4)[1]);
                assert(cs@[2] == cs@.take(4)[2]);
                assert(cs@[3] == cs@.take(4)[3]);
            }
        }
        assert(out@ =~= proxy_url_text(addr@));
        out
    }
}

} // verus!
