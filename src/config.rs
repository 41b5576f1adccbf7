//! Validated configuration, built fresh from raw key/value entries.
use vstd::prelude::*;
use crate::pattern::{PathPattern, glob_compiles, pattern_texts};
use crate::text::{
    parse_i32, parse_usize, signed_literal, split_on, split_text, trim_text, trimmed, unsigned_literal,
    upper_of, uppercase,
};

verus! {

/// The body size limit used when none is configured: 1 MiB.
pub const DEFAULT_MAX_POST_SIZE: usize = 1048576;

/// The raw configuration entries, each as read from the key/value store.
pub struct RawConfig {
    pub method: Option<String>,
    pub sitekey: Option<String>,
    pub secret_key: Option<String>,
    pub protected_paths: Option<String>,
    pub shared_secret: Option<String>,
    pub keep_hcaptcha_response_header: Option<String>,
    pub use_post_body_field: Option<String>,
    pub max_post_size: Option<String>,
}

#[derive(Debug, Clone, Copy, PartialEq, Eq, Structural)]
pub enum ConfigError {
    /// `sitekey` or `secret_key` is absent or empty, or no protected path pattern remains.
    MissingRequired,
    /// A numeric entry is present but is not a number of its type.
    Malformed,
}

/// A validated configuration snapshot.
pub struct Configuration {
    /// The protected path patterns, in configured order.
    pub protected_paths: Vec<PathPattern>,
    /// The one method under protection, upper-cased.
    pub method: String,
    pub sitekey: String,
    pub secret_key: String,
    /// Sent to the origin after a successful verification, when set.
    pub shared_secret: Option<String>,
    /// Non-zero keeps the inbound token header on forwarded requests.
    pub keep_hcaptcha_response_header: i32,
    /// When set, the token is read from this field of a JSON request body.
    pub use_post_body_field: Option<String>,
    /// Bodies whose declared length reaches this bound are refused unread.
    pub max_post_size: usize,
}

impl Configuration {
    pub open spec fn wf(&self) -> bool {
        &&& self.sitekey@.len() > 0
        &&& self.secret_key@.len() > 0
        &&& self.protected_paths@.len() > 0
    }
}

/// The comma-separated pieces that remain as patterns: trimmed, non-empty, and
/// accepted by the glob syntax, in order.
pub open spec fn kept_patterns(pieces: Seq<Seq<char>>) -> Seq<Seq<char>>
    decreases pieces.len(),
{
    if pieces.len() == 0 {
        Seq::empty()
    } else {
        let prev = kept_patterns(pieces.drop_last());
        let t = trimmed(pieces.last());
        if t.len() > 0 && glob_compiles(t) {
            prev.push(t)
        } else {
            prev
        }
    }
}

/// The pattern texts kept from a raw `protected_paths` entry.
pub open spec fn protected_texts(entry: Seq<char>) -> Seq<Seq<char>> {
    kept_patterns(split_on(entry, ','))
}

/// Whether an entry is present and non-empty.
pub open spec fn present(e: Option<String>) -> bool {
    e is Some && e->Some_0@.len() > 0
}

/// Whether a required entry is missing.
pub open spec fn config_missing(raw: RawConfig) -> bool {
    ||| !present(raw.sitekey)
    ||| !present(raw.secret_key)
    ||| raw.protected_paths is None
    ||| protected_texts(raw.protected_paths->Some_0@).len() == 0
}

/// Whether the keep-header entry is present and not an `i32`.
pub open spec fn keep_malformed(e: Option<String>) -> bool {
    e is Some && !(signed_literal(e->Some_0@) is Some && i32::MIN <= signed_literal(
        e->Some_0@,
    )->Some_0 <= i32::MAX)
}

/// Whether the body-size entry is present and not a `usize`.
pub open spec fn size_malformed(e: Option<String>) -> bool {
    e is Some && !(unsigned_literal(e->Some_0@) is Some && unsigned_literal(e->Some_0@)->Some_0
        <= usize::MAX)
}

/// Whether a numeric entry is malformed.
pub open spec fn config_malformed(raw: RawConfig) -> bool {
    keep_malformed(raw.keep_hcaptcha_response_header) || size_malformed(raw.max_post_size)
}

/// The configured method: the entry upper-cased, `POST` by default.
pub open spec fn method_of(e: Option<String>) -> Seq<char> {
    match e {
        Some(m) => upper_of(m@),
        None => "POST"@,
    }
}

/// The keep-header flag: the entry's value, 0 by default.
pub open spec fn keep_of(e: Option<String>) -> int {
    match e {
        Some(k) => signed_literal(k@)->Some_0,
        None => 0,
    }
}

/// The body size limit: the entry's value, 1 MiB by default.
pub open spec fn size_of(e: Option<String>) -> int {
    match e {
        Some(k) => unsigned_literal(k@)->Some_0 as int,
        None => DEFAULT_MAX_POST_SIZE as int,
    }
}

proof fn lemma_split_pieces(pieces: Seq<String>, k: int)
    requires
        0 <= k < pieces.len(),
    ensures
        pieces.map_values(|p: String| p@).take(k + 1).drop_last() =~= pieces.map_values(
            |p: String| p@,
        ).take(k),
        pieces.map_values(|p: String| p@).take(k + 1).last() == pieces[k]@,
{
}

/// Compiles the patterns of a raw `protected_paths` entry: each comma-separated
/// piece is trimmed, and empty pieces and pieces that are not valid patterns are
/// left out.
pub fn compile_patterns(entry: &str) -> (r: Vec<PathPattern>)
    ensures
        pattern_texts(r@) == protected_texts(entry@),
{
    let pieces = split_text(entry, ',');
    let ghost views = pieces@.map_values(|p: String| p@);
    let mut out: Vec<PathPattern> = Vec::new();
    let mut i: usize = 0;
    while i < pieces.len()
        invariant
            i <= pieces@.len(),
            views == pieces@.map_values(|p: String| p@),
            pattern_texts(out@) == kept_patterns(views.take(i as int)),
        decreases pieces.len() - i,
    {
        proof {
            lemma_split_pieces(pieces@, i as int);
        }
        let t = trim_text(pieces[i].as_str());
        let ghost before = out@;
        if t.unicode_len() > 0 {
            match PathPattern::new(t.as_str()) {
                Some(p) => {
                    out.push(p);
                    assert(pattern_texts(out@) =~= pattern_texts(before).push(t@));
                },
                None => {},
            }
        }
        i = i + 1;
    }
    assert(views.take(i as int) =~= views);
    out
}

/// Whether `r` is what validating `raw` gives: `MissingRequired` when a
/// required entry is missing, else `Malformed` when a numeric entry is not a
/// number, else a well-formed configuration made of the entries and their defaults.
pub open spec fn config_loaded(raw: RawConfig, r: Result<Configuration, ConfigError>) -> bool {
    &&& config_missing(raw) ==> r == Err::<Configuration, ConfigError>(ConfigError::MissingRequired)
    &&& !config_missing(raw) && config_malformed(raw) ==> r == Err::<Configuration, ConfigError>(
        ConfigError::Malformed,
    )
    &&& !config_missing(raw) && !config_malformed(raw) ==> r is Ok
    &&& r matches Ok(c) ==> {
        &&& c.wf()
        &&& c.method@ == method_of(raw.method)
        &&& c.sitekey == raw.sitekey->Some_0
        &&& c.secret_key == raw.secret_key->Some_0
        &&& pattern_texts(c.protected_paths@) == protected_texts(raw.protected_paths->Some_0@)
        &&& c.shared_secret == raw.shared_secret
        &&& c.keep_hcaptcha_response_header == keep_of(raw.keep_hcaptcha_response_header)
        &&& c.use_post_body_field == raw.use_post_body_field
        &&& c.max_post_size == size_of(raw.max_post_size)
    }
}

/// Validates raw configuration entries.
///
/// Fails with `MissingRequired` when `sitekey` or `secret_key` is absent or
/// empty, or when no protected path pattern remains; otherwise with `Malformed`
/// when a numeric entry is not a number.
pub fn load_config(raw: RawConfig) -> (r: Result<Configuration, ConfigError>)
    ensures
        config_loaded(raw, r),
{
    let RawConfig {
        method,
        sitekey,
        secret_key,
        protected_paths,
        shared_secret,
        keep_hcaptcha_response_header,
        use_post_body_field,
        max_post_size,
    } = raw;
    let sitekey = match sitekey {
        Some(s) => s,
        None => return Err(ConfigError::MissingRequired),
    };
    if sitekey.as_str().unicode_len() == 0 {
        return Err(ConfigError::MissingRequired);
    }
    let secret_key = match secret_key {
        Some(s) => s,
        None => return Err(ConfigError::MissingRequired),
    };
    if secret_key.as_str().unicode_len() == 0 {
        return Err(ConfigError::MissingRequired);
    }
    let paths = match &protected_paths {
        Some(p) => compile_patterns(p.as_str()),
        None => return Err(ConfigError::MissingRequired),
    };
    if paths.len() == 0 {
        return Err(ConfigError::MissingRequired);
    }
    let keep: i32 = match &keep_hcaptcha_response_header {
        Some(k) => match parse_i32(k.as_str()) {
            Some(v) => v,
            None => return Err(ConfigError::Malformed),
        },
        None => 0,
    };
    let max: usize = match &max_post_size {
        Some(k) => match parse_usize(k.as_str()) {
            Some(v) => v,
            None => return Err(ConfigError::Malformed),
        },
        None => DEFAULT_MAX_POST_SIZE,
    };
    let method = match &method {
        Some(m) => uppercase(m.as_str()),
        None => "POST".to_owned(),
    };
    Ok(
        Configuration {
            protected_paths: paths,
            method,
            sitekey,
            secret_key,
            shared_secret,
            keep_hcaptcha_response_header: keep,
            use_post_body_field,
            max_post_size: max,
        },
    )
}

} // verus!
