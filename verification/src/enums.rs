//! The closed string-keyed enumerations of the settings model.
//!
//! Each enumeration owns a canonical lowercase token for every variant
//! and a lenient decoder: an unrecognized token decodes to the type's
//! default variant instead of failing, which governs both persistence
//! and round-tripping through the form UI.

use vstd::prelude::*;

verus! {

broadcast use vstd::string::group_string_axioms;

/// String equality through the views of both sides.
pub(crate) fn str_eq(a: &str, b: &str) -> (r: bool)
    ensures
        r == (a@ == b@),
{
    let sa = a.to_owned();
    let sb = b.to_owned();
    sa == sb
}

// ── Split mode ──────────────────────────────────────────────────────

/// How model tensors are divided across several GPUs.
#[derive(Clone, Copy, Debug, PartialEq, Eq, Structural)]
pub enum SplitMode {
    NoSplit,
    Layer,
    Row,
}

/// Canonical token of a split mode.
pub open spec fn spec_split_mode_str(m: SplitMode) -> Seq<char> {
    match m {
        SplitMode::NoSplit => "none"@,
        SplitMode::Layer => "layer"@,
        SplitMode::Row => "row"@,
    }
}

/// Decoding of a split-mode token; anything unrecognized falls back to
/// the default, `Layer`.
pub open spec fn spec_split_mode_from(s: Seq<char>) -> SplitMode {
    if s == "none"@ {
        SplitMode::NoSplit
    } else if s == "row"@ {
        SplitMode::Row
    } else {
        SplitMode::Layer
    }
}

impl SplitMode {
    pub fn as_str(&self) -> (r: &str)
        ensures
            r@ == spec_split_mode_str(*self),
    {
        match self {
            SplitMode::NoSplit => "none",
            SplitMode::Layer => "layer",
            SplitMode::Row => "row",
        }
    }

    pub fn from_str(s: &str) -> (r: Self)
        ensures
            r == spec_split_mode_from(s@),
    {
        if str_eq(s, "none") {
            SplitMode::NoSplit
        } else if str_eq(s, "row") {
            SplitMode::Row
        } else {
            SplitMode::Layer
        }
    }
}

/// Decoding a variant's own token gives the variant back.
pub proof fn lemma_split_mode_round_trip(m: SplitMode)
    ensures
        spec_split_mode_from(spec_split_mode_str(m)) == m,
{
    reveal_strlit("none");
    reveal_strlit("layer");
    reveal_strlit("row");
    assert("none"@.len() == 4);
    assert("layer"@.len() == 5);
    assert("row"@.len() == 3);
}

// ── KV-cache quantization ───────────────────────────────────────────

/// Quantization applied to one half of the KV cache.
#[derive(Clone, Copy, Debug, PartialEq, Eq, Structural)]
pub enum CacheType {
    F16,
    Q8_0,
    Q4_0,
}

/// Canonical token of a cache type.
pub open spec fn spec_cache_type_str(t: CacheType) -> Seq<char> {
    match t {
        CacheType::F16 => "f16"@,
        CacheType::Q8_0 => "q8_0"@,
        CacheType::Q4_0 => "q4_0"@,
    }
}

/// Decoding of a cache-type token; anything unrecognized falls back to
/// the default, `F16`.
pub open spec fn spec_cache_type_from(s: Seq<char>) -> CacheType {
    if s == "q8_0"@ {
        CacheType::Q8_0
    } else if s == "q4_0"@ {
        CacheType::Q4_0
    } else {
        CacheType::F16
    }
}

impl CacheType {
    pub fn as_str(&self) -> (r: &str)
        ensures
            r@ == spec_cache_type_str(*self),
    {
        match self {
            CacheType::F16 => "f16",
            CacheType::Q8_0 => "q8_0",
            CacheType::Q4_0 => "q4_0",
        }
    }

    pub fn from_str(s: &str) -> (r: Self)
        ensures
            r == spec_cache_type_from(s@),
    {
        if str_eq(s, "q8_0") {
            CacheType::Q8_0
        } else if str_eq(s, "q4_0") {
            CacheType::Q4_0
        } else {
            CacheType::F16
        }
    }
}

/// Decoding a variant's own token gives the variant back.
pub proof fn lemma_cache_type_round_trip(t: CacheType)
    ensures
        spec_cache_type_from(spec_cache_type_str(t)) == t,
{
    reveal_strlit("f16");
    reveal_strlit("q8_0");
    reveal_strlit("q4_0");
    assert("f16"@.len() == 3);
    assert("q8_0"@.len() == 4);
    assert("q8_0"@[1] == '8');
    assert("q4_0"@[1] == '4');
}

// ── RoPE scaling ────────────────────────────────────────────────────

/// The RoPE context-extension method.
#[derive(Clone, Copy, Debug, PartialEq, Eq, Structural)]
pub enum RopeScaling {
    Disabled,
    Linear,
    Yarn,
}

/// Canonical token of a RoPE scaling mode.
pub open spec fn spec_rope_scaling_str(m: RopeScaling) -> Seq<char> {
    match m {
        RopeScaling::Disabled => "none"@,
        RopeScaling::Linear => "linear"@,
        RopeScaling::Yarn => "yarn"@,
    }
}

/// Decoding of a RoPE-scaling token; anything unrecognized falls back
/// to the default, `Disabled`.
pub open spec fn spec_rope_scaling_from(s: Seq<char>) -> RopeScaling {
    if s == "linear"@ {
        RopeScaling::Linear
    } else if s == "yarn"@ {
        RopeScaling::Yarn
    } else {
        RopeScaling::Disabled
    }
}

impl RopeScaling {
    pub fn as_str(&self) -> (r: &str)
        ensures
            r@ == spec_rope_scaling_str(*self),
    {
        match self {
            RopeScaling::Disabled => "none",
            RopeScaling::Linear => "linear",
            RopeScaling::Yarn => "yarn",
        }
    }

    pub fn from_str(s: &str) -> (r: Self)
        ensures
            r == spec_rope_scaling_from(s@),
    {
        if str_eq(s, "linear") {
            RopeScaling::Linear
        } else if str_eq(s, "yarn") {
            RopeScaling::Yarn
        } else {
            RopeScaling::Disabled
        }
    }
}

/// Decoding a variant's own token gives the variant back.
pub proof fn lemma_rope_scaling_round_trip(m: RopeScaling)
    ensures
        spec_rope_scaling_from(spec_rope_scaling_str(m)) == m,
{
    reveal_strlit("none");
    reveal_strlit("linear");
    reveal_strlit("yarn");
    assert("none"@.len() == 4);
    assert("linear"@.len() == 6);
    assert("none"@[0] == 'n');
    assert("yarn"@[0] == 'y');
}

// ── Log format ──────────────────────────────────────────────────────

/// The server's log output format.
#[derive(Clone, Copy, Debug, PartialEq, Eq, Structural)]
pub enum LogFormat {
    Text,
    Json,
}

/// Canonical token of a log format.
pub open spec fn spec_log_format_str(f: LogFormat) -> Seq<char> {
    match f {
        LogFormat::Text => "text"@,
        LogFormat::Json => "json"@,
    }
}

/// Decoding of a log-format token; anything unrecognized falls back to
/// the default, `Text`.
pub open spec fn spec_log_format_from(s: Seq<char>) -> LogFormat {
    if s == "json"@ {
        LogFormat::Json
    } else {
        LogFormat::Text
    }
}

impl LogFormat {
    pub fn as_str(&self) -> (r: &str)
        ensures
            r@ == spec_log_format_str(*self),
    {
        match self {
            LogFormat::Text => "text",
            LogFormat::Json => "json",
        }
    }

    pub fn from_str(s: &str) -> (r: Self)
        ensures
            r == spec_log_format_from(s@),
    {
        if str_eq(s, "json") {
            LogFormat::Json
        } else {
            LogFormat::Text
        }
    }
}

/// Decoding a variant's own token gives the variant back.
pub proof fn lemma_log_format_round_trip(f: LogFormat)
    ensures
        spec_log_format_from(spec_log_format_str(f)) == f,
{
    reveal_strlit("text");
    reveal_strlit("json");
    assert("text"@[0] == 't');
    assert("json"@[0] == 'j');
    assert("text"@.len() == 4);
    assert("json"@.len() == 4);
}

// ── Embedding pooling ───────────────────────────────────────────────

/// How token embeddings are pooled into one vector.
#[derive(Clone, Copy, Debug, PartialEq, Eq, Structural)]
pub enum PoolingType {
    NoPooling,
    Mean,
    Cls,
    Last,
}

/// Canonical token of a pooling type.
pub open spec fn spec_pooling_str(p: PoolingType) -> Seq<char> {
    match p {
        PoolingType::NoPooling => "none"@,
        PoolingType::Mean => "mean"@,
        PoolingType::Cls => "cls"@,
        PoolingType::Last => "last"@,
    }
}

/// Decoding of a pooling token; anything unrecognized falls back to the
/// default, `NoPooling`.
pub open spec fn spec_pooling_from(s: Seq<char>) -> PoolingType {
    if s == "mean"@ {
        PoolingType::Mean
    } else if s == "cls"@ {
        PoolingType::Cls
    } else if s == "last"@ {
        PoolingType::Last
    } else {
        PoolingType::NoPooling
    }
}

impl PoolingType {
    pub fn as_str(&self) -> (r: &str)
        ensures
            r@ == spec_pooling_str(*self),
    {
        match self {
            PoolingType::NoPooling => "none",
            PoolingType::Mean => "mean",
            PoolingType::Cls => "cls",
            PoolingType::Last => "last",
        }
    }

    pub fn from_str(s: &str) -> (r: Self)
        ensures
            r == spec_pooling_from(s@),
    {
        if str_eq(s, "mean") {
            PoolingType::Mean
        } else if str_eq(s, "cls") {
            PoolingType::Cls
        } else if str_eq(s, "last") {
            PoolingType::Last
        } else {
            PoolingType::NoPooling
        }
    }
}

/// Decoding a variant's own token gives the variant back.
pub proof fn lemma_pooling_round_trip(p: PoolingType)
    ensures
        spec_pooling_from(spec_pooling_str(p)) == p,
{
    reveal_strlit("none");
    reveal_strlit("mean");
    reveal_strlit("cls");
    reveal_strlit("last");
    assert("none"@.len() == 4);
    assert("mean"@.len() == 4);
    assert("cls"@.len() == 3);
    assert("last"@.len() == 4);
    assert("none"@[0] == 'n');
    assert("mean"@[0] == 'm');
    assert("last"@[0] == 'l');
}

} // verus!
