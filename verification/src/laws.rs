//! The laws of the argument compiler: determinism, coverage of the
//! default configuration, and the omission law — a flag token stands in
//! the compiled vector if and only if its field's emission condition
//! holds, and a value-carrying flag is always followed by its correctly
//! formatted value.

use vstd::prelude::*;
use crate::args::{
    spec_args,
    spec_sampling_core_args,
    spec_sampling_tuning_args,
    spec_rope_base_args,
    spec_model_args,
    spec_server_args,
    spec_context_args,
    spec_gpu_args,
    spec_gpu_offload_args,
    spec_gpu_memory_args,
    spec_perf_args,
    spec_sampling_args,
    spec_rope_args,
    spec_yarn_args,
    spec_lora_entry,
    spec_lora_prefix,
    spec_lora_args,
    spec_draft_args,
    spec_api_args,
    spec_embedding_args,
    spec_logging_args,
};
use crate::enums::{SplitMode, CacheType, RopeScaling, LogFormat, PoolingType};
use crate::enums::{
    spec_split_mode_str,
    spec_cache_type_str,
    spec_rope_scaling_str,
    spec_log_format_str,
    spec_pooling_str,
};
use crate::fixed::{spec_fixed2, spec_trim2, lemma_fixed2_shape, lemma_trim2_shape};
use crate::numfmt::{spec_udec, spec_idec, is_digit, lemma_udec_digits, lemma_idec_shape};
use crate::settings::{LoraAdapter, ServerConfig, is_default};

verus! {

broadcast use vstd::seq_lib::group_seq_lib_default,
    vstd::seq_lib::lemma_seq_concat_contains_all_elements,
    vstd::seq_lib::lemma_seq_empty_contains_nothing;

// ── Determinism ─────────────────────────────────────────────────────

/// Compiling equal settings values yields identical argument vectors:
/// the compiler reads nothing but its input.
pub proof fn lemma_compile_deterministic(c1: ServerConfig, c2: ServerConfig)
    requires
        c1 == c2,
    ensures
        spec_args(c1) == spec_args(c2),
{
}

// ── Default coverage ────────────────────────────────────────────────

/// The default-constructed aggregate compiles to a non-empty vector
/// that carries at least the host, port, context size, batch size,
/// micro-batch size and the explicit flash-attention token.
pub proof fn lemma_default_args_cover(c: ServerConfig)
    requires
        is_default(c),
    ensures
        spec_args(c).len() > 0,
        spec_args(c).contains("--host"@),
        spec_args(c).contains("--port"@),
        spec_args(c).contains("-c"@),
        spec_args(c).contains("-b"@),
        spec_args(c).contains("-ub"@),
        spec_args(c).contains("-fa"@),
{
    assert(spec_server_args(c)[0] == "--host"@);
    assert(spec_server_args(c).contains("--host"@));
    assert(spec_server_args(c)[2] == "--port"@);
    assert(spec_server_args(c).contains("--port"@));
    assert(spec_context_args(c)[0] == "-c"@);
    assert(spec_context_args(c).contains("-c"@));
    assert(spec_context_args(c)[2] == "-b"@);
    assert(spec_context_args(c).contains("-b"@));
    assert(spec_context_args(c)[4] == "-ub"@);
    assert(spec_context_args(c).contains("-ub"@));
    assert(spec_perf_args(c)[0] == "-fa"@);
    assert(spec_perf_args(c).contains("-fa"@));
}

// ── Flag-value adjacency ────────────────────────────────────────────

/// Whether the token sequence holds `f` immediately followed by `v`.
pub open spec fn has_pair(s: Seq<Seq<char>>, f: Seq<char>, v: Seq<char>) -> bool {
    exists|i: int| #![trigger s[i]] 0 <= i && i + 1 < s.len() && s[i] == f && s[i + 1] == v
}

/// A pair stands in a concatenation exactly when it stands in one of
/// the parts or straddles the boundary.
pub broadcast proof fn lemma_has_pair_concat(
    x: Seq<Seq<char>>,
    y: Seq<Seq<char>>,
    f: Seq<char>,
    v: Seq<char>,
)
    ensures
        #[trigger] has_pair(x + y, f, v) <==> has_pair(x, f, v) || has_pair(y, f, v) || (x.len()
            >= 1 && y.len() >= 1 && x.last() == f && y[0] == v),
{
    let s = x + y;
    let n = x.len() as int;
    if has_pair(x, f, v) {
        let i = choose|i: int| #![trigger x[i]] 0 <= i && i + 1 < x.len() && x[i] == f && x[i + 1] == v;
        assert(s[i] == f && s[i + 1] == v);
    }
    if has_pair(y, f, v) {
        let i = choose|i: int| #![trigger y[i]] 0 <= i && i + 1 < y.len() && y[i] == f && y[i + 1] == v;
        assert(s[n + i] == f && s[n + i + 1] == v);
    }
    if x.len() >= 1 && y.len() >= 1 && x.last() == f && y[0] == v {
        assert(s[n - 1] == f && s[n] == v);
    }
    if has_pair(s, f, v) {
        let i = choose|i: int| #![trigger s[i]] 0 <= i && i + 1 < s.len() && s[i] == f && s[i + 1] == v;
        if i + 1 < n {
            assert(x[i] == f && x[i + 1] == v);
        } else if i >= n {
            assert(y[i - n] == f && y[i - n + 1] == v);
        } else {
            assert(x.last() == f && y[0] == v);
        }
    }
}

/// A bare two-token pair holds its own flag and value adjacently.
proof fn lemma_pair_unit(f: Seq<char>, v: Seq<char>)
    ensures
        has_pair(seq![f, v], f, v),
{
    let s = seq![f, v];
    assert(s[0] == f && s[1] == v);
}

/// A three-token segment holds its first two tokens adjacently, and its
/// last two as well.
proof fn lemma_pair_head3(f: Seq<char>, v: Seq<char>, w: Seq<char>)
    ensures
        has_pair(seq![f, v, w], f, v),
        has_pair(seq![f, v, w], v, w),
{
    let s = seq![f, v, w];
    assert(s[0] == f && s[1] == v && s[2] == w);
}

// ── Value emission: every value-carrying flag is followed by its
// correctly formatted value whenever its emission condition holds ────

/// Model-source fields: each non-empty string field puts its flag and
/// its verbatim value adjacently into the compiled vector.
#[verifier::rlimit(100)]
pub proof fn lemma_model_value_emission(c: ServerConfig)
    ensures
        c.model_path@.len() > 0 ==> has_pair(spec_args(c), "-m"@, c.model_path@),
        c.model_dir@.len() > 0 ==> has_pair(spec_args(c), "--models-dir"@, c.model_dir@),
        c.model_alias@.len() > 0 ==> has_pair(spec_args(c), "-a"@, c.model_alias@),
        c.model_url@.len() > 0 ==> has_pair(spec_args(c), "-mu"@, c.model_url@),
        c.hf_repo@.len() > 0 ==> has_pair(spec_args(c), "-hfr"@, c.hf_repo@),
        c.hf_file@.len() > 0 ==> has_pair(spec_args(c), "-hff"@, c.hf_file@),
        c.hf_token@.len() > 0 ==> has_pair(spec_args(c), "-hft"@, c.hf_token@),
        c.chat_template@.len() > 0 ==> has_pair(spec_args(c), "--chat-template"@, c.chat_template@),
        c.system_prompt@.len() > 0 ==> has_pair(spec_args(c), "-sp"@, c.system_prompt@),
{
    broadcast use lemma_has_pair_concat;

    if c.model_path@.len() > 0 {
        lemma_pair_unit("-m"@, c.model_path@);
        assert(has_pair(spec_model_args(c), "-m"@, c.model_path@));
    }
    if c.model_dir@.len() > 0 {
        lemma_pair_unit("--models-dir"@, c.model_dir@);
    }
    if c.model_alias@.len() > 0 {
        lemma_pair_unit("-a"@, c.model_alias@);
    }
    if c.model_url@.len() > 0 {
        lemma_pair_unit("-mu"@, c.model_url@);
    }
    if c.hf_repo@.len() > 0 {
        lemma_pair_unit("-hfr"@, c.hf_repo@);
    }
    if c.hf_file@.len() > 0 {
        lemma_pair_unit("-hff"@, c.hf_file@);
    }
    if c.hf_token@.len() > 0 {
        lemma_pair_unit("-hft"@, c.hf_token@);
    }
    if c.chat_template@.len() > 0 {
        lemma_pair_unit("--chat-template"@, c.chat_template@);
    }
    if c.system_prompt@.len() > 0 {
        lemma_pair_unit("-sp"@, c.system_prompt@);
        assert(has_pair(spec_model_args(c), "-sp"@, c.system_prompt@));
    }
}

/// Network fields: host and port always stand in the vector with their
/// values; timeout and HTTP threads do when positive.
pub proof fn lemma_server_value_emission(c: ServerConfig)
    ensures
        has_pair(spec_args(c), "--host"@, c.host@),
        has_pair(spec_args(c), "--port"@, spec_udec(c.port as nat)),
        c.timeout > 0 ==> has_pair(spec_args(c), "--timeout"@, spec_udec(c.timeout as nat)),
        c.threads_http > 0 ==> has_pair(
            spec_args(c),
            "--threads-http"@,
            spec_udec(c.threads_http as nat),
        ),
{
    broadcast use lemma_has_pair_concat;

    lemma_pair_unit("--host"@, c.host@);
    lemma_pair_unit("--port"@, spec_udec(c.port as nat));
    if c.timeout > 0 {
        lemma_pair_unit("--timeout"@, spec_udec(c.timeout as nat));
    }
    if c.threads_http > 0 {
        lemma_pair_unit("--threads-http"@, spec_udec(c.threads_http as nat));
    }
}

/// Context fields: the three sizes always stand with their values; the
/// prediction limit and parallelism when away from their sentinels.
pub proof fn lemma_context_value_emission(c: ServerConfig)
    ensures
        has_pair(spec_args(c), "-c"@, spec_udec(c.ctx_size as nat)),
        has_pair(spec_args(c), "-b"@, spec_udec(c.batch_size as nat)),
        has_pair(spec_args(c), "-ub"@, spec_udec(c.ubatch_size as nat)),
        c.predict != -1 ==> has_pair(spec_args(c), "-n"@, spec_idec(c.predict as int)),
        c.parallel > 1 ==> has_pair(spec_args(c), "-np"@, spec_udec(c.parallel as nat)),
{
    broadcast use lemma_has_pair_concat;

    lemma_pair_unit("-c"@, spec_udec(c.ctx_size as nat));
    lemma_pair_unit("-b"@, spec_udec(c.batch_size as nat));
    lemma_pair_unit("-ub"@, spec_udec(c.ubatch_size as nat));
    if c.predict != -1 {
        lemma_pair_unit("-n"@, spec_idec(c.predict as int));
    }
    if c.parallel > 1 {
        lemma_pair_unit("-np"@, spec_udec(c.parallel as nat));
    }
}

/// GPU fields: each value-carrying flag of the group stands with its
/// value under its emission condition, auto-fit with its literal `on`.
#[verifier::rlimit(100)]
pub proof fn lemma_gpu_value_emission(c: ServerConfig)
    ensures
        c.gpu_layers != 0 ==> has_pair(spec_args(c), "-ngl"@, spec_idec(c.gpu_layers as int)),
        c.split_mode != SplitMode::Layer ==> has_pair(
            spec_args(c),
            "-sm"@,
            spec_split_mode_str(c.split_mode),
        ),
        c.tensor_split@.len() > 0 ==> has_pair(spec_args(c), "-ts"@, c.tensor_split@),
        c.main_gpu > 0 ==> has_pair(spec_args(c), "-mg"@, spec_udec(c.main_gpu as nat)),
        c.fit ==> has_pair(spec_args(c), "--fit"@, "on"@),
        c.cache_type_k != CacheType::F16 ==> has_pair(
            spec_args(c),
            "-ctk"@,
            spec_cache_type_str(c.cache_type_k),
        ),
        c.cache_type_v != CacheType::F16 ==> has_pair(
            spec_args(c),
            "-ctv"@,
            spec_cache_type_str(c.cache_type_v),
        ),
{
    broadcast use lemma_has_pair_concat;

    if c.gpu_layers != 0 {
        lemma_pair_unit("-ngl"@, spec_idec(c.gpu_layers as int));
    }
    if c.split_mode != SplitMode::Layer {
        lemma_pair_unit("-sm"@, spec_split_mode_str(c.split_mode));
    }
    if c.tensor_split@.len() > 0 {
        lemma_pair_unit("-ts"@, c.tensor_split@);
    }
    if c.main_gpu > 0 {
        lemma_pair_unit("-mg"@, spec_udec(c.main_gpu as nat));
    }
    if c.fit {
        lemma_pair_unit("--fit"@, "on"@);
    }
    if c.cache_type_k != CacheType::F16 {
        lemma_pair_unit("-ctk"@, spec_cache_type_str(c.cache_type_k));
    }
    if c.cache_type_v != CacheType::F16 {
        lemma_pair_unit("-ctv"@, spec_cache_type_str(c.cache_type_v));
    }
}

/// Performance fields: thread counts when positive, and the explicit
/// flash-attention on/off token always.
pub proof fn lemma_perf_value_emission(c: ServerConfig)
    ensures
        c.threads > 0 ==> has_pair(spec_args(c), "-t"@, spec_udec(c.threads as nat)),
        c.threads_batch > 0 ==> has_pair(spec_args(c), "-tb"@, spec_udec(c.threads_batch as nat)),
        has_pair(spec_args(c), "-fa"@, if c.flash_attn { "on"@ } else { "off"@ }),
{
    broadcast use lemma_has_pair_concat;

    if c.threads > 0 {
        lemma_pair_unit("-t"@, spec_udec(c.threads as nat));
    }
    if c.threads_batch > 0 {
        lemma_pair_unit("-tb"@, spec_udec(c.threads_batch as nat));
    }
    lemma_pair_unit("-fa"@, if c.flash_attn { "on"@ } else { "off"@ });
}

/// Sampling fields: the four core parameters always stand with their
/// two-decimal renderings; penalties, seed and grammars conditionally.
#[verifier::rlimit(100)]
pub proof fn lemma_sampling_value_emission(c: ServerConfig)
    ensures
        has_pair(spec_args(c), "--temp"@, spec_fixed2(c.temp.centi as int)),
        has_pair(spec_args(c), "--top-k"@, spec_udec(c.top_k as nat)),
        has_pair(spec_args(c), "--top-p"@, spec_fixed2(c.top_p.centi as int)),
        has_pair(spec_args(c), "--min-p"@, spec_fixed2(c.min_p.centi as int)),
        c.repeat_penalty.centi != 100 ==> has_pair(
            spec_args(c),
            "--repeat-penalty"@,
            spec_fixed2(c.repeat_penalty.centi as int),
        ),
        c.presence_penalty.centi != 0 ==> has_pair(
            spec_args(c),
            "--presence-penalty"@,
            spec_fixed2(c.presence_penalty.centi as int),
        ),
        c.frequency_penalty.centi != 0 ==> has_pair(
            spec_args(c),
            "--frequency-penalty"@,
            spec_fixed2(c.frequency_penalty.centi as int),
        ),
        c.seed != -1 ==> has_pair(spec_args(c), "-s"@, spec_idec(c.seed as int)),
        c.grammar@.len() > 0 ==> has_pair(spec_args(c), "--grammar"@, c.grammar@),
        c.grammar_file@.len() > 0 ==> has_pair(spec_args(c), "--grammar-file"@, c.grammar_file@),
{
    broadcast use lemma_has_pair_concat;

    lemma_pair_unit("--temp"@, spec_fixed2(c.temp.centi as int));
    lemma_pair_unit("--top-k"@, spec_udec(c.top_k as nat));
    lemma_pair_unit("--top-p"@, spec_fixed2(c.top_p.centi as int));
    lemma_pair_unit("--min-p"@, spec_fixed2(c.min_p.centi as int));
    if c.repeat_penalty.centi != 100 {
        lemma_pair_unit("--repeat-penalty"@, spec_fixed2(c.repeat_penalty.centi as int));
    }
    if c.presence_penalty.centi != 0 {
        lemma_pair_unit("--presence-penalty"@, spec_fixed2(c.presence_penalty.centi as int));
    }
    if c.frequency_penalty.centi != 0 {
        lemma_pair_unit("--frequency-penalty"@, spec_fixed2(c.frequency_penalty.centi as int));
    }
    if c.seed != -1 {
        lemma_pair_unit("-s"@, spec_idec(c.seed as int));
    }
    if c.grammar@.len() > 0 {
        lemma_pair_unit("--grammar"@, c.grammar@);
    }
    if c.grammar_file@.len() > 0 {
        lemma_pair_unit("--grammar-file"@, c.grammar_file@);
    }
}

/// RoPE fields: the scaling mode and frequency overrides under their
/// conditions, and the YaRN trio only under YaRN scaling.
pub proof fn lemma_rope_value_emission(c: ServerConfig)
    ensures
        c.rope_scaling != RopeScaling::Disabled ==> has_pair(
            spec_args(c),
            "--rope-scaling"@,
            spec_rope_scaling_str(c.rope_scaling),
        ),
        c.rope_freq_base.centi > 0 ==> has_pair(
            spec_args(c),
            "--rope-freq-base"@,
            spec_trim2(c.rope_freq_base.centi as int),
        ),
        c.rope_freq_scale.centi > 0 ==> has_pair(
            spec_args(c),
            "--rope-freq-scale"@,
            spec_trim2(c.rope_freq_scale.centi as int),
        ),
        c.rope_scaling == RopeScaling::Yarn && c.yarn_orig_ctx > 0 ==> has_pair(
            spec_args(c),
            "--yarn-orig-ctx"@,
            spec_udec(c.yarn_orig_ctx as nat),
        ),
        c.rope_scaling == RopeScaling::Yarn && c.yarn_ext_factor.centi != -100 ==> has_pair(
            spec_args(c),
            "--yarn-ext-factor"@,
            spec_trim2(c.yarn_ext_factor.centi as int),
        ),
        c.rope_scaling == RopeScaling::Yarn && c.yarn_attn_factor.centi != 100 ==> has_pair(
            spec_args(c),
            "--yarn-attn-factor"@,
            spec_trim2(c.yarn_attn_factor.centi as int),
        ),
{
    broadcast use lemma_has_pair_concat;

    if c.rope_scaling != RopeScaling::Disabled {
        lemma_pair_unit("--rope-scaling"@, spec_rope_scaling_str(c.rope_scaling));
    }
    if c.rope_freq_base.centi > 0 {
        lemma_pair_unit("--rope-freq-base"@, spec_trim2(c.rope_freq_base.centi as int));
    }
    if c.rope_freq_scale.centi > 0 {
        lemma_pair_unit("--rope-freq-scale"@, spec_trim2(c.rope_freq_scale.centi as int));
    }
    if c.rope_scaling == RopeScaling::Yarn {
        if c.yarn_orig_ctx > 0 {
            lemma_pair_unit("--yarn-orig-ctx"@, spec_udec(c.yarn_orig_ctx as nat));
        }
        if c.yarn_ext_factor.centi != -100 {
            lemma_pair_unit("--yarn-ext-factor"@, spec_trim2(c.yarn_ext_factor.centi as int));
        }
        if c.yarn_attn_factor.centi != 100 {
            lemma_pair_unit("--yarn-attn-factor"@, spec_trim2(c.yarn_attn_factor.centi as int));
        }
    }
}

/// Speculative-decoding fields: nothing without a draft model; with
/// one, the path, the conditional layer count and the token count all
/// stand with their values.
pub proof fn lemma_draft_value_emission(c: ServerConfig)
    ensures
        c.draft_model@.len() > 0 ==> has_pair(spec_args(c), "-md"@, c.draft_model@),
        c.draft_model@.len() > 0 && c.draft_gpu_layers != 0 ==> has_pair(
            spec_args(c),
            "-ngld"@,
            spec_idec(c.draft_gpu_layers as int),
        ),
        c.draft_model@.len() > 0 ==> has_pair(spec_args(c), "--draft"@, spec_udec(c.draft_tokens as nat)),
{
    broadcast use lemma_has_pair_concat;

    if c.draft_model@.len() > 0 {
        lemma_pair_unit("-md"@, c.draft_model@);
        if c.draft_gpu_layers != 0 {
            lemma_pair_unit("-ngld"@, spec_idec(c.draft_gpu_layers as int));
        }
        lemma_pair_unit("--draft"@, spec_udec(c.draft_tokens as nat));
    }
}

/// API, embedding and logging fields: each value-carrying flag of the
/// three trailing groups stands with its value under its condition.
pub proof fn lemma_api_value_emission(c: ServerConfig)
    ensures
        c.api_key@.len() > 0 ==> has_pair(spec_args(c), "--api-key"@, c.api_key@),
        c.api_key_file@.len() > 0 ==> has_pair(spec_args(c), "--api-key-file"@, c.api_key_file@),
        c.slot_save_path@.len() > 0 ==> has_pair(
            spec_args(c),
            "--slot-save-path"@,
            c.slot_save_path@,
        ),
        c.embedding && c.pooling != PoolingType::NoPooling ==> has_pair(
            spec_args(c),
            "--pooling"@,
            spec_pooling_str(c.pooling),
        ),
        c.log_format != LogFormat::Text ==> has_pair(
            spec_args(c),
            "--log-format"@,
            spec_log_format_str(c.log_format),
        ),
{
    broadcast use lemma_has_pair_concat;

    if c.api_key@.len() > 0 {
        lemma_pair_unit("--api-key"@, c.api_key@);
    }
    if c.api_key_file@.len() > 0 {
        lemma_pair_unit("--api-key-file"@, c.api_key_file@);
    }
    if c.slot_save_path@.len() > 0 {
        lemma_pair_unit("--slot-save-path"@, c.slot_save_path@);
    }
    if c.embedding && c.pooling != PoolingType::NoPooling {
        lemma_pair_unit("--pooling"@, spec_pooling_str(c.pooling));
    }
    if c.log_format != LogFormat::Text {
        lemma_pair_unit("--log-format"@, spec_log_format_str(c.log_format));
    }
}

// ── LoRA emission ───────────────────────────────────────────────────

/// The exact shape of one adapter's emission: nothing for an empty
/// path, two tokens at the neutral scale, three otherwise.
pub proof fn lemma_lora_entry_shape(l: LoraAdapter)
    ensures
        l.path@.len() == 0 ==> spec_lora_entry(l) == Seq::<Seq<char>>::empty(),
        l.path@.len() > 0 && l.scale.centi == 100 ==> spec_lora_entry(l) == seq![
            "--lora"@,
            l.path@,
        ],
        l.path@.len() > 0 && l.scale.centi != 100 ==> spec_lora_entry(l) == seq![
            "--lora-scaled"@,
            l.path@,
            spec_fixed2(l.scale.centi as int),
        ],
{
}

/// A pair emitted by one adapter stands in the emissions of any prefix
/// that covers that adapter.
proof fn lemma_lora_prefix_pair(
    ls: Seq<LoraAdapter>,
    n: int,
    i: int,
    f: Seq<char>,
    v: Seq<char>,
)
    requires
        0 <= i < n <= ls.len(),
        has_pair(spec_lora_entry(ls[i]), f, v),
    ensures
        has_pair(spec_lora_prefix(ls, n), f, v),
    decreases n,
{
    broadcast use lemma_has_pair_concat;

    if i < n - 1 {
        lemma_lora_prefix_pair(ls, n - 1, i, f, v);
    }
}

/// Every adapter with a non-empty path puts its tokens adjacently into
/// the compiled vector: `--lora path` at the neutral scale, and
/// `--lora-scaled path scale` otherwise.
pub proof fn lemma_lora_value_emission(c: ServerConfig, i: int)
    requires
        0 <= i < c.lora_adapters@.len(),
    ensures
        c.lora_adapters@[i].path@.len() > 0 && c.lora_adapters@[i].scale.centi == 100 ==> has_pair(
            spec_args(c),
            "--lora"@,
            c.lora_adapters@[i].path@,
        ),
        c.lora_adapters@[i].path@.len() > 0 && c.lora_adapters@[i].scale.centi != 100 ==> has_pair(
            spec_args(c),
            "--lora-scaled"@,
            c.lora_adapters@[i].path@,
        ) && has_pair(
            spec_args(c),
            c.lora_adapters@[i].path@,
            spec_fixed2(c.lora_adapters@[i].scale.centi as int),
        ),
{
    broadcast use lemma_has_pair_concat;

    let l = c.lora_adapters@[i];
    let n = c.lora_adapters@.len() as int;
    if l.path@.len() > 0 {
        if l.scale.centi == 100 {
            lemma_pair_unit("--lora"@, l.path@);
            lemma_lora_prefix_pair(c.lora_adapters@, n, i, "--lora"@, l.path@);
        } else {
            lemma_pair_head3("--lora-scaled"@, l.path@, spec_fixed2(l.scale.centi as int));
            lemma_lora_prefix_pair(c.lora_adapters@, n, i, "--lora-scaled"@, l.path@);
            lemma_lora_prefix_pair(
                c.lora_adapters@,
                n,
                i,
                l.path@,
                spec_fixed2(l.scale.centi as int),
            );
        }
    }
}

// ── The omission law ────────────────────────────────────────────────

/// A string that does not lead with a dash cannot collide with a flag
/// token.
pub open spec fn dashless(s: Seq<char>) -> bool {
    s.len() == 0 || s[0] != '-'
}

/// No free-string field of the settings leads with a dash.  Without
/// this, a value such as a path spelled exactly like a flag would stand
/// in the vector as a value token and defeat any claim about flag
/// omission.
pub open spec fn no_dashed_values(c: ServerConfig) -> bool {
    &&& dashless(c.model_path@)
    &&& dashless(c.model_dir@)
    &&& dashless(c.model_alias@)
    &&& dashless(c.model_url@)
    &&& dashless(c.hf_repo@)
    &&& dashless(c.hf_file@)
    &&& dashless(c.hf_token@)
    &&& dashless(c.chat_template@)
    &&& dashless(c.system_prompt@)
    &&& dashless(c.host@)
    &&& dashless(c.tensor_split@)
    &&& dashless(c.grammar@)
    &&& dashless(c.grammar_file@)
    &&& dashless(c.draft_model@)
    &&& dashless(c.api_key@)
    &&& dashless(c.api_key_file@)
    &&& dashless(c.slot_save_path@)
    &&& forall|i: int|
        0 <= i < c.lora_adapters@.len() ==> dashless(#[trigger] c.lora_adapters@[i].path@)
}

/// The shape every flag token of the compiler has: a dash followed by
/// something that is neither a digit nor a point — which no rendered
/// number, enum token or dashless value can match.
pub open spec fn flag_shaped(t: Seq<char>) -> bool {
    t.len() >= 2 && t[0] == '-' && !is_digit(t[1]) && t[1] != '.'
}

/// The emission-condition table of the model group.
pub open spec fn spec_model_emits(c: ServerConfig, t: Seq<char>) -> bool {
    ||| t == "-m"@ && c.model_path@.len() > 0
    ||| t == "--models-dir"@ && c.model_dir@.len() > 0
    ||| t == "-a"@ && c.model_alias@.len() > 0
    ||| t == "-mu"@ && c.model_url@.len() > 0
    ||| t == "-hfr"@ && c.hf_repo@.len() > 0
    ||| t == "-hff"@ && c.hf_file@.len() > 0
    ||| t == "-hft"@ && c.hf_token@.len() > 0
    ||| t == "--chat-template"@ && c.chat_template@.len() > 0
    ||| t == "-sp"@ && c.system_prompt@.len() > 0
}

/// The emission-condition table of the server group.
pub open spec fn spec_server_emits(c: ServerConfig, t: Seq<char>) -> bool {
    ||| t == "--host"@
    ||| t == "--port"@
    ||| t == "--timeout"@ && c.timeout > 0
    ||| t == "--threads-http"@ && c.threads_http > 0
}

/// The emission-condition table of the context group.
pub open spec fn spec_context_emits(c: ServerConfig, t: Seq<char>) -> bool {
    ||| t == "-c"@
    ||| t == "-n"@ && c.predict != -1
    ||| t == "-b"@
    ||| t == "-ub"@
    ||| t == "-np"@ && c.parallel > 1
    ||| t == "-cb"@ && c.cont_batching
}

/// The emission-condition table of the GPU group.
pub open spec fn spec_gpu_emits(c: ServerConfig, t: Seq<char>) -> bool {
    ||| t == "-ngl"@ && c.gpu_layers != 0
    ||| t == "-sm"@ && c.split_mode != SplitMode::Layer
    ||| t == "-ts"@ && c.tensor_split@.len() > 0
    ||| t == "-mg"@ && c.main_gpu > 0
    ||| t == "--fit"@ && c.fit
    ||| t == "--mlock"@ && c.mlock
    ||| t == "--no-mmap"@ && c.no_mmap
    ||| t == "-nkvo"@ && c.no_kv_offload
    ||| t == "-ctk"@ && c.cache_type_k != CacheType::F16
    ||| t == "-ctv"@ && c.cache_type_v != CacheType::F16
}

/// The emission-condition table of the performance group.
pub open spec fn spec_perf_emits(c: ServerConfig, t: Seq<char>) -> bool {
    ||| t == "-t"@ && c.threads > 0
    ||| t == "-tb"@ && c.threads_batch > 0
    ||| t == "-fa"@
    ||| t == "--no-warmup"@ && c.no_warmup
    ||| t == "--check-tensors"@ && c.check_tensors
}

/// The emission-condition table of the sampling group.
pub open spec fn spec_sampling_emits(c: ServerConfig, t: Seq<char>) -> bool {
    ||| t == "--temp"@
    ||| t == "--top-k"@
    ||| t == "--top-p"@
    ||| t == "--min-p"@
    ||| t == "--repeat-penalty"@ && c.repeat_penalty.centi != 100
    ||| t == "--presence-penalty"@ && c.presence_penalty.centi != 0
    ||| t == "--frequency-penalty"@ && c.frequency_penalty.centi != 0
    ||| t == "-s"@ && c.seed != -1
    ||| t == "--grammar"@ && c.grammar@.len() > 0
    ||| t == "--grammar-file"@ && c.grammar_file@.len() > 0
}

/// The emission-condition table of the RoPE group.
pub open spec fn spec_rope_emits(c: ServerConfig, t: Seq<char>) -> bool {
    ||| t == "--rope-scaling"@ && c.rope_scaling != RopeScaling::Disabled
    ||| t == "--rope-freq-base"@ && c.rope_freq_base.centi > 0
    ||| t == "--rope-freq-scale"@ && c.rope_freq_scale.centi > 0
    ||| t == "--yarn-orig-ctx"@ && c.rope_scaling == RopeScaling::Yarn && c.yarn_orig_ctx > 0
    ||| t == "--yarn-ext-factor"@ && c.rope_scaling == RopeScaling::Yarn
        && c.yarn_ext_factor.centi != -100
    ||| t == "--yarn-attn-factor"@ && c.rope_scaling == RopeScaling::Yarn
        && c.yarn_attn_factor.centi != 100
}

/// The emission-condition table of the LoRA group.
pub open spec fn spec_lora_emits(c: ServerConfig, t: Seq<char>) -> bool {
    ||| t == "--lora"@ && (exists|i: int|
        #![trigger c.lora_adapters@[i]]
        0 <= i < c.lora_adapters@.len() && c.lora_adapters@[i].path@.len() > 0
            && c.lora_adapters@[i].scale.centi == 100)
    ||| t == "--lora-scaled"@ && (exists|i: int|
        #![trigger c.lora_adapters@[i]]
        0 <= i < c.lora_adapters@.len() && c.lora_adapters@[i].path@.len() > 0
            && c.lora_adapters@[i].scale.centi != 100)
}

/// The emission-condition table of the speculative-decoding group.
pub open spec fn spec_draft_emits(c: ServerConfig, t: Seq<char>) -> bool {
    ||| t == "-md"@ && c.draft_model@.len() > 0
    ||| t == "-ngld"@ && c.draft_model@.len() > 0 && c.draft_gpu_layers != 0
    ||| t == "--draft"@ && c.draft_model@.len() > 0
}

/// The emission-condition table of the API group.
pub open spec fn spec_api_emits(c: ServerConfig, t: Seq<char>) -> bool {
    ||| t == "--api-key"@ && c.api_key@.len() > 0
    ||| t == "--api-key-file"@ && c.api_key_file@.len() > 0
    ||| t == "--metrics"@ && c.metrics
    ||| t == "--slots"@ && c.slots
    ||| t == "--slot-save-path"@ && c.slot_save_path@.len() > 0
}

/// The emission-condition table of the embedding group.
pub open spec fn spec_embedding_emits(c: ServerConfig, t: Seq<char>) -> bool {
    ||| t == "--embedding"@ && c.embedding
    ||| t == "--pooling"@ && c.embedding && c.pooling != PoolingType::NoPooling
}

/// The emission-condition table of the logging group.
pub open spec fn spec_logging_emits(c: ServerConfig, t: Seq<char>) -> bool {
    ||| t == "--log-format"@ && c.log_format != LogFormat::Text
    ||| t == "-v"@ && c.verbose
}

/// The whole emission-condition table: the flag tokens the compiled
/// vector holds, with the condition under which each is emitted.
pub open spec fn spec_emits(c: ServerConfig, t: Seq<char>) -> bool {
    ||| spec_model_emits(c, t)
    ||| spec_server_emits(c, t)
    ||| spec_context_emits(c, t)
    ||| spec_gpu_emits(c, t)
    ||| spec_perf_emits(c, t)
    ||| spec_sampling_emits(c, t)
    ||| spec_rope_emits(c, t)
    ||| spec_lora_emits(c, t)
    ||| spec_draft_emits(c, t)
    ||| spec_api_emits(c, t)
    ||| spec_embedding_emits(c, t)
    ||| spec_logging_emits(c, t)
}

#[verifier::rlimit(100)]
proof fn lemma_model_presence(c: ServerConfig, t: Seq<char>)
    requires
        no_dashed_values(c),
        flag_shaped(t),
    ensures
        spec_model_args(c).contains(t) <==> spec_model_emits(c, t),
{
    broadcast use vstd::seq_lib::lemma_seq_contains_after_push;

}

proof fn lemma_server_presence(c: ServerConfig, t: Seq<char>)
    requires
        no_dashed_values(c),
        flag_shaped(t),
    ensures
        spec_server_args(c).contains(t) <==> spec_server_emits(c, t),
{
    broadcast use vstd::seq_lib::lemma_seq_contains_after_push;

    lemma_udec_digits(c.port as nat);
    lemma_udec_digits(c.timeout as nat);
    lemma_udec_digits(c.threads_http as nat);
}

proof fn lemma_context_presence(c: ServerConfig, t: Seq<char>)
    requires
        flag_shaped(t),
    ensures
        spec_context_args(c).contains(t) <==> spec_context_emits(c, t),
{
    broadcast use vstd::seq_lib::lemma_seq_contains_after_push;

    lemma_udec_digits(c.ctx_size as nat);
    lemma_udec_digits(c.batch_size as nat);
    lemma_udec_digits(c.ubatch_size as nat);
    lemma_udec_digits(c.parallel as nat);
    lemma_idec_shape(c.predict as int);
}

proof fn lemma_gpu_offload_presence(c: ServerConfig, t: Seq<char>)
    requires
        no_dashed_values(c),
        flag_shaped(t),
    ensures
        spec_gpu_offload_args(c).contains(t) <==> {
            ||| t == "-ngl"@ && c.gpu_layers != 0
            ||| t == "-sm"@ && c.split_mode != SplitMode::Layer
            ||| t == "-ts"@ && c.tensor_split@.len() > 0
            ||| t == "-mg"@ && c.main_gpu > 0
            ||| t == "--fit"@ && c.fit
        },
{
    broadcast use vstd::seq_lib::lemma_seq_contains_after_push;

    lemma_idec_shape(c.gpu_layers as int);
    lemma_udec_digits(c.main_gpu as nat);
    reveal_strlit("none");
    reveal_strlit("layer");
    reveal_strlit("row");
    reveal_strlit("on");
    assert("none"@[0] == 'n' && "layer"@[0] == 'l' && "row"@[0] == 'r');
    assert("on"@[0] == 'o');
}

proof fn lemma_gpu_memory_presence(c: ServerConfig, t: Seq<char>)
    requires
        flag_shaped(t),
    ensures
        spec_gpu_memory_args(c).contains(t) <==> {
            ||| t == "--mlock"@ && c.mlock
            ||| t == "--no-mmap"@ && c.no_mmap
            ||| t == "-nkvo"@ && c.no_kv_offload
            ||| t == "-ctk"@ && c.cache_type_k != CacheType::F16
            ||| t == "-ctv"@ && c.cache_type_v != CacheType::F16
        },
{
    broadcast use vstd::seq_lib::lemma_seq_contains_after_push;

    reveal_strlit("f16");
    reveal_strlit("q8_0");
    reveal_strlit("q4_0");
    assert("f16"@[0] == 'f' && "q8_0"@[0] == 'q' && "q4_0"@[0] == 'q');
}

proof fn lemma_gpu_presence(c: ServerConfig, t: Seq<char>)
    requires
        no_dashed_values(c),
        flag_shaped(t),
    ensures
        spec_gpu_args(c).contains(t) <==> spec_gpu_emits(c, t),
{
    lemma_gpu_offload_presence(c, t);
    lemma_gpu_memory_presence(c, t);
}

proof fn lemma_perf_presence(c: ServerConfig, t: Seq<char>)
    requires
        flag_shaped(t),
    ensures
        spec_perf_args(c).contains(t) <==> spec_perf_emits(c, t),
{
    broadcast use vstd::seq_lib::lemma_seq_contains_after_push;

    lemma_udec_digits(c.threads as nat);
    lemma_udec_digits(c.threads_batch as nat);
    reveal_strlit("on");
    reveal_strlit("off");
    assert("on"@[0] == 'o' && "off"@[0] == 'o');
}

proof fn lemma_sampling_core_presence(c: ServerConfig, t: Seq<char>)
    requires
        flag_shaped(t),
    ensures
        spec_sampling_core_args(c).contains(t) <==> {
            ||| t == "--temp"@
            ||| t == "--top-k"@
            ||| t == "--top-p"@
            ||| t == "--min-p"@
        },
{
    broadcast use vstd::seq_lib::lemma_seq_contains_after_push;

    lemma_fixed2_shape(c.temp.centi as int);
    lemma_fixed2_shape(c.top_p.centi as int);
    lemma_fixed2_shape(c.min_p.centi as int);
    lemma_udec_digits(c.top_k as nat);
}

proof fn lemma_sampling_tuning_presence(c: ServerConfig, t: Seq<char>)
    requires
        no_dashed_values(c),
        flag_shaped(t),
    ensures
        spec_sampling_tuning_args(c).contains(t) <==> {
            ||| t == "--repeat-penalty"@ && c.repeat_penalty.centi != 100
            ||| t == "--presence-penalty"@ && c.presence_penalty.centi != 0
            ||| t == "--frequency-penalty"@ && c.frequency_penalty.centi != 0
            ||| t == "-s"@ && c.seed != -1
            ||| t == "--grammar"@ && c.grammar@.len() > 0
            ||| t == "--grammar-file"@ && c.grammar_file@.len() > 0
        },
{
    broadcast use vstd::seq_lib::lemma_seq_contains_after_push;

    lemma_fixed2_shape(c.repeat_penalty.centi as int);
    lemma_fixed2_shape(c.presence_penalty.centi as int);
    lemma_fixed2_shape(c.frequency_penalty.centi as int);
    lemma_idec_shape(c.seed as int);
}

proof fn lemma_sampling_presence(c: ServerConfig, t: Seq<char>)
    requires
        no_dashed_values(c),
        flag_shaped(t),
    ensures
        spec_sampling_args(c).contains(t) <==> spec_sampling_emits(c, t),
{
    lemma_sampling_core_presence(c, t);
    lemma_sampling_tuning_presence(c, t);
}

proof fn lemma_rope_base_presence(c: ServerConfig, t: Seq<char>)
    requires
        flag_shaped(t),
    ensures
        spec_rope_base_args(c).contains(t) <==> {
            ||| t == "--rope-scaling"@ && c.rope_scaling != RopeScaling::Disabled
            ||| t == "--rope-freq-base"@ && c.rope_freq_base.centi > 0
            ||| t == "--rope-freq-scale"@ && c.rope_freq_scale.centi > 0
        },
{
    broadcast use vstd::seq_lib::lemma_seq_contains_after_push;

    lemma_trim2_shape(c.rope_freq_base.centi as int);
    lemma_trim2_shape(c.rope_freq_scale.centi as int);
    reveal_strlit("none");
    reveal_strlit("linear");
    reveal_strlit("yarn");
    assert("none"@[0] == 'n' && "linear"@[0] == 'l' && "yarn"@[0] == 'y');
}

proof fn lemma_yarn_presence(c: ServerConfig, t: Seq<char>)
    requires
        flag_shaped(t),
    ensures
        spec_yarn_args(c).contains(t) <==> {
            ||| t == "--yarn-orig-ctx"@ && c.yarn_orig_ctx > 0
            ||| t == "--yarn-ext-factor"@ && c.yarn_ext_factor.centi != -100
            ||| t == "--yarn-attn-factor"@ && c.yarn_attn_factor.centi != 100
        },
{
    broadcast use vstd::seq_lib::lemma_seq_contains_after_push;

    lemma_trim2_shape(c.yarn_ext_factor.centi as int);
    lemma_trim2_shape(c.yarn_attn_factor.centi as int);
    lemma_udec_digits(c.yarn_orig_ctx as nat);
}

proof fn lemma_rope_presence(c: ServerConfig, t: Seq<char>)
    requires
        flag_shaped(t),
    ensures
        spec_rope_args(c).contains(t) <==> spec_rope_emits(c, t),
{
    lemma_rope_base_presence(c, t);
    if c.rope_scaling == RopeScaling::Yarn {
        lemma_yarn_presence(c, t);
    }
}

proof fn lemma_draft_presence(c: ServerConfig, t: Seq<char>)
    requires
        no_dashed_values(c),
        flag_shaped(t),
    ensures
        spec_draft_args(c).contains(t) <==> spec_draft_emits(c, t),
{
    broadcast use vstd::seq_lib::lemma_seq_contains_after_push;

    lemma_idec_shape(c.draft_gpu_layers as int);
    lemma_udec_digits(c.draft_tokens as nat);
}

proof fn lemma_api_presence(c: ServerConfig, t: Seq<char>)
    requires
        no_dashed_values(c),
        flag_shaped(t),
    ensures
        spec_api_args(c).contains(t) <==> spec_api_emits(c, t),
{
    broadcast use vstd::seq_lib::lemma_seq_contains_after_push;

}

proof fn lemma_embedding_presence(c: ServerConfig, t: Seq<char>)
    requires
        flag_shaped(t),
    ensures
        spec_embedding_args(c).contains(t) <==> spec_embedding_emits(c, t),
{
    broadcast use vstd::seq_lib::lemma_seq_contains_after_push;

    reveal_strlit("none");
    reveal_strlit("mean");
    reveal_strlit("cls");
    reveal_strlit("last");
    assert("none"@[0] == 'n' && "mean"@[0] == 'm' && "cls"@[0] == 'c' && "last"@[0] == 'l');
}

proof fn lemma_logging_presence(c: ServerConfig, t: Seq<char>)
    requires
        flag_shaped(t),
    ensures
        spec_logging_args(c).contains(t) <==> spec_logging_emits(c, t),
{
    broadcast use vstd::seq_lib::lemma_seq_contains_after_push;

    reveal_strlit("text");
    reveal_strlit("json");
    assert("text"@[0] == 't' && "json"@[0] == 'j');
}

proof fn lemma_lora_entry_presence(l: LoraAdapter, t: Seq<char>)
    requires
        flag_shaped(t),
        dashless(l.path@),
    ensures
        spec_lora_entry(l).contains(t) <==> {
            ||| t == "--lora"@ && l.path@.len() > 0 && l.scale.centi == 100
            ||| t == "--lora-scaled"@ && l.path@.len() > 0 && l.scale.centi != 100
        },
{
    broadcast use vstd::seq_lib::lemma_seq_contains_after_push;

    lemma_fixed2_shape(l.scale.centi as int);
}

proof fn lemma_lora_prefix_presence(ls: Seq<LoraAdapter>, n: int, t: Seq<char>)
    requires
        flag_shaped(t),
        0 <= n <= ls.len(),
        forall|i: int| 0 <= i < ls.len() ==> dashless(#[trigger] ls[i].path@),
    ensures
        spec_lora_prefix(ls, n).contains(t) <==> {
            ||| t == "--lora"@ && (exists|i: int|
                #![trigger ls[i]]
                0 <= i < n && ls[i].path@.len() > 0 && ls[i].scale.centi == 100)
            ||| t == "--lora-scaled"@ && (exists|i: int|
                #![trigger ls[i]]
                0 <= i < n && ls[i].path@.len() > 0 && ls[i].scale.centi != 100)
        },
    decreases n,
{
    if n > 0 {
        lemma_lora_prefix_presence(ls, n - 1, t);
        lemma_lora_entry_presence(ls[n - 1], t);
    }
}

proof fn lemma_lora_presence(c: ServerConfig, t: Seq<char>)
    requires
        no_dashed_values(c),
        flag_shaped(t),
    ensures
        spec_lora_args(c).contains(t) <==> spec_lora_emits(c, t),
{
    lemma_lora_prefix_presence(c.lora_adapters@, c.lora_adapters@.len() as int, t);
}

/// The omission law.  For every token of flag shape, the compiled
/// vector holds it if and only if the emission-condition table says so:
/// a field at its default or sentinel leaves no trace, and any other
/// value puts its flag in.  The dash-shape side conditions keep a
/// user-supplied string value from impersonating a flag.
pub proof fn lemma_flag_presence(c: ServerConfig, t: Seq<char>)
    requires
        no_dashed_values(c),
        flag_shaped(t),
    ensures
        spec_args(c).contains(t) <==> spec_emits(c, t),
{
    lemma_model_presence(c, t);
    lemma_server_presence(c, t);
    lemma_context_presence(c, t);
    lemma_gpu_presence(c, t);
    lemma_perf_presence(c, t);
    lemma_sampling_presence(c, t);
    lemma_rope_presence(c, t);
    lemma_lora_presence(c, t);
    lemma_draft_presence(c, t);
    lemma_api_presence(c, t);
    lemma_embedding_presence(c, t);
    lemma_logging_presence(c, t);
}

/// The concrete characters of every flag token the compiler can emit,
/// so that instantiations of the omission law can tell any two flags
/// apart.
#[verifier::rlimit(100)]
pub proof fn lemma_flag_tokens()
    ensures
        "--yarn-orig-ctx"@ == seq!['-', '-', 'y', 'a', 'r', 'n', '-', 'o', 'r', 'i', 'g', '-', 'c', 't', 'x'],
        "--yarn-ext-factor"@ == seq!['-', '-', 'y', 'a', 'r', 'n', '-', 'e', 'x', 't', '-', 'f', 'a', 'c', 't', 'o', 'r'],
        "--yarn-attn-factor"@ == seq!['-', '-', 'y', 'a', 'r', 'n', '-', 'a', 't', 't', 'n', '-', 'f', 'a', 'c', 't', 'o', 'r'],
        "-md"@ == seq!['-', 'm', 'd'],
        "-ngld"@ == seq!['-', 'n', 'g', 'l', 'd'],
        "--draft"@ == seq!['-', '-', 'd', 'r', 'a', 'f', 't'],
        "-m"@ == seq!['-', 'm'],
        "--models-dir"@ == seq!['-', '-', 'm', 'o', 'd', 'e', 'l', 's', '-', 'd', 'i', 'r'],
        "-a"@ == seq!['-', 'a'],
        "-mu"@ == seq!['-', 'm', 'u'],
        "-hfr"@ == seq!['-', 'h', 'f', 'r'],
        "-hff"@ == seq!['-', 'h', 'f', 'f'],
        "-hft"@ == seq!['-', 'h', 'f', 't'],
        "--chat-template"@ == seq!['-', '-', 'c', 'h', 'a', 't', '-', 't', 'e', 'm', 'p', 'l', 'a', 't', 'e'],
        "-sp"@ == seq!['-', 's', 'p'],
        "--host"@ == seq!['-', '-', 'h', 'o', 's', 't'],
        "--port"@ == seq!['-', '-', 'p', 'o', 'r', 't'],
        "--timeout"@ == seq!['-', '-', 't', 'i', 'm', 'e', 'o', 'u', 't'],
        "--threads-http"@ == seq!['-', '-', 't', 'h', 'r', 'e', 'a', 'd', 's', '-', 'h', 't', 't', 'p'],
        "-c"@ == seq!['-', 'c'],
        "-n"@ == seq!['-', 'n'],
        "-b"@ == seq!['-', 'b'],
        "-ub"@ == seq!['-', 'u', 'b'],
        "-np"@ == seq!['-', 'n', 'p'],
        "-cb"@ == seq!['-', 'c', 'b'],
        "-ngl"@ == seq!['-', 'n', 'g', 'l'],
        "-sm"@ == seq!['-', 's', 'm'],
        "-ts"@ == seq!['-', 't', 's'],
        "-mg"@ == seq!['-', 'm', 'g'],
        "--fit"@ == seq!['-', '-', 'f', 'i', 't'],
        "--mlock"@ == seq!['-', '-', 'm', 'l', 'o', 'c', 'k'],
        "--no-mmap"@ == seq!['-', '-', 'n', 'o', '-', 'm', 'm', 'a', 'p'],
        "-nkvo"@ == seq!['-', 'n', 'k', 'v', 'o'],
        "-ctk"@ == seq!['-', 'c', 't', 'k'],
        "-ctv"@ == seq!['-', 'c', 't', 'v'],
        "-t"@ == seq!['-', 't'],
        "-tb"@ == seq!['-', 't', 'b'],
        "-fa"@ == seq!['-', 'f', 'a'],
        "--no-warmup"@ == seq!['-', '-', 'n', 'o', '-', 'w', 'a', 'r', 'm', 'u', 'p'],
        "--check-tensors"@ == seq!['-', '-', 'c', 'h', 'e', 'c', 'k', '-', 't', 'e', 'n', 's', 'o', 'r', 's'],
        "--temp"@ == seq!['-', '-', 't', 'e', 'm', 'p'],
        "--top-k"@ == seq!['-', '-', 't', 'o', 'p', '-', 'k'],
        "--top-p"@ == seq!['-', '-', 't', 'o', 'p', '-', 'p'],
        "--min-p"@ == seq!['-', '-', 'm', 'i', 'n', '-', 'p'],
        "--repeat-penalty"@ == seq!['-', '-', 'r', 'e', 'p', 'e', 'a', 't', '-', 'p', 'e', 'n', 'a', 'l', 't', 'y'],
        "--presence-penalty"@ == seq!['-', '-', 'p', 'r', 'e', 's', 'e', 'n', 'c', 'e', '-', 'p', 'e', 'n', 'a', 'l', 't', 'y'],
        "--frequency-penalty"@ == seq!['-', '-', 'f', 'r', 'e', 'q', 'u', 'e', 'n', 'c', 'y', '-', 'p', 'e', 'n', 'a', 'l', 't', 'y'],
        "-s"@ == seq!['-', 's'],
        "--grammar"@ == seq!['-', '-', 'g', 'r', 'a', 'm', 'm', 'a', 'r'],
        "--grammar-file"@ == seq!['-', '-', 'g', 'r', 'a', 'm', 'm', 'a', 'r', '-', 'f', 'i', 'l', 'e'],
        "--rope-scaling"@ == seq!['-', '-', 'r', 'o', 'p', 'e', '-', 's', 'c', 'a', 'l', 'i', 'n', 'g'],
        "--rope-freq-base"@ == seq!['-', '-', 'r', 'o', 'p', 'e', '-', 'f', 'r', 'e', 'q', '-', 'b', 'a', 's', 'e'],
        "--rope-freq-scale"@ == seq!['-', '-', 'r', 'o', 'p', 'e', '-', 'f', 'r', 'e', 'q', '-', 's', 'c', 'a', 'l', 'e'],
        "--lora"@ == seq!['-', '-', 'l', 'o', 'r', 'a'],
        "--lora-scaled"@ == seq!['-', '-', 'l', 'o', 'r', 'a', '-', 's', 'c', 'a', 'l', 'e', 'd'],
        "--api-key"@ == seq!['-', '-', 'a', 'p', 'i', '-', 'k', 'e', 'y'],
        "--api-key-file"@ == seq!['-', '-', 'a', 'p', 'i', '-', 'k', 'e', 'y', '-', 'f', 'i', 'l', 'e'],
        "--metrics"@ == seq!['-', '-', 'm', 'e', 't', 'r', 'i', 'c', 's'],
        "--slots"@ == seq!['-', '-', 's', 'l', 'o', 't', 's'],
        "--slot-save-path"@ == seq!['-', '-', 's', 'l', 'o', 't', '-', 's', 'a', 'v', 'e', '-', 'p', 'a', 't', 'h'],
        "--embedding"@ == seq!['-', '-', 'e', 'm', 'b', 'e', 'd', 'd', 'i', 'n', 'g'],
        "--pooling"@ == seq!['-', '-', 'p', 'o', 'o', 'l', 'i', 'n', 'g'],
        "--log-format"@ == seq!['-', '-', 'l', 'o', 'g', '-', 'f', 'o', 'r', 'm', 'a', 't'],
        "-v"@ == seq!['-', 'v'],
{
    reveal_strlit("--yarn-orig-ctx");
    reveal_strlit("--yarn-ext-factor");
    reveal_strlit("--yarn-attn-factor");
    reveal_strlit("-md");
    reveal_strlit("-ngld");
    reveal_strlit("--draft");
    reveal_strlit("-m");
    reveal_strlit("--models-dir");
    reveal_strlit("-a");
    reveal_strlit("-mu");
    reveal_strlit("-hfr");
    reveal_strlit("-hff");
    reveal_strlit("-hft");
    reveal_strlit("--chat-template");
    reveal_strlit("-sp");
    reveal_strlit("--host");
    reveal_strlit("--port");
    reveal_strlit("--timeout");
    reveal_strlit("--threads-http");
    reveal_strlit("-c");
    reveal_strlit("-n");
    reveal_strlit("-b");
    reveal_strlit("-ub");
    reveal_strlit("-np");
    reveal_strlit("-cb");
    reveal_strlit("-ngl");
    reveal_strlit("-sm");
    reveal_strlit("-ts");
    reveal_strlit("-mg");
    reveal_strlit("--fit");
    reveal_strlit("--mlock");
    reveal_strlit("--no-mmap");
    reveal_strlit("-nkvo");
    reveal_strlit("-ctk");
    reveal_strlit("-ctv");
    reveal_strlit("-t");
    reveal_strlit("-tb");
    reveal_strlit("-fa");
    reveal_strlit("--no-warmup");
    reveal_strlit("--check-tensors");
    reveal_strlit("--temp");
    reveal_strlit("--top-k");
    reveal_strlit("--top-p");
    reveal_strlit("--min-p");
    reveal_strlit("--repeat-penalty");
    reveal_strlit("--presence-penalty");
    reveal_strlit("--frequency-penalty");
    reveal_strlit("-s");
    reveal_strlit("--grammar");
    reveal_strlit("--grammar-file");
    reveal_strlit("--rope-scaling");
    reveal_strlit("--rope-freq-base");
    reveal_strlit("--rope-freq-scale");
    reveal_strlit("--lora");
    reveal_strlit("--lora-scaled");
    reveal_strlit("--api-key");
    reveal_strlit("--api-key-file");
    reveal_strlit("--metrics");
    reveal_strlit("--slots");
    reveal_strlit("--slot-save-path");
    reveal_strlit("--embedding");
    reveal_strlit("--pooling");
    reveal_strlit("--log-format");
    reveal_strlit("-v");
    assert("--yarn-orig-ctx"@ =~= seq!['-', '-', 'y', 'a', 'r', 'n', '-', 'o', 'r', 'i', 'g', '-', 'c', 't', 'x']);
    assert("--yarn-ext-factor"@ =~= seq!['-', '-', 'y', 'a', 'r', 'n', '-', 'e', 'x', 't', '-', 'f', 'a', 'c', 't', 'o', 'r']);
    assert("--yarn-attn-factor"@ =~= seq!['-', '-', 'y', 'a', 'r', 'n', '-', 'a', 't', 't', 'n', '-', 'f', 'a', 'c', 't', 'o', 'r']);
    assert("-md"@ =~= seq!['-', 'm', 'd']);
    assert("-ngld"@ =~= seq!['-', 'n', 'g', 'l', 'd']);
    assert("--draft"@ =~= seq!['-', '-', 'd', 'r', 'a', 'f', 't']);
    assert("-m"@ =~= seq!['-', 'm']);
    assert("--models-dir"@ =~= seq!['-', '-', 'm', 'o', 'd', 'e', 'l', 's', '-', 'd', 'i', 'r']);
    assert("-a"@ =~= seq!['-', 'a']);
    assert("-mu"@ =~= seq!['-', 'm', 'u']);
    assert("-hfr"@ =~= seq!['-', 'h', 'f', 'r']);
    assert("-hff"@ =~= seq!['-', 'h', 'f', 'f']);
    assert("-hft"@ =~= seq!['-', 'h', 'f', 't']);
    assert("--chat-template"@ =~= seq!['-', '-', 'c', 'h', 'a', 't', '-', 't', 'e', 'm', 'p', 'l', 'a', 't', 'e']);
    assert("-sp"@ =~= seq!['-', 's', 'p']);
    assert("--host"@ =~= seq!['-', '-', 'h', 'o', 's', 't']);
    assert("--port"@ =~= seq!['-', '-', 'p', 'o', 'r', 't']);
    assert("--timeout"@ =~= seq!['-', '-', 't', 'i', 'm', 'e', 'o', 'u', 't']);
    assert("--threads-http"@ =~= seq!['-', '-', 't', 'h', 'r', 'e', 'a', 'd', 's', '-', 'h', 't', 't', 'p']);
    assert("-c"@ =~= seq!['-', 'c']);
    assert("-n"@ =~= seq!['-', 'n']);
    assert("-b"@ =~= seq!['-', 'b']);
    assert("-ub"@ =~= seq!['-', 'u', 'b']);
    assert("-np"@ =~= seq!['-', 'n', 'p']);
    assert("-cb"@ =~= seq!['-', 'c', 'b']);
    assert("-ngl"@ =~= seq!['-', 'n', 'g', 'l']);
    assert("-sm"@ =~= seq!['-', 's', 'm']);
    assert("-ts"@ =~= seq!['-', 't', 's']);
    assert("-mg"@ =~= seq!['-', 'm', 'g']);
    assert("--fit"@ =~= seq!['-', '-', 'f', 'i', 't']);
    assert("--mlock"@ =~= seq!['-', '-', 'm', 'l', 'o', 'c', 'k']);
    assert("--no-mmap"@ =~= seq!['-', '-', 'n', 'o', '-', 'm', 'm', 'a', 'p']);
    assert("-nkvo"@ =~= seq!['-', 'n', 'k', 'v', 'o']);
    assert("-ctk"@ =~= seq!['-', 'c', 't', 'k']);
    assert("-ctv"@ =~= seq!['-', 'c', 't', 'v']);
    assert("-t"@ =~= seq!['-', 't']);
    assert("-tb"@ =~= seq!['-', 't', 'b']);
    assert("-fa"@ =~= seq!['-', 'f', 'a']);
    assert("--no-warmup"@ =~= seq!['-', '-', 'n', 'o', '-', 'w', 'a', 'r', 'm', 'u', 'p']);
    assert("--check-tensors"@ =~= seq!['-', '-', 'c', 'h', 'e', 'c', 'k', '-', 't', 'e', 'n', 's', 'o', 'r', 's']);
    assert("--temp"@ =~= seq!['-', '-', 't', 'e', 'm', 'p']);
    assert("--top-k"@ =~= seq!['-', '-', 't', 'o', 'p', '-', 'k']);
    assert("--top-p"@ =~= seq!['-', '-', 't', 'o', 'p', '-', 'p']);
    assert("--min-p"@ =~= seq!['-', '-', 'm', 'i', 'n', '-', 'p']);
    assert("--repeat-penalty"@ =~= seq!['-', '-', 'r', 'e', 'p', 'e', 'a', 't', '-', 'p', 'e', 'n', 'a', 'l', 't', 'y']);
    assert("--presence-penalty"@ =~= seq!['-', '-', 'p', 'r', 'e', 's', 'e', 'n', 'c', 'e', '-', 'p', 'e', 'n', 'a', 'l', 't', 'y']);
    assert("--frequency-penalty"@ =~= seq!['-', '-', 'f', 'r', 'e', 'q', 'u', 'e', 'n', 'c', 'y', '-', 'p', 'e', 'n', 'a', 'l', 't', 'y']);
    assert("-s"@ =~= seq!['-', 's']);
    assert("--grammar"@ =~= seq!['-', '-', 'g', 'r', 'a', 'm', 'm', 'a', 'r']);
    assert("--grammar-file"@ =~= seq!['-', '-', 'g', 'r', 'a', 'm', 'm', 'a', 'r', '-', 'f', 'i', 'l', 'e']);
    assert("--rope-scaling"@ =~= seq!['-', '-', 'r', 'o', 'p', 'e', '-', 's', 'c', 'a', 'l', 'i', 'n', 'g']);
    assert("--rope-freq-base"@ =~= seq!['-', '-', 'r', 'o', 'p', 'e', '-', 'f', 'r', 'e', 'q', '-', 'b', 'a', 's', 'e']);
    assert("--rope-freq-scale"@ =~= seq!['-', '-', 'r', 'o', 'p', 'e', '-', 'f', 'r', 'e', 'q', '-', 's', 'c', 'a', 'l', 'e']);
    assert("--lora"@ =~= seq!['-', '-', 'l', 'o', 'r', 'a']);
    assert("--lora-scaled"@ =~= seq!['-', '-', 'l', 'o', 'r', 'a', '-', 's', 'c', 'a', 'l', 'e', 'd']);
    assert("--api-key"@ =~= seq!['-', '-', 'a', 'p', 'i', '-', 'k', 'e', 'y']);
    assert("--api-key-file"@ =~= seq!['-', '-', 'a', 'p', 'i', '-', 'k', 'e', 'y', '-', 'f', 'i', 'l', 'e']);
    assert("--metrics"@ =~= seq!['-', '-', 'm', 'e', 't', 'r', 'i', 'c', 's']);
    assert("--slots"@ =~= seq!['-', '-', 's', 'l', 'o', 't', 's']);
    assert("--slot-save-path"@ =~= seq!['-', '-', 's', 'l', 'o', 't', '-', 's', 'a', 'v', 'e', '-', 'p', 'a', 't', 'h']);
    assert("--embedding"@ =~= seq!['-', '-', 'e', 'm', 'b', 'e', 'd', 'd', 'i', 'n', 'g']);
    assert("--pooling"@ =~= seq!['-', '-', 'p', 'o', 'o', 'l', 'i', 'n', 'g']);
    assert("--log-format"@ =~= seq!['-', '-', 'l', 'o', 'g', '-', 'f', 'o', 'r', 'm', 'a', 't']);
    assert("-v"@ =~= seq!['-', 'v']);
}

/// YaRN gating: without YaRN scaling none of the three YaRN flags is
/// emitted, whatever their fields hold.
#[verifier::rlimit(100)]
pub proof fn lemma_yarn_gating(c: ServerConfig)
    requires
        no_dashed_values(c),
        c.rope_scaling != RopeScaling::Yarn,
    ensures
        !spec_args(c).contains("--yarn-orig-ctx"@),
        !spec_args(c).contains("--yarn-ext-factor"@),
        !spec_args(c).contains("--yarn-attn-factor"@),
{
    assert(!spec_args(c).contains("--yarn-orig-ctx"@)) by {
        lemma_flag_tokens();
        lemma_flag_presence(c, "--yarn-orig-ctx"@);
    }
    assert(!spec_args(c).contains("--yarn-ext-factor"@)) by {
        lemma_flag_tokens();
        lemma_flag_presence(c, "--yarn-ext-factor"@);
    }
    assert(!spec_args(c).contains("--yarn-attn-factor"@)) by {
        lemma_flag_tokens();
        lemma_flag_presence(c, "--yarn-attn-factor"@);
    }
}

/// Speculative-decoding gating: without a draft model none of the
/// three draft flags is emitted, whatever their fields hold.
#[verifier::rlimit(100)]
pub proof fn lemma_draft_gating(c: ServerConfig)
    requires
        no_dashed_values(c),
        c.draft_model@.len() == 0,
    ensures
        !spec_args(c).contains("-md"@),
        !spec_args(c).contains("-ngld"@),
        !spec_args(c).contains("--draft"@),
{
    assert(!spec_args(c).contains("-md"@)) by {
        lemma_flag_tokens();
        lemma_flag_presence(c, "-md"@);
    }
    assert(!spec_args(c).contains("-ngld"@)) by {
        lemma_flag_tokens();
        lemma_flag_presence(c, "-ngld"@);
    }
    assert(!spec_args(c).contains("--draft"@)) by {
        lemma_flag_tokens();
        lemma_flag_presence(c, "--draft"@);
    }
}

} // verus!
