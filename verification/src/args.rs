//! The argument compiler: the pure, total translation of a settings
//! value into the ordered argument vector of the external server.
//!
//! The emission policy is *omit unless non-default*: a string field is
//! emitted iff non-empty, a numeric field iff it differs from its
//! sentinel, an enum iff it differs from its default, and a boolean as a
//! bare flag iff true — with the exceptions the per-group specifications
//! below spell out (host, port, context and batch sizes are always
//! emitted, and flash attention always carries an explicit on/off
//! token).  Emission order is fixed: model, server, context, GPU,
//! performance, sampling, RoPE, LoRA, speculative decoding, API,
//! embedding, logging.

use vstd::prelude::*;
use crate::enums::{SplitMode, CacheType, RopeScaling, LogFormat, PoolingType};
use crate::enums::{
    spec_split_mode_str,
    spec_cache_type_str,
    spec_rope_scaling_str,
    spec_log_format_str,
    spec_pooling_str,
};
use crate::fixed::{spec_fixed2, spec_trim2};
use crate::numfmt::{spec_udec, spec_idec, fmt_u64, fmt_i64};
use crate::settings::{LoraAdapter, ServerConfig};

verus! {

broadcast use vstd::seq_lib::group_seq_lib_default;

/// The views of a sequence of strings: the token sequence it stands for.
pub open spec fn string_views(v: Seq<String>) -> Seq<Seq<char>> {
    v.map_values(|s: String| s@)
}

/// Pushing a string and then taking views is taking views and pushing
/// the view.
pub broadcast proof fn lemma_views_push(v: Seq<String>, x: String)
    ensures
        #[trigger] string_views(v.push(x)) == string_views(v).push(x@),
{
    assert(string_views(v.push(x)) =~= string_views(v).push(x@));
}

// ── Per-group emission specifications ───────────────────────────────

/// A `flag value` pair iff the value is non-empty, else nothing.
pub open spec fn spec_opt_str(flag: Seq<char>, v: Seq<char>) -> Seq<Seq<char>> {
    if v.len() > 0 {
        seq![flag, v]
    } else {
        Seq::empty()
    }
}

/// Model source: every string field of the group, each emitted iff
/// non-empty.
pub open spec fn spec_model_args(c: ServerConfig) -> Seq<Seq<char>> {
    spec_opt_str("-m"@, c.model_path@) + spec_opt_str("--models-dir"@, c.model_dir@)
        + spec_opt_str("-a"@, c.model_alias@) + spec_opt_str("-mu"@, c.model_url@)
        + spec_opt_str("-hfr"@, c.hf_repo@) + spec_opt_str("-hff"@, c.hf_file@)
        + spec_opt_str("-hft"@, c.hf_token@) + spec_opt_str("--chat-template"@, c.chat_template@)
        + spec_opt_str("-sp"@, c.system_prompt@)
}

/// Network binding: host and port always; timeout and HTTP thread count
/// only when positive (zero means unset).
pub open spec fn spec_server_args(c: ServerConfig) -> Seq<Seq<char>> {
    seq!["--host"@, c.host@] + seq!["--port"@, spec_udec(c.port as nat)] + (if c.timeout > 0 {
        seq!["--timeout"@, spec_udec(c.timeout as nat)]
    } else {
        Seq::empty()
    }) + (if c.threads_http > 0 {
        seq!["--threads-http"@, spec_udec(c.threads_http as nat)]
    } else {
        Seq::empty()
    })
}

/// Context and batching: context, batch and micro-batch sizes always;
/// prediction limit unless at its `-1` sentinel; parallelism only above
/// one; continuous batching as a bare flag.
pub open spec fn spec_context_args(c: ServerConfig) -> Seq<Seq<char>> {
    seq!["-c"@, spec_udec(c.ctx_size as nat)] + (if c.predict != -1 {
        seq!["-n"@, spec_idec(c.predict as int)]
    } else {
        Seq::empty()
    }) + seq!["-b"@, spec_udec(c.batch_size as nat)] + seq!["-ub"@, spec_udec(c.ubatch_size as nat)]
        + (if c.parallel > 1 {
        seq!["-np"@, spec_udec(c.parallel as nat)]
    } else {
        Seq::empty()
    }) + (if c.cont_batching {
        seq!["-cb"@]
    } else {
        Seq::empty()
    })
}

/// GPU and memory: layer count unless zero, split mode unless the
/// default `Layer`, tensor split iff given, main GPU when positive, the
/// auto-fit flag with an explicit `on` token, the boolean memory flags,
/// and each cache type unless the default `F16`.
pub open spec fn spec_gpu_args(c: ServerConfig) -> Seq<Seq<char>> {
    spec_gpu_offload_args(c) + spec_gpu_memory_args(c)
}

/// The offload half of the GPU group: layer count, split mode, tensor
/// split, main GPU, auto-fit.
pub open spec fn spec_gpu_offload_args(c: ServerConfig) -> Seq<Seq<char>> {
    (if c.gpu_layers != 0 {
        seq!["-ngl"@, spec_idec(c.gpu_layers as int)]
    } else {
        Seq::empty()
    }) + (if c.split_mode != SplitMode::Layer {
        seq!["-sm"@, spec_split_mode_str(c.split_mode)]
    } else {
        Seq::empty()
    }) + spec_opt_str("-ts"@, c.tensor_split@) + (if c.main_gpu > 0 {
        seq!["-mg"@, spec_udec(c.main_gpu as nat)]
    } else {
        Seq::empty()
    }) + (if c.fit {
        seq!["--fit"@, "on"@]
    } else {
        Seq::empty()
    })
}

/// The memory half of the GPU group: the boolean memory flags and the
/// two cache types.
pub open spec fn spec_gpu_memory_args(c: ServerConfig) -> Seq<Seq<char>> {
    (if c.mlock {
        seq!["--mlock"@]
    } else {
        Seq::empty()
    }) + (if c.no_mmap {
        seq!["--no-mmap"@]
    } else {
        Seq::empty()
    }) + (if c.no_kv_offload {
        seq!["-nkvo"@]
    } else {
        Seq::empty()
    }) + (if c.cache_type_k != CacheType::F16 {
        seq!["-ctk"@, spec_cache_type_str(c.cache_type_k)]
    } else {
        Seq::empty()
    }) + (if c.cache_type_v != CacheType::F16 {
        seq!["-ctv"@, spec_cache_type_str(c.cache_type_v)]
    } else {
        Seq::empty()
    })
}

/// Performance: thread counts when positive, flash attention always
/// with an explicit on/off value, and the two boolean toggles.
pub open spec fn spec_perf_args(c: ServerConfig) -> Seq<Seq<char>> {
    (if c.threads > 0 {
        seq!["-t"@, spec_udec(c.threads as nat)]
    } else {
        Seq::empty()
    }) + (if c.threads_batch > 0 {
        seq!["-tb"@, spec_udec(c.threads_batch as nat)]
    } else {
        Seq::empty()
    }) + seq!["-fa"@, if c.flash_attn { "on"@ } else { "off"@ }] + (if c.no_warmup {
        seq!["--no-warmup"@]
    } else {
        Seq::empty()
    }) + (if c.check_tensors {
        seq!["--check-tensors"@]
    } else {
        Seq::empty()
    })
}

/// Sampling: temperature, top-k, top-p and min-p always (two-decimal
/// rendering for the fixed-point ones); penalties only away from their
/// neutral values; seed unless at its `-1` sentinel; grammar text and
/// file iff given.
pub open spec fn spec_sampling_args(c: ServerConfig) -> Seq<Seq<char>> {
    spec_sampling_core_args(c) + spec_sampling_tuning_args(c)
}

/// The always-emitted core sampling parameters.
pub open spec fn spec_sampling_core_args(c: ServerConfig) -> Seq<Seq<char>> {
    seq!["--temp"@, spec_fixed2(c.temp.centi as int)] + seq!["--top-k"@, spec_udec(c.top_k as nat)]
        + seq!["--top-p"@, spec_fixed2(c.top_p.centi as int)]
        + seq!["--min-p"@, spec_fixed2(c.min_p.centi as int)]
}

/// The conditional sampling parameters: penalties, seed and grammars.
pub open spec fn spec_sampling_tuning_args(c: ServerConfig) -> Seq<Seq<char>> {
    (if c.repeat_penalty.centi != 100 {
        seq!["--repeat-penalty"@, spec_fixed2(c.repeat_penalty.centi as int)]
    } else {
        Seq::empty()
    }) + (if c.presence_penalty.centi != 0 {
        seq!["--presence-penalty"@, spec_fixed2(c.presence_penalty.centi as int)]
    } else {
        Seq::empty()
    }) + (if c.frequency_penalty.centi != 0 {
        seq!["--frequency-penalty"@, spec_fixed2(c.frequency_penalty.centi as int)]
    } else {
        Seq::empty()
    }) + (if c.seed != -1 {
        seq!["-s"@, spec_idec(c.seed as int)]
    } else {
        Seq::empty()
    }) + spec_opt_str("--grammar"@, c.grammar@) + spec_opt_str("--grammar-file"@, c.grammar_file@)
}

/// RoPE: the scaling mode unless disabled, the frequency overrides when
/// positive, and the YaRN fields only under YaRN scaling and away from
/// their respective sentinels.
pub open spec fn spec_rope_args(c: ServerConfig) -> Seq<Seq<char>> {
    spec_rope_base_args(c) + (if c.rope_scaling == RopeScaling::Yarn {
        spec_yarn_args(c)
    } else {
        Seq::empty()
    })
}

/// The scaling mode and frequency overrides.
pub open spec fn spec_rope_base_args(c: ServerConfig) -> Seq<Seq<char>> {
    (if c.rope_scaling != RopeScaling::Disabled {
        seq!["--rope-scaling"@, spec_rope_scaling_str(c.rope_scaling)]
    } else {
        Seq::empty()
    }) + (if c.rope_freq_base.centi > 0 {
        seq!["--rope-freq-base"@, spec_trim2(c.rope_freq_base.centi as int)]
    } else {
        Seq::empty()
    }) + (if c.rope_freq_scale.centi > 0 {
        seq!["--rope-freq-scale"@, spec_trim2(c.rope_freq_scale.centi as int)]
    } else {
        Seq::empty()
    })
}

/// The YaRN-only fields: original context when positive, extension
/// factor away from its `-1` sentinel, attention factor away from `1`.
pub open spec fn spec_yarn_args(c: ServerConfig) -> Seq<Seq<char>> {
    (if c.yarn_orig_ctx > 0 {
        seq!["--yarn-orig-ctx"@, spec_udec(c.yarn_orig_ctx as nat)]
    } else {
        Seq::empty()
    }) + (if c.yarn_ext_factor.centi != -100 {
        seq!["--yarn-ext-factor"@, spec_trim2(c.yarn_ext_factor.centi as int)]
    } else {
        Seq::empty()
    }) + (if c.yarn_attn_factor.centi != 100 {
        seq!["--yarn-attn-factor"@, spec_trim2(c.yarn_attn_factor.centi as int)]
    } else {
        Seq::empty()
    })
}

/// One LoRA entry: skipped when its path is empty; `--lora path` at the
/// neutral scale of one; `--lora-scaled path scale` otherwise, the scale
/// rendered with two decimals.
pub open spec fn spec_lora_entry(l: LoraAdapter) -> Seq<Seq<char>> {
    if l.path@.len() == 0 {
        Seq::empty()
    } else if l.scale.centi == 100 {
        seq!["--lora"@, l.path@]
    } else {
        seq!["--lora-scaled"@, l.path@, spec_fixed2(l.scale.centi as int)]
    }
}

/// The emissions of the first `n` LoRA entries, in insertion order.
pub open spec fn spec_lora_prefix(ls: Seq<LoraAdapter>, n: int) -> Seq<Seq<char>>
    decreases n,
{
    if n <= 0 {
        Seq::empty()
    } else {
        spec_lora_prefix(ls, n - 1) + spec_lora_entry(ls[n - 1])
    }
}

/// All LoRA entries, in insertion order.
pub open spec fn spec_lora_args(c: ServerConfig) -> Seq<Seq<char>> {
    spec_lora_prefix(c.lora_adapters@, c.lora_adapters@.len() as int)
}

/// Speculative decoding: nothing at all without a draft model; with
/// one, the draft path, the draft GPU layers unless zero, and the draft
/// token count always.
pub open spec fn spec_draft_args(c: ServerConfig) -> Seq<Seq<char>> {
    if c.draft_model@.len() > 0 {
        seq!["-md"@, c.draft_model@] + (if c.draft_gpu_layers != 0 {
            seq!["-ngld"@, spec_idec(c.draft_gpu_layers as int)]
        } else {
            Seq::empty()
        }) + seq!["--draft"@, spec_udec(c.draft_tokens as nat)]
    } else {
        Seq::empty()
    }
}

/// API and security: the key and key file iff given, the two endpoint
/// toggles, and the slot snapshot directory iff given.
pub open spec fn spec_api_args(c: ServerConfig) -> Seq<Seq<char>> {
    spec_opt_str("--api-key"@, c.api_key@) + spec_opt_str("--api-key-file"@, c.api_key_file@) + (
    if c.metrics {
        seq!["--metrics"@]
    } else {
        Seq::empty()
    }) + (if c.slots {
        seq!["--slots"@]
    } else {
        Seq::empty()
    }) + spec_opt_str("--slot-save-path"@, c.slot_save_path@)
}

/// Embedding: the flag iff enabled, and under it the pooling mode
/// unless at its default.
pub open spec fn spec_embedding_args(c: ServerConfig) -> Seq<Seq<char>> {
    if c.embedding {
        seq!["--embedding"@] + (if c.pooling != PoolingType::NoPooling {
            seq!["--pooling"@, spec_pooling_str(c.pooling)]
        } else {
            Seq::empty()
        })
    } else {
        Seq::empty()
    }
}

/// Logging: the format unless at its default `Text`, and the verbose
/// toggle.
pub open spec fn spec_logging_args(c: ServerConfig) -> Seq<Seq<char>> {
    (if c.log_format != LogFormat::Text {
        seq!["--log-format"@, spec_log_format_str(c.log_format)]
    } else {
        Seq::empty()
    }) + (if c.verbose {
        seq!["-v"@]
    } else {
        Seq::empty()
    })
}

/// The whole argument vector: the twelve groups in their fixed order.
pub open spec fn spec_args(c: ServerConfig) -> Seq<Seq<char>> {
    spec_model_args(c) + spec_server_args(c) + spec_context_args(c) + spec_gpu_args(c)
        + spec_perf_args(c) + spec_sampling_args(c) + spec_rope_args(c) + spec_lora_args(c)
        + spec_draft_args(c) + spec_api_args(c) + spec_embedding_args(c) + spec_logging_args(c)
}

// ── Token-pushing helpers ───────────────────────────────────────────

fn push_tok(a: &mut Vec<String>, t: &str)
    ensures
        string_views(final(a)@) == string_views(old(a)@).push(t@),
{
    broadcast use lemma_views_push;

    let s = String::from_str(t);
    a.push(s);
    proof {
        assert(string_views(a@) =~= string_views(old(a)@).push(t@));
    }
}

fn push_pair(a: &mut Vec<String>, flag: &str, v: String)
    ensures
        string_views(final(a)@) == string_views(old(a)@) + seq![flag@, v@],
{
    broadcast use lemma_views_push;

    push_tok(a, flag);
    a.push(v);
    proof {
        assert(string_views(a@) =~= string_views(old(a)@) + seq![flag@, v@]);
    }
}

fn push_triple(a: &mut Vec<String>, flag: &str, v1: String, v2: String)
    ensures
        string_views(final(a)@) == string_views(old(a)@) + seq![flag@, v1@, v2@],
{
    broadcast use lemma_views_push;

    push_tok(a, flag);
    a.push(v1);
    a.push(v2);
    proof {
        assert(string_views(a@) =~= string_views(old(a)@) + seq![flag@, v1@, v2@]);
    }
}

fn push_opt_str(a: &mut Vec<String>, flag: &str, v: &String)
    ensures
        string_views(final(a)@) == string_views(old(a)@) + spec_opt_str(flag@, v@),
{
    if !v.as_str().is_empty() {
        push_pair(a, flag, v.clone());
    }
    proof {
        assert(string_views(a@) =~= string_views(old(a)@) + spec_opt_str(flag@, v@));
    }
}

// ── Per-group emitters ──────────────────────────────────────────────

fn emit_model(c: &ServerConfig, a: &mut Vec<String>)
    ensures
        string_views(final(a)@) == string_views(old(a)@) + spec_model_args(*c),
{
    push_opt_str(a, "-m", &c.model_path);
    push_opt_str(a, "--models-dir", &c.model_dir);
    push_opt_str(a, "-a", &c.model_alias);
    push_opt_str(a, "-mu", &c.model_url);
    push_opt_str(a, "-hfr", &c.hf_repo);
    push_opt_str(a, "-hff", &c.hf_file);
    push_opt_str(a, "-hft", &c.hf_token);
    push_opt_str(a, "--chat-template", &c.chat_template);
    push_opt_str(a, "-sp", &c.system_prompt);
    proof {
        assert(string_views(a@) =~= string_views(old(a)@) + spec_model_args(*c));
    }
}

fn emit_server(c: &ServerConfig, a: &mut Vec<String>)
    ensures
        string_views(final(a)@) == string_views(old(a)@) + spec_server_args(*c),
{
    push_pair(a, "--host", c.host.clone());
    push_pair(a, "--port", fmt_u64(c.port as u64));
    if c.timeout > 0 {
        push_pair(a, "--timeout", fmt_u64(c.timeout as u64));
    }
    if c.threads_http > 0 {
        push_pair(a, "--threads-http", fmt_u64(c.threads_http as u64));
    }
    proof {
        assert(string_views(a@) =~= string_views(old(a)@) + spec_server_args(*c));
    }
}

fn emit_context(c: &ServerConfig, a: &mut Vec<String>)
    ensures
        string_views(final(a)@) == string_views(old(a)@) + spec_context_args(*c),
{
    push_pair(a, "-c", fmt_u64(c.ctx_size as u64));
    if c.predict != -1 {
        push_pair(a, "-n", fmt_i64(c.predict as i64));
    }
    push_pair(a, "-b", fmt_u64(c.batch_size as u64));
    push_pair(a, "-ub", fmt_u64(c.ubatch_size as u64));
    if c.parallel > 1 {
        push_pair(a, "-np", fmt_u64(c.parallel as u64));
    }
    if c.cont_batching {
        push_tok(a, "-cb");
    }
    proof {
        assert(string_views(a@) =~= string_views(old(a)@) + spec_context_args(*c));
    }
}

fn emit_gpu_offload(c: &ServerConfig, a: &mut Vec<String>)
    ensures
        string_views(final(a)@) == string_views(old(a)@) + spec_gpu_offload_args(*c),
{
    if c.gpu_layers != 0 {
        push_pair(a, "-ngl", fmt_i64(c.gpu_layers as i64));
    }
    if c.split_mode != SplitMode::Layer {
        push_pair(a, "-sm", String::from_str(c.split_mode.as_str()));
    }
    push_opt_str(a, "-ts", &c.tensor_split);
    if c.main_gpu > 0 {
        push_pair(a, "-mg", fmt_u64(c.main_gpu as u64));
    }
    if c.fit {
        push_pair(a, "--fit", String::from_str("on"));
    }
    proof {
        assert(string_views(a@) =~= string_views(old(a)@) + spec_gpu_offload_args(*c));
    }
}

fn emit_gpu_memory(c: &ServerConfig, a: &mut Vec<String>)
    ensures
        string_views(final(a)@) == string_views(old(a)@) + spec_gpu_memory_args(*c),
{
    if c.mlock {
        push_tok(a, "--mlock");
    }
    if c.no_mmap {
        push_tok(a, "--no-mmap");
    }
    if c.no_kv_offload {
        push_tok(a, "-nkvo");
    }
    if c.cache_type_k != CacheType::F16 {
        push_pair(a, "-ctk", String::from_str(c.cache_type_k.as_str()));
    }
    if c.cache_type_v != CacheType::F16 {
        push_pair(a, "-ctv", String::from_str(c.cache_type_v.as_str()));
    }
    proof {
        assert(string_views(a@) =~= string_views(old(a)@) + spec_gpu_memory_args(*c));
    }
}

fn emit_gpu(c: &ServerConfig, a: &mut Vec<String>)
    ensures
        string_views(final(a)@) == string_views(old(a)@) + spec_gpu_args(*c),
{
    emit_gpu_offload(c, a);
    emit_gpu_memory(c, a);
    proof {
        assert(string_views(a@) =~= string_views(old(a)@) + spec_gpu_args(*c));
    }
}

fn emit_perf(c: &ServerConfig, a: &mut Vec<String>)
    ensures
        string_views(final(a)@) == string_views(old(a)@) + spec_perf_args(*c),
{
    if c.threads > 0 {
        push_pair(a, "-t", fmt_u64(c.threads as u64));
    }
    if c.threads_batch > 0 {
        push_pair(a, "-tb", fmt_u64(c.threads_batch as u64));
    }
    if c.flash_attn {
        push_pair(a, "-fa", String::from_str("on"));
    } else {
        push_pair(a, "-fa", String::from_str("off"));
    }
    if c.no_warmup {
        push_tok(a, "--no-warmup");
    }
    if c.check_tensors {
        push_tok(a, "--check-tensors");
    }
    proof {
        assert(string_views(a@) =~= string_views(old(a)@) + spec_perf_args(*c));
    }
}

fn emit_sampling_core(c: &ServerConfig, a: &mut Vec<String>)
    ensures
        string_views(final(a)@) == string_views(old(a)@) + spec_sampling_core_args(*c),
{
    push_pair(a, "--temp", c.temp.fmt_fixed());
    push_pair(a, "--top-k", fmt_u64(c.top_k as u64));
    push_pair(a, "--top-p", c.top_p.fmt_fixed());
    push_pair(a, "--min-p", c.min_p.fmt_fixed());
    proof {
        assert(string_views(a@) =~= string_views(old(a)@) + spec_sampling_core_args(*c));
    }
}

fn emit_sampling_tuning(c: &ServerConfig, a: &mut Vec<String>)
    ensures
        string_views(final(a)@) == string_views(old(a)@) + spec_sampling_tuning_args(*c),
{
    if c.repeat_penalty.centi != 100 {
        push_pair(a, "--repeat-penalty", c.repeat_penalty.fmt_fixed());
    }
    if c.presence_penalty.centi != 0 {
        push_pair(a, "--presence-penalty", c.presence_penalty.fmt_fixed());
    }
    if c.frequency_penalty.centi != 0 {
        push_pair(a, "--frequency-penalty", c.frequency_penalty.fmt_fixed());
    }
    if c.seed != -1 {
        push_pair(a, "-s", fmt_i64(c.seed));
    }
    push_opt_str(a, "--grammar", &c.grammar);
    push_opt_str(a, "--grammar-file", &c.grammar_file);
    proof {
        assert(string_views(a@) =~= string_views(old(a)@) + spec_sampling_tuning_args(*c));
    }
}

fn emit_sampling(c: &ServerConfig, a: &mut Vec<String>)
    ensures
        string_views(final(a)@) == string_views(old(a)@) + spec_sampling_args(*c),
{
    emit_sampling_core(c, a);
    emit_sampling_tuning(c, a);
    proof {
        assert(string_views(a@) =~= string_views(old(a)@) + spec_sampling_args(*c));
    }
}

fn emit_rope_base(c: &ServerConfig, a: &mut Vec<String>)
    ensures
        string_views(final(a)@) == string_views(old(a)@) + spec_rope_base_args(*c),
{
    if c.rope_scaling != RopeScaling::Disabled {
        push_pair(a, "--rope-scaling", String::from_str(c.rope_scaling.as_str()));
    }
    if c.rope_freq_base.centi > 0 {
        push_pair(a, "--rope-freq-base", c.rope_freq_base.fmt_trimmed());
    }
    if c.rope_freq_scale.centi > 0 {
        push_pair(a, "--rope-freq-scale", c.rope_freq_scale.fmt_trimmed());
    }
    proof {
        assert(string_views(a@) =~= string_views(old(a)@) + spec_rope_base_args(*c));
    }
}

fn emit_yarn(c: &ServerConfig, a: &mut Vec<String>)
    ensures
        string_views(final(a)@) == string_views(old(a)@) + spec_yarn_args(*c),
{
    if c.yarn_orig_ctx > 0 {
        push_pair(a, "--yarn-orig-ctx", fmt_u64(c.yarn_orig_ctx as u64));
    }
    if c.yarn_ext_factor.centi != -100 {
        push_pair(a, "--yarn-ext-factor", c.yarn_ext_factor.fmt_trimmed());
    }
    if c.yarn_attn_factor.centi != 100 {
        push_pair(a, "--yarn-attn-factor", c.yarn_attn_factor.fmt_trimmed());
    }
    proof {
        assert(string_views(a@) =~= string_views(old(a)@) + spec_yarn_args(*c));
    }
}

fn emit_rope(c: &ServerConfig, a: &mut Vec<String>)
    ensures
        string_views(final(a)@) == string_views(old(a)@) + spec_rope_args(*c),
{
    emit_rope_base(c, a);
    if c.rope_scaling == RopeScaling::Yarn {
        emit_yarn(c, a);
    }
    proof {
        assert(string_views(a@) =~= string_views(old(a)@) + spec_rope_args(*c));
    }
}

fn emit_lora(c: &ServerConfig, a: &mut Vec<String>)
    ensures
        string_views(final(a)@) == string_views(old(a)@) + spec_lora_args(*c),
{
    broadcast use lemma_views_push;

    let n = c.lora_adapters.len();
    let mut i: usize = 0;
    while i < n
        invariant
            i <= n,
            n == c.lora_adapters@.len(),
            string_views(a@) == string_views(old(a)@) + spec_lora_prefix(c.lora_adapters@, i as int),
        decreases n - i,
    {
        let l = &c.lora_adapters[i];
        if !l.path.as_str().is_empty() {
            if l.scale.centi == 100 {
                push_pair(a, "--lora", l.path.clone());
            } else {
                push_triple(a, "--lora-scaled", l.path.clone(), l.scale.fmt_fixed());
            }
        }
        proof {
            let ls = c.lora_adapters@;
            assert(string_views(a@) =~= string_views(old(a)@) + spec_lora_prefix(ls, i as int)
                + spec_lora_entry(ls[i as int]));
            assert(spec_lora_prefix(ls, i as int + 1) == spec_lora_prefix(ls, i as int)
                + spec_lora_entry(ls[i as int]));
            assert(string_views(a@) =~= string_views(old(a)@) + spec_lora_prefix(
                ls,
                i as int + 1,
            ));
        }
        i = i + 1;
    }
}

fn emit_draft(c: &ServerConfig, a: &mut Vec<String>)
    ensures
        string_views(final(a)@) == string_views(old(a)@) + spec_draft_args(*c),
{
    if !c.draft_model.as_str().is_empty() {
        push_pair(a, "-md", c.draft_model.clone());
        if c.draft_gpu_layers != 0 {
            push_pair(a, "-ngld", fmt_i64(c.draft_gpu_layers as i64));
        }
        push_pair(a, "--draft", fmt_u64(c.draft_tokens as u64));
    }
    proof {
        assert(string_views(a@) =~= string_views(old(a)@) + spec_draft_args(*c));
    }
}

fn emit_api(c: &ServerConfig, a: &mut Vec<String>)
    ensures
        string_views(final(a)@) == string_views(old(a)@) + spec_api_args(*c),
{
    push_opt_str(a, "--api-key", &c.api_key);
    push_opt_str(a, "--api-key-file", &c.api_key_file);
    if c.metrics {
        push_tok(a, "--metrics");
    }
    if c.slots {
        push_tok(a, "--slots");
    }
    push_opt_str(a, "--slot-save-path", &c.slot_save_path);
    proof {
        assert(string_views(a@) =~= string_views(old(a)@) + spec_api_args(*c));
    }
}

fn emit_embedding(c: &ServerConfig, a: &mut Vec<String>)
    ensures
        string_views(final(a)@) == string_views(old(a)@) + spec_embedding_args(*c),
{
    if c.embedding {
        push_tok(a, "--embedding");
        if c.pooling != PoolingType::NoPooling {
            push_pair(a, "--pooling", String::from_str(c.pooling.as_str()));
        }
    }
    proof {
        assert(string_views(a@) =~= string_views(old(a)@) + spec_embedding_args(*c));
    }
}

fn emit_logging(c: &ServerConfig, a: &mut Vec<String>)
    ensures
        string_views(final(a)@) == string_views(old(a)@) + spec_logging_args(*c),
{
    if c.log_format != LogFormat::Text {
        push_pair(a, "--log-format", String::from_str(c.log_format.as_str()));
    }
    if c.verbose {
        push_tok(a, "-v");
    }
    proof {
        assert(string_views(a@) =~= string_views(old(a)@) + spec_logging_args(*c));
    }
}

// ── The compiler itself ─────────────────────────────────────────────

/// The spaced joining of a token sequence, used by the preview string.
pub open spec fn spec_join_sp(parts: Seq<Seq<char>>) -> Seq<char>
    decreases parts.len(),
{
    if parts.len() == 0 {
        Seq::empty()
    } else if parts.len() == 1 {
        parts[0]
    } else {
        spec_join_sp(parts.drop_last()) + seq![' '] + parts.last()
    }
}

impl ServerConfig {
    /// Compiles the settings into the ordered CLI argument vector for
    /// the external server.  Total and deterministic: the result is
    /// exactly the token sequence of the emission specification, for
    /// every settings value.
    pub fn to_args(&self) -> (r: Vec<String>)
        ensures
            string_views(r@) == spec_args(*self),
    {
        let mut a: Vec<String> = Vec::new();
        emit_model(self, &mut a);
        emit_server(self, &mut a);
        emit_context(self, &mut a);
        emit_gpu(self, &mut a);
        emit_perf(self, &mut a);
        emit_sampling(self, &mut a);
        emit_rope(self, &mut a);
        emit_lora(self, &mut a);
        emit_draft(self, &mut a);
        emit_api(self, &mut a);
        emit_embedding(self, &mut a);
        emit_logging(self, &mut a);
        proof {
            assert(string_views(a@) =~= spec_args(*self));
        }
        a
    }

    /// The human-readable command line: the executable path and the
    /// compiled arguments joined by single spaces.  Display only — the
    /// launcher hands the structured vector, not this string, to the
    /// process.
    pub fn command_preview(&self) -> (r: String)
        ensures
            r@ == spec_join_sp(seq![self.exe_path@] + spec_args(*self)),
    {
        let args = self.to_args();
        let ghost parts: Seq<Seq<char>> = seq![self.exe_path@] + spec_args(*self);
        let mut r = self.exe_path.clone();
        proof {
            assert(parts.take(1) =~= seq![self.exe_path@]);
        }
        let mut i: usize = 0;
        while i < args.len()
            invariant
                i <= args.len(),
                string_views(args@) == spec_args(*self),
                parts == seq![self.exe_path@] + spec_args(*self),
                parts.len() == 1 + args@.len(),
                r@ == spec_join_sp(parts.take(i + 1)),
            decreases args.len() - i,
        {
            r.append(" ");
            r.append(args[i].as_str());
            i = i + 1;
            proof {
                reveal_strlit(" ");
                let p = parts.take(i as int + 1);
                assert(p.drop_last() =~= parts.take(i as int));
                assert(p.last() == string_views(args@)[i - 1]);
                assert(r@ =~= spec_join_sp(p));
            }
        }
        proof {
            assert(parts.take(args@.len() as int + 1) =~= parts);
        }
        r
    }
}

} // verus!
