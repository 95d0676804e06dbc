//! The settings model: one flat aggregate of every configurable field
//! for the external inference server, together with its total defaults.
//!
//! The aggregate carries no derived state; the argument compiler reads
//! it fresh on every call.  Decimal-valued fields are held as [`Fixed2`]
//! hundredths, which the compiler's renderings and sentinel comparisons
//! read exactly.

use vstd::prelude::*;
use crate::enums::{SplitMode, CacheType, RopeScaling, LogFormat, PoolingType};
use crate::fixed::Fixed2;

verus! {

/// One LoRA adapter entry: a path and the scale it is applied with.
/// Insertion order of entries determines emission order.
#[derive(Clone, Debug)]
pub struct LoraAdapter {
    pub path: String,
    pub scale: Fixed2,
}

/// The full settings aggregate for one `llama-server` session.
#[derive(Clone, Debug)]
pub struct ServerConfig {
    // Executable
    pub exe_path: String,
    // Model source
    pub model_path: String,
    pub model_dir: String,
    pub model_alias: String,
    pub model_url: String,
    pub hf_repo: String,
    pub hf_file: String,
    pub hf_token: String,
    pub chat_template: String,
    pub system_prompt: String,
    // Server
    pub host: String,
    pub port: u16,
    pub timeout: u32,
    pub threads_http: u32,
    // Context and batching
    pub ctx_size: u32,
    pub predict: i32,
    pub batch_size: u32,
    pub ubatch_size: u32,
    pub parallel: u32,
    pub cont_batching: bool,
    // GPU and memory
    pub gpu_layers: i32,
    pub split_mode: SplitMode,
    pub tensor_split: String,
    pub main_gpu: u32,
    pub fit: bool,
    pub mlock: bool,
    pub no_mmap: bool,
    pub no_kv_offload: bool,
    pub cache_type_k: CacheType,
    pub cache_type_v: CacheType,
    // Performance
    pub threads: u32,
    pub threads_batch: u32,
    pub flash_attn: bool,
    pub no_warmup: bool,
    pub check_tensors: bool,
    // Sampling
    pub temp: Fixed2,
    pub top_k: u32,
    pub top_p: Fixed2,
    pub min_p: Fixed2,
    pub repeat_penalty: Fixed2,
    pub presence_penalty: Fixed2,
    pub frequency_penalty: Fixed2,
    pub seed: i64,
    pub grammar: String,
    pub grammar_file: String,
    // RoPE
    pub rope_scaling: RopeScaling,
    pub rope_freq_base: Fixed2,
    pub rope_freq_scale: Fixed2,
    pub yarn_orig_ctx: u32,
    pub yarn_ext_factor: Fixed2,
    pub yarn_attn_factor: Fixed2,
    pub yarn_beta_fast: Fixed2,
    pub yarn_beta_slow: Fixed2,
    // LoRA
    pub lora_adapters: Vec<LoraAdapter>,
    // Speculative decoding
    pub draft_model: String,
    pub draft_gpu_layers: i32,
    pub draft_tokens: u32,
    // API and security
    pub api_key: String,
    pub api_key_file: String,
    pub metrics: bool,
    pub slots: bool,
    pub slot_save_path: String,
    // Embedding
    pub embedding: bool,
    pub pooling: PoolingType,
    // Logging
    pub log_format: LogFormat,
    pub verbose: bool,
}

/// The total default described by the settings model: every field of a
/// freshly constructed aggregate.
pub open spec fn is_default(c: ServerConfig) -> bool {
    &&& c.exe_path@ == "llama-server"@
    &&& c.model_path@ == Seq::<char>::empty()
    &&& c.model_dir@ == Seq::<char>::empty()
    &&& c.model_alias@ == Seq::<char>::empty()
    &&& c.model_url@ == Seq::<char>::empty()
    &&& c.hf_repo@ == Seq::<char>::empty()
    &&& c.hf_file@ == Seq::<char>::empty()
    &&& c.hf_token@ == Seq::<char>::empty()
    &&& c.chat_template@ == Seq::<char>::empty()
    &&& c.system_prompt@ == Seq::<char>::empty()
    &&& c.host@ == "127.0.0.1"@
    &&& c.port == 8080
    &&& c.timeout == 0
    &&& c.threads_http == 0
    &&& c.ctx_size == 8192
    &&& c.predict == -1
    &&& c.batch_size == 2048
    &&& c.ubatch_size == 512
    &&& c.parallel == 1
    &&& c.cont_batching == true
    &&& c.gpu_layers == -1
    &&& c.split_mode == SplitMode::Layer
    &&& c.tensor_split@ == Seq::<char>::empty()
    &&& c.main_gpu == 0
    &&& c.fit == true
    &&& c.mlock == false
    &&& c.no_mmap == false
    &&& c.no_kv_offload == false
    &&& c.cache_type_k == CacheType::F16
    &&& c.cache_type_v == CacheType::F16
    &&& c.threads == 0
    &&& c.threads_batch == 0
    &&& c.flash_attn == true
    &&& c.no_warmup == false
    &&& c.check_tensors == false
    &&& c.temp.centi == 80
    &&& c.top_k == 40
    &&& c.top_p.centi == 95
    &&& c.min_p.centi == 5
    &&& c.repeat_penalty.centi == 100
    &&& c.presence_penalty.centi == 0
    &&& c.frequency_penalty.centi == 0
    &&& c.seed == -1
    &&& c.grammar@ == Seq::<char>::empty()
    &&& c.grammar_file@ == Seq::<char>::empty()
    &&& c.rope_scaling == RopeScaling::Disabled
    &&& c.rope_freq_base.centi == 0
    &&& c.rope_freq_scale.centi == 0
    &&& c.yarn_orig_ctx == 0
    &&& c.yarn_ext_factor.centi == -100
    &&& c.yarn_attn_factor.centi == 100
    &&& c.yarn_beta_fast.centi == 3200
    &&& c.yarn_beta_slow.centi == 100
    &&& c.lora_adapters@ == Seq::<LoraAdapter>::empty()
    &&& c.draft_model@ == Seq::<char>::empty()
    &&& c.draft_gpu_layers == -1
    &&& c.draft_tokens == 5
    &&& c.api_key@ == Seq::<char>::empty()
    &&& c.api_key_file@ == Seq::<char>::empty()
    &&& c.metrics == false
    &&& c.slots == false
    &&& c.slot_save_path@ == Seq::<char>::empty()
    &&& c.embedding == false
    &&& c.pooling == PoolingType::NoPooling
    &&& c.log_format == LogFormat::Text
    &&& c.verbose == false
}

/// At least one way of naming the model to serve has been given.  This
/// is the one cross-field condition checked before a launch.
pub open spec fn has_model_source(c: ServerConfig) -> bool {
    ||| c.model_path@.len() > 0
    ||| c.hf_repo@.len() > 0
    ||| c.model_url@.len() > 0
    ||| c.model_dir@.len() > 0
}

impl Default for ServerConfig {
    /// The total-default aggregate: it compiles to a valid argument
    /// vector without any field being touched.
    fn default() -> (r: Self)
        ensures
            is_default(r),
    {
        ServerConfig {
            exe_path: String::from_str("llama-server"),
            model_path: String::new(),
            model_dir: String::new(),
            model_alias: String::new(),
            model_url: String::new(),
            hf_repo: String::new(),
            hf_file: String::new(),
            hf_token: String::new(),
            chat_template: String::new(),
            system_prompt: String::new(),
            host: String::from_str("127.0.0.1"),
            port: 8080,
            timeout: 0,
            threads_http: 0,
            ctx_size: 8192,
            predict: -1,
            batch_size: 2048,
            ubatch_size: 512,
            parallel: 1,
            cont_batching: true,
            gpu_layers: -1,
            split_mode: SplitMode::Layer,
            tensor_split: String::new(),
            main_gpu: 0,
            fit: true,
            mlock: false,
            no_mmap: false,
            no_kv_offload: false,
            cache_type_k: CacheType::F16,
            cache_type_v: CacheType::F16,
            threads: 0,
            threads_batch: 0,
            flash_attn: true,
            no_warmup: false,
            check_tensors: false,
            temp: Fixed2 { centi: 80 },
            top_k: 40,
            top_p: Fixed2 { centi: 95 },
            min_p: Fixed2 { centi: 5 },
            repeat_penalty: Fixed2 { centi: 100 },
            presence_penalty: Fixed2 { centi: 0 },
            frequency_penalty: Fixed2 { centi: 0 },
            seed: -1,
            grammar: String::new(),
            grammar_file: String::new(),
            rope_scaling: RopeScaling::Disabled,
            rope_freq_base: Fixed2 { centi: 0 },
            rope_freq_scale: Fixed2 { centi: 0 },
            yarn_orig_ctx: 0,
            yarn_ext_factor: Fixed2 { centi: -100 },
            yarn_attn_factor: Fixed2 { centi: 100 },
            yarn_beta_fast: Fixed2 { centi: 3200 },
            yarn_beta_slow: Fixed2 { centi: 100 },
            lora_adapters: Vec::new(),
            draft_model: String::new(),
            draft_gpu_layers: -1,
            draft_tokens: 5,
            api_key: String::new(),
            api_key_file: String::new(),
            metrics: false,
            slots: false,
            slot_save_path: String::new(),
            embedding: false,
            pooling: PoolingType::NoPooling,
            log_format: LogFormat::Text,
            verbose: false,
        }
    }
}

impl ServerConfig {
    /// Whether a model source is present, as an executable check.
    pub fn model_source_given(&self) -> (r: bool)
        ensures
            r == has_model_source(*self),
    {
        !self.model_path.as_str().is_empty() || !self.hf_repo.as_str().is_empty()
            || !self.model_url.as_str().is_empty() || !self.model_dir.as_str().is_empty()
    }
}

} // verus!
