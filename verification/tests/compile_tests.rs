use llama_manager::enums::{SplitMode, CacheType, RopeScaling, LogFormat, PoolingType};
use llama_manager::fixed::Fixed2;
use llama_manager::launch::LaunchError;
use llama_manager::settings::{LoraAdapter, ServerConfig};

fn has_flag(args: &[String], flag: &str) -> bool {
    args.iter().any(|a| a == flag)
}

fn pair_after(args: &[String], flag: &str) -> Option<String> {
    let i = args.iter().position(|a| a == flag)?;
    args.get(i + 1).cloned()
}

#[test]
fn default_vector_exact() {
    let c = ServerConfig::default();
    let expected: Vec<&str> = vec![
        "--host", "127.0.0.1", "--port", "8080", "-c", "8192", "-b", "2048", "-ub", "512", "-cb",
        "-ngl", "-1", "--fit", "on", "-fa", "on", "--temp", "0.80", "--top-k", "40", "--top-p",
        "0.95", "--min-p", "0.05",
    ];
    assert_eq!(c.to_args(), expected);
}

#[test]
fn compile_is_deterministic() {
    let mut c = ServerConfig::default();
    c.model_path = "m.gguf".to_string();
    c.seed = 42;
    c.rope_scaling = RopeScaling::Yarn;
    c.yarn_orig_ctx = 2048;
    assert_eq!(c.to_args(), c.to_args());
}

#[test]
fn default_preview_exact() {
    let c = ServerConfig::default();
    assert_eq!(
        c.command_preview(),
        "llama-server --host 127.0.0.1 --port 8080 -c 8192 -b 2048 -ub 512 -cb -ngl -1 \
         --fit on -fa on --temp 0.80 --top-k 40 --top-p 0.95 --min-p 0.05"
    );
}

#[test]
fn model_strings_emitted_iff_nonempty() {
    let mut c = ServerConfig::default();
    let args = c.to_args();
    assert!(!has_flag(&args, "-m"));
    assert!(!has_flag(&args, "--models-dir"));
    assert!(!has_flag(&args, "-hfr"));
    c.model_path = "C:/models/x.gguf".to_string();
    c.hf_repo = "org/name".to_string();
    c.hf_file = "x.gguf".to_string();
    let args = c.to_args();
    assert_eq!(pair_after(&args, "-m").as_deref(), Some("C:/models/x.gguf"));
    assert_eq!(pair_after(&args, "-hfr").as_deref(), Some("org/name"));
    assert_eq!(pair_after(&args, "-hff").as_deref(), Some("x.gguf"));
}

#[test]
fn timeout_and_http_threads_omitted_at_zero() {
    let mut c = ServerConfig::default();
    assert!(!has_flag(&c.to_args(), "--timeout"));
    assert!(!has_flag(&c.to_args(), "--threads-http"));
    c.timeout = 30;
    c.threads_http = 8;
    let args = c.to_args();
    assert_eq!(pair_after(&args, "--timeout").as_deref(), Some("30"));
    assert_eq!(pair_after(&args, "--threads-http").as_deref(), Some("8"));
}

#[test]
fn predict_omitted_at_sentinel() {
    let mut c = ServerConfig::default();
    assert!(!has_flag(&c.to_args(), "-n"));
    c.predict = 256;
    assert_eq!(pair_after(&c.to_args(), "-n").as_deref(), Some("256"));
    c.predict = 0;
    assert_eq!(pair_after(&c.to_args(), "-n").as_deref(), Some("0"));
}

#[test]
fn parallel_emitted_only_above_one() {
    let mut c = ServerConfig::default();
    assert!(!has_flag(&c.to_args(), "-np"));
    c.parallel = 4;
    assert_eq!(pair_after(&c.to_args(), "-np").as_deref(), Some("4"));
}

#[test]
fn cont_batching_is_bare_flag() {
    let mut c = ServerConfig::default();
    assert!(has_flag(&c.to_args(), "-cb"));
    c.cont_batching = false;
    assert!(!has_flag(&c.to_args(), "-cb"));
}

#[test]
fn gpu_layers_omitted_at_zero() {
    let mut c = ServerConfig::default();
    c.gpu_layers = 0;
    assert!(!has_flag(&c.to_args(), "-ngl"));
    c.gpu_layers = 33;
    assert_eq!(pair_after(&c.to_args(), "-ngl").as_deref(), Some("33"));
    c.gpu_layers = -1;
    assert_eq!(pair_after(&c.to_args(), "-ngl").as_deref(), Some("-1"));
}

#[test]
fn split_mode_emitted_unless_layer() {
    let mut c = ServerConfig::default();
    assert!(!has_flag(&c.to_args(), "-sm"));
    c.split_mode = SplitMode::Row;
    assert_eq!(pair_after(&c.to_args(), "-sm").as_deref(), Some("row"));
    c.split_mode = SplitMode::NoSplit;
    assert_eq!(pair_after(&c.to_args(), "-sm").as_deref(), Some("none"));
}

#[test]
fn fit_emits_flag_with_on_token() {
    let mut c = ServerConfig::default();
    assert_eq!(pair_after(&c.to_args(), "--fit").as_deref(), Some("on"));
    c.fit = false;
    assert!(!has_flag(&c.to_args(), "--fit"));
}

#[test]
fn memory_flags_are_bare() {
    let mut c = ServerConfig::default();
    let args = c.to_args();
    assert!(!has_flag(&args, "--mlock"));
    assert!(!has_flag(&args, "--no-mmap"));
    assert!(!has_flag(&args, "-nkvo"));
    c.mlock = true;
    c.no_mmap = true;
    c.no_kv_offload = true;
    let args = c.to_args();
    assert!(has_flag(&args, "--mlock"));
    assert!(has_flag(&args, "--no-mmap"));
    assert!(has_flag(&args, "-nkvo"));
}

#[test]
fn cache_types_emitted_unless_f16() {
    let mut c = ServerConfig::default();
    let args = c.to_args();
    assert!(!has_flag(&args, "-ctk"));
    assert!(!has_flag(&args, "-ctv"));
    c.cache_type_k = CacheType::Q8_0;
    c.cache_type_v = CacheType::Q4_0;
    let args = c.to_args();
    assert_eq!(pair_after(&args, "-ctk").as_deref(), Some("q8_0"));
    assert_eq!(pair_after(&args, "-ctv").as_deref(), Some("q4_0"));
}

#[test]
fn flash_attention_always_explicit() {
    let mut c = ServerConfig::default();
    assert_eq!(pair_after(&c.to_args(), "-fa").as_deref(), Some("on"));
    c.flash_attn = false;
    assert_eq!(pair_after(&c.to_args(), "-fa").as_deref(), Some("off"));
}

#[test]
fn sampling_core_always_two_decimals() {
    let mut c = ServerConfig::default();
    c.temp = Fixed2::from_centi(70);
    c.top_p = Fixed2::from_centi(100);
    c.min_p = Fixed2::from_centi(0);
    c.top_k = 0;
    let args = c.to_args();
    assert_eq!(pair_after(&args, "--temp").as_deref(), Some("0.70"));
    assert_eq!(pair_after(&args, "--top-p").as_deref(), Some("1.00"));
    assert_eq!(pair_after(&args, "--min-p").as_deref(), Some("0.00"));
    assert_eq!(pair_after(&args, "--top-k").as_deref(), Some("0"));
}

#[test]
fn penalties_omitted_at_neutral_values() {
    let mut c = ServerConfig::default();
    let args = c.to_args();
    assert!(!has_flag(&args, "--repeat-penalty"));
    assert!(!has_flag(&args, "--presence-penalty"));
    assert!(!has_flag(&args, "--frequency-penalty"));
    c.repeat_penalty = Fixed2::from_centi(110);
    c.presence_penalty = Fixed2::from_centi(50);
    c.frequency_penalty = Fixed2::from_centi(-25);
    let args = c.to_args();
    assert_eq!(pair_after(&args, "--repeat-penalty").as_deref(), Some("1.10"));
    assert_eq!(pair_after(&args, "--presence-penalty").as_deref(), Some("0.50"));
    assert_eq!(pair_after(&args, "--frequency-penalty").as_deref(), Some("-0.25"));
}

#[test]
fn seed_omitted_at_sentinel() {
    let mut c = ServerConfig::default();
    assert!(!has_flag(&c.to_args(), "-s"));
    c.seed = 1234;
    assert_eq!(pair_after(&c.to_args(), "-s").as_deref(), Some("1234"));
    c.seed = i64::MIN;
    assert_eq!(
        pair_after(&c.to_args(), "-s").as_deref(),
        Some("-9223372036854775808")
    );
}

#[test]
fn grammar_fields_emitted_iff_nonempty() {
    let mut c = ServerConfig::default();
    assert!(!has_flag(&c.to_args(), "--grammar"));
    c.grammar = "root ::= value".to_string();
    c.grammar_file = "g.gbnf".to_string();
    let args = c.to_args();
    assert_eq!(pair_after(&args, "--grammar").as_deref(), Some("root ::= value"));
    assert_eq!(pair_after(&args, "--grammar-file").as_deref(), Some("g.gbnf"));
}

#[test]
fn yarn_scenario() {
    let mut c = ServerConfig::default();
    c.rope_scaling = RopeScaling::Yarn;
    c.yarn_orig_ctx = 4096;
    c.yarn_ext_factor = Fixed2::from_centi(200);
    let args = c.to_args();
    assert_eq!(pair_after(&args, "--rope-scaling").as_deref(), Some("yarn"));
    assert_eq!(pair_after(&args, "--yarn-orig-ctx").as_deref(), Some("4096"));
    assert_eq!(pair_after(&args, "--yarn-ext-factor").as_deref(), Some("2"));
    // the attention factor stays at its default and is omitted
    assert!(!has_flag(&args, "--yarn-attn-factor"));
}

#[test]
fn yarn_flags_gated_by_scaling_mode() {
    let mut c = ServerConfig::default();
    c.rope_scaling = RopeScaling::Disabled;
    c.yarn_orig_ctx = 4096;
    c.yarn_ext_factor = Fixed2::from_centi(200);
    c.yarn_attn_factor = Fixed2::from_centi(150);
    let args = c.to_args();
    assert!(!has_flag(&args, "--yarn-orig-ctx"));
    assert!(!has_flag(&args, "--yarn-ext-factor"));
    assert!(!has_flag(&args, "--yarn-attn-factor"));
    assert!(!has_flag(&args, "--rope-scaling"));
}

#[test]
fn rope_frequency_trimmed_rendering() {
    let mut c = ServerConfig::default();
    c.rope_freq_base = Fixed2::from_centi(1000000);
    c.rope_freq_scale = Fixed2::from_centi(50);
    let args = c.to_args();
    assert_eq!(pair_after(&args, "--rope-freq-base").as_deref(), Some("10000"));
    assert_eq!(pair_after(&args, "--rope-freq-scale").as_deref(), Some("0.5"));
}

#[test]
fn lora_neutral_scale_two_tokens() {
    let mut c = ServerConfig::default();
    c.lora_adapters.push(LoraAdapter {
        path: "adapter.gguf".to_string(),
        scale: Fixed2::from_centi(100),
    });
    let args = c.to_args();
    let i = args.iter().position(|a| a == "--lora").unwrap();
    assert_eq!(args[i + 1], "adapter.gguf");
    assert!(!has_flag(&args, "--lora-scaled"));
}

#[test]
fn lora_scaled_three_tokens() {
    let mut c = ServerConfig::default();
    c.lora_adapters.push(LoraAdapter {
        path: "adapter.gguf".to_string(),
        scale: Fixed2::from_centi(50),
    });
    let args = c.to_args();
    let i = args.iter().position(|a| a == "--lora-scaled").unwrap();
    assert_eq!(args[i + 1], "adapter.gguf");
    assert_eq!(args[i + 2], "0.50");
    assert!(!has_flag(&args, "--lora"));
}

#[test]
fn lora_empty_path_emits_nothing() {
    let mut c = ServerConfig::default();
    c.lora_adapters.push(LoraAdapter {
        path: String::new(),
        scale: Fixed2::from_centi(50),
    });
    let args = c.to_args();
    assert!(!has_flag(&args, "--lora"));
    assert!(!has_flag(&args, "--lora-scaled"));
}

#[test]
fn lora_entries_keep_insertion_order() {
    let mut c = ServerConfig::default();
    c.lora_adapters.push(LoraAdapter {
        path: "first.gguf".to_string(),
        scale: Fixed2::from_centi(100),
    });
    c.lora_adapters.push(LoraAdapter {
        path: "second.gguf".to_string(),
        scale: Fixed2::from_centi(25),
    });
    let args = c.to_args();
    let i = args.iter().position(|a| a == "first.gguf").unwrap();
    let j = args.iter().position(|a| a == "second.gguf").unwrap();
    assert!(i < j);
    assert_eq!(args[j - 1], "--lora-scaled");
    assert_eq!(args[j + 1], "0.25");
}

#[test]
fn speculative_scenario() {
    let mut c = ServerConfig::default();
    c.draft_model = "draft.gguf".to_string();
    let args = c.to_args();
    assert_eq!(pair_after(&args, "-md").as_deref(), Some("draft.gguf"));
    assert_eq!(pair_after(&args, "--draft").as_deref(), Some("5"));
    // the default draft layer count of -1 differs from the zero sentinel
    assert_eq!(pair_after(&args, "-ngld").as_deref(), Some("-1"));
}

#[test]
fn speculative_flags_gated_by_draft_model() {
    let mut c = ServerConfig::default();
    c.draft_model = String::new();
    c.draft_tokens = 16;
    c.draft_gpu_layers = 10;
    let args = c.to_args();
    assert!(!has_flag(&args, "-md"));
    assert!(!has_flag(&args, "-ngld"));
    assert!(!has_flag(&args, "--draft"));
}

#[test]
fn api_group_emission() {
    let mut c = ServerConfig::default();
    let args = c.to_args();
    assert!(!has_flag(&args, "--api-key"));
    assert!(!has_flag(&args, "--metrics"));
    assert!(!has_flag(&args, "--slots"));
    c.api_key = "SECRET-REDACTED".to_string();
    c.api_key_file = "key.txt".to_string();
    c.metrics = true;
    c.slots = true;
    c.slot_save_path = "slots/".to_string();
    let args = c.to_args();
    assert_eq!(pair_after(&args, "--api-key").as_deref(), Some("SECRET-REDACTED"));
    assert_eq!(pair_after(&args, "--api-key-file").as_deref(), Some("key.txt"));
    assert!(has_flag(&args, "--metrics"));
    assert!(has_flag(&args, "--slots"));
    assert_eq!(pair_after(&args, "--slot-save-path").as_deref(), Some("slots/"));
}

#[test]
fn pooling_gated_by_embedding_flag() {
    let mut c = ServerConfig::default();
    c.pooling = PoolingType::Mean;
    let args = c.to_args();
    assert!(!has_flag(&args, "--embedding"));
    assert!(!has_flag(&args, "--pooling"));
    c.embedding = true;
    let args = c.to_args();
    assert!(has_flag(&args, "--embedding"));
    assert_eq!(pair_after(&args, "--pooling").as_deref(), Some("mean"));
    c.pooling = PoolingType::NoPooling;
    let args = c.to_args();
    assert!(has_flag(&args, "--embedding"));
    assert!(!has_flag(&args, "--pooling"));
}

#[test]
fn logging_group_emission() {
    let mut c = ServerConfig::default();
    let args = c.to_args();
    assert!(!has_flag(&args, "--log-format"));
    assert!(!has_flag(&args, "-v"));
    c.log_format = LogFormat::Json;
    c.verbose = true;
    let args = c.to_args();
    assert_eq!(pair_after(&args, "--log-format").as_deref(), Some("json"));
    assert!(has_flag(&args, "-v"));
}

#[test]
fn gate_refuses_without_model_source() {
    let c = ServerConfig::default();
    let r = c.prepare_launch();
    assert_eq!(r, Err(LaunchError::NoModelSource));
    assert_eq!(
        LaunchError::NoModelSource.message(),
        "Please provide a model path, HuggingFace repo, model directory, or model URL."
    );
}

#[test]
fn gate_accepts_each_model_source() {
    for field in 0..4 {
        let mut c = ServerConfig::default();
        match field {
            0 => c.model_path = "m.gguf".to_string(),
            1 => c.hf_repo = "org/m".to_string(),
            2 => c.model_url = "https://example.com/m.gguf".to_string(),
            _ => c.model_dir = "models".to_string(),
        }
        let args = c.prepare_launch().unwrap();
        assert_eq!(args, c.to_args());
    }
}

#[test]
fn preview_joins_with_single_spaces() {
    let mut c = ServerConfig::default();
    c.exe_path = "/usr/bin/llama-server".to_string();
    c.model_path = "m.gguf".to_string();
    let preview = c.command_preview();
    assert!(preview.starts_with("/usr/bin/llama-server -m m.gguf --host"));
    let joined = {
        let mut parts = vec![c.exe_path.clone()];
        parts.extend(c.to_args());
        parts.join(" ")
    };
    assert_eq!(preview, joined);
}
