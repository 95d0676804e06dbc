use llama_manager::enums::{SplitMode, CacheType, RopeScaling, LogFormat, PoolingType};

#[test]
fn split_mode_tokens() {
    assert_eq!(SplitMode::NoSplit.as_str(), "none");
    assert_eq!(SplitMode::Layer.as_str(), "layer");
    assert_eq!(SplitMode::Row.as_str(), "row");
}

#[test]
fn split_mode_round_trip() {
    for m in [SplitMode::NoSplit, SplitMode::Layer, SplitMode::Row] {
        assert_eq!(SplitMode::from_str(m.as_str()), m);
    }
}

#[test]
fn split_mode_unknown_defaults_to_layer() {
    assert_eq!(SplitMode::from_str(""), SplitMode::Layer);
    assert_eq!(SplitMode::from_str("rows"), SplitMode::Layer);
    assert_eq!(SplitMode::from_str("NONE"), SplitMode::Layer);
}

#[test]
fn cache_type_tokens() {
    assert_eq!(CacheType::F16.as_str(), "f16");
    assert_eq!(CacheType::Q8_0.as_str(), "q8_0");
    assert_eq!(CacheType::Q4_0.as_str(), "q4_0");
}

#[test]
fn cache_type_round_trip() {
    for t in [CacheType::F16, CacheType::Q8_0, CacheType::Q4_0] {
        assert_eq!(CacheType::from_str(t.as_str()), t);
    }
}

#[test]
fn cache_type_unknown_defaults_to_f16() {
    assert_eq!(CacheType::from_str("q5_1"), CacheType::F16);
    assert_eq!(CacheType::from_str(""), CacheType::F16);
}

#[test]
fn rope_scaling_tokens() {
    assert_eq!(RopeScaling::Disabled.as_str(), "none");
    assert_eq!(RopeScaling::Linear.as_str(), "linear");
    assert_eq!(RopeScaling::Yarn.as_str(), "yarn");
}

#[test]
fn rope_scaling_round_trip() {
    for m in [RopeScaling::Disabled, RopeScaling::Linear, RopeScaling::Yarn] {
        assert_eq!(RopeScaling::from_str(m.as_str()), m);
    }
}

#[test]
fn rope_scaling_unknown_defaults_to_none() {
    assert_eq!(RopeScaling::from_str("dynamic"), RopeScaling::Disabled);
}

#[test]
fn log_format_tokens() {
    assert_eq!(LogFormat::Text.as_str(), "text");
    assert_eq!(LogFormat::Json.as_str(), "json");
}

#[test]
fn log_format_round_trip() {
    for f in [LogFormat::Text, LogFormat::Json] {
        assert_eq!(LogFormat::from_str(f.as_str()), f);
    }
}

#[test]
fn log_format_unknown_defaults_to_text() {
    assert_eq!(LogFormat::from_str("xml"), LogFormat::Text);
}

#[test]
fn pooling_tokens() {
    assert_eq!(PoolingType::NoPooling.as_str(), "none");
    assert_eq!(PoolingType::Mean.as_str(), "mean");
    assert_eq!(PoolingType::Cls.as_str(), "cls");
    assert_eq!(PoolingType::Last.as_str(), "last");
}

#[test]
fn pooling_round_trip() {
    for p in [PoolingType::NoPooling, PoolingType::Mean, PoolingType::Cls, PoolingType::Last] {
        assert_eq!(PoolingType::from_str(p.as_str()), p);
    }
}

#[test]
fn pooling_unknown_defaults_to_none() {
    assert_eq!(PoolingType::from_str("max"), PoolingType::NoPooling);
}
