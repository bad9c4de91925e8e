use gamesense::commands::device_props::{
    battery_args, extract_prop, getprop_args, map_soc_codename, meminfo_args, screen_size_args, storage_args,
};


#[test]
fn extract_prop_returns_value_for_known_key() {
    let output = "[ro.product.model]: [Pixel 7]\n[ro.build.version.release]: [14]\n";
    assert_eq!(
        extract_prop(output, "ro.product.model"),
        Some("Pixel 7".to_string())
    );
}

#[test]
fn extract_prop_returns_none_for_missing_key() {
    let output = "[ro.product.model]: [Pixel 7]\n";
    assert_eq!(extract_prop(output, "ro.build.version.release"), None);
}

#[test]
fn extract_prop_returns_none_for_empty_value() {
    let output = "[ro.product.model]: []\n";
    assert_eq!(extract_prop(output, "ro.product.model"), None);
}





#[test]
fn map_soc_codename_known_qualcomm() {
    assert_eq!(map_soc_codename("taro"), "Snapdragon 8 Gen 1");
    assert_eq!(map_soc_codename("kalama"), "Snapdragon 8 Gen 2");
    assert_eq!(map_soc_codename("pineapple"), "Snapdragon 8 Gen 3");
}

#[test]
fn map_soc_codename_known_mediatek() {
    assert_eq!(map_soc_codename("mt6893"), "Dimensity 1200");
    assert_eq!(map_soc_codename("mt6833"), "Dimensity 700");
}

#[test]
fn map_soc_codename_known_tensor() {
    assert_eq!(map_soc_codename("zuma"), "Google Tensor G3");
    assert_eq!(map_soc_codename("oriole"), "Google Tensor");
}

#[test]
fn map_soc_codename_already_marketing_name() {
    assert_eq!(
        map_soc_codename("Snapdragon 8 Gen 1"),
        "Snapdragon 8 Gen 1"
    );
    assert_eq!(map_soc_codename("Dimensity 9000"), "Dimensity 9000");
}

#[test]
fn map_soc_codename_unknown_capitalizes() {
    assert_eq!(map_soc_codename("somechip"), "Somechip");
}

#[test]
fn map_soc_codename_case_insensitive() {
    assert_eq!(map_soc_codename("TARO"), "Snapdragon 8 Gen 1");
    assert_eq!(map_soc_codename("Kalama"), "Snapdragon 8 Gen 2");
}

#[test]
fn map_soc_codename_empty_string() {
    assert_eq!(map_soc_codename(""), "");
}

use gamesense::commands::device_props::{
    cpu_name, get_device_props, parse_battery, parse_df_sizes, parse_mem_total_kb,
    parse_screen_resolution, props_error,
};

#[test]
fn battery_level_and_charging() {
    let out = "Current Battery Service state:\n  AC powered: false\n  USB powered: true\n  level: 87\n  scale: 100\n";
    assert_eq!(parse_battery(out), (Some(87), true));
    assert_eq!(parse_battery("  level: 300\n"), (None, false));
    assert_eq!(parse_battery("Wireless powered: true\n"), (None, true));
}

#[test]
fn screen_resolution_prefers_the_first_size_line() {
    assert_eq!(parse_screen_resolution("Physical size: 1080x2340\nOverride size: 720x1560\n").as_deref(), Some("1080x2340"));
    assert_eq!(parse_screen_resolution("Override size: 720x1560").as_deref(), Some("720x1560"));
    assert_eq!(parse_screen_resolution("nothing"), None);
}

#[test]
fn df_and_meminfo_fields() {
    let df = "Filesystem 1K-blocks Used Available Use% Mounted on\n/dev/block/dm-5 115249236 45123456 70125780 40% /data\n";
    assert_eq!(parse_df_sizes(df), Some(("115249236".to_string(), "70125780".to_string())));
    assert_eq!(parse_df_sizes("only a header\n"), None);
    assert_eq!(parse_mem_total_kb("MemTotal:        7812345 kB\nMemFree: 1 kB\n"), Some(7812345));
    assert_eq!(parse_mem_total_kb("MemFree: 1 kB\n"), None);
}

#[test]
fn cpu_prefers_soc_model_then_fallbacks() {
    let props = "[ro.hardware]: [qcom]\n[ro.product.board]: [taro]\n";
    assert_eq!(cpu_name(props).as_deref(), Some("Snapdragon 8 Gen 1"));
    let props2 = "[ro.soc.model]: [SM8550]\n[ro.product.board]: [kalama]\n";
    assert_eq!(cpu_name(props2).as_deref(), Some("SM8550"));
    assert_eq!(cpu_name("[ro.hardware]: [mychip]\n").as_deref(), Some("Mychip"));
    assert_eq!(cpu_name(""), None);
}

#[test]
fn device_props_assembled_from_outputs() {
    let props = "[ro.product.model]: [Pixel 7]\n[ro.build.version.release]: [14]\n[ro.product.brand]: [google]\n";
    let p = get_device_props(
        props,
        Some("level: 50\nAC powered: true\n".to_string()),
        None,
        Some("2.0 GB".to_string()),
        None,
        None,
    );
    assert_eq!(p.model, "Pixel 7");
    assert_eq!(p.android_version, "14");
    assert_eq!(p.sdk_version, "Unknown");
    assert_eq!(p.manufacturer.as_deref(), Some("google"));
    assert_eq!(p.battery_level, Some(50));
    assert!(p.is_charging);
    assert!(p.screen_resolution.is_none());
    assert_eq!(p.storage_total.as_deref(), Some("2.0 GB"));
    let e = props_error("boom");
    assert_eq!((e.code.as_str(), e.message.as_str()), ("GET_PROPS_FAILED", "Failed to get props: boom"));
}

#[test]
fn property_commands() {
    assert_eq!(getprop_args("d"), vec!["-s", "d", "shell", "getprop"]);
    assert_eq!(battery_args("d"), vec!["-s", "d", "shell", "dumpsys", "battery"]);
    assert_eq!(screen_size_args("d"), vec!["-s", "d", "shell", "wm", "size"]);
    assert_eq!(storage_args("d"), vec!["-s", "d", "shell", "df", "/data"]);
    assert_eq!(meminfo_args("d"), vec!["-s", "d", "shell", "cat", "/proc/meminfo"]);
}

#[test]
fn codenames_map_alike_in_any_case() {
    for name in ["TARO", "Kailua", "sm8150", "S5E8825", "Zuma"] {
        assert_eq!(map_soc_codename(name), map_soc_codename(&name.to_lowercase()));
    }
    assert_eq!(map_soc_codename("S5E8825"), "Exynos 1280");
    assert_eq!(map_soc_codename(""), "");
}
