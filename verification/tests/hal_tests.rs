//! Hardware heuristics: quantization hints, tool output parsing, profiles.

use omniforge::hal::{
    gpu_from_nvidia_smi, gpu_from_rocm_smi, hardware_profile, parse_nvidia_smi,
    ram_gb_from_meminfo, recommend_quant_for_vram,
};
use omniforge::types::GpuInfo;

#[test]
fn quant_hint_boundaries() {
    assert_eq!(recommend_quant_for_vram(None), "4bit");
    assert_eq!(recommend_quant_for_vram(Some(0)), "4bit");
    assert_eq!(recommend_quant_for_vram(Some(4095)), "4bit");
    assert_eq!(recommend_quant_for_vram(Some(4096)), "5bit_or_8bit_lora");
    assert_eq!(recommend_quant_for_vram(Some(8191)), "5bit_or_8bit_lora");
    assert_eq!(recommend_quant_for_vram(Some(8192)), "8bit_or_fp16_lora");
    assert_eq!(recommend_quant_for_vram(Some(16383)), "8bit_or_fp16_lora");
    assert_eq!(recommend_quant_for_vram(Some(16384)), "fp16");
    assert_eq!(recommend_quant_for_vram(Some(u32::MAX)), "fp16");
}

#[test]
fn nvidia_query_full_line() {
    let g = parse_nvidia_smi("NVIDIA GeForce RTX 3080, 10240, 535.54.03\n").unwrap();
    assert_eq!(g.vendor, "NVIDIA");
    assert_eq!(g.model.as_deref(), Some("NVIDIA GeForce RTX 3080"));
    assert_eq!(g.vram_mb, Some(10240));
    assert_eq!(g.driver_version.as_deref(), Some("535.54.03"));
}

#[test]
fn nvidia_query_only_first_line_counts() {
    let g = parse_nvidia_smi("A100, 40960, 550.1\r\nH100, 81920, 550.2\n").unwrap();
    assert_eq!(g.model.as_deref(), Some("A100"));
    assert_eq!(g.vram_mb, Some(40960));
    assert_eq!(g.driver_version.as_deref(), Some("550.1"));
}

#[test]
fn nvidia_query_unreadable_memory() {
    let g = parse_nvidia_smi("Tesla T4, [N/A], 470.82").unwrap();
    assert_eq!(g.model.as_deref(), Some("Tesla T4"));
    assert_eq!(g.vram_mb, None);
    assert_eq!(g.driver_version.as_deref(), Some("470.82"));
}

#[test]
fn nvidia_query_parse_rules() {
    let g = parse_nvidia_smi("  a ,  +7 , d , extra").unwrap();
    assert_eq!(g.model.as_deref(), Some("a"));
    assert_eq!(g.vram_mb, Some(7));
    assert_eq!(g.driver_version.as_deref(), Some("d"));

    let g = parse_nvidia_smi("\u{a0}x\u{3000}, 1").unwrap();
    assert_eq!(g.model.as_deref(), Some("x"));
    assert_eq!(g.vram_mb, Some(1));
    assert_eq!(g.driver_version, None);

    let g = parse_nvidia_smi("x, 4294967296, d").unwrap();
    assert_eq!(g.vram_mb, None);
    let g = parse_nvidia_smi("x, -1, d").unwrap();
    assert_eq!(g.vram_mb, None);
    let g = parse_nvidia_smi("x, +, d").unwrap();
    assert_eq!(g.vram_mb, None);
    let g = parse_nvidia_smi(", 12,").unwrap();
    assert_eq!(g.model.as_deref(), Some(""));
    assert_eq!(g.vram_mb, Some(12));
    assert_eq!(g.driver_version.as_deref(), Some(""));
}

#[test]
fn nvidia_query_without_fields() {
    assert!(parse_nvidia_smi("").is_none());
    assert!(parse_nvidia_smi("just a name\n1, 2, 3").is_none());
    assert!(parse_nvidia_smi("\n1, 2, 3").is_none());
}

#[test]
fn nvidia_tool_outcome() {
    assert!(gpu_from_nvidia_smi(false, b"GPU, 1, 2").is_none());
    let g = gpu_from_nvidia_smi(true, b"GPU, 1, 2\n").unwrap();
    assert_eq!(g.model.as_deref(), Some("GPU"));
    let g = gpu_from_nvidia_smi(true, b"G\xffU, 8, 9").unwrap();
    assert_eq!(g.model.as_deref(), Some("G\u{fffd}U"));
    assert_eq!(g.vram_mb, Some(8));
}

#[test]
fn rocm_tool_outcome() {
    assert!(gpu_from_rocm_smi(false).is_none());
    let g = gpu_from_rocm_smi(true).unwrap();
    assert_eq!(
        g,
        GpuInfo { vendor: "AMD".to_string(), model: None, vram_mb: None, driver_version: None }
    );
}

#[test]
fn meminfo_total() {
    let raw = "MemTotal:       16318480 kB\nMemFree:         1234 kB\n";
    assert_eq!(ram_gb_from_meminfo(raw), Some(16));
    assert_eq!(ram_gb_from_meminfo("MemTotal: 1048577 kB"), Some(2));
    assert_eq!(ram_gb_from_meminfo("MemTotal: 0 kB"), Some(1));
    assert_eq!(ram_gb_from_meminfo("MemFree: 1 kB\nMemTotal: 2097152 kB"), Some(2));
    assert_eq!(ram_gb_from_meminfo("MemTotal: 1000 kB\n"), Some(1));
    assert_eq!(ram_gb_from_meminfo("MemTotal:\t\t33554432\tkB\r\n"), Some(32));
    assert_eq!(ram_gb_from_meminfo("MemTotal: 9223372036854775808 kB"), Some(0));
}

#[test]
fn meminfo_without_total() {
    assert_eq!(ram_gb_from_meminfo(""), None);
    assert_eq!(ram_gb_from_meminfo("MemFree: 5 kB\n"), None);
    assert_eq!(ram_gb_from_meminfo(" MemTotal: 5 kB\n"), None);
    assert_eq!(ram_gb_from_meminfo("MemTotal: abc kB\nMemTotal: 5 kB"), None);
    assert_eq!(ram_gb_from_meminfo("MemTotal:\nMemTotal: 5 kB"), None);
    assert_eq!(ram_gb_from_meminfo("MemTotal: 18446744073709551616 kB"), None);
}

fn gpu(vendor: &str, vram_mb: Option<u32>) -> GpuInfo {
    GpuInfo { vendor: vendor.to_string(), model: None, vram_mb, driver_version: None }
}

#[test]
fn profile_prefers_nvidia_then_amd_then_cpu() {
    let p = hardware_profile(Some(64), Some(gpu("NVIDIA", Some(24576))), Some(gpu("AMD", None)));
    assert_eq!(p.gpu.vendor, "NVIDIA");
    assert_eq!(p.ram_gb, 64);
    assert_eq!(p.recommended_quantization, "fp16");

    let p = hardware_profile(None, None, Some(gpu("AMD", None)));
    assert_eq!(p.gpu.vendor, "AMD");
    assert_eq!(p.ram_gb, 16);
    assert_eq!(p.recommended_quantization, "4bit");

    let p = hardware_profile(Some(8), None, None);
    assert_eq!(p.gpu, gpu("CPU", None));
    assert_eq!(p.ram_gb, 8);
    assert_eq!(p.recommended_quantization, "4bit");
}
