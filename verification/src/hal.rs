//! Hardware abstraction: GPU vendor, VRAM, and conservative training presets.
//!
//! The probes themselves (running `nvidia-smi` / `rocm-smi`, reading
//! `/proc/meminfo`) happen at the shell's edge; this module decides what their
//! outputs mean.

use vstd::prelude::*;
use crate::text::{
    chars_of, find_char, find_char_exec, find_white, find_white_exec, has_prefix_at,
    lemma_find_char_bounds, lemma_find_char_shift, lemma_find_white_shift, lemma_skip_white_shift,
    lemma_trim_slice, parse_u64, parse_u64_range,
    skip_white, skip_white_exec, lossy_text, lossy_utf8, parse_u32, parse_u32_range, substring,
    trim, trim_hi, trim_lo, trim_range, trimmed, is_white, is_digit, decimal, lemma_decimal_digits,
    lemma_parse_u32_decimal,
};
use crate::types::{GpuInfo, GpuInfoView};
use vstd::string::StringExecFns;

verus! {

/// Snapshot of hardware capabilities used for automatic quantization and batch sizing.
#[derive(Debug, Clone)]
pub struct HardwareProfile {
    /// Primary GPU metadata when detection succeeds.
    pub gpu: GpuInfo,
    /// System RAM in gigabytes (rounded up for UI copy).
    pub ram_gb: u32,
    /// Recommended `QuantizationMode` name for the UI (string to avoid coupling).
    pub recommended_quantization: &'static str,
}

/// The quantization hint for a GPU with `vram_mb` megabytes of VRAM.
pub open spec fn quant_hint(vram_mb: Option<u32>) -> Seq<char> {
    match vram_mb {
        None => "4bit"@,
        Some(mb) => if mb < 4096 {
            "4bit"@
        } else if mb < 8192 {
            "5bit_or_8bit_lora"@
        } else if mb < 16384 {
            "8bit_or_fp16_lora"@
        } else {
            "fp16"@
        },
    }
}

/// Recommends a quantization preset from the amount of VRAM.
pub fn recommend_quant_for_vram(vram_mb: Option<u32>) -> (r: &'static str)
    ensures
        r@ == quant_hint(vram_mb),
{
    match vram_mb {
        None => "4bit",
        Some(mb) => if mb < 4096 {
            "4bit"
        } else if mb < 8192 {
            "5bit_or_8bit_lora"
        } else if mb < 16384 {
            "8bit_or_fp16_lora"
        } else {
            "fp16"
        },
    }
}

/// The text of `t` before its first line break (all of `t` without one).
pub open spec fn first_line(t: Seq<char>) -> Seq<char> {
    t.subrange(0, find_char(t, '\n', 0, t.len() as int))
}

/// The field of `s` before its first comma (all of `s` without one).
pub open spec fn before_comma(s: Seq<char>) -> Seq<char> {
    s.subrange(0, find_char(s, ',', 0, s.len() as int))
}

/// What follows the first comma of `s`; `None` when `s` has no comma.
pub open spec fn after_comma(s: Seq<char>) -> Option<Seq<char>> {
    let c = find_char(s, ',', 0, s.len() as int);
    if c >= s.len() {
        None
    } else {
        Some(s.subrange(c + 1, s.len() as int))
    }
}

/// The fields that `nvidia-smi --query-gpu=name,memory.total,driver_version
/// --format=csv,noheader,nounits` reports: the first line, trimmed and split
/// on `,`, with each field trimmed, gives the name, the memory in MiB when it
/// reads as a `u32`, and the driver version when there is a third field.
/// `None` when the output is empty or the line has no second field.
pub open spec fn nvidia_fields(t: Seq<char>) -> Option<(Seq<char>, Option<u32>, Option<Seq<char>>)> {
    if t.len() == 0 {
        None
    } else {
        let line = trim(first_line(t));
        match after_comma(line) {
            None => None,
            Some(rest) => Some(
                (
                    trim(before_comma(line)),
                    parse_u32(trim(before_comma(rest))),
                    match after_comma(rest) {
                        None => None,
                        Some(more) => Some(trim(before_comma(more))),
                    },
                ),
            ),
        }
    }
}

/// [`nvidia_fields`] by positions in `t`, as [`parse_nvidia_smi`] reads it.
spec fn nvidia_fields_at(t: Seq<char>) -> Option<(Seq<char>, Option<u32>, Option<Seq<char>>)> {
    if t.len() == 0 {
        None
    } else {
        let e = find_char(t, '\n', 0, t.len() as int);
        let a = trim_lo(t, 0, e);
        let b = trim_hi(t, 0, e);
        let c0 = find_char(t, ',', a, b);
        if c0 >= b {
            None
        } else {
            let c1 = find_char(t, ',', c0 + 1, b);
            let name = trimmed(t, a, c0);
            let mem = parse_u32(trimmed(t, c0 + 1, c1));
            let driver = if c1 >= b {
                None
            } else {
                Some(trimmed(t, c1 + 1, find_char(t, ',', c1 + 1, b)))
            };
            Some((name, mem, driver))
        }
    }
}

/// The field before the first comma of the slice `t[lo..hi]` and what
/// follows that comma, by positions in `t`.
proof fn lemma_comma_slice(t: Seq<char>, lo: int, hi: int)
    requires
        0 <= lo <= hi <= t.len(),
    ensures
        ({
            let s = t.subrange(lo, hi);
            let c = find_char(t, ',', lo, hi);
            &&& lo <= c <= hi
            &&& before_comma(s) == t.subrange(lo, c)
            &&& trim(before_comma(s)) == trimmed(t, lo, c)
            &&& c >= hi ==> after_comma(s) is None
            &&& c < hi ==> after_comma(s) == Some(t.subrange(c + 1, hi))
        }),
{
    let s = t.subrange(lo, hi);
    lemma_find_char_shift(t, ',', lo, lo, hi);
    let c = find_char(t, ',', lo, hi);
    assert(before_comma(s) =~= t.subrange(lo, c));
    lemma_trim_slice(t, lo, c);
    if c < hi {
        assert(s.subrange(c - lo + 1, s.len() as int) =~= t.subrange(c + 1, hi));
    }
}

proof fn lemma_nvidia_fields_at(t: Seq<char>)
    ensures
        nvidia_fields(t) == nvidia_fields_at(t),
{
    if t.len() > 0 {
        let e = find_char(t, '\n', 0, t.len() as int);
        lemma_find_char_bounds(t, '\n', 0, t.len() as int);
        lemma_trim_slice(t, 0, e);
        let a = trim_lo(t, 0, e);
        let b = trim_hi(t, 0, e);
        assert(first_line(t) == t.subrange(0, e));
        let line = trim(first_line(t));
        assert(line == t.subrange(a, b));
        lemma_comma_slice(t, a, b);
        let c0 = find_char(t, ',', a, b);
        if c0 < b {
            lemma_comma_slice(t, c0 + 1, b);
            let c1 = find_char(t, ',', c0 + 1, b);
            if c1 < b {
                lemma_comma_slice(t, c1 + 1, b);
            }
        }
    }
}

/// The first `c` in `s[i..hi]` is at `k` when none comes before it; `hi`
/// when there is none.
proof fn lemma_find_first(s: Seq<char>, c: char, i: int, k: int, hi: int)
    requires
        0 <= i <= k <= hi <= s.len(),
        forall|j: int| i <= j < k ==> s[j] != c,
        k < hi ==> s[k] == c,
    ensures
        find_char(s, c, i, hi) == k,
    decreases k - i,
{
    if i < k {
        lemma_find_first(s, c, i + 1, k, hi);
    }
}

/// Text that neither starts nor ends with whitespace is its own trim, also
/// after one leading space.
proof fn lemma_trim_unpadded(s: Seq<char>)
    requires
        s.len() > 0,
        !is_white(s[0]),
        !is_white(s[s.len() - 1]),
    ensures
        trim(s) == s,
        trim(seq![' '] + s) == s,
{
    assert(s.subrange(0, s.len() as int) =~= s);
    let p = seq![' '] + s;
    assert(p[0] == ' ' && p[1] == s[0] && p[p.len() - 1] == s[s.len() - 1]);
    assert(skip_white(p, 1, p.len() as int) == 1);
    assert(p.subrange(1, p.len() as int) =~= s);
}

/// The GPU described by an NVIDIA query whose fields are `f`.
pub open spec fn nvidia_view(f: (Seq<char>, Option<u32>, Option<Seq<char>>)) -> GpuInfoView {
    GpuInfoView { vendor: "NVIDIA"@, model: Some(f.0), vram_mb: f.1, driver_version: f.2 }
}

/// The NVIDIA query reads its line as written: for output `name, n,
/// driver` followed by a line break, where the name and the driver version
/// hold no comma or line break and are not padded with whitespace, the GPU
/// is an NVIDIA `name` with `n` MiB of VRAM (any `u32`, written in decimal)
/// and driver version `driver`.
pub proof fn lemma_nvidia_reads_line(name: Seq<char>, n: u32, driver: Seq<char>)
    requires
        name.len() > 0,
        driver.len() > 0,
        !is_white(name[0]),
        !is_white(name[name.len() - 1]),
        !is_white(driver[0]),
        !is_white(driver[driver.len() - 1]),
        forall|i: int| 0 <= i < name.len() ==> #[trigger] name[i] != ',' && name[i] != '\n',
        forall|i: int| 0 <= i < driver.len() ==> #[trigger] driver[i] != ',' && driver[i] != '\n',
    ensures
        nvidia_fields(name + ", "@ + decimal(n as nat) + ", "@ + driver + "\n"@) == Some(
            (name, Some(n), Some(driver)),
        ),
        nvidia_view((name, Some(n), Some(driver))) == (GpuInfoView {
            vendor: "NVIDIA"@,
            model: Some(name),
            vram_mb: Some(n),
            driver_version: Some(driver),
        }),
{
    reveal_strlit(", ");
    reveal_strlit("\n");
    let d = decimal(n as nat);
    lemma_decimal_digits(n as nat);
    lemma_parse_u32_decimal(n);
    assert(is_digit(d[0]) && is_digit(d[d.len() - 1]));
    let line = name + ", "@ + d + ", "@ + driver;
    let t = line + "\n"@;
    let ln = name.len() as int;
    let ld = d.len() as int;
    assert(t =~= name + ", "@ + d + ", "@ + driver + "\n"@);
    assert forall|j: int| 0 <= j < line.len() implies t[j] != '\n' by {
        assert(t[j] == line[j]);
        if j < ln {
            assert(line[j] == name[j]);
        } else if j < ln + 2 {
        } else if j < ln + 2 + ld {
            assert(line[j] == d[j - ln - 2]);
            assert(is_digit(d[j - ln - 2]));
        } else if j < ln + 4 + ld {
        } else {
            assert(line[j] == driver[j - ln - 4 - ld]);
        }
    }
    assert(t[line.len() as int] == '\n');
    lemma_find_first(t, '\n', 0, line.len() as int, t.len() as int);
    assert(first_line(t) =~= line);
    assert(line[0] == name[0] && line[line.len() - 1] == driver[driver.len() - 1]);
    lemma_trim_unpadded(line);
    // The name field.
    assert forall|j: int| 0 <= j < ln implies line[j] != ',' by {
        assert(line[j] == name[j]);
    }
    lemma_find_first(line, ',', 0, ln, line.len() as int);
    assert(before_comma(line) =~= name);
    lemma_trim_unpadded(name);
    let rest = line.subrange(ln + 1, line.len() as int);
    assert(after_comma(line) == Some(rest));
    assert(rest =~= seq![' '] + d + ", "@ + driver);
    // The memory field.
    assert forall|j: int| 0 <= j < 1 + ld implies rest[j] != ',' by {
        if j > 0 {
            assert(rest[j] == d[j - 1]);
            assert(is_digit(d[j - 1]));
        }
    }
    assert(rest[1 + ld] == ',');
    lemma_find_first(rest, ',', 0, 1 + ld, rest.len() as int);
    assert(before_comma(rest) =~= seq![' '] + d);
    lemma_trim_unpadded(d);
    let more = rest.subrange(2 + ld, rest.len() as int);
    assert(after_comma(rest) == Some(more));
    assert(more =~= seq![' '] + driver);
    // The driver field.
    assert forall|j: int| 0 <= j < more.len() implies more[j] != ',' by {
        if j > 0 {
            assert(more[j] == driver[j - 1]);
        }
    }
    lemma_find_first(more, ',', 0, more.len() as int, more.len() as int);
    assert(before_comma(more) =~= more);
    lemma_trim_unpadded(driver);
    reveal_strlit("NVIDIA");
}

/// Reads the text printed by the NVIDIA query.
pub fn parse_nvidia_smi(text: &str) -> (r: Option<GpuInfo>)
    ensures
        match nvidia_fields(text@) {
            None => r is None,
            Some(f) => r matches Some(g) && g@ == nvidia_view(f),
        },
{
    proof {
        lemma_nvidia_fields_at(text@);
    }
    let t = chars_of(text);
    if t.len() == 0 {
        return None;
    }
    let e = find_char_exec(&t, '\n', 0, t.len());
    let (a, b) = trim_range(&t, 0, e);
    let c0 = find_char_exec(&t, ',', a, b);
    if c0 >= b {
        return None;
    }
    let c1 = find_char_exec(&t, ',', c0 + 1, b);
    let (na, nb) = trim_range(&t, a, c0);
    let name = substring(text, &t, na, nb);
    let (ma, mb) = trim_range(&t, c0 + 1, c1);
    let mem = parse_u32_range(&t, ma, mb);
    let driver = if c1 >= b {
        None
    } else {
        let c2 = find_char_exec(&t, ',', c1 + 1, b);
        let (da, db) = trim_range(&t, c1 + 1, c2);
        Some(substring(text, &t, da, db))
    };
    Some(GpuInfo { vendor: String::from_str("NVIDIA"), model: Some(name), vram_mb: mem, driver_version: driver })
}

/// The GPU that an `nvidia-smi` run reports: none unless it exited
/// successfully; its standard output is decoded as `from_utf8_lossy` does.
pub fn gpu_from_nvidia_smi(succeeded: bool, stdout: &[u8]) -> (r: Option<GpuInfo>)
    ensures
        !succeeded ==> r is None,
        succeeded ==> match nvidia_fields(lossy_utf8(stdout@)) {
            None => r is None,
            Some(f) => r matches Some(g) && g@ == nvidia_view(f),
        },
{
    if !succeeded {
        return None;
    }
    let text = lossy_text(stdout);
    parse_nvidia_smi(text.as_str())
}

/// The GPU that a `rocm-smi --showmeminfo` run reports: an AMD device with
/// nothing else known, when the tool exited successfully.
pub fn gpu_from_rocm_smi(succeeded: bool) -> (r: Option<GpuInfo>)
    ensures
        !succeeded ==> r is None,
        succeeded ==> (r matches Some(g) && g@ == (GpuInfoView {
            vendor: "AMD"@,
            model: None,
            vram_mb: None,
            driver_version: None,
        })),
{
    if succeeded {
        Some(GpuInfo { vendor: String::from_str("AMD"), model: None, vram_mb: None, driver_version: None })
    } else {
        None
    }
}

/// Gigabytes of a RAM size given in kB, rounded up and at least one, kept as
/// a `u32` the way `as u32` keeps it.
pub open spec fn ram_gb_of_kb(kb: u64) -> u32 {
    let rest: int = if kb % 1048576 == 0 {
        0
    } else {
        1
    };
    let gb: int = kb / 1048576 + rest;
    ((if gb < 1 {
        1
    } else {
        gb
    }) % 0x1_0000_0000) as u32
}

/// The first whitespace-separated token of `s`; `None` when `s` is blank.
pub open spec fn first_token(s: Seq<char>) -> Option<Seq<char>> {
    let a = skip_white(s, 0, s.len() as int);
    if a >= s.len() {
        None
    } else {
        Some(s.subrange(a, find_white(s, a, s.len() as int)))
    }
}

/// The RAM size given by the value `v` of a `MemTotal:` line: its first
/// whitespace-separated token read as kB.
pub open spec fn ram_of_value(v: Seq<char>) -> Option<u32> {
    match first_token(v) {
        Some(token) => match parse_u64(token) {
            Some(kb) => Some(ram_gb_of_kb(kb)),
            None => None,
        },
        None => None,
    }
}

/// The RAM size that `/proc/meminfo` text `t` reports, reading its lines from
/// the line that starts at `i`: the first line that begins with `MemTotal:`
/// decides, by what follows that prefix; `None` when there is no such line.
pub open spec fn meminfo_ram_from(t: Seq<char>, i: int) -> Option<u32>
    decreases t.len() - i,
{
    if i < 0 || i >= t.len() {
        None
    } else {
        let e = find_char(t, '\n', i, t.len() as int);
        let line = t.subrange(i, e);
        let n = "MemTotal:"@.len() as int;
        if line.len() >= n && line.take(n) == "MemTotal:"@ {
            ram_of_value(line.skip(n))
        } else if e >= t.len() {
            None
        } else {
            proof {
                lemma_find_char_bounds(t, '\n', i, t.len() as int);
            }
            meminfo_ram_from(t, e + 1)
        }
    }
}

fn ram_on_line_exec(t: &Vec<char>, p: usize, e: usize) -> (r: Option<u32>)
    requires
        p <= e <= t.len(),
    ensures
        r == ram_of_value(t@.subrange(p as int, e as int)),
{
    proof {
        let v = t@.subrange(p as int, e as int);
        lemma_skip_white_shift(t@, p as int, p as int, e as int);
        let a = skip_white(t@, p as int, e as int);
        if a < e {
            lemma_find_white_shift(t@, p as int, a, e as int);
            assert(v.subrange(a - p, find_white(t@, a, e as int) - p) =~= t@.subrange(
                a,
                find_white(t@, a, e as int),
            ));
        }
    }
    let a = skip_white_exec(t, p, e);
    if a >= e {
        return None;
    }
    let b = find_white_exec(t, a, e);
    match parse_u64_range(t, a, b) {
        Some(kb) => {
            let rest: u64 = if kb % 1048576 == 0 {
                0
            } else {
                1
            };
            let g: u64 = kb / 1048576 + rest;
            let gb: u64 = if g < 1 {
                1
            } else {
                g
            };
            assert(gb as u32 == (gb % 0x1_0000_0000) as u32) by (bit_vector);
            Some(gb as u32)
        },
        None => None,
    }
}

/// Reads the total RAM in gigabytes, rounded up, from the text of `/proc/meminfo`.
pub fn ram_gb_from_meminfo(raw: &str) -> (r: Option<u32>)
    ensures
        r == meminfo_ram_from(raw@, 0),
{
    let t = chars_of(raw);
    let pre = chars_of("MemTotal:");
    let mut i: usize = 0;
    while i < t.len()
        invariant
            i <= t.len(),
            t@ == raw@,
            pre@ == "MemTotal:"@,
            meminfo_ram_from(t@, 0) == meminfo_ram_from(t@, i as int),
        decreases t.len() - i,
    {
        let e = find_char_exec(&t, '\n', i, t.len());
        proof {
            reveal_strlit("MemTotal:");
            lemma_find_char_bounds(t@, '\n', i as int, t.len() as int);
            let line = t@.subrange(i as int, e as int);
            if e - i >= 9 {
                assert(line.take(9) =~= t@.subrange(i as int, i + 9));
                assert(line.skip(9) =~= t@.subrange(i + 9, e as int));
            }
        }
        if e - i >= pre.len() && has_prefix_at(&t, i, &pre) {
            return ram_on_line_exec(&t, i + pre.len(), e);
        }
        if e >= t.len() {
            return None;
        }
        i = e + 1;
    }
    None
}

/// The CPU-only profile used when no discrete GPU answered.
pub open spec fn cpu_view() -> GpuInfoView {
    GpuInfoView { vendor: "CPU"@, model: None, vram_mb: None, driver_version: None }
}

/// Combines the probe results into a profile: the NVIDIA GPU when one was
/// found, else the AMD GPU, else CPU-only guidance; RAM defaults to 16 GB when
/// it could not be read. The recommended quantization follows the VRAM.
pub fn hardware_profile(ram_gb: Option<u32>, nvidia: Option<GpuInfo>, amd: Option<GpuInfo>) -> (r:
    HardwareProfile)
    ensures
        r.ram_gb == match ram_gb {
            Some(g) => g,
            None => 16,
        },
        nvidia matches Some(g) ==> r.gpu == g,
        nvidia is None ==> (amd matches Some(g) ==> r.gpu == g),
        nvidia is None && amd is None ==> r.gpu@ == cpu_view(),
        r.recommended_quantization@ == quant_hint(r.gpu.vram_mb),
{
    let ram = match ram_gb {
        Some(g) => g,
        None => 16,
    };
    match nvidia {
        Some(gpu) => {
            let hint = recommend_quant_for_vram(gpu.vram_mb);
            return HardwareProfile { recommended_quantization: hint, ram_gb: ram, gpu };
        },
        None => {},
    }
    match amd {
        Some(gpu) => {
            let hint = recommend_quant_for_vram(gpu.vram_mb);
            return HardwareProfile { recommended_quantization: hint, ram_gb: ram, gpu };
        },
        None => {},
    }
    HardwareProfile {
        gpu: GpuInfo { vendor: String::from_str("CPU"), model: None, vram_mb: None, driver_version: None },
        ram_gb: ram,
        recommended_quantization: "4bit",
    }
}

} // verus!
