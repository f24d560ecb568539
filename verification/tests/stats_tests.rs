use hold_sccache::stats::{
    extract_count, extract_size_entries, parse_stats, size_unit_multiplier, SccacheStats,
};

const FIXTURE: &str = r#"Compile requests                      100
Compile requests executed              98
Cache hits                             80
Cache misses                           18
Cache hits (C/C++)                      0
Cache hits (Rust)                      80
Cache misses (Rust)                    18
Cache timeouts                          0
Cache read errors                       0
Forced recaches                         0
Cache write errors                      0
Compilations                            0
Errors                                  0
Cache location                       Local disk: "/home/user/.cache/sccache"
Cache size                            2.1 GiB
Max cache size                       20.0 GiB
"#;

/// Scales the first size line whose amount is a float, as the command does.
fn scaled(stats: &SccacheStats, max: bool) -> u64 {
    let entries = if max { &stats.max_cache_size } else { &stats.cache_size };
    for e in entries {
        if let Ok(n) = e.numeral.parse::<f64>() {
            let m = match size_unit_multiplier(&e.unit) {
                Some(m) => m,
                None => return 0,
            };
            return (n * m as f64) as u64;
        }
    }
    0
}

fn hit_rate(stats: &SccacheStats) -> f64 {
    let total = stats.cache_hits + stats.cache_misses;
    if total == 0 {
        0.0
    } else {
        stats.cache_hits as f64 / total as f64
    }
}

#[test]
fn test_parse_cache_hits() {
    let stats = parse_stats(FIXTURE);
    assert_eq!(stats.cache_hits, 80);
}

#[test]
fn test_parse_cache_misses() {
    let stats = parse_stats(FIXTURE);
    assert_eq!(stats.cache_misses, 18);
}

#[test]
fn test_parse_hit_rate_in_range() {
    let stats = parse_stats(FIXTURE);
    let expected = 80.0_f64 / 98.0_f64;
    assert!((hit_rate(&stats) - expected).abs() < 0.001);
}

#[test]
fn test_parse_cache_size() {
    let stats = parse_stats(FIXTURE);
    assert!(scaled(&stats, false) > 0);
}

#[test]
fn test_parse_max_size() {
    let stats = parse_stats(FIXTURE);
    let expected = (20.0_f64 * 1024.0 * 1024.0 * 1024.0) as u64;
    assert_eq!(scaled(&stats, true), expected);
}

#[test]
fn test_parse_empty_stats() {
    let stats = parse_stats("");
    assert_eq!(stats.cache_hits, 0);
    assert_eq!(stats.cache_misses, 0);
    assert_eq!(scaled(&stats, false), 0);
    assert_eq!(scaled(&stats, true), 0);
}

#[test]
fn ac6_stats_from_fixture_has_required_fields() {
    let fixture = "\
Compile requests                      42
Compile requests executed             42
Cache hits                            30
Cache hits (C/C++)                     5
Cache hits (Rust)                     25
Cache misses                          12
Cache misses (Rust)                   12
Cache timeouts                         0
Cache read errors                      0
Forced recaches                        0
Cache write errors                     0
Compilation failures                   0
Cache errors                           0
Non-cacheable compilations             0
Non-cacheable calls                    0
Non-compilation calls                  0
Unsupported compiler calls             0
Average cache write               0.003 s
Average cache read miss           1.027 s
Average cache read hit            0.004 s
Failed distributed compilations        0
Cache location                  Local disk: \"/home/user/.cache/sccache\"
Cache size                            1.00 GiB
Max cache size                       20.00 GiB
";
    let stats = parse_stats(fixture);
    assert_eq!(stats.cache_hits, 30);
    assert_eq!(stats.cache_misses, 12);
    let rate = hit_rate(&stats);
    assert!((0.0..=1.0).contains(&rate));
    assert!((rate - 30.0_f64 / 42.0_f64).abs() < 1e-6);
    assert_eq!(scaled(&stats, false), 1024 * 1024 * 1024);
}

#[test]
fn ac6_stats_zero_requests_gives_zero_hit_rate() {
    let stats = parse_stats("Cache hits    0\nCache misses    0\n");
    assert_eq!(hit_rate(&stats), 0.0);
}

#[test]
fn counts_need_the_exact_key() {
    assert_eq!(extract_count("Cache hits (Rust) 5\nCache hits 7\n", "Cache hits"), Some(7));
    assert_eq!(extract_count("Cache   hits\t9", "Cache hits"), Some(9));
    assert_eq!(extract_count("Cache hits x\nCache hits 3", "Cache hits"), Some(3));
    assert_eq!(extract_count("hits", "hits"), None);
    assert_eq!(extract_count("Cache hits 99999999999999999999", "Cache hits"), None);
}

#[test]
fn size_entries_in_order() {
    let e = extract_size_entries("Cache size 1 MiB\nCache size x KiB\nMax cache size 2 B\n", "Cache size");
    assert_eq!(e.len(), 2);
    assert_eq!(e[0].numeral, "1");
    assert_eq!(e[0].unit, "MiB");
    assert_eq!(e[1].numeral, "x");
    assert_eq!(e[1].unit, "KiB");
}

#[test]
fn size_units() {
    assert_eq!(size_unit_multiplier("GiB"), Some(1 << 30));
    assert_eq!(size_unit_multiplier("MiB"), Some(1 << 20));
    assert_eq!(size_unit_multiplier("KiB"), Some(1024));
    assert_eq!(size_unit_multiplier("B"), Some(1));
    assert_eq!(size_unit_multiplier("GB"), None);
}
