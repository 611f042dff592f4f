use rusty_tunes::service::cache_service::find_in_dir;
use rusty_tunes::service::normalize_service::{
    measure_args, measured_text, parse_input_i, sidecar_path, LoudnessAnswer, LoudnessStep, LufsCache,
};
use rusty_tunes::units::Level;

fn by_standard_library(path: &str) -> Option<String> {
    let path = std::path::Path::new(path);
    let stem = path.file_stem()?.to_str()?;
    let parent = path.parent()?;
    Some(parent.join(format!("{stem}.lufs")).to_str().unwrap().to_string())
}

#[test]
fn sidecars_agree_with_the_standard_library() {
    for path in [
        "", ".", "..", "/", "//", "./", "../", "a", "a.b", "a.b.c", ".a", ".a.b", "a.", "a..", "..a", "...", "/a", "/a.b",
        "//a.b", "a/b.c", "a/b.c/", "a/b.c//", "a/b.c/.", "a/b.c/./", "a/./b.c", "a//b.c", "./a.b", "././a.b", "a/..",
        "a/../b.c", "/..", "/.", "cache/youtube/x.y_1.webm", "/a/./", "a/./.", "./.", "a/b/../c.d", ".a/b.c", "..a/b",
    ] {
        assert_eq!(sidecar_path(path), by_standard_library(path), "{path}");
    }
}

#[test]
fn measurement_sits_beside_the_track() {
    let sidecar = sidecar_path("cache/youtube/a.b_1.webm").unwrap();
    assert_eq!(sidecar, "cache/youtube/a.b_1.lufs");
    assert_eq!(find_in_dir(&vec![Some("a.b_1.lufs".to_string())], "a.b_1"), None);
}

#[test]
fn loudness_is_found_in_the_report() {
    let report = "[Parsed_loudnorm_0 @ 0x1]\n{\n\t\"input_i\" : \"-9.57\",\n\t\"input_tp\" : \"0.1\"\n}\n";
    assert_eq!(parse_input_i(report).as_deref(), Some("-9.57"));
    assert_eq!(parse_input_i("\"input_i\"\t:  \"-1\" ,, ").as_deref(), Some("-1"));
    assert_eq!(parse_input_i("\"input_i\": -2").as_deref(), Some("-2"));
    assert_eq!(parse_input_i("\"input_i\" -2\n\"input_i\":x\n\"input_i\":3").as_deref(), Some("x"));
    assert_eq!(parse_input_i("input_i: 3"), None);
    assert_eq!(parse_input_i(""), None);
    assert_eq!(measured_text(true, report).as_deref(), Some("-9.57"));
    assert_eq!(measured_text(false, report), None);
}

#[test]
fn analyzer_is_called_on_the_file() {
    assert_eq!(
        measure_args("a b.webm"),
        vec![
            "-hide_banner", "-nostats", "-nostdin", "-i", "a b.webm", "-af", "loudnorm=I=-16:print_format=json", "-f", "null", "-",
        ]
    );
}

#[test]
fn memory_overwrites_and_keeps_apart() {
    let mut cache = LufsCache::new();
    let level = |x: f32| Level { bits: x.to_bits() };
    assert_eq!(cache.cache_get("a"), None);
    cache.cache_set("a".to_string(), level(-9.5));
    cache.cache_set("b".to_string(), level(-8.0));
    cache.cache_set("a".to_string(), level(-7.0));
    assert_eq!(cache.cache_get("a"), Some(level(-7.0)));
    assert_eq!(cache.cache_get("b"), Some(level(-8.0)));
    assert_eq!(cache.entries.len(), 2);
}

#[test]
fn loudness_is_measured_once() {
    let mut cache = LufsCache::new();
    let level = Level { bits: (-9.5f32).to_bits() };
    let mut step = |key: &str, answer| cache.gain_db_for_with_lufs(key.to_string(), answer);
    assert!(step("a", LoudnessAnswer::Asked) == LoudnessStep::ReadSidecar);
    assert!(step("a", LoudnessAnswer::Sidecar(None)) == LoudnessStep::Measure);
    assert!(step("a", LoudnessAnswer::Measured(None)) == LoudnessStep::Unknown);
    assert!(step("a", LoudnessAnswer::Asked) == LoudnessStep::ReadSidecar);
    assert!(step("a", LoudnessAnswer::Measured(Some(level))) == LoudnessStep::Store(level));
    assert!(step("a", LoudnessAnswer::Asked) == LoudnessStep::Use(level));
    assert!(step("b", LoudnessAnswer::Asked) == LoudnessStep::ReadSidecar);
    assert!(step("b", LoudnessAnswer::Sidecar(Some(level))) == LoudnessStep::Use(level));
    assert!(step("b", LoudnessAnswer::Asked) == LoudnessStep::Use(level));
}

#[test]
fn loudness_sources_come_in_order() {
    let level = |x: f32| Level { bits: x.to_bits() };
    let run = |cache: &mut LufsCache, sidecar: Option<Level>, measurement: Option<Level>| {
        let (mut read, mut measured, mut stored) = (false, false, None);
        let mut answer = LoudnessAnswer::Asked;
        loop {
            answer = match cache.gain_db_for_with_lufs("a".to_string(), answer) {
                LoudnessStep::Use(found) => return (Some(found), read, measured, stored),
                LoudnessStep::ReadSidecar => {
                    read = true;
                    LoudnessAnswer::Sidecar(sidecar)
                }
                LoudnessStep::Measure => {
                    measured = true;
                    LoudnessAnswer::Measured(measurement)
                }
                LoudnessStep::Store(found) => {
                    stored = Some(found);
                    return (Some(found), read, measured, stored);
                }
                LoudnessStep::Unknown => return (None, read, measured, stored),
            };
        }
    };
    let (s, f) = (Some(level(-9.0)), Some(level(-8.0)));
    let mut cache = LufsCache::new();
    assert_eq!(run(&mut cache, None, None), (None, true, true, None));
    assert_eq!(cache.cache_get("a"), None);
    assert_eq!(run(&mut cache, None, f), (f, true, true, f));
    assert_eq!(run(&mut cache, s, None), (f, false, false, None));
    let mut cache = LufsCache::new();
    assert_eq!(run(&mut cache, s, f), (s, true, false, None));
    assert_eq!(run(&mut cache, None, f), (s, false, false, None));
}
