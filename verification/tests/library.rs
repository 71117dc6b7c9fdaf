use std::collections::HashMap;
use std::sync::Arc;

use tiantan_acoustics::alerts::{alert_topic, AlertKind, Severity};
use tiantan_acoustics::comparison::{
    resolve_sources, select_dynasty, DesignComparator, EraComparator, MetricKind, SiteSource,
};
use tiantan_acoustics::history::{AlertHistory, ALERT_HISTORY_CAPACITY};
use tiantan_acoustics::measurement::{check_measurement, is_listed, MeasurementError};
use tiantan_acoustics::models::{default_data_quality, default_playback_mode, ApiResponse};
use tiantan_acoustics::noise::{clean_sti_basis, noise_group_key, CleanStiBasis};
use tiantan_acoustics::routes::PaginationParams;
use tiantan_acoustics::site::{invalid_site_id_message, site_display_name, KnownSite};
use tiantan_acoustics::sti::{band_count, StiMode};
use tiantan_acoustics::store::{FallbackBuffer, SiteLog};
use tiantan_acoustics::text::{concat_str, decimal_string, str_contains, str_eq};
use tiantan_acoustics::vr::{echo_count, select_reflections, VrEchoWallSimulator};

fn strings(v: &[&str]) -> Vec<String> {
    v.iter().map(|s| s.to_string()).collect()
}

// ---------------------------------------------------------------------------
// Virtual Echo Wall simulator settings
// ---------------------------------------------------------------------------

#[test]
fn test_vr_simulator_new() {
    let sim = VrEchoWallSimulator::new();
    assert_eq!(sim.get_playback_mode(), "headphone");
    assert!(sim.is_headphone_optimized());
}

#[test]
fn test_with_playback_mode() {
    let sim = VrEchoWallSimulator::new().with_playback_mode("speaker");
    assert_eq!(sim.get_playback_mode(), "speaker");
}

#[test]
fn test_with_playback_mode_keeps_headphone_flag() {
    let sim = VrEchoWallSimulator::default().with_playback_mode("speaker");
    assert!(sim.is_headphone_optimized());
    assert_eq!(sim.with_playback_mode("headphone").get_playback_mode(), "headphone");
}

#[test]
fn test_shoulder_delay_samples() {
    let delay = 300e-6;
    let fs = 48000;
    let samples = (delay * fs as f64).round() as usize;
    assert_eq!(samples, 14);
}

#[test]
fn test_select_reflections_skips_direct_paths() {
    let counts: Vec<u8> = vec![0, 2, 0, 1, 5];
    assert_eq!(select_reflections(&counts), vec![1, 3, 4]);
    assert_eq!(select_reflections(&vec![0, 0]), Vec::<usize>::new());
    assert_eq!(select_reflections(&vec![]), Vec::<usize>::new());
}

#[test]
fn test_echo_count_capped_at_ten() {
    assert_eq!(echo_count(0), 0);
    assert_eq!(echo_count(7), 7);
    assert_eq!(echo_count(10), 10);
    assert_eq!(echo_count(250), 10);
}

// ---------------------------------------------------------------------------
// Comparators
// ---------------------------------------------------------------------------

struct TestConfig {
    ancient_buildings: HashMap<String, u32>,
    concert_halls: HashMap<String, u32>,
}

fn create_test_config() -> Arc<TestConfig> {
    let mut ancient_buildings = HashMap::new();
    ancient_buildings.insert("test_temple".to_string(), 3);
    let mut concert_halls = HashMap::new();
    concert_halls.insert("modern_hall".to_string(), 2);
    Arc::new(TestConfig { ancient_buildings, concert_halls })
}

#[test]
fn test_design_comparator_new() {
    let config = create_test_config();
    let comparator = DesignComparator::new(config);
    assert_eq!(comparator.config().ancient_buildings.len(), 1);
}

#[test]
fn test_era_comparator_new() {
    let config = create_test_config();
    let comparator = EraComparator::new(config);
    assert_eq!(comparator.config().ancient_buildings.len(), 1);
    assert_eq!(comparator.config().concert_halls.len(), 1);
}

#[test]
fn test_resolve_sources_order() {
    let requested = strings(&["tang_temple", "huiyinbi", "shoebox_hall", "nowhere", "both"]);
    let ancient = strings(&["tang_temple", "both"]);
    let halls = strings(&["shoebox_hall", "both"]);
    let sites = strings(&["huiyinbi", "both"]);
    let r = resolve_sources(&requested, &ancient, &halls, &sites);
    assert_eq!(
        r,
        vec![
            Some(SiteSource::AncientBuilding),
            Some(SiteSource::Site),
            Some(SiteSource::ConcertHall),
            None,
            Some(SiteSource::AncientBuilding),
        ]
    );
}

#[test]
fn test_resolve_sources_dynasty_comparison_ignores_halls() {
    let requested = strings(&["shoebox_hall"]);
    let r = resolve_sources(&requested, &vec![], &vec![], &strings(&["huiyinbi"]));
    assert_eq!(r, vec![None]);
}

#[test]
fn test_select_dynasty() {
    let dynasties = vec![
        Some("tang".to_string()),
        None,
        Some("qing".to_string()),
        Some("tang".to_string()),
    ];
    assert_eq!(select_dynasty(&dynasties, "tang"), vec![0, 3]);
    assert_eq!(select_dynasty(&dynasties, "qing"), vec![2]);
    assert_eq!(select_dynasty(&dynasties, "ming"), Vec::<usize>::new());
}

#[test]
fn test_metric_catalogue() {
    let all = MetricKind::all();
    assert_eq!(all.len(), 13);
    let names: Vec<&str> = all.iter().map(|m| m.name()).collect();
    assert_eq!(
        names,
        vec![
            "reverb_time_t60", "clarity_c50", "definition_d50", "sti_value",
            "rasti_value", "sound_pressure_level", "center_time", "bass_ratio",
            "brilliance", "intimacy", "warmth", "loudness", "echo_strength"
        ]
    );
    assert_eq!(MetricKind::ClarityC50.unit(), "dB");
    assert_eq!(MetricKind::DefinitionD50.unit(), "%");
    assert_eq!(MetricKind::Warmth.unit(), "");
    assert_eq!(MetricKind::ReverbTimeT60.description(), "混响时间T60");
    assert!(!MetricKind::ReverbTimeT60.higher_is_better());
    assert!(MetricKind::StiValue.higher_is_better());
    assert!(!MetricKind::EchoStrength.higher_is_better());
}

// ---------------------------------------------------------------------------
// Sites and text
// ---------------------------------------------------------------------------

#[test]
fn test_site_display_names() {
    assert_eq!(site_display_name("huiyinbi"), "回音壁");
    assert_eq!(site_display_name("sanyinshi"), "三音石");
    assert_eq!(site_display_name("huanqiutan"), "圜丘坛");
    assert_eq!(site_display_name("tang_temple"), "tang_temple");
    assert_eq!(site_display_name(""), "");
}

#[test]
fn test_known_site_round_trip() {
    for site in [KnownSite::Huiyinbi, KnownSite::Sanyinshi, KnownSite::Huanqiutan] {
        assert_eq!(KnownSite::from_id(site.id()), Some(site));
    }
    assert_eq!(KnownSite::from_id("Huiyinbi"), None);
    assert_eq!(invalid_site_id_message("x"), "Invalid site_id: x");
}

#[test]
fn test_text_operations() {
    assert!(str_eq("回音壁", "回音壁"));
    assert!(!str_eq("abc", "abd"));
    assert!(!str_eq("abc", "ab"));
    assert!(str_contains("tang_temple", "temple"));
    assert!(str_contains("circular_wall", "circular"));
    assert!(!str_contains("shoebox", "hall"));
    assert!(str_contains("abc", ""));
    assert!(!str_contains("ab", "abc"));
    assert_eq!(concat_str("回音", "壁"), "回音壁");
    assert_eq!(decimal_string(0), "0");
    assert_eq!(decimal_string(7), "7");
    assert_eq!(decimal_string(10), "10");
    assert_eq!(decimal_string(4096), "4096");
    assert_eq!(decimal_string(usize::MAX), usize::MAX.to_string());
}

// ---------------------------------------------------------------------------
// Alert history and alerts
// ---------------------------------------------------------------------------

#[test]
fn test_alert_history_newest_first() {
    let mut h = AlertHistory::new();
    for i in 0..5u32 {
        h.push(i);
    }
    assert_eq!(h.recent(3), vec![&4, &3, &2]);
    assert_eq!(h.recent(10), vec![&4, &3, &2, &1, &0]);
    assert!(h.recent(0).is_empty());
}

#[test]
fn test_alert_history_keeps_last_thousand() {
    let mut h = AlertHistory::new();
    for i in 0..1005u32 {
        h.push(i);
    }
    assert_eq!(h.len(), ALERT_HISTORY_CAPACITY);
    let all = h.recent(2000);
    assert_eq!(all.len(), 1000);
    assert_eq!(*all[0], 1004);
    assert_eq!(*all[999], 5);
}

#[test]
fn test_published_alert_read_back_first() {
    let mut h = AlertHistory::new();
    h.push("a".to_string());
    h.push("b".to_string());
    assert_eq!(h.recent(1), vec![&"b".to_string()]);
}

#[test]
fn test_alert_topic_and_kinds() {
    assert_eq!(
        alert_topic("tiantan/acoustics", "huiyinbi", AlertKind::ReverbTooHigh.alert_type()),
        "tiantan/acoustics/huiyinbi/reverb_too_high"
    );
    assert_eq!(AlertKind::SplTooLow.metric_name(), "sound_pressure_level");
    assert_eq!(AlertKind::ClarityLow.fixed_severity(), Some(Severity::Info));
    assert_eq!(AlertKind::DefinitionLow.fixed_severity(), Some(Severity::Warning));
    assert_eq!(AlertKind::StiDegradation.fixed_severity(), None);
    assert_eq!(Severity::Critical.as_str(), "critical");
}

// ---------------------------------------------------------------------------
// Record store
// ---------------------------------------------------------------------------

#[test]
fn test_site_log_recent_filters_and_orders() {
    let mut log = SiteLog::new();
    log.insert("huiyinbi", 1);
    log.insert("sanyinshi", 2);
    log.insert("huiyinbi", 3);
    log.insert("huiyinbi", 4);
    assert_eq!(log.recent("huiyinbi", 2), vec![&4, &3]);
    assert_eq!(log.recent("huiyinbi", 100), vec![&4, &3, &1]);
    assert_eq!(log.recent("sanyinshi", 100), vec![&2]);
    assert!(log.recent("huanqiutan", 100).is_empty());
    assert!(log.recent("huiyinbi", 0).is_empty());
    assert_eq!(log.recent_filtered(None, 3), vec![&4, &3, &2]);
    assert_eq!(log.latest("huiyinbi"), Some(&4));
    assert_eq!(log.latest("sanyinshi"), Some(&2));
    assert_eq!(log.latest("huanqiutan"), None);
}

#[test]
fn test_site_log_append_keeps_order() {
    let mut log = SiteLog::new();
    log.insert("a", 1);
    log.append(vec![("b".to_string(), 2), ("a".to_string(), 3)]);
    assert_eq!(log.len(), 3);
    assert_eq!(log.recent("a", 10), vec![&3, &1]);
}

#[test]
fn test_store_stats_count_inserts() {
    let mut buf: FallbackBuffer<u8, u16, u32, u64, i8> = FallbackBuffer::new();
    buf.measurements.insert("huiyinbi", 1);
    buf.measurements.insert("huiyinbi", 2);
    buf.paths.insert("huiyinbi", 3);
    buf.alerts.insert("sanyinshi", 4);
    let s = buf.stats();
    assert_eq!(
        (s.measurements, s.paths, s.intelligibility, s.alerts, s.fields),
        (2, 1, 0, 1, 0)
    );
}

// ---------------------------------------------------------------------------
// Measurement admission
// ---------------------------------------------------------------------------

#[test]
fn test_check_measurement_accepts_valid() {
    let sites = strings(&["huiyinbi", "sanyinshi"]);
    let sensors = strings(&["HYB-S01"]);
    assert!(check_measurement(&sites, &sensors, "huiyinbi", "HYB-S01", true, true).is_ok());
}

#[test]
fn test_check_measurement_errors_in_order() {
    let sites = strings(&["huiyinbi"]);
    let sensors = strings(&["HYB-S01"]);
    let e = check_measurement(&sites, &sensors, "nowhere", "nobody", false, false).unwrap_err();
    assert!(matches!(e, MeasurementError::InvalidSiteId(ref s) if s == "nowhere"));
    assert_eq!(e.message(), "Invalid site_id: nowhere");
    let e = check_measurement(&sites, &sensors, "huiyinbi", "nobody", false, false).unwrap_err();
    assert_eq!(e.message(), "Invalid sensor_id: nobody");
    let e = check_measurement(&sites, &sensors, "huiyinbi", "HYB-S01", false, false).unwrap_err();
    assert_eq!(e.message(), "reverb_time_t60 must be > 0");
    let e = check_measurement(&sites, &sensors, "huiyinbi", "HYB-S01", true, false).unwrap_err();
    assert_eq!(e.message(), "sound_pressure_level must be finite");
}

#[test]
fn test_is_listed() {
    let ids = strings(&["huiyinbi", "sanyinshi", "huanqiutan"]);
    assert!(is_listed(&ids, "huanqiutan"));
    assert!(!is_listed(&ids, "huiyin"));
    assert!(!is_listed(&vec![], "huiyinbi"));
}

// ---------------------------------------------------------------------------
// Noise simulation decisions
// ---------------------------------------------------------------------------

#[test]
fn test_noise_group_keys() {
    assert_eq!(noise_group_key(&None, 0), "noise_0");
    assert_eq!(noise_group_key(&None, 12), "noise_12");
    assert_eq!(noise_group_key(&Some("tour_a".to_string()), 12), "tour_a");
}

#[test]
fn test_clean_sti_basis() {
    let ancient = strings(&["tang_temple"]);
    let halls = strings(&["shoebox_hall"]);
    assert_eq!(
        clean_sti_basis("huiyinbi", &ancient, &halls),
        CleanStiBasis::Known(KnownSite::Huiyinbi)
    );
    assert_eq!(clean_sti_basis("tang_temple", &ancient, &halls), CleanStiBasis::AncientBuilding);
    assert_eq!(clean_sti_basis("song_temple", &ancient, &halls), CleanStiBasis::UnlistedTemple);
    assert_eq!(clean_sti_basis("shoebox_hall", &ancient, &halls), CleanStiBasis::ConcertHall);
    assert_eq!(clean_sti_basis("vienna_hall", &ancient, &halls), CleanStiBasis::UnlistedHall);
    assert_eq!(clean_sti_basis("unknown", &ancient, &halls), CleanStiBasis::Other);
    assert_eq!(clean_sti_basis("temple_hall", &vec![], &strings(&["temple_hall"])), CleanStiBasis::UnlistedTemple);
}

// ---------------------------------------------------------------------------
// STI configuration
// ---------------------------------------------------------------------------

#[test]
fn test_sti_mode_selection() {
    assert_eq!(StiMode::from_mode_name("ancient_chinese"), StiMode::AncientChinese);
    assert_eq!(StiMode::from_mode_name("standard"), StiMode::Standard);
    let bands = vec![1usize, 2, 3];
    assert!(StiMode::AncientChinese.tone_boost_band(&bands, 2));
    assert!(!StiMode::AncientChinese.tone_boost_band(&bands, 5));
    assert!(!StiMode::Standard.tone_boost_band(&bands, 2));
    assert_eq!(band_count(7, 5), 5);
    assert_eq!(band_count(7, 9), 7);
}

// ---------------------------------------------------------------------------
// API envelope, defaults and query parameters
// ---------------------------------------------------------------------------

#[test]
fn test_api_response() {
    let ok = ApiResponse::ok(5u32);
    assert!(ok.success);
    assert_eq!(ok.data, Some(5));
    assert_eq!(ok.message, "");
    let err: ApiResponse<u32> = ApiResponse::error("无效的场所ID");
    assert!(!err.success);
    assert!(err.data.is_none());
    assert_eq!(err.message, "无效的场所ID");
}

#[test]
fn test_defaults() {
    assert_eq!(default_playback_mode(), "headphone");
    assert_eq!(default_data_quality(), "estimated");
}

#[test]
fn test_pagination_defaults() {
    let none = PaginationParams { limit: None, site_id: None };
    assert_eq!(none.limit_or(100), 100);
    assert_eq!(none.site_or_default(), "huiyinbi");
    let some = PaginationParams { limit: Some(7), site_id: Some("sanyinshi".to_string()) };
    assert_eq!(some.limit_or(100), 7);
    assert_eq!(some.site_or_default(), "sanyinshi");
    assert_eq!(some.site_or("x"), "sanyinshi");
}
