use mesh_explorer::cache::{CacheError, LiveCache, ReadStep, DEFAULT_STALENESS_MS};
use mesh_explorer::snapshot::{
    assemble_snapshot, ActivationInfo, FetchError, Query, RoundResults, Snapshot,
};

fn round(layer: u64, started_at: u64) -> RoundResults {
    RoundResults {
        highest_activation: Ok(ActivationInfo {
            id: "YWJj".to_string(),
            layer: 5,
            coinbase: "c0ffee".to_string(),
            previous_id: "AAE=".to_string(),
        }),
        genesis_time: Ok("1600000000".to_string()),
        current_layer: Ok(layer),
        current_epoch: Ok(layer / 4),
        epoch_num_layers: Ok(4),
        layer_duration: Ok("5s".to_string()),
        started_at,
    }
}

fn snapshot(layer: u64, started_at: u64) -> Snapshot {
    assemble_snapshot(round(layer, started_at)).unwrap()
}

fn served(step: ReadStep) -> Snapshot {
    match step {
        ReadStep::Serve(s) | ReadStep::Stale(s) => s,
        ReadStep::Fetch => panic!("nothing served"),
    }
}

#[test]
fn assemble_derives_all_fields() {
    let s = snapshot(42, 7);
    assert_eq!(s.highest_activation_id, "616263");
    assert_eq!(s.previous_activation_id, "0001");
    assert_eq!(s.genesis_timestamp, "1600000000");
    assert_eq!(s.genesis_time, "2020-09-13 12:26:40");
    assert_eq!(s.current_layer, 42);
    assert_eq!(s.current_epoch, 10);
    assert_eq!(s.epoch_num_layers, 4);
    assert_eq!(s.layer_duration, "5s");
    assert_eq!(s.fetched_at(), 7);
}

#[test]
fn assemble_fails_on_any_single_failure() {
    let mut r = round(1, 0);
    r.layer_duration = Err(FetchError::Transport(Query::LayerDuration));
    assert_eq!(assemble_snapshot(r), Err(FetchError::Transport(Query::LayerDuration)));
    let mut r = round(1, 0);
    r.highest_activation = Err(FetchError::Decode(Query::HighestActivation));
    assert_eq!(assemble_snapshot(r), Err(FetchError::Decode(Query::HighestActivation)));
}

#[test]
fn assemble_reports_first_failure_in_query_order() {
    let mut r = round(1, 0);
    r.current_epoch = Err(FetchError::Decode(Query::CurrentEpoch));
    r.current_layer = Err(FetchError::Transport(Query::CurrentLayer));
    assert_eq!(assemble_snapshot(r), Err(FetchError::Transport(Query::CurrentLayer)));
}

#[test]
fn assemble_rejects_bad_base64_id() {
    let mut r = round(1, 0);
    r.highest_activation = Ok(ActivationInfo {
        id: "not base64!".to_string(),
        layer: 1,
        coinbase: String::new(),
        previous_id: "YWJj".to_string(),
    });
    assert_eq!(assemble_snapshot(r), Err(FetchError::Decode(Query::HighestActivation)));
}

#[test]
fn assemble_rejects_bad_genesis_timestamp() {
    let mut r = round(1, 0);
    r.genesis_time = Ok("soon".to_string());
    assert_eq!(assemble_snapshot(r), Err(FetchError::Decode(Query::GenesisTime)));
}

#[test]
fn query_method_names() {
    assert_eq!(Query::HighestActivation.method(), "spacemesh.v1.ActivationService.Highest");
    assert_eq!(Query::GenesisTime.method(), "spacemesh.v1.MeshService.GenesisTime");
    assert_eq!(Query::CurrentLayer.method(), "spacemesh.v1.MeshService.CurrentLayer");
    assert_eq!(Query::CurrentEpoch.method(), "spacemesh.v1.MeshService.CurrentEpoch");
    assert_eq!(Query::EpochLayerCount.method(), "spacemesh.v1.MeshService.EpochNumLayers");
    assert_eq!(Query::LayerDuration.method(), "spacemesh.v1.MeshService.LayerDuration");
}

#[test]
fn new_cache_is_empty_with_default_threshold() {
    let c = LiveCache::with_default_threshold();
    assert_eq!(c.threshold_ms(), DEFAULT_STALENESS_MS);
    assert_eq!(DEFAULT_STALENESS_MS, 1000);
    assert!(!c.is_refreshing());
    assert!(matches!(c.read(0), ReadStep::Fetch));
}

#[test]
fn cold_cache_first_read_then_second_read_within_a_second() {
    let mut c = LiveCache::new(1000);
    assert!(matches!(c.read(100), ReadStep::Fetch));
    let first = c.complete_fetch(assemble_snapshot(round(42, 100))).unwrap();
    assert_eq!(first.current_layer, 42);
    match c.read(900) {
        ReadStep::Serve(s) => assert_eq!(s, first),
        other => panic!("expected a cached snapshot, got {:?}", other),
    }
    assert!(!c.is_refreshing());
}

#[test]
fn warm_cache_remote_unreachable_serves_last_good_snapshot() {
    let mut c = LiveCache::new(1000);
    let good = c.complete_fetch(Ok(snapshot(42, 0))).unwrap();
    let stale = match c.read(5000) {
        ReadStep::Stale(s) => s,
        other => panic!("expected a stale snapshot, got {:?}", other),
    };
    assert_eq!(stale, good);
    assert!(c.begin_refresh(5000));
    let after = c.complete_refresh(Err(FetchError::Transport(Query::CurrentLayer))).unwrap();
    assert_eq!(after, good);
    assert!(!c.is_refreshing());
    // the staleness clock was not reset: the next read retries
    assert!(matches!(c.read(5001), ReadStep::Stale(_)));
}

#[test]
fn empty_cache_failure_surfaces_cause() {
    let mut c = LiveCache::new(1000);
    let r = c.complete_fetch(Err(FetchError::Decode(Query::GenesisTime)));
    assert_eq!(r, Err(CacheError::EmptyCache(FetchError::Decode(Query::GenesisTime))));
    assert!(matches!(c.read(1), ReadStep::Fetch));
}

#[test]
fn staleness_boundary_at_threshold() {
    let mut c = LiveCache::new(1000);
    c.complete_fetch(Ok(snapshot(1, 2000))).unwrap();
    assert!(matches!(c.read(2999), ReadStep::Serve(_)));
    assert!(!c.begin_refresh(2999));
    assert!(matches!(c.read(3000), ReadStep::Stale(_)));
    assert!(c.begin_refresh(3000));
    assert!(!c.begin_refresh(3000));
    assert!(!c.begin_refresh(9000));
    assert!(matches!(c.read(9000), ReadStep::Serve(_)));
}

#[test]
fn clock_behind_snapshot_is_fresh() {
    let mut c = LiveCache::new(1000);
    c.complete_fetch(Ok(snapshot(1, 5000))).unwrap();
    assert!(matches!(c.read(10), ReadStep::Serve(_)));
}

#[test]
fn failed_round_leaves_held_snapshot_unchanged() {
    let mut c = LiveCache::new(1000);
    let good = c.complete_fetch(Ok(snapshot(8, 0))).unwrap();
    assert!(c.begin_refresh(1000));
    let mut r = round(9, 1000);
    r.current_epoch = Err(FetchError::Transport(Query::CurrentEpoch));
    let after = c.complete_refresh(assemble_snapshot(r)).unwrap();
    assert_eq!(after, good);
    assert_eq!(served(c.read(1000)), good);
}

#[test]
fn fetched_at_never_goes_back() {
    let mut c = LiveCache::new(1000);
    let newer = c.complete_fetch(Ok(snapshot(10, 500))).unwrap();
    let held = c.complete_fetch(Ok(snapshot(9, 400))).unwrap();
    assert_eq!(held, newer);
    assert_eq!(served(c.read(600)).fetched_at(), 500);
}

#[test]
fn reads_during_refresh_see_one_whole_round() {
    let mut c = LiveCache::new(1000);
    let old = c.complete_fetch(Ok(snapshot(10, 0))).unwrap();
    assert!(matches!(c.read(1500), ReadStep::Stale(_)));
    assert!(c.begin_refresh(1500));
    assert_eq!(served(c.read(1600)), old);
    let new = c.complete_refresh(assemble_snapshot(round(11, 1500))).unwrap();
    assert_eq!(new.current_layer, 11);
    assert_eq!(new.current_epoch, 2);
    assert_eq!(new.fetched_at(), 1500);
    let seen = served(c.read(1700));
    assert_eq!(seen, new);
    assert!(seen.fetched_at() >= old.fetched_at());
}
