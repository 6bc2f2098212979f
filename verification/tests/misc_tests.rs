use alloc_perf_test::booies::BooiesDetails;
use alloc_perf_test::booies_cache::BooiesDetailsCache;
use alloc_perf_test::cli::{BooiesDetailsCacheRefresh, MediaSource};
use alloc_perf_test::conf::{SubFull, Subs};
use alloc_perf_test::deserialize_util::{MapOrSeq, YearOrYMD};
use alloc_perf_test::fs_util::FsUtilError;
use alloc_perf_test::rand_str;
use alloc_perf_test::try_util::BoolExt;
use alloc_perf_test::wrapper_types::NDWrapper;
use alloc_perf_test::AllocPerfError;

#[test]
fn rand_str_length_is_within_bounds() {
    for _ in 0..20 {
        let s = rand_str(16, 16);
        assert_eq!(s.chars().count(), 16);
        assert!(s.is_ascii());
        let t = rand_str(3, 7);
        let n = t.chars().count();
        assert!((3..=7).contains(&n));
    }
    assert_eq!(rand_str(0, 0), "");
}

#[test]
fn gen_subs_numbers_namespaces_from_one() {
    let subs = Subs::gen_subs(8);
    assert_eq!(subs.0.len(), 8);
    for (k, sub) in subs.0.iter().enumerate() {
        assert_eq!(sub.idx as usize, k + 1);
        assert!(sub.domain.starts_with("https://"));
        assert!(sub.domain.ends_with(".com"));
        assert_eq!(sub.domain.chars().count(), 28);
        assert_eq!(sub.username.chars().count(), 16);
        assert_eq!(sub.password.chars().count(), 16);
    }
    assert_eq!(Subs::gen_subs(0).0.len(), 0);
}

#[test]
fn namespace_dir_is_the_decimal_index() {
    let mk = |idx: u8| {
        SubFull {
            idx,
            domain: String::new(),
            username: String::new(),
            password: String::new(),
        }
        .mk_sub_dir_path()
    };
    assert_eq!(mk(1), "1");
    assert_eq!(mk(9), "9");
    assert_eq!(mk(10), "10");
    assert_eq!(mk(42), "42");
    assert_eq!(mk(100), "100");
    assert_eq!(mk(207), "207");
    assert_eq!(mk(255), "255");
}

#[test]
fn cache_insert_and_lookup() {
    let mut cache = BooiesDetailsCache::new();
    assert!(cache.get_boo_details(7).is_none());
    cache.insert(7, BooiesDetails { examples: None }, 1_700_000_000);
    assert!(cache.get_boo_details(7).is_some());
    assert!(cache.get_boo_details(8).is_none());
    cache.insert(7, BooiesDetails { examples: Some(MapOrSeq::Plain(Vec::new())) }, 1_700_000_001);
    let d = cache.get_boo_details(7).unwrap();
    assert!(d.examples.is_some());
}

#[test]
fn missing_cache_file_starts_a_fresh_cache() {
    // "not found" on a read is the one failure treated as a normal branch
    let not_found = AllocPerfError::FsUtil(FsUtilError::ExistentReadableFileOpenFailed {
        path: String::from("5/BOOIES_CACHE"),
        not_found: true,
        source: String::from("no such file"),
    });
    let cache = BooiesDetailsCache::get_local_or_new(Err(not_found)).unwrap();
    assert!(cache.get_boo_details(1).is_none());
}

#[test]
fn other_cache_load_failures_are_passed_on() {
    let denied = AllocPerfError::FsUtil(FsUtilError::ExistentReadableFileOpenFailed {
        path: String::from("5/BOOIES_CACHE"),
        not_found: false,
        source: String::from("permission denied"),
    });
    assert!(BooiesDetailsCache::get_local_or_new(Err(denied)).is_err());

    let mut loaded = BooiesDetailsCache::new();
    loaded.insert(3, BooiesDetails { examples: None }, 0);
    let cache = BooiesDetailsCache::get_local_or_new(Ok(loaded)).unwrap();
    assert!(cache.get_boo_details(3).is_some());
}

#[test]
fn map_or_seq_values_drop_keys_and_keep_order() {
    let keyed: MapOrSeq<u64> = MapOrSeq::Keyed(vec![
        (String::from("a"), 1),
        (String::from("b"), 2),
        (String::from("c"), 3),
    ]);
    assert_eq!(keyed.values(), vec![&1, &2, &3]);

    let plain: MapOrSeq<u64> = MapOrSeq::Plain(vec![4, 5]);
    assert_eq!(plain.values(), vec![&4, &5]);

    let empty: MapOrSeq<u64> = MapOrSeq::Plain(Vec::new());
    assert!(empty.values().is_empty());
}

#[test]
fn bool_ext_builds_errors_lazily() {
    assert_eq!(true.err_if(|| 5u32), Err(5));
    assert_eq!(false.err_if(|| 5u32), Ok(()));
    assert_eq!(true.err_if_not(|| 6u32), Ok(()));
    assert_eq!(false.err_if_not(|| 6u32), Err(6));
}

#[test]
fn aggregated_errors_keep_every_failure() {
    let multi = AllocPerfError::Multi(vec![
        AllocPerfError::FsUtil(FsUtilError::ExistsButNotFile(String::from("a"))),
        AllocPerfError::FsUtil(FsUtilError::ExistsButNotFile(String::from("b"))),
    ]);
    match multi {
        AllocPerfError::Multi(errs) => assert_eq!(errs.len(), 2),
        other => panic!("expected the aggregate variant, got {other:?}"),
    }
}

#[test]
fn media_source_has_the_booies_variant() {
    let m = MediaSource::Booies;
    assert_eq!(m, MediaSource::Booies);
}

#[test]
fn cache_refresh_modes_are_distinct() {
    assert_eq!(BooiesDetailsCacheRefresh::Never, BooiesDetailsCacheRefresh::Never);
    assert_ne!(BooiesDetailsCacheRefresh::Never, BooiesDetailsCacheRefresh::Auto);
    assert_ne!(BooiesDetailsCacheRefresh::Auto, BooiesDetailsCacheRefresh::Forced);
}

#[test]
fn release_dates_carry_years_or_full_dates() {
    let y = YearOrYMD::Year(2020);
    let d = YearOrYMD::YMD(NDWrapper { year: 2020, month: 2, day: 29 });
    assert!(matches!(y, YearOrYMD::Year(2020)));
    assert!(matches!(d, YearOrYMD::YMD(NDWrapper { month: 2, .. })));
}
