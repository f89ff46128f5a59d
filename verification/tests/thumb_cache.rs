use std::cell::Cell;
use std::rc::Rc;

use rst_win32::thumb_cache::{Lookup, ThumbCache, WindowThumb};

fn dummy_thumb(id: u8) -> WindowThumb {
    WindowThumb { width: 144, height: 80, rgba: vec![id; 144 * 80 * 4] }
}

#[test]
fn cache_stores_and_returns_captured_thumbnail() {
    let mut cache =
        ThumbCache::with_capturer(10, 3000, |hwnd, _| Some(dummy_thumb(hwnd as u8)));

    let thumb = cache.get(1, 100, 1000);
    assert!(thumb.is_some());
    assert_eq!(thumb.unwrap().rgba[0], 1);
    assert_eq!(cache.len(), 1);
}

#[test]
fn cache_hits_do_not_invoke_capturer_again() {
    let call_count = Rc::new(Cell::new(0));
    let cc = call_count.clone();
    let mut cache = ThumbCache::with_capturer(
        10,
        3000,
        move |hwnd, _| {
            cc.set(cc.get() + 1);
            Some(dummy_thumb(hwnd as u8))
        },
    );

    assert!(cache.get(42, 100, 1000).is_some());
    assert_eq!(call_count.get(), 1);

    assert!(cache.get(42, 100, 2000).is_some());
    assert_eq!(call_count.get(), 1);

    assert!(cache.get(42, 100, 3999).is_some());
    assert_eq!(call_count.get(), 1);

    assert_eq!(cache.len(), 1);
}

#[test]
fn cache_evicts_expired_entries_on_get_after_ttl() {
    let mut call_count = 0;
    let mut cache = ThumbCache::with_capturer(
        10,
        3000,
        move |_, _| {
            call_count += 1;
            Some(dummy_thumb(call_count))
        },
    );

    let thumb1 = cache.get(10, 100, 1000).unwrap();
    assert_eq!(thumb1.rgba[0], 1);

    let thumb2 = cache.get(10, 100, 4001).unwrap();
    assert_eq!(thumb2.rgba[0], 2);
}

#[test]
fn cache_prune_removes_expired_entries() {
    let mut cache =
        ThumbCache::with_capturer(10, 2000, |hwnd, _| Some(dummy_thumb(hwnd as u8)));

    cache.get(1, 100, 1000);
    cache.get(2, 100, 2000);
    assert_eq!(cache.len(), 2);

    cache.prune(3500);
    assert_eq!(cache.len(), 1);
    assert!(cache.entries.contains_key(&2));
    assert!(!cache.entries.contains_key(&1));
    // A second time there is nothing left to remove.
    cache.prune(3500);
    assert_eq!(cache.len(), 1);
}

#[test]
fn cache_forget_removes_entry_immediately() {
    let mut cache =
        ThumbCache::with_capturer(10, 5000, |hwnd, _| Some(dummy_thumb(hwnd as u8)));

    cache.get(100, 100, 1000);
    assert_eq!(cache.len(), 1);

    cache.forget(100);
    assert_eq!(cache.len(), 0);
    assert!(cache.is_empty());
}

#[test]
fn cache_negative_result_is_cached_and_retried_after_ttl() {
    let mut attempts = 0;
    let mut cache = ThumbCache::with_capturer(
        10,
        3000,
        move |_, _| {
            attempts += 1;
            if attempts == 1 {
                None
            } else {
                Some(dummy_thumb(99))
            }
        },
    );

    assert!(cache.get(50, 100, 1000).is_none());
    assert_eq!(cache.len(), 1);

    assert!(cache.get(50, 100, 2000).is_none());

    let res = cache.get(50, 100, 4001);
    assert!(res.is_some());
    assert_eq!(res.unwrap().rgba[0], 99);
}

#[test]
fn cache_evicts_lru_entry_when_full() {
    let mut cache =
        ThumbCache::with_capturer(3, 10000, |hwnd, _| Some(dummy_thumb(hwnd as u8)));

    cache.get(1, 100, 1000);
    cache.get(2, 100, 1100);
    cache.get(3, 100, 1200);
    assert_eq!(cache.len(), 3);

    cache.get(1, 100, 1300);

    cache.get(4, 100, 1400);
    assert_eq!(cache.len(), 3);
    assert!(cache.entries.contains_key(&1));
    assert!(cache.entries.contains_key(&3));
    assert!(cache.entries.contains_key(&4));
    assert!(!cache.entries.contains_key(&2));
}

#[test]
fn cache_zero_max_entries_does_not_cache_and_returns_none() {
    let mut cache =
        ThumbCache::with_capturer(0, 3000, |hwnd, _| Some(dummy_thumb(hwnd as u8)));

    assert!(cache.get(1, 100, 1000).is_none());
    assert_eq!(cache.len(), 0);
    assert!(cache.is_empty());
}

#[test]
fn cache_prune_on_empty_cache_is_noop() {
    let mut cache: ThumbCache<fn(usize, u32) -> Option<WindowThumb>> =
        ThumbCache::new(10, 3000);
    assert_eq!(cache.len(), 0);
    cache.prune(10000);
    assert_eq!(cache.len(), 0);
}

#[test]
fn cache_len_and_is_empty_reflect_actual_state() {
    let mut cache =
        ThumbCache::with_capturer(5, 5000, |hwnd, _| Some(dummy_thumb(hwnd as u8)));

    assert!(cache.is_empty());
    assert_eq!(cache.len(), 0);

    cache.get(10, 100, 1000);
    assert!(!cache.is_empty());
    assert_eq!(cache.len(), 1);

    cache.forget(10);
    assert!(cache.is_empty());
    assert_eq!(cache.len(), 0);
}

#[test]
fn cache_access_refreshes_lru_priority() {
    let mut cache =
        ThumbCache::with_capturer(2, 10000, |hwnd, _| Some(dummy_thumb(hwnd as u8)));

    cache.get(1, 100, 100);
    cache.get(2, 100, 200);

    cache.get(1, 100, 300);

    cache.get(3, 100, 400);
    assert!(cache.entries.contains_key(&1));
    assert!(cache.entries.contains_key(&3));
    assert!(!cache.entries.contains_key(&2));
}

#[test]
fn cache_expiration_boundary_conditions() {
    let mut cache =
        ThumbCache::with_capturer(5, 1000, |hwnd, _| Some(dummy_thumb(hwnd as u8)));

    cache.get(1, 100, 1000);

    assert!(cache.entries.get(&1).unwrap().expires_at_ms > 1999);

    cache.prune(2000);
    assert_eq!(cache.len(), 0);
}

#[test]
fn the_capturer_is_told_the_window_and_the_side() {
    let seen = Rc::new(Cell::new((0, 0)));
    let s = seen.clone();
    let mut cache = ThumbCache::with_capturer(
        1,
        1000,
        move |hwnd, side| {
            s.set((hwnd, side));
            None
        },
    );
    assert!(cache.get(77, 160, 5).is_none());
    assert_eq!(seen.get(), (77, 160));
}

#[test]
fn cache_grows_by_one_at_most_and_stays_within_its_limit() {
    let mut cache = ThumbCache::with_capturer(3, 100, |hwnd, _| {
        if hwnd % 2 == 0 { Some(dummy_thumb(hwnd as u8)) } else { None }
    });
    let mut kept = 0;
    for (now, hwnd) in [1, 1, 2, 3, 4, 2, 5, 6, 1].into_iter().enumerate() {
        let now = 40 * now as u64;
        let _ = cache.get(hwnd, 100, now);
        assert!(cache.len() == kept || cache.len() == kept + 1);
        assert!(cache.len() <= 3);
        kept = cache.len();
    }
    assert_eq!(kept, 3);
    cache.forget(1);
    assert_eq!(cache.len(), 2);
    cache.prune(u64::MAX);
    assert!(cache.is_empty());
}

#[test]
fn the_end_of_an_entry_is_no_later_than_the_last_moment() {
    let mut cache = ThumbCache::with_capturer(3, 3000, |hwnd, _| Some(dummy_thumb(hwnd as u8)));
    assert!(cache.get(1, 100, u64::MAX - 10).is_some());
    assert_eq!(cache.lookup(1, u64::MAX - 1), Lookup::Fresh);
    assert_eq!(cache.lookup(1, u64::MAX), Lookup::Missing);
}

#[test]
fn showing_a_picture_does_not_lengthen_its_life() {
    let calls = Rc::new(Cell::new(0u8));
    let counted = calls.clone();
    let mut cache = ThumbCache::with_capturer(10, 3000, move |hwnd, max_side| {
        assert_eq!((hwnd, max_side), (42, 100));
        counted.set(counted.get() + 1);
        Some(dummy_thumb(counted.get()))
    });
    assert_eq!(cache.get(42, 100, 1000).unwrap().rgba[0], 1);
    assert_eq!(cache.get(42, 100, 3999).unwrap().rgba[0], 1);
    assert_eq!(cache.get(42, 100, 4000).unwrap().rgba[0], 2);
    assert_eq!(calls.get(), 2);
    assert_eq!(cache.len(), 1);
}
