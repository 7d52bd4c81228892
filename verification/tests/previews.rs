use std::time::Duration;

use niri_screencast::ui::picker::candidate::PickerCandidate;
use niri_screencast::ui::picker::grid::CardCell;
use niri_screencast::ui::picker::previews::{
    merge_rects, preview_refresh_due, window_preview_plan, CardPreview, DisplayPreviewRequest,
    DisplayPreviews, PhysicalRect, WindowInfo, WindowPreviewCache, WindowPreviewCacheItem,
    WindowPreviewCacheKey, PREVIEW_FRAME_INTERVAL,
};
use niri_screencast::ui::i18n::en_us;

fn item() -> WindowPreviewCacheItem {
    WindowPreviewCacheItem {
        id: 1,
        source_width: 800,
        source_height: 600,
        bounds: PhysicalRect {
            x: 10,
            y: 20,
            width: 320,
            height: 240,
        },
        blocked: false,
    }
}

#[test]
fn unchanged_window_preview_layout_reuses_snapshot() {
    let key = WindowPreviewCacheKey {
        scale: 1.5f64.to_bits(),
        items: vec![item()],
    };
    let mut cache: WindowPreviewCache<u8> = WindowPreviewCache::new();

    assert!(cache.update_key(key.clone()));
    assert!(!cache.update_key(key.clone()));

    let mut resized = key;
    resized.items[0].source_width = 801;
    assert!(cache.update_key(resized));
}

#[test]
fn preview_refresh_is_capped_at_thirty_fps() {
    let start = Duration::from_secs(1).as_nanos();

    assert!(preview_refresh_due(None, start));
    assert!(!preview_refresh_due(
        Some(start),
        start + PREVIEW_FRAME_INTERVAL - Duration::from_nanos(1).as_nanos()
    ));
    assert!(preview_refresh_due(
        Some(start),
        start + PREVIEW_FRAME_INTERVAL
    ));
}

#[test]
fn structural_preview_changes_refresh_immediately() {
    let key = WindowPreviewCacheKey {
        scale: 1f64.to_bits(),
        items: vec![item()],
    };
    let mut cache: WindowPreviewCache<u8> = WindowPreviewCache::new();

    assert!(cache.should_refresh(key.clone(), Duration::ZERO.as_nanos()));
    assert!(!cache.should_refresh(key.clone(), Duration::from_millis(1).as_nanos()));

    let mut changed = key;
    changed.items[0].blocked = true;
    assert!(cache.should_refresh(changed, Duration::from_millis(1).as_nanos()));
}

#[test]
fn the_frame_interval_is_a_thirtieth_of_a_second() {
    assert_eq!(PREVIEW_FRAME_INTERVAL, 33_333_333);
    // A clock that goes back is not due.
    assert!(!preview_refresh_due(Some(100), 50));
}

#[test]
fn renderings_are_dropped_when_they_are_outdated() {
    let key = WindowPreviewCacheKey {
        scale: 1f64.to_bits(),
        items: vec![item()],
    };
    let mut cache: WindowPreviewCache<u8> = WindowPreviewCache::new();
    assert!(cache.should_refresh(key.clone(), 0));
    cache.element = Some(9);
    assert!(!cache.should_refresh(key.clone(), 1));
    assert_eq!(cache.element, Some(9));
    let mut scaled = key;
    scaled.scale = 2f64.to_bits();
    assert!(cache.update_key(scaled));
    assert_eq!(cache.element, None);
    cache.clear();
    assert!(cache.key.is_none() && cache.last_refresh.is_none());
}

#[test]
fn merged_rectangles_contain_both() {
    let a = PhysicalRect {
        x: 0,
        y: 10,
        width: 5,
        height: 5,
    };
    let b = PhysicalRect {
        x: -3,
        y: 12,
        width: 4,
        height: 30,
    };
    assert_eq!(
        merge_rects(a, b),
        PhysicalRect {
            x: -3,
            y: 10,
            width: 8,
            height: 32
        }
    );
    let far = PhysicalRect {
        x: i32::MAX - 1,
        y: 0,
        width: 10,
        height: 1,
    };
    let near = PhysicalRect {
        x: i32::MIN,
        y: 0,
        width: 1,
        height: 1,
    };
    assert_eq!(merge_rects(far, near).width, i32::MAX);

    let inverted = PhysicalRect {
        x: 10,
        y: 11,
        width: -4,
        height: 1,
    };
    assert_eq!(
        merge_rects(inverted, inverted),
        PhysicalRect {
            x: 6,
            y: 11,
            width: 4,
            height: 1
        }
    );
}

#[test]
fn only_windows_with_a_size_are_previewed() {
    let messages = en_us::messages();
    let candidates = vec![
        PickerCandidate::window(1, None, None, &messages),
        PickerCandidate::window(2, None, None, &messages),
        PickerCandidate::window(3, None, None, &messages),
        PickerCandidate::monitor("DP-1".to_owned(), "DP-1".to_owned(), None),
    ];
    let rect = |x| PhysicalRect {
        x,
        y: 0,
        width: 10,
        height: 10,
    };
    let cards: Vec<CardPreview> = (0..5)
        .map(|index| CardPreview {
            index,
            bounds: rect(20 * index as i32),
        })
        .collect();
    let window = |id, width, blocked| WindowInfo {
        id,
        width,
        height: 5,
        blocked,
    };
    let windows = vec![window(1, 7, true), window(2, 0, false), window(3, 8, false)];
    let plan = window_preview_plan(&cards, &candidates, &windows);
    assert_eq!(plan.items.len(), 2);
    assert_eq!(plan.items[0].id, 1);
    assert!(plan.items[0].blocked);
    assert_eq!(plan.items[1].id, 3);
    assert_eq!(plan.items[1].bounds, rect(40));
    assert_eq!(
        plan.bounds,
        Some(PhysicalRect {
            x: 0,
            y: 0,
            width: 50,
            height: 10
        })
    );
    let nothing = window_preview_plan(&cards, &candidates, &vec![]);
    assert!(nothing.items.is_empty());
    assert_eq!(nothing.bounds, None);
}

#[test]
fn display_previews_follow_the_requests() {
    let request = |name: &str| DisplayPreviewRequest {
        name: name.to_owned(),
        cell: CardCell {
            index: 0,
            row: 0,
            column: 0,
            row_count: 1,
        },
    };
    let mut previews: DisplayPreviews<u8> = DisplayPreviews::new();
    previews.update("DP-1", Some(1));
    previews.update("DP-2", Some(2));
    previews.update("DP-3", None);
    assert_eq!(previews.get(&"DP-2".to_owned()), Some(&2));
    assert_eq!(previews.get(&"DP-3".to_owned()), None);
    previews.begin_frame(&vec![request("DP-2"), request("DP-9"), request("DP-2")]);
    assert_eq!(previews.get(&"DP-2".to_owned()), None);
    let kept = |previews: &DisplayPreviews<u8>| -> Vec<&str> {
        ["DP-1", "DP-2", "DP-3", "DP-9"]
            .into_iter()
            .filter(|name| previews.previews.contains_key(&name.to_string()))
            .collect()
    };
    assert_eq!(kept(&previews), vec!["DP-2"]);
    previews.update("DP-2", Some(5));
    assert_eq!(previews.get(&"DP-2".to_owned()), Some(&5));
    previews.clear();
    assert!(kept(&previews).is_empty());
}

#[test]
fn scales_are_compared_as_numbers() {
    let key = |scale: f64| WindowPreviewCacheKey {
        scale: scale.to_bits(),
        items: vec![item()],
    };
    assert_eq!(key(0.), key(-0.));
    assert_ne!(key(1.), key(-1.));
    assert_ne!(key(f64::NAN), key(f64::NAN));

    let mut cache: WindowPreviewCache<u8> = WindowPreviewCache::new();
    assert!(cache.update_key(key(0.)));
    assert!(!cache.update_key(key(-0.)));
    assert!(cache.update_key(key(f64::NAN)));
    assert!(cache.update_key(key(f64::NAN)));
}
