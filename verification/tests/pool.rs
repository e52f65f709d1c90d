use moxin_frontend::pool::{KindTag, RecycledViewPool, ViewHandle};
use moxin_frontend::viewport::{Viewport, ViewportWindow};

#[test]
fn new_pool_is_empty() {
    let pool = RecycledViewPool::new();
    assert_eq!(pool.len(), 0);
    assert!(pool.slot(0).is_none());
}

#[test]
fn resolve_creates_on_miss_and_finds_on_hit() {
    let mut pool = RecycledViewPool::new();
    let a = pool.resolve(5, KindTag::Model);
    assert_eq!(a, ViewHandle { kind: KindTag::Model, slot: 0 });
    let b = pool.resolve(6, KindTag::Header);
    assert_eq!(b, ViewHandle { kind: KindTag::Header, slot: 1 });
    assert_eq!(pool.resolve(5, KindTag::Model), a);
    assert_eq!(pool.len(), 2);
    let slot = pool.slot(0).unwrap();
    assert_eq!(slot.kind, KindTag::Model);
    assert_eq!(slot.attached, Some(5));
}

#[test]
fn released_views_are_reused_by_kind() {
    let mut pool = RecycledViewPool::new();
    pool.resolve(0, KindTag::Header);
    pool.resolve(1, KindTag::Model);
    pool.resolve(2, KindTag::Model);
    pool.release_outside(2, 3);
    assert_eq!(pool.slot(0).unwrap().attached, None);
    assert_eq!(pool.slot(1).unwrap().attached, None);
    assert_eq!(pool.slot(2).unwrap().attached, Some(2));
    // The first idle view of the kind is taken, not the header's.
    assert_eq!(pool.resolve(9, KindTag::Model).slot, 1);
    assert_eq!(pool.resolve(10, KindTag::Model).slot, 3);
    assert_eq!(pool.resolve(11, KindTag::Header).slot, 0);
    assert_eq!(pool.len(), 4);
}

#[test]
fn release_with_empty_range_frees_everything() {
    let mut pool = RecycledViewPool::new();
    pool.resolve(0, KindTag::ItemRow);
    pool.resolve(usize::MAX, KindTag::ItemRow);
    pool.release_outside(0, 0);
    assert_eq!(pool.slot(0).unwrap().attached, None);
    assert_eq!(pool.slot(1).unwrap().attached, None);
}

#[test]
fn no_index_holds_two_views() {
    let mut pool = RecycledViewPool::new();
    let kinds = [KindTag::UserChatLine, KindTag::ModelChatLine, KindTag::UserChatLine];
    for round in 0..3 {
        for index in 0..6usize {
            pool.resolve(index, kinds[(index + round) % 3]);
        }
        for index in 0..6usize {
            let mut holders = 0;
            for at in 0..pool.len() {
                if pool.slot(at).unwrap().attached == Some(index) {
                    holders += 1;
                }
            }
            assert_eq!(holders, 1);
        }
    }
}

#[test]
fn window_of_a_viewport() {
    let view = Viewport { first: 3, offset: -25, extent: 40, row_extent: 10 };
    // Rows 3 and 4 lie wholly before the area, row 5 half; the area ends in row 9.
    assert_eq!(view.window(100), ViewportWindow { start: 5, end: 10 });
    assert_eq!(view.window(7), ViewportWindow { start: 5, end: 7 });
    assert_eq!(view.window(4), ViewportWindow { start: 4, end: 4 });
    assert_eq!(view.window(0), ViewportWindow { start: 0, end: 0 });
}

#[test]
fn window_at_the_extremes() {
    let far = Viewport { first: usize::MAX, offset: 0, extent: u32::MAX, row_extent: 1 };
    assert_eq!(far.window(usize::MAX), ViewportWindow { start: usize::MAX, end: usize::MAX });
    let low = Viewport { first: 0, offset: i64::MIN, extent: u32::MAX, row_extent: u32::MAX };
    let window = low.window(usize::MAX);
    assert_eq!(window.start, (1u64 << 63).div_euclid(u32::MAX as u64) as usize);
    assert_eq!(window.end, window.start + 2);
    let high = Viewport { first: 0, offset: i64::MAX, extent: u32::MAX, row_extent: 1 };
    assert_eq!(high.window(10), ViewportWindow { start: 0, end: 0 });
    let none = Viewport { first: 0, offset: 0, extent: 0, row_extent: 10 };
    assert_eq!(none.window(10), ViewportWindow { start: 0, end: 0 });
}
