use keyboard::select6::select6;
use keyboard::select6::Either6;

type Sel = Either6<u32, u32, u32, u32, u32, u32>;

#[test]
fn first_ready_wins() {
    // All six ready: the first wins the tie outright.
    let r = select6(Some(1u32), Some(2u32), Some(3u32), Some(4u32), Some(5u32), Some(6u32)).poll();
    assert_eq!(r, Some(Sel::First(1)));

    // The priority order is the argument order.
    let r = select6(None, Some(2u32), Some(3u32), Some(4u32), Some(5u32), Some(6u32)).poll();
    assert_eq!(r, Some(Sel::Second(2)));
    let r = select6(None, None, Some(3u32), Some(4u32), Some(5u32), Some(6u32)).poll();
    assert_eq!(r, Some(Sel::Third(3)));
    let r = select6(None, None, None, Some(4u32), Some(5u32), Some(6u32)).poll();
    assert_eq!(r, Some(Sel::Fourth(4)));
    let r = select6(None, None, None, None, Some(5u32), Some(6u32)).poll();
    assert_eq!(r, Some(Sel::Fifth(5)));
    let r = select6(None, None, None, None, None, Some(6u32)).poll();
    assert_eq!(r, Some(Sel::Sixth(6)));
}

#[test]
fn nothing_ready_stays_pending() {
    let r = select6::<u32, u32, u32, u32, u32, u32>(None, None, None, None, None, None).poll();
    assert_eq!(r, None);
}
