use mario_clock::exchange::Compositor;
use mario_clock::exchange::Exchange;
use mario_clock::exchange::Refresher;
use mario_clock::exchange::Slot;
use mario_clock::exchange::Step;

#[test]
fn a_slot_holds_one_item() {
    let mut slot: Slot<u32> = Slot::new();
    assert!(!slot.signaled());
    assert_eq!(slot.try_take(), None);
    assert_eq!(slot.signal(7), None);
    assert!(slot.signaled());
    assert_eq!(slot.try_take(), Some(7));
    assert!(!slot.signaled());
    assert_eq!(slot.try_take(), None);
}

#[test]
fn the_newest_frame_wins_and_skipped_frames_are_never_shown() {
    let mut to_refresher: Slot<u32> = Slot::new();
    let mut refresher = Refresher::new(0u32);
    assert_eq!(refresher.current(), None);
    let mut shown = Vec::new();
    let mut displaced = Vec::new();
    // Three frames are published before the refresher looks once.
    for sequence in 1..=3u32 {
        if let Some(skipped) = to_refresher.signal(sequence) {
            displaced.push(skipped);
        }
    }
    let returned = refresher.adopt(to_refresher.try_take());
    shown.push(*refresher.current().unwrap());
    assert_eq!(returned, Some(0));
    assert_eq!(refresher.current(), Some(&3));
    assert_eq!(displaced, vec![1, 2]);
    // Bursts of different lengths, one look after each.
    let mut sequence = 3u32;
    for burst in [1u32, 5, 2, 9] {
        for _ in 0..burst {
            sequence += 1;
            if let Some(skipped) = to_refresher.signal(sequence) {
                displaced.push(skipped);
            }
        }
        refresher.adopt(to_refresher.try_take());
        shown.push(*refresher.current().unwrap());
        assert_eq!(refresher.current(), Some(&sequence));
    }
    assert_eq!(shown, vec![3, 4, 9, 11, 20]);
    assert!(shown.windows(2).all(|w| w[0] < w[1]));
    assert!(displaced.iter().all(|d| !shown.contains(d)));
}

#[test]
fn a_stalled_compositor_leaves_the_frame_in_place() {
    let mut to_refresher: Slot<u32> = Slot::new();
    let mut refresher = Refresher::new(40u32);
    // Nothing is shown before the first frame arrives.
    for _ in 0..10 {
        assert_eq!(refresher.adopt(to_refresher.try_take()), None);
        assert_eq!(refresher.current(), None);
        assert_eq!(*refresher.held(), 40);
    }
    to_refresher.signal(41);
    assert_eq!(refresher.adopt(to_refresher.try_take()), Some(40));
    for _ in 0..100 {
        assert_eq!(refresher.adopt(to_refresher.try_take()), None);
        assert_eq!(refresher.current(), Some(&41));
    }
}

#[test]
fn the_compositor_publishes_once_per_frame() {
    let mut compositor = Compositor::new(5u32);
    assert!(compositor.has_buffer());
    assert_eq!(compositor.buffer(), Some(&5));
    assert_eq!(compositor.publish(), Some(5));
    assert!(!compositor.has_buffer());
    assert_eq!(compositor.publish(), None);
    assert_eq!(compositor.receive(6), None);
    assert_eq!(compositor.buffer(), Some(&6));
    assert_eq!(compositor.receive(7), Some(7));
    assert_eq!(compositor.buffer(), Some(&6));
}

#[test]
fn ownership_alternates_over_many_cycles() {
    let mut exchange = Exchange::new('A', 'B');
    assert_eq!(exchange.scanning(), None);
    for cycle in 0..1000 {
        let (mine, theirs) = if cycle % 2 == 0 { ('A', 'B') } else { ('B', 'A') };
        assert_eq!(exchange.rendering(), Some(&mine));
        assert_eq!(*exchange.held(), theirs);
        assert!(exchange.publish());
        assert_eq!(exchange.rendering(), None);
        assert_eq!(*exchange.held(), theirs);
        assert!(exchange.poll());
        assert_eq!(exchange.scanning(), Some(&mine));
        assert!(!exchange.poll());
        assert!(exchange.receive());
        assert_eq!(exchange.rendering(), Some(&theirs));
        assert_eq!(exchange.scanning(), Some(&mine));
    }
}

#[test]
fn the_compositor_never_holds_the_frame_in_scan() {
    // Every interleaving of six steps, from the start.
    let steps = [Step::Publish, Step::Receive, Step::Poll];
    for code in 0..729u32 {
        let mut exchange = Exchange::new(1u8, 2u8);
        let mut rest = code;
        let mut polled_a_frame = false;
        for _ in 0..6 {
            let step = steps[(rest % 3) as usize];
            rest /= 3;
            match step {
                Step::Poll => polled_a_frame |= exchange.poll(),
                other => exchange.step(other),
            }
            let held = *exchange.held();
            assert!(held == 1 || held == 2);
            if let Some(rendering) = exchange.rendering() {
                assert_ne!(*rendering, held);
                assert_eq!(*rendering + held, 3);
            }
            assert_eq!(exchange.scanning().is_some(), polled_a_frame);
            if let Some(shown) = exchange.scanning() {
                assert_eq!(*shown, held);
            }
        }
    }
}

#[test]
fn steps_that_cannot_be_taken_change_nothing() {
    let mut exchange = Exchange::new(10u8, 20u8);
    assert!(!exchange.receive());
    assert!(!exchange.poll());
    assert_eq!(exchange.rendering(), Some(&10));
    assert_eq!(*exchange.held(), 20);
    assert_eq!(exchange.scanning(), None);
    assert!(exchange.publish());
    assert!(!exchange.publish());
    assert!(!exchange.receive());
    assert_eq!(*exchange.held(), 20);
    exchange.step(Step::Poll);
    exchange.step(Step::Receive);
    assert_eq!(exchange.rendering(), Some(&20));
    assert_eq!(exchange.scanning(), Some(&10));
}

#[test]
fn generations_in_scan_never_go_back() {
    // Two frames that carry the generation of what was rendered into them.
    let mut compositor = Compositor::new((0u32, 'A'));
    let mut refresher = Refresher::new((0u32, 'B'));
    let mut to_refresher = Slot::new();
    let mut to_compositor = Slot::new();
    let mut generation = 0u32;
    let mut last_shown = 0u32;
    for round in 0..300u32 {
        if let Some((_, buffer)) = compositor.publish() {
            generation += 1;
            assert_eq!(to_refresher.signal((generation, buffer)), None);
        }
        if round % 3 != 0 {
            if let Some(older) = refresher.adopt(to_refresher.try_take()) {
                assert_eq!(to_compositor.signal(older), None);
            }
        }
        if !compositor.has_buffer() {
            if let Some(back) = to_compositor.try_take() {
                assert_eq!(compositor.receive(back), None);
            }
        }
        if let Some(&(shown, in_scan)) = refresher.current() {
            assert!(shown >= last_shown);
            last_shown = shown;
            if let Some(&(mine, rendering)) = compositor.buffer() {
                assert_ne!(rendering, in_scan);
                assert!(mine < shown);
            }
        }
    }
    assert_eq!(last_shown, 200);
}
