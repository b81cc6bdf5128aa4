use carousel::component::Component;
use carousel::transition::Transition;

fn five() -> Component<&'static str> {
    Component::new(vec!["A", "B", "C", "D", "E"])
}

#[test]
fn new_starts_neutral() {
    let c = Component::new(vec![7u32]);
    assert_eq!(c.current_index(), 0);
    assert_eq!(c.progress_value(), 500);
    assert_eq!(c.len(), 1);
}

#[test]
fn next_from_first_slide_wraps_to_last() {
    let mut c = five();
    c.animate_to(1000);
    let v = c.tick(500);
    assert_eq!(v, 1000);
    assert_eq!(c.current_index(), 4);
    assert_eq!(c.progress_value(), 500);
    let slots = c.render();
    let window: Vec<&str> = slots.iter().map(|s| *c.get_slide(s.slide_index)).collect();
    assert_eq!(window, vec!["C", "D", "E", "A", "B"]);
}

#[test]
fn prev_from_first_slide_steps_forward() {
    let mut c = five();
    c.animate_to(0);
    let v = c.tick(500);
    assert_eq!(v, 0);
    assert_eq!(c.current_index(), 1);
    assert_eq!(c.progress_value(), 500);
}

#[test]
fn rest_state_after_each_complete_cycle() {
    let mut c = five();
    for _ in 0..3 {
        c.animate_to(1000);
        c.tick(500);
        assert_eq!(c.progress_value(), 500);
        c.animate_to(0);
        c.tick(500);
        assert_eq!(c.progress_value(), 500);
    }
    assert_eq!(c.current_index(), 0);
}

#[test]
fn rapid_double_next_fires_once_per_completion() {
    let mut c = five();
    c.animate_to(1000);
    let v1 = c.tick(100);
    assert_eq!(v1, 700);
    assert_eq!(c.current_index(), 0);
    c.animate_to(1000);
    let v2 = c.tick(100);
    assert_eq!(v2, 900);
    assert_eq!(c.current_index(), 0);
    let v3 = c.tick(100);
    assert_eq!(v3, 1000);
    assert_eq!(c.current_index(), 4);
    assert_eq!(c.progress_value(), 500);
    let v4 = c.tick(100);
    assert_eq!(v4, 500);
    assert_eq!(c.current_index(), 4);
}

#[test]
fn net_index_change_is_difference_of_completions() {
    let mut c = five();
    let mut at_end = 0i64;
    let mut at_start = 0i64;
    for to_end in [true, true, false, true] {
        if to_end {
            c.animate_to(1000);
            at_end += 1;
        } else {
            c.animate_to(0);
            at_start += 1;
        }
        c.tick(500);
    }
    let net = (at_start - at_end).rem_euclid(5);
    assert_eq!(c.current_index() as i64, net);
    assert_eq!(c.current_index(), 3);
}

#[test]
fn resolved_index_always_in_range() {
    let c = Component::new(vec![0u8, 1, 2]);
    for ci in -7i64..=7 {
        for off in -2i64..=2 {
            let i = c.resolve_index(ci, off);
            assert!(i < 3);
            assert_eq!(i as i64, (ci + off).rem_euclid(3));
        }
    }
}

#[test]
fn resolve_index_concrete_values() {
    let c = five();
    assert_eq!(c.resolve_index(0, -2), 3);
    assert_eq!(c.resolve_index(0, -1), 4);
    assert_eq!(c.resolve_index(4, 2), 1);
    assert_eq!(c.resolve_index(-13, 2), 4);
}

#[test]
fn single_slide_always_resolves_to_itself() {
    let c = Component::new(vec!["only"]);
    for off in -2i64..=2 {
        assert_eq!(c.resolve_index(0, off), 0);
        assert_eq!(c.resolve_index(-9, off), 0);
    }
}

#[test]
fn transform_at_neutral_and_at_end() {
    let mut c = five();
    let s = c.render_slide(0, 0);
    assert_eq!(s.translate, 0);
    c.jump_to(1000);
    let s = c.render_slide(0, 0);
    assert_eq!(s.translate, 1000);
    c.jump_to(0);
    let s = c.render_slide(0, 0);
    assert_eq!(s.translate, -1000);
}

#[test]
fn mask_gradient_boundaries() {
    let c = five();
    let s = c.render_slide(0, 0);
    assert_eq!(s.mask_fade_in, -100);
    assert_eq!(s.mask_opaque_from, 0);
    assert_eq!(s.mask_opaque_to, 1000);
    assert_eq!(s.mask_fade_out, 1100);
    let right = c.render_slide(0, 1);
    assert_eq!(right.translate, 1000);
    assert_eq!(right.mask_fade_in, 900);
    assert_eq!(right.mask_fade_out, 2100);
}

#[test]
fn render_gives_five_positioned_slots() {
    let c = five();
    let slots = c.render();
    assert_eq!(slots.len(), 5);
    let indices: Vec<usize> = slots.iter().map(|s| s.slide_index).collect();
    assert_eq!(indices, vec![3, 4, 0, 1, 2]);
    let translates: Vec<i64> = slots.iter().map(|s| s.translate).collect();
    assert_eq!(translates, vec![-2000, -1000, 0, 1000, 2000]);
    let overlays: Vec<bool> = slots.iter().map(|s| s.overlay).collect();
    assert_eq!(overlays, vec![true, true, false, true, true]);
}

#[test]
fn partial_progress_moves_linearly() {
    let mut c = five();
    c.animate_to(1000);
    assert_eq!(c.tick(125), 750);
    let s = c.render_slide(0, 0);
    assert_eq!(s.translate, 500);
}

#[test]
fn tick_without_target_stays_put() {
    let mut c = five();
    let v = c.tick(10_000);
    assert_eq!(v, 500);
    assert_eq!(c.current_index(), 0);
    assert_eq!(c.progress_value(), 500);
}

#[test]
fn jump_to_cancels_pending_transition() {
    let mut c = five();
    c.animate_to(1000);
    c.tick(100);
    c.jump_to(500);
    let v = c.tick(500);
    assert_eq!(v, 500);
    assert_eq!(c.current_index(), 0);
}

#[test]
fn redirect_keeps_progress_continuous() {
    let mut t = Transition::new(500, 500);
    t.animate_to(1000);
    assert_eq!(t.step(100), 700);
    t.animate_to(0);
    assert_eq!(t.step(100), 500);
    assert_eq!(t.step(100), 300);
    assert_eq!(t.step(1_000_000), 0);
    assert_eq!(t.step(100), 0);
}

#[test]
fn full_duration_step_lands_exactly_on_target() {
    let mut t = Transition::new(500, 137);
    t.animate_to(1000);
    assert_eq!(t.step(500), 1000);
    let mut t = Transition::new(500, 863);
    t.animate_to(0);
    assert_eq!(t.step(500), 0);
}

#[test]
fn window_aliases_when_fewer_than_five_slides() {
    let c = Component::new(vec!["x", "y", "z"]);
    let slots = c.render();
    let indices: Vec<usize> = slots.iter().map(|s| s.slide_index).collect();
    assert_eq!(indices, vec![1, 2, 0, 1, 2]);
}
