use runner_core::transition::{
    hide_text, show_text, tick_transitions, transition_update, visibility_from_bool,
    FadeAnimation, TransitionElement, TransitionStateText, Visibility, COLOR_TWEEN_DURATION,
};

fn resting_visible(target: i64) -> TransitionElement {
    TransitionElement { show: true, color_target: target, anim: None }
}

#[test]
fn fresh_fade_starts_at_its_start_alpha() {
    let f = FadeAnimation::new_fade(250, 1000);
    assert_eq!(f.duration_ms, COLOR_TWEEN_DURATION);
    assert_eq!(f.elapsed_ms, 0);
    assert_eq!(f.progress(), 0);
    assert_eq!(f.alpha(), 250);
}

#[test]
fn fade_interpolates_linearly() {
    let mut f = FadeAnimation::new_fade(0, 1000);
    f.tick(125);
    assert_eq!(f.progress(), 250);
    assert_eq!(f.alpha(), 250);
    f.tick(125);
    assert_eq!(f.progress(), 500);
    assert_eq!(f.alpha(), 500);
    f.tick(250);
    assert_eq!(f.progress(), 1000);
    assert_eq!(f.alpha(), 1000);
}

#[test]
fn fade_saturates_at_its_duration() {
    let mut f = FadeAnimation::new_fade(1000, 0);
    f.tick(100000);
    assert_eq!(f.elapsed_ms, COLOR_TWEEN_DURATION);
    assert_eq!(f.progress(), 1000);
    assert_eq!(f.alpha(), 0);
}

#[test]
fn show_interrupting_hide_resumes_from_current_alpha() {
    // A fully visible element starts hiding; the hide is interrupted
    // at half progress, where its alpha has faded to one half.
    let mut elements = vec![resting_visible(1000)];
    let st = hide_text(&mut elements);
    assert_eq!(st, TransitionStateText::Hide);
    let hide = elements[0].anim.expect("hide fade runs");
    assert_eq!(hide.start_alpha, 1000);
    assert_eq!(hide.end_alpha, 0);
    tick_transitions(&mut elements, 250);
    assert_eq!(elements[0].current_alpha(), 500);
    // Starting Show mid-flight must pick the fade up at that alpha,
    // not snap back to fully transparent.
    let st = show_text(&mut elements);
    assert_eq!(st, TransitionStateText::Show);
    let show = elements[0].anim.expect("show fade runs");
    assert_eq!(show.start_alpha, 500);
    assert_eq!(show.end_alpha, 1000);
    assert_eq!(show.elapsed_ms, 0);
    assert_eq!(elements[0].current_alpha(), 500);
}

#[test]
fn show_from_rest_fades_from_transparent() {
    let mut elements = vec![TransitionElement { show: false, color_target: 800, anim: None }];
    show_text(&mut elements);
    let f = elements[0].anim.expect("show fade runs");
    assert_eq!(f.start_alpha, 0);
    assert_eq!(f.end_alpha, 800);
}

#[test]
fn hide_starts_from_the_current_colour() {
    let mut elements = vec![resting_visible(900)];
    hide_text(&mut elements);
    let f = elements[0].anim.expect("hide fade runs");
    assert_eq!(f.start_alpha, 900);
    assert_eq!(f.end_alpha, 0);
}

#[test]
fn show_update_turns_element_visible_past_threshold() {
    let mut elements = vec![TransitionElement { show: false, color_target: 1000, anim: None }];
    show_text(&mut elements);
    // No progress yet: still below the near-zero threshold.
    let st = transition_update(TransitionStateText::Show, &mut elements);
    assert_eq!(st, TransitionStateText::Idle);
    assert!(!elements[0].show);
    // Past the threshold the element turns visible.
    tick_transitions(&mut elements, 10);
    let st = transition_update(TransitionStateText::Show, &mut elements);
    assert_eq!(st, TransitionStateText::Idle);
    assert!(elements[0].show);
}

#[test]
fn hide_update_turns_element_hidden_near_completion() {
    let mut elements = vec![resting_visible(1000)];
    hide_text(&mut elements);
    tick_transitions(&mut elements, 490);
    // Progress 980 is still short of the completion threshold.
    transition_update(TransitionStateText::Hide, &mut elements);
    assert!(elements[0].show);
    tick_transitions(&mut elements, 5);
    transition_update(TransitionStateText::Hide, &mut elements);
    assert!(!elements[0].show);
}

#[test]
fn idle_update_is_a_no_op() {
    let mut elements = vec![resting_visible(700)];
    hide_text(&mut elements);
    let before = elements.clone();
    let st = transition_update(TransitionStateText::Idle, &mut elements);
    assert_eq!(st, TransitionStateText::Idle);
    assert_eq!(elements, before);
}

#[test]
fn resting_alpha_follows_visibility() {
    assert_eq!(resting_visible(800).current_alpha(), 800);
    let hidden = TransitionElement { show: false, color_target: 800, anim: None };
    assert_eq!(hidden.current_alpha(), 0);
}

#[test]
fn visibility_flag_maps_to_enum() {
    assert_eq!(visibility_from_bool(true), Visibility::Visible);
    assert_eq!(visibility_from_bool(false), Visibility::Hidden);
    assert_eq!(TransitionStateText::default(), TransitionStateText::Idle);
}
