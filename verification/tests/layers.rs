use frame_overlay::layers::{
    document_layers, CompositorStep, LayerCompositor, LayerError, LayerSet, LayerSetBuilder,
    Progress,
};

fn set_of(layers: &[(&str, bool)]) -> LayerSet {
    let mut builder = LayerSetBuilder::new();
    for (name, topmost) in layers {
        assert_eq!(builder.push(name.to_string(), *topmost), Ok(()));
    }
    builder.build()
}

fn names(set: &LayerSet) -> Vec<(String, bool)> {
    (0..set.len()).map(|i| set.get(i).unwrap()).map(|l| (l.name.clone(), l.topmost)).collect()
}

#[test]
fn layers_keep_insertion_order() {
    let set = set_of(&[("sky", false), ("ground", false), ("hud", true)]);
    assert_eq!(set.len(), 3);
    assert_eq!(
        names(&set),
        vec![("sky".to_string(), false), ("ground".to_string(), false), ("hud".to_string(), true)]
    );
    assert!(set.get(3).is_none());
    assert!(set.get(usize::MAX).is_none());
}

#[test]
fn duplicate_name_is_refused() {
    let mut builder = LayerSetBuilder::new();
    assert_eq!(builder.push("background".to_string(), false), Ok(()));
    assert_eq!(builder.push("middle".to_string(), false), Ok(()));
    assert_eq!(builder.push("background".to_string(), false), Err(LayerError::DuplicateName));
    assert_eq!(builder.push("middle".to_string(), true), Err(LayerError::DuplicateName));
    let set = builder.build();
    assert_eq!(set.len(), 2);
    assert_eq!(set.get(1).unwrap().name, "middle");
}

#[test]
fn nothing_goes_above_the_topmost_layer() {
    let mut builder = LayerSetBuilder::new();
    assert_eq!(builder.push("foreground".to_string(), true), Ok(()));
    assert_eq!(builder.push("above".to_string(), false), Err(LayerError::AfterTopmost));
    assert_eq!(builder.push("foreground".to_string(), true), Err(LayerError::AfterTopmost));
    assert_eq!(builder.build().len(), 1);
}

#[test]
fn empty_set_is_a_set() {
    let set = LayerSetBuilder::new().build();
    assert_eq!(set.len(), 0);
    assert!(set.get(0).is_none());
    let mut compositor = LayerCompositor::new(set);
    assert_eq!(compositor.begin_frame(), CompositorStep::Done);
    assert_eq!(compositor.progress(), Progress::Finished);
}

#[test]
fn document_has_background_then_foreground() {
    let set = document_layers(true, true).unwrap();
    assert_eq!(
        names(&set),
        vec![("background".to_string(), false), ("foreground".to_string(), true)]
    );
    assert!(document_layers(true, false).is_none());
    assert!(document_layers(false, true).is_none());
    assert!(document_layers(false, false).is_none());
}

#[test]
fn background_then_foreground_each_frame() {
    let mut compositor = LayerCompositor::new(document_layers(true, true).unwrap());
    assert_eq!(compositor.progress(), Progress::Idle);
    let first = compositor.begin_frame();
    assert_eq!(first, CompositorStep::Render { index: 0, topmost: false });
    assert_eq!(compositor.layers().get(0).unwrap().name, "background");
    let second = compositor.advance(true);
    assert_eq!(second, CompositorStep::Render { index: 1, topmost: true });
    assert_eq!(compositor.layers().get(1).unwrap().name, "foreground");
    assert_eq!(compositor.advance(true), CompositorStep::Done);
    assert_eq!(compositor.progress(), Progress::Finished);
}

#[test]
fn order_repeats_over_many_frames() {
    let mut compositor =
        LayerCompositor::new(set_of(&[("a", false), ("b", false), ("c", false), ("d", true)]));
    for _ in 0..50 {
        let mut step = compositor.begin_frame();
        let mut seen = Vec::new();
        while let CompositorStep::Render { index, topmost } = step {
            seen.push((index, topmost));
            step = compositor.advance(true);
        }
        assert_eq!(step, CompositorStep::Done);
        assert_eq!(seen, vec![(0, false), (1, false), (2, false), (3, true)]);
    }
}

#[test]
fn failed_layer_skips_the_layers_above() {
    let mut compositor = LayerCompositor::new(set_of(&[("a", false), ("b", false), ("c", true)]));
    assert_eq!(compositor.begin_frame(), CompositorStep::Render { index: 0, topmost: false });
    assert_eq!(compositor.advance(true), CompositorStep::Render { index: 1, topmost: false });
    assert_eq!(compositor.advance(false), CompositorStep::Aborted);
    assert_eq!(compositor.progress(), Progress::Aborted);
    assert_eq!(compositor.advance(true), CompositorStep::Aborted);
    assert_eq!(compositor.advance(true), CompositorStep::Aborted);
    assert_eq!(compositor.begin_frame(), CompositorStep::Render { index: 0, topmost: false });
    assert_eq!(compositor.advance(true), CompositorStep::Render { index: 1, topmost: false });
    assert_eq!(compositor.advance(true), CompositorStep::Render { index: 2, topmost: true });
    assert_eq!(compositor.advance(true), CompositorStep::Done);
}

#[test]
fn frame_begun_anew_starts_at_the_bottom() {
    let mut compositor = LayerCompositor::new(set_of(&[("a", false), ("b", true)]));
    assert_eq!(compositor.begin_frame(), CompositorStep::Render { index: 0, topmost: false });
    assert_eq!(compositor.advance(true), CompositorStep::Render { index: 1, topmost: true });
    assert_eq!(compositor.begin_frame(), CompositorStep::Render { index: 0, topmost: false });
    assert_eq!(compositor.progress(), Progress::Requested(0));
}

#[test]
fn report_without_request_changes_nothing() {
    let mut compositor = LayerCompositor::new(set_of(&[("a", true)]));
    assert_eq!(compositor.advance(true), CompositorStep::Done);
    assert_eq!(compositor.progress(), Progress::Idle);
    assert_eq!(compositor.advance(false), CompositorStep::Done);
    assert_eq!(compositor.progress(), Progress::Idle);
    assert_eq!(compositor.begin_frame(), CompositorStep::Render { index: 0, topmost: true });
    assert_eq!(compositor.advance(true), CompositorStep::Done);
    assert_eq!(compositor.advance(false), CompositorStep::Done);
    assert_eq!(compositor.progress(), Progress::Finished);
}
