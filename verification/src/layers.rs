//! The named regions of the UI surface, in compositing order, and the
//! compositor that asks the UI host for them one at a time.

use vstd::prelude::*;

verus! {

/// A named region of the UI surface.
#[derive(Clone, Debug, PartialEq, Eq)]
pub struct LayerDescriptor {
    /// Name of the region.
    pub name: String,
    /// Whether this region is the final, topmost pass.
    pub topmost: bool,
}

/// A layer as mathematical values.
pub struct LayerModel {
    /// Name of the region.
    pub name: Seq<char>,
    /// Whether this region is the final, topmost pass.
    pub topmost: bool,
}

impl View for LayerDescriptor {
    type V = LayerModel;

    open spec fn view(&self) -> LayerModel {
        LayerModel { name: self.name@, topmost: self.topmost }
    }
}

/// Why a layer was not inserted.
#[derive(Clone, Copy, Debug, PartialEq, Eq, Structural)]
pub enum LayerError {
    /// A layer of that name is in the set already.
    DuplicateName,
    /// The set ends with its topmost layer already.
    AfterTopmost,
}

/// Whether a layer of that name is among `layers`.
pub open spec fn has_name(layers: Seq<LayerModel>, name: Seq<char>) -> bool {
    exists|i: int| 0 <= i < layers.len() && (#[trigger] layers[i]).name == name
}

/// The layers form an ordered set: no name occurs twice, and only the last
/// layer may be the topmost one.
pub open spec fn well_ordered(layers: Seq<LayerModel>) -> bool {
    &&& forall|i: int, j: int|
        0 <= i < j < layers.len() ==> (#[trigger] layers[i]).name != (#[trigger] layers[j]).name
    &&& forall|i: int| 0 <= i < layers.len() - 1 ==> !(#[trigger] layers[i]).topmost
}

/// The set after inserting a layer at its end, or why it is not inserted.
pub open spec fn insertion(layers: Seq<LayerModel>, name: Seq<char>, topmost: bool) -> Result<
    Seq<LayerModel>,
    LayerError,
> {
    if layers.len() > 0 && layers.last().topmost {
        Err(LayerError::AfterTopmost)
    } else if has_name(layers, name) {
        Err(LayerError::DuplicateName)
    } else {
        Ok(layers.push(LayerModel { name, topmost }))
    }
}

/// The views of the layers, in order.
pub open spec fn models(layers: Seq<LayerDescriptor>) -> Seq<LayerModel> {
    Seq::new(layers.len(), |i: int| layers[i]@)
}

/// The layers of a UI document while they are collected, during setup.
#[derive(Debug)]
pub struct LayerSetBuilder {
    layers: Vec<LayerDescriptor>,
}

impl View for LayerSetBuilder {
    type V = Seq<LayerModel>;

    closed spec fn view(&self) -> Seq<LayerModel> {
        models(self.layers@)
    }
}

impl LayerSetBuilder {
    /// A builder without layers.
    pub fn new() -> (builder: Self)
        ensures
            builder@ == Seq::<LayerModel>::empty(),
            well_ordered(builder@),
    {
        let builder = LayerSetBuilder { layers: Vec::new() };
        assert(models(builder.layers@) =~= Seq::<LayerModel>::empty());
        builder
    }

    /// Inserts a layer above those inserted so far. The set is unchanged
    /// when the layer is refused.
    #[verifier::loop_isolation(false)]
    pub fn push(&mut self, name: String, topmost: bool) -> (inserted: Result<(), LayerError>)
        requires
            well_ordered(old(self)@),
        ensures
            well_ordered(final(self)@),
            match insertion(old(self)@, name@, topmost) {
                Ok(layers) => inserted is Ok && final(self)@ == layers,
                Err(error) => inserted == Err::<(), _>(error) && final(self)@ == old(self)@,
            },
    {
        let count: usize = self.layers.len();
        if count > 0 && self.layers[count - 1].topmost {
            return Err(LayerError::AfterTopmost);
        }
        let mut i: usize = 0;
        while i < count
            invariant
                i <= count,
                count == self.layers@.len(),
                forall|j: int| 0 <= j < i ==> (#[trigger] models(self.layers@)[j]).name != name@,
            decreases count - i,
        {
            if self.layers[i].name == name {
                assert(models(self.layers@)[i as int].name == name@);
                return Err(LayerError::DuplicateName);
            }
            i += 1;
        }
        let ghost before = models(self.layers@);
        self.layers.push(LayerDescriptor { name, topmost });
        proof {
            assert(models(self.layers@) =~= before.push(LayerModel { name: name@, topmost }));
        }
        Ok(())
    }

    /// Ends setup: the set is fixed from here on.
    pub fn build(self) -> (set: LayerSet)
        requires
            well_ordered(self@),
        ensures
            set@ == self@,
    {
        LayerSet { layers: self.layers }
    }
}

/// The layers of a UI document in compositing order, bottom first. The set
/// is fixed: it has no operation that inserts, removes or reorders.
#[derive(Debug)]
pub struct LayerSet {
    layers: Vec<LayerDescriptor>,
}

impl View for LayerSet {
    type V = Seq<LayerModel>;

    closed spec fn view(&self) -> Seq<LayerModel> {
        models(self.layers@)
    }
}

impl LayerSet {
    #[verifier::type_invariant]
    spec fn ordered(self) -> bool {
        well_ordered(models(self.layers@))
    }

    /// Number of layers.
    pub fn len(&self) -> (count: usize)
        ensures
            count == self@.len(),
    {
        self.layers.len()
    }

    /// The layer at `index`, counted from the bottom.
    pub fn get(&self, index: usize) -> (layer: Option<&LayerDescriptor>)
        ensures
            well_ordered(self@),
            index < self@.len() ==> (layer matches Some(found) && found@ == self@[index as int]),
            index >= self@.len() ==> layer is None,
    {
        proof {
            use_type_invariant(self);
        }
        if index < self.layers.len() {
            Some(&self.layers[index])
        } else {
            None
        }
    }
}

/// The layers of a UI document with a background and a foreground region:
/// the background at the bottom, the foreground as the topmost pass.
pub open spec fn document_layer_models() -> Seq<LayerModel> {
    seq![
        LayerModel { name: "background"@, topmost: false },
        LayerModel { name: "foreground"@, topmost: true },
    ]
}

/// Decides the UI binding from what setup found in the document: both
/// regions are composited, or, where either is missing, none is.
pub fn document_layers(background_found: bool, foreground_found: bool) -> (layers: Option<LayerSet>)
    ensures
        (background_found && foreground_found) ==> (layers matches Some(set) && set@
            == document_layer_models()),
        !(background_found && foreground_found) ==> layers is None,
{
    if !(background_found && foreground_found) {
        return None;
    }
    proof {
        reveal_strlit("background");
        reveal_strlit("foreground");
        assert("background"@[0] != "foreground"@[0]);
    }
    let mut builder = LayerSetBuilder::new();
    let ghost empty = builder@;
    let bottom = builder.push("background".to_owned(), false);
    assert(!has_name(empty, "background"@));
    let ghost one = builder@;
    let top = builder.push("foreground".to_owned(), true);
    assert(!has_name(one, "foreground"@)) by {
        assert(one.len() == 1);
        assert(one[0].name == "background"@);
    }
    assert(builder@ =~= document_layer_models());
    Some(builder.build())
}

/// What the compositor asks of its caller next.
#[derive(Clone, Copy, Debug, PartialEq, Eq, Structural)]
pub enum CompositorStep {
    /// Have the UI host render the layer at `index` onto the target, and
    /// report how it went.
    Render { index: usize, topmost: bool },
    /// Every layer of the frame was rendered.
    Done,
    /// A render call failed: the layers above it are skipped for this frame.
    Aborted,
}

/// How far the compositor is in the current frame.
#[derive(Clone, Copy, Debug, PartialEq, Eq, Structural)]
pub enum Progress {
    /// No frame was begun.
    Idle,
    /// The layer at this index was requested and is not reported yet.
    Requested(usize),
    /// Every layer was rendered.
    Finished,
    /// A render call failed.
    Aborted,
}

/// The request for the layer at `index`, or the end of the frame where
/// there is no such layer.
pub open spec fn request(layers: Seq<LayerModel>, index: int) -> (Progress, CompositorStep) {
    if 0 <= index < layers.len() {
        (
            Progress::Requested(index as usize),
            CompositorStep::Render { index: index as usize, topmost: layers[index].topmost },
        )
    } else {
        (Progress::Finished, CompositorStep::Done)
    }
}

/// A frame begins at the bottom layer, whatever came before.
pub open spec fn begun(layers: Seq<LayerModel>) -> (Progress, CompositorStep) {
    request(layers, 0)
}

/// After the report of a render call: the next layer up if the call
/// succeeded, and the end of the frame's compositing if it failed. A report
/// that answers no request changes nothing.
pub open spec fn advanced(layers: Seq<LayerModel>, progress: Progress, rendered: bool) -> (
    Progress,
    CompositorStep,
) {
    match progress {
        Progress::Requested(index) => if rendered {
            request(layers, index + 1)
        } else {
            (Progress::Aborted, CompositorStep::Aborted)
        },
        Progress::Aborted => (Progress::Aborted, CompositorStep::Aborted),
        Progress::Idle => (Progress::Idle, CompositorStep::Done),
        Progress::Finished => (Progress::Finished, CompositorStep::Done),
    }
}

/// A compositor as mathematical values.
pub struct CompositorModel {
    /// The layers, bottom first.
    pub layers: Seq<LayerModel>,
    /// The position in the current frame.
    pub progress: Progress,
}

/// Walks the layers of one frame from the bottom up. Each render call is
/// requested only after the one below it has been reported as done.
#[derive(Debug)]
pub struct LayerCompositor {
    layers: LayerSet,
    progress: Progress,
}

impl View for LayerCompositor {
    type V = CompositorModel;

    closed spec fn view(&self) -> CompositorModel {
        CompositorModel { layers: self.layers@, progress: self.progress }
    }
}

impl LayerCompositor {
    /// A compositor for `layers` that has begun no frame.
    pub fn new(layers: LayerSet) -> (compositor: Self)
        ensures
            compositor@ == (CompositorModel { layers: layers@, progress: Progress::Idle }),
    {
        LayerCompositor { layers, progress: Progress::Idle }
    }

    /// The layers, which never change.
    pub fn layers(&self) -> (layers: &LayerSet)
        ensures
            layers@ == self@.layers,
    {
        &self.layers
    }

    /// The position in the current frame.
    pub fn progress(&self) -> (progress: Progress)
        ensures
            progress == self@.progress,
    {
        self.progress
    }

    fn request_at(&mut self, index: usize) -> (step: CompositorStep)
        ensures
            final(self)@.layers == old(self)@.layers,
            (final(self)@.progress, step) == request(old(self)@.layers, index as int),
    {
        match self.layers.get(index) {
            Some(layer) => {
                let topmost: bool = layer.topmost;
                self.progress = Progress::Requested(index);
                CompositorStep::Render { index, topmost }
            },
            None => {
                self.progress = Progress::Finished;
                CompositorStep::Done
            },
        }
    }

    /// Begins the compositing of a frame and returns its first step.
    pub fn begin_frame(&mut self) -> (step: CompositorStep)
        ensures
            final(self)@.layers == old(self)@.layers,
            (final(self)@.progress, step) == begun(old(self)@.layers),
    {
        self.request_at(0)
    }

    /// Takes the report of the render call that was requested last and
    /// returns the next step.
    pub fn advance(&mut self, rendered: bool) -> (step: CompositorStep)
        ensures
            final(self)@.layers == old(self)@.layers,
            (final(self)@.progress, step) == advanced(
                old(self)@.layers,
                old(self)@.progress,
                rendered,
            ),
    {
        match self.progress {
            Progress::Requested(index) => {
                if !rendered {
                    self.progress = Progress::Aborted;
                    CompositorStep::Aborted
                } else if index < self.layers.len() {
                    self.request_at(index + 1)
                } else {
                    self.progress = Progress::Finished;
                    CompositorStep::Done
                }
            },
            Progress::Aborted => CompositorStep::Aborted,
            Progress::Idle => CompositorStep::Done,
            Progress::Finished => CompositorStep::Done,
        }
    }
}

/// Where a frame stands after it was begun and the render calls were
/// reported as `reports` says, one report for each call in turn.
pub open spec fn frame_progress(layers: Seq<LayerModel>, reports: Seq<bool>) -> (
    Progress,
    CompositorStep,
)
    decreases reports.len(),
{
    if reports.len() == 0 {
        begun(layers)
    } else {
        advanced(layers, frame_progress(layers, reports.drop_last()).0, reports.last())
    }
}

/// Layers are rendered in strict insertion order in every frame: the call
/// that follows `n` reports is for the layer at index `n`, with that
/// layer's own topmost flag, and it is requested only if every call before
/// it succeeded. The frame is done exactly when every layer was rendered,
/// and after a failed call no further layer is requested. None of this
/// depends on the frames before, so repeating a frame repeats the order.
pub proof fn lemma_insertion_order(layers: Seq<LayerModel>, reports: Seq<bool>)
    requires
        layers.len() <= usize::MAX,
    ensures
        match frame_progress(layers, reports) {
            (Progress::Requested(at), CompositorStep::Render { index, topmost }) => {
                &&& at == index
                &&& index == reports.len()
                &&& index < layers.len()
                &&& topmost == layers[index as int].topmost
                &&& forall|i: int| 0 <= i < reports.len() ==> reports[i]
            },
            (Progress::Finished, CompositorStep::Done) => {
                &&& reports.len() >= layers.len()
                &&& forall|i: int| 0 <= i < layers.len() ==> reports[i]
            },
            (Progress::Aborted, CompositorStep::Aborted) => exists|i: int|
                0 <= i < reports.len() && !reports[i],
            _ => false,
        },
    decreases reports.len(),
{
    if reports.len() > 0 {
        let earlier = reports.drop_last();
        lemma_insertion_order(layers, earlier);
        assert(forall|i: int| 0 <= i < earlier.len() ==> earlier[i] == reports[i]);
        match frame_progress(layers, earlier) {
            (Progress::Requested(at), _) => {
                if !reports.last() {
                    assert(!reports[reports.len() - 1]);
                }
            },
            (Progress::Aborted, _) => {
                let i = choose|i: int| 0 <= i < earlier.len() && !earlier[i];
                assert(!reports[i]);
            },
            _ => {},
        }
    }
}

} // verus!
