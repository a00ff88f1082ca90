//! The renderer's bookkeeping: which viewports there are, what the pipeline is
//! built from, and what each frame consists of.

use crate::app::App;
use crate::color::PackedColor;
use crate::error::RenderError;
use crate::frame::{BackgroundPass, ColorAttachment, FrameStep, GuiPass, LoadOp, TextureView};
use crate::pipeline::{
    build_error, bundle_for, create_pipeline_and_buffers, pipeline_description, source_text,
    PipelineBundle, PipelineBundleView,
};
use crate::viewport::{Reconfigure, Size, TargetTexture, Viewport};
use vstd::prelude::*;

verus! {

/// No two of the viewports belong to the same window.
pub open spec fn windows_distinct(viewports: Seq<Viewport>) -> bool {
    forall|i: int, j: int|
        0 <= i < j < viewports.len() ==> viewports[i].desc.window != viewports[j].desc.window
}

/// The index of the first viewport of `window`.
pub open spec fn position(viewports: Seq<Viewport>, window: u64) -> Option<int>
    decreases viewports.len(),
{
    if viewports.len() == 0 {
        None
    } else {
        match position(viewports.drop_last(), window) {
            Some(i) => Some(i),
            None => if viewports.last().desc.window == window {
                Some(viewports.len() - 1)
            } else {
                None
            },
        }
    }
}

/// The first viewport of `window`.
pub open spec fn viewport_of(viewports: Seq<Viewport>, window: u64) -> Option<Viewport> {
    match position(viewports, window) {
        Some(i) => Some(viewports[i]),
        None => None,
    }
}

/// The last viewport of `window`.
pub open spec fn latest(viewports: Seq<Viewport>, window: u64) -> Option<Viewport>
    decreases viewports.len(),
{
    if viewports.len() == 0 {
        None
    } else if viewports.last().desc.window == window {
        Some(viewports.last())
    } else {
        latest(viewports.drop_last(), window)
    }
}

/// The viewports with `viewport` taking the place of the one that its window had
/// before or, if the window had none, added at the end.
pub open spec fn with_viewport(viewports: Seq<Viewport>, viewport: Viewport) -> Seq<Viewport> {
    match position(viewports, viewport.desc.window) {
        Some(i) => viewports.update(i, viewport),
        None => viewports.push(viewport),
    }
}

/// One viewport for each window of `viewports`: the last that is listed for it.
/// The windows keep the order in which they first occur.
pub open spec fn collected(viewports: Seq<Viewport>) -> Seq<Viewport>
    decreases viewports.len(),
{
    if viewports.len() == 0 {
        Seq::empty()
    } else {
        with_viewport(collected(viewports.drop_last()), viewports.last())
    }
}

/// `position` finds a viewport of the window, there is none before it, and it
/// finds nothing only where the window has no viewport.
pub proof fn lemma_position(viewports: Seq<Viewport>, window: u64)
    ensures
        match position(viewports, window) {
            Some(i) => {
                &&& 0 <= i < viewports.len()
                &&& viewports[i].desc.window == window
                &&& forall|j: int| 0 <= j < i ==> (#[trigger] viewports[j]).desc.window != window
            },
            None => forall|j: int|
                0 <= j < viewports.len() ==> (#[trigger] viewports[j]).desc.window != window,
        },
    decreases viewports.len(),
{
    if viewports.len() > 0 {
        lemma_position(viewports.drop_last(), window);
        assert forall|j: int| 0 <= j < viewports.len() - 1 implies viewports.drop_last()[j]
            == viewports[j] by {}
    }
}

/// Putting a viewport among viewports of distinct windows keeps the windows
/// distinct, makes it the viewport of its window, and leaves every other window
/// with the viewport it had.
pub proof fn lemma_with_viewport(viewports: Seq<Viewport>, viewport: Viewport, window: u64)
    requires
        windows_distinct(viewports),
    ensures
        windows_distinct(with_viewport(viewports, viewport)),
        viewport_of(with_viewport(viewports, viewport), viewport.desc.window) == Some(viewport),
        window != viewport.desc.window ==> viewport_of(with_viewport(viewports, viewport), window)
            == viewport_of(viewports, window),
{
    let after = with_viewport(viewports, viewport);
    lemma_position(viewports, viewport.desc.window);
    lemma_position(viewports, window);
    lemma_position(after, viewport.desc.window);
    lemma_position(after, window);
    match position(viewports, viewport.desc.window) {
        Some(k) => {
            assert(after[k] == viewport);
            assert forall|j: int| 0 <= j < after.len() && j != k implies after[j]
                == viewports[j] by {}
        },
        None => {
            assert(after[viewports.len() as int] == viewport);
            assert forall|j: int| 0 <= j < viewports.len() implies after[j] == viewports[j] by {}
        },
    }
}

/// Collecting keeps one viewport per window: the windows of the result are
/// distinct, and each window has the last viewport that was listed for it.
pub proof fn lemma_collected(viewports: Seq<Viewport>, window: u64)
    ensures
        windows_distinct(collected(viewports)),
        viewport_of(collected(viewports), window) == latest(viewports, window),
        collected(viewports).len() <= viewports.len(),
        viewports.len() > 0 ==> collected(viewports).len() > 0 && collected(
            viewports,
        )[0].desc.window == viewports[0].desc.window,
    decreases viewports.len(),
{
    if viewports.len() > 0 {
        let before = collected(viewports.drop_last());
        lemma_collected(viewports.drop_last(), window);
        lemma_with_viewport(before, viewports.last(), window);
        lemma_position(before, viewports.last().desc.window);
        if viewports.len() > 1 {
            assert(viewports.drop_last()[0] == viewports[0]);
        }
    }
}

/// Viewports of distinct windows are collected as they are.
pub proof fn lemma_collected_distinct(viewports: Seq<Viewport>)
    requires
        windows_distinct(viewports),
    ensures
        collected(viewports) == viewports,
    decreases viewports.len(),
{
    if viewports.len() > 0 {
        lemma_collected_distinct(viewports.drop_last());
        lemma_position(viewports.drop_last(), viewports.last().desc.window);
        assert(viewports.drop_last().push(viewports.last()) =~= viewports);
    }
}


/// What has to be done after a window was resized.
#[derive(Clone, Copy, Debug, PartialEq, Eq)]
pub struct ResizeOutcome {
    /// How to reconfigure the window's surface, if at all.
    pub reconfigure: Option<Reconfigure>,
    /// Whether the window has to be asked to redraw.
    pub request_redraw: bool,
}

/// The viewports with their surfaces' configurations, and the pipeline bundle
/// that is in use. No two viewports belong to the same window.
pub struct Renderer {
    viewports: Vec<Viewport>,
    bundle: PipelineBundle,
}

/// A renderer as a mathematical value.
pub struct RendererView {
    pub viewports: Seq<Viewport>,
    pub bundle: PipelineBundleView,
}

/// Where the triangle is drawn: into the offscreen target, to be resolved into
/// the frame, if there is one, and else straight into the frame. Either way the
/// attachment is first cleared to opaque white.
pub open spec fn background_attachment(target: Option<TargetTexture>) -> ColorAttachment {
    match target {
        Some(_) => ColorAttachment {
            view: TextureView::Offscreen,
            resolve_target: Some(TextureView::Frame),
            load: LoadOp::Clear(PackedColor::white()),
            store: true,
        },
        None => ColorAttachment {
            view: TextureView::Frame,
            resolve_target: None,
            load: LoadOp::Clear(PackedColor::white()),
            store: true,
        },
    }
}

/// The pass that draws the overlay for a screen of the given size: straight into
/// the frame, on top of what the frame holds.
pub open spec fn gui_pass(size: Size) -> GuiPass {
    GuiPass {
        attachment: ColorAttachment {
            view: TextureView::Frame,
            resolve_target: None,
            load: LoadOp::Load,
            store: true,
        },
        size_in_pixels: size,
    }
}

/// What the device is asked to build before a renderer over `viewports` is set
/// up or reloaded from `shader`: the bundle for the source and for the pixel
/// format of the first window's viewport. Without a viewport or a source that
/// was read there is nothing to ask.
pub open spec fn planned(viewports: Seq<Viewport>, shader: Option<Seq<char>>) -> Option<
    PipelineBundleView,
> {
    if viewports.len() == 0 || shader is None {
        None
    } else {
        Some(bundle_for(shader->0, collected(viewports)[0].config.format))
    }
}

impl RendererView {
    /// The pixel format that the pipeline targets: that of the first viewport.
    pub open spec fn primary_format(self) -> Option<wgpu::TextureFormat> {
        if self.viewports.len() > 0 {
            Some(self.viewports[0].config.format)
        } else {
            None
        }
    }

    /// The error with which a reload from `shader` fails, if it fails: there is
    /// no viewport, or else the source could not be read, or else the device did
    /// not accept what was built from it.
    pub open spec fn reload_error(self, shader: Option<Seq<char>>, accepted: bool) -> Option<
        RenderError,
    > {
        if self.viewports.len() == 0 {
            Some(RenderError::NoViewport)
        } else {
            build_error(shader, accepted)
        }
    }

    /// The renderer after a reload from `shader`. A reload that fails changes
    /// nothing; one that succeeds replaces the whole bundle.
    pub open spec fn reloaded(self, shader: Option<Seq<char>>, accepted: bool) -> RendererView {
        if self.reload_error(shader, accepted) is Some {
            self
        } else {
            RendererView {
                viewports: self.viewports,
                bundle: bundle_for(shader->0, self.viewports[0].config.format),
            }
        }
    }

    /// The renderer after `window` has taken the size `size`.
    pub open spec fn resized(self, window: u64, size: Size) -> RendererView {
        match position(self.viewports, window) {
            Some(i) => RendererView {
                viewports: self.viewports.update(i, self.viewports[i].resized(size)),
                bundle: self.bundle,
            },
            None => self,
        }
    }

    /// The pass that draws the triangle in the colour that `app` holds for it.
    pub open spec fn background_pass(self, app: App, target: Option<TargetTexture>)
        -> BackgroundPass {
        BackgroundPass {
            attachment: background_attachment(target),
            color: app.triangle_color,
            num_indices: self.bundle.num_indices,
            instances: 1,
        }
    }

    /// The steps of a frame for `window`, whose size is `size`. There are none
    /// for an empty size or a window without a viewport. Otherwise the frame is
    /// acquired, the triangle is drawn, the overlay is drawn over it, and the
    /// frame is presented.
    pub open spec fn frame(self, app: App, window: u64, size: Size) -> Seq<FrameStep> {
        if size.is_empty() {
            Seq::empty()
        } else {
            match viewport_of(self.viewports, window) {
                Some(viewport) => seq![
                    FrameStep::Acquire,
                    FrameStep::Background(self.background_pass(app, viewport.render_target)),
                    FrameStep::Gui(gui_pass(size)),
                    FrameStep::Present,
                ],
                None => Seq::empty(),
            }
        }
    }

    /// What has to be done after `window` has taken the size `size`. A window
    /// without a viewport needs nothing. One with a viewport is asked to redraw,
    /// and its surface is reconfigured unless the size is empty.
    pub open spec fn resize_outcome(self, window: u64, size: Size) -> ResizeOutcome {
        match viewport_of(self.viewports, window) {
            Some(viewport) => ResizeOutcome {
                reconfigure: viewport.reconfigure_for(size),
                request_redraw: true,
            },
            None => ResizeOutcome { reconfigure: None, request_redraw: false },
        }
    }
}

impl View for Renderer {
    type V = RendererView;

    closed spec fn view(&self) -> RendererView {
        RendererView { viewports: self.viewports@, bundle: self.bundle@ }
    }
}

/// Finds the viewport of `window`.
fn find(viewports: &Vec<Viewport>, window: u64) -> (found: Option<usize>)
    ensures
        match found {
            Some(i) => {
                &&& position(viewports@, window) == Some(i as int)
                &&& i < viewports@.len()
                &&& viewports@[i as int].desc.window == window
            },
            None => position(viewports@, window) is None,
        },
{
    let mut i: usize = 0;
    while i < viewports.len()
        invariant
            i <= viewports@.len(),
            forall|j: int| 0 <= j < i ==> (#[trigger] viewports@[j]).desc.window != window,
        decreases viewports@.len() - i,
    {
        if viewports[i].desc.window == window {
            proof {
                lemma_position(viewports@, window);
            }
            return Some(i);
        }
        i += 1;
    }
    proof {
        lemma_position(viewports@, window);
    }
    None
}

impl Renderer {
    #[verifier::type_invariant]
    spec fn inv(&self) -> bool {
        &&& windows_distinct(self.viewports@)
        &&& self.bundle@.well_formed()
        &&& self.bundle.index_data_matches()
    }

    /// Describes what the device has to be asked to build before a renderer over
    /// `viewports` is set up or reloaded from the shader source that was read.
    /// There is nothing to ask without a viewport or without a source.
    pub fn plan(viewports: &Vec<Viewport>, shader: &Option<String>) -> (asked: Option<
        PipelineBundle,
    >)
        ensures
            match planned(viewports@, source_text(*shader)) {
                Some(view) => {
                    &&& asked matches Some(bundle)
                    &&& bundle@ == view
                    &&& bundle@.well_formed()
                    &&& bundle.index_data_matches()
                },
                None => asked is None,
            },
    {
        if viewports.len() == 0 {
            return None;
        }
        let text = match shader {
            Some(text) => text.clone(),
            None => {
                return None;
            },
        };
        let window = viewports[0].desc.window;
        let mut i: usize = viewports.len();
        assert(viewports@.take(i as int) =~= viewports@);
        while viewports[i - 1].desc.window != window
            invariant
                0 < i <= viewports@.len(),
                viewports@[0].desc.window == window,
                latest(viewports@, window) == latest(viewports@.take(i as int), window),
            decreases i,
        {
            proof {
                assert(viewports@.take(i as int).drop_last() =~= viewports@.take(i - 1));
            }
            i -= 1;
        }
        proof {
            assert(viewports@.take(i as int).last() == viewports@[i - 1]);
            lemma_collected_first(viewports@);
        }
        Some(pipeline_description(text, viewports[i - 1].config.format))
    }

    /// Sets up the renderer for the given viewports and the shader source that
    /// was read, `None` standing for a source that could not be read. `accepted`
    /// is the device's answer to what `plan` describes for them. Of several
    /// viewports of one window the last counts. The pipeline targets the pixel
    /// format of the first viewport, so there must be at least one. There is a
    /// renderer only if the source was read and the device accepted what was
    /// built from it.
    pub fn new(viewports: Vec<Viewport>, shader: Option<String>, accepted: bool) -> (made: Result<
        Renderer,
        RenderError,
    >)
        requires
            viewports@.len() > 0,
        ensures
            match build_error(source_text(shader), accepted) {
                Some(error) => made is Err && made->Err_0 == error,
                None => {
                    &&& made matches Ok(renderer)
                    &&& renderer@.viewports == collected(viewports@)
                    &&& Some(renderer@.bundle) == planned(viewports@, source_text(shader))
                },
            },
    {
        let mut kept: Vec<Viewport> = Vec::new();
        let mut i: usize = 0;
        while i < viewports.len()
            invariant
                i <= viewports@.len(),
                kept@ == collected(viewports@.take(i as int)),
                windows_distinct(kept@),
            decreases viewports@.len() - i,
        {
            let viewport = viewports[i];
            proof {
                assert(viewports@.take(i + 1).drop_last() =~= viewports@.take(i as int));
                lemma_collected(viewports@.take(i + 1), 0);
            }
            match find(&kept, viewport.desc.window) {
                Some(k) => {
                    kept.set(k, viewport);
                },
                None => {
                    kept.push(viewport);
                },
            }
            i += 1;
        }
        proof {
            assert(viewports@.take(i as int) =~= viewports@);
            lemma_collected(viewports@, 0);
        }
        match create_pipeline_and_buffers(shader, kept[0].config.format, accepted) {
            Ok(bundle) => Ok(Renderer { viewports: kept, bundle }),
            Err(error) => Err(error),
        }
    }

    /// Rebuilds the pipeline bundle from the shader source that was read, `None`
    /// standing for a source that could not be read, for the pixel format of the
    /// first viewport. `accepted` is the device's answer to what `plan` describes
    /// for the viewports and the source. On success the whole bundle is replaced.
    /// On failure, be it that the source could not be read or that the device
    /// did not accept it, the renderer is left as it was, with the bundle that
    /// was in use.
    pub fn reload(&mut self, shader: Option<String>, accepted: bool) -> (done: Result<
        (),
        RenderError,
    >)
        ensures
            final(self)@ == old(self)@.reloaded(source_text(shader), accepted),
            match old(self)@.reload_error(source_text(shader), accepted) {
                Some(error) => done is Err && done->Err_0 == error,
                None => done is Ok,
            },
    {
        proof {
            use_type_invariant(&*self);
        }
        if self.viewports.len() == 0 {
            return Err(RenderError::NoViewport);
        }
        let format = self.viewports[0].config.format;
        match create_pipeline_and_buffers(shader, format, accepted) {
            Ok(bundle) => {
                self.bundle = bundle;
                Ok(())
            },
            Err(error) => Err(error),
        }
    }

    /// Follows a change of a window's size. A window without a viewport changes
    /// nothing. Otherwise the window's viewport is resized, which an empty size
    /// leaves as it was, and the window is to be asked to redraw.
    pub fn resize(&mut self, window: u64, size: Size) -> (outcome: ResizeOutcome)
        ensures
            final(self)@ == old(self)@.resized(window, size),
            outcome == old(self)@.resize_outcome(window, size),
    {
        proof {
            use_type_invariant(&*self);
        }
        match find(&self.viewports, window) {
            Some(i) => {
                let mut viewport = self.viewports[i];
                let reconfigure = viewport.resize(size);
                let mut viewports: Vec<Viewport> = Vec::new();
                std::mem::swap(&mut self.viewports, &mut viewports);
                viewports.set(i, viewport);
                self.viewports = viewports;
                ResizeOutcome { reconfigure, request_redraw: true }
            },
            None => ResizeOutcome { reconfigure: None, request_redraw: false },
        }
    }

    /// The viewports, one for each window.
    pub fn viewports(&self) -> (viewports: &Vec<Viewport>)
        ensures
            viewports@ == self@.viewports,
            windows_distinct(viewports@),
    {
        proof {
            use_type_invariant(self);
        }
        &self.viewports
    }

    /// The viewport of `window`.
    pub fn viewport(&self, window: u64) -> (viewport: Option<Viewport>)
        ensures
            viewport == viewport_of(self@.viewports, window),
    {
        match find(&self.viewports, window) {
            Some(i) => Some(self.viewports[i]),
            None => None,
        }
    }

    /// The pipeline bundle that is in use.
    pub fn bundle(&self) -> (bundle: &PipelineBundle)
        ensures
            bundle@ == self@.bundle,
            bundle@.well_formed(),
            bundle.index_data_matches(),
    {
        proof {
            use_type_invariant(self);
        }
        &self.bundle
    }

    /// Lays out the frame for `window`, whose size is `size`, with the triangle in
    /// the colour that `app` holds at this moment.
    pub fn render(&self, app: &App, window: u64, size: Size) -> (steps: Vec<FrameStep>)
        ensures
            steps@ == self@.frame(*app, window, size),
    {
        let mut steps: Vec<FrameStep> = Vec::new();
        if size.width == 0 || size.height == 0 {
            return steps;
        }
        if let Some(i) = find(&self.viewports, window) {
            let target = self.viewports[i].render_target;
            steps.push(FrameStep::Acquire);
            steps.push(FrameStep::Background(self.render_background(app, target)));
            steps.push(FrameStep::Gui(Renderer::render_ui(size)));
            steps.push(FrameStep::Present);
        }
        steps
    }

    /// Describes the pass that draws the overlay.
    pub fn render_ui(size: Size) -> (pass: GuiPass)
        ensures
            pass == gui_pass(size),
    {
        GuiPass {
            attachment: ColorAttachment {
                view: TextureView::Frame,
                resolve_target: None,
                load: LoadOp::Load,
                store: true,
            },
            size_in_pixels: size,
        }
    }

    /// Describes the pass that clears the frame and draws the triangle, given the
    /// viewport's offscreen target.
    pub fn render_background(&self, app: &App, target: Option<TargetTexture>) -> (pass:
        BackgroundPass)
        ensures
            pass == self@.background_pass(*app, target),
    {
        let attachment = match target {
            Some(_) => ColorAttachment {
                view: TextureView::Offscreen,
                resolve_target: Some(TextureView::Frame),
                load: LoadOp::Clear(PackedColor::white()),
                store: true,
            },
            None => ColorAttachment {
                view: TextureView::Frame,
                resolve_target: None,
                load: LoadOp::Clear(PackedColor::white()),
                store: true,
            },
        };
        BackgroundPass {
            attachment,
            color: app.triangle_color,
            num_indices: self.bundle.num_indices,
            instances: 1,
        }
    }
}

/// Replacing a viewport by one of the same window moves no window: every window
/// is found where it was found before.
pub proof fn lemma_position_after_update(
    viewports: Seq<Viewport>,
    i: int,
    viewport: Viewport,
    window: u64,
)
    requires
        0 <= i < viewports.len(),
        viewport.desc.window == viewports[i].desc.window,
    ensures
        position(viewports.update(i, viewport), window) == position(viewports, window),
{
    let after = viewports.update(i, viewport);
    lemma_position(viewports, window);
    lemma_position(after, window);
    assert forall|j: int| 0 <= j < viewports.len() implies (#[trigger] after[j]).desc.window
        == viewports[j].desc.window by {}
    match position(viewports, window) {
        Some(k) => {
            assert(after[k].desc.window == window);
        },
        None => {},
    }
    match position(after, window) {
        Some(k) => {
            assert(viewports[k].desc.window == window);
        },
        None => {},
    }
}

/// Of viewports that are collected, the first is the last that was listed for
/// the window of the first listed.
pub proof fn lemma_collected_first(viewports: Seq<Viewport>)
    requires
        viewports.len() > 0,
    ensures
        collected(viewports).len() > 0,
        latest(viewports, viewports[0].desc.window) == Some(collected(viewports)[0]),
{
    let window = viewports[0].desc.window;
    lemma_collected(viewports, window);
    lemma_position(collected(viewports), window);
}

/// A reload that succeeds leaves a bundle that depends on the source and on the
/// first viewport's pixel format alone. So a second reload from the same source,
/// with the same answer of the device, changes nothing, and neither does a
/// reload from the source that the bundle in use was built from.
pub proof fn lemma_reload_is_idempotent(
    renderer: RendererView,
    shader: Option<Seq<char>>,
    accepted: bool,
)
    ensures
        renderer.reloaded(shader, accepted).reloaded(shader, accepted) == renderer.reloaded(
            shader,
            accepted,
        ),
        renderer.reloaded(shader, accepted).reload_error(shader, accepted)
            == renderer.reload_error(shader, accepted),
        renderer.reload_error(shader, accepted) is None ==> renderer.reloaded(
            shader,
            accepted,
        ).bundle == bundle_for(shader->0, renderer.primary_format()->0),
        renderer.reload_error(shader, accepted) is None && renderer.bundle == bundle_for(
            shader->0,
            renderer.primary_format()->0,
        ) ==> renderer.reloaded(shader, accepted) == renderer,
{
}

/// A reload fails exactly if there is no viewport, the source could not be read
/// or the device did not accept what was built from it, and a reload that fails
/// leaves the viewports and every part of the bundle as they were.
pub proof fn lemma_failed_reload_changes_nothing(
    renderer: RendererView,
    shader: Option<Seq<char>>,
    accepted: bool,
)
    ensures
        renderer.reload_error(shader, accepted) is Some <==> (renderer.viewports.len() == 0
            || shader is None || !accepted),
        renderer.reload_error(shader, accepted) is Some ==> renderer.reloaded(shader, accepted)
            == renderer,
        renderer.reloaded(shader, accepted).viewports == renderer.viewports,
{
}

/// A renderer over viewports of distinct windows asks the device at a reload
/// for what the reload then installs.
pub proof fn lemma_reload_installs_what_was_planned(
    renderer: RendererView,
    shader: Option<Seq<char>>,
)
    requires
        windows_distinct(renderer.viewports),
        renderer.reload_error(shader, true) is None,
    ensures
        planned(renderer.viewports, shader) == Some(renderer.reloaded(shader, true).bundle),
{
    lemma_collected_distinct(renderer.viewports);
}

/// A resize to an empty size leaves the renderer as it was and asks for no
/// surface to be reconfigured, and a later resize has the same outcome as if the
/// empty one had never happened.
pub proof fn lemma_empty_resize_changes_nothing(
    renderer: RendererView,
    window: u64,
    empty: Size,
    size: Size,
)
    requires
        empty.is_empty(),
    ensures
        renderer.resized(window, empty) == renderer,
        renderer.resize_outcome(window, empty).reconfigure is None,
        renderer.resized(window, empty).resized(window, size) == renderer.resized(window, size),
        renderer.resized(window, empty).resize_outcome(window, size) == renderer.resize_outcome(
            window,
            size,
        ),
{
    lemma_position(renderer.viewports, window);
    assert(renderer.resized(window, empty).viewports =~= renderer.viewports);
}

/// After a resize the window's viewport is the one it had, resized, and every
/// other window has the viewport it had.
pub proof fn lemma_resize_reaches_one_viewport(
    renderer: RendererView,
    window: u64,
    size: Size,
    other: u64,
)
    ensures
        viewport_of(renderer.resized(window, size).viewports, window) == match viewport_of(
            renderer.viewports,
            window,
        ) {
            Some(viewport) => Some(viewport.resized(size)),
            None => None,
        },
        other != window ==> viewport_of(renderer.resized(window, size).viewports, other)
            == viewport_of(renderer.viewports, other),
        renderer.resized(window, size).viewports.len() == renderer.viewports.len(),
        windows_distinct(renderer.viewports) ==> windows_distinct(
            renderer.resized(window, size).viewports,
        ),
        renderer.resized(window, size).bundle == renderer.bundle,
{
    lemma_position(renderer.viewports, window);
    lemma_position(renderer.viewports, other);
    match position(renderer.viewports, window) {
        Some(i) => {
            let resized = renderer.viewports[i].resized(size);
            lemma_position_after_update(renderer.viewports, i, resized, window);
            lemma_position_after_update(renderer.viewports, i, resized, other);
        },
        None => {},
    }
}

/// A frame that is drawn at all is acquired first and presented last. In between
/// the triangle is drawn over opaque white, with its result in the frame, and
/// then the overlay is drawn into the frame without clearing it.
pub proof fn lemma_frame_layers(renderer: RendererView, app: App, window: u64, size: Size)
    requires
        renderer.frame(app, window, size).len() > 0,
    ensures
        !size.is_empty(),
        viewport_of(renderer.viewports, window) is Some,
        renderer.frame(app, window, size).len() == 4,
        renderer.frame(app, window, size)[0] == FrameStep::Acquire,
        renderer.frame(app, window, size)[1] matches FrameStep::Background(pass) && {
            &&& pass.attachment.load == LoadOp::Clear(PackedColor::white())
            &&& pass.attachment.output() == TextureView::Frame
            &&& pass.attachment.store
            &&& (pass.attachment.view == TextureView::Offscreen <==> viewport_of(
                renderer.viewports,
                window,
            )->0.render_target is Some)
            &&& pass.color == app.triangle_color
            &&& pass.num_indices == renderer.bundle.num_indices
        },
        renderer.frame(app, window, size)[2] matches FrameStep::Gui(pass) && {
            &&& pass.attachment.load == LoadOp::Load
            &&& pass.attachment.view == TextureView::Frame
            &&& pass.attachment.output() == TextureView::Frame
            &&& pass.attachment.store
            &&& pass.size_in_pixels == size
        },
        renderer.frame(app, window, size)[3] == FrameStep::Present,
{
}

/// Of the state that the user adjusts, a frame shows the triangle's colour and
/// nothing else.
pub proof fn lemma_frame_reads_the_triangle_color(
    renderer: RendererView,
    app: App,
    other: App,
    window: u64,
    size: Size,
)
    requires
        app.triangle_color == other.triangle_color,
    ensures
        renderer.frame(app, window, size) == renderer.frame(other, window, size),
{
}

} // verus!
