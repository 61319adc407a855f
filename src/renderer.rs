use crate::cache::{entries_without_component, ItemCache};
use vstd::prelude::*;

verus! {

/// An RGBA color with 8 bits per channel.
#[derive(Clone, Copy, Debug, PartialEq, Eq, Structural)]
pub struct Color {
    pub red: u8,
    pub green: u8,
    pub blue: u8,
    pub alpha: u8,
}

/// The kind of brush that a window's background is painted with.
#[derive(Clone, Copy, Debug, PartialEq, Eq, Structural)]
pub enum Background {
    /// A flat color: the canvas is cleared with it.
    SolidColor(Color),
    /// A linear or radial gradient: clearing cannot express it, so it is drawn
    /// as a rectangle that covers the window.
    Gradient,
}

/// The points of the frame lifecycle at which a rendering notifier is called.
#[derive(Clone, Copy, Debug, PartialEq, Eq, Structural)]
pub enum RenderingState {
    RenderingSetup,
    BeforeRendering,
    AfterRendering,
    RenderingTeardown,
}

/// Why registering a rendering notifier failed.
#[derive(Clone, Copy, Debug, PartialEq, Eq, Structural)]
pub enum SetRenderingNotifierError {
    /// The surface cannot expose its graphics API to a notifier.
    Unsupported,
    /// A notifier is registered already.
    AlreadySet,
}

/// Why a frame could not be rendered.
#[derive(Clone, Copy, Debug, PartialEq, Eq, Structural)]
pub enum RendererError {
    /// The window adapter that the renderer was bound to has been dropped, or
    /// the renderer was never bound to one.
    WindowAdapterGone,
}

/// One step of the work done inside the surface's render call, in order.
#[derive(Clone, Copy, Debug, PartialEq, Eq, Structural)]
pub enum FrameStep {
    /// Clear the canvas with the color.
    ClearCanvas(Color),
    /// Flush the graphics context.
    FlushContext,
    /// Call the rendering notifier with the state.
    Notify(RenderingState),
    /// Check both resource caches against the window's scale factor.
    EvictStaleResources,
    /// Draw the gradient background as a rectangle covering the window.
    DrawBackground,
    /// Walk the scene graph and draw its components.
    RenderComponents,
    /// Let the metrics collector sample the frame.
    SampleMetrics,
    /// Call the post-render hook.
    PostRender,
}

/// What the start of a frame has to do before the surface renders.
#[derive(Clone, Copy, Debug, PartialEq, Eq, Structural)]
pub struct FrameSetup {
    /// Create the metrics collector (the first frame on this surface).
    pub create_metrics_collector: bool,
    /// Call the notifier with `RenderingSetup`.
    pub notify_rendering_setup: bool,
}

/// The steps before the scene walk that clear to a flat background and let a
/// notifier see the cleared back buffer.
pub open spec fn steps_before_scene(background: Option<Background>, has_notifier: bool) -> Seq<
    FrameStep,
> {
    (match background {
        Some(Background::SolidColor(c)) => seq![FrameStep::ClearCanvas(c)],
        _ => Seq::empty(),
    }) + (if has_notifier {
        seq![FrameStep::FlushContext, FrameStep::Notify(RenderingState::BeforeRendering)]
    } else {
        Seq::empty()
    }) + seq![FrameStep::EvictStaleResources]
}

/// The steps from the gradient background to the final flush.
pub open spec fn steps_from_scene(
    background: Option<Background>,
    has_metrics_collector: bool,
    has_post_render_callback: bool,
) -> Seq<FrameStep> {
    (if background == Some(Background::Gradient) {
        seq![FrameStep::DrawBackground]
    } else {
        Seq::empty()
    }) + seq![FrameStep::RenderComponents] + (if has_metrics_collector {
        seq![FrameStep::SampleMetrics]
    } else {
        Seq::empty()
    }) + (if has_post_render_callback {
        seq![FrameStep::PostRender]
    } else {
        Seq::empty()
    }) + seq![FrameStep::FlushContext]
}

/// The steps of one frame inside the surface's render call.
pub open spec fn frame_steps_spec(
    background: Option<Background>,
    has_notifier: bool,
    has_metrics_collector: bool,
    has_post_render_callback: bool,
) -> Seq<FrameStep> {
    steps_before_scene(background, has_notifier) + steps_from_scene(
        background,
        has_metrics_collector,
        has_post_render_callback,
    )
}

/// The renderer's state across frames: the bound surface, the registered
/// notifier, the binding to its window adapter (a non-owning handle), and the
/// two resource caches, for images and for paths.
///
/// The surface, notifier, handle and cached resources are the caller's own
/// types; the renderer decides what happens to them and when.
pub struct SkiaRenderer<S, N, W, I, P> {
    maybe_window_adapter: Option<W>,
    rendering_notifier: Option<N>,
    image_cache: ItemCache<I>,
    path_cache: ItemCache<P>,
    rendering_first_time: bool,
    surface: Option<S>,
    surface_supports_graphics_api: bool,
    default_surface_supports_graphics_api: bool,
}

impl<S, N, W, I, P> SkiaRenderer<S, N, W, I, P> {
    pub closed spec fn bound_surface(&self) -> Option<S> {
        self.surface
    }

    /// Whether a notifier may be registered: the bound surface can expose its
    /// graphics API, or, with no surface bound, the default surface can.
    pub closed spec fn graphics_api_supported(&self) -> bool {
        if self.surface is Some {
            self.surface_supports_graphics_api
        } else {
            self.default_surface_supports_graphics_api
        }
    }

    pub closed spec fn notifier(&self) -> Option<N> {
        self.rendering_notifier
    }

    pub closed spec fn window_adapter_binding(&self) -> Option<W> {
        self.maybe_window_adapter
    }

    pub closed spec fn images(&self) -> ItemCache<I> {
        self.image_cache
    }

    pub closed spec fn paths(&self) -> ItemCache<P> {
        self.path_cache
    }

    /// Whether the next frame is the first one on the bound surface.
    pub closed spec fn first_render(&self) -> bool {
        self.rendering_first_time
    }

    /// What `begin_frame` reports for a renderer in this state.
    pub open spec fn frame_setup(&self) -> Option<FrameSetup> {
        if self.bound_surface() is Some {
            Some(
                FrameSetup {
                    create_metrics_collector: self.first_render(),
                    notify_rendering_setup: self.first_render() && self.notifier() is Some,
                },
            )
        } else {
            None
        }
    }

    /// Creates a renderer bound to `surface`. `supports_graphics_api` tells
    /// whether the surface can expose its graphics API to a notifier.
    pub fn new_with_surface(surface: S, supports_graphics_api: bool) -> (r: Self)
        ensures
            r.bound_surface() == Some(surface),
            r.graphics_api_supported() == supports_graphics_api,
            r.notifier() is None,
            r.window_adapter_binding() is None,
            r.images().entries().is_empty(),
            r.paths().entries().is_empty(),
            r.first_render(),
    {
        SkiaRenderer {
            maybe_window_adapter: None,
            rendering_notifier: None,
            image_cache: ItemCache::new(),
            path_cache: ItemCache::new(),
            rendering_first_time: true,
            surface: Some(surface),
            surface_supports_graphics_api: supports_graphics_api,
            default_surface_supports_graphics_api: false,
        }
    }

    /// Creates a renderer with no surface yet. Until one is bound, rendering
    /// does nothing, and a notifier may be registered only where
    /// `default_surface_supports_graphics_api` holds.
    pub fn without_surface(default_surface_supports_graphics_api: bool) -> (r: Self)
        ensures
            r.bound_surface() is None,
            r.graphics_api_supported() == default_surface_supports_graphics_api,
            r.notifier() is None,
            r.window_adapter_binding() is None,
            r.images().entries().is_empty(),
            r.paths().entries().is_empty(),
            r.first_render(),
    {
        SkiaRenderer {
            maybe_window_adapter: None,
            rendering_notifier: None,
            image_cache: ItemCache::new(),
            path_cache: ItemCache::new(),
            rendering_first_time: true,
            surface: None,
            surface_supports_graphics_api: false,
            default_surface_supports_graphics_api,
        }
    }

    /// Replaces the bound surface. Resources made for the old surface's
    /// context are evicted, and the next frame is a first frame again.
    pub fn set_surface(&mut self, surface: S, supports_graphics_api: bool)
        ensures
            final(self).bound_surface() == Some(surface),
            final(self).graphics_api_supported() == supports_graphics_api,
            final(self).images().entries().is_empty(),
            final(self).paths().entries().is_empty(),
            final(self).first_render(),
            final(self).notifier() == old(self).notifier(),
            final(self).window_adapter_binding() == old(self).window_adapter_binding(),
            final(self).images().recorded_scale_factor() == old(
                self,
            ).images().recorded_scale_factor(),
            final(self).paths().recorded_scale_factor() == old(
                self,
            ).paths().recorded_scale_factor(),
    {
        self.image_cache.clear_all();
        self.path_cache.clear_all();
        self.rendering_first_time = true;
        self.surface = Some(surface);
        self.surface_supports_graphics_api = supports_graphics_api;
    }

    /// Binds the renderer to a window adapter, through a handle that does not
    /// keep the window alive. Both caches are evicted.
    pub fn set_window_adapter(&mut self, window_adapter: W)
        ensures
            final(self).window_adapter_binding() == Some(window_adapter),
            final(self).images().entries().is_empty(),
            final(self).paths().entries().is_empty(),
            final(self).bound_surface() == old(self).bound_surface(),
            final(self).graphics_api_supported() == old(self).graphics_api_supported(),
            final(self).notifier() == old(self).notifier(),
            final(self).first_render() == old(self).first_render(),
            final(self).images().recorded_scale_factor() == old(
                self,
            ).images().recorded_scale_factor(),
            final(self).paths().recorded_scale_factor() == old(
                self,
            ).paths().recorded_scale_factor(),
    {
        self.maybe_window_adapter = Some(window_adapter);
        self.image_cache.clear_all();
        self.path_cache.clear_all();
    }

    /// Registers the notifier. It fails with `Unsupported` where the surface
    /// cannot expose its graphics API, and with `AlreadySet` where a notifier
    /// is registered already; on failure the renderer is left as it was.
    pub fn set_rendering_notifier(&mut self, callback: N) -> (r: Result<
        (),
        SetRenderingNotifierError,
    >)
        ensures
            !old(self).graphics_api_supported() ==> r == Err::<(), _>(
                SetRenderingNotifierError::Unsupported,
            ),
            old(self).graphics_api_supported() && old(self).notifier() is Some ==> r == Err::<
                (),
                _,
            >(SetRenderingNotifierError::AlreadySet),
            old(self).graphics_api_supported() && old(self).notifier() is None ==> r is Ok,
            r is Ok ==> final(self).notifier() == Some(callback),
            r is Err ==> final(self).notifier() == old(self).notifier(),
            final(self).bound_surface() == old(self).bound_surface(),
            final(self).graphics_api_supported() == old(self).graphics_api_supported(),
            final(self).window_adapter_binding() == old(self).window_adapter_binding(),
            final(self).images() == old(self).images(),
            final(self).paths() == old(self).paths(),
            final(self).first_render() == old(self).first_render(),
    {
        let supported = if self.surface.is_some() {
            self.surface_supports_graphics_api
        } else {
            self.default_surface_supports_graphics_api
        };
        if !supported {
            return Err(SetRenderingNotifierError::Unsupported);
        }
        if self.rendering_notifier.is_some() {
            return Err(SetRenderingNotifierError::AlreadySet);
        }
        self.rendering_notifier = Some(callback);
        Ok(())
    }

    /// Evicts the resources of a component that the UI runtime destroyed,
    /// from both caches.
    pub fn free_graphics_resources(&mut self, component: u64)
        ensures
            final(self).images().entries() == entries_without_component(
                old(self).images().entries(),
                component,
            ),
            final(self).paths().entries() == entries_without_component(
                old(self).paths().entries(),
                component,
            ),
            final(self).images().recorded_scale_factor() == old(
                self,
            ).images().recorded_scale_factor(),
            final(self).paths().recorded_scale_factor() == old(
                self,
            ).paths().recorded_scale_factor(),
            final(self).bound_surface() == old(self).bound_surface(),
            final(self).graphics_api_supported() == old(self).graphics_api_supported(),
            final(self).notifier() == old(self).notifier(),
            final(self).window_adapter_binding() == old(self).window_adapter_binding(),
            final(self).first_render() == old(self).first_render(),
    {
        self.image_cache.component_destroyed(component);
        self.path_cache.component_destroyed(component);
    }

    /// Starts a frame. With no surface bound there is nothing to render and
    /// `None` comes back. Otherwise the first frame on a surface creates the
    /// metrics collector and, where a notifier is registered, calls it with
    /// `RenderingSetup`; later frames do neither.
    pub fn begin_frame(&mut self) -> (r: Option<FrameSetup>)
        ensures
            r == old(self).frame_setup(),
            final(self).first_render() == (old(self).first_render() && old(
                self,
            ).bound_surface() is None),
            final(self).bound_surface() == old(self).bound_surface(),
            final(self).graphics_api_supported() == old(self).graphics_api_supported(),
            final(self).notifier() == old(self).notifier(),
            final(self).window_adapter_binding() == old(self).window_adapter_binding(),
            final(self).images() == old(self).images(),
            final(self).paths() == old(self).paths(),
    {
        if self.surface.is_none() {
            return None;
        }
        let first = self.rendering_first_time;
        self.rendering_first_time = false;
        Some(
            FrameSetup {
                create_metrics_collector: first,
                notify_rendering_setup: first && self.rendering_notifier.is_some(),
            },
        )
    }

    /// The steps of a frame inside the surface's render call, for a window
    /// with the given background. A flat background is cleared first; a
    /// notifier sees the cleared back buffer after a flush; stale resources
    /// are evicted before the scene walk; a gradient background is drawn as a
    /// covering rectangle just before the components; the frame ends with a
    /// flush.
    pub fn frame_steps(
        &self,
        background: Option<Background>,
        has_metrics_collector: bool,
        has_post_render_callback: bool,
    ) -> (r: Vec<FrameStep>)
        ensures
            r@ == frame_steps_spec(
                background,
                self.notifier() is Some,
                has_metrics_collector,
                has_post_render_callback,
            ),
    {
        let mut steps: Vec<FrameStep> = Vec::new();
        match background {
            Some(Background::SolidColor(c)) => steps.push(FrameStep::ClearCanvas(c)),
            _ => {},
        }
        if self.rendering_notifier.is_some() {
            steps.push(FrameStep::FlushContext);
            steps.push(FrameStep::Notify(RenderingState::BeforeRendering));
        }
        steps.push(FrameStep::EvictStaleResources);
        assert(steps@ =~= steps_before_scene(background, self.notifier() is Some));
        let ghost before = steps@;
        match background {
            Some(Background::Gradient) => steps.push(FrameStep::DrawBackground),
            _ => {},
        }
        steps.push(FrameStep::RenderComponents);
        if has_metrics_collector {
            steps.push(FrameStep::SampleMetrics);
        }
        if has_post_render_callback {
            steps.push(FrameStep::PostRender);
        }
        steps.push(FrameStep::FlushContext);
        assert(steps@ =~= before + steps_from_scene(
            background,
            has_metrics_collector,
            has_post_render_callback,
        ));
        steps
    }

    /// Checks both caches against the window's scale factor (its bit
    /// pattern): where it differs from the one they were filled at, they are
    /// emptied before the scene walk reads them.
    pub fn clear_caches_if_scale_factor_changed(&mut self, scale_factor: u32)
        ensures
            final(self).images().entries() == old(self).images().entries_after_scale_check(
                scale_factor,
            ),
            final(self).paths().entries() == old(self).paths().entries_after_scale_check(
                scale_factor,
            ),
            final(self).images().recorded_scale_factor() == Some(scale_factor),
            final(self).paths().recorded_scale_factor() == Some(scale_factor),
            final(self).bound_surface() == old(self).bound_surface(),
            final(self).graphics_api_supported() == old(self).graphics_api_supported(),
            final(self).notifier() == old(self).notifier(),
            final(self).window_adapter_binding() == old(self).window_adapter_binding(),
            final(self).first_render() == old(self).first_render(),
    {
        self.image_cache.clear_cache_if_scale_factor_changed(scale_factor);
        self.path_cache.clear_cache_if_scale_factor_changed(scale_factor);
    }

    /// Stores a derived image for a scene node.
    pub fn cache_image(&mut self, component: u64, item: u32, image: Option<I>)
        ensures
            final(self).images().entries() == old(self).images().entries().insert(
                (component, item),
                image,
            ),
            final(self).images().recorded_scale_factor() == old(
                self,
            ).images().recorded_scale_factor(),
            final(self).paths() == old(self).paths(),
            final(self).bound_surface() == old(self).bound_surface(),
            final(self).graphics_api_supported() == old(self).graphics_api_supported(),
            final(self).notifier() == old(self).notifier(),
            final(self).window_adapter_binding() == old(self).window_adapter_binding(),
            final(self).first_render() == old(self).first_render(),
    {
        self.image_cache.insert(component, item, image);
    }

    /// Stores a derived path for a scene node.
    pub fn cache_path(&mut self, component: u64, item: u32, path: Option<P>)
        ensures
            final(self).paths().entries() == old(self).paths().entries().insert(
                (component, item),
                path,
            ),
            final(self).paths().recorded_scale_factor() == old(
                self,
            ).paths().recorded_scale_factor(),
            final(self).images() == old(self).images(),
            final(self).bound_surface() == old(self).bound_surface(),
            final(self).graphics_api_supported() == old(self).graphics_api_supported(),
            final(self).notifier() == old(self).notifier(),
            final(self).window_adapter_binding() == old(self).window_adapter_binding(),
            final(self).first_render() == old(self).first_render(),
    {
        self.path_cache.insert(component, item, path);
    }

    /// Whether dropping the renderer calls the notifier with
    /// `RenderingTeardown`: only where both a surface and a notifier are
    /// present.
    pub fn needs_teardown_notification(&self) -> (r: bool)
        ensures
            r == (self.bound_surface() is Some && self.notifier() is Some),
    {
        self.surface.is_some() && self.rendering_notifier.is_some()
    }

    pub fn surface(&self) -> (r: Option<&S>)
        ensures
            r == match self.bound_surface() {
                Some(s) => Some(&s),
                None => None::<&S>,
            },
    {
        self.surface.as_ref()
    }

    pub fn rendering_notifier(&self) -> (r: Option<&N>)
        ensures
            r == match self.notifier() {
                Some(n) => Some(&n),
                None => None::<&N>,
            },
    {
        self.rendering_notifier.as_ref()
    }

    pub fn window_adapter(&self) -> (r: Option<&W>)
        ensures
            r == match self.window_adapter_binding() {
                Some(w) => Some(&w),
                None => None::<&W>,
            },
    {
        self.maybe_window_adapter.as_ref()
    }

    pub fn image_cache(&self) -> (r: &ItemCache<I>)
        ensures
            *r == self.images(),
    {
        &self.image_cache
    }

    pub fn path_cache(&self) -> (r: &ItemCache<P>)
        ensures
            *r == self.paths(),
    {
        &self.path_cache
    }

    pub fn is_first_render(&self) -> (r: bool)
        ensures
            r == self.first_render(),
    {
        self.rendering_first_time
    }
}

/// Resolves the window adapter for a frame: the frame fails where the
/// non-owning handle no longer reaches a live adapter.
pub fn require_window_adapter<A>(resolved: Option<A>) -> (r: Result<A, RendererError>)
    ensures
        r == match resolved {
            Some(a) => Ok::<A, RendererError>(a),
            None => Err(RendererError::WindowAdapterGone),
        },
{
    match resolved {
        Some(a) => Ok(a),
        None => Err(RendererError::WindowAdapterGone),
    }
}

/// A flat background is cleared with its exact color, as the very first step,
/// and is never drawn as a rectangle. A gradient background is never cleared
/// and is drawn as exactly one covering rectangle, after the notifier's
/// `BeforeRendering` call where a notifier is registered.
pub proof fn lemma_background_painted_once(
    background: Background,
    has_notifier: bool,
    has_metrics_collector: bool,
    has_post_render_callback: bool,
)
    ensures
        ({
            let steps = frame_steps_spec(
                Some(background),
                has_notifier,
                has_metrics_collector,
                has_post_render_callback,
            );
            match background {
                Background::SolidColor(c) => {
                    &&& steps[0] == FrameStep::ClearCanvas(c)
                    &&& forall|i: int| 0 < i < steps.len() ==> !(#[trigger] steps[i] is ClearCanvas)
                    &&& forall|i: int|
                        0 <= i < steps.len() ==> #[trigger] steps[i] != FrameStep::DrawBackground
                },
                Background::Gradient => {
                    &&& forall|i: int|
                        0 <= i < steps.len() ==> !(#[trigger] steps[i] is ClearCanvas)
                    &&& exists|j: int|
                        {
                            &&& 0 <= j < steps.len()
                            &&& #[trigger] steps[j] == FrameStep::DrawBackground
                            &&& forall|i: int|
                                0 <= i < steps.len() && i != j ==> #[trigger] steps[i]
                                    != FrameStep::DrawBackground
                            &&& has_notifier ==> exists|b: int|
                                0 <= b < j && #[trigger] steps[b] == FrameStep::Notify(
                                    RenderingState::BeforeRendering,
                                )
                        }
                },
            }
        }),
{
    let before = steps_before_scene(Some(background), has_notifier);
    let tail = (if has_metrics_collector {
        seq![FrameStep::SampleMetrics]
    } else {
        Seq::<FrameStep>::empty()
    }) + (if has_post_render_callback {
        seq![FrameStep::PostRender]
    } else {
        Seq::<FrameStep>::empty()
    }) + seq![FrameStep::FlushContext];
    let notify = if has_notifier {
        seq![FrameStep::FlushContext, FrameStep::Notify(RenderingState::BeforeRendering)]
    } else {
        Seq::<FrameStep>::empty()
    };
    let steps = frame_steps_spec(
        Some(background),
        has_notifier,
        has_metrics_collector,
        has_post_render_callback,
    );
    assert(forall|i: int|
        0 <= i < tail.len() ==> #[trigger] tail[i] != FrameStep::DrawBackground && !(
        tail[i] is ClearCanvas));
    assert(forall|i: int|
        0 <= i < notify.len() ==> #[trigger] notify[i] != FrameStep::DrawBackground && !(
        notify[i] is ClearCanvas));
    match background {
        Background::SolidColor(c) => {
            let head = seq![FrameStep::ClearCanvas(c)] + notify + seq![
                FrameStep::EvictStaleResources,
                FrameStep::RenderComponents,
            ];
            assert(steps =~= head + tail);
            assert forall|i: int| 0 < i < steps.len() implies !(#[trigger] steps[i] is ClearCanvas)
                && steps[i] != FrameStep::DrawBackground by {
                if i >= head.len() {
                    assert(steps[i] == tail[i - head.len()]);
                } else if i <= notify.len() {
                    assert(steps[i] == notify[i - 1]);
                }
            }
        },
        Background::Gradient => {
            let head = notify + seq![
                FrameStep::EvictStaleResources,
                FrameStep::DrawBackground,
                FrameStep::RenderComponents,
            ];
            assert(steps =~= head + tail);
            let j: int = notify.len() as int + 1;
            assert(steps[j] == FrameStep::DrawBackground);
            assert forall|i: int| 0 <= i < steps.len() implies !(#[trigger] steps[i] is ClearCanvas)
                && (i != j ==> steps[i] != FrameStep::DrawBackground) by {
                if i >= head.len() {
                    assert(steps[i] == tail[i - head.len()]);
                } else if i < notify.len() {
                    assert(steps[i] == notify[i]);
                }
            }
            if has_notifier {
                assert(steps[1] == FrameStep::Notify(RenderingState::BeforeRendering));
            }
        },
    }
}

/// Stale resources are never read: the frame's eviction check comes before
/// its scene walk, and once a cache has served one frame at a scale factor,
/// the check at any other factor leaves both caches empty.
pub proof fn lemma_scale_change_evicts_before_scene_walk<S, N, W, I, P>(
    renderer: SkiaRenderer<S, N, W, I, P>,
    previous: u32,
    current: u32,
    background: Option<Background>,
    has_metrics_collector: bool,
    has_post_render_callback: bool,
)
    requires
        renderer.images().recorded_scale_factor() == Some(previous),
        renderer.paths().recorded_scale_factor() == Some(previous),
        previous != current,
    ensures
        renderer.images().entries_after_scale_check(current).is_empty(),
        renderer.paths().entries_after_scale_check(current).is_empty(),
        ({
            let steps = frame_steps_spec(
                background,
                renderer.notifier() is Some,
                has_metrics_collector,
                has_post_render_callback,
            );
            exists|e: int, w: int|
                0 <= e < w < steps.len() && #[trigger] steps[e] == FrameStep::EvictStaleResources
                    && #[trigger] steps[w] == FrameStep::RenderComponents && forall|i: int|
                    0 <= i < steps.len() && #[trigger] steps[i] == FrameStep::RenderComponents
                        ==> i == w
        }),
{
    let has_notifier = renderer.notifier() is Some;
    let before = steps_before_scene(background, has_notifier);
    let after = steps_from_scene(background, has_metrics_collector, has_post_render_callback);
    let steps = frame_steps_spec(
        background,
        has_notifier,
        has_metrics_collector,
        has_post_render_callback,
    );
    let e = before.len() - 1;
    let w = before.len() + if background == Some(Background::Gradient) {
        1int
    } else {
        0int
    };
    assert(steps[e] == FrameStep::EvictStaleResources);
    assert(steps[w] == FrameStep::RenderComponents);
    assert(forall|i: int|
        0 <= i < before.len() ==> #[trigger] before[i] != FrameStep::RenderComponents);
    assert(forall|i: int|
        0 <= i < steps.len() && #[trigger] steps[i] == FrameStep::RenderComponents ==> i == w) by {
        assert forall|i: int|
            0 <= i < steps.len() && #[trigger] steps[i] == FrameStep::RenderComponents implies i
            == w by {
            if i < before.len() {
                assert(steps[i] == before[i]);
            } else {
                assert(steps[i] == after[i - before.len()]);
            }
        }
    }
}

/// After the surface is replaced (so the renderer is at a first frame, with a
/// surface bound), the next frame creates a new metrics collector and calls a
/// registered notifier with `RenderingSetup` again.
pub proof fn lemma_replaced_surface_sets_up_again<S, N, W, I, P>(
    renderer: SkiaRenderer<S, N, W, I, P>,
)
    requires
        renderer.bound_surface() is Some,
        renderer.first_render(),
    ensures
        renderer.frame_setup() == Some(
            FrameSetup {
                create_metrics_collector: true,
                notify_rendering_setup: renderer.notifier() is Some,
            },
        ),
{
}

} // verus!
