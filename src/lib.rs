//! Frame lifecycle, resource caching and text-offset bridging for a renderer
//! that draws a retained scene graph through a 2D graphics library.
pub mod backend;
pub mod cache;
pub mod event_loop;
pub mod renderer;
pub mod text;

pub use cache::ItemCache;
pub use renderer::{
    Background, Color, FrameSetup, FrameStep, RendererError, RenderingState,
    SetRenderingNotifierError, require_window_adapter, SkiaRenderer,
};
pub use text::{
    byte_offset_for_utf16_offset, text_input_byte_offset_for_position,
    utf16_offset_for_byte_offset,
};
pub use backend::{
    default_renderer, fallback_renderers, renderer_for_name, Backend, CompiledRenderers,
    RendererKind,
};
pub use event_loop::{
    exit_after_window_closed, quit_event, send_event_via_global_event_loop_proxy, user_event,
    CustomEvent, EventLoopError, GlobalEventLoopProxyOrEventQueue, SlintUserEvent,
};
