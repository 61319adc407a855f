use skia_renderer::{
    default_renderer, fallback_renderers, renderer_for_name, Backend, CompiledRenderers,
    RendererKind,
};

const ALL: CompiledRenderers = CompiledRenderers { femtovg: true, skia: true, software: true };

#[test]
fn default_renderer_prefers_femtovg_then_skia() {
    assert_eq!(default_renderer(ALL), RendererKind::FemtoVG);
    let no_femtovg = CompiledRenderers { femtovg: false, skia: true, software: true };
    assert_eq!(default_renderer(no_femtovg), RendererKind::Skia);
    let only_software = CompiledRenderers { femtovg: false, skia: false, software: true };
    assert_eq!(default_renderer(only_software), RendererKind::Software);
}

#[test]
fn renderer_names_are_recognized() {
    assert_eq!(renderer_for_name("gl", ALL), Some(RendererKind::FemtoVG));
    assert_eq!(renderer_for_name("femtovg", ALL), Some(RendererKind::FemtoVG));
    assert_eq!(renderer_for_name("skia", ALL), Some(RendererKind::Skia));
    assert_eq!(renderer_for_name("sw", ALL), Some(RendererKind::Software));
    assert_eq!(renderer_for_name("software", ALL), Some(RendererKind::Software));
    assert_eq!(renderer_for_name("vulkan", ALL), None);
    assert_eq!(renderer_for_name("", ALL), None);
    assert_eq!(renderer_for_name("Skia", ALL), None);
}

#[test]
fn renderer_not_carried_is_not_selected() {
    let no_skia = CompiledRenderers { femtovg: true, skia: false, software: false };
    assert_eq!(renderer_for_name("skia", no_skia), None);
}

#[test]
fn unknown_name_falls_back_to_default() {
    let b = Backend::new_with_renderer_by_name(Some("metal"), ALL);
    assert_eq!(b.renderer, RendererKind::FemtoVG);
    let b = Backend::new_with_renderer_by_name(None, ALL);
    assert_eq!(b.renderer, RendererKind::FemtoVG);
    let b = Backend::new_with_renderer_by_name(Some("software"), ALL);
    assert_eq!(b.renderer, RendererKind::Software);
    assert_eq!(Backend::new(ALL).renderer, RendererKind::FemtoVG);
}

#[test]
fn fallback_chain_order() {
    assert_eq!(
        fallback_renderers(ALL),
        vec![RendererKind::Skia, RendererKind::FemtoVG, RendererKind::Software]
    );
    let two = CompiledRenderers { femtovg: true, skia: false, software: true };
    assert_eq!(fallback_renderers(two), vec![RendererKind::FemtoVG, RendererKind::Software]);
}

#[test]
fn window_creation_tries_selected_renderer_first() {
    let b = Backend::new_with_renderer_by_name(Some("sw"), ALL);
    assert_eq!(
        b.window_creation_attempts(),
        vec![
            RendererKind::Software,
            RendererKind::Skia,
            RendererKind::FemtoVG,
            RendererKind::Software
        ]
    );
}
