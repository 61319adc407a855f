use vstd::prelude::*;
use vstd::string::StrSliceExecFns;

verus! {

/// The renderers that a window can be created with.
#[derive(Clone, Copy, Debug, PartialEq, Eq, Structural)]
pub enum RendererKind {
    FemtoVG,
    Skia,
    Software,
}

/// Which renderers this build carries.
#[derive(Clone, Copy, Debug, PartialEq, Eq, Structural)]
pub struct CompiledRenderers {
    pub femtovg: bool,
    pub skia: bool,
    pub software: bool,
}

impl CompiledRenderers {
    pub open spec fn any(&self) -> bool {
        self.femtovg || self.skia || self.software
    }

    pub open spec fn carries(&self, kind: RendererKind) -> bool {
        match kind {
            RendererKind::FemtoVG => self.femtovg,
            RendererKind::Skia => self.skia,
            RendererKind::Software => self.software,
        }
    }
}

/// The renderer used where none is named, or the name is not recognized:
/// FemtoVG, else Skia, else the software renderer.
pub open spec fn default_renderer_spec(compiled: CompiledRenderers) -> RendererKind {
    if compiled.femtovg {
        RendererKind::FemtoVG
    } else if compiled.skia {
        RendererKind::Skia
    } else {
        RendererKind::Software
    }
}

/// The renderer that `name` selects among those carried: "gl" or "femtovg",
/// "skia", "sw" or "software".
pub open spec fn renderer_named(name: Seq<char>, compiled: CompiledRenderers) -> Option<
    RendererKind,
> {
    if compiled.femtovg && (name == "gl"@ || name == "femtovg"@) {
        Some(RendererKind::FemtoVG)
    } else if compiled.skia && name == "skia"@ {
        Some(RendererKind::Skia)
    } else if compiled.software && (name == "sw"@ || name == "software"@) {
        Some(RendererKind::Software)
    } else {
        None
    }
}

/// The renderers tried, in order, after the selected one failed to create a
/// window: Skia, then FemtoVG, then the software renderer, each if carried.
pub open spec fn fallback_renderers_spec(compiled: CompiledRenderers) -> Seq<RendererKind> {
    (if compiled.skia {
        seq![RendererKind::Skia]
    } else {
        Seq::empty()
    }) + (if compiled.femtovg {
        seq![RendererKind::FemtoVG]
    } else {
        Seq::empty()
    }) + (if compiled.software {
        seq![RendererKind::Software]
    } else {
        Seq::empty()
    })
}

fn same_text(a: &str, b: &str) -> (r: bool)
    ensures
        r == (a@ == b@),
{
    let n = a.unicode_len();
    if n != b.unicode_len() {
        return false;
    }
    let mut i: usize = 0;
    while i < n
        invariant
            n == a@.len(),
            n == b@.len(),
            0 <= i <= n,
            forall|j: int| 0 <= j < i ==> a@[j] == b@[j],
        decreases n - i,
    {
        if a.get_char(i) != b.get_char(i) {
            return false;
        }
        i = i + 1;
    }
    assert(a@ =~= b@);
    true
}

pub fn default_renderer(compiled: CompiledRenderers) -> (r: RendererKind)
    requires
        compiled.any(),
    ensures
        r == default_renderer_spec(compiled),
        compiled.carries(r),
{
    if compiled.femtovg {
        RendererKind::FemtoVG
    } else if compiled.skia {
        RendererKind::Skia
    } else {
        RendererKind::Software
    }
}

/// The carried renderer that `name` selects; `None` where the name is not
/// recognized or names a renderer that this build does not carry.
pub fn renderer_for_name(name: &str, compiled: CompiledRenderers) -> (r: Option<RendererKind>)
    ensures
        r == renderer_named(name@, compiled),
        r matches Some(k) ==> compiled.carries(k),
{
    if compiled.femtovg && (same_text(name, "gl") || same_text(name, "femtovg")) {
        Some(RendererKind::FemtoVG)
    } else if compiled.skia && same_text(name, "skia") {
        Some(RendererKind::Skia)
    } else if compiled.software && (same_text(name, "sw") || same_text(name, "software")) {
        Some(RendererKind::Software)
    } else {
        None
    }
}

pub fn fallback_renderers(compiled: CompiledRenderers) -> (r: Vec<RendererKind>)
    ensures
        r@ == fallback_renderers_spec(compiled),
{
    let mut r: Vec<RendererKind> = Vec::new();
    if compiled.skia {
        r.push(RendererKind::Skia);
    }
    if compiled.femtovg {
        r.push(RendererKind::FemtoVG);
    }
    if compiled.software {
        r.push(RendererKind::Software);
    }
    assert(r@ =~= fallback_renderers_spec(compiled));
    r
}

/// The platform backend's choice of renderer for the windows it creates.
#[derive(Clone, Copy, Debug, PartialEq, Eq, Structural)]
pub struct Backend {
    pub renderer: RendererKind,
    pub compiled: CompiledRenderers,
}

impl Backend {
    /// A backend with the default renderer.
    pub fn new(compiled: CompiledRenderers) -> (r: Backend)
        requires
            compiled.any(),
        ensures
            r.renderer == default_renderer_spec(compiled),
            r.compiled == compiled,
    {
        Backend { renderer: default_renderer(compiled), compiled }
    }

    /// A backend with the renderer that `renderer_name` selects, or the
    /// default one where no name is given or the name selects none.
    pub fn new_with_renderer_by_name(renderer_name: Option<&str>, compiled: CompiledRenderers) -> (r:
        Backend)
        requires
            compiled.any(),
        ensures
            r.renderer == match renderer_name {
                Some(name) => match renderer_named(name@, compiled) {
                    Some(k) => k,
                    None => default_renderer_spec(compiled),
                },
                None => default_renderer_spec(compiled),
            },
            r.compiled == compiled,
            compiled.carries(r.renderer),
    {
        let renderer = match renderer_name {
            Some(name) => match renderer_for_name(name, compiled) {
                Some(k) => k,
                None => default_renderer(compiled),
            },
            None => default_renderer(compiled),
        };
        Backend { renderer, compiled }
    }

    /// The renderers to try, in order, when creating a window: the selected
    /// one, then the fallback chain.
    pub fn window_creation_attempts(&self) -> (r: Vec<RendererKind>)
        ensures
            r@ == seq![self.renderer] + fallback_renderers_spec(self.compiled),
    {
        let mut r: Vec<RendererKind> = Vec::new();
        r.push(self.renderer);
        let mut rest = fallback_renderers(self.compiled);
        r.append(&mut rest);
        r
    }
}

} // verus!
