use vstd::prelude::*;

verus! {

/// Coarse draw-order bucket: background is drawn first, foreground last.
#[derive(Clone, Copy, Debug, PartialEq, Eq, Structural)]
pub enum RenderLayer {
    Background,
    Middle,
    Foreground,
}

/// Position of a layer in the compositing order.
pub open spec fn layer_rank(l: RenderLayer) -> nat {
    match l {
        RenderLayer::Background => 0,
        RenderLayer::Middle => 1,
        RenderLayer::Foreground => 2,
    }
}

/// One renderable item. `T` is the resolved world transform, which the
/// pipeline carries to the drawing backend without reading it.
#[derive(Debug)]
pub enum RenderType<T> {
    /// A text label with its content.
    Text(String, T),
    /// A vector image, by the identity of its loaded asset.
    Shape(u64, T),
}

/// A draw request: what to draw and on which layer.
#[derive(Debug)]
pub struct RenderCommand<T> {
    pub render_type: RenderType<T>,
    pub render_layer: RenderLayer,
}

impl<T> RenderCommand<T> {
    pub fn new(render_type: RenderType<T>, render_layer: RenderLayer) -> (r: RenderCommand<T>)
        ensures
            r.render_type == render_type,
            r.render_layer == render_layer,
    {
        RenderCommand { render_type, render_layer }
    }
}

} // verus!
