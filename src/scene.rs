use vstd::prelude::*;
use crate::timeline::{ElemKind, Path, ScalarSource, Timeline, Vec2Source};
use crate::value::{
    Color, ImageHandle, Real, ScriptError, Value, Vec2, bool_of, color_of, extract_bool, extract_color,
    extract_list_vec2, extract_real, is_symbol, list_vec2_of, real_of, symbol_is,
};

verus! {

/// What a plain render paints: one color, or a color that follows a path.
#[derive(Debug, PartialEq)]
pub enum Fill {
    Solid(Color),
    Animated(Path<Color>),
}

/// How a frame fills the area outside the render it holds.
#[derive(Clone, Copy, Debug, PartialEq, Eq, Structural)]
pub enum FrameType {
    Constant(Color),
    Extend,
    Repeat,
    Reflect,
}

/// How a layer is painted over the layers before it.
#[derive(Clone, Copy, Debug, PartialEq, Eq, Structural)]
pub enum CompositeMode {
    /// Painted as it is (the script's `none`).
    Passthrough,
    /// Alpha-blended at full opacity.
    Normal,
}

/// One entry of a sequence: `render` starts at `start`.
#[derive(Debug, PartialEq)]
pub struct Cue {
    pub start: Real,
    pub restart: bool,
    pub render: Render,
}

/// One layer of a composite.
#[derive(Debug, PartialEq)]
pub struct Layer {
    pub render: Render,
    pub mode: CompositeMode,
}

/// A constructed image-producing combinator. Parents own their children.
#[derive(Debug, PartialEq)]
pub enum Render {
    Plain(Fill),
    Frame { render: Box<Render>, frame_type: FrameType },
    /// Cues in the order given.
    Sequence(Vec<Cue>),
    /// Layers in paint order: later layers are painted over earlier ones.
    Composite(Vec<Layer>),
    Transform {
        render: Box<Render>,
        translation: Vec2Source,
        scale: Vec2Source,
        rotation: ScalarSource,
    },
    Image { image: ImageHandle, default: Color },
}

/// Reads every argument with `f`, in order, stopping at the first error.
pub open spec fn map_results<A>(
    args: Seq<Value>,
    f: spec_fn(Value) -> Result<A, ScriptError>,
) -> Result<Seq<A>, ScriptError>
    decreases args.len(),
{
    if args.len() == 0 {
        Ok(Seq::empty())
    } else {
        match map_results(args.drop_last(), f) {
            Err(e) => Err(e),
            Ok(xs) => match f(args.last()) {
                Err(e) => Err(e),
                Ok(x) => Ok(xs.push(x)),
            },
        }
    }
}

proof fn lemma_map_results_error<A>(
    args: Seq<Value>,
    f: spec_fn(Value) -> Result<A, ScriptError>,
    n: int,
)
    requires
        0 <= n < args.len(),
        map_results(args.subrange(0, n), f) is Ok,
        f(args[n]) is Err,
    ensures
        map_results(args, f) == Err::<Seq<A>, ScriptError>(f(args[n])->Err_0),
    decreases args.len(),
{
    assert(args.subrange(0, n + 1).drop_last() == args.subrange(0, n));
    if args.len() == n + 1 {
        assert(args.subrange(0, n + 1) == args);
    } else {
        assert(args.drop_last().subrange(0, n) == args.subrange(0, n));
        lemma_map_results_error(args.drop_last(), f, n);
    }
}

/// What `plain(color | color path)` builds.
pub open spec fn plain_built(r: Result<Render, ScriptError>, args: Seq<Value>) -> bool {
    if args.len() == 0 {
        r == Err::<Render, ScriptError>(ScriptError::MissingArgument)
    } else {
        match args[0] {
            Value::Color(c) => r == Ok::<Render, ScriptError>(Render::Plain(Fill::Solid(c))),
            Value::Timeline(Timeline::ColorPath(p)) => r == Ok::<Render, ScriptError>(
                Render::Plain(Fill::Animated(p)),
            ),
            _ => r == Err::<Render, ScriptError>(ScriptError::UnsupportedType),
        }
    }
}

/// The `plain` primitive: a render of one color or of a color path.
pub fn plain(args: Vec<Value>) -> (r: Result<Render, ScriptError>)
    ensures
        plain_built(r, args@),
{
    let mut args = args;
    if args.len() == 0 {
        return Err(ScriptError::MissingArgument);
    }
    match args.swap_remove(0) {
        Value::Color(c) => Ok(Render::Plain(Fill::Solid(c))),
        Value::Timeline(Timeline::ColorPath(p)) => Ok(Render::Plain(Fill::Animated(p))),
        _ => Err(ScriptError::UnsupportedType),
    }
}

/// The frame type that a symbol and an optional fill color name.
pub open spec fn frame_type_spec(args: Seq<Value>) -> Result<FrameType, ScriptError> {
    if !(args[1] is Symbol) {
        Err(ScriptError::TypeMismatch)
    } else if is_symbol(args[1], "constant"@) {
        if args.len() < 3 {
            Err(ScriptError::MissingArgument)
        } else {
            match color_of(args[2]) {
                Ok(c) => Ok(FrameType::Constant(c)),
                Err(e) => Err(e),
            }
        }
    } else if is_symbol(args[1], "extend"@) {
        Ok(FrameType::Extend)
    } else if is_symbol(args[1], "repeat"@) {
        Ok(FrameType::Repeat)
    } else if is_symbol(args[1], "reflect"@) {
        Ok(FrameType::Reflect)
    } else {
        Err(ScriptError::InvalidEnum)
    }
}

/// What `frame(render, frame_type[, fill_color])` builds.
pub open spec fn frame_built(r: Result<Render, ScriptError>, args: Seq<Value>) -> bool {
    if args.len() < 2 {
        r == Err::<Render, ScriptError>(ScriptError::MissingArgument)
    } else if !(args[0] is Render) {
        r == Err::<Render, ScriptError>(ScriptError::TypeMismatch)
    } else {
        match frame_type_spec(args) {
            Err(e) => r == Err::<Render, ScriptError>(e),
            Ok(ft) => {
                &&& r matches Ok(Render::Frame { render, frame_type })
                &&& frame_type == ft
                &&& *render == args[0]->Render_0
            },
        }
    }
}

fn frame_type(args: &Vec<Value>) -> (r: Result<FrameType, ScriptError>)
    requires
        args.len() >= 2,
    ensures
        r == frame_type_spec(args@),
{
    let sym = match &args[1] {
        Value::Symbol(s) => s,
        _ => return Err(ScriptError::TypeMismatch),
    };
    if symbol_is(sym, "constant") {
        if args.len() < 3 {
            return Err(ScriptError::MissingArgument);
        }
        match extract_color(&args[2]) {
            Ok(c) => Ok(FrameType::Constant(c)),
            Err(e) => Err(e),
        }
    } else if symbol_is(sym, "extend") {
        Ok(FrameType::Extend)
    } else if symbol_is(sym, "repeat") {
        Ok(FrameType::Repeat)
    } else if symbol_is(sym, "reflect") {
        Ok(FrameType::Reflect)
    } else {
        Err(ScriptError::InvalidEnum)
    }
}

/// The `frame` primitive: a render with an edge policy; `constant` takes a
/// fill color.
pub fn frame(args: Vec<Value>) -> (r: Result<Render, ScriptError>)
    ensures
        frame_built(r, args@),
{
    let mut args = args;
    if args.len() < 2 {
        return Err(ScriptError::MissingArgument);
    }
    if !matches!(args[0], Value::Render(_)) {
        return Err(ScriptError::TypeMismatch);
    }
    let ft = match frame_type(&args) {
        Ok(ft) => ft,
        Err(e) => return Err(e),
    };
    match args.swap_remove(0) {
        Value::Render(render) => Ok(Render::Frame { render: Box::new(render), frame_type: ft }),
        _ => Err(ScriptError::TypeMismatch),
    }
}

/// The cue that one `(start_time, restart, render)` argument describes.
pub open spec fn cue_spec(v: Value) -> Result<Cue, ScriptError> {
    match v {
        Value::List(p) => if p.len() < 3 {
            Err(ScriptError::MissingArgument)
        } else {
            match (real_of(p[0]), bool_of(p[1])) {
                (Err(e), _) => Err(e),
                (Ok(_), Err(e)) => Err(e),
                (Ok(start), Ok(restart)) => match p[2] {
                    Value::Render(render) => Ok(Cue { start, restart, render }),
                    _ => Err(ScriptError::TypeMismatch),
                },
            }
        },
        _ => Err(ScriptError::TypeMismatch),
    }
}

pub open spec fn cues_spec(args: Seq<Value>) -> Result<Seq<Cue>, ScriptError> {
    map_results(args, |v: Value| cue_spec(v))
}

/// What `sequence(entries...)` builds.
pub open spec fn sequence_built(r: Result<Render, ScriptError>, args: Seq<Value>) -> bool {
    match cues_spec(args) {
        Ok(cs) => r matches Ok(Render::Sequence(v)) && v@ == cs,
        Err(e) => r == Err::<Render, ScriptError>(e),
    }
}

fn take_cue(v: Value) -> (r: Result<Cue, ScriptError>)
    ensures
        r == cue_spec(v),
{
    let mut p = match v {
        Value::List(p) => p,
        _ => return Err(ScriptError::TypeMismatch),
    };
    if p.len() < 3 {
        return Err(ScriptError::MissingArgument);
    }
    let start = match extract_real(&p[0]) {
        Ok(x) => x,
        Err(e) => return Err(e),
    };
    let restart = match extract_bool(&p[1]) {
        Ok(b) => b,
        Err(e) => return Err(e),
    };
    match p.swap_remove(2) {
        Value::Render(render) => Ok(Cue { start, restart, render }),
        _ => Err(ScriptError::TypeMismatch),
    }
}

/// The `sequence` primitive: a playlist of `(start_time, restart, render)`
/// entries, kept in the order given.
pub fn sequence(args: Vec<Value>) -> (r: Result<Render, ScriptError>)
    ensures
        sequence_built(r, args@),
{
    let ghost orig = args@;
    let ghost f = |v: Value| cue_spec(v);
    let mut rest = args;
    let mut cues: Vec<Cue> = Vec::new();
    let ghost mut i: int = 0;
    assert(orig.subrange(0, orig.len() as int) == orig);
    while rest.len() > 0
        invariant
            0 <= i <= orig.len(),
            orig == args@,
            rest@ == orig.subrange(i, orig.len() as int),
            map_results(orig.subrange(0, i), f) == Ok::<Seq<Cue>, ScriptError>(cues@),
            cues_spec(orig) == map_results(orig, f),
            forall|v: Value| #[trigger] f(v) == cue_spec(v),
        decreases rest.len(),
    {
        let a = rest.remove(0);
        assert(a == orig[i]);
        assert(orig.subrange(0, i + 1).drop_last() == orig.subrange(0, i));
        match take_cue(a) {
            Ok(c) => cues.push(c),
            Err(e) => {
                proof {
                    lemma_map_results_error(orig, f, i);
                }
                return Err(e);
            },
        }
        proof {
            i = i + 1;
        }
        assert(rest@ == orig.subrange(i, orig.len() as int));
    }
    assert(orig.subrange(0, i) == orig);
    Ok(Render::Sequence(cues))
}

/// The layer that one `(render, mode)` argument describes.
pub open spec fn layer_spec(v: Value) -> Result<Layer, ScriptError> {
    match v {
        Value::List(p) => if p.len() < 2 {
            Err(ScriptError::MissingArgument)
        } else {
            match p[0] {
                Value::Render(render) => if !(p[1] is Symbol) {
                    Err(ScriptError::TypeMismatch)
                } else if is_symbol(p[1], "none"@) {
                    Ok(Layer { render, mode: CompositeMode::Passthrough })
                } else if is_symbol(p[1], "normal"@) {
                    Ok(Layer { render, mode: CompositeMode::Normal })
                } else {
                    Err(ScriptError::InvalidEnum)
                },
                _ => Err(ScriptError::TypeMismatch),
            }
        },
        _ => Err(ScriptError::TypeMismatch),
    }
}

pub open spec fn layers_spec(args: Seq<Value>) -> Result<Seq<Layer>, ScriptError> {
    map_results(args, |v: Value| layer_spec(v))
}

/// What `composite(layers...)` builds.
pub open spec fn composite_built(r: Result<Render, ScriptError>, args: Seq<Value>) -> bool {
    match layers_spec(args) {
        Ok(ls) => r matches Ok(Render::Composite(v)) && v@ == ls,
        Err(e) => r == Err::<Render, ScriptError>(e),
    }
}

fn take_layer(v: Value) -> (r: Result<Layer, ScriptError>)
    ensures
        r == layer_spec(v),
{
    let mut p = match v {
        Value::List(p) => p,
        _ => return Err(ScriptError::TypeMismatch),
    };
    if p.len() < 2 {
        return Err(ScriptError::MissingArgument);
    }
    if !matches!(p[0], Value::Render(_)) {
        return Err(ScriptError::TypeMismatch);
    }
    let mode = match &p[1] {
        Value::Symbol(s) => {
            if symbol_is(s, "none") {
                CompositeMode::Passthrough
            } else if symbol_is(s, "normal") {
                CompositeMode::Normal
            } else {
                return Err(ScriptError::InvalidEnum);
            }
        },
        _ => return Err(ScriptError::TypeMismatch),
    };
    match p.swap_remove(0) {
        Value::Render(render) => Ok(Layer { render, mode }),
        _ => Err(ScriptError::TypeMismatch),
    }
}

/// The `composite` primitive: layers of `(render, mode)` in paint order.
pub fn composite(args: Vec<Value>) -> (r: Result<Render, ScriptError>)
    ensures
        composite_built(r, args@),
{
    let ghost orig = args@;
    let ghost f = |v: Value| layer_spec(v);
    let mut rest = args;
    let mut layers: Vec<Layer> = Vec::new();
    let ghost mut i: int = 0;
    assert(orig.subrange(0, orig.len() as int) == orig);
    while rest.len() > 0
        invariant
            0 <= i <= orig.len(),
            orig == args@,
            rest@ == orig.subrange(i, orig.len() as int),
            map_results(orig.subrange(0, i), f) == Ok::<Seq<Layer>, ScriptError>(layers@),
            layers_spec(orig) == map_results(orig, f),
            forall|v: Value| #[trigger] f(v) == layer_spec(v),
        decreases rest.len(),
    {
        let a = rest.remove(0);
        assert(a == orig[i]);
        assert(orig.subrange(0, i + 1).drop_last() == orig.subrange(0, i));
        match take_layer(a) {
            Ok(l) => layers.push(l),
            Err(e) => {
                proof {
                    lemma_map_results_error(orig, f, i);
                }
                return Err(e);
            },
        }
        proof {
            i = i + 1;
        }
        assert(rest@ == orig.subrange(i, orig.len() as int));
    }
    assert(orig.subrange(0, i) == orig);
    Ok(Render::Composite(layers))
}

/// Why a transform argument cannot be read as a two-dimensional source.
pub open spec fn vec2_source_error(v: Value) -> Option<ScriptError> {
    match v {
        Value::Timeline(t) => if t.elem_kind_spec() == ElemKind::Vector2 {
            None
        } else {
            Some(ScriptError::TypeMismatch)
        },
        _ => match list_vec2_of(v) {
            Ok(_) => None,
            Err(e) => Some(e),
        },
    }
}

/// A two-dimensional source is the timeline it was given, or the literal vector.
pub open spec fn vec2_source_fits(s: Vec2Source, v: Value) -> bool {
    match s {
        Vec2Source::Varying(b) => v == Value::Timeline(*b),
        Vec2Source::Fixed(x) => list_vec2_of(v) == Ok::<Vec2, ScriptError>(x),
    }
}

/// Why a transform argument cannot be read as a scalar source.
pub open spec fn scalar_source_error(v: Value) -> Option<ScriptError> {
    match v {
        Value::Timeline(t) => if t.elem_kind_spec() == ElemKind::Scalar {
            None
        } else {
            Some(ScriptError::TypeMismatch)
        },
        Value::Float64(_) => None,
        _ => Some(ScriptError::TypeMismatch),
    }
}

/// A scalar source is the timeline it was given, or the literal Float64.
pub open spec fn scalar_source_fits(s: ScalarSource, v: Value) -> bool {
    match s {
        ScalarSource::Varying(b) => v == Value::Timeline(*b),
        ScalarSource::Fixed(x) => v == Value::Float64(x),
    }
}

fn take_vec2_source(v: Value) -> (r: Result<Vec2Source, ScriptError>)
    ensures
        match r {
            Ok(s) => vec2_source_error(v) is None && vec2_source_fits(s, v),
            Err(e) => vec2_source_error(v) == Some(e),
        },
{
    match v {
        Value::Timeline(t) => {
            if t.elem_kind() == ElemKind::Vector2 {
                Ok(Vec2Source::Varying(Box::new(t)))
            } else {
                Err(ScriptError::TypeMismatch)
            }
        },
        _ => match extract_list_vec2(&v) {
            Ok(x) => Ok(Vec2Source::Fixed(x)),
            Err(e) => Err(e),
        },
    }
}

fn take_scalar_source(v: Value) -> (r: Result<ScalarSource, ScriptError>)
    ensures
        match r {
            Ok(s) => scalar_source_error(v) is None && scalar_source_fits(s, v),
            Err(e) => scalar_source_error(v) == Some(e),
        },
{
    match v {
        Value::Timeline(t) => {
            if t.elem_kind() == ElemKind::Scalar {
                Ok(ScalarSource::Varying(Box::new(t)))
            } else {
                Err(ScriptError::TypeMismatch)
            }
        },
        Value::Float64(x) => Ok(ScalarSource::Fixed(x)),
        _ => Err(ScriptError::TypeMismatch),
    }
}

/// What `transform(render, translation, scale, rotation)` builds.
pub open spec fn transform_built(r: Result<Render, ScriptError>, args: Seq<Value>) -> bool {
    if args.len() < 4 {
        r == Err::<Render, ScriptError>(ScriptError::MissingArgument)
    } else if !(args[0] is Render) {
        r == Err::<Render, ScriptError>(ScriptError::TypeMismatch)
    } else if vec2_source_error(args[1]) is Some {
        r == Err::<Render, ScriptError>(vec2_source_error(args[1])->Some_0)
    } else if vec2_source_error(args[2]) is Some {
        r == Err::<Render, ScriptError>(vec2_source_error(args[2])->Some_0)
    } else if scalar_source_error(args[3]) is Some {
        r == Err::<Render, ScriptError>(scalar_source_error(args[3])->Some_0)
    } else {
        &&& r matches Ok(Render::Transform { render, translation, scale, rotation })
        &&& *render == args[0]->Render_0
        &&& vec2_source_fits(translation, args[1])
        &&& vec2_source_fits(scale, args[2])
        &&& scalar_source_fits(rotation, args[3])
    }
}

/// The `transform` primitive: translation and scale are each a two-element
/// list or a vector timeline, rotation a Float64 or a scalar timeline.
pub fn transform(args: Vec<Value>) -> (r: Result<Render, ScriptError>)
    ensures
        transform_built(r, args@),
{
    let mut args = args;
    if args.len() < 4 {
        return Err(ScriptError::MissingArgument);
    }
    if !matches!(args[0], Value::Render(_)) {
        return Err(ScriptError::TypeMismatch);
    }
    let ghost orig = args@;
    let translation = match take_vec2_source(args.remove(1)) {
        Ok(s) => s,
        Err(e) => return Err(e),
    };
    assert(args@[1] == orig[2]);
    let scale = match take_vec2_source(args.remove(1)) {
        Ok(s) => s,
        Err(e) => return Err(e),
    };
    assert(args@[1] == orig[3]);
    let rotation = match take_scalar_source(args.remove(1)) {
        Ok(s) => s,
        Err(e) => return Err(e),
    };
    match args.remove(0) {
        Value::Render(render) => Ok(
            Render::Transform { render: Box::new(render), translation, scale, rotation },
        ),
        _ => Err(ScriptError::TypeMismatch),
    }
}

/// What `image_render(image, default_color)` builds.
pub open spec fn image_render_built(r: Result<Render, ScriptError>, args: Seq<Value>) -> bool {
    if args.len() < 2 {
        r == Err::<Render, ScriptError>(ScriptError::MissingArgument)
    } else {
        match (args[0], color_of(args[1])) {
            (Value::Image(image), Ok(default)) => r == Ok::<Render, ScriptError>(
                Render::Image { image, default },
            ),
            (Value::Image(_), Err(e)) => r == Err::<Render, ScriptError>(e),
            _ => r == Err::<Render, ScriptError>(ScriptError::TypeMismatch),
        }
    }
}

/// The `image_render` primitive: an image shown with a default color where it
/// has no pixels.
pub fn image_render(args: &Vec<Value>) -> (r: Result<Render, ScriptError>)
    ensures
        image_render_built(r, args@),
{
    if args.len() < 2 {
        return Err(ScriptError::MissingArgument);
    }
    let image = match &args[0] {
        Value::Image(h) => *h,
        _ => return Err(ScriptError::TypeMismatch),
    };
    match extract_color(&args[1]) {
        Ok(default) => Ok(Render::Image { image, default }),
        Err(e) => Err(e),
    }
}

} // verus!
