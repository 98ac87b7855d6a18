use vstd::prelude::*;
use crate::dispatch::{dispatch, dispatch_spec};
use crate::value::{
    Color, Kind, Real, ScriptError, Value, Vec2, Vec3, color_of, extract_color, extract_list_vec2,
    extract_list_vec3, extract_real, is_symbol, kind_of, list_vec2_of, list_vec3_of, real_of,
    symbol_is,
};

verus! {

/// The element type of a timeline.
#[derive(Clone, Copy, Debug, PartialEq, Eq, Structural)]
pub enum ElemKind {
    Scalar,
    Color,
    Vector2,
    Vector3,
}

/// How a segment moves from the previous value to its own.
#[derive(Clone, Copy, Debug, PartialEq, Eq)]
pub enum Interp<T> {
    Constant,
    Linear,
    Bezier(T, T),
}

/// One step of a path: it ends `delta_time` after the previous one, at `value`.
#[derive(Clone, Copy, Debug, PartialEq, Eq)]
pub struct Segment<T> {
    pub delta_time: Real,
    pub value: T,
    pub kind: Interp<T>,
}

/// A timeline that starts at `initial` and runs through `segments` in the order
/// they were appended, which is their time order.
#[derive(Debug, PartialEq)]
pub struct Path<T> {
    pub initial: T,
    pub segments: Vec<Segment<T>>,
}

/// A scalar that is either fixed or follows a scalar timeline.
#[derive(Debug, PartialEq)]
pub enum ScalarSource {
    Fixed(Real),
    Varying(Box<Timeline>),
}

/// A two-dimensional vector that is either fixed or follows a timeline.
#[derive(Debug, PartialEq)]
pub enum Vec2Source {
    Fixed(Vec2),
    Varying(Box<Timeline>),
}

/// A value that varies with time.
#[derive(Debug, PartialEq)]
pub enum Timeline {
    ScalarPath(Path<Real>),
    ColorPath(Path<Color>),
    Vec2Path(Path<Vec2>),
    Vec3Path(Path<Vec3>),
    /// `source` read at `time mod duration`.
    Cycle { source: Box<Timeline>, duration: Real },
    /// A scalar oscillator.
    Sine { phase: Real, frequency: Real, amplitude: ScalarSource },
}

impl Timeline {
    pub open spec fn elem_kind_spec(self) -> ElemKind
        decreases self,
    {
        match self {
            Timeline::ScalarPath(_) => ElemKind::Scalar,
            Timeline::ColorPath(_) => ElemKind::Color,
            Timeline::Vec2Path(_) => ElemKind::Vector2,
            Timeline::Vec3Path(_) => ElemKind::Vector3,
            Timeline::Cycle { source, .. } => source.elem_kind_spec(),
            Timeline::Sine { .. } => ElemKind::Scalar,
        }
    }

    /// The type of the values this timeline produces.
    pub fn elem_kind(&self) -> (r: ElemKind)
        ensures
            r == self.elem_kind_spec(),
        decreases self,
    {
        match self {
            Timeline::ScalarPath(_) => ElemKind::Scalar,
            Timeline::ColorPath(_) => ElemKind::Color,
            Timeline::Vec2Path(_) => ElemKind::Vector2,
            Timeline::Vec3Path(_) => ElemKind::Vector3,
            Timeline::Cycle { source, .. } => source.elem_kind(),
            Timeline::Sine { .. } => ElemKind::Scalar,
        }
    }
}

/// A type that a path can carry, read from script values by shape.
pub trait PathValue: Sized + Copy {
    spec fn from_value_spec(v: Value) -> Result<Self, ScriptError>;

    fn from_value(v: &Value) -> (r: Result<Self, ScriptError>)
        ensures
            r == Self::from_value_spec(*v),
    ;
}

impl PathValue for Real {
    open spec fn from_value_spec(v: Value) -> Result<Real, ScriptError> {
        real_of(v)
    }

    fn from_value(v: &Value) -> (r: Result<Real, ScriptError>) {
        extract_real(v)
    }
}

impl PathValue for Color {
    open spec fn from_value_spec(v: Value) -> Result<Color, ScriptError> {
        color_of(v)
    }

    fn from_value(v: &Value) -> (r: Result<Color, ScriptError>) {
        extract_color(v)
    }
}

impl PathValue for Vec2 {
    open spec fn from_value_spec(v: Value) -> Result<Vec2, ScriptError> {
        list_vec2_of(v)
    }

    fn from_value(v: &Value) -> (r: Result<Vec2, ScriptError>) {
        extract_list_vec2(v)
    }
}

impl PathValue for Vec3 {
    open spec fn from_value_spec(v: Value) -> Result<Vec3, ScriptError> {
        list_vec3_of(v)
    }

    fn from_value(v: &Value) -> (r: Result<Vec3, ScriptError>) {
        extract_list_vec3(v)
    }
}

/// The segment that one argument `(delta_time, value, symbol[, control1, control2])`
/// describes; `delta_time` must be `>= 0`.
pub open spec fn segment_spec<T: PathValue>(arg: Value) -> Result<Segment<T>, ScriptError> {
    match arg {
        Value::List(p) => {
            if p.len() < 3 {
                Err(ScriptError::MissingArgument)
            } else {
                match (real_of(p[0]), T::from_value_spec(p[1])) {
                    (Err(e), _) => Err(e),
                    (Ok(_), Err(e)) => Err(e),
                    (Ok(dt), Ok(value)) => {
                        if !dt.is_non_negative_spec() {
                            Err(ScriptError::InvalidDuration)
                        } else if !(p[2] is Symbol) {
                            Err(ScriptError::TypeMismatch)
                        } else if is_symbol(p[2], "constant"@) {
                            Ok(Segment { delta_time: dt, value, kind: Interp::Constant })
                        } else if is_symbol(p[2], "linear"@) {
                            Ok(Segment { delta_time: dt, value, kind: Interp::Linear })
                        } else if is_symbol(p[2], "bezier"@) {
                            if p.len() < 5 {
                                Err(ScriptError::MissingArgument)
                            } else {
                                match (T::from_value_spec(p[3]), T::from_value_spec(p[4])) {
                                    (Err(e), _) => Err(e),
                                    (Ok(_), Err(e)) => Err(e),
                                    (Ok(c1), Ok(c2)) => Ok(
                                        Segment { delta_time: dt, value, kind: Interp::Bezier(c1, c2) },
                                    ),
                                }
                            }
                        } else {
                            Err(ScriptError::InvalidEnum)
                        }
                    },
                }
            }
        },
        _ => Err(ScriptError::TypeMismatch),
    }
}

/// The segments that a run of arguments describes, or the first error among them.
pub open spec fn segments_spec<T: PathValue>(args: Seq<Value>) -> Result<Seq<Segment<T>>, ScriptError>
    decreases args.len(),
{
    if args.len() == 0 {
        Ok(Seq::empty())
    } else {
        match segments_spec::<T>(args.drop_last()) {
            Err(e) => Err(e),
            Ok(segs) => match segment_spec::<T>(args.last()) {
                Err(e) => Err(e),
                Ok(g) => Ok(segs.push(g)),
            },
        }
    }
}

/// Reads one segment argument.
pub fn parse_segment<T: PathValue>(arg: &Value) -> (r: Result<Segment<T>, ScriptError>)
    ensures
        r == segment_spec::<T>(*arg),
{
    let p = match arg {
        Value::List(p) => p,
        _ => return Err(ScriptError::TypeMismatch),
    };
    if p.len() < 3 {
        return Err(ScriptError::MissingArgument);
    }
    let dt = match extract_real(&p[0]) {
        Ok(dt) => dt,
        Err(e) => return Err(e),
    };
    let value = match T::from_value(&p[1]) {
        Ok(v) => v,
        Err(e) => return Err(e),
    };
    if !dt.is_non_negative() {
        return Err(ScriptError::InvalidDuration);
    }
    let sym = match &p[2] {
        Value::Symbol(s) => s,
        _ => return Err(ScriptError::TypeMismatch),
    };
    if symbol_is(sym, "constant") {
        Ok(Segment { delta_time: dt, value, kind: Interp::Constant })
    } else if symbol_is(sym, "linear") {
        Ok(Segment { delta_time: dt, value, kind: Interp::Linear })
    } else if symbol_is(sym, "bezier") {
        if p.len() < 5 {
            return Err(ScriptError::MissingArgument);
        }
        let c1 = match T::from_value(&p[3]) {
            Ok(v) => v,
            Err(e) => return Err(e),
        };
        let c2 = match T::from_value(&p[4]) {
            Ok(v) => v,
            Err(e) => return Err(e),
        };
        Ok(Segment { delta_time: dt, value, kind: Interp::Bezier(c1, c2) })
    } else {
        Err(ScriptError::InvalidEnum)
    }
}

/// The path that starts at `initial` with the segments that `args[1..]` describe.
pub open spec fn path_from_spec<T: PathValue>(initial: T, args: Seq<Value>) -> Result<
    (T, Seq<Segment<T>>),
    ScriptError,
> {
    match segments_spec::<T>(args.subrange(1, args.len() as int)) {
        Ok(segs) => Ok((initial, segs)),
        Err(e) => Err(e),
    }
}

/// A built path, or error, equals the one described.
pub open spec fn agrees<T>(
    r: Result<Path<T>, ScriptError>,
    s: Result<(T, Seq<Segment<T>>), ScriptError>,
) -> bool {
    match (r, s) {
        (Ok(p), Ok(q)) => p.initial == q.0 && p.segments@ == q.1,
        (Err(e), Err(f)) => e == f,
        _ => false,
    }
}

/// Builds a path from `initial` and the segment arguments `args[1..]`, appended
/// in the order given.
pub fn build_path_from<T: PathValue>(initial: T, args: &Vec<Value>) -> (r: Result<Path<T>, ScriptError>)
    requires
        args.len() >= 1,
    ensures
        agrees::<T>(r, path_from_spec::<T>(initial, args@)),
{
    let mut segments: Vec<Segment<T>> = Vec::new();
    let mut i: usize = 1;
    while i < args.len()
        invariant
            1 <= i <= args.len(),
            segments_spec::<T>(args@.subrange(1, i as int)) == Ok::<Seq<Segment<T>>, ScriptError>(segments@),
        decreases args.len() - i,
    {
        assert(args@.subrange(1, i + 1).drop_last() == args@.subrange(1, i as int));
        let g = parse_segment::<T>(&args[i]);
        match g {
            Ok(g) => segments.push(g),
            Err(e) => {
                proof {
                    assert(args@.subrange(1, args.len() as int).subrange(0, i - 1) == args@.subrange(1, i as int));
                    lemma_segments_error_stays::<T>(args@.subrange(1, args.len() as int), i - 1);
                }
                return Err(e);
            },
        }
        i = i + 1;
    }
    assert(args@.subrange(1, args.len() as int) == args@.subrange(1, i as int));
    Ok(Path { initial, segments })
}

/// What `path(args...)` builds: the first argument fixes the element type by
/// its shape (a Float64, a Color, or a list of two or three Float64 values;
/// any other shape is unsupported); each later argument adds one segment.
pub open spec fn path_built(r: Result<Timeline, ScriptError>, args: Seq<Value>) -> bool {
    if args.len() == 0 {
        r == Err::<Timeline, ScriptError>(ScriptError::MissingArgument)
    } else {
        match args[0] {
            Value::Float64(x) => match r {
                Ok(Timeline::ScalarPath(p)) => agrees::<Real>(Ok(p), path_from_spec::<Real>(x, args)),
                Ok(_) => false,
                Err(e) => agrees::<Real>(Err(e), path_from_spec::<Real>(x, args)),
            },
            Value::Color(c) => match r {
                Ok(Timeline::ColorPath(p)) => agrees::<Color>(Ok(p), path_from_spec::<Color>(c, args)),
                Ok(_) => false,
                Err(e) => agrees::<Color>(Err(e), path_from_spec::<Color>(c, args)),
            },
            Value::List(items) => if items.len() == 2 {
                match list_vec2_of(args[0]) {
                    Err(_) => r == Err::<Timeline, ScriptError>(ScriptError::UnsupportedType),
                    Ok(v) => match r {
                        Ok(Timeline::Vec2Path(p)) => agrees::<Vec2>(Ok(p), path_from_spec::<Vec2>(v, args)),
                        Ok(_) => false,
                        Err(e) => agrees::<Vec2>(Err(e), path_from_spec::<Vec2>(v, args)),
                    },
                }
            } else if items.len() == 3 {
                match list_vec3_of(args[0]) {
                    Err(_) => r == Err::<Timeline, ScriptError>(ScriptError::UnsupportedType),
                    Ok(v) => match r {
                        Ok(Timeline::Vec3Path(p)) => agrees::<Vec3>(Ok(p), path_from_spec::<Vec3>(v, args)),
                        Ok(_) => false,
                        Err(e) => agrees::<Vec3>(Err(e), path_from_spec::<Vec3>(v, args)),
                    },
                }
            } else {
                r == Err::<Timeline, ScriptError>(ScriptError::UnsupportedType)
            },
            _ => r == Err::<Timeline, ScriptError>(ScriptError::UnsupportedType),
        }
    }
}

/// The `path` primitive: builds a timeline whose element type is fixed by the
/// shape of the first argument, with one segment per later argument.
pub fn path(args: &Vec<Value>) -> (r: Result<Timeline, ScriptError>)
    ensures
        path_built(r, args@),
{
    if args.len() == 0 {
        return Err(ScriptError::MissingArgument);
    }
    match &args[0] {
        Value::Float64(x) => match build_path_from::<Real>(*x, args) {
            Ok(p) => Ok(Timeline::ScalarPath(p)),
            Err(e) => Err(e),
        },
        Value::Color(c) => match build_path_from::<Color>(*c, args) {
            Ok(p) => Ok(Timeline::ColorPath(p)),
            Err(e) => Err(e),
        },
        Value::List(items) => {
            if items.len() == 2 {
                match extract_list_vec2(&args[0]) {
                    Err(_) => Err(ScriptError::UnsupportedType),
                    Ok(v) => match build_path_from::<Vec2>(v, args) {
                        Ok(p) => Ok(Timeline::Vec2Path(p)),
                        Err(e) => Err(e),
                    },
                }
            } else if items.len() == 3 {
                match extract_list_vec3(&args[0]) {
                    Err(_) => Err(ScriptError::UnsupportedType),
                    Ok(v) => match build_path_from::<Vec3>(v, args) {
                        Ok(p) => Ok(Timeline::Vec3Path(p)),
                        Err(e) => Err(e),
                    },
                }
            } else {
                Err(ScriptError::UnsupportedType)
            }
        },
        _ => Err(ScriptError::UnsupportedType),
    }
}

/// The order in which `cycle` tries element types.
pub open spec fn cycle_candidates_spec() -> Seq<Kind> {
    seq![Kind::Timeline(ElemKind::Scalar), Kind::Timeline(ElemKind::Vector2), Kind::Timeline(ElemKind::Vector3)]
}

/// What `cycle(timeline, duration)` builds.
pub open spec fn cycle_built(r: Result<Timeline, ScriptError>, args: Seq<Value>) -> bool {
    if args.len() < 2 {
        r == Err::<Timeline, ScriptError>(ScriptError::MissingArgument)
    } else {
        match (dispatch_spec(seq![args[0]], cycle_candidates_spec()), real_of(args[1])) {
            (Err(e), _) => r == Err::<Timeline, ScriptError>(e),
            (Ok(_), Err(e)) => r == Err::<Timeline, ScriptError>(e),
            (Ok(_), Ok(d)) => if d.is_positive_spec() {
                &&& r matches Ok(Timeline::Cycle { source, duration })
                &&& duration == d
                &&& args[0] is Timeline
                &&& *source == args[0]->Timeline_0
            } else {
                r == Err::<Timeline, ScriptError>(ScriptError::InvalidDuration)
            },
        }
    }
}

/// The `cycle` primitive: repeats a scalar or vector timeline with a strictly
/// positive period.
pub fn cycle(args: Vec<Value>) -> (r: Result<Timeline, ScriptError>)
    ensures
        cycle_built(r, args@),
{
    let mut args = args;
    if args.len() < 2 {
        return Err(ScriptError::MissingArgument);
    }
    let candidates = vec![
        Kind::Timeline(ElemKind::Scalar),
        Kind::Timeline(ElemKind::Vector2),
        Kind::Timeline(ElemKind::Vector3),
    ];
    assert(candidates@ == cycle_candidates_spec());
    let first = vec![args.remove(0)];
    let ghost a0 = first@[0];
    assert(first@ == seq![a0]);
    if let Err(e) = dispatch(&first, &candidates) {
        return Err(e);
    }
    proof {
        reveal_with_fuel(dispatch_spec, 4);
        assert(kind_of(first@[0]) is Timeline);
    }
    let duration = match extract_real(&args[0]) {
        Ok(d) => d,
        Err(e) => return Err(e),
    };
    if !duration.is_positive() {
        return Err(ScriptError::InvalidDuration);
    }
    let mut first = first;
    match first.pop() {
        Some(Value::Timeline(t)) => Ok(Timeline::Cycle { source: Box::new(t), duration }),
        _ => Err(ScriptError::UnsupportedType),
    }
}

/// The order in which `sin` tries amplitude types.
pub open spec fn amplitude_candidates_spec() -> Seq<Kind> {
    seq![Kind::Float64, Kind::Timeline(ElemKind::Scalar)]
}

/// What `sin(initial_phase, frequency, amplitude)` builds.
pub open spec fn sine_built(r: Result<Timeline, ScriptError>, args: Seq<Value>) -> bool {
    if args.len() < 3 {
        r == Err::<Timeline, ScriptError>(ScriptError::MissingArgument)
    } else {
        match (real_of(args[0]), real_of(args[1])) {
            (Err(e), _) => r == Err::<Timeline, ScriptError>(e),
            (Ok(_), Err(e)) => r == Err::<Timeline, ScriptError>(e),
            (Ok(p), Ok(f)) => match args[2] {
                Value::Float64(a) => r == Ok::<Timeline, ScriptError>(
                    Timeline::Sine { phase: p, frequency: f, amplitude: ScalarSource::Fixed(a) },
                ),
                Value::Timeline(t) => if t.elem_kind_spec() == ElemKind::Scalar {
                    &&& r matches Ok(Timeline::Sine { phase, frequency, amplitude: ScalarSource::Varying(b) })
                    &&& phase == p
                    &&& frequency == f
                    &&& *b == t
                } else {
                    r == Err::<Timeline, ScriptError>(ScriptError::UnsupportedType)
                },
                _ => r == Err::<Timeline, ScriptError>(ScriptError::UnsupportedType),
            },
        }
    }
}

/// The `sin` primitive: a scalar oscillator whose amplitude is a Float64 or,
/// failing that, a scalar timeline.
pub fn sine(args: Vec<Value>) -> (r: Result<Timeline, ScriptError>)
    ensures
        sine_built(r, args@),
{
    let mut args = args;
    if args.len() < 3 {
        return Err(ScriptError::MissingArgument);
    }
    let phase = match extract_real(&args[0]) {
        Ok(x) => x,
        Err(e) => return Err(e),
    };
    let frequency = match extract_real(&args[1]) {
        Ok(x) => x,
        Err(e) => return Err(e),
    };
    let amplitude = args.swap_remove(2);
    match amplitude {
        Value::Float64(a) => Ok(Timeline::Sine { phase, frequency, amplitude: ScalarSource::Fixed(a) }),
        Value::Timeline(t) => {
            if t.elem_kind() == ElemKind::Scalar {
                Ok(Timeline::Sine { phase, frequency, amplitude: ScalarSource::Varying(Box::new(t)) })
            } else {
                Err(ScriptError::UnsupportedType)
            }
        },
        _ => Err(ScriptError::UnsupportedType),
    }
}

/// Once a prefix of the segment arguments fails, every longer run fails with
/// the same error.
proof fn lemma_segments_error_stays<T: PathValue>(args: Seq<Value>, n: int)
    requires
        0 <= n < args.len(),
        segments_spec::<T>(args.subrange(0, n)) is Ok,
        segment_spec::<T>(args[n]) is Err,
    ensures
        segments_spec::<T>(args) == Err::<Seq<Segment<T>>, ScriptError>(
            segment_spec::<T>(args[n])->Err_0,
        ),
    decreases args.len(),
{
    assert(args.subrange(0, n + 1).drop_last() == args.subrange(0, n));
    if args.len() == n + 1 {
        assert(args.subrange(0, n + 1) == args);
    } else {
        assert(args.drop_last().subrange(0, n) == args.subrange(0, n));
        lemma_segments_error_stays::<T>(args.drop_last(), n);
    }
}

} // verus!
