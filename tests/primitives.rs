use scene_script::color::{color, parse_hex, ColorSpec, HexColor};
use scene_script::dispatch::{arithmetic, dispatch, fold_int, stringify_kind, Arith, ArithOp};
use scene_script::runtime::{apply, Builtin, Runtime, Step};
use scene_script::scene::{
    composite, frame, image_render, plain, sequence, transform, CompositeMode, Fill, FrameType,
    Render,
};
use scene_script::timeline::{cycle, path, sine, ElemKind, Interp, ScalarSource, Timeline, Vec2Source};
use scene_script::value::{first, list as make_list, Color, ImageHandle, Kind, Real, ScriptError, Value, Vec2, Vec3};

fn dbl(x: f64) -> Real {
    Real { bits: x.to_bits() }
}

fn num(x: f64) -> Value {
    Value::Float64(dbl(x))
}

fn sym(s: &str) -> Value {
    Value::Symbol(s.to_string())
}

fn list(items: Vec<Value>) -> Value {
    Value::List(items)
}

fn red() -> Color {
    Color { r: dbl(1.0), g: dbl(0.0), b: dbl(0.0), a: dbl(1.0) }
}

fn solid() -> Render {
    Render::Plain(Fill::Solid(red()))
}

fn scalar_path() -> Timeline {
    path(&vec![num(0.0), list(vec![num(1.0), num(10.0), sym("linear")])]).unwrap()
}

#[test]
fn uniform_floats_dispatch_to_float() {
    let r = arithmetic(ArithOp::Add, &vec![num(1.0), num(2.0)]).unwrap();
    assert_eq!(r, Arith::Float64(vec![dbl(1.0), dbl(2.0)]));
}

#[test]
fn uniform_ints_dispatch_to_int() {
    assert_eq!(arithmetic(ArithOp::Add, &vec![Value::Int32(2), Value::Int32(3)]), Ok(Arith::Int32(5)));
}

#[test]
fn uniform_vectors_dispatch_to_vector() {
    let v = Vec2 { x: dbl(1.0), y: dbl(2.0) };
    let w = Vec3 { x: dbl(1.0), y: dbl(2.0), z: dbl(3.0) };
    assert_eq!(arithmetic(ArithOp::Mul, &vec![Value::Vector2(v)]), Ok(Arith::Vector2(vec![v])));
    assert_eq!(arithmetic(ArithOp::Sub, &vec![Value::Vector3(w)]), Ok(Arith::Vector3(vec![w])));
}

#[test]
fn mixed_arguments_are_unsupported() {
    let r = arithmetic(ArithOp::Add, &vec![num(1.0), Value::Int32(2)]);
    assert_eq!(r, Err(ScriptError::UnsupportedType));
    let r = arithmetic(ArithOp::Div, &vec![Value::Int32(2), Value::Bool(true)]);
    assert_eq!(r, Err(ScriptError::UnsupportedType));
}

#[test]
fn dispatch_takes_first_matching_candidate() {
    let cands = vec![Kind::Str, Kind::Int32, Kind::Float64];
    assert_eq!(dispatch(&vec![Value::Int32(1)], &cands), Ok(Kind::Int32));
    assert_eq!(dispatch(&vec![], &cands), Ok(Kind::Str));
    assert_eq!(dispatch(&vec![Value::Bool(true)], &cands), Err(ScriptError::UnsupportedType));
}

#[test]
fn empty_sum_and_product_are_float_identities() {
    assert_eq!(arithmetic(ArithOp::Add, &vec![]), Ok(Arith::Float64(vec![])));
    assert_eq!(arithmetic(ArithOp::Mul, &vec![]), Ok(Arith::Float64(vec![])));
    assert_eq!(fold_int(ArithOp::Add, &vec![]), Ok(0));
    assert_eq!(fold_int(ArithOp::Mul, &vec![]), Ok(1));
}

#[test]
fn subtraction_folds_left() {
    let args = vec![Value::Int32(10), Value::Int32(3), Value::Int32(2)];
    assert_eq!(arithmetic(ArithOp::Sub, &args), Ok(Arith::Int32(5)));
}

#[test]
fn division_folds_left() {
    let args = vec![Value::Int32(100), Value::Int32(5), Value::Int32(2)];
    assert_eq!(arithmetic(ArithOp::Div, &args), Ok(Arith::Int32(10)));
}

#[test]
fn integer_division_rounds_toward_zero() {
    assert_eq!(fold_int(ArithOp::Div, &vec![-7, 2]), Ok(-3));
    assert_eq!(fold_int(ArithOp::Div, &vec![7, -2]), Ok(-3));
}

#[test]
fn product_of_ints() {
    assert_eq!(fold_int(ArithOp::Mul, &vec![2, 3, 4]), Ok(24));
}

#[test]
fn integer_faults_are_reported() {
    assert_eq!(fold_int(ArithOp::Div, &vec![1, 0]), Err(ScriptError::ArithmeticFault));
    assert_eq!(fold_int(ArithOp::Add, &vec![i32::MAX, 1]), Err(ScriptError::ArithmeticFault));
    assert_eq!(fold_int(ArithOp::Div, &vec![i32::MIN, -1]), Err(ScriptError::ArithmeticFault));
}

#[test]
fn subtraction_needs_an_argument() {
    assert_eq!(arithmetic(ArithOp::Sub, &vec![]), Err(ScriptError::MissingArgument));
    assert_eq!(arithmetic(ArithOp::Div, &vec![]), Err(ScriptError::MissingArgument));
}

#[test]
fn rgb_from_hex() {
    let r = color(&vec![Value::Str("#FF8000".to_string())], false).unwrap();
    let h = HexColor { r: 255, g: 128, b: 0, a: 255 };
    assert_eq!(r, ColorSpec::Hex(h));
    let g = h.g as f64 / 255.0;
    assert!((g - 0.5019).abs() < 1.0 / 255.0);
    assert_eq!(h.a as f64 / 255.0, 1.0);
}

#[test]
fn rgba_from_hex() {
    let r = color(&vec![Value::Str("#11223344".to_string())], true);
    assert_eq!(r, Ok(ColorSpec::Hex(HexColor { r: 0x11, g: 0x22, b: 0x33, a: 0x44 })));
}

#[test]
fn hex_pattern_is_found_anywhere() {
    assert_eq!(parse_hex("ab #0a0B0c!", false), Ok(HexColor { r: 10, g: 11, b: 12, a: 255 }));
    assert_eq!(parse_hex("#zz#aabbcc", false), Ok(HexColor { r: 0xaa, g: 0xbb, b: 0xcc, a: 255 }));
}

#[test]
fn malformed_hex_is_rejected() {
    let r = color(&vec![Value::Str("#GG0000".to_string())], false);
    assert_eq!(r, Err(ScriptError::InvalidColorFormat));
    assert_eq!(parse_hex("#1122", true), Err(ScriptError::InvalidColorFormat));
    assert_eq!(parse_hex("#112233", true), Err(ScriptError::InvalidColorFormat));
}

#[test]
fn rgb_from_channels() {
    let r = color(&vec![num(1.0), num(0.0), num(0.0)], false);
    assert_eq!(r, Ok(ColorSpec::Channels(red())));
    let r = color(&vec![num(0.5), num(2.0), num(-1.0), num(0.25)], true);
    let c = Color { r: dbl(0.5), g: dbl(2.0), b: dbl(-1.0), a: dbl(0.25) };
    assert_eq!(r, Ok(ColorSpec::Channels(c)));
}

#[test]
fn rgb_channel_errors() {
    assert_eq!(color(&vec![num(1.0), Value::Int32(0), num(0.0)], false), Err(ScriptError::TypeMismatch));
    assert_eq!(color(&vec![num(1.0), num(0.0)], false), Err(ScriptError::MissingArgument));
    assert_eq!(color(&vec![], true), Err(ScriptError::MissingArgument));
}

#[test]
fn scalar_linear_path() {
    match scalar_path() {
        Timeline::ScalarPath(p) => {
            assert_eq!(p.initial, dbl(0.0));
            assert_eq!(p.segments.len(), 1);
            assert_eq!(p.segments[0].delta_time, dbl(1.0));
            assert_eq!(p.segments[0].value, dbl(10.0));
            assert_eq!(p.segments[0].kind, Interp::Linear);
        },
        other => panic!("unexpected {:?}", other),
    }
}

#[test]
fn segments_keep_argument_order() {
    let t = path(&vec![
        num(0.0),
        list(vec![num(2.0), num(1.0), sym("constant")]),
        list(vec![num(1.0), num(3.0), sym("bezier"), num(1.5), num(2.5)]),
    ])
    .unwrap();
    match t {
        Timeline::ScalarPath(p) => {
            assert_eq!(p.segments[0].kind, Interp::Constant);
            assert_eq!(p.segments[0].delta_time, dbl(2.0));
            assert_eq!(p.segments[1].kind, Interp::Bezier(dbl(1.5), dbl(2.5)));
            assert_eq!(p.segments[1].value, dbl(3.0));
        },
        other => panic!("unexpected {:?}", other),
    }
}

#[test]
fn vector_and_color_paths() {
    let v2 = path(&vec![list(vec![num(0.0), num(1.0)]), list(vec![num(1.0), list(vec![num(2.0), num(3.0)]), sym("linear")])]).unwrap();
    assert_eq!(v2.elem_kind(), ElemKind::Vector2);
    let v3 = path(&vec![list(vec![num(0.0), num(1.0), num(2.0)])]).unwrap();
    assert_eq!(v3.elem_kind(), ElemKind::Vector3);
    let c = path(&vec![Value::Color(red()), list(vec![num(1.0), Value::Color(red()), sym("constant")])]).unwrap();
    assert_eq!(c.elem_kind(), ElemKind::Color);
}

#[test]
fn path_errors() {
    assert_eq!(path(&vec![]), Err(ScriptError::MissingArgument));
    assert_eq!(path(&vec![Value::Int32(0)]), Err(ScriptError::UnsupportedType));
    assert_eq!(path(&vec![list(vec![num(0.0)])]), Err(ScriptError::UnsupportedType));
    assert_eq!(path(&vec![list(vec![num(0.0), Value::Int32(1)])]), Err(ScriptError::UnsupportedType));
    assert_eq!(path(&vec![list(vec![Value::Int32(1), Value::Int32(2), Value::Int32(3)])]), Err(ScriptError::UnsupportedType));
    let back = path(&vec![num(0.0), list(vec![num(-1.0), num(10.0), sym("linear")])]);
    assert_eq!(back, Err(ScriptError::InvalidDuration));
    let nan = path(&vec![num(0.0), list(vec![num(f64::NAN), num(10.0), sym("linear")])]);
    assert_eq!(nan, Err(ScriptError::InvalidDuration));
    assert!(path(&vec![num(0.0), list(vec![num(-0.0), num(10.0), sym("linear")])]).is_ok());
    let bad = path(&vec![num(0.0), list(vec![num(1.0), num(10.0), sym("cubic")])]);
    assert_eq!(bad, Err(ScriptError::InvalidEnum));
    let short = path(&vec![num(0.0), list(vec![num(1.0), num(10.0), sym("bezier"), num(1.0)])]);
    assert_eq!(short, Err(ScriptError::MissingArgument));
    let wrong = path(&vec![num(0.0), list(vec![num(1.0), Value::Color(red()), sym("linear")])]);
    assert_eq!(wrong, Err(ScriptError::TypeMismatch));
    assert_eq!(path(&vec![num(0.0), num(1.0)]), Err(ScriptError::TypeMismatch));
}

#[test]
fn cycle_wraps_a_timeline() {
    let t = cycle(vec![Value::Timeline(scalar_path()), num(2.0)]).unwrap();
    match t {
        Timeline::Cycle { source, duration } => {
            assert_eq!(duration, dbl(2.0));
            assert_eq!(*source, scalar_path());
        },
        other => panic!("unexpected {:?}", other),
    }
}

#[test]
fn cycle_errors() {
    assert_eq!(cycle(vec![Value::Timeline(scalar_path()), num(0.0)]), Err(ScriptError::InvalidDuration));
    assert_eq!(cycle(vec![Value::Timeline(scalar_path()), num(-1.0)]), Err(ScriptError::InvalidDuration));
    assert_eq!(cycle(vec![Value::Timeline(scalar_path()), num(f64::NAN)]), Err(ScriptError::InvalidDuration));
    assert_eq!(cycle(vec![Value::Timeline(scalar_path()), Value::Int32(2)]), Err(ScriptError::TypeMismatch));
    let colors = path(&vec![Value::Color(red())]).unwrap();
    assert_eq!(cycle(vec![Value::Timeline(colors), num(2.0)]), Err(ScriptError::UnsupportedType));
    assert_eq!(cycle(vec![num(1.0), num(2.0)]), Err(ScriptError::UnsupportedType));
    assert_eq!(cycle(vec![num(1.0)]), Err(ScriptError::MissingArgument));
}

#[test]
fn sine_amplitudes() {
    let fixed = sine(vec![num(0.0), num(1.0), num(2.0)]).unwrap();
    let want = Timeline::Sine { phase: dbl(0.0), frequency: dbl(1.0), amplitude: ScalarSource::Fixed(dbl(2.0)) };
    assert_eq!(fixed, want);
    let varying = sine(vec![num(0.0), num(1.0), Value::Timeline(scalar_path())]).unwrap();
    let want = Timeline::Sine {
        phase: dbl(0.0),
        frequency: dbl(1.0),
        amplitude: ScalarSource::Varying(Box::new(scalar_path())),
    };
    assert_eq!(varying, want);
    assert_eq!(sine(vec![num(0.0), num(1.0), Value::Int32(1)]), Err(ScriptError::UnsupportedType));
    assert_eq!(sine(vec![num(0.0), num(1.0)]), Err(ScriptError::MissingArgument));
}

#[test]
fn plain_fills() {
    assert_eq!(plain(vec![Value::Color(red())]), Ok(solid()));
    let animated = plain(vec![Value::Timeline(path(&vec![Value::Color(red())]).unwrap())]).unwrap();
    assert!(matches!(animated, Render::Plain(Fill::Animated(_))));
    assert_eq!(plain(vec![num(1.0)]), Err(ScriptError::UnsupportedType));
}

#[test]
fn frame_types() {
    let f = frame(vec![Value::Render(solid()), sym("constant"), Value::Color(red())]).unwrap();
    assert_eq!(f, Render::Frame { render: Box::new(solid()), frame_type: FrameType::Constant(red()) });
    let f = frame(vec![Value::Render(solid()), sym("reflect")]).unwrap();
    assert_eq!(f, Render::Frame { render: Box::new(solid()), frame_type: FrameType::Reflect });
    assert_eq!(frame(vec![Value::Render(solid()), sym("wrap")]), Err(ScriptError::InvalidEnum));
    assert_eq!(frame(vec![Value::Render(solid()), sym("constant")]), Err(ScriptError::MissingArgument));
}

#[test]
fn sequence_keeps_order() {
    let s = sequence(vec![
        list(vec![num(5.0), Value::Bool(true), Value::Render(solid())]),
        list(vec![num(1.0), Value::Bool(false), Value::Render(solid())]),
    ])
    .unwrap();
    match s {
        Render::Sequence(cues) => {
            assert_eq!(cues.len(), 2);
            assert_eq!(cues[0].start, dbl(5.0));
            assert!(cues[0].restart);
            assert_eq!(cues[1].start, dbl(1.0));
        },
        other => panic!("unexpected {:?}", other),
    }
    assert_eq!(sequence(vec![list(vec![num(5.0), Value::Bool(true)])]), Err(ScriptError::MissingArgument));
}

#[test]
fn composite_paint_order() {
    let c = composite(vec![
        list(vec![Value::Render(solid()), sym("none")]),
        list(vec![Value::Render(solid()), sym("normal")]),
    ])
    .unwrap();
    match c {
        Render::Composite(layers) => {
            assert_eq!(layers[0].mode, CompositeMode::Passthrough);
            assert_eq!(layers[1].mode, CompositeMode::Normal);
        },
        other => panic!("unexpected {:?}", other),
    }
}

#[test]
fn composite_rejects_unknown_mode() {
    let c = composite(vec![list(vec![Value::Render(solid()), sym("bogus")])]);
    assert_eq!(c, Err(ScriptError::InvalidEnum));
}

#[test]
fn path_without_arguments_is_missing() {
    assert_eq!(path(&vec![]), Err(ScriptError::MissingArgument));
}

#[test]
fn transform_sources() {
    let moving = path(&vec![list(vec![num(0.0), num(0.0)])]).unwrap();
    let t = transform(vec![
        Value::Render(solid()),
        Value::Timeline(moving),
        list(vec![num(2.0), num(2.0)]),
        num(0.5),
    ])
    .unwrap();
    match t {
        Render::Transform { translation, scale, rotation, .. } => {
            assert!(matches!(translation, Vec2Source::Varying(_)));
            assert_eq!(scale, Vec2Source::Fixed(Vec2 { x: dbl(2.0), y: dbl(2.0) }));
            assert_eq!(rotation, ScalarSource::Fixed(dbl(0.5)));
        },
        other => panic!("unexpected {:?}", other),
    }
    let bad = transform(vec![Value::Render(solid()), num(1.0), list(vec![num(2.0), num(2.0)]), num(0.5)]);
    assert_eq!(bad, Err(ScriptError::TypeMismatch));
    assert_eq!(transform(vec![Value::Render(solid())]), Err(ScriptError::MissingArgument));
}

#[test]
fn image_render_factory() {
    let img = ImageHandle { id: 7 };
    let r = image_render(&vec![Value::Image(img), Value::Color(red())]);
    assert_eq!(r, Ok(Render::Image { image: img, default: red() }));
    assert_eq!(image_render(&vec![Value::Image(img), num(1.0)]), Err(ScriptError::TypeMismatch));
}

#[test]
fn runtime_bindings() {
    let mut rt = Runtime::new();
    assert_eq!(rt.get("+"), Some(&Value::Native(Builtin::Add)));
    assert_eq!(rt.get("true"), Some(&Value::Bool(true)));
    assert_eq!(rt.get("nothing"), None);
    rt.insert("x", Value::Int32(1));
    rt.insert("x", Value::Int32(2));
    assert_eq!(rt.get("x"), Some(&Value::Int32(2)));
}

#[test]
fn stringify_looks_at_first_argument() {
    assert_eq!(stringify_kind(&vec![Value::Str("a".to_string()), Value::Int32(1)]), Ok(Kind::Str));
    assert_eq!(stringify_kind(&vec![num(1.0), Value::Bool(true)]), Ok(Kind::Float64));
    assert_eq!(stringify_kind(&vec![Value::Color(red())]), Ok(Kind::Color));
    assert_eq!(stringify_kind(&vec![Value::Bool(true)]), Err(ScriptError::UnsupportedType));
    assert_eq!(stringify_kind(&vec![]), Err(ScriptError::MissingArgument));
}

#[test]
fn first_and_vec_primitives() {
    assert_eq!(first(vec![Value::Int32(4), Value::Int32(5)]), Ok(Value::Int32(4)));
    assert_eq!(first(vec![]), Err(ScriptError::MissingArgument));
    assert_eq!(make_list(vec![Value::Int32(4), num(1.0)]), list(vec![Value::Int32(4), num(1.0)]));
}

#[test]
fn positive_durations() {
    assert!(dbl(0.5).is_positive());
    assert!(dbl(f64::INFINITY).is_positive());
    assert!(!dbl(-0.0).is_positive());
    assert!(!dbl(0.0).is_positive());
}

#[test]
fn runtime_routes_names_to_primitives() {
    let rt = Runtime::new();
    let r = rt.call("rgb", vec![Value::Str("#GG0000".to_string())]);
    assert_eq!(r, Err(ScriptError::InvalidColorFormat));
    let r = rt.call("rgba", vec![Value::Str("#GG000000".to_string())]);
    assert_eq!(r, Err(ScriptError::InvalidColorFormat));
    let r = rt.call("composite", vec![list(vec![Value::Render(solid()), sym("bogus")])]);
    assert_eq!(r, Err(ScriptError::InvalidEnum));
    assert_eq!(rt.call("path", vec![]), Err(ScriptError::MissingArgument));
    let sum = rt.call("-", vec![Value::Int32(10), Value::Int32(3), Value::Int32(2)]);
    assert_eq!(sum, Ok(Step::Arith(ArithOp::Sub, Arith::Int32(5))));
    assert_eq!(rt.call("nothing", vec![]), Err(ScriptError::TypeMismatch));
    assert_eq!(rt.call("true", vec![]), Err(ScriptError::TypeMismatch));
}

#[test]
fn apply_hands_host_work_back() {
    let r = apply(Builtin::Rgb, vec![Value::Str("#FF8000".to_string())]);
    assert_eq!(r, Ok(Step::Color(ColorSpec::Hex(HexColor { r: 255, g: 128, b: 0, a: 255 }))));
    let r = apply(Builtin::ImportImage, vec![Value::Str("a.png".to_string())]);
    assert_eq!(r, Ok(Step::ImportImage("a.png".to_string())));
    let r = apply(Builtin::TextToImage, vec![Value::Str("hi".to_string()), num(2.0)]);
    assert_eq!(r, Ok(Step::TextToImage("hi".to_string(), dbl(2.0))));
    assert_eq!(apply(Builtin::TextToImage, vec![num(2.0), num(2.0)]), Err(ScriptError::TypeMismatch));
    assert_eq!(apply(Builtin::TestAudio, vec![]), Ok(Step::TestAudio));
    let r = apply(Builtin::Stringify, vec![Value::Int32(3)]);
    assert_eq!(r, Ok(Step::Text(Kind::Int32, Value::Int32(3))));
    let r = apply(Builtin::Path, vec![]);
    assert_eq!(r, Err(ScriptError::MissingArgument));
    assert_eq!(apply(Builtin::First, vec![Value::Int32(1)]), Ok(Step::Done(Value::Int32(1))));
}
