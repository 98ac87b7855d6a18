use vstd::prelude::*;
use crate::color::{color, color_spec, hex_spec, ColorSpec};
use vstd::utf8::encode_utf8;
use crate::dispatch::{
    arith_spec, arithmetic, dispatch_spec, stringify_candidates_spec, stringify_kind, Arith,
    ArithOp,
};
use crate::scene::{
    composite, composite_built, frame, frame_built, image_render, image_render_built, plain,
    plain_built, sequence, sequence_built, transform, transform_built, map_results, Render,
};
use crate::timeline::{cycle, cycle_built, path, path_built, sine, sine_built, Timeline};
use crate::value::{extract_real, first, list, real_of, Kind, Real, ScriptError, Value};

verus! {

/// A primitive of the language, bound to its name in a fresh runtime.
#[derive(Clone, Copy, Debug, PartialEq, Eq, Structural)]
pub enum Builtin {
    First,
    List,
    Add,
    Sub,
    Mul,
    Div,
    Stringify,
    Rgb,
    Rgba,
    Plain,
    Frame,
    Sequence,
    ImageRender,
    TextToImage,
    Composite,
    Path,
    Cycle,
    Sin,
    Transform,
    TestAudio,
    ImportImage,
}

/// The binding table of a script session: names bound to values, the most
/// recent binding of a name hiding earlier ones.
pub struct Runtime {
    bindings: Vec<(String, Value)>,
}

/// The value most recently bound to `name`.
pub open spec fn lookup(entries: Seq<(Seq<char>, Value)>, name: Seq<char>) -> Option<Value>
    decreases entries.len(),
{
    if entries.len() == 0 {
        None
    } else if entries.last().0 == name {
        Some(entries.last().1)
    } else {
        lookup(entries.drop_last(), name)
    }
}

/// The bindings a fresh runtime starts with, in the order they are made.
pub open spec fn initial_entries() -> Seq<(Seq<char>, Value)> {
    seq![
        ("true"@, Value::Bool(true)),
        ("false"@, Value::Bool(false)),
        ("first"@, Value::Native(Builtin::First)),
        ("vec"@, Value::Native(Builtin::List)),
        ("+"@, Value::Native(Builtin::Add)),
        ("-"@, Value::Native(Builtin::Sub)),
        ("*"@, Value::Native(Builtin::Mul)),
        ("/"@, Value::Native(Builtin::Div)),
        ("stringify"@, Value::Native(Builtin::Stringify)),
        ("rgb"@, Value::Native(Builtin::Rgb)),
        ("rgba"@, Value::Native(Builtin::Rgba)),
        ("plain"@, Value::Native(Builtin::Plain)),
        ("frame"@, Value::Native(Builtin::Frame)),
        ("sequence"@, Value::Native(Builtin::Sequence)),
        ("image_render"@, Value::Native(Builtin::ImageRender)),
        ("text_to_image"@, Value::Native(Builtin::TextToImage)),
        ("composite"@, Value::Native(Builtin::Composite)),
        ("path"@, Value::Native(Builtin::Path)),
        ("cycle"@, Value::Native(Builtin::Cycle)),
        ("sin"@, Value::Native(Builtin::Sin)),
        ("transform"@, Value::Native(Builtin::Transform)),
        ("test_audio"@, Value::Native(Builtin::TestAudio)),
        ("import_image"@, Value::Native(Builtin::ImportImage)),
    ]
}

impl Runtime {
    /// The bindings made so far, oldest first.
    pub closed spec fn entries(&self) -> Seq<(Seq<char>, Value)> {
        self.bindings@.map_values(|e: (String, Value)| (e.0@, e.1))
    }

    /// A runtime with `true`, `false` and every primitive bound.
    pub fn new() -> (r: Runtime)
        ensures
            r.entries() == initial_entries(),
    {
        let mut rt = Runtime { bindings: Vec::new() };
        assert(rt.entries() == Seq::<(Seq<char>, Value)>::empty());
        rt.insert("true", Value::Bool(true));
        rt.insert("false", Value::Bool(false));
        rt.insert("first", Value::Native(Builtin::First));
        rt.insert("vec", Value::Native(Builtin::List));
        rt.insert("+", Value::Native(Builtin::Add));
        rt.insert("-", Value::Native(Builtin::Sub));
        rt.insert("*", Value::Native(Builtin::Mul));
        rt.insert("/", Value::Native(Builtin::Div));
        rt.insert("stringify", Value::Native(Builtin::Stringify));
        rt.insert("rgb", Value::Native(Builtin::Rgb));
        rt.insert("rgba", Value::Native(Builtin::Rgba));
        rt.insert("plain", Value::Native(Builtin::Plain));
        rt.insert("frame", Value::Native(Builtin::Frame));
        rt.insert("sequence", Value::Native(Builtin::Sequence));
        rt.insert("image_render", Value::Native(Builtin::ImageRender));
        rt.insert("text_to_image", Value::Native(Builtin::TextToImage));
        rt.insert("composite", Value::Native(Builtin::Composite));
        rt.insert("path", Value::Native(Builtin::Path));
        rt.insert("cycle", Value::Native(Builtin::Cycle));
        rt.insert("sin", Value::Native(Builtin::Sin));
        rt.insert("transform", Value::Native(Builtin::Transform));
        rt.insert("test_audio", Value::Native(Builtin::TestAudio));
        rt.insert("import_image", Value::Native(Builtin::ImportImage));
        assert(rt.entries() =~= initial_entries());
        rt
    }

    /// Binds `name` to `val`, hiding any earlier binding of `name`.
    pub fn insert(&mut self, name: &str, val: Value)
        ensures
            final(self).entries() == old(self).entries().push((name@, val)),
    {
        let ghost before = self.entries();
        self.bindings.push((name.to_owned(), val));
        assert(self.entries() =~= before.push((name@, val)));
    }

    /// Applies the primitive bound to `name`; a name bound to anything else,
    /// or to nothing, is a `TypeMismatch`.
    pub fn call(&self, name: &str, args: Vec<Value>) -> (r: Result<Step, ScriptError>)
        ensures
            call_spec(r, self.entries(), name@, args@),
    {
        match self.get(name) {
            Some(Value::Native(b)) => apply(*b, args),
            _ => Err(ScriptError::TypeMismatch),
        }
    }

    /// The value bound to `name`, if any.
    pub fn get(&self, name: &str) -> (r: Option<&Value>)
        ensures
            match r {
                Some(v) => lookup(self.entries(), name@) == Some(*v),
                None => lookup(self.entries(), name@) is None,
            },
    {
        let key = name.to_owned();
        let mut i: usize = self.bindings.len();
        assert(self.entries().subrange(0, i as int) == self.entries());
        while i > 0
            invariant
                i <= self.bindings.len(),
                self.entries().len() == self.bindings.len(),
                key@ == name@,
                lookup(self.entries(), name@) == lookup(self.entries().subrange(0, i as int), name@),
            decreases i,
        {
            let ghost pre = self.entries().subrange(0, i as int);
            assert(pre.drop_last() == self.entries().subrange(0, i - 1));
            if self.bindings[i - 1].0 == key {
                return Some(&self.bindings[i - 1].1);
            }
            i = i - 1;
        }
        None
    }
}

/// What remains to be done once a primitive has been applied: either the
/// result value, or work that needs floating-point arithmetic or the host.
#[derive(Debug, PartialEq)]
pub enum Step {
    /// The primitive's result.
    Done(Value),
    /// Fold these operands with `op` (Int32 operands are already folded).
    Arith(ArithOp, Arith),
    /// Build this color, dividing hex channels by 255.
    Color(ColorSpec),
    /// Render this value as debug text at the given type.
    Text(Kind, Value),
    /// Rasterize `text` at `scale` into an image.
    TextToImage(String, Real),
    /// Load the image file at this path.
    ImportImage(String),
    /// Build the demonstration tune.
    TestAudio,
}

/// The render a step holds, or the error.
pub open spec fn render_of(r: Result<Step, ScriptError>) -> Result<Render, ScriptError> {
    match r {
        Ok(Step::Done(Value::Render(x))) => Ok(x),
        Ok(_) => Err(ScriptError::TypeMismatch),
        Err(e) => Err(e),
    }
}

/// The step is an error or a finished render.
pub open spec fn gives_render(r: Result<Step, ScriptError>) -> bool {
    r is Err || r matches Ok(Step::Done(Value::Render(_)))
}

/// The timeline a step holds, or the error.
pub open spec fn timeline_of(r: Result<Step, ScriptError>) -> Result<Timeline, ScriptError> {
    match r {
        Ok(Step::Done(Value::Timeline(x))) => Ok(x),
        Ok(_) => Err(ScriptError::TypeMismatch),
        Err(e) => Err(e),
    }
}

/// The step is an error or a finished timeline.
pub open spec fn gives_timeline(r: Result<Step, ScriptError>) -> bool {
    r is Err || r matches Ok(Step::Done(Value::Timeline(_)))
}

/// An arithmetic step agrees with `arith_spec`.
pub open spec fn arith_applied(r: Result<Step, ScriptError>, op: ArithOp, args: Seq<Value>) -> bool {
    match r {
        Ok(Step::Arith(o, a)) => o == op && arith_spec(Ok(a), op, args),
        Ok(_) => false,
        Err(e) => arith_spec(Err(e), op, args),
    }
}

#[verifier::opaque]
pub open spec fn first_applied(r: Result<Step, ScriptError>, args: Seq<Value>) -> bool {
    if args.len() == 0 {
        r == Err::<Step, ScriptError>(ScriptError::MissingArgument)
    } else {
        r == Ok::<Step, ScriptError>(Step::Done(args[0]))
    }
}

#[verifier::opaque]
pub open spec fn list_applied(r: Result<Step, ScriptError>, args: Seq<Value>) -> bool {
    r matches Ok(Step::Done(Value::List(items))) && items@ == args
}

#[verifier::opaque]
pub open spec fn add_applied(r: Result<Step, ScriptError>, args: Seq<Value>) -> bool {
    arith_applied(r, ArithOp::Add, args)
}

#[verifier::opaque]
pub open spec fn sub_applied(r: Result<Step, ScriptError>, args: Seq<Value>) -> bool {
    arith_applied(r, ArithOp::Sub, args)
}

#[verifier::opaque]
pub open spec fn mul_applied(r: Result<Step, ScriptError>, args: Seq<Value>) -> bool {
    arith_applied(r, ArithOp::Mul, args)
}

#[verifier::opaque]
pub open spec fn div_applied(r: Result<Step, ScriptError>, args: Seq<Value>) -> bool {
    arith_applied(r, ArithOp::Div, args)
}

#[verifier::opaque]
pub open spec fn stringify_applied(r: Result<Step, ScriptError>, args: Seq<Value>) -> bool {
    if args.len() == 0 {
        r == Err::<Step, ScriptError>(ScriptError::MissingArgument)
    } else {
        match dispatch_spec(seq![args[0]], stringify_candidates_spec()) {
            Ok(k) => r == Ok::<Step, ScriptError>(Step::Text(k, args[0])),
            Err(e) => r == Err::<Step, ScriptError>(e),
        }
    }
}

#[verifier::opaque]
pub open spec fn rgb_applied(r: Result<Step, ScriptError>, args: Seq<Value>) -> bool {
    match color_spec(args, false) {
        Ok(c) => r == Ok::<Step, ScriptError>(Step::Color(c)),
        Err(e) => r == Err::<Step, ScriptError>(e),
    }
}

#[verifier::opaque]
pub open spec fn rgba_applied(r: Result<Step, ScriptError>, args: Seq<Value>) -> bool {
    match color_spec(args, true) {
        Ok(c) => r == Ok::<Step, ScriptError>(Step::Color(c)),
        Err(e) => r == Err::<Step, ScriptError>(e),
    }
}

#[verifier::opaque]
pub open spec fn plain_applied(r: Result<Step, ScriptError>, args: Seq<Value>) -> bool {
    gives_render(r) && plain_built(render_of(r), args)
}

#[verifier::opaque]
pub open spec fn frame_applied(r: Result<Step, ScriptError>, args: Seq<Value>) -> bool {
    gives_render(r) && frame_built(render_of(r), args)
}

#[verifier::opaque]
pub open spec fn sequence_applied(r: Result<Step, ScriptError>, args: Seq<Value>) -> bool {
    gives_render(r) && sequence_built(render_of(r), args)
}

#[verifier::opaque]
pub open spec fn image_render_applied(r: Result<Step, ScriptError>, args: Seq<Value>) -> bool {
    gives_render(r) && image_render_built(render_of(r), args)
}

#[verifier::opaque]
pub open spec fn composite_applied(r: Result<Step, ScriptError>, args: Seq<Value>) -> bool {
    gives_render(r) && composite_built(render_of(r), args)
}

#[verifier::opaque]
pub open spec fn transform_applied(r: Result<Step, ScriptError>, args: Seq<Value>) -> bool {
    gives_render(r) && transform_built(render_of(r), args)
}

#[verifier::opaque]
pub open spec fn path_applied(r: Result<Step, ScriptError>, args: Seq<Value>) -> bool {
    gives_timeline(r) && path_built(timeline_of(r), args)
}

#[verifier::opaque]
pub open spec fn cycle_applied(r: Result<Step, ScriptError>, args: Seq<Value>) -> bool {
    gives_timeline(r) && cycle_built(timeline_of(r), args)
}

#[verifier::opaque]
pub open spec fn sin_applied(r: Result<Step, ScriptError>, args: Seq<Value>) -> bool {
    gives_timeline(r) && sine_built(timeline_of(r), args)
}

#[verifier::opaque]
pub open spec fn text_to_image_applied(r: Result<Step, ScriptError>, args: Seq<Value>) -> bool {
    if args.len() < 2 {
        r == Err::<Step, ScriptError>(ScriptError::MissingArgument)
    } else {
        match (args[0], real_of(args[1])) {
            (Value::Str(s), Ok(x)) => r matches Ok(Step::TextToImage(t, y)) && t@ == s@ && y == x,
            (Value::Str(_), Err(e)) => r == Err::<Step, ScriptError>(e),
            _ => r == Err::<Step, ScriptError>(ScriptError::TypeMismatch),
        }
    }
}

#[verifier::opaque]
pub open spec fn import_image_applied(r: Result<Step, ScriptError>, args: Seq<Value>) -> bool {
    if args.len() == 0 {
        r == Err::<Step, ScriptError>(ScriptError::MissingArgument)
    } else {
        match args[0] {
            Value::Str(s) => r matches Ok(Step::ImportImage(t)) && t@ == s@,
            _ => r == Err::<Step, ScriptError>(ScriptError::TypeMismatch),
        }
    }
}

#[verifier::opaque]
pub open spec fn test_audio_applied(r: Result<Step, ScriptError>, args: Seq<Value>) -> bool {
    r == Ok::<Step, ScriptError>(Step::TestAudio)
}

/// What applying primitive `b` to `args` gives.
pub open spec fn apply_spec(r: Result<Step, ScriptError>, b: Builtin, args: Seq<Value>) -> bool {
    match b {
        Builtin::First => first_applied(r, args),
        Builtin::List => list_applied(r, args),
        Builtin::Add => add_applied(r, args),
        Builtin::Sub => sub_applied(r, args),
        Builtin::Mul => mul_applied(r, args),
        Builtin::Div => div_applied(r, args),
        Builtin::Stringify => stringify_applied(r, args),
        Builtin::Rgb => rgb_applied(r, args),
        Builtin::Rgba => rgba_applied(r, args),
        Builtin::Plain => plain_applied(r, args),
        Builtin::Frame => frame_applied(r, args),
        Builtin::Sequence => sequence_applied(r, args),
        Builtin::ImageRender => image_render_applied(r, args),
        Builtin::Composite => composite_applied(r, args),
        Builtin::Transform => transform_applied(r, args),
        Builtin::Path => path_applied(r, args),
        Builtin::Cycle => cycle_applied(r, args),
        Builtin::Sin => sin_applied(r, args),
        Builtin::TextToImage => text_to_image_applied(r, args),
        Builtin::ImportImage => import_image_applied(r, args),
        Builtin::TestAudio => test_audio_applied(r, args),
    }
}

fn done_render(r: Result<Render, ScriptError>) -> (s: Result<Step, ScriptError>)
    ensures
        gives_render(s),
        render_of(s) == r,
{
    match r {
        Ok(x) => Ok(Step::Done(Value::Render(x))),
        Err(e) => Err(e),
    }
}

fn done_timeline(r: Result<Timeline, ScriptError>) -> (s: Result<Step, ScriptError>)
    ensures
        gives_timeline(s),
        timeline_of(s) == r,
{
    match r {
        Ok(x) => Ok(Step::Done(Value::Timeline(x))),
        Err(e) => Err(e),
    }
}

fn arith_step(op: ArithOp, args: &Vec<Value>) -> (s: Result<Step, ScriptError>)
    ensures
        arith_applied(s, op, args@),
{
    match arithmetic(op, args) {
        Ok(a) => Ok(Step::Arith(op, a)),
        Err(e) => Err(e),
    }
}

fn color_step(args: &Vec<Value>, with_alpha: bool) -> (s: Result<Step, ScriptError>)
    ensures
        match color_spec(args@, with_alpha) {
            Ok(c) => s == Ok::<Step, ScriptError>(Step::Color(c)),
            Err(e) => s == Err::<Step, ScriptError>(e),
        },
{
    match color(args, with_alpha) {
        Ok(c) => Ok(Step::Color(c)),
        Err(e) => Err(e),
    }
}

fn apply_plain(args: Vec<Value>) -> (r: Result<Step, ScriptError>)
    ensures
        plain_applied(r, args@),
{
    reveal(plain_applied);
    done_render(plain(args))
}

fn apply_frame(args: Vec<Value>) -> (r: Result<Step, ScriptError>)
    ensures
        frame_applied(r, args@),
{
    reveal(frame_applied);
    done_render(frame(args))
}

fn apply_sequence(args: Vec<Value>) -> (r: Result<Step, ScriptError>)
    ensures
        sequence_applied(r, args@),
{
    reveal(sequence_applied);
    done_render(sequence(args))
}

fn apply_image_render(args: Vec<Value>) -> (r: Result<Step, ScriptError>)
    ensures
        image_render_applied(r, args@),
{
    reveal(image_render_applied);
    done_render(image_render(&args))
}

fn apply_composite(args: Vec<Value>) -> (r: Result<Step, ScriptError>)
    ensures
        composite_applied(r, args@),
{
    reveal(composite_applied);
    done_render(composite(args))
}

fn apply_transform(args: Vec<Value>) -> (r: Result<Step, ScriptError>)
    ensures
        transform_applied(r, args@),
{
    reveal(transform_applied);
    done_render(transform(args))
}

fn apply_path(args: Vec<Value>) -> (r: Result<Step, ScriptError>)
    ensures
        path_applied(r, args@),
{
    reveal(path_applied);
    done_timeline(path(&args))
}

fn apply_cycle(args: Vec<Value>) -> (r: Result<Step, ScriptError>)
    ensures
        cycle_applied(r, args@),
{
    reveal(cycle_applied);
    done_timeline(cycle(args))
}

fn apply_sin(args: Vec<Value>) -> (r: Result<Step, ScriptError>)
    ensures
        sin_applied(r, args@),
{
    reveal(sin_applied);
    done_timeline(sine(args))
}

fn apply_add(args: Vec<Value>) -> (r: Result<Step, ScriptError>)
    ensures
        add_applied(r, args@),
{
    reveal(add_applied);
    arith_step(ArithOp::Add, &args)
}

fn apply_sub(args: Vec<Value>) -> (r: Result<Step, ScriptError>)
    ensures
        sub_applied(r, args@),
{
    reveal(sub_applied);
    arith_step(ArithOp::Sub, &args)
}

fn apply_mul(args: Vec<Value>) -> (r: Result<Step, ScriptError>)
    ensures
        mul_applied(r, args@),
{
    reveal(mul_applied);
    arith_step(ArithOp::Mul, &args)
}

fn apply_div(args: Vec<Value>) -> (r: Result<Step, ScriptError>)
    ensures
        div_applied(r, args@),
{
    reveal(div_applied);
    arith_step(ArithOp::Div, &args)
}

fn apply_rgb(args: Vec<Value>) -> (r: Result<Step, ScriptError>)
    ensures
        rgb_applied(r, args@),
{
    reveal(rgb_applied);
    color_step(&args, false)
}

fn apply_rgba(args: Vec<Value>) -> (r: Result<Step, ScriptError>)
    ensures
        rgba_applied(r, args@),
{
    reveal(rgba_applied);
    color_step(&args, true)
}

fn apply_list(args: Vec<Value>) -> (r: Result<Step, ScriptError>)
    ensures
        list_applied(r, args@),
{
    reveal(list_applied);
    Ok(Step::Done(list(args)))
}

fn apply_test_audio(args: Vec<Value>) -> (r: Result<Step, ScriptError>)
    ensures
        test_audio_applied(r, args@),
{
    reveal(test_audio_applied);
    Ok(Step::TestAudio)
}

fn apply_first(args: Vec<Value>) -> (r: Result<Step, ScriptError>)
    ensures
        first_applied(r, args@),
{
    reveal(first_applied);
    match first(args) {
        Ok(v) => Ok(Step::Done(v)),
        Err(e) => Err(e),
    }
}

fn apply_stringify(args: Vec<Value>) -> (r: Result<Step, ScriptError>)
    ensures
        stringify_applied(r, args@),
{
    reveal(stringify_applied);
    match stringify_kind(&args) {
        Ok(k) => {
            let mut args = args;
            Ok(Step::Text(k, args.swap_remove(0)))
        },
        Err(e) => Err(e),
    }
}

fn apply_text_to_image(args: Vec<Value>) -> (r: Result<Step, ScriptError>)
    ensures
        text_to_image_applied(r, args@),
{
    reveal(text_to_image_applied);
    if args.len() < 2 {
        return Err(ScriptError::MissingArgument);
    }
    let text = match &args[0] {
        Value::Str(s) => s.clone(),
        _ => return Err(ScriptError::TypeMismatch),
    };
    match extract_real(&args[1]) {
        Ok(x) => Ok(Step::TextToImage(text, x)),
        Err(e) => Err(e),
    }
}

fn apply_import_image(args: Vec<Value>) -> (r: Result<Step, ScriptError>)
    ensures
        import_image_applied(r, args@),
{
    reveal(import_image_applied);
    if args.len() == 0 {
        return Err(ScriptError::MissingArgument);
    }
    match &args[0] {
        Value::Str(s) => Ok(Step::ImportImage(s.clone())),
        _ => Err(ScriptError::TypeMismatch),
    }
}

/// Applies primitive `b` to `args`.
pub fn apply(b: Builtin, args: Vec<Value>) -> (r: Result<Step, ScriptError>)
    ensures
        apply_spec(r, b, args@),
{
    match b {
        Builtin::Plain => apply_plain(args),
        Builtin::Frame => apply_frame(args),
        Builtin::Sequence => apply_sequence(args),
        Builtin::ImageRender => apply_image_render(args),
        Builtin::Composite => apply_composite(args),
        Builtin::Transform => apply_transform(args),
        Builtin::Path => apply_path(args),
        Builtin::Cycle => apply_cycle(args),
        Builtin::Sin => apply_sin(args),
        Builtin::Add => apply_add(args),
        Builtin::Sub => apply_sub(args),
        Builtin::Mul => apply_mul(args),
        Builtin::Div => apply_div(args),
        Builtin::Rgb => apply_rgb(args),
        Builtin::Rgba => apply_rgba(args),
        Builtin::List => apply_list(args),
        Builtin::TestAudio => apply_test_audio(args),
        Builtin::First => apply_first(args),
        Builtin::Stringify => apply_stringify(args),
        Builtin::TextToImage => apply_text_to_image(args),
        Builtin::ImportImage => apply_import_image(args),
    }
}

/// What calling `name` with `args` gives under the bindings `entries`.
pub open spec fn call_spec(
    r: Result<Step, ScriptError>,
    entries: Seq<(Seq<char>, Value)>,
    name: Seq<char>,
    args: Seq<Value>,
) -> bool {
    match lookup(entries, name) {
        Some(Value::Native(b)) => apply_spec(r, b, args),
        _ => r == Err::<Step, ScriptError>(ScriptError::TypeMismatch),
    }
}

proof fn lemma_fresh_lookups()
    ensures
        lookup(initial_entries(), "rgb"@) == Some(Value::Native(Builtin::Rgb)),
        lookup(initial_entries(), "composite"@) == Some(Value::Native(Builtin::Composite)),
        lookup(initial_entries(), "path"@) == Some(Value::Native(Builtin::Path)),
{
    reveal_strlit("true");
    reveal_strlit("false");
    reveal_strlit("first");
    reveal_strlit("vec");
    reveal_strlit("+");
    reveal_strlit("-");
    reveal_strlit("*");
    reveal_strlit("/");
    reveal_strlit("stringify");
    reveal_strlit("rgb");
    reveal_strlit("rgba");
    reveal_strlit("plain");
    reveal_strlit("frame");
    reveal_strlit("sequence");
    reveal_strlit("image_render");
    reveal_strlit("text_to_image");
    reveal_strlit("composite");
    reveal_strlit("path");
    reveal_strlit("cycle");
    reveal_strlit("sin");
    reveal_strlit("transform");
    reveal_strlit("test_audio");
    reveal_strlit("import_image");
    assert("rgba"@ != "rgb"@) by {
        assert("rgba"@.len() != "rgb"@.len() || "rgba"@[0] != "rgb"@[0]);
    }
    assert("plain"@ != "rgb"@) by {
        assert("plain"@.len() != "rgb"@.len() || "plain"@[0] != "rgb"@[0]);
    }
    assert("frame"@ != "rgb"@) by {
        assert("frame"@.len() != "rgb"@.len() || "frame"@[0] != "rgb"@[0]);
    }
    assert("sequence"@ != "rgb"@) by {
        assert("sequence"@.len() != "rgb"@.len() || "sequence"@[0] != "rgb"@[0]);
    }
    assert("image_render"@ != "rgb"@) by {
        assert("image_render"@.len() != "rgb"@.len() || "image_render"@[0] != "rgb"@[0]);
    }
    assert("text_to_image"@ != "rgb"@) by {
        assert("text_to_image"@.len() != "rgb"@.len() || "text_to_image"@[0] != "rgb"@[0]);
    }
    assert("composite"@ != "rgb"@) by {
        assert("composite"@.len() != "rgb"@.len() || "composite"@[0] != "rgb"@[0]);
    }
    assert("path"@ != "rgb"@) by {
        assert("path"@.len() != "rgb"@.len() || "path"@[0] != "rgb"@[0]);
    }
    assert("cycle"@ != "rgb"@) by {
        assert("cycle"@.len() != "rgb"@.len() || "cycle"@[0] != "rgb"@[0]);
    }
    assert("sin"@ != "rgb"@) by {
        assert("sin"@.len() != "rgb"@.len() || "sin"@[0] != "rgb"@[0]);
    }
    assert("transform"@ != "rgb"@) by {
        assert("transform"@.len() != "rgb"@.len() || "transform"@[0] != "rgb"@[0]);
    }
    assert("test_audio"@ != "rgb"@) by {
        assert("test_audio"@.len() != "rgb"@.len() || "test_audio"@[0] != "rgb"@[0]);
    }
    assert("import_image"@ != "rgb"@) by {
        assert("import_image"@.len() != "rgb"@.len() || "import_image"@[0] != "rgb"@[0]);
    }
    assert("path"@ != "composite"@) by {
        assert("path"@.len() != "composite"@.len() || "path"@[0] != "composite"@[0]);
    }
    assert("cycle"@ != "composite"@) by {
        assert("cycle"@.len() != "composite"@.len() || "cycle"@[0] != "composite"@[0]);
    }
    assert("sin"@ != "composite"@) by {
        assert("sin"@.len() != "composite"@.len() || "sin"@[0] != "composite"@[0]);
    }
    assert("transform"@ != "composite"@) by {
        assert("transform"@.len() != "composite"@.len() || "transform"@[0] != "composite"@[0]);
    }
    assert("test_audio"@ != "composite"@) by {
        assert("test_audio"@.len() != "composite"@.len() || "test_audio"@[0] != "composite"@[0]);
    }
    assert("import_image"@ != "composite"@) by {
        assert("import_image"@.len() != "composite"@.len() || "import_image"@[0] != "composite"@[0]);
    }
    assert("cycle"@ != "path"@) by {
        assert("cycle"@.len() != "path"@.len() || "cycle"@[0] != "path"@[0]);
    }
    assert("sin"@ != "path"@) by {
        assert("sin"@.len() != "path"@.len() || "sin"@[0] != "path"@[0]);
    }
    assert("transform"@ != "path"@) by {
        assert("transform"@.len() != "path"@.len() || "transform"@[0] != "path"@[0]);
    }
    assert("test_audio"@ != "path"@) by {
        assert("test_audio"@.len() != "path"@.len() || "test_audio"@[0] != "path"@[0]);
    }
    assert("import_image"@ != "path"@) by {
        assert("import_image"@.len() != "path"@.len() || "import_image"@[0] != "path"@[0]);
    }
    let e = initial_entries();
    assert(e[9] == ("rgb"@, Value::Native(Builtin::Rgb)));
    assert(e[16] == ("composite"@, Value::Native(Builtin::Composite)));
    assert(e[17] == ("path"@, Value::Native(Builtin::Path)));
    assert forall|j: int| 9 < j < e.len() implies e[j].0 != "rgb"@ by {
        assert(10 <= j <= 22);
    }
    assert forall|j: int| 16 < j < e.len() implies e[j].0 != "composite"@ by {
        assert(17 <= j <= 22);
    }
    assert forall|j: int| 17 < j < e.len() implies e[j].0 != "path"@ by {
        assert(18 <= j <= 22);
    }
    lemma_lookup_at(e, "rgb"@, 9);
    lemma_lookup_at(e, "composite"@, 16);
    lemma_lookup_at(e, "path"@, 17);
}

/// The last binding of `n` is the one found.
proof fn lemma_lookup_at(e: Seq<(Seq<char>, Value)>, n: Seq<char>, i: int)
    requires
        0 <= i < e.len(),
        e[i].0 == n,
        forall|j: int| i < j < e.len() ==> e[j].0 != n,
    ensures
        lookup(e, n) == Some(e[i].1),
    decreases e.len(),
{
    if e.len() - 1 != i {
        lemma_lookup_at(e.drop_last(), n, i);
    }
}

/// In a fresh runtime, `rgb` applied to a string without the hex pattern is an
/// `InvalidColorFormat`.
pub proof fn law_fresh_rgb_rejects_malformed(r: Result<Step, ScriptError>, args: Seq<Value>)
    requires
        call_spec(r, initial_entries(), "rgb"@, args),
        args.len() > 0,
        args[0] is Str,
        hex_spec(encode_utf8(args[0]->Str_0@), false) is Err,
    ensures
        r == Err::<Step, ScriptError>(ScriptError::InvalidColorFormat),
{
    lemma_fresh_lookups();
    reveal(rgb_applied);
}

/// In a fresh runtime, `composite` builds exactly what the `composite`
/// primitive builds; so a layer whose mode is neither `none` nor `normal` is
/// an `InvalidEnum`.
pub proof fn law_fresh_composite_routes(r: Result<Step, ScriptError>, args: Seq<Value>)
    requires
        call_spec(r, initial_entries(), "composite"@, args),
    ensures
        gives_render(r),
        composite_built(render_of(r), args),
{
    lemma_fresh_lookups();
    reveal(composite_applied);
}

/// In a fresh runtime, `composite` of one `(render, symbol)` layer whose
/// symbol is neither `none` nor `normal` is an `InvalidEnum`.
pub proof fn law_fresh_composite_rejects_unknown_mode(r: Result<Step, ScriptError>, args: Seq<Value>)
    requires
        call_spec(r, initial_entries(), "composite"@, args),
        args.len() == 1,
        args[0] is List,
        args[0]->List_0@.len() == 2,
        args[0]->List_0@[0] is Render,
        args[0]->List_0@[1] is Symbol,
        args[0]->List_0@[1]->Symbol_0@ != "none"@,
        args[0]->List_0@[1]->Symbol_0@ != "normal"@,
    ensures
        r == Err::<Step, ScriptError>(ScriptError::InvalidEnum),
{
    law_fresh_composite_routes(r, args);
    reveal_with_fuel(map_results, 2);
    assert(args.drop_last().len() == 0);
}

/// In a fresh runtime, `path` with no arguments is a `MissingArgument`.
pub proof fn law_fresh_path_needs_argument(r: Result<Step, ScriptError>, args: Seq<Value>)
    requires
        call_spec(r, initial_entries(), "path"@, args),
        args.len() == 0,
    ensures
        r == Err::<Step, ScriptError>(ScriptError::MissingArgument),
{
    lemma_fresh_lookups();
    reveal(path_applied);
}

/// A name bound last is found, whatever was bound before it.
pub proof fn law_get_after_insert(entries: Seq<(Seq<char>, Value)>, name: Seq<char>, val: Value)
    ensures
        lookup(entries.push((name, val)), name) == Some(val),
        forall|other: Seq<char>|
            other != name ==> #[trigger] lookup(entries.push((name, val)), other) == lookup(
                entries,
                other,
            ),
{
    assert(entries.push((name, val)).drop_last() == entries);
}

} // verus!
