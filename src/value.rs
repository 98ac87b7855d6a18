use vstd::prelude::*;
use crate::runtime::Builtin;
use crate::scene::Render;
use crate::timeline::{ElemKind, Timeline};

verus! {

/// A Float64 script value, held as its IEEE-754 bit pattern. The library only
/// moves such values around and inspects their sign; arithmetic on them is
/// left to the host.
#[derive(Clone, Copy, Debug, PartialEq, Eq, Structural)]
pub struct Real {
    pub bits: u64,
}

/// Largest bit pattern of a strictly positive double (positive infinity).
pub const POSITIVE_INFINITY_BITS: u64 = 0x7FF0_0000_0000_0000;

/// Bit pattern of the double -0.0.
pub const NEGATIVE_ZERO_BITS: u64 = 0x8000_0000_0000_0000;

impl Real {
    pub open spec fn is_non_negative_spec(self) -> bool {
        self.bits <= POSITIVE_INFINITY_BITS || self.bits == NEGATIVE_ZERO_BITS
    }

    /// True exactly when the double is `>= 0` (NaN is not; -0.0 is).
    pub fn is_non_negative(self) -> (r: bool)
        ensures
            r == self.is_non_negative_spec(),
    {
        self.bits <= POSITIVE_INFINITY_BITS || self.bits == NEGATIVE_ZERO_BITS
    }

    pub open spec fn is_positive_spec(self) -> bool {
        0 < self.bits <= POSITIVE_INFINITY_BITS
    }

    /// True exactly when the double is greater than zero (NaN is not).
    pub fn is_positive(self) -> (r: bool)
        ensures
            r == self.is_positive_spec(),
    {
        0 < self.bits && self.bits <= POSITIVE_INFINITY_BITS
    }
}

#[derive(Clone, Copy, Debug, PartialEq, Eq, Structural)]
pub struct Vec2 {
    pub x: Real,
    pub y: Real,
}

#[derive(Clone, Copy, Debug, PartialEq, Eq, Structural)]
pub struct Vec3 {
    pub x: Real,
    pub y: Real,
    pub z: Real,
}

/// An RGBA color with four unclamped channels.
#[derive(Clone, Copy, Debug, PartialEq, Eq, Structural)]
pub struct Color {
    pub r: Real,
    pub g: Real,
    pub b: Real,
    pub a: Real,
}

/// The ways a builtin call can fail.
#[derive(Clone, Copy, Debug, PartialEq, Eq, Structural)]
pub enum ScriptError {
    /// One argument did not have the type it was read as.
    TypeMismatch,
    /// No candidate type matched every argument.
    UnsupportedType,
    /// A color string did not hold the hex pattern.
    InvalidColorFormat,
    /// A symbol named no known interpolation, frame type or composite mode.
    InvalidEnum,
    /// The argument list was too short.
    MissingArgument,
    /// A segment's time step was negative or NaN, or a cycle duration was
    /// not strictly positive.
    InvalidDuration,
    /// Integer arithmetic overflowed or divided by zero.
    ArithmeticFault,
}

/// An image produced by the host (loaded from a file or rasterized text).
#[derive(Clone, Copy, Debug, PartialEq, Eq, Structural)]
pub struct ImageHandle {
    pub id: u64,
}

/// An audio source produced by the host.
#[derive(Clone, Copy, Debug, PartialEq, Eq, Structural)]
pub struct AudioHandle {
    pub id: u64,
}

/// A dynamically typed script value: exactly one of a closed set of types.
#[derive(Debug, PartialEq)]
pub enum Value {
    Bool(bool),
    Int32(i32),
    Float64(Real),
    Str(String),
    Symbol(String),
    Vector2(Vec2),
    Vector3(Vec3),
    Color(Color),
    List(Vec<Value>),
    Native(Builtin),
    Timeline(Timeline),
    Render(Render),
    Audio(AudioHandle),
    Image(ImageHandle),
}

/// The runtime type of a value; a timeline's type carries its element type.
#[derive(Clone, Copy, Debug, PartialEq, Eq, Structural)]
pub enum Kind {
    Bool,
    Int32,
    Float64,
    Str,
    Symbol,
    Vector2,
    Vector3,
    Color,
    List,
    Native,
    Timeline(ElemKind),
    Render,
    Audio,
    Image,
}

pub open spec fn kind_of(v: Value) -> Kind {
    match v {
        Value::Bool(_) => Kind::Bool,
        Value::Int32(_) => Kind::Int32,
        Value::Float64(_) => Kind::Float64,
        Value::Str(_) => Kind::Str,
        Value::Symbol(_) => Kind::Symbol,
        Value::Vector2(_) => Kind::Vector2,
        Value::Vector3(_) => Kind::Vector3,
        Value::Color(_) => Kind::Color,
        Value::List(_) => Kind::List,
        Value::Native(_) => Kind::Native,
        Value::Timeline(t) => Kind::Timeline(t.elem_kind_spec()),
        Value::Render(_) => Kind::Render,
        Value::Audio(_) => Kind::Audio,
        Value::Image(_) => Kind::Image,
    }
}

impl Value {
    /// The runtime type of this value.
    pub fn kind(&self) -> (r: Kind)
        ensures
            r == kind_of(*self),
    {
        match self {
            Value::Bool(_) => Kind::Bool,
            Value::Int32(_) => Kind::Int32,
            Value::Float64(_) => Kind::Float64,
            Value::Str(_) => Kind::Str,
            Value::Symbol(_) => Kind::Symbol,
            Value::Vector2(_) => Kind::Vector2,
            Value::Vector3(_) => Kind::Vector3,
            Value::Color(_) => Kind::Color,
            Value::List(_) => Kind::List,
            Value::Native(_) => Kind::Native,
            Value::Timeline(t) => Kind::Timeline(t.elem_kind()),
            Value::Render(_) => Kind::Render,
            Value::Audio(_) => Kind::Audio,
            Value::Image(_) => Kind::Image,
        }
    }
}

pub open spec fn real_of(v: Value) -> Result<Real, ScriptError> {
    match v {
        Value::Float64(x) => Ok(x),
        _ => Err(ScriptError::TypeMismatch),
    }
}

pub open spec fn color_of(v: Value) -> Result<Color, ScriptError> {
    match v {
        Value::Color(c) => Ok(c),
        _ => Err(ScriptError::TypeMismatch),
    }
}

pub open spec fn bool_of(v: Value) -> Result<bool, ScriptError> {
    match v {
        Value::Bool(b) => Ok(b),
        _ => Err(ScriptError::TypeMismatch),
    }
}

/// A list of exactly two Float64 values read as a vector.
pub open spec fn list_vec2_of(v: Value) -> Result<Vec2, ScriptError> {
    match v {
        Value::List(items) => if items.len() == 2 && items[0] is Float64 && items[1] is Float64 {
            Ok(Vec2 { x: items[0]->Float64_0, y: items[1]->Float64_0 })
        } else {
            Err(ScriptError::TypeMismatch)
        },
        _ => Err(ScriptError::TypeMismatch),
    }
}

/// A list of exactly three Float64 values read as a vector.
pub open spec fn list_vec3_of(v: Value) -> Result<Vec3, ScriptError> {
    match v {
        Value::List(items) => if items.len() == 3 && items[0] is Float64 && items[1] is Float64
            && items[2] is Float64 {
            Ok(
                Vec3 {
                    x: items[0]->Float64_0,
                    y: items[1]->Float64_0,
                    z: items[2]->Float64_0,
                },
            )
        } else {
            Err(ScriptError::TypeMismatch)
        },
        _ => Err(ScriptError::TypeMismatch),
    }
}

/// Reads a Float64.
pub fn extract_real(v: &Value) -> (r: Result<Real, ScriptError>)
    ensures
        r == real_of(*v),
{
    match v {
        Value::Float64(x) => Ok(*x),
        _ => Err(ScriptError::TypeMismatch),
    }
}

/// Reads a Color.
pub fn extract_color(v: &Value) -> (r: Result<Color, ScriptError>)
    ensures
        r == color_of(*v),
{
    match v {
        Value::Color(c) => Ok(*c),
        _ => Err(ScriptError::TypeMismatch),
    }
}

/// Reads a Boolean.
pub fn extract_bool(v: &Value) -> (r: Result<bool, ScriptError>)
    ensures
        r == bool_of(*v),
{
    match v {
        Value::Bool(b) => Ok(*b),
        _ => Err(ScriptError::TypeMismatch),
    }
}

/// Reads a two-element list of Float64 values as a vector.
pub fn extract_list_vec2(v: &Value) -> (r: Result<Vec2, ScriptError>)
    ensures
        r == list_vec2_of(*v),
{
    match v {
        Value::List(items) => {
            if items.len() == 2 {
                match (&items[0], &items[1]) {
                    (Value::Float64(x), Value::Float64(y)) => Ok(Vec2 { x: *x, y: *y }),
                    _ => Err(ScriptError::TypeMismatch),
                }
            } else {
                Err(ScriptError::TypeMismatch)
            }
        },
        _ => Err(ScriptError::TypeMismatch),
    }
}

/// Reads a three-element list of Float64 values as a vector.
pub fn extract_list_vec3(v: &Value) -> (r: Result<Vec3, ScriptError>)
    ensures
        r == list_vec3_of(*v),
{
    match v {
        Value::List(items) => {
            if items.len() == 3 {
                match (&items[0], &items[1], &items[2]) {
                    (Value::Float64(x), Value::Float64(y), Value::Float64(z)) => Ok(
                        Vec3 { x: *x, y: *y, z: *z },
                    ),
                    _ => Err(ScriptError::TypeMismatch),
                }
            } else {
                Err(ScriptError::TypeMismatch)
            }
        },
        _ => Err(ScriptError::TypeMismatch),
    }
}

/// `v` is the symbol `name`.
pub open spec fn is_symbol(v: Value, name: Seq<char>) -> bool {
    v matches Value::Symbol(s) && s@ == name
}

/// Whether a symbol's text is `name`.
pub fn symbol_is(s: &String, name: &str) -> (r: bool)
    ensures
        r == (s@ == name@),
{
    let n = name.to_owned();
    *s == n
}

/// The `first` primitive: its first argument.
pub fn first(args: Vec<Value>) -> (r: Result<Value, ScriptError>)
    ensures
        args.len() == 0 ==> r == Err::<Value, ScriptError>(ScriptError::MissingArgument),
        args.len() > 0 ==> r == Ok::<Value, ScriptError>(args@[0]),
{
    let mut args = args;
    if args.len() == 0 {
        return Err(ScriptError::MissingArgument);
    }
    Ok(args.swap_remove(0))
}

/// The `vec` primitive: its arguments as one list, in order.
pub fn list(args: Vec<Value>) -> (r: Value)
    ensures
        r matches Value::List(items) && items@ == args@,
{
    Value::List(args)
}

} // verus!
