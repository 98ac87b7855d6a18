use vstd::prelude::*;
use crate::value::{Kind, Real, ScriptError, Value, Vec2, Vec3, kind_of};

verus! {

pub open spec fn all_of_kind(args: Seq<Value>, k: Kind) -> bool {
    forall|i: int| 0 <= i < args.len() ==> kind_of(#[trigger] args[i]) == k
}

/// The first candidate that every argument has, tried in the given order.
pub open spec fn dispatch_spec(args: Seq<Value>, candidates: Seq<Kind>) -> Result<Kind, ScriptError>
    decreases candidates.len(),
{
    if candidates.len() == 0 {
        Err(ScriptError::UnsupportedType)
    } else if all_of_kind(args, candidates[0]) {
        Ok(candidates[0])
    } else {
        dispatch_spec(args, candidates.drop_first())
    }
}

/// Whether every argument has runtime type `k`.
pub fn all_of(args: &Vec<Value>, k: Kind) -> (r: bool)
    ensures
        r == all_of_kind(args@, k),
{
    let mut i: usize = 0;
    while i < args.len()
        invariant
            i <= args.len(),
            forall|j: int| 0 <= j < i ==> kind_of(#[trigger] args@[j]) == k,
        decreases args.len() - i,
    {
        if args[i].kind() != k {
            return false;
        }
        i = i + 1;
    }
    true
}

/// Picks the first candidate type that every argument has, or fails with
/// `UnsupportedType` when there is none.
pub fn dispatch(args: &Vec<Value>, candidates: &Vec<Kind>) -> (r: Result<Kind, ScriptError>)
    ensures
        r == dispatch_spec(args@, candidates@),
{
    let mut i: usize = 0;
    assert(candidates@.subrange(0, candidates@.len() as int) == candidates@);
    while i < candidates.len()
        invariant
            i <= candidates.len(),
            dispatch_spec(args@, candidates@) == dispatch_spec(
                args@,
                candidates@.subrange(i as int, candidates@.len() as int),
            ),
        decreases candidates.len() - i,
    {
        let ghost rest = candidates@.subrange(i as int, candidates@.len() as int);
        assert(rest.drop_first() == candidates@.subrange(i + 1, candidates@.len() as int));
        if all_of(args, candidates[i]) {
            return Ok(candidates[i]);
        }
        i = i + 1;
    }
    assert(candidates@.subrange(i as int, candidates@.len() as int).len() == 0);
    Err(ScriptError::UnsupportedType)
}

/// The order in which the arithmetic operators try types.
pub open spec fn numeric_candidates_spec() -> Seq<Kind> {
    seq![Kind::Float64, Kind::Int32, Kind::Vector2, Kind::Vector3]
}

pub fn numeric_candidates() -> (r: Vec<Kind>)
    ensures
        r@ == numeric_candidates_spec(),
{
    let r = vec![Kind::Float64, Kind::Int32, Kind::Vector2, Kind::Vector3];
    assert(r@ == numeric_candidates_spec());
    r
}

/// The four variadic arithmetic operators.
#[derive(Clone, Copy, Debug, PartialEq, Eq, Structural)]
pub enum ArithOp {
    Add,
    Sub,
    Mul,
    Div,
}

impl ArithOp {
    /// `-` and `/` start from their first argument and so need one.
    pub open spec fn needs_first(self) -> bool {
        self is Sub || self is Div
    }
}

pub open spec fn in_i32(x: int) -> bool {
    i32::MIN <= x <= i32::MAX
}

/// Division that rounds toward zero, as Rust's integer `/` does.
pub open spec fn trunc_div(a: int, b: int) -> int {
    let q = abs(a) / abs(b);
    if (a < 0) == (b < 0) {
        q
    } else {
        -q
    }
}

pub open spec fn abs(a: int) -> int {
    if a < 0 {
        -a
    } else {
        a
    }
}

/// One step of a fold: `acc op x`, or a fault when it divides by zero or
/// leaves the Int32 range.
pub open spec fn step_spec(op: ArithOp, acc: int, x: int) -> Result<int, ScriptError> {
    let v = match op {
        ArithOp::Add => acc + x,
        ArithOp::Sub => acc - x,
        ArithOp::Mul => acc * x,
        ArithOp::Div => if x == 0 {
            0
        } else {
            trunc_div(acc, x)
        },
    };
    if (op is Div && x == 0) || !in_i32(v) {
        Err(ScriptError::ArithmeticFault)
    } else {
        Ok(v)
    }
}

/// Left fold of `xs` into `acc`, stopping at the first fault.
pub open spec fn fold_from(op: ArithOp, acc: int, xs: Seq<i32>) -> Result<int, ScriptError>
    decreases xs.len(),
{
    if xs.len() == 0 {
        Ok(acc)
    } else {
        match fold_from(op, acc, xs.drop_last()) {
            Err(e) => Err(e),
            Ok(a) => step_spec(op, a, xs.last() as int),
        }
    }
}

/// `+` and `*` fold from their identity; `-` and `/` from the first argument.
pub open spec fn fold_int_spec(op: ArithOp, xs: Seq<i32>) -> Result<int, ScriptError> {
    match op {
        ArithOp::Add => fold_from(op, 0, xs),
        ArithOp::Mul => fold_from(op, 1, xs),
        _ => if xs.len() == 0 {
            Err(ScriptError::MissingArgument)
        } else {
            fold_from(op, xs[0] as int, xs.drop_first())
        },
    }
}

fn step(op: ArithOp, acc: i32, x: i32) -> (r: Result<i32, ScriptError>)
    ensures
        match (r, step_spec(op, acc as int, x as int)) {
            (Ok(a), Ok(b)) => a as int == b,
            (Err(e), Err(f)) => e == f,
            _ => false,
        },
{
    let a = acc as i64;
    let b = x as i64;
    let v: i64 = match op {
        ArithOp::Add => a + b,
        ArithOp::Sub => a - b,
        ArithOp::Mul => {
            assert(-0x8000_0000 * 0x8000_0000 <= a * b <= 0x8000_0000 * 0x8000_0000)
                by (nonlinear_arith)
                requires
                    -0x8000_0000 <= a <= 0x7FFF_FFFF,
                    -0x8000_0000 <= b <= 0x7FFF_FFFF,
            ;
            a * b
        },
        ArithOp::Div => {
            if b == 0 {
                return Err(ScriptError::ArithmeticFault);
            }
            let ua: u64 = if a < 0 {
                (-a) as u64
            } else {
                a as u64
            };
            let ub: u64 = if b < 0 {
                (-b) as u64
            } else {
                b as u64
            };
            let q = (ua / ub) as i64;
            if (a < 0) == (b < 0) {
                q
            } else {
                -q
            }
        },
    };
    if v < i32::MIN as i64 || v > i32::MAX as i64 {
        Err(ScriptError::ArithmeticFault)
    } else {
        Ok(v as i32)
    }
}

/// Folds Int32 operands with `op`.
pub fn fold_int(op: ArithOp, xs: &Vec<i32>) -> (r: Result<i32, ScriptError>)
    ensures
        match (r, fold_int_spec(op, xs@)) {
            (Ok(a), Ok(b)) => a as int == b,
            (Err(e), Err(f)) => e == f,
            _ => false,
        },
{
    let start: usize;
    let mut acc: i32;
    match op {
        ArithOp::Add => {
            start = 0;
            acc = 0;
        },
        ArithOp::Mul => {
            start = 0;
            acc = 1;
        },
        _ => {
            if xs.len() == 0 {
                return Err(ScriptError::MissingArgument);
            }
            start = 1;
            acc = xs[0];
        },
    }
    let ghost init: int = acc as int;
    let ghost tail: Seq<i32> = xs@.subrange(start as int, xs@.len() as int);
    assert(fold_int_spec(op, xs@) == fold_from(op, init, tail)) by {
        if start == 1 {
            assert(tail == xs@.drop_first());
        } else {
            assert(tail == xs@);
        }
    }
    let mut i: usize = start;
    assert(xs@.subrange(start as int, start as int).len() == 0);
    while i < xs.len()
        invariant
            start <= i <= xs.len(),
            tail == xs@.subrange(start as int, xs@.len() as int),
            fold_int_spec(op, xs@) == fold_from(op, init, tail),
            fold_from(op, init, xs@.subrange(start as int, i as int)) == Ok::<int, ScriptError>(acc as int),
        decreases xs.len() - i,
    {
        let ghost pre = xs@.subrange(start as int, i as int);
        assert(xs@.subrange(start as int, i + 1).drop_last() == pre);
        match step(op, acc, xs[i]) {
            Ok(v) => acc = v,
            Err(e) => {
                proof {
                    assert(tail.subrange(0, i - start) == pre);
                    assert(tail[i - start] == xs@[i as int]);
                    lemma_fold_error_stays(op, init, tail, (i - start) as int);
                }
                return Err(e);
            },
        }
        i = i + 1;
    }
    assert(xs@.subrange(start as int, i as int) == tail);
    Ok(acc)
}

pub open spec fn ints_of(args: Seq<Value>) -> Seq<i32> {
    args.map_values(|v: Value| v->Int32_0)
}

fn collect_ints(args: &Vec<Value>) -> (r: Vec<i32>)
    requires
        all_of_kind(args@, Kind::Int32),
    ensures
        r@ == ints_of(args@),
{
    let mut r: Vec<i32> = Vec::new();
    let mut i: usize = 0;
    while i < args.len()
        invariant
            i <= args.len(),
            all_of_kind(args@, Kind::Int32),
            r@.len() == i,
            forall|j: int| 0 <= j < i ==> r@[j] == #[trigger] args@[j]->Int32_0,
        decreases args.len() - i,
    {
        assert(kind_of(args@[i as int]) == Kind::Int32);
        match &args[i] {
            Value::Int32(x) => r.push(*x),
            _ => {},
        }
        i = i + 1;
    }
    assert(r@ =~= ints_of(args@));
    r
}

pub open spec fn reals_of(args: Seq<Value>) -> Seq<Real> {
    args.map_values(|v: Value| v->Float64_0)
}

fn collect_reals(args: &Vec<Value>) -> (r: Vec<Real>)
    requires
        all_of_kind(args@, Kind::Float64),
    ensures
        r@ == reals_of(args@),
{
    let mut r: Vec<Real> = Vec::new();
    let mut i: usize = 0;
    while i < args.len()
        invariant
            i <= args.len(),
            all_of_kind(args@, Kind::Float64),
            r@.len() == i,
            forall|j: int| 0 <= j < i ==> r@[j] == #[trigger] args@[j]->Float64_0,
        decreases args.len() - i,
    {
        assert(kind_of(args@[i as int]) == Kind::Float64);
        match &args[i] {
            Value::Float64(x) => r.push(*x),
            _ => {},
        }
        i = i + 1;
    }
    assert(r@ =~= reals_of(args@));
    r
}

pub open spec fn vec2s_of(args: Seq<Value>) -> Seq<Vec2> {
    args.map_values(|v: Value| v->Vector2_0)
}

fn collect_vec2s(args: &Vec<Value>) -> (r: Vec<Vec2>)
    requires
        all_of_kind(args@, Kind::Vector2),
    ensures
        r@ == vec2s_of(args@),
{
    let mut r: Vec<Vec2> = Vec::new();
    let mut i: usize = 0;
    while i < args.len()
        invariant
            i <= args.len(),
            all_of_kind(args@, Kind::Vector2),
            r@.len() == i,
            forall|j: int| 0 <= j < i ==> r@[j] == #[trigger] args@[j]->Vector2_0,
        decreases args.len() - i,
    {
        assert(kind_of(args@[i as int]) == Kind::Vector2);
        match &args[i] {
            Value::Vector2(x) => r.push(*x),
            _ => {},
        }
        i = i + 1;
    }
    assert(r@ =~= vec2s_of(args@));
    r
}

pub open spec fn vec3s_of(args: Seq<Value>) -> Seq<Vec3> {
    args.map_values(|v: Value| v->Vector3_0)
}

fn collect_vec3s(args: &Vec<Value>) -> (r: Vec<Vec3>)
    requires
        all_of_kind(args@, Kind::Vector3),
    ensures
        r@ == vec3s_of(args@),
{
    let mut r: Vec<Vec3> = Vec::new();
    let mut i: usize = 0;
    while i < args.len()
        invariant
            i <= args.len(),
            all_of_kind(args@, Kind::Vector3),
            r@.len() == i,
            forall|j: int| 0 <= j < i ==> r@[j] == #[trigger] args@[j]->Vector3_0,
        decreases args.len() - i,
    {
        assert(kind_of(args@[i as int]) == Kind::Vector3);
        match &args[i] {
            Value::Vector3(x) => r.push(*x),
            _ => {},
        }
        i = i + 1;
    }
    assert(r@ =~= vec3s_of(args@));
    r
}

/// The operands of an arithmetic call, read at the type that dispatch chose.
/// Int32 operands are folded here; Float64 and vector operands are handed on,
/// in order, to be folded with floating-point arithmetic.
#[derive(Clone, Debug, PartialEq, Eq)]
pub enum Arith {
    Int32(i32),
    Float64(Vec<Real>),
    Vector2(Vec<Vec2>),
    Vector3(Vec<Vec3>),
}

/// What `op(args...)` yields once dispatch has chosen a type.
pub open spec fn arith_spec(r: Result<Arith, ScriptError>, op: ArithOp, args: Seq<Value>) -> bool {
    if op.needs_first() && args.len() == 0 {
        r == Err::<Arith, ScriptError>(ScriptError::MissingArgument)
    } else {
        match dispatch_spec(args, numeric_candidates_spec()) {
            Err(e) => r == Err::<Arith, ScriptError>(e),
            Ok(Kind::Int32) => match (r, fold_int_spec(op, ints_of(args))) {
                (Ok(Arith::Int32(a)), Ok(b)) => a as int == b,
                (Err(e), Err(f)) => e == f,
                _ => false,
            },
            Ok(Kind::Float64) => r matches Ok(Arith::Float64(xs)) && xs@ == reals_of(args),
            Ok(Kind::Vector2) => r matches Ok(Arith::Vector2(xs)) && xs@ == vec2s_of(args),
            Ok(_) => r matches Ok(Arith::Vector3(xs)) && xs@ == vec3s_of(args),
        }
    }
}

/// The arithmetic operators `+ - * /`: dispatch over Float64, Int32, Vector2,
/// Vector3 in that order, then fold.
pub fn arithmetic(op: ArithOp, args: &Vec<Value>) -> (r: Result<Arith, ScriptError>)
    ensures
        arith_spec(r, op, args@),
{
    if (op == ArithOp::Sub || op == ArithOp::Div) && args.len() == 0 {
        return Err(ScriptError::MissingArgument);
    }
    let candidates = numeric_candidates();
    let k = dispatch(args, &candidates);
    proof {
        lemma_numeric_dispatch_chooses(args@);
    }
    match k {
        Err(e) => Err(e),
        Ok(Kind::Int32) => match fold_int(op, &collect_ints(args)) {
            Ok(a) => Ok(Arith::Int32(a)),
            Err(e) => Err(e),
        },
        Ok(Kind::Float64) => Ok(Arith::Float64(collect_reals(args))),
        Ok(Kind::Vector2) => Ok(Arith::Vector2(collect_vec2s(args))),
        Ok(_) => Ok(Arith::Vector3(collect_vec3s(args))),
    }
}

/// Numeric dispatch, when it succeeds, picks one of the four numeric types and
/// every argument has it.
proof fn lemma_numeric_dispatch_chooses(args: Seq<Value>)
    ensures
        dispatch_spec(args, numeric_candidates_spec()) matches Ok(k) ==> {
            &&& all_of_kind(args, k)
            &&& (k == Kind::Float64 || k == Kind::Int32 || k == Kind::Vector2 || k == Kind::Vector3)
        },
{
    reveal_with_fuel(dispatch_spec, 5);
}

/// A fold that has faulted stays faulted as more operands come.
proof fn lemma_fold_error_stays(op: ArithOp, init: int, xs: Seq<i32>, n: int)
    requires
        0 <= n < xs.len(),
        fold_from(op, init, xs.subrange(0, n)) is Ok,
        step_spec(op, fold_from(op, init, xs.subrange(0, n))->Ok_0, xs[n] as int) is Err,
    ensures
        fold_from(op, init, xs) == Err::<int, ScriptError>(ScriptError::ArithmeticFault),
    decreases xs.len(),
{
    assert(xs.subrange(0, n + 1).drop_last() == xs.subrange(0, n));
    if xs.len() == n + 1 {
        assert(xs.subrange(0, n + 1) == xs);
    } else {
        assert(xs.drop_last().subrange(0, n) == xs.subrange(0, n));
        lemma_fold_error_stays(op, init, xs.drop_last(), n);
    }
}

} // verus!

verus! {

/// The numeric type an arithmetic result was computed at.
pub open spec fn arith_kind(a: Arith) -> Kind {
    match a {
        Arith::Int32(_) => Kind::Int32,
        Arith::Float64(_) => Kind::Float64,
        Arith::Vector2(_) => Kind::Vector2,
        Arith::Vector3(_) => Kind::Vector3,
    }
}

/// Arguments that all have one numeric type resolve to that type's operation:
/// every operator yields a result of that type, and only Int32 arithmetic can
/// fail.
pub proof fn law_uniform_arguments_dispatch(args: Seq<Value>, k: Kind)
    requires
        args.len() > 0,
        k == Kind::Float64 || k == Kind::Int32 || k == Kind::Vector2 || k == Kind::Vector3,
        all_of_kind(args, k),
    ensures
        dispatch_spec(args, numeric_candidates_spec()) == Ok::<Kind, ScriptError>(k),
        forall|op: ArithOp, r: Result<Arith, ScriptError>|
            #[trigger] arith_spec(r, op, args) ==> match r {
                Ok(a) => arith_kind(a) == k,
                Err(_) => k == Kind::Int32,
            },
{
    reveal_with_fuel(dispatch_spec, 5);
    assert(kind_of(args[0]) == k);
}

/// Arguments of two different types match no candidate.
pub proof fn law_mixed_arguments_unsupported(args: Seq<Value>, i: int, j: int)
    requires
        0 <= i < args.len(),
        0 <= j < args.len(),
        kind_of(args[i]) != kind_of(args[j]),
    ensures
        dispatch_spec(args, numeric_candidates_spec()) == Err::<Kind, ScriptError>(
            ScriptError::UnsupportedType,
        ),
        forall|op: ArithOp, r: Result<Arith, ScriptError>|
            #[trigger] arith_spec(r, op, args) ==> r == Err::<Arith, ScriptError>(
                ScriptError::UnsupportedType,
            ),
{
    reveal_with_fuel(dispatch_spec, 5);
}

/// `+` and `*` with no arguments give the identity of the first candidate type
/// (an empty Float64 fold), and over Int32 operands they start from 0 and 1.
pub proof fn law_fold_identities(r: Result<Arith, ScriptError>, op: ArithOp)
    requires
        op is Add || op is Mul,
        arith_spec(r, op, Seq::empty()),
    ensures
        r matches Ok(Arith::Float64(xs)) && xs@.len() == 0,
        fold_int_spec(ArithOp::Add, Seq::empty()) == Ok::<int, ScriptError>(0),
        fold_int_spec(ArithOp::Mul, Seq::empty()) == Ok::<int, ScriptError>(1),
{
    reveal_with_fuel(dispatch_spec, 2);
    assert(all_of_kind(Seq::<Value>::empty(), Kind::Float64));
    assert(reals_of(Seq::empty()).len() == 0);
}

} // verus!

verus! {

/// The order in which `stringify` tries types for its first argument.
pub open spec fn stringify_candidates_spec() -> Seq<Kind> {
    seq![
        Kind::Str,
        Kind::Symbol,
        Kind::Float64,
        Kind::Int32,
        Kind::Vector2,
        Kind::Vector3,
        Kind::Color,
    ]
}

/// The type at which `stringify` renders its first argument; later arguments
/// are not looked at.
pub fn stringify_kind(args: &Vec<Value>) -> (r: Result<Kind, ScriptError>)
    ensures
        args.len() == 0 ==> r == Err::<Kind, ScriptError>(ScriptError::MissingArgument),
        args.len() > 0 ==> r == dispatch_spec(seq![args@[0]], stringify_candidates_spec()),
{
    if args.len() == 0 {
        return Err(ScriptError::MissingArgument);
    }
    let candidates = vec![
        Kind::Str,
        Kind::Symbol,
        Kind::Float64,
        Kind::Int32,
        Kind::Vector2,
        Kind::Vector3,
        Kind::Color,
    ];
    assert(candidates@ == stringify_candidates_spec());
    let k = args[0].kind();
    let r = if candidates_contains(&candidates, k) {
        Ok(k)
    } else {
        Err(ScriptError::UnsupportedType)
    };
    proof {
        reveal_with_fuel(dispatch_spec, 8);
        assert(all_of_kind(seq![args@[0]], k));
        assert forall|c: Kind| c != k implies !all_of_kind(seq![args@[0]], c) by {
            assert(kind_of(seq![args@[0]][0]) == k);
        }
    }
    r
}

fn candidates_contains(candidates: &Vec<Kind>, k: Kind) -> (r: bool)
    ensures
        r == candidates@.contains(k),
{
    let mut i: usize = 0;
    while i < candidates.len()
        invariant
            i <= candidates.len(),
            forall|j: int| 0 <= j < i ==> candidates@[j] != k,
        decreases candidates.len() - i,
    {
        if candidates[i] == k {
            assert(candidates@[i as int] == k);
            return true;
        }
        i = i + 1;
    }
    false
}

} // verus!

verus! {

/// The plain sum of a list of integers.
pub open spec fn sum_of(xs: Seq<i32>) -> int
    decreases xs.len(),
{
    if xs.len() == 0 {
        0
    } else {
        sum_of(xs.drop_last()) + xs.last()
    }
}

/// The plain product of a list of integers.
pub open spec fn product_of(xs: Seq<i32>) -> int
    decreases xs.len(),
{
    if xs.len() == 0 {
        1
    } else {
        product_of(xs.drop_last()) * xs.last()
    }
}

/// Starting from `a`, adding (or subtracting) each prefix of `xs` stays in
/// the Int32 range.
pub open spec fn running_sums_fit(a: int, xs: Seq<i32>, subtract: bool) -> bool {
    forall|k: int|
        0 <= k <= xs.len() ==> in_i32(
            if subtract {
                a - sum_of(#[trigger] xs.subrange(0, k))
            } else {
                a + sum_of(xs.subrange(0, k))
            },
        )
}

/// Each prefix product of `xs` stays in the Int32 range.
pub open spec fn running_products_fit(xs: Seq<i32>) -> bool {
    forall|k: int| 0 <= k <= xs.len() ==> in_i32(product_of(#[trigger] xs.subrange(0, k)))
}

proof fn lemma_fold_sum(a: int, xs: Seq<i32>, subtract: bool)
    requires
        running_sums_fit(a, xs, subtract),
    ensures
        fold_from(if subtract { ArithOp::Sub } else { ArithOp::Add }, a, xs) == Ok::<int, ScriptError>(
            if subtract {
                a - sum_of(xs)
            } else {
                a + sum_of(xs)
            },
        ),
    decreases xs.len(),
{
    if xs.len() > 0 {
        let p = xs.drop_last();
        assert forall|k: int| 0 <= k <= p.len() implies #[trigger] p.subrange(0, k) == xs.subrange(0, k) by {
            assert(p.subrange(0, k) =~= xs.subrange(0, k));
        }
        assert(running_sums_fit(a, p, subtract)) by {
            assert forall|k: int| 0 <= k <= p.len() implies in_i32(
                if subtract {
                    a - sum_of(#[trigger] p.subrange(0, k))
                } else {
                    a + sum_of(p.subrange(0, k))
                },
            ) by {
                assert(p.subrange(0, k) == xs.subrange(0, k));
            }
        }
        lemma_fold_sum(a, p, subtract);
        assert(xs.subrange(0, xs.len() as int) == xs);
    }
}

proof fn lemma_fold_product(xs: Seq<i32>)
    requires
        running_products_fit(xs),
    ensures
        fold_from(ArithOp::Mul, 1, xs) == Ok::<int, ScriptError>(product_of(xs)),
    decreases xs.len(),
{
    if xs.len() > 0 {
        let p = xs.drop_last();
        assert(running_products_fit(p)) by {
            assert forall|k: int| 0 <= k <= p.len() implies in_i32(product_of(#[trigger] p.subrange(0, k))) by {
                assert(p.subrange(0, k) =~= xs.subrange(0, k));
            }
        }
        lemma_fold_product(p);
        assert(xs.subrange(0, xs.len() as int) == xs);
    }
}

/// Over Int32 operands whose running results stay in range, `+` is the plain
/// sum, `*` the plain product, and `-` the first operand minus the sum of the
/// rest.
pub proof fn law_int_folds_are_plain(xs: Seq<i32>)
    ensures
        running_sums_fit(0, xs, false) ==> fold_int_spec(ArithOp::Add, xs) == Ok::<int, ScriptError>(
            sum_of(xs),
        ),
        running_products_fit(xs) ==> fold_int_spec(ArithOp::Mul, xs) == Ok::<int, ScriptError>(
            product_of(xs),
        ),
        xs.len() > 0 && running_sums_fit(xs[0] as int, xs.drop_first(), true) ==> fold_int_spec(
            ArithOp::Sub,
            xs,
        ) == Ok::<int, ScriptError>(xs[0] - sum_of(xs.drop_first())),
{
    if running_sums_fit(0, xs, false) {
        lemma_fold_sum(0, xs, false);
    }
    if running_products_fit(xs) {
        lemma_fold_product(xs);
    }
    if xs.len() > 0 && running_sums_fit(xs[0] as int, xs.drop_first(), true) {
        lemma_fold_sum(xs[0] as int, xs.drop_first(), true);
    }
}

/// One Int32 operand comes back unchanged from `+` and `*`, keeping its type.
pub proof fn law_single_int_operand(r: Result<Arith, ScriptError>, op: ArithOp, n: i32)
    requires
        op is Add || op is Mul,
        arith_spec(r, op, seq![Value::Int32(n)]),
    ensures
        r == Ok::<Arith, ScriptError>(Arith::Int32(n)),
{
    let args = seq![Value::Int32(n)];
    reveal_with_fuel(dispatch_spec, 3);
    assert(!all_of_kind(args, Kind::Float64)) by {
        assert(kind_of(args[0]) == Kind::Int32);
    }
    assert(all_of_kind(args, Kind::Int32));
    assert(ints_of(args) =~= seq![n]);
    assert(seq![n].drop_last() =~= Seq::<i32>::empty());
    reveal_with_fuel(fold_from, 2);
}

} // verus!
