use vstd::prelude::*;
use crate::identity::Dependency;
use crate::reply::{Cell, Coordinate, Entry, entry};

verus! {

/// How many dependency calls a successful evaluation makes.
pub const STEPS: usize = 9;

/// A request to one dependency: which one, and the JSON object it is sent.
pub struct Call {
    pub dependency: Dependency,
    pub payload: Vec<Entry>,
}

pub struct CallView {
    pub dependency: Dependency,
    pub payload: Seq<Entry>,
}

impl View for Call {
    type V = CallView;

    open spec fn view(&self) -> CallView {
        CallView { dependency: self.dependency, payload: self.payload@ }
    }
}

/// A call of a two-operand dependency, sent `{"a": .., "b": ..}`.
pub open spec fn binary_call(dependency: Dependency, a: Cell, b: Cell) -> CallView {
    CallView { dependency, payload: seq![entry("a", a), entry("b", b)] }
}

/// A call of a one-operand dependency, sent `{"value": ..}`.
pub open spec fn unary_call(dependency: Dependency, value: Cell) -> CallView {
    CallView { dependency, payload: seq![entry("value", value)] }
}

pub open spec fn coord(c: Coordinate) -> Cell {
    Cell::Coordinate(c)
}

pub open spec fn answer(k: usize) -> Cell {
    Cell::Answer(k)
}

/// The calls of an evaluation, in order: the three differences (second point
/// minus first), their squares, the sum `(dx² + dy²) + dz²`, and its square root.
pub open spec fn planned(k: int) -> CallView {
    if k == 0 {
        binary_call(Dependency::FloatSubtract, coord(Coordinate::X2), coord(Coordinate::X1))
    } else if k == 1 {
        binary_call(Dependency::FloatSubtract, coord(Coordinate::Y2), coord(Coordinate::Y1))
    } else if k == 2 {
        binary_call(Dependency::FloatSubtract, coord(Coordinate::Z2), coord(Coordinate::Z1))
    } else if k == 3 {
        binary_call(Dependency::FloatMultiply, answer(0), answer(0))
    } else if k == 4 {
        binary_call(Dependency::FloatMultiply, answer(1), answer(1))
    } else if k == 5 {
        binary_call(Dependency::FloatMultiply, answer(2), answer(2))
    } else if k == 6 {
        binary_call(Dependency::FloatAdd, answer(3), answer(4))
    } else if k == 7 {
        binary_call(Dependency::FloatAdd, answer(6), answer(5))
    } else {
        unary_call(Dependency::Sqrt, answer(7))
    }
}

fn binary(dependency: Dependency, a: Cell, b: Cell) -> (call: Call)
    ensures
        call@ == binary_call(dependency, a, b),
{
    let mut payload: Vec<Entry> = Vec::new();
    payload.push(Entry { key: "a", cell: a });
    payload.push(Entry { key: "b", cell: b });
    assert(payload@ =~= seq![entry("a", a), entry("b", b)]);
    Call { dependency, payload }
}

fn unary(dependency: Dependency, value: Cell) -> (call: Call)
    ensures
        call@ == unary_call(dependency, value),
{
    let mut payload: Vec<Entry> = Vec::new();
    payload.push(Entry { key: "value", cell: value });
    assert(payload@ =~= seq![entry("value", value)]);
    Call { dependency, payload }
}

/// The call made at step `k` of an evaluation.
pub fn call_at(k: usize) -> (call: Call)
    requires
        k < STEPS,
    ensures
        call@ == planned(k as int),
{
    if k == 0 {
        binary(Dependency::FloatSubtract, Cell::Coordinate(Coordinate::X2), Cell::Coordinate(Coordinate::X1))
    } else if k == 1 {
        binary(Dependency::FloatSubtract, Cell::Coordinate(Coordinate::Y2), Cell::Coordinate(Coordinate::Y1))
    } else if k == 2 {
        binary(Dependency::FloatSubtract, Cell::Coordinate(Coordinate::Z2), Cell::Coordinate(Coordinate::Z1))
    } else if k == 3 {
        binary(Dependency::FloatMultiply, Cell::Answer(0), Cell::Answer(0))
    } else if k == 4 {
        binary(Dependency::FloatMultiply, Cell::Answer(1), Cell::Answer(1))
    } else if k == 5 {
        binary(Dependency::FloatMultiply, Cell::Answer(2), Cell::Answer(2))
    } else if k == 6 {
        binary(Dependency::FloatAdd, Cell::Answer(3), Cell::Answer(4))
    } else if k == 7 {
        binary(Dependency::FloatAdd, Cell::Answer(6), Cell::Answer(5))
    } else {
        unary(Dependency::Sqrt, Cell::Answer(7))
    }
}

/// A term over the request's coordinates, built from the operations that the
/// dependencies perform: `floatsubtract` answers `a - b`, `floatmultiply`
/// `a * b`, `floatadd` `a + b`, and `sqrt` the square root of `value`.
pub enum Expr {
    Coord(Coordinate),
    Difference(Box<Expr>, Box<Expr>),
    Product(Box<Expr>, Box<Expr>),
    Sum(Box<Expr>, Box<Expr>),
    Root(Box<Expr>),
    /// An operand that the call does not supply.
    Missing,
}

/// The cell sent under `key`, if the payload has that key (first occurrence).
pub open spec fn field(payload: Seq<Entry>, key: &'static str) -> Option<Cell>
    decreases payload.len(),
{
    if payload.len() == 0 {
        None
    } else if payload[0].key == key {
        Some(payload[0].cell)
    } else {
        field(payload.drop_first(), key)
    }
}

/// What an operand of the call at step `k` stands for: a coordinate, or what
/// an earlier call answered.
pub open spec fn operand_meaning(cell: Option<Cell>, k: nat) -> Expr
    decreases k, 0nat,
{
    match cell {
        Some(Cell::Coordinate(c)) => Expr::Coord(c),
        Some(Cell::Answer(j)) => if (j as nat) < k {
            answer_meaning(j as nat)
        } else {
            Expr::Missing
        },
        _ => Expr::Missing,
    }
}

/// What the call at step `k` answers, in terms of the coordinates, given the
/// operation that its dependency performs on the operands it is sent.
pub open spec fn answer_meaning(k: nat) -> Expr
    decreases k, 1nat,
{
    let call = planned(k as int);
    let a = operand_meaning(field(call.payload, "a"), k);
    let b = operand_meaning(field(call.payload, "b"), k);
    match call.dependency {
        Dependency::FloatSubtract => Expr::Difference(Box::new(a), Box::new(b)),
        Dependency::FloatMultiply => Expr::Product(Box::new(a), Box::new(b)),
        Dependency::FloatAdd => Expr::Sum(Box::new(a), Box::new(b)),
        Dependency::Sqrt => Expr::Root(Box::new(operand_meaning(field(call.payload, "value"), k))),
    }
}

pub open spec fn delta(to: Coordinate, from: Coordinate) -> Expr {
    Expr::Difference(Box::new(Expr::Coord(to)), Box::new(Expr::Coord(from)))
}

pub open spec fn square(e: Expr) -> Expr {
    Expr::Product(Box::new(e), Box::new(e))
}

/// The Euclidean distance between (x1, y1, z1) and (x2, y2, z2):
/// `sqrt(((x2 - x1)² + (y2 - y1)²) + (z2 - z1)²)`.
pub open spec fn distance_expr() -> Expr {
    Expr::Root(
        Box::new(
            Expr::Sum(
                Box::new(
                    Expr::Sum(
                        Box::new(square(delta(Coordinate::X2, Coordinate::X1))),
                        Box::new(square(delta(Coordinate::Y2, Coordinate::Y1))),
                    ),
                ),
                Box::new(square(delta(Coordinate::Z2, Coordinate::Z1))),
            ),
        ),
    )
}

/// The operations that the dependencies perform, on values of some type `V`.
#[verifier::reject_recursive_types(V)]
pub struct Arithmetic<V> {
    pub sub: spec_fn(V, V) -> V,
    pub mul: spec_fn(V, V) -> V,
    pub add: spec_fn(V, V) -> V,
    pub root: spec_fn(V) -> V,
}

/// The value of a term, given the value of each coordinate and the operations;
/// `None` where the term has a missing operand.
pub open spec fn value_of<V>(e: Expr, at: spec_fn(Coordinate) -> V, ops: Arithmetic<V>) -> Option<V>
    decreases e,
{
    match e {
        Expr::Coord(c) => Some(at(c)),
        Expr::Difference(a, b) => match (value_of(*a, at, ops), value_of(*b, at, ops)) {
            (Some(x), Some(y)) => Some((ops.sub)(x, y)),
            _ => None,
        },
        Expr::Product(a, b) => match (value_of(*a, at, ops), value_of(*b, at, ops)) {
            (Some(x), Some(y)) => Some((ops.mul)(x, y)),
            _ => None,
        },
        Expr::Sum(a, b) => match (value_of(*a, at, ops), value_of(*b, at, ops)) {
            (Some(x), Some(y)) => Some((ops.add)(x, y)),
            _ => None,
        },
        Expr::Root(a) => match value_of(*a, at, ops) {
            Some(x) => Some((ops.root)(x)),
            None => None,
        },
        Expr::Missing => None,
    }
}

/// The coordinate of the other point on the same axis.
pub open spec fn mirror(c: Coordinate) -> Coordinate {
    match c {
        Coordinate::X1 => Coordinate::X2,
        Coordinate::Y1 => Coordinate::Y2,
        Coordinate::Z1 => Coordinate::Z2,
        Coordinate::X2 => Coordinate::X1,
        Coordinate::Y2 => Coordinate::Y1,
        Coordinate::Z2 => Coordinate::Z1,
    }
}

/// The coordinates with the two points swapped.
pub open spec fn swapped<V>(at: spec_fn(Coordinate) -> V) -> spec_fn(Coordinate) -> V {
    |c: Coordinate| at(mirror(c))
}

/// Whether squaring a difference gives the same value in either order, as it
/// does for integers, reals and IEEE floating point (where `a - b` is exactly
/// the negation of `b - a`).
pub open spec fn squares_of_differences_symmetric<V>(ops: Arithmetic<V>) -> bool {
    forall|a: V, b: V| #[trigger] (ops.mul)((ops.sub)(a, b), (ops.sub)(a, b)) == (ops.mul)((ops.sub)(b, a), (ops.sub)(b, a))
}

/// Swapping the two points gives the same result: for any values of the
/// coordinates, and any operations under which the square of a difference
/// does not depend on its order, the distance term has the same value.
pub proof fn lemma_distance_symmetric<V>(at: spec_fn(Coordinate) -> V, ops: Arithmetic<V>)
    requires
        squares_of_differences_symmetric(ops),
    ensures
        value_of(distance_expr(), swapped(at), ops) == value_of(distance_expr(), at, ops),
{
    lemma_square_delta_swapped(at, ops, Coordinate::X2, Coordinate::X1);
    lemma_square_delta_swapped(at, ops, Coordinate::Y2, Coordinate::Y1);
    lemma_square_delta_swapped(at, ops, Coordinate::Z2, Coordinate::Z1);
    let sw = swapped(at);
    let dx = square(delta(Coordinate::X2, Coordinate::X1));
    let dy = square(delta(Coordinate::Y2, Coordinate::Y1));
    let dz = square(delta(Coordinate::Z2, Coordinate::Z1));
    let xy = Expr::Sum(Box::new(dx), Box::new(dy));
    let all = Expr::Sum(Box::new(xy), Box::new(dz));
    assert(value_of(xy, sw, ops) == value_of(xy, at, ops));
    assert(value_of(all, sw, ops) == value_of(all, at, ops));
    assert(distance_expr() == Expr::Root(Box::new(all)));
}

proof fn lemma_square_delta_swapped<V>(
    at: spec_fn(Coordinate) -> V,
    ops: Arithmetic<V>,
    to: Coordinate,
    from: Coordinate,
)
    requires
        squares_of_differences_symmetric(ops),
        mirror(to) == from,
        mirror(from) == to,
    ensures
        value_of(square(delta(to, from)), swapped(at), ops) == value_of(square(delta(to, from)), at, ops),
{
    let sw = swapped(at);
    let x = at(to);
    let y = at(from);
    assert(sw(to) == y);
    assert(sw(from) == x);
    reveal_with_fuel(value_of, 3);
    assert(value_of(delta(to, from), sw, ops) == Some((ops.sub)(y, x)));
    assert(value_of(delta(to, from), at, ops) == Some((ops.sub)(x, y)));
    assert((ops.mul)((ops.sub)(x, y), (ops.sub)(x, y)) == (ops.mul)((ops.sub)(y, x), (ops.sub)(y, x)));
}

/// Exact integer arithmetic squares differences symmetrically.
pub proof fn lemma_integer_squares_symmetric(root: spec_fn(int) -> int)
    ensures
        squares_of_differences_symmetric(
            Arithmetic::<int> {
                sub: |a: int, b: int| a - b,
                mul: |a: int, b: int| a * b,
                add: |a: int, b: int| a + b,
                root,
            },
        ),
{
    assert forall|a: int, b: int| #[trigger] ((a - b) * (a - b)) == (b - a) * (b - a) by {
        assert((a - b) * (a - b) == (b - a) * (b - a)) by (nonlinear_arith);
    }
}

/// Every call is sent only coordinates and answers of earlier calls, so each
/// operand is known when the call is made.
pub proof fn lemma_operands_precede(k: int, i: int)
    requires
        0 <= k < STEPS,
        0 <= i < planned(k).payload.len(),
    ensures
        planned(k).payload[i].cell matches Cell::Answer(j) ==> j < k,
        !(planned(k).payload[i].cell is Text),
{
}

/// The dependencies are first called in the order in which `DEPENDS_ON` lists
/// them: along the plan, their rank in that list never decreases.
pub proof fn lemma_dependencies_in_listed_order(i: int, j: int)
    requires
        0 <= i <= j < STEPS,
    ensures
        planned(i).dependency.rank() <= planned(j).dependency.rank(),
{
}

/// A two-operand call supplies `a` and `b`, and no `value`.
proof fn lemma_binary_fields()
    ensures
        forall|d: Dependency, a: Cell, b: Cell|
            #![trigger binary_call(d, a, b)]
            field(binary_call(d, a, b).payload, "a") == Some(a)
            && field(binary_call(d, a, b).payload, "b") == Some(b),
        forall|d: Dependency, v: Cell|
            #![trigger unary_call(d, v)]
            field(unary_call(d, v).payload, "value") == Some(v),
{
    reveal_strlit("a");
    reveal_strlit("b");
    assert("a"@[0] != "b"@[0]);
    reveal_with_fuel(field, 3);
    assert forall|d: Dependency, a: Cell, b: Cell|
        #![trigger binary_call(d, a, b)]
        field(binary_call(d, a, b).payload, "a") == Some(a)
        && field(binary_call(d, a, b).payload, "b") == Some(b) by {
        let p = binary_call(d, a, b).payload;
        assert(p.drop_first() =~= seq![entry("b", b)]);
        assert(p.drop_first().drop_first() =~= Seq::<Entry>::empty());
    }
}

/// The last call answers the distance between the two points: the calls of an
/// evaluation, with the operations their dependencies perform, compose to
/// `sqrt(((x2 - x1)² + (y2 - y1)²) + (z2 - z1)²)`.
pub proof fn lemma_plan_computes_distance()
    ensures
        answer_meaning((STEPS - 1) as nat) == distance_expr(),
{
    lemma_binary_fields();
    assert(answer_meaning(0) == delta(Coordinate::X2, Coordinate::X1));
    assert(answer_meaning(1) == delta(Coordinate::Y2, Coordinate::Y1));
    assert(answer_meaning(2) == delta(Coordinate::Z2, Coordinate::Z1));
    assert(answer_meaning(3) == square(delta(Coordinate::X2, Coordinate::X1)));
    assert(answer_meaning(4) == square(delta(Coordinate::Y2, Coordinate::Y1)));
    assert(answer_meaning(5) == square(delta(Coordinate::Z2, Coordinate::Z1)));
    assert(answer_meaning(7) == Expr::Sum(Box::new(answer_meaning(6)), Box::new(answer_meaning(5))));
}

} // verus!
