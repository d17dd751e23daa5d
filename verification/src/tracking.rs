//! From a tracking frame to the variables of the formulas, and from their values to parameters.
use crate::formula::Formula;
use crate::names::{
    arkit_to_pascal, law_mirror_is_involution, mirror_lr, mirrored_name, pascal_name,
    variable_name,
};
use crate::number::{Real, ONE};
use crate::requests::{envelope, enveloped, InjectParams, TrackingParam, VTSApiRequest};
use crate::vtspc::VtsPc;
use vstd::prelude::*;

verus! {

/// A point or a rotation in space.
#[derive(Clone, Copy, Debug)]
pub struct Vector {
    pub x: Real,
    pub y: Real,
    pub z: Real,
}

/// How far one feature of the face is moved.
#[derive(Debug)]
pub struct BlendShape {
    pub k: String,
    pub v: Real,
}

/// One frame of a tracker.
#[derive(Debug)]
pub struct TrackingResponce {
    pub face_found: bool,
    pub blend_shapes: Vec<BlendShape>,
    pub rotation: Vector,
    pub position: Vector,
}

/// A variable with its value.
#[derive(Debug)]
pub struct Binding {
    pub name: String,
    pub value: Real,
}

/// What the evaluation of a formula came to. A value that is neither a float nor an integer
/// counts as a failure.
#[derive(Clone, Copy, Debug)]
pub enum Outcome {
    Float(Real),
    Integer(i64),
    Failed,
}

/// The values of the variables after the bindings have been made in their order: the last
/// binding of a name counts.
pub open spec fn bound(bindings: Seq<Binding>) -> Map<Seq<char>, Real>
    decreases bindings.len(),
{
    if bindings.len() == 0 {
        Map::empty()
    } else {
        bound(bindings.drop_last()).insert(bindings.last().name@, bindings.last().value)
    }
}

/// The values of the blend shapes under their keys; the last value of a key counts.
pub open spec fn keys_context(shapes: Seq<BlendShape>) -> Map<Seq<char>, Real>
    decreases shapes.len(),
{
    if shapes.len() == 0 {
        Map::empty()
    } else {
        keys_context(shapes.drop_last()).insert(shapes.last().k@, shapes.last().v)
    }
}

/// The values of the blend shapes under the variables of their keys; the last value of a variable
/// counts.
pub open spec fn names_context(shapes: Seq<BlendShape>, mirror: bool) -> Map<Seq<char>, Real>
    decreases shapes.len(),
{
    if shapes.len() == 0 {
        Map::empty()
    } else {
        names_context(shapes.drop_last(), mirror).insert(
            variable_name(shapes.last().k@, mirror),
            shapes.last().v,
        )
    }
}

/// The variables that the blend shapes give: each value stands under the variable of its key, and
/// under the key itself where that is not the variable of any key.
pub open spec fn shapes_context(shapes: Seq<BlendShape>, mirror: bool) -> Map<Seq<char>, Real> {
    keys_context(shapes).union_prefer_right(names_context(shapes, mirror))
}

/// The value as it is, or with the other sign in mirror mode.
pub open spec fn sided(value: Real, mirror: bool) -> Real {
    if mirror {
        value.spec_negated()
    } else {
        value
    }
}

/// The variables that a frame gives: blend shapes, then head position and rotation. Mirror mode
/// turns the head the other way: sideways position, yaw and roll change their sign.
pub open spec fn frame_context(frame: TrackingResponce, mirror: bool) -> Map<Seq<char>, Real> {
    shapes_context(frame.blend_shapes@, mirror).insert(
        "HeadPosX"@,
        sided(frame.position.x, mirror),
    ).insert("HeadPosY"@, frame.position.y).insert("HeadPosZ"@, frame.position.z).insert(
        "HeadRotX"@,
        frame.rotation.x,
    ).insert("HeadRotY"@, sided(frame.rotation.y, mirror)).insert(
        "HeadRotZ"@,
        sided(frame.rotation.z, mirror),
    )
}

/// Is `name` a variable of one of the formulas?
pub open spec fn needed(formulas: Seq<Formula>, name: Seq<char>) -> bool {
    exists|i: int, j: int|
        0 <= i < formulas.len() && 0 <= j < formulas[i].variables@.len()
            && #[trigger] formulas[i].variables@[j]@ == name
}

/// The variables that the formulas are evaluated with: those of the frame, and zero for each
/// variable that the frame does not provide.
pub open spec fn evaluation_context(
    frame: TrackingResponce,
    mirror: bool,
    formulas: Seq<Formula>,
) -> Map<Seq<char>, Real> {
    let given = frame_context(frame, mirror);
    Map::new(
        |name: Seq<char>| given.dom().contains(name) || needed(formulas, name),
        |name: Seq<char>|
            if given.dom().contains(name) {
                given[name]
            } else {
                Real { bits: 0 }
            },
    )
}

/// `n` bounded by one million on either side.
pub open spec fn clamped_integer(n: int) -> int {
    if n > 1_000_000 {
        1_000_000
    } else if n < -1_000_000 {
        -1_000_000
    } else {
        n
    }
}

/// Is `value` what an outcome amounts to? Numbers are bounded by one million on either side, and
/// a failure counts as zero.
pub open spec fn settles(outcome: Outcome, value: Real) -> bool {
    match outcome {
        Outcome::Float(number) => value == number.spec_clamped(),
        Outcome::Integer(n) => value.denotes(clamped_integer(n as int)),
        Outcome::Failed => value == (Real { bits: 0 }),
    }
}

/// The outcome of formula `i`; one that was not reported counts as a failure.
pub open spec fn outcome_at(outcomes: Seq<Outcome>, i: int) -> Outcome {
    if i < outcomes.len() {
        outcomes[i]
    } else {
        Outcome::Failed
    }
}

/// Is this the request that injects the outcomes? Without a face no parameter is given.
pub open spec fn injects(
    request: VTSApiRequest<InjectParams>,
    face_found: bool,
    formulas: Seq<Formula>,
    outcomes: Seq<Outcome>,
) -> bool {
    &&& request.data matches Some(params)
    &&& request == enveloped("InjectParameterDataRequest", Some(params))
    &&& params.face_found == face_found
    &&& params.mode == "set"
    &&& params.parameter_values@.len() == if face_found {
        formulas.len()
    } else {
        0
    }
    &&& forall|i: int|
        0 <= i < params.parameter_values@.len() ==> {
            &&& (#[trigger] params.parameter_values@[i]).id == formulas[i].name
            &&& params.parameter_values@[i].weight == Some(Real { bits: ONE })
            &&& settles(outcome_at(outcomes, i), params.parameter_values@[i].value)
        }
}

proof fn lemma_bound_push(bindings: Seq<Binding>, binding: Binding)
    ensures
        bound(bindings.push(binding)) == bound(bindings).insert(binding.name@, binding.value),
{
    assert(bindings.push(binding).drop_last() =~= bindings);
}

/// Adds a binding at the end.
fn bind(bindings: &mut Vec<Binding>, name: String, value: Real)
    ensures
        bound(final(bindings)@) == bound(old(bindings)@).insert(name@, value),
{
    let ghost before = bindings@;
    let binding = Binding { name, value };
    proof {
        lemma_bound_push(before, binding);
    }
    bindings.push(binding);
}

fn side(value: Real, mirror: bool) -> (r: Real)
    ensures
        r == sided(value, mirror),
{
    if mirror {
        value.negated()
    } else {
        value
    }
}

/// The bindings that a frame gives.
pub fn frame_bindings(frame: &TrackingResponce, mirror: bool) -> (bindings: Vec<Binding>)
    ensures
        bound(bindings@) == frame_context(*frame, mirror),
{
    let mut bindings: Vec<Binding> = Vec::new();
    let n: usize = frame.blend_shapes.len();
    let ghost shapes = frame.blend_shapes@;
    let mut i: usize = 0;
    assert(shapes.take(0) =~= Seq::<BlendShape>::empty());
    while i < n
        invariant
            i <= n,
            n == shapes.len(),
            shapes == frame.blend_shapes@,
            bound(bindings@) == keys_context(shapes.take(i as int)),
        decreases n - i,
    {
        let shape: &BlendShape = &frame.blend_shapes[i];
        bind(&mut bindings, shape.k.clone(), shape.v);
        assert(shapes.take(i + 1).drop_last() =~= shapes.take(i as int));
        i = i + 1;
    }
    assert(shapes.take(n as int) =~= shapes);
    let mut j: usize = 0;
    assert(keys_context(shapes).union_prefer_right(names_context(shapes.take(0), mirror))
        =~= keys_context(shapes));
    while j < n
        invariant
            j <= n,
            n == shapes.len(),
            shapes == frame.blend_shapes@,
            bound(bindings@) == keys_context(shapes).union_prefer_right(
                names_context(shapes.take(j as int), mirror),
            ),
        decreases n - j,
    {
        let shape: &BlendShape = &frame.blend_shapes[j];
        let normalized: String = arkit_to_pascal(shape.k.as_str());
        let name: String = if mirror {
            mirror_lr(normalized.as_str())
        } else {
            normalized
        };
        let ghost before = names_context(shapes.take(j as int), mirror);
        let ghost variable = variable_name(shape.k@, mirror);
        bind(&mut bindings, name, shape.v);
        proof {
            assert(shapes.take(j + 1).drop_last() =~= shapes.take(j as int));
            assert(keys_context(shapes).union_prefer_right(before).insert(variable, shape.v)
                =~= keys_context(shapes).union_prefer_right(before.insert(variable, shape.v)));
        }
        j = j + 1;
    }
    bind(&mut bindings, "HeadPosX".to_owned(), side(frame.position.x, mirror));
    bind(&mut bindings, "HeadPosY".to_owned(), frame.position.y);
    bind(&mut bindings, "HeadPosZ".to_owned(), frame.position.z);
    bind(&mut bindings, "HeadRotX".to_owned(), frame.rotation.x);
    bind(&mut bindings, "HeadRotY".to_owned(), side(frame.rotation.y, mirror));
    bind(&mut bindings, "HeadRotZ".to_owned(), side(frame.rotation.z, mirror));
    bindings
}

/// Is there a binding of `name`?
fn is_bound(bindings: &Vec<Binding>, name: &String) -> (yes: bool)
    ensures
        yes == bound(bindings@).dom().contains(name@),
{
    let n: usize = bindings.len();
    let mut i: usize = 0;
    assert(bindings@.take(0) =~= Seq::<Binding>::empty());
    while i < n
        invariant
            i <= n,
            n == bindings@.len(),
            !bound(bindings@.take(i as int)).dom().contains(name@),
        decreases n - i,
    {
        assert(bindings@.take(i + 1).drop_last() =~= bindings@.take(i as int));
        if bindings[i].name == *name {
            proof {
                assert(bound(bindings@.take(i + 1)).dom().contains(name@));
                lemma_bound_grows(bindings@, i + 1, name@);
            }
            return true;
        }
        i = i + 1;
    }
    assert(bindings@.take(n as int) =~= bindings@);
    false
}

/// A name that is bound stays bound.
proof fn lemma_bound_grows(bindings: Seq<Binding>, n: int, name: Seq<char>)
    requires
        0 <= n <= bindings.len(),
        bound(bindings.take(n)).dom().contains(name),
    ensures
        bound(bindings).dom().contains(name),
    decreases bindings.len() - n,
{
    if n < bindings.len() {
        assert(bindings.take(n + 1).drop_last() =~= bindings.take(n));
        lemma_bound_grows(bindings, n + 1, name);
    } else {
        assert(bindings.take(n) =~= bindings);
    }
}

/// The variables with which a formula's part of the work is done: `given`, and zero for each of
/// its first `count` variables that has no value yet.
pub open spec fn defaulted(
    given: Map<Seq<char>, Real>,
    variables: Seq<String>,
    count: int,
) -> Map<Seq<char>, Real>
    decreases count,
{
    if count <= 0 {
        given
    } else {
        let before = defaulted(given, variables, count - 1);
        let name = variables[count - 1]@;
        if before.dom().contains(name) {
            before
        } else {
            before.insert(name, Real { bits: 0 })
        }
    }
}

/// Binds zero to each variable of a formula that has no value yet.
fn bind_missing(bindings: &mut Vec<Binding>, formula: &Formula)
    ensures
        bound(final(bindings)@) == defaulted(
            bound(old(bindings)@),
            formula.variables@,
            formula.variables@.len() as int,
        ),
{
    let n: usize = formula.variables.len();
    let mut i: usize = 0;
    while i < n
        invariant
            i <= n,
            n == formula.variables@.len(),
            bound(bindings@) == defaulted(bound(old(bindings)@), formula.variables@, i as int),
        decreases n - i,
    {
        if !is_bound(bindings, &formula.variables[i]) {
            bind(bindings, formula.variables[i].clone(), Real::zero());
        }
        i = i + 1;
    }
}

/// Is `name` one of the first `count` variables?
spec fn among(variables: Seq<String>, count: int, name: Seq<char>) -> bool {
    exists|j: int| 0 <= j < count && #[trigger] variables[j]@ == name
}

proof fn lemma_defaulted(
    given: Map<Seq<char>, Real>,
    variables: Seq<String>,
    count: int,
    name: Seq<char>,
)
    requires
        0 <= count <= variables.len(),
    ensures
        ({
            let all = defaulted(given, variables, count);
            &&& all.dom().contains(name) <==> given.dom().contains(name) || among(
                variables,
                count,
                name,
            )
            &&& given.dom().contains(name) ==> all[name] == given[name]
            &&& all.dom().contains(name) && !given.dom().contains(name) ==> all[name] == (Real {
                bits: 0,
            })
        }),
    decreases count,
{
    if count > 0 {
        lemma_defaulted(given, variables, count - 1, name);
        let last = variables[count - 1]@;
        lemma_defaulted(given, variables, count - 1, last);
        assert(last == name ==> among(variables, count, name));
        assert(among(variables, count - 1, name) ==> among(variables, count, name));
        if among(variables, count, name) && !among(variables, count - 1, name) {
            let j = choose|j: int| 0 <= j < count && #[trigger] variables[j]@ == name;
            assert(j == count - 1);
        }
    }
}

/// The bindings that the formulas are evaluated with.
pub fn evaluation_bindings(
    frame: &TrackingResponce,
    mirror: bool,
    formulas: &Vec<Formula>,
) -> (bindings: Vec<Binding>)
    ensures
        bound(bindings@) == evaluation_context(*frame, mirror, formulas@),
{
    let mut bindings: Vec<Binding> = frame_bindings(frame, mirror);
    let n: usize = formulas.len();
    let mut i: usize = 0;
    let ghost given = frame_context(*frame, mirror);
    assert(bound(bindings@) =~= evaluation_context(*frame, mirror, formulas@.take(0)));
    while i < n
        invariant
            i <= n,
            n == formulas@.len(),
            bound(bindings@) == evaluation_context(*frame, mirror, formulas@.take(i as int)),
        decreases n - i,
    {
        let ghost before = bound(bindings@);
        bind_missing(&mut bindings, &formulas[i]);
        proof {
            let some = formulas@.take(i as int);
            let more = formulas@.take(i + 1);
            let variables = formulas@[i as int].variables@;
            let count = variables.len() as int;
            let all = evaluation_context(*frame, mirror, more);
            assert forall|name: Seq<char>| #[trigger]
                bound(bindings@).dom().contains(name) == all.dom().contains(name) && (all.dom().contains(
                    name,
                ) ==> bound(bindings@)[name] == all[name]) by {
                lemma_defaulted(before, variables, count, name);
                lemma_needed_more(formulas@, i as int, name);
            }
            assert(bound(bindings@) =~= all);
        }
        i = i + 1;
    }
    assert(formulas@.take(n as int) =~= formulas@);
    bindings
}

proof fn lemma_needed_more(formulas: Seq<Formula>, i: int, name: Seq<char>)
    requires
        0 <= i < formulas.len(),
    ensures
        needed(formulas.take(i + 1), name) <==> needed(formulas.take(i), name) || among(
            formulas[i].variables@,
            formulas[i].variables@.len() as int,
            name,
        ),
{
    let some = formulas.take(i);
    let more = formulas.take(i + 1);
    if needed(some, name) {
        let (a, j) = choose|a: int, j: int|
            0 <= a < some.len() && 0 <= j < some[a].variables@.len()
                && #[trigger] some[a].variables@[j]@ == name;
        assert(more[a].variables@[j]@ == name);
    }
    if among(formulas[i].variables@, formulas[i].variables@.len() as int, name) {
        let j = choose|j: int|
            0 <= j < formulas[i].variables@.len() && #[trigger] formulas[i].variables@[j]@ == name;
        assert(more[i].variables@[j]@ == name);
    }
    if needed(more, name) {
        let (a, j) = choose|a: int, j: int|
            0 <= a < more.len() && 0 <= j < more[a].variables@.len()
                && #[trigger] more[a].variables@[j]@ == name;
        if a < i {
            assert(some[a].variables@[j]@ == name);
        } else {
            assert(formulas[i].variables@[j]@ == name);
        }
    }
}

/// What an outcome amounts to.
pub fn settle(outcome: Outcome) -> (value: Real)
    ensures
        settles(outcome, value),
{
    match outcome {
        Outcome::Float(number) => number.clamped(),
        Outcome::Integer(n) => if n > 1_000_000 {
            Real::from_integer(1_000_000)
        } else if n < -1_000_000 {
            Real::from_integer(-1_000_000)
        } else {
            Real::from_integer(n)
        },
        Outcome::Failed => Real::zero(),
    }
}

impl VtsPc {
    /// The request that injects the parameters of a frame.
    pub fn tracking_msg(
        face_found: bool,
        formulas: &Vec<Formula>,
        outcomes: &Vec<Outcome>,
    ) -> (request: VTSApiRequest<InjectParams>)
        ensures
            injects(request, face_found, formulas@, outcomes@),
    {
        let mut values: Vec<TrackingParam> = Vec::new();
        if face_found {
            let n: usize = formulas.len();
            let mut i: usize = 0;
            while i < n
                invariant
                    i <= n,
                    n == formulas@.len(),
                    values@.len() == i,
                    forall|k: int|
                        0 <= k < i ==> {
                            &&& (#[trigger] values@[k]).id == formulas@[k].name
                            &&& values@[k].weight == Some(Real { bits: ONE })
                            &&& settles(outcome_at(outcomes@, k), values@[k].value)
                        },
                decreases n - i,
            {
                let outcome: Outcome = if i < outcomes.len() {
                    outcomes[i]
                } else {
                    Outcome::Failed
                };
                values.push(
                    TrackingParam {
                        id: formulas[i].name.clone(),
                        weight: Some(Real::one()),
                        value: settle(outcome),
                    },
                );
                i = i + 1;
            }
        }
        envelope(
            "InjectParameterDataRequest",
            Some(InjectParams { face_found, mode: "set", parameter_values: values }),
        )
    }
}

/// A formula that gives a number gives the parameter that very number, bit by bit, as long as it
/// lies between minus and plus one million, whatever its sign; beyond that it gives the nearer of
/// the two, and what is no number is passed on. An integer is given as that integer, within the
/// same bounds, and a failure as zero.
pub proof fn law_value_is_what_the_formula_gives(number: Real, n: i64, value: Real)
    ensures
        ({
            let rest = if number.bits < 0x8000_0000_0000_0000 {
                number.bits as int
            } else {
                number.bits - 0x8000_0000_0000_0000
            };
            settles(Outcome::Float(number), value) ==> {
                &&& rest <= 0x412e_8480_0000_0000 || rest > 0x7ff0_0000_0000_0000 ==> value
                    == number
                &&& 0x412e_8480_0000_0000 < rest <= 0x7ff0_0000_0000_0000 ==> value.bits == if number.bits
                    < 0x8000_0000_0000_0000 {
                    0x412e_8480_0000_0000u64
                } else {
                    0xc12e_8480_0000_0000
                }
            }
        }),
        settles(Outcome::Integer(n), value) && -1_000_000 <= n <= 1_000_000 ==> value.denotes(
            n as int,
        ),
        settles(Outcome::Integer(n), value) && n > 1_000_000 ==> value.denotes(1_000_000),
        settles(Outcome::Integer(n), value) && n < -1_000_000 ==> value.denotes(-1_000_000),
        settles(Outcome::Failed, value) ==> value.bits == 0,
{
}

/// What is injected of a frame with a face: one value for each formula, in their order, under the
/// name of its parameter and with full weight; where the formula gave a number within the bounds,
/// that number. Of a frame without a face nothing is injected but that there is none.
pub proof fn law_injected_values_are_those_of_the_formulas(
    request: VTSApiRequest<InjectParams>,
    face_found: bool,
    formulas: Seq<Formula>,
    outcomes: Seq<Outcome>,
    i: int,
)
    requires
        injects(request, face_found, formulas, outcomes),
    ensures
        request.message_type == "InjectParameterDataRequest",
        request.data matches Some(params) && params.face_found == face_found && params.mode == "set"
            && params.parameter_values@.len() == if face_found {
            formulas.len() as int
        } else {
            0
        },
        face_found && 0 <= i < formulas.len() ==> {
            let param = request.data->0.parameter_values@[i];
            &&& param.id == formulas[i].name
            &&& param.weight == Some(Real { bits: 0x3ff0_0000_0000_0000 })
            &&& i < outcomes.len() && outcomes[i] is Float && (
            outcomes[i]->Float_0.bits <= 0x412e_8480_0000_0000 || 0x8000_0000_0000_0000
                <= outcomes[i]->Float_0.bits <= 0xc12e_8480_0000_0000) ==> param.value
                == outcomes[i]->Float_0
            &&& i < outcomes.len() && outcomes[i] is Integer && -1_000_000
                <= outcomes[i]->Integer_0 <= 1_000_000 ==> param.value.denotes(
                outcomes[i]->Integer_0 as int,
            )
            &&& i >= outcomes.len() || outcomes[i] is Failed ==> param.value.bits == 0
        },
{
    if face_found && 0 <= i < formulas.len() {
        let param = request.data->0.parameter_values@[i];
        assert(settles(outcome_at(outcomes, i), param.value));
        if i < outcomes.len() {
            if let Outcome::Float(number) = outcomes[i] {
                law_value_is_what_the_formula_gives(number, 0, param.value);
            }
        }
    }
}

/// Of several bindings of one name the last one counts, with its own value, and what has no binding
/// has no value.
pub proof fn law_last_binding_counts(bindings: Seq<Binding>, i: int, name: Seq<char>)
    ensures
        0 <= i < bindings.len() && (forall|j: int|
            i < j < bindings.len() ==> (#[trigger] bindings[j]).name@ != bindings[i].name@)
            ==> bound(bindings).dom().contains(bindings[i].name@) && bound(
            bindings,
        )[bindings[i].name@] == bindings[i].value,
        bound(bindings).dom().contains(name) <==> exists|j: int|
            0 <= j < bindings.len() && (#[trigger] bindings[j]).name@ == name,
    decreases bindings.len(),
{
    if bindings.len() > 0 {
        let rest = bindings.drop_last();
        let last = bindings.len() - 1;
        law_last_binding_counts(rest, i, name);
        if bindings[last].name@ != name {
            if exists|j: int| 0 <= j < bindings.len() && (#[trigger] bindings[j]).name@ == name {
                let j = choose|j: int|
                    0 <= j < bindings.len() && (#[trigger] bindings[j]).name@ == name;
                assert(rest[j].name@ == name);
            }
            if exists|j: int| 0 <= j < rest.len() && (#[trigger] rest[j]).name@ == name {
                let j = choose|j: int| 0 <= j < rest.len() && (#[trigger] rest[j]).name@ == name;
                assert(bindings[j].name@ == name);
            }
        }
        if 0 <= i < last && (forall|j: int|
            i < j < bindings.len() ==> (#[trigger] bindings[j]).name@ != bindings[i].name@) {
            assert forall|j: int| i < j < rest.len() implies (#[trigger] rest[j]).name@
                != rest[i].name@ by {
                assert(bindings[j].name@ != bindings[i].name@);
            }
            assert(bindings[last].name@ != bindings[i].name@);
        }
    }
}

/// Every blend shape gives the variable of its key its own value, in mirror mode and without it,
/// unless a later shape has the same variable or the head has it.
pub proof fn law_shape_gives_its_variable(frame: TrackingResponce, mirror: bool, i: int)
    requires
        0 <= i < frame.blend_shapes@.len(),
        forall|j: int|
            i < j < frame.blend_shapes@.len() ==> variable_name(
                (#[trigger] frame.blend_shapes@[j]).k@,
                mirror,
            ) != variable_name(frame.blend_shapes@[i].k@, mirror),
        !is_head_variable(variable_name(frame.blend_shapes@[i].k@, mirror)),
    ensures
        ({
            let name = variable_name(frame.blend_shapes@[i].k@, mirror);
            let context = frame_context(frame, mirror);
            context.dom().contains(name) && context[name] == frame.blend_shapes@[i].v
        }),
{
    lemma_last_variable_counts(frame.blend_shapes@, mirror, i);
}

proof fn lemma_last_variable_counts(shapes: Seq<BlendShape>, mirror: bool, i: int)
    requires
        0 <= i < shapes.len(),
        forall|j: int|
            i < j < shapes.len() ==> variable_name((#[trigger] shapes[j]).k@, mirror)
                != variable_name(shapes[i].k@, mirror),
    ensures
        names_context(shapes, mirror).dom().contains(variable_name(shapes[i].k@, mirror)),
        names_context(shapes, mirror)[variable_name(shapes[i].k@, mirror)] == shapes[i].v,
    decreases shapes.len(),
{
    if i < shapes.len() - 1 {
        let rest = shapes.drop_last();
        assert forall|j: int| i < j < rest.len() implies variable_name(
            (#[trigger] rest[j]).k@,
            mirror,
        ) != variable_name(rest[i].k@, mirror) by {
            assert(rest[j] == shapes[j]);
        }
        lemma_last_variable_counts(rest, mirror, i);
        assert(variable_name(shapes[shapes.len() - 1].k@, mirror) != variable_name(
            shapes[i].k@,
            mirror,
        ));
    }
}

/// Every blend shape gives its key its own value, unless a later shape has the same key, the key is
/// the variable of some shape, or the head has it.
pub proof fn law_shape_gives_its_key(frame: TrackingResponce, mirror: bool, i: int)
    requires
        0 <= i < frame.blend_shapes@.len(),
        forall|j: int|
            i < j < frame.blend_shapes@.len() ==> (#[trigger] frame.blend_shapes@[j]).k@
                != frame.blend_shapes@[i].k@,
        forall|j: int|
            0 <= j < frame.blend_shapes@.len() ==> variable_name(
                (#[trigger] frame.blend_shapes@[j]).k@,
                mirror,
            ) != frame.blend_shapes@[i].k@,
        !is_head_variable(frame.blend_shapes@[i].k@),
    ensures
        ({
            let key = frame.blend_shapes@[i].k@;
            let context = frame_context(frame, mirror);
            context.dom().contains(key) && context[key] == frame.blend_shapes@[i].v
        }),
{
    lemma_last_key_counts(frame.blend_shapes@, i);
    lemma_shapes_bind_names(frame.blend_shapes@, mirror, frame.blend_shapes@[i].k@);
}

/// A frame gives values to its keys, to their variables and to the head variables, and to nothing
/// else.
pub proof fn law_frame_binds_nothing_else(frame: TrackingResponce, mirror: bool, name: Seq<char>)
    requires
        frame_context(frame, mirror).dom().contains(name),
    ensures
        is_head_variable(name) || exists|i: int|
            0 <= i < frame.blend_shapes@.len() && ((#[trigger] frame.blend_shapes@[i]).k@ == name
                || variable_name(frame.blend_shapes@[i].k@, mirror) == name),
{
    lemma_shapes_bind_names(frame.blend_shapes@, mirror, name);
}

proof fn lemma_shapes_bind_names(shapes: Seq<BlendShape>, mirror: bool, name: Seq<char>)
    ensures
        names_context(shapes, mirror).dom().contains(name) ==> exists|i: int|
            0 <= i < shapes.len() && variable_name((#[trigger] shapes[i]).k@, mirror) == name,
        keys_context(shapes).dom().contains(name) ==> exists|i: int|
            0 <= i < shapes.len() && (#[trigger] shapes[i]).k@ == name,
    decreases shapes.len(),
{
    if shapes.len() > 0 {
        let rest = shapes.drop_last();
        lemma_shapes_bind_names(rest, mirror, name);
        let last = shapes.len() - 1;
        assert(shapes[last] == shapes.last());
        if names_context(rest, mirror).dom().contains(name) {
            let i = choose|i: int|
                0 <= i < rest.len() && variable_name((#[trigger] rest[i]).k@, mirror) == name;
            assert(variable_name(shapes[i].k@, mirror) == name);
        }
        if keys_context(rest).dom().contains(name) {
            let i = choose|i: int| 0 <= i < rest.len() && (#[trigger] rest[i]).k@ == name;
            assert(shapes[i].k@ == name);
        }
    }
}

/// Do the two numbers differ in their sign and in nothing else?
pub open spec fn opposite(a: Real, b: Real) -> bool {
    a.bits == b.bits + 0x8000_0000_0000_0000 || b.bits == a.bits + 0x8000_0000_0000_0000
}

/// The head is given as the tracker sees it. In mirror mode yaw, roll and sideways position have
/// the other sign, whichever they had, and the rest stays as it is.
pub proof fn law_mirror_turns_the_head(frame: TrackingResponce)
    ensures
        ({
            let plain = frame_context(frame, false);
            let mirrored = frame_context(frame, true);
            &&& forall|name: Seq<char>|
                is_head_variable(name) ==> #[trigger] plain.dom().contains(name)
                    && mirrored.dom().contains(name)
            &&& plain["HeadRotX"@] == frame.rotation.x
            &&& plain["HeadRotY"@] == frame.rotation.y
            &&& plain["HeadRotZ"@] == frame.rotation.z
            &&& plain["HeadPosX"@] == frame.position.x
            &&& plain["HeadPosY"@] == frame.position.y
            &&& plain["HeadPosZ"@] == frame.position.z
            &&& opposite(mirrored["HeadRotY"@], frame.rotation.y)
            &&& opposite(mirrored["HeadRotZ"@], frame.rotation.z)
            &&& opposite(mirrored["HeadPosX"@], frame.position.x)
            &&& mirrored["HeadRotY"@].rank() == -plain["HeadRotY"@].rank()
            &&& mirrored["HeadRotZ"@].rank() == -plain["HeadRotZ"@].rank()
            &&& mirrored["HeadPosX"@].rank() == -plain["HeadPosX"@].rank()
            &&& mirrored["HeadRotX"@] == frame.rotation.x
            &&& mirrored["HeadPosY"@] == frame.position.y
            &&& mirrored["HeadPosZ"@] == frame.position.z
        }),
{
    lemma_head_variables_differ();
}

/// Mirror mode undoes a turn to the other side: a frame with the opposite yaw, roll and sideways
/// position gives in mirror mode what the first one gives without it.
pub proof fn law_mirror_undoes_the_opposite_turn(frame: TrackingResponce, turned: TrackingResponce)
    requires
        opposite(turned.rotation.y, frame.rotation.y),
        opposite(turned.rotation.z, frame.rotation.z),
        opposite(turned.position.x, frame.position.x),
        turned.rotation.x == frame.rotation.x,
        turned.position.y == frame.position.y,
        turned.position.z == frame.position.z,
    ensures
        forall|name: Seq<char>|
            is_head_variable(name) ==> #[trigger] frame_context(turned, true)[name]
                == frame_context(frame, false)[name],
{
    law_mirror_turns_the_head(frame);
    law_mirror_turns_the_head(turned);
}

proof fn lemma_head_variables_differ()
    ensures
        "HeadPosX"@ != "HeadPosY"@,
        "HeadPosX"@ != "HeadPosZ"@,
        "HeadPosX"@ != "HeadRotX"@,
        "HeadPosX"@ != "HeadRotY"@,
        "HeadPosX"@ != "HeadRotZ"@,
        "HeadPosY"@ != "HeadPosZ"@,
        "HeadPosY"@ != "HeadRotX"@,
        "HeadPosY"@ != "HeadRotY"@,
        "HeadPosY"@ != "HeadRotZ"@,
        "HeadPosZ"@ != "HeadRotX"@,
        "HeadPosZ"@ != "HeadRotY"@,
        "HeadPosZ"@ != "HeadRotZ"@,
        "HeadRotX"@ != "HeadRotY"@,
        "HeadRotX"@ != "HeadRotZ"@,
        "HeadRotY"@ != "HeadRotZ"@,
{
    reveal_strlit("HeadPosX");
    reveal_strlit("HeadPosY");
    reveal_strlit("HeadPosZ");
    reveal_strlit("HeadRotX");
    reveal_strlit("HeadRotY");
    reveal_strlit("HeadRotZ");
    assert("HeadPosX"@[4] == 'P' && "HeadPosX"@[7] == 'X');
    assert("HeadPosY"@[4] == 'P' && "HeadPosY"@[7] == 'Y');
    assert("HeadPosZ"@[4] == 'P' && "HeadPosZ"@[7] == 'Z');
    assert("HeadRotX"@[4] == 'R' && "HeadRotX"@[7] == 'X');
    assert("HeadRotY"@[4] == 'R' && "HeadRotY"@[7] == 'Y');
    assert("HeadRotZ"@[4] == 'R' && "HeadRotZ"@[7] == 'Z');
}

/// Is `name` the variable of one of the shapes, mirror mode aside?
pub open spec fn is_variable(shapes: Seq<BlendShape>, name: Seq<char>) -> bool {
    exists|i: int| 0 <= i < shapes.len() && #[trigger] pascal_name(shapes[i].k@) == name
}

/// Is `name` one of the variables of the head?
pub open spec fn is_head_variable(name: Seq<char>) -> bool {
    ||| name == "HeadPosX"@
    ||| name == "HeadPosY"@
    ||| name == "HeadPosZ"@
    ||| name == "HeadRotX"@
    ||| name == "HeadRotY"@
    ||| name == "HeadRotZ"@
}

/// Mirror mode gives each variable the value of the variable for the other side.
proof fn lemma_names_mirror(shapes: Seq<BlendShape>, name: Seq<char>)
    ensures
        ({
            let plain = names_context(shapes, false);
            let mirrored = names_context(shapes, true);
            &&& plain.dom().contains(name) <==> is_variable(shapes, name)
            &&& mirrored.dom().contains(mirrored_name(name)) <==> is_variable(shapes, name)
            &&& plain.dom().contains(name) ==> plain[name] == mirrored[mirrored_name(name)]
        }),
    decreases shapes.len(),
{
    if shapes.len() > 0 {
        let rest = shapes.drop_last();
        let key = shapes.last().k@;
        lemma_names_mirror(rest, name);
        law_mirror_is_involution(name);
        law_mirror_is_involution(pascal_name(key));
        if is_variable(rest, name) {
            let i = choose|i: int|
                0 <= i < rest.len() && #[trigger] pascal_name(rest[i].k@) == name;
            assert(pascal_name(shapes[i].k@) == name);
        }
        if pascal_name(key) == name {
            assert(pascal_name(shapes[shapes.len() - 1].k@) == name);
        } else if is_variable(shapes, name) {
            let i = choose|i: int|
                0 <= i < shapes.len() && #[trigger] pascal_name(shapes[i].k@) == name;
            assert(pascal_name(rest[i].k@) == name);
        }
    }
}

/// Mirror mode exchanges the sides: every variable of the blend shapes has the value that the
/// variable for the other side has without it. This holds of all of them but those that bear the
/// name of a head variable.
pub proof fn law_mirror_exchanges_sides(frame: TrackingResponce, name: Seq<char>)
    requires
        is_variable(frame.blend_shapes@, name),
        !is_head_variable(name),
    ensures
        ({
            let plain = frame_context(frame, false);
            let mirrored = frame_context(frame, true);
            &&& plain.dom().contains(name)
            &&& mirrored.dom().contains(mirrored_name(name))
            &&& plain[name] == mirrored[mirrored_name(name)]
        }),
{
    lemma_names_mirror(frame.blend_shapes@, name);
    law_mirror_is_involution(name);
    lemma_head_variables_have_no_side();
}

/// The keys themselves are not mirrored: a key that is not the variable of any key, on either side,
/// has the value of the last shape with that key, in mirror mode and without it.
pub proof fn law_keys_are_not_mirrored(frame: TrackingResponce, i: int)
    requires
        0 <= i < frame.blend_shapes@.len(),
        forall|j: int|
            i < j < frame.blend_shapes@.len() ==> (#[trigger] frame.blend_shapes@[j]).k@
                != frame.blend_shapes@[i].k@,
        !is_variable(frame.blend_shapes@, frame.blend_shapes@[i].k@),
        !is_variable(frame.blend_shapes@, mirrored_name(frame.blend_shapes@[i].k@)),
        !is_head_variable(frame.blend_shapes@[i].k@),
    ensures
        ({
            let key = frame.blend_shapes@[i].k@;
            let plain = frame_context(frame, false);
            let mirrored = frame_context(frame, true);
            &&& plain.dom().contains(key) && plain[key] == frame.blend_shapes@[i].v
            &&& mirrored.dom().contains(key) && mirrored[key] == frame.blend_shapes@[i].v
        }),
{
    let shapes = frame.blend_shapes@;
    let key = shapes[i].k@;
    lemma_last_key_counts(shapes, i);
    lemma_names_mirror(shapes, key);
    law_mirror_is_involution(key);
    lemma_names_mirror(shapes, mirrored_name(key));
}

proof fn lemma_last_key_counts(shapes: Seq<BlendShape>, i: int)
    requires
        0 <= i < shapes.len(),
        forall|j: int| i < j < shapes.len() ==> (#[trigger] shapes[j]).k@ != shapes[i].k@,
    ensures
        keys_context(shapes).dom().contains(shapes[i].k@),
        keys_context(shapes)[shapes[i].k@] == shapes[i].v,
    decreases shapes.len(),
{
    if i < shapes.len() - 1 {
        let rest = shapes.drop_last();
        assert forall|j: int| i < j < rest.len() implies (#[trigger] rest[j]).k@ != rest[i].k@ by {
            assert(rest[j] == shapes[j]);
        }
        lemma_last_key_counts(rest, i);
        assert(shapes[shapes.len() - 1].k@ != shapes[i].k@);
    }
}

proof fn lemma_head_variables_have_no_side()
    ensures
        mirrored_name("HeadPosX"@) == "HeadPosX"@,
        mirrored_name("HeadPosY"@) == "HeadPosY"@,
        mirrored_name("HeadPosZ"@) == "HeadPosZ"@,
        mirrored_name("HeadRotX"@) == "HeadRotX"@,
        mirrored_name("HeadRotY"@) == "HeadRotY"@,
        mirrored_name("HeadRotZ"@) == "HeadRotZ"@,
{
    reveal_strlit("Left");
    reveal_strlit("Right");
    reveal_strlit("HeadPosX");
    reveal_strlit("HeadPosY");
    reveal_strlit("HeadPosZ");
    reveal_strlit("HeadRotX");
    reveal_strlit("HeadRotY");
    reveal_strlit("HeadRotZ");
    assert forall|name: Seq<char>|
        name.len() == 8 && name[7] != 't' implies #[trigger] mirrored_name(name) == name by {
        if "Left"@.is_suffix_of(name) {
            assert(name.subrange(4, 8)[3] == 't');
        }
        if "Right"@.is_suffix_of(name) {
            assert(name.subrange(3, 8)[4] == 't');
        }
    }
}

/// A variable that the tracking source does not provide is zero, and one that it provides has
/// its value, whatever the formulas.
pub proof fn law_missing_variables_are_zero(
    frame: TrackingResponce,
    mirror: bool,
    formulas: Seq<Formula>,
    i: int,
    j: int,
)
    requires
        0 <= i < formulas.len(),
        0 <= j < formulas[i].variables@.len(),
    ensures
        ({
            let name = formulas[i].variables@[j]@;
            let given = frame_context(frame, mirror);
            let all = evaluation_context(frame, mirror, formulas);
            &&& all.dom().contains(name)
            &&& all[name] == if given.dom().contains(name) {
                given[name]
            } else {
                Real { bits: 0 }
            }
            &&& forall|other: Seq<char>|
                given.dom().contains(other) ==> #[trigger] all.dom().contains(other) && all[other]
                    == given[other]
        }),
{
    assert(needed(formulas, formulas[i].variables@[j]@));
}

/// The formulas are evaluated with the variables of the frame and with their own, and with nothing
/// else.
pub proof fn law_evaluation_binds_nothing_else(
    frame: TrackingResponce,
    mirror: bool,
    formulas: Seq<Formula>,
    name: Seq<char>,
)
    requires
        evaluation_context(frame, mirror, formulas).dom().contains(name),
    ensures
        frame_context(frame, mirror).dom().contains(name) || exists|i: int, j: int|
            0 <= i < formulas.len() && 0 <= j < formulas[i].variables@.len()
                && #[trigger] formulas[i].variables@[j]@ == name,
{
}

} // verus!
