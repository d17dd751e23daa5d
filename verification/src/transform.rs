//! The transform config: which formula drives which VTube Studio parameter.
use crate::formula::{build_operator_tree, operator_tree, Formula};
use crate::number::Real;
use crate::requests::{envelope, enveloped, ParameterCreation, Pending, RequestData};
use crate::text::same_text;
use crate::vtspc::VtsPc;
use std::collections::VecDeque;
use vstd::prelude::*;

verus! {

/// A number of the config, with the text that an editor shows for it.
#[derive(Debug)]
pub struct Number {
    pub value: Real,
    pub text: String,
}

/// One entry of the config.
#[derive(Debug)]
pub struct CalcFn {
    pub name: String,
    pub func: String,
    pub min: Number,
    pub max: Number,
    pub default_value: Number,
}

impl Clone for Number {
    fn clone(&self) -> (copy: Self)
        ensures
            copy == *self,
    {
        Number { value: self.value, text: self.text.clone() }
    }
}

impl Clone for CalcFn {
    fn clone(&self) -> (copy: Self)
        ensures
            copy == *self,
    {
        CalcFn {
            name: self.name.clone(),
            func: self.func.clone(),
            min: self.min.clone(),
            max: self.max.clone(),
            default_value: self.default_value.clone(),
        }
    }
}

/// What an entry says.
pub struct Entry {
    pub name: Seq<char>,
    pub func: Seq<char>,
    pub min: Number,
    pub max: Number,
    pub default_value: Number,
}

impl View for CalcFn {
    type V = Entry;

    open spec fn view(&self) -> Entry {
        Entry {
            name: self.name@,
            func: self.func@,
            min: self.min,
            max: self.max,
            default_value: self.default_value,
        }
    }
}

/// The parameters that VTube Studio has of its own.
pub open spec fn default_parameter(name: Seq<char>) -> bool {
    ||| name == "FacePositionX"@
    ||| name == "FacePositionY"@
    ||| name == "FacePositionZ"@
    ||| name == "FaceAngleX"@
    ||| name == "FaceAngleY"@
    ||| name == "FaceAngleZ"@
    ||| name == "MouthSmile"@
    ||| name == "MouthOpen"@
    ||| name == "Brows"@
    ||| name == "TongueOut"@
    ||| name == "EyeOpenLeft"@
    ||| name == "EyeOpenRight"@
    ||| name == "EyeLeftX"@
    ||| name == "EyeLeftY"@
    ||| name == "EyeRightX"@
    ||| name == "EyeRightY"@
    ||| name == "CheekPuff"@
    ||| name == "FaceAngry"@
    ||| name == "BrowLeftY"@
    ||| name == "BrowRightY"@
    ||| name == "MouthX"@
    ||| name == "VoiceFrequencyPlusMouthSmile"@
}

/// The request that creates the parameter of a config entry.
pub open spec fn creation_request(entry: CalcFn) -> Pending {
    enveloped(
        "ParameterCreationRequest",
        Some(
            RequestData::ParameterCreation(
                ParameterCreation {
                    parameter_name: entry.name,
                    explanation: "Custom rusty-bridge param",
                    min: entry.min.value,
                    max: entry.max.value,
                    default_value: entry.default_value.value,
                },
            ),
        ),
    )
}

/// The requests that create the parameters which VTube Studio does not have, in config order.
pub open spec fn creation_requests(entries: Seq<CalcFn>) -> Seq<Pending> {
    entries.filter(|entry: CalcFn| !default_parameter(entry.name@)).map_values(
        |entry: CalcFn| creation_request(entry),
    )
}

/// Is the formula of every entry one that can be built?
pub open spec fn all_build(entries: Seq<CalcFn>) -> bool {
    forall|i: int| 0 <= i < entries.len() ==> operator_tree(#[trigger] entries[i].func@) is Some
}

/// Are these the formulas of the entries, one for one?
pub open spec fn formulas_of(formulas: Seq<Formula>, entries: Seq<CalcFn>) -> bool {
    &&& formulas.len() == entries.len()
    &&& forall|i: int|
        0 <= i < formulas.len() ==> {
            &&& (#[trigger] formulas[i]).wf()
            &&& formulas[i].name == entries[i].name
            &&& Some(formulas[i].tree) == operator_tree(entries[i].func@)
        }
}

pub fn is_default_parameter(name: &str) -> (yes: bool)
    ensures
        yes == default_parameter(name@),
{
    same_text(name, "FacePositionX") || same_text(name, "FacePositionY") || same_text(
        name,
        "FacePositionZ",
    ) || same_text(name, "FaceAngleX") || same_text(name, "FaceAngleY") || same_text(
        name,
        "FaceAngleZ",
    ) || same_text(name, "MouthSmile") || same_text(name, "MouthOpen") || same_text(name, "Brows")
        || same_text(name, "TongueOut") || same_text(name, "EyeOpenLeft") || same_text(
        name,
        "EyeOpenRight",
    ) || same_text(name, "EyeLeftX") || same_text(name, "EyeLeftY") || same_text(name, "EyeRightX")
        || same_text(name, "EyeRightY") || same_text(name, "CheekPuff") || same_text(
        name,
        "FaceAngry",
    ) || same_text(name, "BrowLeftY") || same_text(name, "BrowRightY") || same_text(name, "MouthX")
        || same_text(name, "VoiceFrequencyPlusMouthSmile")
}

/// The request that creates the parameter of an entry, unless VTube Studio has it.
pub fn parameter_request(entry: &CalcFn) -> (request: Option<Pending>)
    ensures
        request is None <==> default_parameter(entry.name@),
        request matches Some(r) ==> r == creation_request(*entry),
{
    if is_default_parameter(entry.name.as_str()) {
        return None;
    }
    Some(
        envelope(
            "ParameterCreationRequest",
            Some(
                RequestData::ParameterCreation(
                    ParameterCreation {
                        parameter_name: entry.name.clone(),
                        explanation: "Custom rusty-bridge param",
                        min: entry.min.value,
                        max: entry.max.value,
                        default_value: entry.default_value.value,
                    },
                ),
            ),
        ),
    )
}

/// Pairs the entries with their trees, and collects the requests for new parameters.
pub fn prepare(entries: &Vec<CalcFn>, trees: Vec<evalexpr::Node>) -> (prepared: (
    Vec<Formula>,
    VecDeque<Pending>,
))
    requires
        entries.len() == trees.len(),
    ensures
        prepared.0@.len() == entries@.len(),
        forall|i: int|
            0 <= i < entries@.len() ==> {
                &&& (#[trigger] prepared.0@[i]).wf()
                &&& prepared.0@[i].name == entries@[i].name
                &&& prepared.0@[i].tree == trees@[i]
            },
        prepared.1@ == creation_requests(entries@),
{
    let ghost given = trees@;
    let mut trees = trees;
    let mut formulas: Vec<Formula> = Vec::new();
    let mut requests: VecDeque<Pending> = VecDeque::new();
    let n: usize = entries.len();
    let mut i: usize = 0;
    proof {
        reveal(Seq::filter);
        assert(entries@.take(0) =~= Seq::<CalcFn>::empty());
        assert(creation_requests(entries@.take(0)) =~= Seq::<Pending>::empty());
    }
    while i < n
        invariant
            i <= n,
            n == entries@.len(),
            given.len() == n,
            trees@ == given.skip(i as int),
            formulas@.len() == i,
            forall|k: int|
                0 <= k < i ==> {
                    &&& (#[trigger] formulas@[k]).wf()
                    &&& formulas@[k].name == entries@[k].name
                    &&& formulas@[k].tree == given[k]
                },
            requests@ == creation_requests(entries@.take(i as int)),
        decreases n - i,
    {
        let tree = trees.remove(0);
        assert(trees@ =~= given.skip(i + 1));
        match parameter_request(&entries[i]) {
            Some(request) => requests.push_back(request),
            None => {},
        }
        proof {
            lemma_creation_requests_push(entries@.take(i as int), entries@[i as int]);
            assert(entries@.take(i as int).push(entries@[i as int]) =~= entries@.take(i + 1));
        }
        formulas.push(Formula::new(entries[i].name.clone(), tree));
        i = i + 1;
    }
    assert(entries@.take(n as int) =~= entries@);
    (formulas, requests)
}

proof fn lemma_creation_requests_push(entries: Seq<CalcFn>, entry: CalcFn)
    ensures
        creation_requests(entries.push(entry)) == if default_parameter(entry.name@) {
            creation_requests(entries)
        } else {
            creation_requests(entries).push(creation_request(entry))
        },
{
    let keep = |e: CalcFn| !default_parameter(e.name@);
    reveal(Seq::filter);
    assert(entries.push(entry).drop_last() =~= entries);
    let kept = entries.filter(keep);
    let make = |e: CalcFn| creation_request(e);
    assert(kept.push(entry).map_values(make) =~= kept.map_values(make).push(
        creation_request(entry),
    ));
}

impl VtsPc {
    /// Builds the formulas of a config and the requests for the parameters it needs. There is
    /// nothing to build where the config could not be read, and one formula that cannot be built
    /// spoils the whole config.
    pub fn precalc_cfg(entries: Option<Vec<CalcFn>>) -> (prepared: Option<
        (Vec<Formula>, VecDeque<Pending>),
    >)
        ensures
            prepared is Some <==> entries is Some && all_build(entries->0@),
            prepared matches Some(p) ==> formulas_of(p.0@, entries->0@) && p.1@
                == creation_requests(entries->0@),
    {
        let list: Vec<CalcFn> = match entries {
            Some(list) => list,
            None => {
                return None;
            },
        };
        let n: usize = list.len();
        let mut trees: Vec<evalexpr::Node> = Vec::new();
        let mut i: usize = 0;
        while i < n
            invariant
                i <= n,
                entries == Some(list),
                n == list@.len(),
                trees@.len() == i,
                forall|k: int|
                    0 <= k < i ==> Some(#[trigger] trees@[k]) == operator_tree(list@[k].func@),
            decreases n - i,
        {
            match build_operator_tree(list[i].func.as_str()) {
                Ok(tree) => {
                    trees.push(tree);
                },
                Err(_) => {
                    assert(operator_tree(list@[i as int].func@) is None);
                    assert(!all_build(list@));
                    return None;
                },
            }
            i = i + 1;
        }
        proof {
            assert forall|k: int| 0 <= k < n implies operator_tree(
                #[trigger] list@[k].func@,
            ) is Some by {
                assert(Some(trees@[k]) == operator_tree(list@[k].func@));
            }
        }
        Some(prepare(&list, trees))
    }
}

/// Parameters that VTube Studio has are reused; for every other name in the config a parameter is
/// asked for, and for no other name.
pub proof fn law_custom_parameters_are_created(entries: Seq<CalcFn>)
    ensures
        forall|i: int|
            0 <= i < entries.len() && !default_parameter(entries[i].name@) ==> creation_requests(
                entries,
            ).contains(creation_request(#[trigger] entries[i])),
        forall|k: int|
            0 <= k < creation_requests(entries).len() ==> exists|i: int|
                0 <= i < entries.len() && !default_parameter(entries[i].name@)
                    && #[trigger] creation_requests(entries)[k] == creation_request(
                    #[trigger] entries[i],
                ),
{
    let keep = |entry: CalcFn| !default_parameter(entry.name@);
    let kept = entries.filter(keep);
    let requests = creation_requests(entries);
    assert forall|i: int|
        0 <= i < entries.len() && !default_parameter(entries[i].name@) implies requests.contains(
        creation_request(#[trigger] entries[i]),
    ) by {
        assert(keep(entries[i]));
        entries.lemma_filter_contains(keep, i);
        let k = choose|k: int| 0 <= k < kept.len() && kept[k] == entries[i];
        assert(requests[k] == creation_request(entries[i]));
    }
    assert forall|k: int| 0 <= k < requests.len() implies exists|i: int|
        0 <= i < entries.len() && !default_parameter(entries[i].name@)
            && #[trigger] requests[k] == creation_request(#[trigger] entries[i]) by {
        entries.lemma_filter_pred(keep, k);
        assert(keep(kept[k]));
        assert(kept.contains(kept[k]));
        entries.lemma_filter_contains_rev(keep, kept[k]);
        let i = choose|i: int| 0 <= i < entries.len() && entries[i] == kept[k];
        assert(requests[k] == creation_request(entries[i]));
    }
}

/// A parameter is created with what its entry says: its name, its range and its default value.
pub proof fn law_parameter_is_created_as_its_entry_says(entry: CalcFn)
    ensures
        creation_request(entry).message_type == "ParameterCreationRequest",
        creation_request(entry).data matches Some(RequestData::ParameterCreation(creation)) && {
            &&& creation.parameter_name == entry.name
            &&& creation.min == entry.min.value
            &&& creation.max == entry.max.value
            &&& creation.default_value == entry.default_value.value
        },
{
}

/// Entries that differ in their name, in a bound of their range or in their default value give
/// different requests.
pub proof fn law_different_entries_give_different_requests(a: CalcFn, b: CalcFn)
    requires
        creation_request(a) == creation_request(b),
    ensures
        a.name == b.name,
        a.min.value == b.min.value,
        a.max.value == b.max.value,
        a.default_value.value == b.default_value.value,
{
    law_parameter_is_created_as_its_entry_says(a);
    law_parameter_is_created_as_its_entry_says(b);
}

/// The requests of a config are those of its parts, one after the other, and an entry alone gives
/// its own request or none.
pub proof fn law_requests_come_entry_by_entry(a: Seq<CalcFn>, b: Seq<CalcFn>, entry: CalcFn)
    ensures
        creation_requests(a + b) == creation_requests(a) + creation_requests(b),
        creation_requests(seq![entry]) == if default_parameter(entry.name@) {
            Seq::<Pending>::empty()
        } else {
            seq![creation_request(entry)]
        },
        creation_requests(Seq::empty()).len() == 0,
{
    let keep = |e: CalcFn| !default_parameter(e.name@);
    let make = |e: CalcFn| creation_request(e);
    Seq::filter_distributes_over_add(a, b, keep);
    assert((a.filter(keep) + b.filter(keep)).map_values(make) =~= a.filter(keep).map_values(make)
        + b.filter(keep).map_values(make));
    reveal(Seq::filter);
    assert(creation_requests(Seq::empty()) =~= Seq::<Pending>::empty());
    lemma_creation_requests_push(Seq::empty(), entry);
    assert(Seq::<CalcFn>::empty().push(entry) =~= seq![entry]);
    assert(Seq::<Pending>::empty().push(creation_request(entry)) =~= seq![
        creation_request(entry),
    ]);
}

/// Each formula drives the parameter that its own entry names, with the tree that the formula of
/// that entry gives and the variables that this tree reads.
pub proof fn law_formulas_belong_to_their_entries(
    formulas: Seq<Formula>,
    entries: Seq<CalcFn>,
    i: int,
)
    requires
        formulas_of(formulas, entries),
        0 <= i < entries.len(),
    ensures
        formulas.len() == entries.len(),
        formulas[i].name == entries[i].name,
        operator_tree(entries[i].func@) == Some(formulas[i].tree),
        crate::formula::texts(formulas[i].variables@) == crate::formula::read_variables(
            formulas[i].tree,
        ),
{
}

/// A config can be used exactly if none of its formulas fails: one more entry keeps it usable
/// exactly if its own formula can be built.
pub proof fn law_one_bad_formula_spoils_the_config(entries: Seq<CalcFn>, entry: CalcFn)
    ensures
        all_build(Seq::empty()),
        all_build(entries.push(entry)) <==> all_build(entries) && operator_tree(entry.func@)
            is Some,
{
    let more = entries.push(entry);
    if all_build(more) {
        assert forall|i: int| 0 <= i < entries.len() implies operator_tree(
            #[trigger] entries[i].func@,
        ) is Some by {
            assert(more[i] == entries[i]);
        }
        assert(operator_tree(more[entries.len() as int].func@) is Some);
    }
}

/// The parameters that VTube Studio comes with are position and angle of the face in each
/// direction, both eyes and brows, and the mouth and what goes with it; no other is.
pub proof fn law_default_parameters(name: Seq<char>)
    ensures
        default_parameter(name) <==> seq![
            "FacePositionX"@,
            "FacePositionY"@,
            "FacePositionZ"@,
            "FaceAngleX"@,
            "FaceAngleY"@,
            "FaceAngleZ"@,
            "MouthSmile"@,
            "MouthOpen"@,
            "Brows"@,
            "TongueOut"@,
            "EyeOpenLeft"@,
            "EyeOpenRight"@,
            "EyeLeftX"@,
            "EyeLeftY"@,
            "EyeRightX"@,
            "EyeRightY"@,
            "CheekPuff"@,
            "FaceAngry"@,
            "BrowLeftY"@,
            "BrowRightY"@,
            "MouthX"@,
            "VoiceFrequencyPlusMouthSmile"@,
        ].contains(name),
{
    let names = seq![
        "FacePositionX"@,
        "FacePositionY"@,
        "FacePositionZ"@,
        "FaceAngleX"@,
        "FaceAngleY"@,
        "FaceAngleZ"@,
        "MouthSmile"@,
        "MouthOpen"@,
        "Brows"@,
        "TongueOut"@,
        "EyeOpenLeft"@,
        "EyeOpenRight"@,
        "EyeLeftX"@,
        "EyeLeftY"@,
        "EyeRightX"@,
        "EyeRightY"@,
        "CheekPuff"@,
        "FaceAngry"@,
        "BrowLeftY"@,
        "BrowRightY"@,
        "MouthX"@,
        "VoiceFrequencyPlusMouthSmile"@,
    ];
    if default_parameter(name) {
        assert(name == names[0] || name == names[1] || name == names[2] || name == names[3] || name
            == names[4] || name == names[5] || name == names[6] || name == names[7] || name
            == names[8] || name == names[9] || name == names[10] || name == names[11] || name
            == names[12] || name == names[13] || name == names[14] || name == names[15] || name
            == names[16] || name == names[17] || name == names[18] || name == names[19] || name
            == names[20] || name == names[21]);
    }
}

/// Two entries that look the same are the same in all that they say.
pub proof fn law_entry_says_all(a: CalcFn, b: CalcFn)
    requires
        a@ == b@,
    ensures
        a.name@ == b.name@,
        a.func@ == b.func@,
        a.min == b.min,
        a.max == b.max,
        a.default_value == b.default_value,
{
}

} // verus!
