//! Formulas in the syntax of `evalexpr`.
use vstd::prelude::*;

verus! {

/// The operator tree of a formula.
#[verifier::external_type_specification]
#[verifier::external_body]
pub struct ExNode(evalexpr::Node);

/// Why a text is no formula.
#[verifier::external_type_specification]
#[verifier::external_body]
pub struct ExEvalexprError(evalexpr::EvalexprError);

/// The operator tree that `evalexpr::build_operator_tree` makes of a text, if it makes one.
pub uninterp spec fn operator_tree(text: Seq<char>) -> Option<evalexpr::Node>;

/// The variables that a tree reads, as `Node::iter_read_variable_identifiers` lists them.
pub uninterp spec fn read_variables(tree: evalexpr::Node) -> Seq<Seq<char>>;

/// The texts of a list of strings.
pub open spec fn texts(strings: Seq<String>) -> Seq<Seq<char>> {
    strings.map_values(|s: String| s@)
}

/// Calls `evalexpr::build_operator_tree`. Claims that success and the tree depend on the text
/// alone; which texts are formulas, and why others are not, is left to `evalexpr`.
#[verifier::external_body]
pub(crate) fn build_operator_tree(text: &str) -> (tree: Result<
    evalexpr::Node,
    evalexpr::EvalexprError,
>)
    ensures
        tree.ok() == operator_tree(text@),
{
    evalexpr::build_operator_tree(text)
}

/// Calls `Node::iter_read_variable_identifiers`. Claims that the names listed, in their order,
/// depend on the tree alone.
#[verifier::external_body]
pub(crate) fn read_variable_identifiers(tree: &evalexpr::Node) -> (names: Vec<String>)
    ensures
        texts(names@) == read_variables(*tree),
{
    tree.iter_read_variable_identifiers().map(|name| name.to_owned()).collect()
}

/// A formula that is ready for evaluation: the parameter it drives, its tree, and the variables
/// that the tree reads.
pub struct Formula {
    pub name: String,
    pub tree: evalexpr::Node,
    pub variables: Vec<String>,
}

impl Formula {
    /// Are the variables those that the tree reads?
    pub open spec fn wf(self) -> bool {
        texts(self.variables@) == read_variables(self.tree)
    }

    pub fn new(name: String, tree: evalexpr::Node) -> (formula: Formula)
        ensures
            formula.wf(),
            formula.name == name,
            formula.tree == tree,
    {
        let variables: Vec<String> = read_variable_identifiers(&tree);
        Formula { name, tree, variables }
    }
}

/// Is `text` a formula?
pub fn is_formula(text: &str) -> (yes: bool)
    ensures
        yes == operator_tree(text@) is Some,
{
    match build_operator_tree(text) {
        Ok(_) => true,
        Err(_) => false,
    }
}

/// The variables of a formula are those that its tree reads, name by name and in their order.
pub proof fn law_variables_are_those_of_the_tree(formula: Formula, i: int)
    requires
        formula.wf(),
    ensures
        formula.variables@.len() == read_variables(formula.tree).len(),
        0 <= i < formula.variables@.len() ==> formula.variables@[i]@ == read_variables(
            formula.tree,
        )[i],
{
    assert(texts(formula.variables@).len() == formula.variables@.len());
    if 0 <= i < formula.variables@.len() {
        assert(texts(formula.variables@)[i] == formula.variables@[i]@);
    }
}

} // verus!
