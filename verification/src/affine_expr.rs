//! Affine expressions: trees of dimensions, symbols and constants joined by
//! `+`, `*`, `mod`, `floordiv` and `ceildiv`.

use crate::context::Context;
use crate::ir::affine_map::AffineMap;
use std::marker::PhantomData;
use std::rc::Rc;
use vstd::prelude::*;

verus! {

/// The operator at the root of a binary expression.
#[derive(Clone, Copy, Debug, PartialEq, Eq, Structural)]
pub enum BinaryOperator {
    Add,
    Mul,
    Mod,
    FloorDiv,
    CeilDiv,
}

/// The mathematical model of an affine expression.
pub enum Expr {
    /// The dimension at the given position.
    Dimension(int),
    /// The symbol at the given position.
    Symbol(int),
    /// An integer constant.
    Constant(int),
    /// Two operands joined by an operator, left operand first.
    Binary(BinaryOperator, Box<Expr>, Box<Expr>),
}

impl Expr {
    /// The expression `lhs op rhs`. The operands stay as they are given:
    /// nothing is folded or reordered.
    pub open spec fn binary(operator: BinaryOperator, lhs: Expr, rhs: Expr) -> Expr {
        Expr::Binary(operator, Box::new(lhs), Box::new(rhs))
    }

    /// Whether the root joins two operands with `operator`.
    pub open spec fn has_operator(self, operator: BinaryOperator) -> bool {
        self matches Expr::Binary(found, _, _) && found == operator
    }

    /// The position of a dimension or of a symbol.
    pub open spec fn position(self) -> int
        recommends
            self is Dimension || self is Symbol,
    {
        match self {
            Expr::Dimension(position) => position,
            Expr::Symbol(position) => position,
            _ => 0,
        }
    }

    /// The value of a constant.
    pub open spec fn value(self) -> int
        recommends
            self is Constant,
    {
        match self {
            Expr::Constant(value) => value,
            _ => 0,
        }
    }

    /// The left operand of a binary expression.
    pub open spec fn lhs(self) -> Expr
        recommends
            self is Binary,
    {
        match self {
            Expr::Binary(_, lhs, _) => *lhs,
            _ => self,
        }
    }

    /// The right operand of a binary expression.
    pub open spec fn rhs(self) -> Expr
        recommends
            self is Binary,
    {
        match self {
            Expr::Binary(_, _, rhs) => *rhs,
            _ => self,
        }
    }

    /// Whether every product has a constant factor and every `mod`,
    /// `floordiv` and `ceildiv` has a constant right operand.
    pub open spec fn is_pure_affine(self) -> bool
        decreases self,
    {
        match self {
            Expr::Binary(operator, lhs, rhs) => {
                &&& lhs.is_pure_affine()
                &&& match operator {
                    BinaryOperator::Add => rhs.is_pure_affine(),
                    BinaryOperator::Mul => {
                        rhs.is_pure_affine() && (*lhs is Constant || *rhs is Constant)
                    },
                    _ => *rhs is Constant,
                }
            },
            _ => true,
        }
    }

    /// Whether no dimension occurs in the expression.
    pub open spec fn is_symbolic_or_constant(self) -> bool
        decreases self,
    {
        match self {
            Expr::Dimension(_) => false,
            Expr::Binary(_, lhs, rhs) => {
                lhs.is_symbolic_or_constant() && rhs.is_symbolic_or_constant()
            },
            _ => true,
        }
    }

    /// Whether the dimension at `position` occurs in the expression.
    pub open spec fn mentions_dimension(self, position: int) -> bool
        decreases self,
    {
        match self {
            Expr::Dimension(found) => found == position,
            Expr::Binary(_, lhs, rhs) => {
                lhs.mentions_dimension(position) || rhs.mentions_dimension(position)
            },
            _ => false,
        }
    }

    /// The expression with every occurrence of `target` replaced by
    /// `replacement`. An occurrence is found from the root downwards, and a
    /// replaced subtree is not searched again.
    pub open spec fn replace(self, target: Expr, replacement: Expr) -> Expr
        decreases self,
    {
        if self == target {
            replacement
        } else {
            match self {
                Expr::Binary(operator, lhs, rhs) => Expr::binary(
                    operator,
                    lhs.replace(target, replacement),
                    rhs.replace(target, replacement),
                ),
                _ => self,
            }
        }
    }

    /// The expression with each dimension that has an entry in `results`
    /// replaced by that entry. Dimensions beyond the end of `results`,
    /// symbols and constants stay as they are.
    pub open spec fn compose(self, results: Seq<Expr>) -> Expr
        decreases self,
    {
        match self {
            Expr::Dimension(position) => if 0 <= position < results.len() {
                results[position]
            } else {
                self
            },
            Expr::Binary(operator, lhs, rhs) => Expr::binary(
                operator,
                lhs.compose(results),
                rhs.compose(results),
            ),
            _ => self,
        }
    }
}

/// The models of a list of expressions, in the same order.
pub open spec fn expr_models<'c>(exprs: Seq<AffineExpr<'c>>) -> Seq<Expr> {
    Seq::new(exprs.len(), |i: int| exprs[i]@)
}

/// The stored form of an expression tree. Subtrees are shared, not copied.
#[derive(Debug)]
enum Node {
    Dimension(isize),
    Symbol(isize),
    Constant(i64),
    Binary(BinaryOperator, Rc<Node>, Rc<Node>),
}

/// A second pointer to the tree behind `node`.
///
/// Calls `Rc::clone`, which returns another pointer to the same allocation.
/// The contract claims that the tree behind the new pointer is the tree
/// behind the old one.
#[verifier::external_body]
fn share(node: &Rc<Node>) -> (shared: Rc<Node>)
    ensures
        shared == *node,
{
    Rc::clone(node)
}

impl Node {
    /// The expression that this tree stands for.
    spec fn model(self) -> Expr
        decreases self,
    {
        match self {
            Node::Dimension(position) => Expr::Dimension(position as int),
            Node::Symbol(position) => Expr::Symbol(position as int),
            Node::Constant(value) => Expr::Constant(value as int),
            Node::Binary(operator, lhs, rhs) => Expr::binary(operator, lhs.model(), rhs.model()),
        }
    }

    /// Whether two trees are the same tree.
    fn same(&self, other: &Node) -> (result: bool)
        ensures
            result == (*self == *other),
        decreases *self,
    {
        match (self, other) {
            (Node::Dimension(left), Node::Dimension(right)) => *left == *right,
            (Node::Symbol(left), Node::Symbol(right)) => *left == *right,
            (Node::Constant(left), Node::Constant(right)) => *left == *right,
            (
                Node::Binary(operator, lhs, rhs),
                Node::Binary(other_operator, other_lhs, other_rhs),
            ) => {
                *operator == *other_operator && (&**lhs).same(&**other_lhs)
                    && (&**rhs).same(&**other_rhs)
            },
            _ => false,
        }
    }

    fn is_constant(&self) -> (result: bool)
        ensures
            result == (self.model() is Constant),
    {
        matches!(self, Node::Constant(_))
    }

    fn pure_affine(&self) -> (result: bool)
        ensures
            result == self.model().is_pure_affine(),
        decreases *self,
    {
        match self {
            Node::Binary(operator, lhs, rhs) => {
                (&**lhs).pure_affine() && match operator {
                    BinaryOperator::Add => (&**rhs).pure_affine(),
                    BinaryOperator::Mul => (&**rhs).pure_affine()
                        && ((&**lhs).is_constant() || (&**rhs).is_constant()),
                    _ => (&**rhs).is_constant(),
                }
            },
            _ => true,
        }
    }

    fn symbolic_or_constant(&self) -> (result: bool)
        ensures
            result == self.model().is_symbolic_or_constant(),
        decreases *self,
    {
        match self {
            Node::Dimension(_) => false,
            Node::Binary(_, lhs, rhs) => {
                (&**lhs).symbolic_or_constant() && (&**rhs).symbolic_or_constant()
            },
            _ => true,
        }
    }

    fn mentions_dimension(&self, position: isize) -> (result: bool)
        ensures
            result == self.model().mentions_dimension(position as int),
        decreases *self,
    {
        match self {
            Node::Dimension(found) => *found == position,
            Node::Binary(_, lhs, rhs) => {
                (&**lhs).mentions_dimension(position) || (&**rhs).mentions_dimension(position)
            },
            _ => false,
        }
    }
}

/// The tree of `node` with each dimension replaced by the result of
/// `affine_map` at its position.
fn compose<'c>(node: &Rc<Node>, affine_map: &AffineMap<'c>) -> (result: Rc<Node>)
    ensures
        result.model() == node.model().compose(affine_map@.results),
    decreases *node,
{
    match &**node {
        Node::Dimension(position) => {
            if 0 <= *position && *position < affine_map.num_results() {
                affine_map.get_result(*position).node
            } else {
                share(node)
            }
        },
        Node::Binary(operator, lhs, rhs) => {
            let left = compose(lhs, affine_map);
            let right = compose(rhs, affine_map);
            Rc::new(Node::Binary(*operator, left, right))
        },
        _ => share(node),
    }
}

/// The tree of `node` with every occurrence of `target` replaced by
/// `replacement`.
fn replace(node: &Rc<Node>, target: &Rc<Node>, replacement: &Rc<Node>) -> (result: Rc<Node>)
    ensures
        result.model() == node.model().replace(target.model(), replacement.model()),
    decreases *node,
{
    proof {
        lemma_model_injective(&**node, &**target);
    }
    if (&**node).same(&**target) {
        share(replacement)
    } else {
        match &**node {
            Node::Binary(operator, lhs, rhs) => {
                let left = replace(lhs, target, replacement);
                let right = replace(rhs, target, replacement);
                Rc::new(Node::Binary(*operator, left, right))
            },
            _ => share(node),
        }
    }
}

/// Two trees stand for the same expression exactly when they are the same
/// tree.
proof fn lemma_model_injective(left: &Node, right: &Node)
    ensures
        (left.model() == right.model()) == (*left == *right),
    decreases *left,
{
    match (left, right) {
        (Node::Binary(_, lhs, rhs), Node::Binary(_, other_lhs, other_rhs)) => {
            lemma_model_injective(&**lhs, &**other_lhs);
            lemma_model_injective(&**rhs, &**other_rhs);
        },
        _ => {},
    }
}

/// An affine expression that lives in a context.
///
/// A copy of an expression, and an operand read out of it, point to the tree
/// that is already there.
#[derive(Debug)]
pub struct AffineExpr<'c> {
    node: Rc<Node>,
    _context: PhantomData<&'c Context>,
}

impl<'c> View for AffineExpr<'c> {
    type V = Expr;

    closed spec fn view(&self) -> Expr {
        self.node.model()
    }
}

impl<'c> Clone for AffineExpr<'c> {
    /// A copy that denotes the same expression in the same context.
    fn clone(&self) -> (copy: Self)
        ensures
            copy@ == self@,
    {
        AffineExpr { node: share(&self.node), _context: PhantomData }
    }
}

impl<'c> PartialEq for AffineExpr<'c> {
    /// Whether both denote the same expression.
    fn eq(&self, other: &Self) -> (result: bool) {
        proof {
            lemma_model_injective(&*self.node, &*other.node);
        }
        (&*self.node).same(&*other.node)
    }
}

impl<'c> vstd::std_specs::cmp::PartialEqSpecImpl for AffineExpr<'c> {
    open spec fn obeys_eq_spec() -> bool {
        true
    }

    open spec fn eq_spec(&self, other: &Self) -> bool {
        self@ == other@
    }
}

impl<'c> Eq for AffineExpr<'c> {

}

impl<'c> AffineExpr<'c> {
    /// Creates the dimension expression at `position`.
    pub fn new_dimension(context: &'c Context, position: isize) -> (expr: Self)
        ensures
            expr@ == Expr::Dimension(position as int),
    {
        AffineExpr { node: Rc::new(Node::Dimension(position)), _context: PhantomData }
    }

    /// Creates the symbol expression at `position`.
    pub fn new_symbol(context: &'c Context, position: isize) -> (expr: Self)
        ensures
            expr@ == Expr::Symbol(position as int),
    {
        AffineExpr { node: Rc::new(Node::Symbol(position)), _context: PhantomData }
    }

    /// Creates the constant expression with value `constant`.
    pub fn new_constant(context: &'c Context, constant: i64) -> (expr: Self)
        ensures
            expr@ == Expr::Constant(constant as int),
    {
        AffineExpr { node: Rc::new(Node::Constant(constant)), _context: PhantomData }
    }

    /// Whether the expression is a dimension.
    pub fn is_dimension(&self) -> (result: bool)
        ensures
            result == (self@ is Dimension),
    {
        matches!(&*self.node, Node::Dimension(_))
    }

    /// The position of a dimension expression.
    pub fn dimension_position(&self) -> (position: isize)
        requires
            self@ is Dimension,
        ensures
            position as int == self@.position(),
    {
        match &*self.node {
            Node::Dimension(position) => *position,
            _ => 0,
        }
    }

    /// Whether the expression is a symbol.
    pub fn is_symbol(&self) -> (result: bool)
        ensures
            result == (self@ is Symbol),
    {
        matches!(&*self.node, Node::Symbol(_))
    }

    /// The position of a symbol expression.
    pub fn symbol_position(&self) -> (position: isize)
        requires
            self@ is Symbol,
        ensures
            position as int == self@.position(),
    {
        match &*self.node {
            Node::Symbol(position) => *position,
            _ => 0,
        }
    }

    /// Whether the expression is a constant.
    pub fn is_constant(&self) -> (result: bool)
        ensures
            result == (self@ is Constant),
    {
        (&*self.node).is_constant()
    }

    /// The value of a constant expression.
    pub fn constant_value(&self) -> (value: i64)
        requires
            self@ is Constant,
        ensures
            value as int == self@.value(),
    {
        match &*self.node {
            Node::Constant(value) => *value,
            _ => 0,
        }
    }

    /// Creates the expression `lhs + rhs`.
    pub fn add(lhs: Self, rhs: Self) -> (expr: Self)
        ensures
            expr@ == Expr::binary(BinaryOperator::Add, lhs@, rhs@),
    {
        Self::join(BinaryOperator::Add, lhs, rhs)
    }

    /// Creates the expression `lhs * rhs`.
    pub fn multiply(lhs: Self, rhs: Self) -> (expr: Self)
        ensures
            expr@ == Expr::binary(BinaryOperator::Mul, lhs@, rhs@),
    {
        Self::join(BinaryOperator::Mul, lhs, rhs)
    }

    /// Creates the expression `lhs mod rhs`.
    pub fn modulus(lhs: Self, rhs: Self) -> (expr: Self)
        ensures
            expr@ == Expr::binary(BinaryOperator::Mod, lhs@, rhs@),
    {
        Self::join(BinaryOperator::Mod, lhs, rhs)
    }

    /// Creates the expression `lhs floordiv rhs`.
    pub fn floor_div(lhs: Self, rhs: Self) -> (expr: Self)
        ensures
            expr@ == Expr::binary(BinaryOperator::FloorDiv, lhs@, rhs@),
    {
        Self::join(BinaryOperator::FloorDiv, lhs, rhs)
    }

    /// Creates the expression `lhs ceildiv rhs`.
    pub fn ceil_div(lhs: Self, rhs: Self) -> (expr: Self)
        ensures
            expr@ == Expr::binary(BinaryOperator::CeilDiv, lhs@, rhs@),
    {
        Self::join(BinaryOperator::CeilDiv, lhs, rhs)
    }

    fn join(operator: BinaryOperator, lhs: Self, rhs: Self) -> (expr: Self)
        ensures
            expr@ == Expr::binary(operator, lhs@, rhs@),
    {
        AffineExpr {
            node: Rc::new(Node::Binary(operator, lhs.node, rhs.node)),
            _context: PhantomData,
        }
    }

    fn has_operator(&self, operator: BinaryOperator) -> (result: bool)
        ensures
            result == self@.has_operator(operator),
    {
        match &*self.node {
            Node::Binary(found, _, _) => *found == operator,
            _ => false,
        }
    }

    /// Whether the expression is a sum.
    pub fn is_add(&self) -> (result: bool)
        ensures
            result == self@.has_operator(BinaryOperator::Add),
    {
        self.has_operator(BinaryOperator::Add)
    }

    /// Whether the expression is a product.
    pub fn is_mul(&self) -> (result: bool)
        ensures
            result == self@.has_operator(BinaryOperator::Mul),
    {
        self.has_operator(BinaryOperator::Mul)
    }

    /// Whether the expression is a remainder.
    pub fn is_mod(&self) -> (result: bool)
        ensures
            result == self@.has_operator(BinaryOperator::Mod),
    {
        self.has_operator(BinaryOperator::Mod)
    }

    /// Whether the expression is a division rounded down.
    pub fn is_floor_div(&self) -> (result: bool)
        ensures
            result == self@.has_operator(BinaryOperator::FloorDiv),
    {
        self.has_operator(BinaryOperator::FloorDiv)
    }

    /// Whether the expression is a division rounded up.
    pub fn is_ceil_div(&self) -> (result: bool)
        ensures
            result == self@.has_operator(BinaryOperator::CeilDiv),
    {
        self.has_operator(BinaryOperator::CeilDiv)
    }

    /// Whether the expression joins two operands.
    pub fn is_binary(&self) -> (result: bool)
        ensures
            result == (self@ is Binary),
    {
        matches!(&*self.node, Node::Binary(_, _, _))
    }

    /// The left operand of a binary expression.
    pub fn binary_lhs(&self) -> (lhs: Self)
        requires
            self@ is Binary,
        ensures
            lhs@ == self@.lhs(),
    {
        match &*self.node {
            Node::Binary(_, lhs, _) => AffineExpr { node: share(lhs), _context: PhantomData },
            _ => self.clone(),
        }
    }

    /// The right operand of a binary expression.
    pub fn binary_rhs(&self) -> (rhs: Self)
        requires
            self@ is Binary,
        ensures
            rhs@ == self@.rhs(),
    {
        match &*self.node {
            Node::Binary(_, _, rhs) => AffineExpr { node: share(rhs), _context: PhantomData },
            _ => self.clone(),
        }
    }

    /// Whether the expression is made of symbols and constants only.
    pub fn is_symbolic_or_constant(&self) -> (result: bool)
        ensures
            result == self@.is_symbolic_or_constant(),
    {
        (&*self.node).symbolic_or_constant()
    }

    /// Whether the expression multiplies, divides and takes remainders by
    /// constants only.
    pub fn is_pure_affine(&self) -> (result: bool)
        ensures
            result == self@.is_pure_affine(),
    {
        (&*self.node).pure_affine()
    }

    /// Whether the dimension at `position` occurs in the expression.
    pub fn is_function_of_dimension(&self, position: isize) -> (result: bool)
        ensures
            result == self@.mentions_dimension(position as int),
    {
        (&*self.node).mentions_dimension(position)
    }

    /// The expression with each dimension replaced by the result of
    /// `affine_map` at the dimension's position. A dimension for which the map
    /// has no result stays, and so do symbols and constants.
    pub fn from_map(&self, affine_map: AffineMap<'c>) -> (expr: Self)
        ensures
            expr@ == self@.compose(affine_map@.results),
    {
        AffineExpr { node: compose(&self.node, &affine_map), _context: PhantomData }
    }

    /// The expression with every occurrence of `target` replaced by
    /// `replacement`.
    pub(crate) fn replace(&self, target: &Self, replacement: &Self) -> (expr: Self)
        ensures
            expr@ == self@.replace(target@, replacement@),
    {
        AffineExpr {
            node: self::replace(&self.node, &target.node, &replacement.node),
            _context: PhantomData,
        }
    }
}

} // verus!
