//! Laws that relate the operations on expressions, maps and sets to each
//! other. Each is stated over the models that the operations' own contracts
//! use, so it holds of every value that the operations return.

use crate::affine_expr::{AffineExpr, BinaryOperator, Expr};
use crate::ir::affine_map::{is_permutation_of, AffineMap, MapModel};
use crate::ir::integer_set::SetModel;
use vstd::prelude::*;
use vstd::std_specs::cmp::PartialEqSpec;

verus! {

/// A dimension expression made for a position is a dimension, and reading
/// its position gives that position back.
pub proof fn dimension_position_round_trip(position: int)
    ensures
        Expr::Dimension(position) is Dimension,
        Expr::Dimension(position).position() == position,
{
}

/// A symbol expression made for a position is a symbol, and reading its
/// position gives that position back.
pub proof fn symbol_position_round_trip(position: int)
    ensures
        Expr::Symbol(position) is Symbol,
        Expr::Symbol(position).position() == position,
{
}

/// A constant expression made for a value is a constant, and reading its
/// value gives that value back.
pub proof fn constant_value_round_trip(value: int)
    ensures
        Expr::Constant(value) is Constant,
        Expr::Constant(value).value() == value,
{
}

/// Joining two expressions with any of the five operators gives a binary
/// expression with that operator, whose left and right operands are the two
/// expressions.
pub proof fn binary_operands_round_trip(operator: BinaryOperator, lhs: Expr, rhs: Expr)
    ensures
        Expr::binary(operator, lhs, rhs) is Binary,
        Expr::binary(operator, lhs, rhs).has_operator(operator),
        forall|other: BinaryOperator|
            other != operator ==> !Expr::binary(operator, lhs, rhs).has_operator(other),
        Expr::binary(operator, lhs, rhs).lhs() == lhs,
        Expr::binary(operator, lhs, rhs).rhs() == rhs,
{
}

/// The first `count` results of a map followed by its other results are the
/// results of the map, in order.
pub proof fn sub_maps_partition_results(map: MapModel, count: int)
    requires
        0 <= count <= map.results.len(),
    ensures
        map.major_sub_map(count).results + map.minor_sub_map(map.results.len() - count).results
            == map.results,
{
    assert(map.major_sub_map(count).results + map.minor_sub_map(
        map.results.len() - count,
    ).results =~= map.results);
}

/// The map made from a list that holds every number below `size` exactly once
/// is a permutation.
pub proof fn permutation_map_is_permutation(permutation: Seq<u32>, size: int)
    requires
        is_permutation_of(permutation, size),
    ensures
        MapModel::permutation(permutation).is_permutation(),
        MapModel::permutation(permutation).is_projected_permutation(),
        MapModel::permutation(permutation).dims == size,
{
    let map = MapModel::permutation(permutation);
    assert forall|i: int, j: int| 0 <= i < j < map.results.len() implies #[trigger] map.results[i]
        != #[trigger] map.results[j] by {
        assert(permutation[i] != permutation[j]);
    }
}

/// The canonical empty set of any arity is canonically empty and has no
/// constraints.
pub proof fn empty_set_is_canonical_empty(dims: int, symbols: int)
    ensures
        SetModel::empty(dims, symbols).canonical_empty,
        SetModel::empty(dims, symbols).constraints.len() == 0,
        SetModel::empty(dims, symbols).equalities() == 0,
{
}

/// Two expressions that denote the same value compare equal, whether each
/// was built directly or read out of a larger expression, a map or a set.
pub proof fn equal_expressions_compare_equal<'c>(left: AffineExpr<'c>, right: AffineExpr<'c>)
    ensures
        left.eq_spec(&right) == (left@ == right@),
{
}

/// The operands read out of `constant op dimension` are the constant and
/// the dimension, the one result of a constant map is that constant, and
/// result `i` of an identity map is dimension `i`.
pub proof fn accessed_leaves_equal_constructed_leaves(
    operator: BinaryOperator,
    value: int,
    position: int,
    dims: int,
)
    requires
        0 <= position < dims,
    ensures
        Expr::binary(operator, Expr::Constant(value), Expr::Dimension(position)).lhs()
            == Expr::Constant(value),
        Expr::binary(operator, Expr::Constant(value), Expr::Dimension(position)).rhs()
            == Expr::Dimension(position),
        MapModel::constant(value).results[0] == Expr::Constant(value),
        MapModel::multi_dim_identity(dims).results[position] == Expr::Dimension(position),
{
}

/// Two maps that denote the same value compare equal, however each was
/// built.
pub proof fn equal_maps_compare_equal<'c>(left: AffineMap<'c>, right: AffineMap<'c>)
    ensures
        left.eq_spec(&right) == (left@ == right@),
{
}

/// The identity map on `dims` dimensions is the map built from the list of
/// those dimensions, the minor identity that keeps all of them, and the
/// permutation map of the list `0, 1, ..`; and it is an identity.
pub proof fn identity_map_constructions_agree(dims: int, ascending: Seq<u32>)
    requires
        0 <= dims,
        ascending.len() == dims,
        forall|i: int| 0 <= i < dims ==> ascending[i] == i,
    ensures
        MapModel::multi_dim_identity(dims) == MapModel::with_results(
            dims,
            0,
            Seq::new(dims as nat, |i: int| Expr::Dimension(i)),
        ),
        MapModel::multi_dim_identity(dims) == MapModel::minor_identity(dims, dims),
        MapModel::multi_dim_identity(dims) == MapModel::permutation(ascending),
        MapModel::multi_dim_identity(dims).is_identity(),
        MapModel::multi_dim_identity(dims).is_minor_identity(),
        MapModel::multi_dim_identity(dims).is_permutation(),
{
    let identity = MapModel::multi_dim_identity(dims);
    assert(identity.results =~= MapModel::minor_identity(dims, dims).results);
    assert(identity.results =~= MapModel::permutation(ascending).results);
}

} // verus!
