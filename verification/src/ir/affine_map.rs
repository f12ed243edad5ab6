//! Affine maps: an ordered list of result expressions over a fixed number of
//! dimensions and symbols.

use crate::affine_expr::{expr_models, AffineExpr, Expr};
use crate::context::Context;
use crate::laws::permutation_map_is_permutation;
use std::marker::PhantomData;
use vstd::prelude::*;

verus! {

/// The mathematical model of an affine map.
pub struct MapModel {
    /// Whether this is the null map, the marker that stands for "no map".
    pub null: bool,
    /// The number of dimensions.
    pub dims: int,
    /// The number of symbols.
    pub symbols: int,
    /// The results, most major first.
    pub results: Seq<Expr>,
}

/// Whether `permutation` lists every number below `size` exactly once.
pub open spec fn is_permutation_of(permutation: Seq<u32>, size: int) -> bool {
    &&& permutation.len() == size
    &&& forall|i: int| 0 <= i < permutation.len() ==> (#[trigger] permutation[i]) < size
    &&& forall|i: int, j: int|
        0 <= i < j < permutation.len() ==> #[trigger] permutation[i] != #[trigger] permutation[j]
}

impl MapModel {
    /// The null map. It has no dimensions, symbols or results.
    pub open spec fn null_map() -> MapModel {
        MapModel { null: true, dims: 0, symbols: 0, results: Seq::empty() }
    }

    /// The map with the given arity and results.
    pub open spec fn with_results(dims: int, symbols: int, results: Seq<Expr>) -> MapModel {
        MapModel { null: false, dims, symbols, results }
    }

    /// The map without dimensions or symbols whose one result is `value`.
    pub open spec fn constant(value: int) -> MapModel {
        Self::with_results(0, 0, seq![Expr::Constant(value)])
    }

    /// The map that sends `dims` dimensions to themselves.
    pub open spec fn multi_dim_identity(dims: int) -> MapModel {
        Self::with_results(dims, 0, Seq::new(dims as nat, |i: int| Expr::Dimension(i)))
    }

    /// The map that sends `dims` dimensions to the last `results` of them.
    pub open spec fn minor_identity(dims: int, results: int) -> MapModel {
        Self::with_results(
            dims,
            0,
            Seq::new(results as nat, |i: int| Expr::Dimension(dims - results + i)),
        )
    }

    /// The map whose result `i` is the dimension `permutation[i]`.
    pub open spec fn permutation(permutation: Seq<u32>) -> MapModel {
        Self::with_results(
            permutation.len() as int,
            0,
            Seq::new(permutation.len(), |i: int| Expr::Dimension(permutation[i] as int)),
        )
    }

    /// The map of the given arity without results.
    pub open spec fn zero_result(dims: int, symbols: int) -> MapModel {
        Self::with_results(dims, symbols, Seq::empty())
    }

    /// The map without dimensions, symbols or results.
    pub open spec fn empty() -> MapModel {
        Self::zero_result(0, 0)
    }

    /// Whether result `i` is dimension `i`, for as many results as there are
    /// dimensions.
    pub open spec fn is_identity(self) -> bool {
        &&& !self.null
        &&& self.dims == self.results.len()
        &&& forall|i: int| 0 <= i < self.results.len() ==> self.results[i] == Expr::Dimension(i)
    }

    /// Whether the map is the minor identity of its own arity.
    pub open spec fn is_minor_identity(self) -> bool {
        &&& self.results.len() <= self.dims
        &&& self == Self::minor_identity(self.dims, self.results.len() as int)
    }

    /// Whether the map has no dimensions, symbols or results.
    pub open spec fn is_empty(self) -> bool {
        &&& !self.null
        &&& self.dims == 0
        &&& self.symbols == 0
        &&& self.results.len() == 0
    }

    /// Whether the map has a constant as its one result.
    pub open spec fn is_single_constant(self) -> bool {
        &&& !self.null
        &&& self.results.len() == 1
        &&& self.results[0] is Constant
    }

    /// Whether the map has no symbols and its results are dimensions of the
    /// map, no two of them the same.
    pub open spec fn is_projected_permutation(self) -> bool {
        &&& !self.null
        &&& self.symbols == 0
        &&& forall|i: int|
            0 <= i < self.results.len() ==> (#[trigger] self.results[i]) is Dimension && 0
                <= self.results[i].position() < self.dims
        &&& forall|i: int, j: int|
            0 <= i < j < self.results.len() ==> #[trigger] self.results[i]
                != #[trigger] self.results[j]
    }

    /// Whether the map has no symbols and its results are all the dimensions
    /// of the map, each one once.
    pub open spec fn is_permutation(self) -> bool {
        &&& self.dims == self.results.len()
        &&& self.is_projected_permutation()
    }

    /// The map of the same arity whose result `i` is the result at
    /// `positions[i]` of this map.
    pub open spec fn sub_map(self, positions: Seq<isize>) -> MapModel {
        Self::with_results(
            self.dims,
            self.symbols,
            Seq::new(positions.len(), |i: int| self.results[positions[i] as int]),
        )
    }

    /// The map of the first `count` results: the null map for zero, this map
    /// where it has no more than `count` results.
    pub open spec fn major_sub_map(self, count: int) -> MapModel {
        if count == 0 {
            Self::null_map()
        } else if count >= self.results.len() {
            self
        } else {
            Self::with_results(self.dims, self.symbols, self.results.subrange(0, count))
        }
    }

    /// The map of the last `count` results: the null map for zero, this map
    /// where it has no more than `count` results.
    pub open spec fn minor_sub_map(self, count: int) -> MapModel {
        if count == 0 {
            Self::null_map()
        } else if count >= self.results.len() {
            self
        } else {
            Self::with_results(
                self.dims,
                self.symbols,
                self.results.subrange(self.results.len() - count, self.results.len() as int),
            )
        }
    }

    /// The map of the given arity whose results are those of this map with
    /// every occurrence of `target` replaced by `replacement`.
    pub open spec fn replace(
        self,
        target: Expr,
        replacement: Expr,
        dims: int,
        symbols: int,
    ) -> MapModel {
        Self::with_results(
            dims,
            symbols,
            Seq::new(self.results.len(), |i: int| self.results[i].replace(target, replacement)),
        )
    }
}

/// An affine map that lives in a context.
#[derive(Debug)]
pub struct AffineMap<'c> {
    null: bool,
    num_dims: isize,
    num_symbols: isize,
    results: Vec<AffineExpr<'c>>,
    _context: PhantomData<&'c Context>,
}

impl<'c> View for AffineMap<'c> {
    type V = MapModel;

    closed spec fn view(&self) -> MapModel {
        MapModel {
            null: self.null,
            dims: self.num_dims as int,
            symbols: self.num_symbols as int,
            results: expr_models(self.results@),
        }
    }
}

/// Copies the expressions from `start` up to `end`, one by one.
fn copy_range<'c>(exprs: &Vec<AffineExpr<'c>>, start: usize, end: usize) -> (copies: Vec<
    AffineExpr<'c>,
>)
    requires
        start <= end <= exprs@.len(),
    ensures
        expr_models(copies@) == expr_models(exprs@).subrange(start as int, end as int),
        copies@.len() == end - start,
{
    let mut copies: Vec<AffineExpr<'c>> = Vec::new();
    let mut index: usize = start;
    while index < end
        invariant
            start <= index <= end <= exprs@.len(),
            copies@.len() == index - start,
            forall|i: int|
                0 <= i < index - start ==> (#[trigger] copies@[i])@ == exprs@[start + i]@,
        decreases end - index,
    {
        copies.push(exprs[index].clone());
        index += 1;
    }
    assert(expr_models(copies@) =~= expr_models(exprs@).subrange(start as int, end as int));
    copies
}

/// Copies a list of expressions one by one.
fn copy_exprs<'c>(exprs: &Vec<AffineExpr<'c>>) -> (copies: Vec<AffineExpr<'c>>)
    ensures
        expr_models(copies@) == expr_models(exprs@),
        copies@.len() == exprs@.len(),
{
    let copies = copy_range(exprs, 0, exprs.len());
    assert(expr_models(exprs@).subrange(0, exprs@.len() as int) =~= expr_models(exprs@));
    copies
}

impl<'c> Clone for AffineMap<'c> {
    /// A copy that denotes the same map in the same context.
    fn clone(&self) -> (copy: Self)
        ensures
            copy@ == self@,
    {
        proof {
            use_type_invariant(self);
        }
        AffineMap {
            null: self.null,
            num_dims: self.num_dims,
            num_symbols: self.num_symbols,
            results: copy_exprs(&self.results),
            _context: PhantomData,
        }
    }
}

impl<'c> AffineMap<'c> {
    #[verifier::type_invariant]
    spec fn well_formed(self) -> bool {
        &&& 0 <= self.num_dims
        &&& 0 <= self.num_symbols
        &&& self.num_dims + self.num_symbols <= isize::MAX
        &&& self.results@.len() <= isize::MAX
        &&& self.null ==> self.num_dims == 0 && self.num_symbols == 0 && self.results@.len() == 0
    }

    /// Creates the map with the given arity and results.
    pub fn from(
        context: &'c Context,
        dim_count: isize,
        symbol_count: isize,
        affine_exprs: Vec<AffineExpr<'c>>,
    ) -> (map: Self)
        requires
            0 <= dim_count,
            0 <= symbol_count,
            dim_count + symbol_count <= isize::MAX,
            affine_exprs@.len() <= isize::MAX,
        ensures
            map@ == MapModel::with_results(
                dim_count as int,
                symbol_count as int,
                expr_models(affine_exprs@),
            ),
    {
        AffineMap {
            null: false,
            num_dims: dim_count,
            num_symbols: symbol_count,
            results: affine_exprs,
            _context: PhantomData,
        }
    }

    /// Creates the map without dimensions or symbols whose one result is the
    /// constant `val`.
    pub fn from_constant(context: &'c Context, val: i64) -> (map: Self)
        ensures
            map@ == MapModel::constant(val as int),
    {
        let mut results: Vec<AffineExpr<'c>> = Vec::new();
        results.push(AffineExpr::new_constant(context, val));
        assert(expr_models(results@) =~= seq![Expr::Constant(val as int)]);
        AffineMap { null: false, num_dims: 0, num_symbols: 0, results, _context: PhantomData }
    }

    /// Creates the map that sends `num_dims` dimensions to themselves.
    pub fn from_multi_dim_identity(context: &'c Context, num_dims: isize) -> (map: Self)
        requires
            0 <= num_dims,
        ensures
            map@ == MapModel::multi_dim_identity(num_dims as int),
    {
        let map = Self::from_minor_identity(context, num_dims, num_dims);
        assert(map@.results =~= MapModel::multi_dim_identity(num_dims as int).results);
        map
    }

    /// Creates the map that sends `dims` dimensions to the last `results` of
    /// them.
    pub fn from_minor_identity(context: &'c Context, dims: isize, results: isize) -> (map: Self)
        requires
            0 <= results <= dims,
        ensures
            map@ == MapModel::minor_identity(dims as int, results as int),
    {
        let first: isize = dims - results;
        let mut exprs: Vec<AffineExpr<'c>> = Vec::new();
        let mut index: isize = 0;
        while index < results
            invariant
                0 <= index <= results <= dims,
                first == dims - results,
                exprs@.len() == index,
                forall|i: int|
                    0 <= i < index ==> (#[trigger] exprs@[i])@ == Expr::Dimension(first + i),
            decreases results - index,
        {
            exprs.push(AffineExpr::new_dimension(context, first + index));
            index += 1;
        }
        assert(expr_models(exprs@) =~= MapModel::minor_identity(
            dims as int,
            results as int,
        ).results);
        AffineMap {
            null: false,
            num_dims: dims,
            num_symbols: 0,
            results: exprs,
            _context: PhantomData,
        }
    }

    /// Creates the map whose result `i` is the dimension `permutation[i]`, for a
    /// list that holds every number below `size` exactly once.
    pub fn from_permutation(context: &'c Context, size: isize, permutation: Vec<u32>) -> (map: Self)
        requires
            is_permutation_of(permutation@, size as int),
        ensures
            map@ == MapModel::permutation(permutation@),
            map@.is_permutation(),
    {
        proof {
            permutation_map_is_permutation(permutation@, size as int);
        }
        let mut exprs: Vec<AffineExpr<'c>> = Vec::new();
        let mut index: usize = 0;
        while index < permutation.len()
            invariant
                index <= permutation@.len(),
                is_permutation_of(permutation@, size as int),
                exprs@.len() == index,
                forall|i: int|
                    0 <= i < index ==> (#[trigger] exprs@[i])@ == Expr::Dimension(
                        permutation@[i] as int,
                    ),
            decreases permutation@.len() - index,
        {
            let target: u32 = permutation[index];
            exprs.push(AffineExpr::new_dimension(context, target as isize));
            index += 1;
        }
        assert(expr_models(exprs@) =~= MapModel::permutation(permutation@).results);
        AffineMap {
            null: false,
            num_dims: size,
            num_symbols: 0,
            results: exprs,
            _context: PhantomData,
        }
    }

    /// Creates the map without dimensions, symbols or results.
    pub fn empty(context: &'c Context) -> (map: Self)
        ensures
            map@ == MapModel::empty(),
    {
        Self::zero_result(context, 0, 0)
    }

    /// Creates the map of the given arity without results.
    pub fn zero_result(context: &'c Context, dim_count: isize, symbol_count: isize) -> (map: Self)
        requires
            0 <= dim_count,
            0 <= symbol_count,
            dim_count + symbol_count <= isize::MAX,
        ensures
            map@ == MapModel::zero_result(dim_count as int, symbol_count as int),
    {
        let results: Vec<AffineExpr<'c>> = Vec::new();
        assert(expr_models(results@) =~= Seq::empty());
        AffineMap {
            null: false,
            num_dims: dim_count,
            num_symbols: symbol_count,
            results,
            _context: PhantomData,
        }
    }

    /// Whether this is the null map.
    pub fn is_null(&self) -> (result: bool)
        ensures
            result == self@.null,
    {
        self.null
    }

    /// The number of dimensions.
    pub fn num_dimensions(&self) -> (count: isize)
        ensures
            count as int == self@.dims,
    {
        self.num_dims
    }

    /// The number of symbols.
    pub fn num_symbols(&self) -> (count: isize)
        ensures
            count as int == self@.symbols,
    {
        self.num_symbols
    }

    /// The number of dimensions and symbols together.
    pub fn num_inputs(&self) -> (count: isize)
        ensures
            count as int == self@.dims + self@.symbols,
    {
        proof {
            use_type_invariant(self);
        }
        self.num_dims + self.num_symbols
    }

    /// The number of results.
    pub fn num_results(&self) -> (count: isize)
        ensures
            count as int == self@.results.len(),
    {
        proof {
            use_type_invariant(self);
        }
        self.results.len() as isize
    }

    /// The result at `pos`.
    pub fn get_result(&self, pos: isize) -> (expr: AffineExpr<'c>)
        requires
            0 <= pos < self@.results.len(),
        ensures
            expr@ == self@.results[pos as int],
    {
        self.results[pos as usize].clone()
    }

    /// Whether result `i` is dimension `i`, for as many results as there are
    /// dimensions.
    pub fn is_identity(&self) -> (result: bool)
        ensures
            result == self@.is_identity(),
    {
        proof {
            use_type_invariant(self);
        }
        if self.null || self.num_dims != self.results.len() as isize {
            return false;
        }
        let mut index: usize = 0;
        while index < self.results.len()
            invariant
                index <= self.results@.len() <= isize::MAX,
                forall|i: int| 0 <= i < index ==> self@.results[i] == Expr::Dimension(i),
            decreases self.results@.len() - index,
        {
            let expr = &self.results[index];
            if !expr.is_dimension() || expr.dimension_position() != index as isize {
                assert(self@.results[index as int] != Expr::Dimension(index as int));
                return false;
            }
            index += 1;
        }
        true
    }

    /// Whether the results are the last dimensions of the map, in order, and
    /// the map has no symbols.
    pub fn is_minor_identity(&self) -> (result: bool)
        ensures
            result == self@.is_minor_identity(),
    {
        proof {
            use_type_invariant(self);
        }
        let count: isize = self.results.len() as isize;
        if count > self.num_dims {
            return false;
        }
        let ghost expected = MapModel::minor_identity(self@.dims, count as int);
        if self.null || self.num_symbols != 0 {
            return false;
        }
        let first: isize = self.num_dims - count;
        let mut index: usize = 0;
        while index < self.results.len()
            invariant
                index <= self.results@.len() == count <= self.num_dims,
                first == self.num_dims - count,
                expected == MapModel::minor_identity(self@.dims, count as int),
                forall|i: int| 0 <= i < index ==> self@.results[i] == Expr::Dimension(first + i),
            decreases self.results@.len() - index,
        {
            let expr = &self.results[index];
            if !expr.is_dimension() || expr.dimension_position() != first + index as isize {
                assert(self@.results[index as int] != expected.results[index as int]);
                return false;
            }
            index += 1;
        }
        assert(self@.results =~= expected.results);
        true
    }

    /// Whether the map has no dimensions, symbols or results.
    pub fn is_empty(&self) -> (result: bool)
        ensures
            result == self@.is_empty(),
    {
        !self.null && self.num_dims == 0 && self.num_symbols == 0 && self.results.len() == 0
    }

    /// Whether the map has a constant as its one result.
    pub fn is_single_constant(&self) -> (result: bool)
        ensures
            result == self@.is_single_constant(),
    {
        !self.null && self.results.len() == 1 && self.results[0].is_constant()
    }

    /// The constant that is the one result of the map.
    pub fn to_single_constant_result(&self) -> (value: i64)
        requires
            self@.is_single_constant(),
        ensures
            value as int == self@.results[0].value(),
    {
        self.results[0].constant_value()
    }

    /// Whether the map has no symbols and its results are dimensions of the
    /// map, no two of them the same.
    pub fn is_projected_permutation(&self) -> (result: bool)
        ensures
            result == self@.is_projected_permutation(),
    {
        if self.null || self.num_symbols != 0 {
            return false;
        }
        let mut index: usize = 0;
        while index < self.results.len()
            invariant
                index <= self.results@.len(),
                forall|i: int|
                    0 <= i < index ==> (#[trigger] self@.results[i]) is Dimension && 0
                        <= self@.results[i].position() < self@.dims,
                forall|i: int, j: int|
                    0 <= i < j < index ==> #[trigger] self@.results[i]
                        != #[trigger] self@.results[j],
            decreases self.results@.len() - index,
        {
            let expr = &self.results[index];
            if !expr.is_dimension() {
                assert(!(self@.results[index as int] is Dimension));
                return false;
            }
            let position: isize = expr.dimension_position();
            if position < 0 || position >= self.num_dims {
                assert(!(0 <= self@.results[index as int].position() < self@.dims));
                return false;
            }
            let mut earlier: usize = 0;
            while earlier < index
                invariant
                    earlier <= index < self.results@.len(),
                    self@.results[index as int] == Expr::Dimension(position as int),
                    forall|i: int|
                        0 <= i < index ==> (#[trigger] self@.results[i]) is Dimension,
                    forall|i: int|
                        0 <= i < earlier ==> #[trigger] self@.results[i]
                            != self@.results[index as int],
                decreases index - earlier,
            {
                assert(self@.results[earlier as int] is Dimension);
                if self.results[earlier].dimension_position() == position {
                    assert(self@.results[earlier as int] == self@.results[index as int]);
                    return false;
                }
                earlier += 1;
            }
            index += 1;
        }
        true
    }

    /// Whether the map has no symbols and its results are all the dimensions
    /// of the map, each one once.
    pub fn is_permutation(&self) -> (result: bool)
        ensures
            result == self@.is_permutation(),
    {
        proof {
            use_type_invariant(self);
        }
        self.num_dims == self.results.len() as isize && self.is_projected_permutation()
    }

    /// The map of the same arity whose result `i` is the result at
    /// `result_pos[i]` of this map.
    pub fn sub_map(&self, size: isize, result_pos: Vec<isize>) -> (map: Self)
        requires
            size == result_pos@.len(),
            forall|i: int|
                0 <= i < result_pos@.len() ==> 0 <= (#[trigger] result_pos@[i])
                    < self@.results.len(),
        ensures
            map@ == self@.sub_map(result_pos@),
    {
        proof {
            use_type_invariant(self);
        }
        let mut exprs: Vec<AffineExpr<'c>> = Vec::new();
        let mut index: usize = 0;
        while index < result_pos.len()
            invariant
                index <= result_pos@.len(),
                forall|i: int|
                    0 <= i < result_pos@.len() ==> 0 <= (#[trigger] result_pos@[i])
                        < self.results@.len(),
                exprs@.len() == index,
                forall|i: int|
                    0 <= i < index ==> (#[trigger] exprs@[i])@
                        == self@.results[result_pos@[i] as int],
            decreases result_pos@.len() - index,
        {
            let position: isize = result_pos[index];
            exprs.push(self.results[position as usize].clone());
            index += 1;
        }
        assert(expr_models(exprs@) =~= self@.sub_map(result_pos@).results);
        AffineMap {
            null: false,
            num_dims: self.num_dims,
            num_symbols: self.num_symbols,
            results: exprs,
            _context: PhantomData,
        }
    }

    /// The map of the first `num_results` results: the null map for zero, a
    /// copy of this map where it has no more than `num_results` results.
    pub fn major_sub_map(&self, num_results: isize) -> (map: Self)
        requires
            0 <= num_results,
        ensures
            map@ == self@.major_sub_map(num_results as int),
    {
        proof {
            use_type_invariant(self);
        }
        if num_results == 0 {
            Self::null_map()
        } else if num_results as usize >= self.results.len() {
            self.clone()
        } else {
            AffineMap {
                null: false,
                num_dims: self.num_dims,
                num_symbols: self.num_symbols,
                results: copy_range(&self.results, 0, num_results as usize),
                _context: PhantomData,
            }
        }
    }

    /// The map of the last `num_results` results: the null map for zero, a
    /// copy of this map where it has no more than `num_results` results.
    pub fn minor_sub_map(&self, num_results: isize) -> (map: Self)
        requires
            0 <= num_results,
        ensures
            map@ == self@.minor_sub_map(num_results as int),
    {
        proof {
            use_type_invariant(self);
        }
        if num_results == 0 {
            Self::null_map()
        } else if num_results as usize >= self.results.len() {
            self.clone()
        } else {
            let count: usize = self.results.len();
            AffineMap {
                null: false,
                num_dims: self.num_dims,
                num_symbols: self.num_symbols,
                results: copy_range(&self.results, count - num_results as usize, count),
                _context: PhantomData,
            }
        }
    }

    fn null_map() -> (map: Self)
        ensures
            map@ == MapModel::null_map(),
    {
        let results: Vec<AffineExpr<'c>> = Vec::new();
        assert(expr_models(results@) =~= Seq::empty());
        AffineMap { null: true, num_dims: 0, num_symbols: 0, results, _context: PhantomData }
    }

    /// The map of the given arity whose results are those of this map with
    /// every occurrence of `expression` replaced by `replacement`.
    pub fn replace(
        &self,
        expression: AffineExpr<'c>,
        replacement: AffineExpr<'c>,
        num_result_dims: isize,
        num_result_symbols: isize,
    ) -> (map: Self)
        requires
            0 <= num_result_dims,
            0 <= num_result_symbols,
            num_result_dims + num_result_symbols <= isize::MAX,
        ensures
            map@ == self@.replace(
                expression@,
                replacement@,
                num_result_dims as int,
                num_result_symbols as int,
            ),
    {
        proof {
            use_type_invariant(self);
        }
        let mut exprs: Vec<AffineExpr<'c>> = Vec::new();
        let mut index: usize = 0;
        while index < self.results.len()
            invariant
                index <= self.results@.len(),
                exprs@.len() == index,
                forall|i: int|
                    0 <= i < index ==> (#[trigger] exprs@[i])@ == self@.results[i].replace(
                        expression@,
                        replacement@,
                    ),
            decreases self.results@.len() - index,
        {
            exprs.push(self.results[index].replace(&expression, &replacement));
            index += 1;
        }
        assert(expr_models(exprs@) =~= self@.replace(
            expression@,
            replacement@,
            num_result_dims as int,
            num_result_symbols as int,
        ).results);
        AffineMap {
            null: false,
            num_dims: num_result_dims,
            num_symbols: num_result_symbols,
            results: exprs,
            _context: PhantomData,
        }
    }
}

impl<'c> PartialEq for AffineMap<'c> {
    /// Whether both denote the same map.
    fn eq(&self, other: &Self) -> (result: bool) {
        if self.null != other.null || self.num_dims != other.num_dims || self.num_symbols
            != other.num_symbols || self.results.len() != other.results.len() {
            assert(self@.results.len() == self.results@.len());
            assert(other@.results.len() == other.results@.len());
            return false;
        }
        let mut index: usize = 0;
        while index < self.results.len()
            invariant
                index <= self.results@.len() == other.results@.len(),
                forall|i: int| 0 <= i < index ==> self@.results[i] == other@.results[i],
            decreases self.results@.len() - index,
        {
            if self.results[index] != other.results[index] {
                assert(self@.results[index as int] != other@.results[index as int]);
                return false;
            }
            index += 1;
        }
        assert(self@.results =~= other@.results);
        true
    }
}

impl<'c> vstd::std_specs::cmp::PartialEqSpecImpl for AffineMap<'c> {
    open spec fn obeys_eq_spec() -> bool {
        true
    }

    open spec fn eq_spec(&self, other: &Self) -> bool {
        self@ == other@
    }
}

impl<'c> Eq for AffineMap<'c> {

}

} // verus!
