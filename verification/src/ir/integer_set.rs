//! Integer sets: a list of affine constraints, each an equality or an
//! inequality, over a fixed number of dimensions and symbols.

use crate::affine_expr::{expr_models, AffineExpr, Expr};
use crate::context::Context;
use std::marker::PhantomData;
use vstd::prelude::*;

verus! {

/// The mathematical model of an integer set.
pub struct SetModel {
    /// Whether this is the canonical empty set of its arity.
    pub canonical_empty: bool,
    /// The number of dimensions.
    pub dims: int,
    /// The number of symbols.
    pub symbols: int,
    /// The constraints, in the order in which they were given.
    pub constraints: Seq<Expr>,
    /// For each constraint, whether it is an equality.
    pub eq_flags: Seq<bool>,
}

/// How many of `flags` are set.
pub open spec fn count_set(flags: Seq<bool>) -> nat
    decreases flags.len(),
{
    if flags.len() == 0 {
        0
    } else {
        count_set(flags.drop_last()) + if flags.last() {
            1nat
        } else {
            0nat
        }
    }
}

impl SetModel {
    /// The set of the given arity in which every one of `constraints` is an
    /// equality if `equalities` holds, and an inequality if not.
    pub open spec fn uniform(
        dims: int,
        symbols: int,
        constraints: Seq<Expr>,
        equalities: bool,
    ) -> SetModel {
        SetModel {
            canonical_empty: false,
            dims,
            symbols,
            constraints,
            eq_flags: Seq::new(constraints.len(), |i: int| equalities),
        }
    }

    /// The canonical empty set of the given arity. It has no constraints.
    pub open spec fn empty(dims: int, symbols: int) -> SetModel {
        SetModel {
            canonical_empty: true,
            dims,
            symbols,
            constraints: Seq::empty(),
            eq_flags: Seq::empty(),
        }
    }

    /// The number of constraints that are equalities.
    pub open spec fn equalities(self) -> nat {
        count_set(self.eq_flags)
    }
}

/// An integer set that lives in a context.
#[derive(Debug)]
pub struct IntegerSet<'c> {
    canonical_empty: bool,
    num_dims: isize,
    num_symbols: isize,
    constraints: Vec<AffineExpr<'c>>,
    eq_flags: Vec<bool>,
    _context: PhantomData<&'c Context>,
}

impl<'c> View for IntegerSet<'c> {
    type V = SetModel;

    closed spec fn view(&self) -> SetModel {
        SetModel {
            canonical_empty: self.canonical_empty,
            dims: self.num_dims as int,
            symbols: self.num_symbols as int,
            constraints: expr_models(self.constraints@),
            eq_flags: self.eq_flags@,
        }
    }
}

/// No more flags are set than there are flags.
proof fn lemma_count_set_bound(flags: Seq<bool>)
    ensures
        count_set(flags) <= flags.len(),
    decreases flags.len(),
{
    if flags.len() > 0 {
        lemma_count_set_bound(flags.drop_last());
    }
}

impl<'c> Clone for IntegerSet<'c> {
    /// A copy that denotes the same set in the same context.
    fn clone(&self) -> (copy: Self)
        ensures
            copy@ == self@,
    {
        proof {
            use_type_invariant(self);
        }
        let mut constraints: Vec<AffineExpr<'c>> = Vec::new();
        let mut eq_flags: Vec<bool> = Vec::new();
        let mut index: usize = 0;
        while index < self.constraints.len()
            invariant
                index <= self.constraints@.len() == self.eq_flags@.len(),
                constraints@.len() == index,
                eq_flags@.len() == index,
                forall|i: int|
                    0 <= i < index ==> (#[trigger] constraints@[i])@ == self.constraints@[i]@,
                forall|i: int| 0 <= i < index ==> eq_flags@[i] == self.eq_flags@[i],
            decreases self.constraints@.len() - index,
        {
            constraints.push(self.constraints[index].clone());
            eq_flags.push(self.eq_flags[index]);
            index += 1;
        }
        assert(expr_models(constraints@) =~= expr_models(self.constraints@));
        assert(eq_flags@ =~= self.eq_flags@);
        IntegerSet {
            canonical_empty: self.canonical_empty,
            num_dims: self.num_dims,
            num_symbols: self.num_symbols,
            constraints,
            eq_flags,
            _context: PhantomData,
        }
    }
}

impl<'c> IntegerSet<'c> {
    #[verifier::type_invariant]
    spec fn well_formed(self) -> bool {
        &&& 0 <= self.num_dims
        &&& 0 <= self.num_symbols
        &&& self.num_dims + self.num_symbols <= isize::MAX
        &&& self.constraints@.len() <= isize::MAX
        &&& self.eq_flags@.len() == self.constraints@.len()
        &&& self.canonical_empty ==> self.constraints@.len() == 0
    }

    /// Creates the set of the given arity with the given constraints. Every
    /// constraint is an equality if `eq_flags` holds, and an inequality if
    /// not.
    pub fn new(
        context: &'c Context,
        num_dims: isize,
        num_symbols: isize,
        constraints: Vec<AffineExpr<'c>>,
        eq_flags: bool,
    ) -> (set: Self)
        requires
            0 <= num_dims,
            0 <= num_symbols,
            num_dims + num_symbols <= isize::MAX,
            constraints@.len() <= isize::MAX,
        ensures
            set@ == SetModel::uniform(
                num_dims as int,
                num_symbols as int,
                expr_models(constraints@),
                eq_flags,
            ),
    {
        let mut flags: Vec<bool> = Vec::new();
        let mut index: usize = 0;
        while index < constraints.len()
            invariant
                index <= constraints@.len(),
                flags@.len() == index,
                forall|i: int| 0 <= i < index ==> flags@[i] == eq_flags,
            decreases constraints@.len() - index,
        {
            flags.push(eq_flags);
            index += 1;
        }
        assert(flags@ =~= Seq::new(constraints@.len(), |i: int| eq_flags));
        IntegerSet {
            canonical_empty: false,
            num_dims,
            num_symbols,
            constraints,
            eq_flags: flags,
            _context: PhantomData,
        }
    }

    /// Creates the canonical empty set of the given arity.
    pub fn empty(context: &'c Context, num_dims: isize, num_symbols: isize) -> (set: Self)
        requires
            0 <= num_dims,
            0 <= num_symbols,
            num_dims + num_symbols <= isize::MAX,
        ensures
            set@ == SetModel::empty(num_dims as int, num_symbols as int),
            set@.canonical_empty,
            set@.constraints.len() == 0,
    {
        let constraints: Vec<AffineExpr<'c>> = Vec::new();
        assert(expr_models(constraints@) =~= Seq::empty());
        IntegerSet {
            canonical_empty: true,
            num_dims,
            num_symbols,
            constraints,
            eq_flags: Vec::new(),
            _context: PhantomData,
        }
    }

    /// The number of constraints, equalities and inequalities together.
    pub fn num_constraints(&self) -> (count: isize)
        ensures
            count as int == self@.constraints.len(),
    {
        proof {
            use_type_invariant(self);
        }
        self.constraints.len() as isize
    }

    /// The number of constraints that are equalities.
    pub fn num_equalities(&self) -> (count: isize)
        ensures
            count as int == self@.equalities(),
    {
        proof {
            use_type_invariant(self);
        }
        let mut count: isize = 0;
        let mut index: usize = 0;
        while index < self.eq_flags.len()
            invariant
                index <= self.eq_flags@.len() <= isize::MAX,
                count as int == count_set(self.eq_flags@.take(index as int)),
                count <= index,
            decreases self.eq_flags@.len() - index,
        {
            assert(self.eq_flags@.take(index + 1).drop_last() =~= self.eq_flags@.take(
                index as int,
            ));
            if self.eq_flags[index] {
                count += 1;
            }
            index += 1;
        }
        assert(self.eq_flags@.take(index as int) =~= self.eq_flags@);
        count
    }

    /// The number of constraints that are inequalities.
    pub fn num_inequalities(&self) -> (count: isize)
        ensures
            count as int == self@.constraints.len() - self@.equalities(),
    {
        proof {
            use_type_invariant(self);
            lemma_count_set_bound(self.eq_flags@);
        }
        self.constraints.len() as isize - self.num_equalities()
    }

    /// The number of dimensions.
    pub fn num_dimensions(&self) -> (count: isize)
        ensures
            count as int == self@.dims,
    {
        self.num_dims
    }

    /// The number of symbols.
    pub fn num_symbols(&self) -> (count: isize)
        ensures
            count as int == self@.symbols,
    {
        self.num_symbols
    }

    /// The number of dimensions and symbols together.
    pub fn num_inputs(&self) -> (count: isize)
        ensures
            count as int == self@.dims + self@.symbols,
    {
        proof {
            use_type_invariant(self);
        }
        self.num_dims + self.num_symbols
    }

    /// Whether this is the canonical empty set of its arity. A set that was
    /// given no constraints is not.
    pub fn is_empty(&self) -> (result: bool)
        ensures
            result == self@.canonical_empty,
    {
        self.canonical_empty
    }

    /// The constraint at `pos`.
    pub fn get_constraint(&self, pos: isize) -> (expr: AffineExpr<'c>)
        requires
            0 <= pos < self@.constraints.len(),
        ensures
            expr@ == self@.constraints[pos as int],
    {
        self.constraints[pos as usize].clone()
    }

    /// Whether the constraint at `pos` is an equality.
    pub fn is_constraint_eq(&self, pos: isize) -> (result: bool)
        requires
            0 <= pos < self@.constraints.len(),
        ensures
            result == self@.eq_flags[pos as int],
    {
        proof {
            use_type_invariant(self);
        }
        self.eq_flags[pos as usize]
    }
}

impl<'c> PartialEq for IntegerSet<'c> {
    /// Whether both denote the same set.
    fn eq(&self, other: &Self) -> (result: bool) {
        proof {
            use_type_invariant(self);
            use_type_invariant(other);
        }
        if self.canonical_empty != other.canonical_empty || self.num_dims != other.num_dims
            || self.num_symbols != other.num_symbols || self.constraints.len()
            != other.constraints.len() {
            assert(self@.constraints.len() == self.constraints@.len());
            assert(other@.constraints.len() == other.constraints@.len());
            return false;
        }
        let mut index: usize = 0;
        while index < self.constraints.len()
            invariant
                index <= self.constraints@.len() == other.constraints@.len(),
                self.eq_flags@.len() == self.constraints@.len(),
                other.eq_flags@.len() == self.constraints@.len(),
                forall|i: int| 0 <= i < index ==> self@.constraints[i] == other@.constraints[i],
                forall|i: int| 0 <= i < index ==> self@.eq_flags[i] == other@.eq_flags[i],
            decreases self.constraints@.len() - index,
        {
            if self.constraints[index] != other.constraints[index] {
                assert(self@.constraints[index as int] != other@.constraints[index as int]);
                return false;
            }
            if self.eq_flags[index] != other.eq_flags[index] {
                assert(self@.eq_flags[index as int] != other@.eq_flags[index as int]);
                return false;
            }
            index += 1;
        }
        assert(self@.constraints =~= other@.constraints);
        assert(self@.eq_flags =~= other@.eq_flags);
        true
    }
}

impl<'c> vstd::std_specs::cmp::PartialEqSpecImpl for IntegerSet<'c> {
    open spec fn obeys_eq_spec() -> bool {
        true
    }

    open spec fn eq_spec(&self, other: &Self) -> bool {
        self@ == other@
    }
}

impl<'c> Eq for IntegerSet<'c> {

}

} // verus!
