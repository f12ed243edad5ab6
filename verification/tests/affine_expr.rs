use melior::affine_expr::AffineExpr;
use melior::context::Context;
use melior::ir::AffineMap;

#[test]
fn dimension_reads_back_its_position() {
    let context = Context::new();
    for position in [0isize, 1, 7, isize::MAX] {
        let expr = AffineExpr::new_dimension(&context, position);
        assert!(expr.is_dimension());
        assert_eq!(expr.dimension_position(), position);
    }
}

#[test]
fn symbol_reads_back_its_position() {
    let context = Context::new();
    for position in [0isize, 2, 41] {
        let expr = AffineExpr::new_symbol(&context, position);
        assert!(expr.is_symbol());
        assert_eq!(expr.symbol_position(), position);
    }
}

#[test]
fn constant_reads_back_its_value() {
    let context = Context::new();
    for value in [0i64, 1, -1, 42, -7, i64::MIN, i64::MAX] {
        let expr = AffineExpr::new_constant(&context, value);
        assert!(expr.is_constant());
        assert_eq!(expr.constant_value(), value);
    }
}

#[test]
fn leaves_are_of_one_kind_only() {
    let context = Context::new();
    let dimension = AffineExpr::new_dimension(&context, 3);
    assert!(!dimension.is_symbol());
    assert!(!dimension.is_constant());
    assert!(!dimension.is_binary());
    assert!(!dimension.is_add());
    let symbol = AffineExpr::new_symbol(&context, 3);
    assert!(!symbol.is_dimension());
    assert!(!symbol.is_constant());
    assert!(!symbol.is_binary());
    let constant = AffineExpr::new_constant(&context, 3);
    assert!(!constant.is_dimension());
    assert!(!constant.is_symbol());
    assert!(!constant.is_binary());
    assert!(!constant.is_mul());
}

#[test]
fn add_keeps_its_operands() {
    let context = Context::new();
    let lhs = AffineExpr::new_dimension(&context, 0);
    let rhs = AffineExpr::new_constant(&context, 5);
    let expr = AffineExpr::add(lhs.clone(), rhs.clone());
    assert!(expr.is_binary());
    assert!(expr.is_add());
    assert!(!expr.is_mul());
    assert!(!expr.is_mod());
    assert!(!expr.is_floor_div());
    assert!(!expr.is_ceil_div());
    assert!(!expr.is_dimension());
    assert!(!expr.is_constant());
    assert_eq!(expr.binary_lhs(), lhs);
    assert_eq!(expr.binary_rhs(), rhs);
    assert_ne!(expr.binary_lhs(), rhs);
}

#[test]
fn multiply_keeps_its_operands() {
    let context = Context::new();
    let lhs = AffineExpr::new_symbol(&context, 1);
    let rhs = AffineExpr::new_constant(&context, -2);
    let expr = AffineExpr::multiply(lhs.clone(), rhs.clone());
    assert!(expr.is_binary());
    assert!(expr.is_mul());
    assert!(!expr.is_add());
    assert_eq!(expr.binary_lhs(), lhs);
    assert_eq!(expr.binary_rhs(), rhs);
}

#[test]
fn modulus_keeps_its_operands() {
    let context = Context::new();
    let lhs = AffineExpr::new_dimension(&context, 2);
    let rhs = AffineExpr::new_constant(&context, 8);
    let expr = AffineExpr::modulus(lhs.clone(), rhs.clone());
    assert!(expr.is_binary());
    assert!(expr.is_mod());
    assert!(!expr.is_floor_div());
    assert_eq!(expr.binary_lhs(), lhs);
    assert_eq!(expr.binary_rhs(), rhs);
}

#[test]
fn floor_div_keeps_its_operands() {
    let context = Context::new();
    let lhs = AffineExpr::new_dimension(&context, 2);
    let rhs = AffineExpr::new_constant(&context, 4);
    let expr = AffineExpr::floor_div(lhs.clone(), rhs.clone());
    assert!(expr.is_binary());
    assert!(expr.is_floor_div());
    assert!(!expr.is_ceil_div());
    assert_eq!(expr.binary_lhs(), lhs);
    assert_eq!(expr.binary_rhs(), rhs);
}

#[test]
fn ceil_div_keeps_its_operands() {
    let context = Context::new();
    let lhs = AffineExpr::new_dimension(&context, 2);
    let rhs = AffineExpr::new_constant(&context, 4);
    let expr = AffineExpr::ceil_div(lhs.clone(), rhs.clone());
    assert!(expr.is_binary());
    assert!(expr.is_ceil_div());
    assert!(!expr.is_floor_div());
    assert_eq!(expr.binary_lhs(), lhs);
    assert_eq!(expr.binary_rhs(), rhs);
}

#[test]
fn binary_of_two_constants_stays_binary() {
    let context = Context::new();
    let one = AffineExpr::new_constant(&context, 1);
    let two = AffineExpr::new_constant(&context, 2);
    let sum = AffineExpr::add(one.clone(), two.clone());
    assert!(sum.is_binary());
    assert!(!sum.is_constant());
    assert_eq!(sum.binary_lhs().constant_value(), 1);
    assert_eq!(sum.binary_rhs().constant_value(), 2);
}

#[test]
fn operands_of_a_nested_expression_are_found_again() {
    let context = Context::new();
    let inner = AffineExpr::multiply(
        AffineExpr::new_dimension(&context, 1),
        AffineExpr::new_constant(&context, 3),
    );
    let outer = AffineExpr::add(inner.clone(), AffineExpr::new_symbol(&context, 0));
    let found = outer.binary_lhs();
    assert_eq!(found, inner);
    assert!(found.is_mul());
    assert_eq!(found.binary_lhs().dimension_position(), 1);
    assert_eq!(found.binary_rhs().constant_value(), 3);
    assert_eq!(outer.binary_rhs().symbol_position(), 0);
}

#[test]
fn accessed_operand_equals_fresh_leaf() {
    let context = Context::new();
    let expr = AffineExpr::add(
        AffineExpr::new_constant(&context, 9),
        AffineExpr::new_dimension(&context, 4),
    );
    assert_eq!(expr.binary_lhs(), AffineExpr::new_constant(&context, 9));
    assert_eq!(expr.binary_rhs(), AffineExpr::new_dimension(&context, 4));
    assert_ne!(expr.binary_lhs(), AffineExpr::new_constant(&context, 8));
    assert_ne!(expr.binary_rhs(), AffineExpr::new_symbol(&context, 4));
}

#[test]
fn equality_is_by_value() {
    let context = Context::new();
    let first = AffineExpr::floor_div(
        AffineExpr::new_dimension(&context, 0),
        AffineExpr::new_constant(&context, 2),
    );
    let second = AffineExpr::floor_div(
        AffineExpr::new_dimension(&context, 0),
        AffineExpr::new_constant(&context, 2),
    );
    let ceil = AffineExpr::ceil_div(
        AffineExpr::new_dimension(&context, 0),
        AffineExpr::new_constant(&context, 2),
    );
    let swapped = AffineExpr::floor_div(
        AffineExpr::new_constant(&context, 2),
        AffineExpr::new_dimension(&context, 0),
    );
    assert!(first == second);
    assert!(first != ceil);
    assert!(first != swapped);
    assert!(first != AffineExpr::new_dimension(&context, 0));
    assert!(AffineExpr::new_dimension(&context, 0) != AffineExpr::new_symbol(&context, 0));
    assert!(AffineExpr::new_constant(&context, 0) != AffineExpr::new_dimension(&context, 0));
}

#[test]
fn clone_denotes_the_same_expression() {
    let context = Context::new();
    let expr = AffineExpr::modulus(
        AffineExpr::add(
            AffineExpr::new_dimension(&context, 0),
            AffineExpr::new_symbol(&context, 1),
        ),
        AffineExpr::new_constant(&context, 16),
    );
    let copy = expr.clone();
    assert_eq!(copy, expr);
    assert!(copy.is_mod());
    assert_eq!(copy.binary_rhs().constant_value(), 16);
}

#[test]
fn pure_affine_allows_products_with_a_constant() {
    let context = Context::new();
    let d0 = AffineExpr::new_dimension(&context, 0);
    let d1 = AffineExpr::new_dimension(&context, 1);
    let s0 = AffineExpr::new_symbol(&context, 0);
    let two = AffineExpr::new_constant(&context, 2);
    assert!(d0.is_pure_affine());
    assert!(s0.is_pure_affine());
    assert!(two.is_pure_affine());
    assert!(AffineExpr::add(d0.clone(), d1.clone()).is_pure_affine());
    assert!(AffineExpr::multiply(d0.clone(), two.clone()).is_pure_affine());
    assert!(AffineExpr::multiply(two.clone(), d0.clone()).is_pure_affine());
    assert!(!AffineExpr::multiply(d0.clone(), d1.clone()).is_pure_affine());
    assert!(!AffineExpr::multiply(d0.clone(), s0.clone()).is_pure_affine());
}

#[test]
fn pure_affine_wants_a_constant_divisor() {
    let context = Context::new();
    let d0 = AffineExpr::new_dimension(&context, 0);
    let s0 = AffineExpr::new_symbol(&context, 0);
    let four = AffineExpr::new_constant(&context, 4);
    assert!(AffineExpr::floor_div(d0.clone(), four.clone()).is_pure_affine());
    assert!(AffineExpr::ceil_div(d0.clone(), four.clone()).is_pure_affine());
    assert!(AffineExpr::modulus(d0.clone(), four.clone()).is_pure_affine());
    assert!(!AffineExpr::floor_div(d0.clone(), s0.clone()).is_pure_affine());
    assert!(!AffineExpr::ceil_div(four.clone(), d0.clone()).is_pure_affine());
    assert!(!AffineExpr::modulus(d0.clone(), s0.clone()).is_pure_affine());
}

#[test]
fn pure_affine_looks_into_operands() {
    let context = Context::new();
    let d0 = AffineExpr::new_dimension(&context, 0);
    let d1 = AffineExpr::new_dimension(&context, 1);
    let one = AffineExpr::new_constant(&context, 1);
    let product = AffineExpr::multiply(d0.clone(), d1.clone());
    assert!(!AffineExpr::add(product.clone(), one.clone()).is_pure_affine());
    assert!(!AffineExpr::add(one.clone(), product.clone()).is_pure_affine());
    assert!(!AffineExpr::modulus(product.clone(), one.clone()).is_pure_affine());
    assert!(!AffineExpr::multiply(product, one).is_pure_affine());
}

#[test]
fn symbolic_or_constant_has_no_dimension() {
    let context = Context::new();
    let d0 = AffineExpr::new_dimension(&context, 0);
    let s0 = AffineExpr::new_symbol(&context, 0);
    let three = AffineExpr::new_constant(&context, 3);
    assert!(s0.is_symbolic_or_constant());
    assert!(three.is_symbolic_or_constant());
    assert!(!d0.is_symbolic_or_constant());
    assert!(AffineExpr::add(s0.clone(), three.clone()).is_symbolic_or_constant());
    assert!(!AffineExpr::add(d0.clone(), three.clone()).is_symbolic_or_constant());
    assert!(!AffineExpr::multiply(s0, AffineExpr::add(three, d0)).is_symbolic_or_constant());
}

#[test]
fn function_of_dimension_finds_the_dimension() {
    let context = Context::new();
    let expr = AffineExpr::add(
        AffineExpr::multiply(
            AffineExpr::new_dimension(&context, 2),
            AffineExpr::new_constant(&context, 3),
        ),
        AffineExpr::new_symbol(&context, 1),
    );
    assert!(expr.is_function_of_dimension(2));
    assert!(!expr.is_function_of_dimension(1));
    assert!(!expr.is_function_of_dimension(0));
    assert!(!AffineExpr::new_symbol(&context, 2).is_function_of_dimension(2));
    assert!(!AffineExpr::new_constant(&context, 2).is_function_of_dimension(2));
    assert!(AffineExpr::new_dimension(&context, 2).is_function_of_dimension(2));
}

#[test]
fn from_map_puts_results_in_place_of_dimensions() {
    let context = Context::new();
    let expr = AffineExpr::add(
        AffineExpr::new_dimension(&context, 0),
        AffineExpr::multiply(
            AffineExpr::new_dimension(&context, 1),
            AffineExpr::new_symbol(&context, 0),
        ),
    );
    let map = AffineMap::from(
        &context,
        1,
        1,
        vec![AffineExpr::new_constant(&context, 5), AffineExpr::new_symbol(&context, 1)],
    );
    let expected = AffineExpr::add(
        AffineExpr::new_constant(&context, 5),
        AffineExpr::multiply(
            AffineExpr::new_symbol(&context, 1),
            AffineExpr::new_symbol(&context, 0),
        ),
    );
    assert_eq!(expr.from_map(map), expected);
}

#[test]
fn from_map_leaves_what_the_map_has_no_result_for() {
    let context = Context::new();
    let expr = AffineExpr::add(
        AffineExpr::new_dimension(&context, 0),
        AffineExpr::new_dimension(&context, 3),
    );
    let map = AffineMap::from(&context, 0, 0, vec![AffineExpr::new_constant(&context, 7)]);
    let expected = AffineExpr::add(
        AffineExpr::new_constant(&context, 7),
        AffineExpr::new_dimension(&context, 3),
    );
    assert_eq!(expr.from_map(map), expected);
    let constant = AffineExpr::new_constant(&context, 1);
    assert_eq!(constant.from_map(AffineMap::empty(&context)), constant);
}
