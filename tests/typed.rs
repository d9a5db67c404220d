use minicc::ast::{AstExpression, Span};
use minicc::typed::{
    AstType, TypedBlock, TypedBlockItem, TypedDeclaration, TypedExpression,
    TypedFunctionDeclaration, TypedProgram, TypedVariableDeclaration,
};

#[test]
fn typed_tree_keeps_what_it_is_built_from() {
    let init = TypedExpression {
        expression: AstExpression::Constant { constant: 3, span: Span::new(8, 9) },
        ty: AstType::Int,
    };
    let var = TypedVariableDeclaration::new("x.0".to_string(), Some(init), AstType::Int, Span::new(4, 10));
    assert_eq!(var.get_identifier(), "x.0");
    assert!(var.get_init().is_some());
    assert_eq!(var.get_ty(), AstType::Int);
    assert_eq!(var.get_span(), Span::new(4, 10));
    let block = TypedBlock::new(
        vec![TypedBlockItem::Declaration(TypedDeclaration::VarDecl(var))],
        AstType::Int,
        Span::new(2, 12),
    );
    assert_eq!(block.get_block_items().len(), 1);
    assert_eq!(block.get_span(), Span::new(2, 12));
    let f = TypedFunctionDeclaration::new(
        "main".to_string(),
        vec![],
        Some(block),
        AstType::Int,
        Span::new(0, 12),
    );
    assert_eq!(f.get_identifier(), "main");
    assert!(f.get_params().is_empty());
    assert!(f.get_body().is_some());
    assert_eq!(f.get_ty(), AstType::Int);
    assert_eq!(f.get_span(), Span::new(0, 12));
    let p = TypedProgram::new(vec![f]);
    assert_eq!(p.get_functions().len(), 1);
}
