use horse::lexer::{tokenize, Float, Operator, Token};
use horse::parser::{parse, Expr};

/// An integer literal node.
fn ix(value: i128) -> Box<Expr> {
    Expr::new_int(value)
}

/// A float literal node, with the text that the source wrote for it.
fn fx(text: &str) -> Box<Expr> {
    Expr::new_float(Float(text.to_string()))
}

/// A float token's text.
fn flt(text: &str) -> Float {
    Float(text.to_string())
}

#[test]
fn parse_1_plus_1() {
    //1 + 1
    let result = parse(vec![
        Token::LiteralInteger(1),
        Token::Operator(Operator::Plus),
        Token::LiteralInteger(1),
    ]);

    let expected = Expr::BinaryOperation(ix(1), Operator::Plus, ix(1));
    assert_eq!(result, expected)
}

#[test]
fn parse_float_10_plus_integer_1() {
    //10.0 + 1
    let result = parse(vec![
        Token::LiteralFloat(flt("10.0")),
        Token::Operator(Operator::Plus),
        Token::LiteralInteger(1),
    ]);

    let expected = Expr::BinaryOperation(fx("10.0"), Operator::Plus, ix(1));
    assert_eq!(result, expected);
}

#[test]
fn parse_float_3_values_2_ops() {
    //1 + 2 + 3
    let result = parse(vec![
        Token::LiteralInteger(1),
        Token::Operator(Operator::Plus),
        Token::LiteralInteger(2),
        Token::Operator(Operator::Plus),
        Token::LiteralInteger(3),
    ]);
    let expected = Expr::BinaryOperation(
        Box::new(Expr::BinaryOperation(ix(1), Operator::Plus, ix(2))),
        Operator::Plus,
        ix(3),
    );

    assert_eq!(result, expected);
}

#[test]
fn parse_multiplication() {
    //1 * 2
    let result = parse(vec![
        Token::LiteralInteger(1),
        Token::Operator(Operator::Multiply),
        Token::LiteralInteger(2),
    ]);

    let expected = Expr::BinaryOperation(ix(1), Operator::Multiply, ix(2));
    assert_eq!(result, expected);
}

#[test]
fn parse_multiplication_2() {
    //1 * 2 * 3
    let result = parse(vec![
        Token::LiteralInteger(1),
        Token::Operator(Operator::Multiply),
        Token::LiteralInteger(2),
        Token::Operator(Operator::Multiply),
        Token::LiteralInteger(3),
    ]);

    let expected = Expr::BinaryOperation(
        Box::new(Expr::BinaryOperation(
            ix(1),
            Operator::Multiply,
            ix(2),
        )),
        Operator::Multiply,
        ix(3),
    );

    assert_eq!(result, expected);
}
#[test]
fn parse_mul_rhs_precedence() {
    //1 + 2 * 3
    let result = parse(vec![
        Token::LiteralInteger(1),
        Token::Operator(Operator::Plus),
        Token::LiteralInteger(2),
        Token::Operator(Operator::Multiply),
        Token::LiteralInteger(3),
    ]);

    /*
      +
     / \
    1   *
       / \
      2   3
    */
    let expected = Expr::BinaryOperation(
        ix(1),
        Operator::Plus,
        Box::new(Expr::BinaryOperation(
            ix(2),
            Operator::Multiply,
            ix(3),
        )),
    );

    assert_eq!(expected, result);
}

#[test]
fn parse_div_rhs_precedence() {
    //1 + 2 / 3
    let result = parse(vec![
        Token::LiteralInteger(1),
        Token::Operator(Operator::Plus),
        Token::LiteralInteger(2),
        Token::Operator(Operator::Divide),
        Token::LiteralInteger(3),
    ]);

    /*
      +
     / \
    1  (div)
       / \
      2   3
    */
    let expected = Expr::BinaryOperation(
        ix(1),
        Operator::Plus,
        Box::new(Expr::BinaryOperation(ix(2), Operator::Divide, ix(3))),
    );

    assert_eq!(expected, result);
}

#[test]
fn parse_mul_lhs_precedence() {
    //1 * 2 + 3
    let result = parse(vec![
        Token::LiteralInteger(1),
        Token::Operator(Operator::Multiply),
        Token::LiteralInteger(2),
        Token::Operator(Operator::Plus),
        Token::LiteralInteger(3),
    ]);

    let expected = Expr::BinaryOperation(
        Box::new(Expr::BinaryOperation(
            ix(1),
            Operator::Multiply,
            ix(2),
        )),
        Operator::Plus,
        ix(3),
    );

    assert_eq!(expected, result);
}
#[test]
fn parse_complex_precedence() {
    //1 + 2 * 3 * 4 + 5
    let result = parse(vec![
        Token::LiteralInteger(1),
        Token::Operator(Operator::Plus),
        Token::LiteralInteger(2),
        Token::Operator(Operator::Multiply),
        Token::LiteralInteger(3),
        Token::Operator(Operator::Multiply),
        Token::LiteralInteger(4),
        Token::Operator(Operator::Plus),
        Token::LiteralInteger(5),
    ]);

    let expected = Expr::BinaryOperation(
        Box::new(Expr::BinaryOperation(
            ix(1),
            Operator::Plus,
            Box::new(Expr::BinaryOperation(
                Box::new(Expr::BinaryOperation(
                    ix(2),
                    Operator::Multiply,
                    ix(3),
                )),
                Operator::Multiply,
                ix(4),
            )),
        )),
        Operator::Plus,
        ix(5),
    );

    assert_eq!(expected, result);
}

#[test]
fn parse_more_complex_precedence() {
    //1 + 2 * 3 + 4 * 5 / 6 + 7 * 8
    let result = parse(vec![
        Token::LiteralInteger(1),
        Token::Operator(Operator::Plus),
        Token::LiteralInteger(2),
        Token::Operator(Operator::Multiply),
        Token::LiteralInteger(3),
        Token::Operator(Operator::Plus),
        Token::LiteralInteger(4),
        Token::Operator(Operator::Multiply),
        Token::LiteralInteger(5),
        Token::Operator(Operator::Divide),
        Token::LiteralInteger(6),
        Token::Operator(Operator::Plus),
        Token::LiteralInteger(7),
        Token::Operator(Operator::Multiply),
        Token::LiteralInteger(8),
    ]);

    let expected = Expr::BinaryOperation(
        Box::new(Expr::BinaryOperation(
            Box::new(Expr::BinaryOperation(
                ix(1),
                Operator::Plus,
                Box::new(Expr::BinaryOperation(
                    ix(2),
                    Operator::Multiply,
                    ix(3),
                )),
            )),
            Operator::Plus,
            Box::new(Expr::BinaryOperation(
                Box::new(Expr::BinaryOperation(
                    ix(4),
                    Operator::Multiply,
                    ix(5),
                )),
                Operator::Divide,
                ix(6),
            )),
        )),
        Operator::Plus,
        Box::new(Expr::BinaryOperation(
            ix(7),
            Operator::Multiply,
            ix(8),
        )),
    );

    assert_eq!(expected, result);
}

#[test]
fn parse_literal_parens() {
    //(1)
    let result = parse(vec![
        Token::Operator(Operator::OpenParen),
        Token::LiteralInteger(1),
        Token::Operator(Operator::CloseParen),
    ]);

    let expected = Expr::IntegerValue(1);

    assert_eq!(expected, result);
}
#[test]
fn parse_parens_expr() {
    //(1 + 2) * 3
    let result = parse(vec![
        Token::Operator(Operator::OpenParen),
        Token::LiteralInteger(1),
        Token::Operator(Operator::Plus),
        Token::LiteralInteger(2),
        Token::Operator(Operator::CloseParen),
        Token::Operator(Operator::Multiply),
        Token::LiteralInteger(3),
    ]);

    /*
      +
     / \
    1   *
       / \
      2   3
    */
    let expected = Expr::BinaryOperation(
        Box::new(Expr::BinaryOperation(ix(1), Operator::Plus, ix(2))),
        Operator::Multiply,
        ix(3),
    );

    assert_eq!(expected, result);
}

#[test]
fn integration_with_lexer() {
    let tokens = tokenize("(1 + 2) * 3").unwrap();
    let result = parse(tokens);
    let expected = Expr::BinaryOperation(
        Box::new(Expr::BinaryOperation(ix(1), Operator::Plus, ix(2))),
        Operator::Multiply,
        ix(3),
    );

    assert_eq!(expected, result);
}

#[test]
fn complex_parenthesized_expr() {
    let tokens = tokenize("(1 + 2) * (3 + 1 + (10 / 5))").unwrap();
    let result = parse(tokens);
    let expected = Expr::BinaryOperation(
        Box::new(Expr::BinaryOperation(ix(1), Operator::Plus, ix(2))),
        Operator::Multiply,
        Box::new(Expr::BinaryOperation(
            Box::new(Expr::BinaryOperation(ix(3), Operator::Plus, ix(1))),
            Operator::Plus,
            Box::new(Expr::BinaryOperation(ix(10), Operator::Divide, ix(5))),
        )),
    );

    assert_eq!(expected, result);
}

#[test]
fn tons_of_useless_parenthesis() {
    let tokens = tokenize("(((((((((1)))))))))").unwrap();
    let result = parse(tokens);

    let expected = Expr::IntegerValue(1);

    assert_eq!(expected, result);
}

#[test]
fn just_an_identifier() {
    let tokens = tokenize("some_identifier").unwrap();
    let result = parse(tokens);
    let expected = Expr::Variable(String::from("some_identifier"));

    assert_eq!(expected, result);
}

#[test]
fn function_call_without_parameters() {
    let tokens = tokenize("some_identifier()").unwrap();
    let result = parse(tokens);
    let expected = Expr::FunctionCall(String::from("some_identifier"), vec![]);

    assert_eq!(expected, result);
}

#[test]
fn function_call_with_one_param() {
    let tokens = tokenize("some_identifier(1)").unwrap();
    let result = parse(tokens);
    let expected =
        Expr::FunctionCall(String::from("some_identifier"), vec![Expr::IntegerValue(1)]);

    assert_eq!(expected, result);
}

#[test]
fn function_call_with_many_params() {
    let tokens = tokenize("some_identifier(1, 2, 3)").unwrap();
    let result = parse(tokens);
    let expected = Expr::FunctionCall(
        String::from("some_identifier"),
        vec![
            Expr::IntegerValue(1),
            Expr::IntegerValue(2),
            Expr::IntegerValue(3),
        ],
    );

    assert_eq!(expected, result);
}

#[test]
fn function_call_with_expression() {
    let tokens = tokenize("some_identifier(1 * 2)").unwrap();
    let result = parse(tokens);
    let expected = Expr::FunctionCall(
        String::from("some_identifier"),
        vec![Expr::BinaryOperation(
            ix(1),
            Operator::Multiply,
            ix(2),
        )],
    );

    assert_eq!(expected, result);
}

#[test]
fn function_call_with_list_of_expressions() {
    let tokens = tokenize("some_identifier(1 * 2, 3 + 5, 88)").unwrap();
    let result = parse(tokens);
    let expected = Expr::FunctionCall(
        String::from("some_identifier"),
        vec![
            Expr::BinaryOperation(ix(1), Operator::Multiply, ix(2)),
            Expr::BinaryOperation(ix(3), Operator::Plus, ix(5)),
            Expr::IntegerValue(88),
        ],
    );
    assert_eq!(expected, result);
}

#[test]
fn function_call_with_nested_call_with_empty_params() {
    let tokens = tokenize("some_identifier(nested())").unwrap();
    let result = parse(tokens);
    let expected = Expr::FunctionCall(
        String::from("some_identifier"),
        vec![Expr::FunctionCall(String::from("nested"), vec![])],
    );
    assert_eq!(expected, result);
}

#[test]
fn function_call_with_nested_call_with_single_params() {
    let tokens = tokenize("some_identifier(nested(1))").unwrap();
    let result = parse(tokens);
    let expected = Expr::FunctionCall(
        String::from("some_identifier"),
        vec![Expr::FunctionCall(
            String::from("nested"),
            vec![Expr::IntegerValue(1)],
        )],
    );
    assert_eq!(expected, result);
}

#[test]
fn function_call_with_nested_call_with_multiple_params() {
    let tokens = tokenize("some_identifier(nested(1, 2))").unwrap();
    let result = parse(tokens);
    let expected = Expr::FunctionCall(
        String::from("some_identifier"),
        vec![Expr::FunctionCall(
            String::from("nested"),
            vec![Expr::IntegerValue(1), Expr::IntegerValue(2)],
        )],
    );
    assert_eq!(expected, result);
}

#[test]
fn function_call_with_nested_call_with_multiple_expr() {
    let tokens = tokenize("some_identifier(nested(1 * 2, 2 / 3.4))").unwrap();
    let result = parse(tokens);
    let expected = Expr::FunctionCall(
        String::from("some_identifier"),
        vec![Expr::FunctionCall(
            String::from("nested"),
            vec![
                Expr::BinaryOperation(ix(1), Operator::Multiply, ix(2)),
                Expr::BinaryOperation(ix(2), Operator::Divide, fx("3.4")),
            ],
        )],
    );
    assert_eq!(expected, result);
}

#[test]
fn function_call_with_nested_call_with_multiple_expr_also_unnested() {
    let tokens = tokenize("some_identifier(nested(1 * 2, 2 / 3.4), 3, nested2())").unwrap();
    let result = parse(tokens);
    let expected = Expr::FunctionCall(
        String::from("some_identifier"),
        vec![
            Expr::FunctionCall(
                String::from("nested"),
                vec![
                    Expr::BinaryOperation(ix(1), Operator::Multiply, ix(2)),
                    Expr::BinaryOperation(ix(2), Operator::Divide, fx("3.4")),
                ],
            ),
            Expr::IntegerValue(3),
            Expr::FunctionCall(String::from("nested2"), vec![]),
        ],
    );
    assert_eq!(expected, result);
}

#[test]
fn function_call_with_nested_call_with_multiple_expr_also_unnested_used_in_expression_right() {
    let tokens = tokenize("some_identifier(nested(1 * 2, 2 / 3.4), 3, nested2()) * 5").unwrap();
    let result = parse(tokens);
    let call = Expr::FunctionCall(
        String::from("some_identifier"),
        vec![
            Expr::FunctionCall(
                String::from("nested"),
                vec![
                    Expr::BinaryOperation(ix(1), Operator::Multiply, ix(2)),
                    Expr::BinaryOperation(ix(2), Operator::Divide, fx("3.4")),
                ],
            ),
            Expr::IntegerValue(3),
            Expr::FunctionCall(String::from("nested2"), vec![]),
        ],
    );
    let expected = Expr::BinaryOperation(Box::new(call), Operator::Multiply, ix(5));
    assert_eq!(expected, result);
}

#[test]
fn function_call_with_nested_call_with_multiple_expr_also_unnested_used_in_expression_left() {
    let tokens = tokenize("5 * some_identifier(nested(1 * 2, 2 / 3.4), 3, nested2())").unwrap();
    let result = parse(tokens);
    let call = Expr::FunctionCall(
        String::from("some_identifier"),
        vec![
            Expr::FunctionCall(
                String::from("nested"),
                vec![
                    Expr::BinaryOperation(ix(1), Operator::Multiply, ix(2)),
                    Expr::BinaryOperation(ix(2), Operator::Divide, fx("3.4")),
                ],
            ),
            Expr::IntegerValue(3),
            Expr::FunctionCall(String::from("nested2"), vec![]),
        ],
    );
    let expected = Expr::BinaryOperation(ix(5), Operator::Multiply, Box::new(call));
    assert_eq!(expected, result);
}

#[test]
fn function_call_with_a_bunch_of_useless_params() {
    let tokens = tokenize("func((((((1))))))").unwrap();
    let result = parse(tokens);
    let expected = Expr::FunctionCall(String::from("func"), vec![Expr::IntegerValue(1)]);
    assert_eq!(expected, result);
}

#[test]
fn minus_one() {
    let tokens = tokenize("-1").unwrap();
    let result = parse(tokens);
    let expected = Expr::UnaryExpression(Operator::Minus, Box::new(Expr::IntegerValue(1)));
    assert_eq!(expected, result);
}

#[test]
fn minus_expr() {
    let tokens = tokenize("-(5.0 / 9.0)").unwrap();
    let result = parse(tokens);
    let expected = Expr::UnaryExpression(Operator::Minus, 
        Box::new(Expr::BinaryOperation(
            fx("5.0"),
            Operator::Divide,
            fx("9.0")
        )));
    assert_eq!(expected, result);
}

#[test]
fn two_times_minus_one() {
    let tokens = tokenize("2 * -1").unwrap();
    let result = parse(tokens);
    let expected = Expr::BinaryOperation(
            ix(2),
            Operator::Multiply,
            Box::new(Expr::UnaryExpression(
                Operator::Minus,
                ix(1)
            ))
        );
    assert_eq!(expected, result);
}


#[test]
fn two_times_minus_repeated_one() {
    let tokens = tokenize("2 * --1").unwrap();
    let result = parse(tokens);
    let expected = Expr::BinaryOperation(
            ix(2),
            Operator::Multiply,
            Box::new(Expr::UnaryExpression(
                Operator::Minus,
                Box::new(Expr::UnaryExpression(
                    Operator::Minus,
                    ix(1)
                ))))
        );
    assert_eq!(expected, result);
}

#[test]
fn two_times_minus_plus_minus_one() {
    let tokens = tokenize("2 * -+-1").unwrap();
    let result = parse(tokens);
    let expected = Expr::BinaryOperation(
            ix(2),
            Operator::Multiply,
            Box::new(Expr::UnaryExpression(
                Operator::Minus,
                Box::new(Expr::UnaryExpression(
                    Operator::Plus,
                    Box::new(Expr::UnaryExpression(
                        Operator::Minus,
                        ix(1)
                    ))))))
        );
    assert_eq!(expected, result);
}

#[test]
fn two_times_minus_plus_minus_one_parenthesized() {
    let tokens = tokenize("2 * (-+-1)").unwrap();
    let result = parse(tokens);
    let expected = Expr::BinaryOperation(
            ix(2),
            Operator::Multiply,
            Box::new(Expr::UnaryExpression(
                Operator::Minus,
                Box::new(Expr::UnaryExpression(
                    Operator::Plus,
                    Box::new(Expr::UnaryExpression(
                        Operator::Minus,
                        ix(1)
                    ))))))
        );
    assert_eq!(expected, result);
}

#[test]
fn two_times_minus_plus_minus_one_in_function_call() {
    let tokens = tokenize("2 * func(-+-1)").unwrap();
    let result = parse(tokens);
    let expected = Expr::BinaryOperation(
            ix(2),
            Operator::Multiply,
            Box::new(Expr::FunctionCall(
                String::from("func"),
                vec![Expr::UnaryExpression(
                    Operator::Minus,
                    Box::new(Expr::UnaryExpression(
                        Operator::Plus,
                        Box::new(Expr::UnaryExpression(
                            Operator::Minus,
                            ix(1)
                        )))))]
            ))
        );
    assert_eq!(expected, result);
}


#[test]
fn fahrenheit_1_expr() {
    //-(5.0 / 9.0) * 32
    let tokens = tokenize("-(5.0 / 9.0) * 32").unwrap();
    let result = parse(tokens);

    let dividend = Expr::BinaryOperation(
        Box::new(Expr::UnaryExpression(
            Operator::Minus, 
            Box::new(Expr::BinaryOperation(
                fx("5.0"),
                Operator::Divide,
                fx("9.0")
            )))),
        Operator::Multiply,
        ix(32)
    );

    assert_eq!(dividend, result);
}

#[test]
fn fahrenheit_expr() {
    //(-(5.0 / 9.0) * 32)    /    (1 - (5.0 / 9.0))
    let tokens = tokenize("(-(5.0 / 9.0) * 32) / (1 - (5.0 / 9.0))").unwrap();
    let result = parse(tokens);

    let dividend = Expr::BinaryOperation(
        Box::new(Expr::UnaryExpression(
            Operator::Minus, 
            Box::new(Expr::BinaryOperation(
                fx("5.0"),
                Operator::Divide,
                fx("9.0")
            )))),
        Operator::Multiply,
        ix(32)
    );

    let divisor = Expr::BinaryOperation(
        ix(1),
        Operator::Minus,
        Box::new(Expr::BinaryOperation(
            fx("5.0"),
            Operator::Divide,
            fx("9.0")
        ))
    );

    let fahrenheit = Expr::BinaryOperation(
        Box::new(dividend),
        Operator::Divide,
        Box::new(divisor)
    );
    
    assert_eq!(fahrenheit, result);
}
