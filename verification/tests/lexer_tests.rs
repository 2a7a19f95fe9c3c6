use horse::lexer::{tokenize, Float, Operator, Token};

/// A float token's text, as the source wrote it.
fn flt(text: &str) -> Float {
    Float(text.to_string())
}

#[test]
fn tokenizer_simple_number() -> Result<(), String> {
    let result = tokenize("2")?;
    assert_eq!(result, [Token::LiteralInteger(2)]);
    Ok(())
}
#[test]
fn tokenizer_bigger_number() -> Result<(), String> {
    let result = tokenize("22")?;
    assert_eq!(result, [Token::LiteralInteger(22)]);
    Ok(())
}
#[test]
fn tokenizer_decimal_number() -> Result<(), String> {
    let result = tokenize("22.321")?;
    assert_eq!(result, [Token::LiteralFloat(flt("22.321"))]);
    Ok(())
}

#[test]
fn tokenizer_decimal_exponent_number() -> Result<(), String> {
    let result = tokenize("22.22e2")?;
    assert_eq!(result, [Token::LiteralFloat(flt("22.22e2"))]);
    Ok(())
}
#[test]
fn tokenizer_operator() -> Result<(), String> {
    let result = tokenize("+")?;
    assert_eq!(result, [Token::Operator(Operator::Plus)]);
    Ok(())
}

#[test]
fn tokenizer_number_space_operator() -> Result<(), String> {
    let result = tokenize("6 +")?;
    assert_eq!(
        result,
        [
            Token::LiteralInteger(6),
            Token::Operator(Operator::Plus)
        ]
    );
    Ok(())
}

#[test]
fn tokenizer_number_space_operator_space_operator() -> Result<(), String> {
    let result = tokenize("6 + +")?;
    assert_eq!(
        result,
        [
            Token::LiteralInteger(6),
            Token::Operator(Operator::Plus),
            Token::Operator(Operator::Plus)
        ]
    );
    Ok(())
}

#[test]
fn tokenizer_not_equals() -> Result<(), String> {
    let result = tokenize("10 != 12")?;
    assert_eq!(
        result,
        [
            Token::LiteralInteger(10),
            Token::Operator(Operator::NotEquals),
            Token::LiteralInteger(12),
        ]
    );
    Ok(())
}

#[test]
fn tokenizer_unrecognized_token() -> Result<(), &'static str> {
    let result = tokenize("10 ^ 12");
    return match result {
        Ok(_) => Err("Operator ^ doesnt exist and shouldn't be tokenized"),
        Err(_) => Ok(())
    }
}

#[test]
fn tokenizer_many_operators() -> Result<(), String> {
    let result = tokenize("10 + - / * << >> ! != == -12")?;
    assert_eq!(
        result,
        [
            Token::LiteralInteger(10),
            Token::Operator(Operator::Plus),
            Token::Operator(Operator::Minus),
            Token::Operator(Operator::Divide),
            Token::Operator(Operator::Multiply),
            Token::Operator(Operator::BitShiftLeft),
            Token::Operator(Operator::BitShiftRight),
            Token::Operator(Operator::Not),
            Token::Operator(Operator::NotEquals),
            Token::Operator(Operator::Equals),
            Token::Operator(Operator::Minus),
            Token::LiteralInteger(12),
        ]
    );
    Ok(())
}

#[test]
fn tokenizer_number_space_operator_space_number() -> Result<(), String> {
    let result = tokenize("6 + 6")?;
    assert_eq!(
        result,
        [
            Token::LiteralInteger(6),
            Token::Operator(Operator::Plus),
            Token::LiteralInteger(6),
        ]
    );
    Ok(())
}

#[test]
fn tokenizer_number_space_operator_lots_of_space_number() -> Result<(), String> {
    let result = tokenize("6         +                                6.2312e99")?;
    assert_eq!(
        result,
        [
            Token::LiteralInteger(6),
            Token::Operator(Operator::Plus),
            Token::LiteralFloat(flt("6.2312e99")),
        ]
    );
    Ok(())
}

#[test]
fn tokenizer_number_operator_number() -> Result<(), String> {
    let result = tokenize("6+6")?;
    assert_eq!(
        result,
        [
            Token::LiteralInteger(6),
            Token::Operator(Operator::Plus),
            Token::LiteralInteger(6),
        ]
    );
    Ok(())
}

#[test]
fn tokenizer_space_corner_cases() -> Result<(), String> {
    let result = tokenize("   6         +             6.2312e99   ")?;
    assert_eq!(
        result,
        [
            Token::LiteralInteger(6),
            Token::Operator(Operator::Plus),
            Token::LiteralFloat(flt("6.2312e99")),
        ]
    );
    Ok(())
}
