use oak_xcm::tokens::Token;
use oak_xcm::tokens::TokenInfo;
use oak_xcm::tokens::convert_to_token;

#[test]
fn denominations_follow_the_decimals() {
    let token = Token { decimals: 10 };
    assert_eq!(token.get_decimals(), 10);
    assert_eq!(token.dollar(), 10_000_000_000);
    assert_eq!(token.cent(), 100_000_000);
    assert_eq!(token.millicent(), 100_000);
}

#[test]
fn zero_decimal_token_has_unit_denominations() {
    let token = Token { decimals: 0 };
    assert_eq!(token.dollar(), 1);
    assert_eq!(token.cent(), 0);
    assert_eq!(token.millicent(), 0);
}

#[test]
fn converting_to_fewer_decimals_divides() {
    let source = Token { decimals: 12 };
    let target = Token { decimals: 10 };
    assert_eq!(convert_to_token(source, target, 5_000_000_000_000), 50_000_000_000);
}

#[test]
fn converting_to_more_decimals_multiplies() {
    let source = Token { decimals: 10 };
    let target = Token { decimals: 12 };
    assert_eq!(convert_to_token(source, target, 7), 700);
}

#[test]
fn converting_between_equal_decimals_is_identity() {
    let source = Token { decimals: 18 };
    let target = Token { decimals: 18 };
    assert_eq!(convert_to_token(source, target, 123_456_789), 123_456_789);
}

#[test]
fn converting_down_truncates() {
    let source = Token { decimals: 3 };
    let target = Token { decimals: 0 };
    assert_eq!(convert_to_token(source, target, 1999), 1);
}
