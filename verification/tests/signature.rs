use rbmt::api::ApiItem;
use rbmt::signature::{item_from_tokens, SignatureToken, TokenKind};

fn token(kind: TokenKind, text: &str) -> SignatureToken {
    SignatureToken { kind, text: text.to_string() }
}

fn q(text: &str) -> SignatureToken {
    token(TokenKind::Qualifier, text)
}

fn ws() -> SignatureToken {
    token(TokenKind::Whitespace, " ")
}

fn id(text: &str) -> SignatureToken {
    token(TokenKind::Identifier, text)
}

fn sym(text: &str) -> SignatureToken {
    token(TokenKind::Symbol, text)
}

#[test]
fn function_is_named_by_its_path() {
    let tokens = vec![
        q("pub"),
        ws(),
        token(TokenKind::Kind, "fn"),
        ws(),
        id("example_api"),
        sym("::"),
        token(TokenKind::Function, "function"),
        sym("("),
        id("v1_param"),
        sym(":"),
        ws(),
        id("example_api"),
        sym("::"),
        token(TokenKind::Type, "Struct"),
        sym(")"),
    ];
    assert_eq!(
        item_from_tokens(&tokens),
        ApiItem::new(
            "example_api::function",
            "pub fn example_api::function(v1_param: example_api::Struct)"
        )
    );
}

#[test]
fn field_is_named_by_its_path() {
    let tokens = vec![
        q("pub"),
        ws(),
        id("example_api"),
        sym("::"),
        token(TokenKind::Type, "Struct"),
        sym("::"),
        id("v1_field"),
        sym(":"),
        ws(),
        token(TokenKind::Primitive, "usize"),
    ];
    assert_eq!(
        item_from_tokens(&tokens),
        ApiItem::new("example_api::Struct::v1_field", "pub example_api::Struct::v1_field: usize")
    );
}

#[test]
fn annotated_struct_is_named_by_its_path() {
    let tokens = vec![
        token(TokenKind::Annotation, "#[non_exhaustive]"),
        ws(),
        q("pub"),
        ws(),
        token(TokenKind::Kind, "struct"),
        ws(),
        id("krate"),
        sym("::"),
        token(TokenKind::Type, "S"),
    ];
    assert_eq!(
        item_from_tokens(&tokens),
        ApiItem::new("krate::S", "#[non_exhaustive] pub struct krate::S")
    );
}

#[test]
fn implementation_is_named_by_its_signature() {
    let tokens = vec![
        token(TokenKind::Keyword, "impl"),
        ws(),
        id("core"),
        sym("::"),
        token(TokenKind::Type, "Clone"),
        ws(),
        token(TokenKind::Keyword, "for"),
        ws(),
        id("krate"),
        sym("::"),
        token(TokenKind::Type, "S"),
    ];
    assert_eq!(
        item_from_tokens(&tokens),
        ApiItem::new("impl core::Clone for krate::S", "impl core::Clone for krate::S")
    );
}

#[test]
fn path_stops_at_the_first_other_token() {
    let generic = vec![
        q("pub"),
        ws(),
        token(TokenKind::Kind, "fn"),
        ws(),
        id("k"),
        sym("::"),
        token(TokenKind::Function, "f"),
        sym("<"),
        token(TokenKind::Generic, "T"),
        sym(">"),
        sym("("),
        sym(")"),
    ];
    assert_eq!(item_from_tokens(&generic), ApiItem::new("k::f", "pub fn k::f<T>()"));
    let dangling = vec![id("k"), sym("::"), sym("::"), id("x")];
    assert_eq!(item_from_tokens(&dangling), ApiItem::new("k", "k::::x"));
    let trailing = vec![id("k"), sym("::")];
    assert_eq!(item_from_tokens(&trailing), ApiItem::new("k", "k::"));
    let other_symbol = vec![id("k"), sym(":"), id("x")];
    assert_eq!(item_from_tokens(&other_symbol), ApiItem::new("k", "k:x"));
    let keyword_colons = vec![id("k"), token(TokenKind::Keyword, "::"), id("x")];
    assert_eq!(item_from_tokens(&keyword_colons), ApiItem::new("k", "k::x"));
}

#[test]
fn items_without_tokens_or_path() {
    assert_eq!(item_from_tokens(&vec![]), ApiItem::new("", ""));
    assert_eq!(item_from_tokens(&vec![q("pub"), ws()]), ApiItem::new("pub ", "pub "));
    assert_eq!(
        item_from_tokens(&vec![q("pub"), ws(), sym("::"), id("x")]),
        ApiItem::new("pub ::x", "pub ::x")
    );
}
