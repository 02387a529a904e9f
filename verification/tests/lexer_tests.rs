use rslean::keyword::Keyword;
use rslean::lexer::tokenize;
use rslean::span::Span;
use rslean::token::{Token, TokenKind};

fn kinds(input: &str) -> Vec<TokenKind> {
    tokenize(input).into_iter().map(|t| t.kind).collect()
}

#[test]
fn tokenizes_basic_keywords() {
    assert_eq!(
        kinds("def theorem where"),
        vec![
            TokenKind::Keyword(Keyword::Def),
            TokenKind::Keyword(Keyword::Theorem),
            TokenKind::Keyword(Keyword::Where),
            TokenKind::Eof
        ]
    );
}

#[test]
fn tokenizes_identifiers_and_dotted_names() {
    assert_eq!(
        kinds("Nat.add αβγ foo'?"),
        vec![
            TokenKind::Ident("Nat.add".to_string()),
            TokenKind::Ident("αβγ".to_string()),
            TokenKind::Ident("foo'?".to_string()),
            TokenKind::Eof
        ]
    );
}

#[test]
fn tokenizes_underscore() {
    assert_eq!(kinds("_"), vec![TokenKind::Underscore, TokenKind::Eof]);
}

#[test]
fn tokenizes_guillemet_identifier() {
    assert_eq!(
        kinds("«hello world»"),
        vec![TokenKind::Ident("hello world".to_string()), TokenKind::Eof]
    );
}

#[test]
fn tokenizes_decimal_nat() {
    assert_eq!(
        kinds("1_000"),
        vec![TokenKind::NatLit("1_000".to_string()), TokenKind::Eof]
    );
}

#[test]
fn tokenizes_hex_binary_octal() {
    assert_eq!(
        kinds("0x1F 0b1010 0o17"),
        vec![
            TokenKind::NatLit("0x1F".to_string()),
            TokenKind::NatLit("0b1010".to_string()),
            TokenKind::NatLit("0o17".to_string()),
            TokenKind::Eof
        ]
    );
}

#[test]
fn tokenizes_scientific_literals() {
    assert_eq!(
        kinds("1.5e10 2e-3 42.0"),
        vec![
            TokenKind::ScientificLit("1.5e10".to_string()),
            TokenKind::ScientificLit("2e-3".to_string()),
            TokenKind::ScientificLit("42.0".to_string()),
            TokenKind::Eof
        ]
    );
}

#[test]
fn range_does_not_merge_with_number() {
    assert_eq!(
        kinds("1..2"),
        vec![
            TokenKind::NatLit("1".to_string()),
            TokenKind::DotDot,
            TokenKind::NatLit("2".to_string()),
            TokenKind::Eof
        ]
    );
}

#[test]
fn tokenizes_string_literal_with_escapes() {
    assert_eq!(
        kinds("\"a\\n\\t\\\\\\\"\""),
        vec![TokenKind::StrLit("a\n\t\\\"".to_string()), TokenKind::Eof]
    );
}

#[test]
fn tokenizes_string_hex_and_unicode_escapes() {
    assert_eq!(
        kinds("\"\\x41\\u{1F600}\""),
        vec![TokenKind::StrLit("A😀".to_string()), TokenKind::Eof]
    );
}

#[test]
fn tokenizes_interpolated_string_markers() {
    assert_eq!(
        kinds("s!\"hello {x}\""),
        vec![
            TokenKind::InterpolBegin,
            TokenKind::StrLit("hello {x}".to_string()),
            TokenKind::InterpolEnd,
            TokenKind::Eof
        ]
    );
}

#[test]
fn tokenizes_char_literal_simple() {
    assert_eq!(kinds("'a'"), vec![TokenKind::CharLit('a'), TokenKind::Eof]);
}

#[test]
fn tokenizes_char_literal_escape() {
    assert_eq!(
        kinds("'\\n'"),
        vec![TokenKind::CharLit('\n'), TokenKind::Eof]
    );
}

#[test]
fn tokenizes_char_literal_unicode_escape() {
    assert_eq!(
        kinds("'\\u{1F600}'"),
        vec![TokenKind::CharLit('😀'), TokenKind::Eof]
    );
}

#[test]
fn emits_newline_tokens() {
    assert_eq!(
        kinds("a\n\nb"),
        vec![
            TokenKind::Ident("a".to_string()),
            TokenKind::Newline,
            TokenKind::Newline,
            TokenKind::Ident("b".to_string()),
            TokenKind::Eof
        ]
    );
}

#[test]
fn skips_line_comment() {
    assert_eq!(
        kinds("a -- comment\nb"),
        vec![
            TokenKind::Ident("a".to_string()),
            TokenKind::Newline,
            TokenKind::Ident("b".to_string()),
            TokenKind::Eof
        ]
    );
}

#[test]
fn skips_nested_block_comments() {
    assert_eq!(
        kinds("a /- x /- y -/ z -/ b"),
        vec![
            TokenKind::Ident("a".to_string()),
            TokenKind::Ident("b".to_string()),
            TokenKind::Eof
        ]
    );
}

#[test]
fn tokenizes_doc_comment() {
    let toks = kinds("/-- doc -/");
    assert_eq!(
        toks,
        vec![TokenKind::DocComment(" doc ".to_string()), TokenKind::Eof]
    );
}

#[test]
fn tokenizes_module_doc_comment() {
    let toks = kinds("/-! module -/");
    assert_eq!(
        toks,
        vec![TokenKind::ModuleDoc(" module ".to_string()), TokenKind::Eof]
    );
}

#[test]
fn tokenizes_delimiters() {
    assert_eq!(
        kinds("()[]{}⟨⟩⦃⦄"),
        vec![
            TokenKind::LParen,
            TokenKind::RParen,
            TokenKind::LBracket,
            TokenKind::RBracket,
            TokenKind::LBrace,
            TokenKind::RBrace,
            TokenKind::LAngle,
            TokenKind::RAngle,
            TokenKind::LDblAngle,
            TokenKind::RDblAngle,
            TokenKind::Eof
        ]
    );
}

#[test]
fn tokenizes_punctuation() {
    assert_eq!(
        kinds(", ; : :: := . .. @ # ? ! | $"),
        vec![
            TokenKind::Comma,
            TokenKind::Semicolon,
            TokenKind::Colon,
            TokenKind::ColonColon,
            TokenKind::ColonEq,
            TokenKind::Dot,
            TokenKind::DotDot,
            TokenKind::At,
            TokenKind::Hash,
            TokenKind::Question,
            TokenKind::Bang,
            TokenKind::Pipe,
            TokenKind::Dollar,
            TokenKind::Eof
        ]
    );
}

#[test]
fn tokenizes_ascii_operators() {
    assert_eq!(
        kinds("+ - * / % ^ & ~ = != <= >= < > && || ++ >> >>= ::"),
        vec![
            TokenKind::Plus,
            TokenKind::Minus,
            TokenKind::Star,
            TokenKind::Slash,
            TokenKind::Percent,
            TokenKind::Caret,
            TokenKind::Ampersand,
            TokenKind::Tilde,
            TokenKind::Eq,
            TokenKind::Ne,
            TokenKind::Le,
            TokenKind::Ge,
            TokenKind::Lt,
            TokenKind::Gt,
            TokenKind::AndAnd,
            TokenKind::OrOr,
            TokenKind::Append,
            TokenKind::SeqOp,
            TokenKind::Bind,
            TokenKind::ColonColon,
            TokenKind::Eof
        ]
    );
}

#[test]
fn tokenizes_arrows_and_pipes() {
    assert_eq!(
        kinds("-> => <- → ← |> <| <|> <$> <*> <* *>"),
        vec![
            TokenKind::Arrow,
            TokenKind::FatArrow,
            TokenKind::LArrow,
            TokenKind::Arrow,
            TokenKind::LArrow,
            TokenKind::PipeRight,
            TokenKind::PipeLeft,
            TokenKind::OrElse,
            TokenKind::MapOp,
            TokenKind::SeqComp,
            TokenKind::SeqLeft,
            TokenKind::SeqRight,
            TokenKind::Eof
        ]
    );
}

#[test]
fn tokenizes_unicode_operators() {
    assert_eq!(
        kinds("∀ ∃ λ ¬ ∧ ∨ ↔ ∈ ∘ × · ▸ • ∣"),
        vec![
            TokenKind::Forall,
            TokenKind::Exists,
            TokenKind::Lambda,
            TokenKind::Neg,
            TokenKind::Conj,
            TokenKind::Disj,
            TokenKind::Iff,
            TokenKind::Mem,
            TokenKind::Compose,
            TokenKind::Times,
            TokenKind::Cdot,
            TokenKind::Subst,
            TokenKind::SMul,
            TokenKind::Dvd,
            TokenKind::Eof
        ]
    );
}

#[test]
fn tokenizes_bitwise_operators() {
    assert_eq!(
        kinds("&&& ||| ^^^ <<< >>> ~~~"),
        vec![
            TokenKind::BitAnd,
            TokenKind::BitOr,
            TokenKind::BitXor,
            TokenKind::ShiftLeft,
            TokenKind::ShiftRight,
            TokenKind::Complement,
            TokenKind::Eof
        ]
    );
}

#[test]
fn tokenizes_hash_keywords() {
    assert_eq!(
        kinds("#check #eval #print #reduce #synth #exit"),
        vec![
            TokenKind::Keyword(Keyword::Check),
            TokenKind::Keyword(Keyword::Eval),
            TokenKind::Keyword(Keyword::Print),
            TokenKind::Keyword(Keyword::Reduce),
            TokenKind::Keyword(Keyword::Synth),
            TokenKind::Keyword(Keyword::Exit),
            TokenKind::Eof
        ]
    );
}

#[test]
fn hash_then_identifier_when_not_command_keyword() {
    assert_eq!(
        kinds("#foo"),
        vec![
            TokenKind::Hash,
            TokenKind::Ident("foo".to_string()),
            TokenKind::Eof
        ]
    );
}

#[test]
fn unknown_char_emits_error_and_recovers() {
    assert_eq!(
        kinds("a § b"),
        vec![
            TokenKind::Ident("a".to_string()),
            TokenKind::Error("§".to_string()),
            TokenKind::Ident("b".to_string()),
            TokenKind::Eof
        ]
    );
}

#[test]
fn unterminated_string_emits_error() {
    let ks = kinds("\"abc");
    assert!(matches!(ks[0], TokenKind::Error(_)));
    assert_eq!(ks[1], TokenKind::Eof);
}

#[test]
fn unterminated_char_emits_error() {
    let ks = kinds("'a");
    assert!(matches!(ks[0], TokenKind::Error(_)));
    assert_eq!(ks[1], TokenKind::Eof);
}

#[test]
fn token_spans_are_byte_offsets() {
    let toks = tokenize("α + β");
    assert_eq!(toks[0].span.start, 0);
    assert_eq!(toks[0].span.end, 2);
    assert_eq!(toks[1].span.start, 3);
    assert_eq!(toks[1].span.end, 4);
    assert_eq!(toks[2].span.start, 5);
    assert_eq!(toks[2].span.end, 7);
}

#[test]
fn token_helper_methods_work() {
    let tok = Token::new(TokenKind::Keyword(Keyword::Def), Span::new(0, 3));
    assert!(tok.is_keyword(Keyword::Def));
    assert!(!tok.is_ident());

    let eof = Token::new(TokenKind::Eof, Span::new(0, 0));
    assert!(eof.is_eof());

    assert!(TokenKind::Plus.is_operator());
    assert!(TokenKind::NatLit("1".to_string()).is_literal());
}

#[test]
fn keyword_roundtrip_display() {
    assert_eq!(Keyword::parse("def"), Some(Keyword::Def));
    assert_eq!(Keyword::Def.as_str(), "def");
    assert_eq!(Keyword::Def.to_string(), "def");
}

#[test]
fn text_tokens_are_spelled_by_their_spans() {
    let src = "def «two words» αβ.γ 0x1F 2.5e3 #eval\nx → y <|> z ≤ w := (a, b)";
    let toks = tokenize(src);
    let arrow = toks.iter().find(|t| t.kind == TokenKind::Arrow).unwrap();
    assert_eq!(&src[arrow.span.start as usize..arrow.span.end as usize], "→");
    let orelse = toks.iter().find(|t| t.kind == TokenKind::OrElse).unwrap();
    assert_eq!(&src[orelse.span.start as usize..orelse.span.end as usize], "<|>");
    let le = toks.iter().find(|t| t.kind == TokenKind::Le).unwrap();
    assert_eq!(&src[le.span.start as usize..le.span.end as usize], "≤");
    let nl = toks.iter().find(|t| t.kind == TokenKind::Newline).unwrap();
    assert_eq!(&src[nl.span.start as usize..nl.span.end as usize], "\n");
    for t in &toks {
        let under = &src[t.span.start as usize..t.span.end as usize];
        match &t.kind {
            TokenKind::Ident(s) => {
                assert!(under == s.as_str() || under == format!("«{}»", s));
            }
            TokenKind::NatLit(s) | TokenKind::ScientificLit(s) => assert_eq!(under, s.as_str()),
            TokenKind::Keyword(k) => assert_eq!(under, k.as_str()),
            _ => {}
        }
    }
    assert_eq!(&src[toks[1].span.start as usize..toks[1].span.end as usize], "«two words»");
    assert_eq!(toks[1].kind, TokenKind::Ident("two words".to_string()));
    assert_eq!(toks[3].kind, TokenKind::NatLit("0x1F".to_string()));
    assert_eq!(toks[5].kind, TokenKind::Keyword(Keyword::Eval));
}
