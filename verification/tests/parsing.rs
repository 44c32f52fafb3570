//! The parser boundary: source text in, declarations out.

use bellande_rust_import::syntax::{declarations, items, parse, Item, ItemKind};
use bellande_rust_import::{Declaration, NamedKind};

fn parsed_declarations(source: &str) -> Vec<Declaration> {
    declarations(&parse(source).expect("the source parses"))
}

#[test]
fn parse_keeps_every_top_level_item_in_order() {
    let ast = parse("use std::fmt;\nfn f() {}\nstruct S;\n").expect("the source parses");
    assert_eq!(ast.items.len(), 3);
    assert!(matches!(ast.items[0], syn::Item::Use(_)));
    assert!(matches!(ast.items[1], syn::Item::Fn(_)));
    assert!(matches!(ast.items[2], syn::Item::Struct(_)));
    assert_eq!(declarations(&ast).len(), 3);
}

#[test]
fn parse_of_empty_text_has_no_declarations() {
    assert_eq!(parsed_declarations(""), Vec::new());
    assert_eq!(parsed_declarations("// nothing but a comment\n"), Vec::new());
}

#[test]
fn parse_reports_the_message_of_a_syntax_error() {
    assert_eq!(
        parse("fn").err(),
        Some("unexpected end of input, expected identifier".to_string())
    );
    assert_eq!(
        parse("struct {").err(),
        Some("cannot parse string into token stream".to_string())
    );
    for bad in ["fn", "struct {", "let x = 1;", "fn f( {}"] {
        let expected = syn::parse_file(bad).err().expect("the text does not parse").to_string();
        assert_eq!(parse(bad).err(), Some(expected));
    }
}

#[test]
fn named_items_carry_kind_identifier_and_tokens() {
    let source = "pub fn f(x: u32) -> u32 { x + 1 }\n\
                  struct S { a: u8 }\n\
                  enum E { A, B }\n\
                  const C: u32 = 7;\n\
                  static G: u8 = 1;\n\
                  trait T { fn go(&self); }\n";
    let expected = vec![
        Declaration::Named {
            kind: NamedKind::Function,
            ident: "f".to_string(),
            tokens: "pub fn f (x : u32) -> u32 { x + 1 }".to_string(),
        },
        Declaration::Named {
            kind: NamedKind::Struct,
            ident: "S".to_string(),
            tokens: "struct S { a : u8 }".to_string(),
        },
        Declaration::Named {
            kind: NamedKind::Enum,
            ident: "E".to_string(),
            tokens: "enum E { A , B }".to_string(),
        },
        Declaration::Named {
            kind: NamedKind::Const,
            ident: "C".to_string(),
            tokens: "const C : u32 = 7 ;".to_string(),
        },
        Declaration::Named {
            kind: NamedKind::Static,
            ident: "G".to_string(),
            tokens: "static G : u8 = 1 ;".to_string(),
        },
        Declaration::Named {
            kind: NamedKind::Trait,
            ident: "T".to_string(),
            tokens: "trait T { fn go (& self) ; }".to_string(),
        },
    ];
    assert_eq!(parsed_declarations(source), expected);
}

#[test]
fn tokens_are_those_that_quote_prints() {
    let source = "pub fn f(x: u32) -> u32 { x + 1 }\nimpl S {}\n";
    let ast = syn::parse_file(source).expect("the source parses");
    let list = parsed_declarations(source);
    assert_eq!(list.len(), 2);
    for (item, declaration) in ast.items.iter().zip(list.iter()) {
        let printed = quote::ToTokens::to_token_stream(item).to_string();
        assert_eq!(declaration.tokens(), Some(&printed));
    }
}

#[test]
fn trait_impl_carries_the_identifiers_of_the_trait_path() {
    let source = "impl Display for S {}\n\
                  impl fmt::Display for S {}\n\
                  impl ::core::fmt::Debug for &'static [u8] {}\n\
                  impl<T> From<T> for Wrapper<T> {}\n\
                  unsafe impl Send for S {}\n\
                  impl !Sync for S {}\n";
    let expected = vec![
        Declaration::TraitImpl {
            trait_path: vec!["Display".to_string()],
            tokens: "impl Display for S { }".to_string(),
        },
        Declaration::TraitImpl {
            trait_path: vec!["fmt".to_string(), "Display".to_string()],
            tokens: "impl fmt :: Display for S { }".to_string(),
        },
        Declaration::TraitImpl {
            trait_path: vec!["core".to_string(), "fmt".to_string(), "Debug".to_string()],
            tokens: "impl :: core :: fmt :: Debug for & 'static [u8] { }".to_string(),
        },
        Declaration::TraitImpl {
            trait_path: vec!["From".to_string()],
            tokens: "impl < T > From < T > for Wrapper < T > { }".to_string(),
        },
        Declaration::TraitImpl {
            trait_path: vec!["Send".to_string()],
            tokens: "unsafe impl Send for S { }".to_string(),
        },
        Declaration::TraitImpl {
            trait_path: vec!["Sync".to_string()],
            tokens: "impl ! Sync for S { }".to_string(),
        },
    ];
    assert_eq!(parsed_declarations(source), expected);
}

#[test]
fn inherent_impl_carries_its_type_as_text() {
    let source = "impl S { fn new() -> Self { S { a: 0 } } }\n\
                  impl<T> Wrapper<T> {}\n\
                  impl dyn T {}\n";
    let expected = vec![
        Declaration::InherentImpl {
            self_type: "S".to_string(),
            tokens: "impl S { fn new () -> Self { S { a : 0 } } }".to_string(),
        },
        Declaration::InherentImpl {
            self_type: "Wrapper < T >".to_string(),
            tokens: "impl < T > Wrapper < T > { }".to_string(),
        },
        Declaration::InherentImpl {
            self_type: "dyn T".to_string(),
            tokens: "impl dyn T { }".to_string(),
        },
    ];
    assert_eq!(parsed_declarations(source), expected);
}

#[test]
fn every_other_item_is_other() {
    let source = "use std::fmt;\n\
                  extern crate core;\n\
                  type Alias = u8;\n\
                  mod inner {}\n\
                  macro_rules! m { () => {} }\n\
                  union U { a: u8 }\n\
                  extern \"C\" {}\n\
                  trait Both = Send + Sync;\n";
    let list = parsed_declarations(source);
    assert_eq!(list.len(), 8);
    for declaration in &list {
        assert_eq!(declaration, &Declaration::Other);
    }
}

#[test]
fn raw_identifier_keeps_its_prefix() {
    let list = parsed_declarations("fn r#type() {}\n");
    assert_eq!(
        list,
        vec![Declaration::Named {
            kind: NamedKind::Function,
            ident: "r#type".to_string(),
            tokens: "fn r#type () { }".to_string(),
        }]
    );
}

#[test]
fn byte_order_mark_and_shebang_are_not_items() {
    let expected = vec![Declaration::Named {
        kind: NamedKind::Function,
        ident: "ok".to_string(),
        tokens: "fn ok () { }".to_string(),
    }];
    assert_eq!(parsed_declarations("\u{feff}fn ok() {}"), expected);
    assert_eq!(parsed_declarations("#!/usr/bin/env run\nfn ok() {}"), expected);
}

fn item(kind: ItemKind) -> Item {
    Item { kind, ident: None, trait_path: None, self_type: None, tokens: "tokens".to_string() }
}

fn named_kinds() -> Vec<(ItemKind, NamedKind)> {
    vec![
        (ItemKind::Fn, NamedKind::Function),
        (ItemKind::Struct, NamedKind::Struct),
        (ItemKind::Enum, NamedKind::Enum),
        (ItemKind::Const, NamedKind::Const),
        (ItemKind::Static, NamedKind::Static),
        (ItemKind::Trait, NamedKind::Trait),
    ]
}

fn unindexed_kinds() -> Vec<ItemKind> {
    vec![
        ItemKind::ExternCrate,
        ItemKind::ForeignMod,
        ItemKind::Macro,
        ItemKind::Mod,
        ItemKind::TraitAlias,
        ItemKind::Type,
        ItemKind::Union,
        ItemKind::Use,
        ItemKind::Verbatim,
        ItemKind::Unlisted,
    ]
}

#[test]
fn six_kinds_are_named_kinds() {
    for (kind, named) in named_kinds() {
        assert_eq!(kind.as_named(), Some(named));
    }
    assert_eq!(ItemKind::Impl.as_named(), None);
    for kind in unindexed_kinds() {
        assert_eq!(kind.as_named(), None);
    }
}

#[test]
fn named_item_becomes_a_named_declaration() {
    for (kind, named) in named_kinds() {
        let with_ident = Item { ident: Some("f".to_string()), ..item(kind) };
        assert_eq!(
            with_ident.into_declaration(),
            Declaration::Named {
                kind: named,
                ident: "f".to_string(),
                tokens: "tokens".to_string(),
            }
        );
    }
    let with_more = Item {
        ident: Some("T".to_string()),
        trait_path: Some(vec!["ignored".to_string()]),
        self_type: Some("ignored".to_string()),
        ..item(ItemKind::Trait)
    };
    assert_eq!(
        with_more.into_declaration(),
        Declaration::Named {
            kind: NamedKind::Trait,
            ident: "T".to_string(),
            tokens: "tokens".to_string(),
        }
    );
}

#[test]
fn impl_item_is_a_trait_impl_where_it_has_a_trait_path() {
    let of_trait = Item {
        trait_path: Some(vec!["fmt".to_string(), "Display".to_string()]),
        self_type: Some("S".to_string()),
        ..item(ItemKind::Impl)
    };
    assert_eq!(
        of_trait.into_declaration(),
        Declaration::TraitImpl {
            trait_path: vec!["fmt".to_string(), "Display".to_string()],
            tokens: "tokens".to_string(),
        }
    );
    let inherent = Item { self_type: Some("S".to_string()), ..item(ItemKind::Impl) };
    assert_eq!(
        inherent.into_declaration(),
        Declaration::InherentImpl { self_type: "S".to_string(), tokens: "tokens".to_string() }
    );
}

#[test]
fn item_of_any_other_kind_is_other() {
    for kind in unindexed_kinds() {
        assert_eq!(item(kind).into_declaration(), Declaration::Other);
        let with_all = Item {
            ident: Some("x".to_string()),
            trait_path: Some(vec!["T".to_string()]),
            self_type: Some("S".to_string()),
            ..item(kind)
        };
        assert_eq!(with_all.into_declaration(), Declaration::Other);
    }
}

#[test]
fn item_without_what_its_kind_needs_is_other() {
    for (kind, _) in named_kinds() {
        assert_eq!(item(kind).into_declaration(), Declaration::Other);
    }
    assert_eq!(item(ItemKind::Impl).into_declaration(), Declaration::Other);
}

#[test]
fn items_carry_the_kind_of_each_variant() {
    let source = "const C: u8 = 1;\n\
                  enum E { A }\n\
                  extern crate core;\n\
                  fn f() {}\n\
                  extern \"C\" {}\n\
                  impl S {}\n\
                  macro_rules! m { () => {} }\n\
                  mod inner {}\n\
                  static G: u8 = 1;\n\
                  struct S;\n\
                  trait T {}\n\
                  trait Both = Send + Sync;\n\
                  type Byte = u8;\n\
                  union U { a: u8 }\n\
                  use std::fmt;\n";
    let ast = parse(source).expect("the source parses");
    let kinds: Vec<ItemKind> = items(&ast).iter().map(|item| item.kind).collect();
    assert_eq!(
        kinds,
        vec![
            ItemKind::Const,
            ItemKind::Enum,
            ItemKind::ExternCrate,
            ItemKind::Fn,
            ItemKind::ForeignMod,
            ItemKind::Impl,
            ItemKind::Macro,
            ItemKind::Mod,
            ItemKind::Static,
            ItemKind::Struct,
            ItemKind::Trait,
            ItemKind::TraitAlias,
            ItemKind::Type,
            ItemKind::Union,
            ItemKind::Use,
        ]
    );
}

#[test]
fn items_carry_the_parts_that_fit_their_kind() {
    let source = "fn f() {}\nimpl fmt::Display for S {}\nimpl S {}\ntype Byte = u8;\n";
    let ast = parse(source).expect("the source parses");
    let expected = vec![
        Item {
            kind: ItemKind::Fn,
            ident: Some("f".to_string()),
            trait_path: None,
            self_type: None,
            tokens: "fn f () { }".to_string(),
        },
        Item {
            kind: ItemKind::Impl,
            ident: None,
            trait_path: Some(vec!["fmt".to_string(), "Display".to_string()]),
            self_type: Some("S".to_string()),
            tokens: "impl fmt :: Display for S { }".to_string(),
        },
        Item {
            kind: ItemKind::Impl,
            ident: None,
            trait_path: None,
            self_type: Some("S".to_string()),
            tokens: "impl S { }".to_string(),
        },
        Item {
            kind: ItemKind::Type,
            ident: None,
            trait_path: None,
            self_type: None,
            tokens: "type Byte = u8 ;".to_string(),
        },
    ];
    assert_eq!(items(&ast), expected);
    for item in items(&ast) {
        assert_eq!(item.ident.is_some(), item.kind.as_named().is_some());
        assert_eq!(item.self_type.is_some(), item.kind == ItemKind::Impl);
        assert!(item.trait_path.is_none() || item.kind == ItemKind::Impl);
    }
}

#[test]
fn verbatim_item_has_its_own_kind() {
    let mut ast = parse("fn f() {}\n").expect("the source parses");
    ast.items.push(syn::Item::Verbatim(proc_macro2::TokenStream::new()));
    let kinds: Vec<ItemKind> = items(&ast).iter().map(|item| item.kind).collect();
    assert_eq!(kinds, vec![ItemKind::Fn, ItemKind::Verbatim]);
    assert_eq!(declarations(&ast).len(), 2);
    assert_eq!(declarations(&ast)[1], Declaration::Other);
}
