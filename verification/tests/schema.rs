use mobus_operandi::schema::{
    is_ident, Attribute, Documentation, DocumentationError, Expr, GenericArgument, Ident, Lit, Meta,
    MetaNameValue, Node, NodeError, Path, PathArguments, PathSegment, Type, TypeIdent, VariantIdent,
};

fn path(names: &[&str]) -> Path {
    Path {
        leading_colon: false,
        segments: names
            .iter()
            .map(|n| PathSegment { ident: n.to_string(), arguments: PathArguments::Empty })
            .collect(),
    }
}

fn doc(text: &str) -> Attribute {
    Attribute {
        meta: Meta::NameValue(MetaNameValue {
            path: path(&["doc"]),
            value: Expr::Lit(Lit::Str(text.to_string())),
        }),
    }
}

fn segment(ident: &str, arguments: PathArguments) -> PathSegment {
    PathSegment { ident: ident.to_string(), arguments }
}

fn type_of(ident: &str) -> GenericArgument {
    GenericArgument::Type(Type::Path(Path { leading_colon: false, segments: vec![segment(ident, PathArguments::Empty)] }))
}

#[test]
fn identifiers() {
    let ident = Ident::from("Mob".to_string());
    assert_eq!(ident.as_str(), "Mob");
    assert!(ident.eq_str("Mob"));
    assert!(!ident.eq_str("Mo"));
    let type_ident = TypeIdent::from("Status".to_string());
    assert_eq!(type_ident.as_str(), "Status");
    assert!(type_ident.eq_str("Status"));
    assert!(!type_ident.eq_str("status"));
    assert_eq!(VariantIdent::from("Short".to_string()).as_str(), "Short");
}

#[test]
fn doc_strings_of_attributes() {
    assert_eq!(doc(" hello").doc_string(), Some(" hello".to_string()));
    let qualified = Attribute {
        meta: Meta::NameValue(MetaNameValue {
            path: path(&["core", "doc"]),
            value: Expr::Lit(Lit::Str("x".to_string())),
        }),
    };
    assert_eq!(qualified.doc_string(), Some("x".to_string()));
    let not_doc = Attribute {
        meta: Meta::NameValue(MetaNameValue { path: path(&["serde"]), value: Expr::Lit(Lit::Str("x".to_string())) }),
    };
    assert_eq!(not_doc.doc_string(), None);
    let not_str = Attribute {
        meta: Meta::NameValue(MetaNameValue { path: path(&["doc"]), value: Expr::Lit(Lit::Char('x')) }),
    };
    assert_eq!(not_str.doc_string(), None);
    let list = Attribute { meta: Meta::List { path: path(&["doc"]), tokens: None } };
    assert_eq!(list.doc_string(), None);
    let bare = Attribute { meta: Meta::Path(path(&["doc"])) };
    assert_eq!(bare.doc_string(), None);
}

#[test]
fn documentation_joins_doc_lines() {
    let attrs = vec![
        doc(" A mob's status"),
        Attribute { meta: Meta::Path(path(&["non_exhaustive"])) },
        doc(""),
        doc(" More."),
    ];
    let documentation = Documentation::try_from_attrs(attrs).ok().unwrap();
    assert_eq!(documentation.markdown().as_str(), " A mob's status\n\n More.");
}

#[test]
fn documentation_needs_a_doc_line() {
    let attrs = vec![Attribute { meta: Meta::Path(path(&["derive"])) }];
    assert!(matches!(Documentation::try_from_attrs(attrs), Err(DocumentationError::NoDocAttrs)));
    assert!(matches!(Documentation::try_from_attrs(vec![]), Err(DocumentationError::NoDocAttrs)));
}

#[test]
fn is_ident_of_paths() {
    assert!(is_ident(&path(&["attr"]), "attr"));
    assert!(!is_ident(&path(&["attr"]), "doc"));
    assert!(!is_ident(&path(&["a", "attr"]), "attr"));
    let colon = Path { leading_colon: true, segments: path(&["attr"]).segments };
    assert!(!is_ident(&colon, "attr"));
    let with_args = Path { leading_colon: false, segments: vec![segment("attr", PathArguments::Parenthesized)] };
    assert!(!is_ident(&with_args, "attr"));
}

#[test]
fn nodes_of_types() {
    let vec_of_status = segment("Vec", PathArguments::AngleBracketed(vec![type_of("Status")]));
    match Node::try_from_segment(&vec_of_status) {
        Ok(Node::Sequence(inner)) => match *inner {
            Node::InternalType(ident) => assert_eq!(ident.as_str(), "Status"),
            _ => panic!("expected an internal type"),
        },
        _ => panic!("expected a sequence"),
    }
    match Node::try_from_segment(&segment("Color", PathArguments::Empty)) {
        Ok(Node::ExternalType { ident, url }) => {
            assert_eq!(ident.as_str(), "Color");
            assert_eq!(url, "https://developer.mozilla.org/en-US/docs/Web/CSS/color_value");
        }
        _ => panic!("expected an external type"),
    }
    match Node::try_from_segment(&segment("Markdown", PathArguments::Empty)) {
        Ok(Node::ExternalType { url, .. }) => assert_eq!(
            url,
            "https://docs.github.com/en/get-started/writing-on-github/getting-started-with-writing-and-formatting-on-github/basic-writing-and-formatting-syntax"
        ),
        _ => panic!("expected an external type"),
    }
    assert!(matches!(Node::try_from_segment(&segment("String", PathArguments::Empty)), Ok(Node::Scalar)));
    for internal in ["MobFile", "Participant", "Person", "YamlRecurringSession", "Link", "Status"] {
        assert!(matches!(Node::try_from_segment(&segment(internal, PathArguments::Empty)), Ok(Node::InternalType(_))));
    }
    let nested = segment(
        "Vec",
        PathArguments::AngleBracketed(vec![GenericArgument::Type(Type::Path(Path {
            leading_colon: false,
            segments: vec![segment("std", PathArguments::Empty), segment("Vec", PathArguments::AngleBracketed(vec![type_of("u8")]))],
        }))]),
    );
    match Node::try_from_segment(&nested) {
        Ok(Node::Sequence(inner)) => match *inner {
            Node::Sequence(inner) => assert!(matches!(*inner, Node::Scalar)),
            _ => panic!("expected a sequence"),
        },
        _ => panic!("expected a sequence"),
    }
}

#[test]
fn node_errors() {
    assert!(matches!(Node::try_from_segment(&segment("Vec", PathArguments::Empty)), Err(NodeError::NotAngleBracketed)));
    assert!(matches!(Node::try_from_segment(&segment("Vec", PathArguments::Parenthesized)), Err(NodeError::NotAngleBracketed)));
    assert!(matches!(Node::try_from_segment(&segment("Vec", PathArguments::AngleBracketed(vec![]))), Err(NodeError::NoArgument)));
    assert!(matches!(
        Node::try_from_segment(&segment("Vec", PathArguments::AngleBracketed(vec![GenericArgument::Other]))),
        Err(NodeError::NotAType)
    ));
    assert!(matches!(
        Node::try_from_segment(&segment("Vec", PathArguments::AngleBracketed(vec![GenericArgument::Type(Type::Other)]))),
        Err(NodeError::NotAPath)
    ));
    let empty = GenericArgument::Type(Type::Path(Path { leading_colon: false, segments: vec![] }));
    assert!(matches!(
        Node::try_from_segment(&segment("Vec", PathArguments::AngleBracketed(vec![empty]))),
        Err(NodeError::EmptyPath)
    ));
}
