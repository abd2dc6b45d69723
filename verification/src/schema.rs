//! The parts of a Rust type declaration that the site documents, and the
//! documentation derived from them: identifiers, doc comments and the
//! classification of field types.
//!
//! The declarations are held as plain values: `Path`, `Attribute` and
//! friends mirror the shapes of the syntax tree that the logic reads.

use vstd::prelude::*;

use crate::markdown::Markdown;
use crate::text::text_eq;

verus! {

/// An identifier.
pub struct Ident(String);

impl Ident {
    /// The identifier's text.
    pub closed spec fn spec_text(&self) -> Seq<char> {
        self.0@
    }

    /// The identifier's text.
    pub fn as_str(&self) -> (s: &str)
        ensures
            s@ == self.spec_text(),
    {
        self.0.as_str()
    }

    /// Whether the identifier is the given text.
    pub fn eq_str(&self, other: &str) -> (eq: bool)
        ensures
            eq == (self.spec_text() == other@),
    {
        text_eq(self.0.as_str(), other)
    }
}

impl From<String> for Ident {
    fn from(string: String) -> (ident: Self)
        ensures
            ident.spec_text() == string@,
    {
        Ident(string)
    }
}

impl vstd::std_specs::convert::FromSpecImpl<String> for Ident {
    open spec fn obeys_from_spec() -> bool {
        true
    }

    closed spec fn from_spec(v: String) -> Self {
        Ident(v)
    }
}

/// The identifier of a type.
pub struct TypeIdent(Ident);

impl TypeIdent {
    /// The identifier's text.
    pub closed spec fn spec_text(&self) -> Seq<char> {
        self.0.spec_text()
    }

    /// The identifier's text.
    pub fn as_str(&self) -> (s: &str)
        ensures
            s@ == self.spec_text(),
    {
        self.0.as_str()
    }

    /// Whether the identifier is the given text.
    pub fn eq_str(&self, other: &str) -> (eq: bool)
        ensures
            eq == (self.spec_text() == other@),
    {
        self.0.eq_str(other)
    }
}

impl From<String> for TypeIdent {
    fn from(s: String) -> (ident: Self)
        ensures
            ident.spec_text() == s@,
    {
        TypeIdent(Ident(s))
    }
}

impl vstd::std_specs::convert::FromSpecImpl<String> for TypeIdent {
    open spec fn obeys_from_spec() -> bool {
        true
    }

    closed spec fn from_spec(v: String) -> Self {
        TypeIdent(Ident(v))
    }
}

/// The identifier of an enum variant.
pub struct VariantIdent(Ident);

impl VariantIdent {
    /// The identifier's text.
    pub closed spec fn spec_text(&self) -> Seq<char> {
        self.0.spec_text()
    }

    /// The identifier's text.
    pub fn as_str(&self) -> (s: &str)
        ensures
            s@ == self.spec_text(),
    {
        self.0.as_str()
    }
}

impl From<String> for VariantIdent {
    fn from(s: String) -> (ident: Self)
        ensures
            ident.spec_text() == s@,
    {
        VariantIdent(Ident(s))
    }
}

impl vstd::std_specs::convert::FromSpecImpl<String> for VariantIdent {
    open spec fn obeys_from_spec() -> bool {
        true
    }

    closed spec fn from_spec(v: String) -> Self {
        VariantIdent(Ident(v))
    }
}

/// A literal.
pub enum Lit {
    Str(String),
    Char(char),
    Other,
}

/// An expression; only literals are told apart.
pub enum Expr {
    Lit(Lit),
    Other,
}

/// A path such as `doc` or `serde::rename`.
pub struct Path {
    /// Whether the path starts with `::`.
    pub leading_colon: bool,
    pub segments: Vec<PathSegment>,
}

/// A segment of a path: an identifier and its generic arguments.
pub struct PathSegment {
    pub ident: String,
    pub arguments: PathArguments,
}

/// The arguments of a path segment, such as `<String>` in `Vec<String>`.
pub enum PathArguments {
    Empty,
    AngleBracketed(Vec<GenericArgument>),
    Parenthesized,
}

/// A generic argument.
pub enum GenericArgument {
    Type(Type),
    Other,
}

/// A type; only paths are told apart.
pub enum Type {
    Path(Path),
    Other,
}

/// A `name = value` pair, as in `#[doc = "..."]`.
pub struct MetaNameValue {
    pub path: Path,
    pub value: Expr,
}

/// The content of an attribute.
pub enum Meta {
    /// `#[path]`
    Path(Path),
    /// `#[path(tokens)]`; the tokens are kept as the name-value pair they
    /// parse to, or `None` when they are not one.
    List { path: Path, tokens: Option<MetaNameValue> },
    /// `#[path = value]`
    NameValue(MetaNameValue),
}

/// An attribute of an item.
pub struct Attribute {
    pub meta: Meta,
}

/// Whether a path is the single identifier `name`, with no leading `::`
/// and no arguments.
pub open spec fn path_is_ident(path: Path, name: Seq<char>) -> bool {
    &&& !path.leading_colon
    &&& path.segments@.len() == 1
    &&& path.segments@[0].arguments is Empty
    &&& path.segments@[0].ident@ == name
}

/// Whether a path is the single identifier `name`.
pub fn is_ident(path: &Path, name: &str) -> (b: bool)
    ensures
        b == path_is_ident(*path, name@),
{
    if path.leading_colon || path.segments.len() != 1 {
        return false;
    }
    let segment = &path.segments[0];
    match &segment.arguments {
        PathArguments::Empty => text_eq(segment.ident.as_str(), name),
        _ => false,
    }
}

/// The text of a doc comment attribute: `#[doc = "text"]`, where the path's
/// last segment is `doc` and the value is a string literal.
pub open spec fn doc_string_of(attr: Attribute) -> Option<Seq<char>> {
    match attr.meta {
        Meta::NameValue(name_value) => {
            let segments = name_value.path.segments@;
            if segments.len() > 0 && segments.last().ident@ == "doc"@ {
                match name_value.value {
                    Expr::Lit(Lit::Str(s)) => Some(s@),
                    _ => None,
                }
            } else {
                None
            }
        },
        _ => None,
    }
}

impl Attribute {
    /// The text of the attribute when it is a doc comment.
    pub fn doc_string(&self) -> (s: Option<String>)
        ensures
            s matches Some(t) ==> doc_string_of(*self) == Some(t@),
            s is None ==> doc_string_of(*self) is None,
    {
        let name_value = match &self.meta {
            Meta::NameValue(name_value) => name_value,
            _ => return None,
        };
        let n = name_value.path.segments.len();
        if n == 0 {
            return None;
        }
        let last_path_segment = &name_value.path.segments[n - 1];
        if !text_eq(last_path_segment.ident.as_str(), "doc") {
            return None;
        }
        match &name_value.value {
            Expr::Lit(Lit::Str(lit_str)) => Some(lit_str.clone()),
            _ => None,
        }
    }
}

/// The doc comment texts among some attributes, in order.
pub open spec fn doc_strings(attrs: Seq<Attribute>) -> Seq<Seq<char>>
    decreases attrs.len(),
{
    if attrs.len() == 0 {
        Seq::empty()
    } else {
        match doc_string_of(attrs.last()) {
            Some(s) => doc_strings(attrs.drop_last()).push(s),
            None => doc_strings(attrs.drop_last()),
        }
    }
}

/// Lines joined by line breaks.
pub open spec fn join_lines(lines: Seq<Seq<char>>) -> Seq<char>
    decreases lines.len(),
{
    if lines.len() == 0 {
        Seq::empty()
    } else if lines.len() == 1 {
        lines[0]
    } else {
        join_lines(lines.drop_last()) + "\n"@ + lines.last()
    }
}

/// The documentation of a type, taken from its doc comments.
pub struct Documentation(Markdown);

/// Why a type has no documentation.
pub enum DocumentationError {
    /// The type has no doc comment.
    NoDocAttrs,
}

impl Documentation {
    /// The documentation's Markdown source.
    pub closed spec fn spec_source(&self) -> Seq<char> {
        self.0.spec_source()
    }

    /// The documentation's Markdown source.
    pub fn markdown(&self) -> (m: &Markdown)
        ensures
            m.spec_source() == self.spec_source(),
    {
        &self.0
    }

    /// The documentation of an item with these attributes: its doc comment
    /// lines joined by line breaks; an error when it has none.
    pub fn try_from_attrs(attrs: Vec<Attribute>) -> (r: Result<Documentation, DocumentationError>)
        ensures
            doc_strings(attrs@).len() == 0 <==> r is Err,
            r matches Ok(d) ==> d.spec_source() == join_lines(doc_strings(attrs@)),
    {
        let mut doc: String = String::new();
        let mut found = false;
        let mut i: usize = 0;
        let n = attrs.len();
        while i < n
            invariant
                n == attrs@.len(),
                i <= n,
                found == (doc_strings(attrs@.take(i as int)).len() > 0),
                doc@ == join_lines(doc_strings(attrs@.take(i as int))),
            decreases n - i,
        {
            assert(attrs@.take(i + 1).drop_last() =~= attrs@.take(i as int));
            assert(attrs@.take(i + 1).last() == attrs@[i as int]);
            let ghost before = doc_strings(attrs@.take(i as int));
            match attrs[i].doc_string() {
                Some(part) => {
                    assert(doc_strings(attrs@.take(i + 1)) =~= before.push(part@));
                    assert(before.push(part@).drop_last() =~= before);
                    if found {
                        doc.append("\n");
                    }
                    doc.append(part.as_str());
                    found = true;
                },
                None => {},
            }
            i = i + 1;
        }
        assert(attrs@.take(n as int) =~= attrs@);
        if !found {
            return Err(DocumentationError::NoDocAttrs);
        }
        Ok(Documentation(Markdown::from(doc)))
    }
}


/// The names of the types that the site documents itself: the types of a
/// mob's file.
pub open spec fn is_internal_type_name(ident: Seq<char>) -> bool {
    ||| ident == "MobFile"@
    ||| ident == "Participant"@
    ||| ident == "Person"@
    ||| ident == "YamlRecurringSession"@
    ||| ident == "Link"@
    ||| ident == "Status"@
}

/// Whether a type is one that the site documents itself.
pub fn is_internal_type(ident: &str) -> (b: bool)
    ensures
        b == is_internal_type_name(ident@),
{
    text_eq(ident, "MobFile") || text_eq(ident, "Participant") || text_eq(ident, "Person")
        || text_eq(ident, "YamlRecurringSession") || text_eq(ident, "Link") || text_eq(
        ident,
        "Status",
    )
}

/// Where the types documented elsewhere are described.
pub open spec fn external_type_url_of(ident: Seq<char>) -> Option<Seq<char>> {
    if ident == "Color"@ {
        Some("https://developer.mozilla.org/en-US/docs/Web/CSS/color_value"@)
    } else if ident == "Url"@ {
        Some("https://developer.mozilla.org/en-US/docs/Glossary/URL"@)
    } else if ident == "Tz"@ {
        Some("https://en.wikipedia.org/wiki/List_of_tz_database_time_zones"@)
    } else if ident == "Markdown"@ {
        Some(
            "https://docs.github.com/en/get-started/writing-on-github/getting-started-with-writing-and-formatting-on-github/basic-writing-and-formatting-syntax"@,
        )
    } else {
        None
    }
}

/// Where a type that is documented elsewhere is described.
pub fn external_type_url(ident: &str) -> (url: Option<String>)
    ensures
        url matches Some(u) ==> external_type_url_of(ident@) == Some(u@),
        url is None ==> external_type_url_of(ident@) is None,
{
    if text_eq(ident, "Color") {
        Some(String::from_str("https://developer.mozilla.org/en-US/docs/Web/CSS/color_value"))
    } else if text_eq(ident, "Url") {
        Some(String::from_str("https://developer.mozilla.org/en-US/docs/Glossary/URL"))
    } else if text_eq(ident, "Tz") {
        Some(String::from_str("https://en.wikipedia.org/wiki/List_of_tz_database_time_zones"))
    } else if text_eq(ident, "Markdown") {
        Some(
            String::from_str(
                "https://docs.github.com/en/get-started/writing-on-github/getting-started-with-writing-and-formatting-on-github/basic-writing-and-formatting-syntax",
            ),
        )
    } else {
        None
    }
}

/// What the type of a field is, for its documentation.
pub enum Node {
    /// A sequence of the inner type.
    Sequence(Box<Node>),
    /// A type that the site documents itself.
    InternalType(TypeIdent),
    /// A type documented elsewhere, at the URL.
    ExternalType { ident: TypeIdent, url: String },
    /// Anything else.
    Scalar,
}

/// A `Node` as plain values.
pub enum NodeView {
    Sequence(Box<NodeView>),
    InternalType(Seq<char>),
    ExternalType(Seq<char>, Seq<char>),
    Scalar,
}

impl View for Node {
    type V = NodeView;

    open spec fn view(&self) -> NodeView
        decreases self,
    {
        match self {
            Node::Sequence(inner) => NodeView::Sequence(Box::new((**inner).view())),
            Node::InternalType(ident) => NodeView::InternalType(ident.spec_text()),
            Node::ExternalType { ident, url } => NodeView::ExternalType(ident.spec_text(), url@),
            Node::Scalar => NodeView::Scalar,
        }
    }
}

/// Why the element type of a sequence could not be read.
pub enum NodeError {
    /// "Option with non angle bracketed arguments"
    NotAngleBracketed,
    /// "doesn't have an argument"
    NoArgument,
    /// "type argument is not a type"
    NotAType,
    /// "non-path type"
    NotAPath,
    /// "empty path"
    EmptyPath,
}

/// What the last segment of a field's type path is: `Vec<T>` is a sequence
/// of what `T` is, a documented type is internal, a type described elsewhere
/// is external, anything else is a scalar. Reading the element type of a
/// `Vec` can fail.
pub open spec fn node_of_segment(segment: PathSegment) -> Result<NodeView, NodeError>
    decreases segment,
{
    if segment.ident@ == "Vec"@ {
        match segment.arguments {
            PathArguments::AngleBracketed(args) => {
                if args@.len() == 0 {
                    Err(NodeError::NoArgument)
                } else {
                    match args@[0] {
                        GenericArgument::Type(ty) => match ty {
                            Type::Path(path) => {
                                if path.segments@.len() == 0 {
                                    Err(NodeError::EmptyPath)
                                } else {
                                    match node_of_segment(path.segments@.last()) {
                                        Ok(inner) => Ok(NodeView::Sequence(Box::new(inner))),
                                        Err(e) => Err(e),
                                    }
                                }
                            },
                            Type::Other => Err(NodeError::NotAPath),
                        },
                        GenericArgument::Other => Err(NodeError::NotAType),
                    }
                }
            },
            _ => Err(NodeError::NotAngleBracketed),
        }
    } else if is_internal_type_name(segment.ident@) {
        Ok(NodeView::InternalType(segment.ident@))
    } else {
        match external_type_url_of(segment.ident@) {
            Some(url) => Ok(NodeView::ExternalType(segment.ident@, url)),
            None => Ok(NodeView::Scalar),
        }
    }
}

/// Only a type named `Color`, `Url`, `Tz` or `Markdown` is documented as
/// external, and under its own name.
pub proof fn lemma_external_only_named(segment: PathSegment)
    ensures
        node_of_segment(segment) matches Ok(NodeView::ExternalType(ident, _)) ==> ident
            == segment.ident@ && (ident == "Color"@ || ident == "Url"@ || ident == "Tz"@ || ident
            == "Markdown"@),
{
}

/// The types described elsewhere are documented by a link to their
/// description: a field's type named `Color`, `Url`, `Tz` or `Markdown`,
/// whatever its arguments, is an external type of that name, linking to the
/// CSS color values, to the definition of a URL, to the list of tz database
/// time zones and to GitHub's Markdown syntax.
pub proof fn lemma_external_types_link_their_description(segment: PathSegment)
    ensures
        segment.ident@ == "Color"@ ==> node_of_segment(segment) == Ok::<NodeView, NodeError>(
            NodeView::ExternalType(
                "Color"@,
                "https://developer.mozilla.org/en-US/docs/Web/CSS/color_value"@,
            ),
        ),
        segment.ident@ == "Url"@ ==> node_of_segment(segment) == Ok::<NodeView, NodeError>(
            NodeView::ExternalType("Url"@, "https://developer.mozilla.org/en-US/docs/Glossary/URL"@),
        ),
        segment.ident@ == "Tz"@ ==> node_of_segment(segment) == Ok::<NodeView, NodeError>(
            NodeView::ExternalType(
                "Tz"@,
                "https://en.wikipedia.org/wiki/List_of_tz_database_time_zones"@,
            ),
        ),
        segment.ident@ == "Markdown"@ ==> node_of_segment(segment) == Ok::<NodeView, NodeError>(
            NodeView::ExternalType(
                "Markdown"@,
                "https://docs.github.com/en/get-started/writing-on-github/getting-started-with-writing-and-formatting-on-github/basic-writing-and-formatting-syntax"@,
            ),
        ),
{
    reveal_strlit("Color");
    reveal_strlit("Url");
    reveal_strlit("Tz");
    lemma_external_only_named(segment);
    reveal_strlit("Markdown");
    reveal_strlit("Vec");
    reveal_strlit("MobFile");
    reveal_strlit("Participant");
    reveal_strlit("Person");
    reveal_strlit("YamlRecurringSession");
    reveal_strlit("Link");
    reveal_strlit("Status");
    assert("Url"@[0] != "Vec"@[0]);
    assert("Color"@.len() == 5 && "Tz"@.len() == 2 && "Vec"@.len() == 3);
    assert(!is_internal_type_name("Color"@));
    assert(!is_internal_type_name("Tz"@));
    assert("Tz"@ != "Color"@ && "Tz"@ != "Url"@);
    assert("Markdown"@.len() == 8 && "Url"@.len() == 3);
    assert(!is_internal_type_name("Markdown"@));
    assert(!is_internal_type_name("Url"@));
    assert("Markdown"@ != "Color"@ && "Markdown"@ != "Url"@ && "Markdown"@ != "Tz"@);
    assert("Url"@ != "Color"@);
    assert("Markdown"@ != "Vec"@ && "Color"@ != "Vec"@ && "Tz"@ != "Vec"@ && "Url"@ != "Vec"@);
}

impl Node {
    /// What the type whose path ends in `segment` is.
    pub fn try_from_segment(segment: &PathSegment) -> (r: Result<Node, NodeError>)
        ensures
            r matches Ok(node) ==> node_of_segment(*segment) == Ok::<NodeView, NodeError>(node@),
            r matches Err(e) ==> node_of_segment(*segment) == Err::<NodeView, NodeError>(e),
        decreases segment,
    {
        let ident = segment.ident.as_str();
        if text_eq(ident, "Vec") {
            let args = match &segment.arguments {
                PathArguments::AngleBracketed(args) => args,
                _ => return Err(NodeError::NotAngleBracketed),
            };
            if args.len() == 0 {
                return Err(NodeError::NoArgument);
            }
            let ty = match &args[0] {
                GenericArgument::Type(ty) => ty,
                GenericArgument::Other => return Err(NodeError::NotAType),
            };
            let path = match ty {
                Type::Path(path) => path,
                Type::Other => return Err(NodeError::NotAPath),
            };
            let n = path.segments.len();
            if n == 0 {
                return Err(NodeError::EmptyPath);
            }
            let last = &path.segments[n - 1];
            assert(path.segments@.last() == *last);
            match Node::try_from_segment(last) {
                Ok(inner) => Ok(Node::Sequence(Box::new(inner))),
                Err(e) => Err(e),
            }
        } else if is_internal_type(ident) {
            Ok(Node::InternalType(TypeIdent(Ident(segment.ident.clone()))))
        } else {
            match external_type_url(ident) {
                Some(url) => Ok(
                    Node::ExternalType { ident: TypeIdent(Ident(segment.ident.clone())), url },
                ),
                None => Ok(Node::Scalar),
            }
        }
    }
}


/// A variant of an enum declaration: its identifier and its attributes.
pub struct Variant {
    pub ident: String,
    pub attrs: Vec<Attribute>,
}

/// The first doc comment text among some attributes.
pub open spec fn first_doc(attrs: Seq<Attribute>) -> Option<Seq<char>>
    decreases attrs.len(),
{
    if attrs.len() == 0 {
        None
    } else {
        match doc_string_of(attrs[0]) {
            Some(s) => Some(s),
            None => first_doc(attrs.drop_first()),
        }
    }
}

/// The tokens of the first `#[attr(...)]` attribute, if there is one.
pub open spec fn first_attr_tokens(attrs: Seq<Attribute>) -> Option<Option<MetaNameValue>>
    decreases attrs.len(),
{
    if attrs.len() == 0 {
        None
    } else {
        match attrs[0].meta {
            Meta::List { path, tokens } => if path_is_ident(path, "attr"@) {
                Some(tokens)
            } else {
                first_attr_tokens(attrs.drop_first())
            },
            _ => first_attr_tokens(attrs.drop_first()),
        }
    }
}

/// Whether the indicator of some attributes can be read: when the first
/// `#[attr(...)]` holds `indicator = value`, the value is a character
/// literal.
pub open spec fn indicator_readable(attrs: Seq<Attribute>) -> bool {
    match first_attr_tokens(attrs) {
        Some(Some(name_value)) => path_is_ident(name_value.path, "indicator"@) ==> (
        name_value.value matches Expr::Lit(Lit::Char(_))),
        _ => true,
    }
}

/// The indicator that the first `#[attr(indicator = 'c')]` of some
/// attributes declares.
pub open spec fn indicator_of_attrs(attrs: Seq<Attribute>) -> Option<char> {
    match first_attr_tokens(attrs) {
        Some(Some(name_value)) => if path_is_ident(name_value.path, "indicator"@) {
            match name_value.value {
                Expr::Lit(Lit::Char(c)) => Some(c),
                _ => None,
            }
        } else {
            None
        },
        _ => None,
    }
}

/// The first variant with the given identifier.
pub open spec fn variant_named(variants: Seq<Variant>, name: Seq<char>) -> Option<Variant>
    decreases variants.len(),
{
    if variants.len() == 0 {
        None
    } else if variants[0].ident@ == name {
        Some(variants[0])
    } else {
        variant_named(variants.drop_first(), name)
    }
}

/// The first doc comment text among some attributes.
pub fn first_doc_string(attrs: &Vec<Attribute>) -> (s: Option<String>)
    ensures
        s matches Some(t) ==> first_doc(attrs@) == Some(t@),
        s is None ==> first_doc(attrs@) is None,
{
    let n = attrs.len();
    let mut i: usize = 0;
    assert(attrs@.skip(0) =~= attrs@);
    while i < n
        invariant
            n == attrs@.len(),
            i <= n,
            first_doc(attrs@) == first_doc(attrs@.skip(i as int)),
        decreases n - i,
    {
        assert(attrs@.skip(i as int)[0] == attrs@[i as int]);
        assert(attrs@.skip(i as int).drop_first() =~= attrs@.skip(i + 1));
        match attrs[i].doc_string() {
            Some(s) => return Some(s),
            None => {},
        }
        i = i + 1;
    }
    assert(attrs@.skip(n as int).len() == 0);
    None
}

/// The tokens of the first `#[attr(...)]` attribute, if there is one.
pub fn first_attr_list_tokens(attrs: &Vec<Attribute>) -> (t: Option<&Option<MetaNameValue>>)
    ensures
        t matches Some(tokens) ==> first_attr_tokens(attrs@) == Some(*tokens),
        t is None ==> first_attr_tokens(attrs@) is None,
{
    let n = attrs.len();
    let mut i: usize = 0;
    assert(attrs@.skip(0) =~= attrs@);
    while i < n
        invariant
            n == attrs@.len(),
            i <= n,
            first_attr_tokens(attrs@) == first_attr_tokens(attrs@.skip(i as int)),
        decreases n - i,
    {
        assert(attrs@.skip(i as int)[0] == attrs@[i as int]);
        assert(attrs@.skip(i as int).drop_first() =~= attrs@.skip(i + 1));
        match &attrs[i].meta {
            Meta::List { path, tokens } => {
                if is_ident(path, "attr") {
                    return Some(tokens);
                }
            },
            _ => {},
        }
        i = i + 1;
    }
    assert(attrs@.skip(n as int).len() == 0);
    None
}

/// The indicator that the first `#[attr(indicator = 'c')]` of some
/// attributes declares.
pub fn attrs_indicator(attrs: &Vec<Attribute>) -> (c: Option<char>)
    requires
        indicator_readable(attrs@),
    ensures
        c == indicator_of_attrs(attrs@),
{
    let tokens = match first_attr_list_tokens(attrs) {
        Some(tokens) => tokens,
        None => return None,
    };
    let name_value = match tokens {
        Some(name_value) => name_value,
        None => return None,
    };
    if !is_ident(&name_value.path, "indicator") {
        return None;
    }
    match &name_value.value {
        Expr::Lit(Lit::Char(c)) => Some(*c),
        _ => {
            assert(false);
            None
        },
    }
}

/// The position of the first variant with the given identifier.
pub fn find_variant(variants: &Vec<Variant>, name: &str) -> (i: Option<usize>)
    ensures
        i matches Some(k) ==> k < variants@.len() && variant_named(variants@, name@) == Some(
            variants@[k as int],
        ),
        i is None ==> variant_named(variants@, name@) is None,
{
    let n = variants.len();
    let mut i: usize = 0;
    assert(variants@.skip(0) =~= variants@);
    while i < n
        invariant
            n == variants@.len(),
            i <= n,
            variant_named(variants@, name@) == variant_named(variants@.skip(i as int), name@),
        decreases n - i,
    {
        assert(variants@.skip(i as int)[0] == variants@[i as int]);
        assert(variants@.skip(i as int).drop_first() =~= variants@.skip(i + 1));
        if text_eq(variants[i].ident.as_str(), name) {
            return Some(i);
        }
        i = i + 1;
    }
    assert(variants@.skip(n as int).len() == 0);
    None
}

/// A path made of one identifier.
pub fn single_path(name: &str) -> (p: Path)
    ensures
        path_is_ident(p, name@),
{
    let mut segments: Vec<PathSegment> = Vec::new();
    segments.push(PathSegment { ident: String::from_str(name), arguments: PathArguments::Empty });
    Path { leading_colon: false, segments }
}

/// The attribute a doc comment line becomes: `#[doc = "text"]`.
pub fn doc_attribute(text: &str) -> (a: Attribute)
    ensures
        doc_string_of(a) == Some(text@),
        !(a.meta is List),
{
    let path = single_path("doc");
    Attribute {
        meta: Meta::NameValue(
            MetaNameValue { path, value: Expr::Lit(Lit::Str(String::from_str(text))) },
        ),
    }
}

/// The attribute `#[attr(indicator = 'c')]`.
pub fn indicator_attribute(c: char) -> (a: Attribute)
    ensures
        doc_string_of(a) is None,
        a.meta is List,
        path_is_ident(a.meta->List_path, "attr"@),
        a.meta->List_tokens == Some(
            MetaNameValue { path: a.meta->List_tokens->Some_0.path, value: Expr::Lit(Lit::Char(c)) },
        ),
        path_is_ident(a.meta->List_tokens->Some_0.path, "indicator"@),
{
    let path = single_path("attr");
    let tokens = Some(MetaNameValue { path: single_path("indicator"), value: Expr::Lit(Lit::Char(c)) });
    Attribute { meta: Meta::List { path, tokens } }
}

} // verus!
