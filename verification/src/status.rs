//! A mob's status, its indicators and the legend that explains them.
//!
//! The wording of each status and its indicator are declared on the
//! variants of the status enum, as doc comments and as an
//! `#[attr(indicator = 'c')]` attribute; the site reads them back from that
//! declaration.

use vstd::prelude::*;

use std::collections::BTreeMap;
use vstd::std_specs::iter::IteratorSpec;

use crate::markdown::Markdown;
use crate::mob::Id;
use crate::schema::{
    attrs_indicator, doc_attribute, doc_string_of, find_variant, first_attr_tokens, first_doc,
    first_doc_string, indicator_attribute, indicator_of_attrs, indicator_readable, variant_named,
    Attribute, Variant,
};

verus! {

/// A mob's status.
pub enum Status {
    /// Not active yet: it needs more members. The Markdown explains how to
    /// apply.
    Short(Markdown),
    /// Taking applications. The Markdown explains how to apply.
    Open(Markdown),
    /// Not currently taking applications; the Markdown is optional.
    Full(Option<Markdown>),
    /// Sessions open for anyone to join. The Markdown explains how to join.
    Public(Markdown),
    /// Renamed: the mob's page redirects to the page of the new identifier.
    Renamed(Id),
    /// No longer meeting. The Markdown says why.
    Terminated(Markdown),
}

/// The names of the status variants, in declaration order.
pub open spec fn is_status_variant_name(name: Seq<char>) -> bool {
    name == "Short"@ || name == "Open"@ || name == "Full"@ || name == "Public"@ || name
        == "Renamed"@ || name == "Terminated"@
}

/// The name of a status's variant.
pub open spec fn variant_name_of(status: Status) -> Seq<char> {
    match status {
        Status::Short(_) => "Short"@,
        Status::Open(_) => "Open"@,
        Status::Full(_) => "Full"@,
        Status::Public(_) => "Public"@,
        Status::Renamed(_) => "Renamed"@,
        Status::Terminated(_) => "Terminated"@,
    }
}

/// The indicator shown next to a mob with a given status.
pub open spec fn indicator_of_status(status: Status) -> Option<char> {
    match status {
        Status::Short(_) => Some('\u{1F331}'),
        Status::Open(_) => Some('\u{1F450}'),
        Status::Full(_) => None,
        Status::Public(_) => Some('\u{26F2}'),
        Status::Renamed(_) => None,
        Status::Terminated(_) => None,
    }
}

/// The first line of the documentation of each status variant.
pub open spec fn status_description_text(name: Seq<char>) -> Seq<char> {
    if name == "Short"@ {
        " This mob is not active yet because it needs more members."@
    } else if name == "Open"@ {
        " This mob is taking applications for new participants."@
    } else if name == "Full"@ {
        " This mob is not currently taking applications."@
    } else if name == "Public"@ {
        " This mob's sessions are open for anyone to join."@
    } else if name == "Renamed"@ {
        " This mob was renamed."@
    } else {
        " This mob no longer meets."@
    }
}

/// The indicator declared on each status variant.
pub open spec fn status_indicator_char(name: Seq<char>) -> Option<char> {
    if name == "Short"@ {
        Some('\u{1F331}')
    } else if name == "Open"@ {
        Some('\u{1F450}')
    } else if name == "Public"@ {
        Some('\u{26F2}')
    } else {
        None
    }
}

proof fn lemma_status_names_distinct()
    ensures
        "Short"@ != "Open"@,
        "Short"@ != "Full"@,
        "Short"@ != "Public"@,
        "Open"@ != "Full"@,
        "Open"@ != "Public"@,
        "Full"@ != "Public"@,
        "Renamed"@ != "Short"@,
        "Renamed"@ != "Open"@,
        "Renamed"@ != "Full"@,
        "Renamed"@ != "Public"@,
        "Terminated"@ != "Short"@,
        "Terminated"@ != "Open"@,
        "Terminated"@ != "Full"@,
        "Terminated"@ != "Public"@,
        "Terminated"@ != "Renamed"@,
{
    reveal_strlit("Short");
    reveal_strlit("Open");
    reveal_strlit("Full");
    reveal_strlit("Public");
    assert("Short"@.len() != "Open"@.len());
    assert("Short"@.len() != "Full"@.len());
    assert("Short"@.len() != "Public"@.len());
    assert("Open"@[0] != "Full"@[0]);
    assert("Open"@.len() != "Public"@.len());
    assert("Full"@.len() != "Public"@.len());
    reveal_strlit("Renamed");
    reveal_strlit("Terminated");
    assert("Renamed"@.len() == 7);
    assert("Terminated"@.len() == 10);
}

/// The symbol shown next to a mob with a given status.
#[derive(Clone, Copy, PartialEq, Eq, Structural, PartialOrd, Ord, Debug)]
pub struct StatusIndicator(char);

impl StatusIndicator {
    /// The indicator's character.
    pub closed spec fn spec_char(&self) -> char {
        self.0
    }

    /// The indicator's character.
    pub fn as_char(&self) -> (c: char)
        ensures
            c == self.spec_char(),
    {
        self.0
    }
}

/// The description of a status.
pub struct Description(String);

impl Description {
    /// The description's text.
    pub closed spec fn spec_text(&self) -> Seq<char> {
        self.0@
    }

    /// The description's text.
    pub fn as_str(&self) -> (s: &str)
        ensures
            s@ == self.spec_text(),
    {
        self.0.as_str()
    }
}

proof fn lemma_first_doc_head(attrs: Seq<Attribute>)
    requires
        attrs.len() > 0,
        doc_string_of(attrs[0]) is Some,
    ensures
        first_doc(attrs) == doc_string_of(attrs[0]),
{
}

proof fn lemma_first_attr_tokens_skip(attrs: Seq<Attribute>, k: int)
    requires
        0 <= k <= attrs.len(),
        forall|j: int| 0 <= j < k ==> !(#[trigger] attrs[j].meta is List),
    ensures
        first_attr_tokens(attrs) == first_attr_tokens(attrs.skip(k)),
    decreases k,
{
    if k > 0 {
        assert(attrs.drop_first().skip(k - 1) =~= attrs.skip(k));
        assert forall|j: int| 0 <= j < k - 1 implies !(#[trigger] attrs.drop_first()[j].meta is List) by {
            assert(attrs.drop_first()[j] == attrs[j + 1]);
        }
        lemma_first_attr_tokens_skip(attrs.drop_first(), k - 1);
    } else {
        assert(attrs.skip(0) =~= attrs);
    }
}

/// A variant declared with doc comment lines and, when given, an indicator
/// attribute after them.
fn declared_variant(ident: &str, first: &str, rest: Vec<&str>, indicator: Option<char>) -> (v: Variant)
    ensures
        v.ident@ == ident@,
        first_doc(v.attrs@) == Some(first@),
        indicator_readable(v.attrs@),
        indicator_of_attrs(v.attrs@) == indicator,
{
    let mut attrs: Vec<Attribute> = Vec::new();
    attrs.push(doc_attribute(first));
    assert(first_doc(attrs@) == Some(first@));
    let n = rest.len();
    let mut i: usize = 0;
    while i < n
        invariant
            n == rest@.len(),
            i <= n,
            attrs@.len() == i + 1,
            doc_string_of(attrs@[0]) == Some(first@),
            forall|j: int| 0 <= j <= i ==> !(#[trigger] attrs@[j].meta is List),
        decreases n - i,
    {
        let a = doc_attribute(rest[i]);
        let ghost before = attrs@;
        attrs.push(a);
        assert(attrs@[0] == before[0]);
        i = i + 1;
    }
    let n = attrs.len();
    let ghost docs_only = attrs@;
    match indicator {
        Some(c) => {
            attrs.push(indicator_attribute(c));
        },
        None => {},
    }
    proof {
        assert(attrs@.take(n as int) =~= docs_only);
        assert forall|j: int| 0 <= j < n implies !(#[trigger] attrs@[j].meta is List) by {
            assert(attrs@[j] == docs_only[j]);
        }
        lemma_first_attr_tokens_skip(attrs@, n as int);
        let rest = attrs@.skip(n as int);
        if indicator is Some {
            assert(rest.len() == 1);
            assert(rest.drop_first().len() == 0);
        } else {
            assert(rest.len() == 0);
        }
        assert(attrs@[0] == docs_only[0]);
        lemma_first_doc_head(attrs@);
    }
    Variant { ident: String::from_str(ident), attrs }
}

/// The variants of the status enum as declared, with their doc comments and
/// indicator attributes.
pub fn status_schema() -> (variants: Vec<Variant>)
    ensures
        variants@.len() == 6,
        variants@[0].ident@ == "Short"@,
        variants@[1].ident@ == "Open"@,
        variants@[2].ident@ == "Full"@,
        variants@[3].ident@ == "Public"@,
        variants@[4].ident@ == "Renamed"@,
        variants@[5].ident@ == "Terminated"@,
        forall|i: int|
            0 <= i < 6 ==> {
                let v = #[trigger] variants@[i];
                &&& first_doc(v.attrs@) == Some(status_description_text(v.ident@))
                &&& indicator_readable(v.attrs@)
                &&& indicator_of_attrs(v.attrs@) == status_indicator_char(v.ident@)
            },
{
    proof {
        lemma_status_names_distinct();
    }
    let mut variants: Vec<Variant> = Vec::new();
    variants.push(
        declared_variant(
            "Short",
            " This mob is not active yet because it needs more members.",
            vec![
                "",
                " The value explains how to apply.",
                "",
                " Example:",
                "",
                " ```yaml",
                " !Short |",
                "   To apply contact [Kelly](https://example.com/kelly).",
                " ```",
            ],
            Some('\u{1F331}'),
        ),
    );
    variants.push(
        declared_variant(
            "Open",
            " This mob is taking applications for new participants.",
            vec![
                "",
                " The value explains how to apply.",
                "",
                " Example:",
                "",
                " ```yaml",
                " !Open |",
                "   To apply contact [Dawn](https://example.com/dawn).",
                " ```",
            ],
            Some('\u{1F450}'),
        ),
    );
    variants.push(
        declared_variant(
            "Full",
            " This mob is not currently taking applications.",
            vec![
                "",
                " The value is optional.",
                "     ",
                " Example:",
                "",
                " ```yaml",
                " !Full |",
                "   We are currently full.",
                " ```",
            ],
            None,
        ),
    );
    variants.push(
        declared_variant(
            "Public",
            " This mob's sessions are open for anyone to join.",
            vec![
                "",
                " The value explains how to join.",
                "",
                " Example:",
                "",
                " ```yaml",
                " !Public |",
                "   [Room link](https://meet.jit.si/MedievalWebsPortrayLoud)",
                " ```",
            ],
            Some('\u{26F2}'),
        ),
    );
    variants.push(
        declared_variant(
            "Renamed",
            " This mob was renamed.",
            vec!["", " The value is the mob's new identifier."],
            None,
        ),
    );
    variants.push(
        declared_variant(
            "Terminated",
            " This mob no longer meets.",
            vec!["", " The value says why."],
            None,
        ),
    );
    variants
}

proof fn lemma_status_variant_named(variants: Seq<Variant>, name: Seq<char>)
    requires
        variants.len() == 6,
        variants[0].ident@ == "Short"@,
        variants[1].ident@ == "Open"@,
        variants[2].ident@ == "Full"@,
        variants[3].ident@ == "Public"@,
        variants[4].ident@ == "Renamed"@,
        variants[5].ident@ == "Terminated"@,
        is_status_variant_name(name),
    ensures
        variant_named(variants, name) matches Some(v) && v.ident@ == name && exists|i: int|
            0 <= i < 6 && variants[i] == v,
{
    lemma_status_names_distinct();
    let v1 = variants.drop_first();
    let v2 = v1.drop_first();
    let v3 = v2.drop_first();
    let v4 = v3.drop_first();
    let v5 = v4.drop_first();
    assert(v1[0] == variants[1]);
    assert(v2[0] == variants[2]);
    assert(v3[0] == variants[3]);
    assert(v4[0] == variants[4]);
    assert(v5[0] == variants[5]);
    if name == "Short"@ {
        assert(variants[0] == variants[0]);
    } else if name == "Open"@ {
        assert(variant_named(v1, name) == Some(variants[1]));
    } else if name == "Full"@ {
        assert(variant_named(v2, name) == Some(variants[2]));
    } else if name == "Public"@ {
        assert(variant_named(v3, name) == Some(variants[3]));
    } else if name == "Renamed"@ {
        assert(variant_named(v4, name) == Some(variants[4]));
    } else {
        assert(variant_named(v5, name) == Some(variants[5]));
    }
}

impl Status {
    /// The name of the status's variant (`Short`, `Open`, `Full` or
    /// `Public`).
    pub fn variant_name(&self) -> (name: &'static str)
        ensures
            name@ == variant_name_of(*self),
    {
        match self {
            Status::Short(_) => "Short",
            Status::Open(_) => "Open",
            Status::Full(_) => "Full",
            Status::Public(_) => "Public",
            Status::Renamed(_) => "Renamed",
            Status::Terminated(_) => "Terminated",
        }
    }

    /// The names of the variants, in declaration order.
    pub fn variants() -> (names: Vec<&'static str>)
        ensures
            names@.len() == 6,
            names@[0]@ == "Short"@,
            names@[1]@ == "Open"@,
            names@[2]@ == "Full"@,
            names@[3]@ == "Public"@,
            names@[4]@ == "Renamed"@,
            names@[5]@ == "Terminated"@,
    {
        vec!["Short", "Open", "Full", "Public", "Renamed", "Terminated"]
    }

    /// The description of the variant with the given name: the first line of
    /// its documentation.
    pub fn description(variant_ident: &str) -> (d: Description)
        requires
            is_status_variant_name(variant_ident@),
        ensures
            d.spec_text() == status_description_text(variant_ident@),
    {
        let variants = status_schema();
        proof {
            lemma_status_variant_named(variants@, variant_ident@);
        }
        let i = match find_variant(&variants, variant_ident) {
            Some(i) => i,
            None => {
                assert(false);
                return Description(String::new());
            },
        };
        assert(variants@[i as int] == variants@[i as int]);
        match first_doc_string(&variants[i].attrs) {
            Some(text) => Description(text),
            None => {
                assert(false);
                Description(String::new())
            },
        }
    }

    /// The indicator of the variant with the given name, as its
    /// `#[attr(indicator = 'c')]` declares it.
    pub fn indicator_for_ident(variant_ident: &str) -> (indicator: Option<StatusIndicator>)
        requires
            is_status_variant_name(variant_ident@),
        ensures
            indicator matches Some(i) ==> status_indicator_char(variant_ident@) == Some(i.spec_char()),
            indicator is None ==> status_indicator_char(variant_ident@) is None,
    {
        let variants = status_schema();
        proof {
            lemma_status_variant_named(variants@, variant_ident@);
        }
        let i = match find_variant(&variants, variant_ident) {
            Some(i) => i,
            None => {
                assert(false);
                return None;
            },
        };
        assert(variants@[i as int] == variants@[i as int]);
        match attrs_indicator(&variants[i].attrs) {
            Some(c) => Some(StatusIndicator(c)),
            None => None,
        }
    }

    /// The indicator shown next to a mob with this status, if any.
    pub fn indicator(&self) -> (indicator: Option<StatusIndicator>)
        ensures
            indicator is None <==> indicator_of_status(*self) is None,
            indicator matches Some(i) ==> indicator_of_status(*self) == Some(i.spec_char()),
    {
        match self {
            Status::Short(_) => Some(StatusIndicator('\u{1F331}')),
            Status::Open(_) => Some(StatusIndicator('\u{1F450}')),
            Status::Full(_) => None,
            Status::Public(_) => Some(StatusIndicator('\u{26F2}')),
            Status::Renamed(_) => None,
            Status::Terminated(_) => None,
        }
    }
}

/// A status shows the indicator that its variant's declaration gives it.
pub proof fn lemma_indicator_matches_declaration(status: Status)
    ensures
        is_status_variant_name(variant_name_of(status)),
        status_indicator_char(variant_name_of(status)) == indicator_of_status(status),
{
    lemma_status_names_distinct();
}


/// The pairs of a legend as plain values: indicator characters and
/// description texts.
pub open spec fn strictly_increasing(entries: Seq<(char, Seq<char>)>) -> bool {
    forall|i: int, j: int| 0 <= i < j < entries.len() ==> (entries[i].0 as u32) < (entries[j].0 as u32)
}

/// Whether a sequence of pairs lists exactly the entries of a map.
pub open spec fn represents(entries: Seq<(char, Seq<char>)>, m: Map<char, Seq<char>>) -> bool {
    &&& forall|i: int|
        0 <= i < entries.len() ==> m.contains_key(#[trigger] entries[i].0) && m[entries[i].0]
            == entries[i].1
    &&& forall|k: char| #[trigger]
        m.contains_key(k) ==> exists|i: int| 0 <= i < entries.len() && entries[i].0 == k
}

/// The map that collecting pairs in order gives: a later pair replaces an
/// earlier one with the same indicator.
pub open spec fn entries_map(entries: Seq<(char, Seq<char>)>) -> Map<char, Seq<char>>
    decreases entries.len(),
{
    if entries.len() == 0 {
        Map::empty()
    } else {
        entries_map(entries.drop_last()).insert(entries.last().0, entries.last().1)
    }
}

/// A legend is determined by its entries: two sequences ordered by
/// indicator that list the entries of the same map are the same sequence.
pub proof fn lemma_legend_canonical(
    a: Seq<(char, Seq<char>)>,
    b: Seq<(char, Seq<char>)>,
    m: Map<char, Seq<char>>,
)
    requires
        strictly_increasing(a),
        strictly_increasing(b),
        represents(a, m),
        represents(b, m),
    ensures
        a == b,
    decreases a.len(),
{
    if a.len() == 0 {
        if b.len() > 0 {
            assert(m.contains_key(b[0].0));
        }
        assert(a =~= b);
    } else {
        assert(m.contains_key(a[0].0));
        let j = choose|j: int| 0 <= j < b.len() && b[j].0 == a[0].0;
        let k = a[0].0;
        assert(m.contains_key(b[0].0));
        let i = choose|i: int| 0 <= i < a.len() && a[i].0 == b[0].0;
        if j > 0 {
            assert((b[0].0 as u32) < (b[j].0 as u32));
            if i > 0 {
                assert((a[0].0 as u32) < (a[i].0 as u32));
            }
            assert(false);
        }
        assert(b[0].0 == k);
        assert(a[0].1 == m[k]);
        assert(b[0].1 == m[k]);
        let m2 = m.remove(k);
        let a2 = a.drop_first();
        let b2 = b.drop_first();
        assert forall|x: int| 0 <= x < a2.len() implies m2.contains_key(#[trigger] a2[x].0)
            && m2[a2[x].0] == a2[x].1 by {
            assert(a2[x] == a[x + 1]);
            assert((a[0].0 as u32) < (a[x + 1].0 as u32));
        }
        assert forall|kk: char| #[trigger] m2.contains_key(kk) implies exists|x: int|
            0 <= x < a2.len() && a2[x].0 == kk by {
            let x = choose|x: int| 0 <= x < a.len() && a[x].0 == kk;
            assert(x != 0);
            assert(a2[x - 1].0 == kk);
        }
        assert forall|x: int| 0 <= x < b2.len() implies m2.contains_key(#[trigger] b2[x].0)
            && m2[b2[x].0] == b2[x].1 by {
            assert(b2[x] == b[x + 1]);
            assert((b[0].0 as u32) < (b[x + 1].0 as u32));
        }
        assert forall|kk: char| #[trigger] m2.contains_key(kk) implies exists|x: int|
            0 <= x < b2.len() && b2[x].0 == kk by {
            let x = choose|x: int| 0 <= x < b.len() && b[x].0 == kk;
            assert(x != 0);
            assert(b2[x - 1].0 == kk);
        }
        assert forall|x: int, y: int| 0 <= x < y < a2.len() implies (a2[x].0 as u32) < (
        a2[y].0 as u32) by {
            assert(a2[x] == a[x + 1]);
            assert(a2[y] == a[y + 1]);
        }
        assert forall|x: int, y: int| 0 <= x < y < b2.len() implies (b2[x].0 as u32) < (
        b2[y].0 as u32) by {
            assert(b2[x] == b[x + 1]);
            assert(b2[y] == b[y + 1]);
        }
        lemma_legend_canonical(a2, b2, m2);
        assert(a =~= b) by {
            assert(a.len() == a2.len() + 1);
            assert(b.len() == b2.len() + 1);
            assert forall|x: int| 0 <= x < a.len() implies a[x] == b[x] by {
                if x > 0 {
                    assert(a[x] == a2[x - 1]);
                    assert(b[x] == b2[x - 1]);
                }
            }
        }
    }
}

/// Indicator and description pairs as plain values.
pub open spec fn pairs_view(pairs: Seq<(StatusIndicator, Description)>) -> Seq<(char, Seq<char>)> {
    pairs.map_values(|p: (StatusIndicator, Description)| (p.0.spec_char(), p.1.spec_text()))
}

/// The sequence of the entries of a map, ordered by indicator.
pub open spec fn sorted_entries(m: Map<char, Seq<char>>) -> Seq<(char, Seq<char>)> {
    choose|s: Seq<(char, Seq<char>)>| strictly_increasing(s) && represents(s, m)
}

impl StatusIndicator {
    /// The code point of the indicator's character, by which a legend
    /// orders its entries.
    pub fn code_point(&self) -> (code: u32)
        ensures
            code == self.spec_char() as u32,
    {
        self.0 as u32
    }
}

/// The legend of the status indicators: each indicator with the description
/// of its status, ordered by indicator. Entries are keyed by the code point
/// of their indicator, which orders them as the characters are ordered.
pub struct Legend {
    entries: BTreeMap<u32, (StatusIndicator, Description)>,
}

impl Legend {
    /// Every entry is keyed by the code point of its indicator.
    #[verifier::type_invariant]
    closed spec fn keyed_by_indicator(self) -> bool {
        forall|k: u32| #[trigger]
            self.entries@.contains_key(k) ==> self.entries@[k].0.spec_char() as u32 == k
    }
}

impl View for Legend {
    type V = Map<char, Seq<char>>;

    /// Each indicator with its description.
    closed spec fn view(&self) -> Map<char, Seq<char>> {
        Map::new(
            |c: char| self.entries@.contains_key(c as u32),
            |c: char| self.entries@[c as u32].1.spec_text(),
        )
    }
}

impl Legend {
    /// A legend without entries.
    fn new() -> (legend: Legend)
        ensures
            legend@ == Map::<char, Seq<char>>::empty(),
    {
        let legend = Legend { entries: BTreeMap::new() };
        assert(legend@ =~= Map::<char, Seq<char>>::empty());
        legend
    }

    /// The pairs of the legend, ordered by indicator.
    pub fn entries(&self) -> (entries: Vec<(StatusIndicator, Description)>)
        ensures
            pairs_view(entries@) == sorted_entries(self@),
    {
        proof {
            use_type_invariant(self);
            crate::key_order::lemma_u32_keys_ordered();
        }
        let ghost m = self@;
        let mut entries: Vec<(StatusIndicator, Description)> = Vec::new();
        let it0 = self.entries.iter();
        let ghost s0 = it0.remaining();
        proof {
            crate::key_order::lemma_increasing_keys(s0);
        }
        for kv in it: it0
            invariant
                it.seq() == s0,
                entries@.len() == it.index(),
                forall|i: int|
                    0 <= i < it.index() ==> #[trigger] pairs_view(entries@)[i] == (
                        s0[i].1.0.spec_char(),
                        s0[i].1.1.spec_text(),
                    ),
        {
            let (indicator, description) = kv.1;
            let ghost before = entries@;
            entries.push((*indicator, Description(description.0.clone())));
            proof {
                assert forall|i: int| 0 <= i < entries@.len() implies #[trigger] pairs_view(
                    entries@,
                )[i] == (s0[i].1.0.spec_char(), s0[i].1.1.spec_text()) by {
                    if i < before.len() {
                        assert(entries@[i] == before[i]);
                        assert(pairs_view(before)[i] == pairs_view(entries@)[i]);
                    }
                }
            }
        }
        proof {
            let v = pairs_view(entries@);
            assert(v.len() == s0.len());
            assert forall|i: int, j: int| 0 <= i < j < v.len() implies (v[i].0 as u32) < (
            v[j].0 as u32) by {
                assert(self.entries@.contains_key(*s0[i].0));
                assert(self.entries@.contains_key(*s0[j].0));
            }
            assert forall|i: int| 0 <= i < v.len() implies m.contains_key(#[trigger] v[i].0)
                && m[v[i].0] == v[i].1 by {
                assert(self.entries@.contains_key(*s0[i].0));
                assert(self.entries@[*s0[i].0] == *s0[i].1);
            }
            assert forall|c: char| #[trigger] m.contains_key(c) implies exists|i: int|
                0 <= i < v.len() && v[i].0 == c by {
                let k = c as u32;
                assert(self.entries@.contains_key(k));
                assert(s0.contains((&k, &self.entries@[k])));
                let i = choose|i: int| 0 <= i < s0.len() && s0[i] == (&k, &self.entries@[k]);
                let found = self.entries@[k].0.spec_char();
                vstd::utf8::char_u32_cast(c, k);
                vstd::utf8::char_u32_cast(found, k);
                assert(v[i].0 == c);
            }
            assert(strictly_increasing(v) && represents(v, m));
            let w = sorted_entries(m);
            lemma_legend_canonical(v, w, m);
        }
        entries
    }

    /// Adds a pair, replacing the pair with the same indicator if there is
    /// one.
    fn insert(&mut self, indicator: StatusIndicator, description: Description)
        ensures
            final(self)@ == old(self)@.insert(indicator.spec_char(), description.spec_text()),
    {
        proof {
            use_type_invariant(&*self);
            crate::key_order::lemma_u32_keys_ordered();
        }
        let key = indicator.code_point();
        let ghost d = description.spec_text();
        let mut entries: BTreeMap<u32, (StatusIndicator, Description)> = BTreeMap::new();
        std::mem::swap(&mut entries, &mut self.entries);
        entries.insert(key, (indicator, description));
        self.entries = entries;
        proof {
            let c0 = indicator.spec_char();
            assert forall|c: char| #[trigger] self@.contains_key(c) == old(self)@.insert(c0, d).contains_key(c) by {
                vstd::utf8::char_u32_cast(c, c as u32);
                vstd::utf8::char_u32_cast(c0, key);
            }
            assert forall|c: char| #[trigger] self@.contains_key(c) implies self@[c] == old(self)@.insert(c0, d)[c] by {
                vstd::utf8::char_u32_cast(c, c as u32);
                vstd::utf8::char_u32_cast(c0, key);
            }
            assert(self@ =~= old(self)@.insert(c0, d));
        }
    }

    /// The legend of some pairs, collected in order: ordered by indicator,
    /// a later pair replacing an earlier one with the same indicator.
    pub fn from_entries(entries: Vec<(StatusIndicator, Description)>) -> (legend: Legend)
        ensures
            legend@ == entries_map(pairs_view(entries@)),
    {
        let mut legend = Legend::new();
        let ghost ev = pairs_view(entries@);
        let n = entries.len();
        let mut i: usize = 0;
        proof {
            assert(ev.take(0) =~= Seq::<(char, Seq<char>)>::empty());
        }
        while i < n
            invariant
                n == entries@.len(),
                ev == pairs_view(entries@),
                i <= n,
                legend@ == entries_map(ev.take(i as int)),
            decreases n - i,
        {
            let (indicator, description) = &entries[i];
            let description = Description(description.0.clone());
            proof {
                assert(ev.take(i + 1).drop_last() =~= ev.take(i as int));
                assert(ev.take(i + 1).last() == ev[i as int]);
            }
            legend.insert(*indicator, description);
            i = i + 1;
        }
        assert(ev.take(n as int) =~= ev);
        legend
    }
}

/// The entries of the status legend: each status with an indicator, keyed
/// by its indicator.
pub open spec fn status_legend_map() -> Map<char, Seq<char>> {
    map![
        '\u{1F331}' => status_description_text("Short"@),
        '\u{1F450}' => status_description_text("Open"@),
        '\u{26F2}' => status_description_text("Public"@),
    ]
}

impl Status {
    /// The legend of the status indicators: the statuses that have an
    /// indicator, in declaration order, collected by indicator.
    pub fn legend() -> (legend: Legend)
        ensures
            legend@ == status_legend_map(),
    {
        proof {
            lemma_status_names_distinct();
        }
        let mut entries: Vec<(StatusIndicator, Description)> = Vec::new();
        let names = Status::variants();
        let mut i: usize = 0;
        while i < 6
            invariant
                names@.len() == 6,
                names@[0]@ == "Short"@,
                names@[1]@ == "Open"@,
                names@[2]@ == "Full"@,
                names@[3]@ == "Public"@,
                names@[4]@ == "Renamed"@,
                names@[5]@ == "Terminated"@,
                i <= 6,
                entries_map(pairs_view(entries@)) == optional_entries_map(
                    status_pairs().take(i as int),
                ),
            decreases 6 - i,
        {
            let name = names[i];
            let ghost before = pairs_view(entries@);
            proof {
                assert(name@ == seq!["Short"@, "Open"@, "Full"@, "Public"@, "Renamed"@, "Terminated"@][i as int]);
                lemma_status_pair_at(i as int, name@);
                lemma_status_pairs_step(i as int);
            }
            match Status::indicator_for_ident(name) {
                Some(indicator) => {
                    let description = Status::description(name);
                    entries.push((indicator, description));
                    proof {
                        assert(pairs_view(entries@).drop_last() =~= before);
                        assert(pairs_view(entries@).last() == (
                            indicator.spec_char(),
                            description.spec_text(),
                        ));
                    }
                },
                None => {},
            }
            i = i + 1;
        }
        proof {
            lemma_status_pairs_map();
            assert(status_pairs().take(6) =~= status_pairs());
        }
        Legend::from_entries(entries)
    }
}

/// The statuses' pairs in declaration order, `None` for a status without an
/// indicator.
spec fn status_pairs() -> Seq<Option<(char, Seq<char>)>> {
    seq![
        Some(('\u{1F331}', status_description_text("Short"@))),
        Some(('\u{1F450}', status_description_text("Open"@))),
        None,
        Some(('\u{26F2}', status_description_text("Public"@))),
        None,
        None,
    ]
}

/// The map of optional pairs collected in order.
spec fn optional_entries_map(pairs: Seq<Option<(char, Seq<char>)>>) -> Map<char, Seq<char>>
    decreases pairs.len(),
{
    if pairs.len() == 0 {
        Map::empty()
    } else {
        match pairs.last() {
            Some(p) => optional_entries_map(pairs.drop_last()).insert(p.0, p.1),
            None => optional_entries_map(pairs.drop_last()),
        }
    }
}

proof fn lemma_status_pairs_step(i: int)
    requires
        0 <= i < 6,
    ensures
        optional_entries_map(status_pairs().take(i + 1)) == match status_pairs()[i] {
            Some(p) => optional_entries_map(status_pairs().take(i)).insert(p.0, p.1),
            None => optional_entries_map(status_pairs().take(i)),
        },
{
    assert(status_pairs().take(i + 1).drop_last() =~= status_pairs().take(i));
}

proof fn lemma_status_pairs_map()
    ensures
        optional_entries_map(status_pairs()) =~= status_legend_map(),
{
    let s = status_pairs();
    assert(s.take(0) =~= Seq::<Option<(char, Seq<char>)>>::empty());
    assert(s.take(1).drop_last() =~= s.take(0));
    assert(s.take(2).drop_last() =~= s.take(1));
    assert(s.take(3).drop_last() =~= s.take(2));
    assert(s.take(4).drop_last() =~= s.take(3));
    assert(s.take(5).drop_last() =~= s.take(4));
    assert(s.drop_last() =~= s.take(5));
    let m0 = optional_entries_map(s.take(0));
    assert(m0 == Map::<char, Seq<char>>::empty());
    let m1 = optional_entries_map(s.take(1));
    assert(m1 == m0.insert('\u{1F331}', status_description_text("Short"@)));
    let m2 = optional_entries_map(s.take(2));
    assert(m2 == m1.insert('\u{1F450}', status_description_text("Open"@)));
    let m3 = optional_entries_map(s.take(3));
    assert(m3 == m2);
    let m4 = optional_entries_map(s.take(4));
    assert(m4 == m3.insert('\u{26F2}', status_description_text("Public"@)));
    let m5 = optional_entries_map(s.take(5));
    assert(m5 == m4);
    assert(optional_entries_map(s) == m5);
}

proof fn lemma_status_pair_at(i: int, name: Seq<char>)
    requires
        0 <= i < 6,
        name == seq!["Short"@, "Open"@, "Full"@, "Public"@, "Renamed"@, "Terminated"@][i],
    ensures
        is_status_variant_name(name),
        status_pairs()[i] == match status_indicator_char(name) {
            Some(c) => Some((c, status_description_text(name))),
            None => None,
        },
{
    lemma_status_names_distinct();
}

} // verus!
