//! Document symbols: the outline of a document, as a tree.

use vstd::prelude::*;
use vstd::seq_lib::lemma_concat_associative;
use crate::basic::Range;
use crate::json::{
    find_key, find_member, group_lookup, lemma_find_key, lookup, member, members, new_object,
    opt_field, opt_member, push_member, push_opt, read_opt, read_req, req_field, DecodeError, JVal,
    Json, JsonCodec,
};
use crate::kinds::{SymbolKind, SymbolTag};

verus! {

broadcast use vstd::std_specs::vec::axiom_vec_index_decreases;

/// A programming construct that appears in a document, like a variable, a
/// class or an interface. Symbols can be nested and carry two ranges: the one
/// enclosing the definition, and the one to select when the symbol is picked.
#[derive(Debug, PartialEq, Eq)]
pub struct DocumentSymbol {
    /// The name of this symbol.
    pub name: String,
    /// More detail for this symbol, such as the signature of a function.
    pub detail: Option<String>,
    /// The kind of this symbol.
    pub kind: SymbolKind,
    /// Tags for this symbol.
    pub tags: Option<Vec<SymbolTag>>,
    /// Whether this symbol is deprecated. Superseded by `tags`.
    pub deprecated: Option<bool>,
    /// The range enclosing this symbol, comments included.
    pub range: Range,
    /// The range to select and reveal when this symbol is picked; inside `range`.
    pub selection_range: Range,
    /// Children of this symbol, such as the properties of a class.
    pub children: Option<Vec<DocumentSymbol>>,
}

/// The mathematical value of a [`DocumentSymbol`].
pub struct DocumentSymbolModel {
    pub name: Seq<char>,
    pub detail: Option<Seq<char>>,
    pub kind: SymbolKind,
    pub tags: Option<Seq<SymbolTag>>,
    pub deprecated: Option<bool>,
    pub range: Range,
    pub selection_range: Range,
    pub children: Option<Seq<DocumentSymbolModel>>,
}

/// The members of a symbol other than its children.
pub open spec fn head_json(m: DocumentSymbolModel) -> Seq<(Seq<char>, JVal)> {
    member("name"@, String::encode(m.name))
        + opt_member::<String>("detail"@, m.detail)
        + member("kind"@, SymbolKind::encode(m.kind))
        + opt_member::<Vec<SymbolTag>>("tags"@, m.tags)
        + opt_member::<bool>("deprecated"@, m.deprecated)
        + member("range"@, Range::encode(m.range))
        + member("selectionRange"@, Range::encode(m.selection_range))
}

/// The JSON documents of a symbol's children.
pub open spec fn children_items(m: DocumentSymbolModel) -> Seq<JVal>
    decreases m, 0nat,
{
    match m.children {
        Some(cs) => Seq::new(
            cs.len(),
            |i: int|
                if 0 <= i < cs.len() {
                    symbol_json(cs[i])
                } else {
                    JVal::Null
                },
        ),
        None => Seq::empty(),
    }
}

/// The JSON document of a symbol, its children written recursively.
pub open spec fn symbol_json(m: DocumentSymbolModel) -> JVal
    decreases m, 1nat,
{
    JVal::Obj(
        head_json(m) + match m.children {
            Some(cs) => member("children"@, JVal::Arr(children_items(m))),
            None => Seq::empty(),
        },
    )
}

/// Decoding a symbol: the members of a record, with `children` an array of
/// symbols when present.
pub open spec fn symbol_from(j: JVal) -> Result<DocumentSymbolModel, DecodeError>
    decreases j, 0nat,
    via symbol_from_decreases
{
    match j {
        JVal::Obj(ms) => match req_field::<String>(ms, "name"@) {
            Err(e) => Err(e),
            Ok(name) => match opt_field::<String>(ms, "detail"@) {
                Err(e) => Err(e),
                Ok(detail) => match req_field::<SymbolKind>(ms, "kind"@) {
                    Err(e) => Err(e),
                    Ok(kind) => match opt_field::<Vec<SymbolTag>>(ms, "tags"@) {
                        Err(e) => Err(e),
                        Ok(tags) => match opt_field::<bool>(ms, "deprecated"@) {
                            Err(e) => Err(e),
                            Ok(deprecated) => match req_field::<Range>(ms, "range"@) {
                                Err(e) => Err(e),
                                Ok(range) => match req_field::<Range>(ms, "selectionRange"@) {
                                    Err(e) => Err(e),
                                    Ok(selection_range) => {
                                        let ci = find_key(ms, "children"@, 0);
                                        let children = if ci < ms.len() {
                                            match ms[ci].1 {
                                                JVal::Arr(items) => match symbols_from(items, 0) {
                                                    Ok(cs) => Ok(Some(cs)),
                                                    Err(e) => Err(e),
                                                },
                                                _ => Err(DecodeError::WrongShape),
                                            }
                                        } else {
                                            Ok(None)
                                        };
                                        match children {
                                            Err(e) => Err(e),
                                            Ok(children) => Ok(
                                                DocumentSymbolModel {
                                                    name,
                                                    detail,
                                                    kind,
                                                    tags,
                                                    deprecated,
                                                    range,
                                                    selection_range,
                                                    children,
                                                },
                                            ),
                                        }
                                    },
                                },
                            },
                        },
                    },
                },
            },
        },
        _ => Err(DecodeError::WrongShape),
    }
}

#[via_fn]
proof fn symbol_from_decreases(j: JVal) {
    if let JVal::Obj(ms) = j {
        lemma_find_key(ms, "children"@, 0);
        let ci = find_key(ms, "children"@, 0);
        if ci < ms.len() {
            if let JVal::Arr(items) = ms[ci].1 {
                assert(decreases_to!(j => ms));
                assert(decreases_to!(ms => ms[ci]));
                assert(decreases_to!(ms[ci] => ms[ci].1));
                assert(decreases_to!(ms[ci].1 => (ms[ci].1)->Arr_0));
                assert(decreases_to!(j, 0nat => items, items.len() - 0));
            }
        }
    }
}

/// Decoding the items of an array as symbols, from index `i` on.
pub open spec fn symbols_from(items: Seq<JVal>, i: int) -> Result<Seq<DocumentSymbolModel>, DecodeError>
    decreases items, items.len() - i,
    when 0 <= i
{
    if i >= items.len() {
        Ok(Seq::empty())
    } else {
        match symbol_from(items[i]) {
            Err(e) => Err(e),
            Ok(m) => match symbols_from(items, i + 1) {
                Ok(rest) => Ok(seq![m] + rest),
                Err(e) => Err(e),
            },
        }
    }
}


proof fn lemma_symbols_decode(items: Seq<JVal>, cs: Seq<DocumentSymbolModel>, i: int)
    requires
        items.len() == cs.len(),
        0 <= i <= items.len(),
        forall|k: int| 0 <= k < items.len() ==> symbol_from(#[trigger] items[k]) == Ok::<DocumentSymbolModel, DecodeError>(cs[k]),
    ensures
        symbols_from(items, i) == Ok::<Seq<DocumentSymbolModel>, DecodeError>(cs.subrange(i, cs.len() as int)),
    decreases items.len() - i,
{
    if i < items.len() {
        lemma_symbols_decode(items, cs, i + 1);
        assert(seq![cs[i]] + cs.subrange(i + 1, cs.len() as int) =~= cs.subrange(i, cs.len() as int));
    } else {
        assert(cs.subrange(i, cs.len() as int) =~= Seq::<DocumentSymbolModel>::empty());
    }
}

/// Decoding the encoding of a symbol gives it back, children included.
pub proof fn lemma_symbol_round_trip(m: DocumentSymbolModel)
    ensures
        symbol_from(symbol_json(m)) == Ok::<DocumentSymbolModel, DecodeError>(m),
    decreases m,
{
    broadcast use group_lookup;
    reveal_strlit("name");
    reveal_strlit("detail");
    reveal_strlit("kind");
    reveal_strlit("tags");
    reveal_strlit("deprecated");
    reveal_strlit("range");
    reveal_strlit("selectionRange");
    reveal_strlit("children");
    assert("name"@.len() == 4);
    assert("detail"@.len() == 6);
    assert("kind"@.len() == 4);
    assert("tags"@.len() == 4);
    assert("deprecated"@.len() == 10);
    assert("range"@.len() == 5);
    assert("selectionRange"@.len() == 14);
    assert("children"@.len() == 8);
    assert("name"@[0] != "kind"@[0]);
    assert("name"@[0] != "tags"@[0]);
    assert("kind"@[0] != "tags"@[0]);
    String::lemma_round_trip(m.name);
    SymbolKind::lemma_round_trip(m.kind);
    Range::lemma_round_trip(m.range);
    Range::lemma_round_trip(m.selection_range);
    if let Some(x) = m.detail {
        String::lemma_round_trip(x);
    }
    if let Some(x) = m.tags {
        <Vec<SymbolTag>>::lemma_round_trip(x);
    }
    if let Some(x) = m.deprecated {
        bool::lemma_round_trip(x);
    }
    let ms = symbol_json(m)->Obj_0;
    lemma_find_key(ms, "children"@, 0);
    if let Some(cs) = m.children {
        let items = children_items(m);
        assert forall|k: int| 0 <= k < items.len() implies symbol_from(#[trigger] items[k]) == Ok::<
            DocumentSymbolModel,
            DecodeError,
        >(cs[k]) by {
            assert(decreases_to!(m => m.children));
            assert(decreases_to!(m.children => cs));
            assert(decreases_to!(cs => cs[k]));
            lemma_symbol_round_trip(cs[k]);
        }
        lemma_symbols_decode(items, cs, 0);
        assert(cs.subrange(0, cs.len() as int) =~= cs);
        assert(lookup(ms, "children"@) == Some(JVal::Arr(items)));
    } else {
        assert(lookup(ms, "children"@) is None);
    }
}

impl DocumentSymbol {
    /// The model of a symbol, its children taken recursively.
    pub open spec fn symbol_model(&self) -> DocumentSymbolModel
        decreases self,
    {
        DocumentSymbolModel {
            name: self.name@,
            detail: self.detail.model(),
            kind: self.kind,
            tags: self.tags.model(),
            deprecated: self.deprecated,
            range: self.range,
            selection_range: self.selection_range,
            children: match &self.children {
                Some(cs) => Some(
                    Seq::new(
                        cs.len() as nat,
                        |i: int|
                            if 0 <= i < cs.len() {
                                cs[i].symbol_model()
                            } else {
                                arbitrary()
                            },
                    ),
                ),
                None => None,
            },
        }
    }

    /// Writes the symbol and, recursively, its children.
    pub fn encode_symbol(&self) -> (r: Json)
        ensures
            r@ == symbol_json(self.symbol_model()),
        decreases self,
    {
        let ghost m = self.symbol_model();
        let mut ms = new_object();
        let ghost start = members(Json::Object(ms)@);
        push_member(&mut ms, "name", self.name.to_json());
        push_opt(&mut ms, "detail", &self.detail);
        proof {
            lemma_concat_associative(start, member("name"@, String::encode(m.name)), opt_member::<String>("detail"@, m.detail));
        }
        push_member(&mut ms, "kind", self.kind.to_json());
        proof {
            lemma_concat_associative(
                start,
                member("name"@, String::encode(m.name)) + opt_member::<String>("detail"@, m.detail),
                member("kind"@, SymbolKind::encode(m.kind)),
            );
        }
        push_opt(&mut ms, "tags", &self.tags);
        proof {
            lemma_concat_associative(
                start,
                member("name"@, String::encode(m.name)) + opt_member::<String>("detail"@, m.detail) + member(
                    "kind"@,
                    SymbolKind::encode(m.kind),
                ),
                opt_member::<Vec<SymbolTag>>("tags"@, m.tags),
            );
        }
        push_opt(&mut ms, "deprecated", &self.deprecated);
        proof {
            lemma_concat_associative(
                start,
                member("name"@, String::encode(m.name)) + opt_member::<String>("detail"@, m.detail) + member(
                    "kind"@,
                    SymbolKind::encode(m.kind),
                ) + opt_member::<Vec<SymbolTag>>("tags"@, m.tags),
                opt_member::<bool>("deprecated"@, m.deprecated),
            );
        }
        push_member(&mut ms, "range", self.range.to_json());
        proof {
            lemma_concat_associative(
                start,
                member("name"@, String::encode(m.name)) + opt_member::<String>("detail"@, m.detail) + member(
                    "kind"@,
                    SymbolKind::encode(m.kind),
                ) + opt_member::<Vec<SymbolTag>>("tags"@, m.tags) + opt_member::<bool>("deprecated"@, m.deprecated),
                member("range"@, Range::encode(m.range)),
            );
        }
        push_member(&mut ms, "selectionRange", self.selection_range.to_json());
        proof {
            lemma_concat_associative(
                start,
                member("name"@, String::encode(m.name)) + opt_member::<String>("detail"@, m.detail) + member(
                    "kind"@,
                    SymbolKind::encode(m.kind),
                ) + opt_member::<Vec<SymbolTag>>("tags"@, m.tags) + opt_member::<bool>("deprecated"@, m.deprecated)
                    + member("range"@, Range::encode(m.range)),
                member("selectionRange"@, Range::encode(m.selection_range)),
            );
            assert(start + head_json(m) =~= head_json(m));
        }
        match &self.children {
            Some(cs) => {
                let mut items: Vec<Json> = Vec::new();
                let mut i: usize = 0;
                while i < cs.len()
                    invariant
                        i <= cs.len(),
                        self.children == Some(*cs),
                        items.len() == i,
                        forall|k: int| 0 <= k < i ==> (#[trigger] items[k])@ == symbol_json(cs[k].symbol_model()),
                    decreases cs.len() - i,
                {
                    proof {
                        assert(decreases_to!(*self => self.children));
                        assert(decreases_to!(self.children => (self.children)->Some_0));
                        assert(decreases_to!(*cs => cs[i as int]));
                    }
                    let c = cs[i].encode_symbol();
                    items.push(c);
                    i = i + 1;
                }
                let arr = Json::Array(items);
                assert(arr@->Arr_0 =~= children_items(m));
                push_member(&mut ms, "children", arr);
            },
            None => {
                assert(members(Json::Object(ms)@) =~= head_json(m) + Seq::empty());
            },
        }
        Json::Object(ms)
    }

    /// Reads a symbol and, recursively, its children.
    pub fn decode_symbol(j: &Json) -> (r: Result<DocumentSymbol, DecodeError>)
        ensures
            match r {
                Ok(v) => symbol_from(j@) == Ok::<DocumentSymbolModel, DecodeError>(v.symbol_model()),
                Err(e) => symbol_from(j@) == Err::<DocumentSymbolModel, DecodeError>(e),
            },
        decreases j,
    {
        match j {
            Json::Object(ms) => {
                let name = match read_req::<String>(ms, "name") {
                    Ok(v) => v,
                    Err(e) => return Err(e),
                };
                let detail = match read_opt::<String>(ms, "detail") {
                    Ok(v) => v,
                    Err(e) => return Err(e),
                };
                let kind = match read_req::<SymbolKind>(ms, "kind") {
                    Ok(v) => v,
                    Err(e) => return Err(e),
                };
                let tags = match read_opt::<Vec<SymbolTag>>(ms, "tags") {
                    Ok(v) => v,
                    Err(e) => return Err(e),
                };
                let deprecated = match read_opt::<bool>(ms, "deprecated") {
                    Ok(v) => v,
                    Err(e) => return Err(e),
                };
                let range = match read_req::<Range>(ms, "range") {
                    Ok(v) => v,
                    Err(e) => return Err(e),
                };
                let selection_range = match read_req::<Range>(ms, "selectionRange") {
                    Ok(v) => v,
                    Err(e) => return Err(e),
                };
                let ghost whole = members(j@);
                let ci = find_member(ms, "children");
                let children = if ci < ms.len() {
                    assert(whole[ci as int] == (ms[ci as int].0@, ms[ci as int].1@));
                    match &ms[ci].1 {
                        Json::Array(items) => {
                            let ghost views = ms[ci as int].1@->Arr_0;
                            let mut out: Vec<DocumentSymbol> = Vec::new();
                            let mut i: usize = 0;
                            while i < items.len()
                                invariant
                                    i <= items.len(),
                                    *j == Json::Object(*ms),
                                    ci < ms.len(),
                                    ms[ci as int].1 == Json::Array(*items),
                                    views == Json::Array(*items)@->Arr_0,
                                    whole == members(j@),
                                    find_key(whole, "children"@, 0) == ci as int,
                                    whole[ci as int].1 == JVal::Arr(views),
                                    req_field::<String>(whole, "name"@) == Ok::<Seq<char>, DecodeError>(name@),
                                    opt_field::<String>(whole, "detail"@) == Ok::<Option<Seq<char>>, DecodeError>(detail.model()),
                                    req_field::<SymbolKind>(whole, "kind"@) == Ok::<SymbolKind, DecodeError>(kind),
                                    opt_field::<Vec<SymbolTag>>(whole, "tags"@) == Ok::<Option<Seq<SymbolTag>>, DecodeError>(tags.model()),
                                    opt_field::<bool>(whole, "deprecated"@) == Ok::<Option<bool>, DecodeError>(deprecated),
                                    req_field::<Range>(whole, "range"@) == Ok::<Range, DecodeError>(range),
                                    req_field::<Range>(whole, "selectionRange"@) == Ok::<Range, DecodeError>(selection_range),
                                    out.len() == i,
                                    symbols_from(views, 0) == match symbols_from(views, i as int) {
                                        Ok(rest) => Ok(out@.map_values(|c: DocumentSymbol| c.symbol_model()) + rest),
                                        Err(e) => Err(e),
                                    },
                                decreases items.len() - i,
                            {
                                proof {
                                    assert(decreases_to!(*j => (*j)->Object_0));
                                    assert(decreases_to!(*ms => ms[ci as int]));
                                    assert(decreases_to!(ms[ci as int] => ms[ci as int].1));
                                    assert(decreases_to!(ms[ci as int].1 => (ms[ci as int].1)->Array_0));
                                    assert(decreases_to!(*items => items[i as int]));
                                }
                                assert(views[i as int] == items[i as int]@);
                                match DocumentSymbol::decode_symbol(&items[i]) {
                                    Ok(c) => {
                                        let ghost before = out@.map_values(|c: DocumentSymbol| c.symbol_model());
                                        let ghost cm = c.symbol_model();
                                        out.push(c);
                                        proof {
                                            let now = out@.map_values(|c: DocumentSymbol| c.symbol_model());
                                            assert(now =~= before.push(cm));
                                            match symbols_from(views, i + 1) {
                                                Ok(rest) => {
                                                    assert(before + (seq![cm] + rest) =~= now + rest);
                                                },
                                                Err(e) => {},
                                            }
                                        }
                                    },
                                    Err(e) => {
                                        return Err(e);
                                    },
                                }
                                i = i + 1;
                            }
                            let ghost done = out@.map_values(|c: DocumentSymbol| c.symbol_model());
                            assert(done + Seq::<DocumentSymbolModel>::empty() =~= done);
                            Some(out)
                        },
                        _ => return Err(DecodeError::WrongShape),
                    }
                } else {
                    None
                };
                let r = DocumentSymbol {
                    name,
                    detail,
                    kind,
                    tags,
                    deprecated,
                    range,
                    selection_range,
                    children,
                };
                proof {
                    if let Some(cs) = &r.children {
                        let a = cs@.map_values(|c: DocumentSymbol| c.symbol_model());
                        assert(r.symbol_model().children->Some_0 =~= a);
                    }
                }
                Ok(r)
            },
            _ => Err(DecodeError::WrongShape),
        }
    }
}

/// A symbol is written as a record, with its children as an array of symbols.
impl JsonCodec for DocumentSymbol {
    type Model = DocumentSymbolModel;

    open spec fn model(&self) -> DocumentSymbolModel {
        self.symbol_model()
    }

    open spec fn encode(m: DocumentSymbolModel) -> JVal {
        symbol_json(m)
    }

    open spec fn decode(j: JVal) -> Result<DocumentSymbolModel, DecodeError> {
        symbol_from(j)
    }

    open spec fn valid(m: DocumentSymbolModel) -> bool {
        true
    }

    fn to_json(&self) -> (r: Json) {
        self.encode_symbol()
    }

    fn from_json(j: &Json) -> (r: Result<DocumentSymbol, DecodeError>) {
        DocumentSymbol::decode_symbol(j)
    }

    proof fn lemma_round_trip(m: DocumentSymbolModel) {
        lemma_symbol_round_trip(m);
    }
}

} // verus!
