//! The JSON documents that providers send back, as plain values, with the
//! accessors the library reads them through.
use vstd::prelude::*;
use crate::text::{opt_view, owned, str_eq, join, decimal, signed_decimal, string_of};

verus! {

/// A JSON document. Numbers are kept as serde_json keeps them: a non-negative
/// integer, a negative integer, or a floating-point number held by its text.
#[derive(Debug, PartialEq)]
pub enum Json {
    Null,
    Bool(bool),
    PosInt(u64),
    NegInt(i64),
    Float(String),
    Str(String),
    Array(Vec<Json>),
    Object(Vec<(String, Json)>),
}

/// The mathematical value of a JSON document.
pub enum JsonV {
    Null,
    Bool(bool),
    PosInt(u64),
    NegInt(i64),
    Float(Seq<char>),
    Str(Seq<char>),
    Array(Seq<JsonV>),
    Object(Seq<(Seq<char>, JsonV)>),
}

impl Json {
    pub open spec fn deep(self) -> JsonV
        decreases self,
    {
        match self {
            Json::Null => JsonV::Null,
            Json::Bool(b) => JsonV::Bool(b),
            Json::PosInt(n) => JsonV::PosInt(n),
            Json::NegInt(n) => JsonV::NegInt(n),
            Json::Float(s) => JsonV::Float(s@),
            Json::Str(s) => JsonV::Str(s@),
            Json::Array(v) => JsonV::Array(
                Seq::new(
                    v@.len(),
                    |i: int|
                        if 0 <= i < v@.len() {
                            v@[i].deep()
                        } else {
                            JsonV::Null
                        },
                ),
            ),
            Json::Object(v) => JsonV::Object(
                Seq::new(
                    v@.len(),
                    |i: int|
                        if 0 <= i < v@.len() {
                            (v@[i].0@, v@[i].1.deep())
                        } else {
                            (Seq::empty(), JsonV::Null)
                        },
                ),
            ),
        }
    }
}

/// The value stored under `key` among `entries` (the first such entry), or `Null`.
pub open spec fn lookup(entries: Seq<(Seq<char>, JsonV)>, key: Seq<char>) -> JsonV
    decreases entries.len(),
{
    if entries.len() == 0 {
        JsonV::Null
    } else if entries[0].0 == key {
        entries[0].1
    } else {
        lookup(entries.drop_first(), key)
    }
}

impl JsonV {
    /// `value[key]` as serde_json reads it: the member of an object, or `Null`.
    pub open spec fn get(self, key: Seq<char>) -> JsonV {
        match self {
            JsonV::Object(es) => lookup(es, key),
            _ => JsonV::Null,
        }
    }

    /// `value[i]` as serde_json reads it: the element of an array, or `Null`.
    pub open spec fn at(self, i: int) -> JsonV {
        match self {
            JsonV::Array(v) => if 0 <= i < v.len() {
                v[i]
            } else {
                JsonV::Null
            },
            _ => JsonV::Null,
        }
    }

    /// `value[k0][k1]...` for the keys of `path`, in order.
    pub open spec fn path(self, path: Seq<Seq<char>>) -> JsonV
        decreases path.len(),
    {
        if path.len() == 0 {
            self
        } else {
            self.get(path[0]).path(path.drop_first())
        }
    }

    pub open spec fn as_str(self) -> Option<Seq<char>> {
        match self {
            JsonV::Str(s) => Some(s),
            _ => None,
        }
    }

    pub open spec fn as_u64(self) -> Option<u64> {
        match self {
            JsonV::PosInt(n) => Some(n),
            _ => None,
        }
    }

    pub open spec fn as_i64(self) -> Option<i64> {
        match self {
            JsonV::PosInt(n) => if n <= i64::MAX {
                Some(n as i64)
            } else {
                None
            },
            JsonV::NegInt(n) => Some(n),
            _ => None,
        }
    }

    pub open spec fn as_bool(self) -> Option<bool> {
        match self {
            JsonV::Bool(b) => Some(b),
            _ => None,
        }
    }

    pub open spec fn is_object(self) -> bool {
        self is Object
    }
}

/// The view of a sequence of keys.
pub open spec fn keys_view(path: Seq<&str>) -> Seq<Seq<char>> {
    path.map_values(|k: &str| k@)
}

impl Json {
    /// The member under `key`, if this is an object that has one.
    pub fn get(&self, key: &str) -> (r: Option<&Json>)
        ensures
            r matches Some(x) ==> x.deep() == self.deep().get(key@),
            r is None ==> self.deep().get(key@) == JsonV::Null,
    {
        match self {
            Json::Object(es) => {
                let ghost ev = self.deep()->Object_0;
                let mut i: usize = 0;
                assert(ev.subrange(0, ev.len() as int) =~= ev);
                while i < es.len()
                    invariant
                        ev == self.deep()->Object_0,
                        ev.len() == es@.len(),
                        *self == Json::Object(*es),
                        i <= es@.len(),
                        lookup(ev, key@) == lookup(ev.subrange(i as int, ev.len() as int), key@),
                    decreases es@.len() - i,
                {
                    let ghost rest = ev.subrange(i as int, ev.len() as int);
                    assert(rest[0] == (es@[i as int].0@, es@[i as int].1.deep()));
                    if str_eq(es[i].0.as_str(), key) {
                        return Some(&es[i].1);
                    }
                    assert(rest.drop_first() =~= ev.subrange(i + 1, ev.len() as int));
                    i = i + 1;
                }
                None
            },
            _ => None,
        }
    }

    /// The element at `i`, if this is an array that long.
    pub fn at(&self, i: usize) -> (r: Option<&Json>)
        ensures
            r matches Some(x) ==> x.deep() == self.deep().at(i as int),
            r is None ==> self.deep().at(i as int) == JsonV::Null,
    {
        match self {
            Json::Array(v) => if i < v.len() {
                Some(&v[i])
            } else {
                None
            },
            _ => None,
        }
    }

    /// The value at the end of `path`, if every step finds a member.
    pub fn find(&self, path: &[&str]) -> (r: Option<&Json>)
        ensures
            r matches Some(x) ==> x.deep() == self.deep().path(keys_view(path@)),
            r is None ==> self.deep().path(keys_view(path@)) == JsonV::Null,
    {
        let ghost kv = keys_view(path@);
        let mut cur: &Json = self;
        let mut i: usize = 0;
        assert(kv.subrange(0, kv.len() as int) =~= kv);
        while i < path.len()
            invariant
                kv == keys_view(path@),
                i <= path@.len(),
                self.deep().path(kv) == cur.deep().path(kv.subrange(i as int, kv.len() as int)),
            decreases path@.len() - i,
        {
            let ghost rest = kv.subrange(i as int, kv.len() as int);
            assert(rest.drop_first() =~= kv.subrange(i + 1, kv.len() as int));
            match cur.get(path[i]) {
                Some(next) => {
                    cur = next;
                },
                None => {
                    proof { lemma_null_path(rest.drop_first()); }
                    return None;
                },
            }
            i = i + 1;
        }
        assert(kv.subrange(path@.len() as int, kv.len() as int) =~= Seq::<Seq<char>>::empty());
        Some(cur)
    }

    pub fn as_str(&self) -> (r: Option<&str>)
        ensures
            r matches Some(s) ==> self.deep().as_str() == Some(s@),
            r is None ==> self.deep().as_str() is None,
    {
        match self {
            Json::Str(s) => Some(s.as_str()),
            _ => None,
        }
    }

    pub fn as_u64(&self) -> (r: Option<u64>)
        ensures
            r == self.deep().as_u64(),
    {
        match self {
            Json::PosInt(n) => Some(*n),
            _ => None,
        }
    }

    pub fn as_i64(&self) -> (r: Option<i64>)
        ensures
            r == self.deep().as_i64(),
    {
        match self {
            Json::PosInt(n) => if *n <= 9223372036854775807u64 {
                Some(*n as i64)
            } else {
                None
            },
            Json::NegInt(n) => Some(*n),
            _ => None,
        }
    }

    pub fn as_bool(&self) -> (r: Option<bool>)
        ensures
            r == self.deep().as_bool(),
    {
        match self {
            Json::Bool(b) => Some(*b),
            _ => None,
        }
    }

    pub fn is_object(&self) -> (r: bool)
        ensures
            r == self.deep().is_object(),
    {
        match self {
            Json::Object(_) => true,
            _ => false,
        }
    }

    /// The string member under `key`, if there is one.
    pub fn member_str(&self, key: &str) -> (r: Option<&str>)
        ensures
            r matches Some(s) ==> self.deep().get(key@).as_str() == Some(s@),
            r is None ==> self.deep().get(key@).as_str() is None,
    {
        match self.get(key) {
            Some(v) => v.as_str(),
            None => None,
        }
    }

    /// An owned copy of the string at the end of `path`, if there is one.
    pub fn str_at(&self, path: &[&str]) -> (r: Option<String>)
        ensures
            opt_view(r) == self.deep().path(keys_view(path@)).as_str(),
    {
        match self.find(path) {
            Some(v) => match v.as_str() {
                Some(s) => Some(owned(s)),
                None => None,
            },
            None => None,
        }
    }

    /// The string at the end of `path`, or `default` when there is none.
    pub fn str_or(&self, path: &[&str], default: &str) -> (r: String)
        ensures
            r@ == str_or_spec(self.deep().path(keys_view(path@)), default@),
    {
        match self.str_at(path) {
            Some(s) => s,
            None => owned(default),
        }
    }
}

/// `v.as_str().unwrap_or(default)`.
pub open spec fn str_or_spec(v: JsonV, default: Seq<char>) -> Seq<char> {
    match v.as_str() {
        Some(s) => s,
        None => default,
    }
}

/// A path of one key reads one member; a path of two keys reads two in turn.
pub proof fn lemma_short_paths(v: JsonV, a: Seq<char>, b: Seq<char>, c: Seq<char>)
    ensures
        v.path(seq![a]) == v.get(a),
        v.path(seq![a, b]) == v.get(a).get(b),
        v.path(seq![a, b, c]) == v.get(a).get(b).get(c),
{
    assert(seq![a].drop_first() =~= Seq::<Seq<char>>::empty());
    assert(seq![a, b].drop_first() =~= seq![b]);
    assert(seq![b].drop_first() =~= Seq::<Seq<char>>::empty());
    assert(seq![a, b, c].drop_first() =~= seq![b, c]);
    assert(seq![b, c].drop_first() =~= seq![c]);
    assert(seq![c].drop_first() =~= Seq::<Seq<char>>::empty());
    assert(v.get(a).path(Seq::empty()) == v.get(a));
    assert(v.path(seq![a]) == v.get(a).path(seq![a].drop_first()));
    assert(v.get(a).get(b).path(Seq::empty()) == v.get(a).get(b));
    assert(v.get(a).path(seq![b]) == v.get(a).get(b).path(seq![b].drop_first()));
    assert(v.path(seq![a, b]) == v.get(a).path(seq![a, b].drop_first()));
    assert(v.get(a).get(b).get(c).path(Seq::empty()) == v.get(a).get(b).get(c));
    assert(v.get(a).get(b).path(seq![c]) == v.get(a).get(b).get(c).path(seq![c].drop_first()));
    assert(v.get(a).path(seq![b, c]) == v.get(a).get(b).path(seq![b, c].drop_first()));
    assert(v.path(seq![a, b, c]) == v.get(a).path(seq![a, b, c].drop_first()));
}

/// The value an optional reference stands for: `Null` when there is none.
pub open spec fn nget(o: Option<&Json>) -> JsonV {
    match o {
        Some(j) => j.deep(),
        None => JsonV::Null,
    }
}

/// `value[key]`.
pub fn member<'a>(o: Option<&'a Json>, key: &str) -> (r: Option<&'a Json>)
    ensures
        nget(r) == nget(o).get(key@),
{
    match o {
        Some(j) => j.get(key),
        None => None,
    }
}

/// `value[i]`.
pub fn element<'a>(o: Option<&'a Json>, i: usize) -> (r: Option<&'a Json>)
    ensures
        nget(r) == nget(o).at(i as int),
{
    match o {
        Some(j) => j.at(i),
        None => None,
    }
}

/// `value.as_str().map(to_string)`.
pub fn text(o: Option<&Json>) -> (r: Option<String>)
    ensures
        opt_view(r) == nget(o).as_str(),
{
    match o {
        Some(j) => match j.as_str() {
            Some(s) => Some(owned(s)),
            None => None,
        },
        None => None,
    }
}

/// `value.as_str().unwrap_or(default).to_string()`.
pub fn text_or(o: Option<&Json>, default: &str) -> (r: String)
    ensures
        r@ == str_or_spec(nget(o), default@),
{
    match text(o) {
        Some(s) => s,
        None => owned(default),
    }
}

/// `value.as_i64()`.
pub fn integer(o: Option<&Json>) -> (r: Option<i64>)
    ensures
        r == nget(o).as_i64(),
{
    match o {
        Some(j) => j.as_i64(),
        None => None,
    }
}

/// `value.as_bool()`.
pub fn flag(o: Option<&Json>) -> (r: Option<bool>)
    ensures
        r == nget(o).as_bool(),
{
    match o {
        Some(j) => j.as_bool(),
        None => None,
    }
}

pub proof fn lemma_null_path(path: Seq<Seq<char>>)
    ensures
        JsonV::Null.path(path) == JsonV::Null,
    decreases path.len(),
{
    if path.len() > 0 {
        lemma_null_path(path.drop_first());
    }
}

/// The lower-case hexadecimal digit for `d < 16`.
pub open spec fn hex_lower(d: u32) -> char {
    if d < 10 {
        (0x30 + d) as char
    } else {
        (0x61 + d - 10) as char
    }
}

/// How serde_json writes one character inside a string literal.
pub open spec fn escape_char(c: char) -> Seq<char> {
    let u = c as u32;
    if c == '"' {
        seq!['\\', '"']
    } else if c == '\\' {
        seq!['\\', '\\']
    } else if u == 0x08 {
        seq!['\\', 'b']
    } else if u == 0x09 {
        seq!['\\', 't']
    } else if u == 0x0A {
        seq!['\\', 'n']
    } else if u == 0x0C {
        seq!['\\', 'f']
    } else if u == 0x0D {
        seq!['\\', 'r']
    } else if u < 0x20 {
        seq!['\\', 'u', '0', '0', hex_lower(u / 16), hex_lower(u % 16)]
    } else {
        seq![c]
    }
}

pub open spec fn escape_chars(s: Seq<char>) -> Seq<char>
    decreases s.len(),
{
    if s.len() == 0 {
        Seq::empty()
    } else {
        escape_chars(s.drop_last()) + escape_char(s.last())
    }
}

/// A JSON string literal for `s`.
pub open spec fn quoted(s: Seq<char>) -> Seq<char> {
    seq!['"'] + escape_chars(s) + seq!['"']
}

/// The compact JSON text of a document, as `serde_json::Value::to_string` writes it.
pub open spec fn json_text(v: JsonV) -> Seq<char>
    decreases v,
{
    match v {
        JsonV::Null => seq!['n', 'u', 'l', 'l'],
        JsonV::Bool(b) => if b {
            seq!['t', 'r', 'u', 'e']
        } else {
            seq!['f', 'a', 'l', 's', 'e']
        },
        JsonV::PosInt(n) => decimal(n as nat),
        JsonV::NegInt(n) => signed_decimal(n as int),
        JsonV::Float(t) => t,
        JsonV::Str(s) => quoted(s),
        JsonV::Array(items) => seq!['['] + join(array_texts(items), seq![',']) + seq![']'],
        JsonV::Object(es) => seq!['{'] + join(member_texts(es), seq![',']) + seq!['}'],
    }
}

/// The texts of the elements of an array.
pub open spec fn array_texts(items: Seq<JsonV>) -> Seq<Seq<char>>
    decreases items,
{
    Seq::new(
        items.len(),
        |i: int|
            if 0 <= i < items.len() {
                json_text(items[i])
            } else {
                Seq::empty()
            },
    )
}

/// The texts `"key":value` of the members of an object.
pub open spec fn member_texts(es: Seq<(Seq<char>, JsonV)>) -> Seq<Seq<char>>
    decreases es,
{
    Seq::new(
        es.len(),
        |i: int|
            if 0 <= i < es.len() {
                quoted(es[i].0) + seq![':'] + json_text(es[i].1)
            } else {
                Seq::empty()
            },
    )
}

/// How deeply arrays and objects nest in a document.
pub open spec fn depth(v: JsonV) -> nat
    decreases v,
{
    match v {
        JsonV::Array(items) => 1 + items_depth(items),
        JsonV::Object(es) => 1 + members_depth(es),
        _ => 0,
    }
}

pub open spec fn items_depth(items: Seq<JsonV>) -> nat
    decreases items,
{
    if items.len() == 0 {
        0
    } else {
        let a = items_depth(items.subrange(0, items.len() - 1));
        let b = depth(items[items.len() - 1]);
        if a < b { b } else { a }
    }
}

pub open spec fn members_depth(es: Seq<(Seq<char>, JsonV)>) -> nat
    decreases es,
{
    if es.len() == 0 {
        0
    } else {
        let a = members_depth(es.subrange(0, es.len() - 1));
        let b = depth(es[es.len() - 1].1);
        if a < b { b } else { a }
    }
}

proof fn lemma_depth_items(items: Seq<JsonV>, i: int)
    requires
        0 <= i < items.len(),
    ensures
        depth(items[i]) <= items_depth(items),
    decreases items.len(),
{
    if i < items.len() - 1 {
        lemma_depth_items(items.subrange(0, items.len() - 1), i);
    }
}

proof fn lemma_depth_members(es: Seq<(Seq<char>, JsonV)>, i: int)
    requires
        0 <= i < es.len(),
    ensures
        depth(es[i].1) <= members_depth(es),
    decreases es.len(),
{
    if i < es.len() - 1 {
        lemma_depth_members(es.subrange(0, es.len() - 1), i);
    }
}

fn hex_lower_exec(d: u32) -> (c: char)
    requires
        d < 16,
    ensures
        c == hex_lower(d),
{
    if d < 10 {
        ((0x30 + d) as u8) as char
    } else {
        ((0x61 + d - 10) as u8) as char
    }
}

fn push_quoted(s: &str, out: &mut Vec<char>)
    ensures
        final(out)@ == old(out)@ + quoted(s@),
{
    let cs = crate::text::chars_of(s);
    let ghost start = out@;
    out.push('"');
    let mut i: usize = 0;
    while i < cs.len()
        invariant
            cs@ == s@,
            i <= cs@.len(),
            out@ == start + seq!['"'] + escape_chars(s@.take(i as int)),
        decreases cs@.len() - i,
    {
        let c = cs[i];
        let u = c as u32;
        assert(s@.take(i + 1).drop_last() =~= s@.take(i as int));
        let ghost before = out@;
        if c == '"' {
            out.push('\\');
            out.push('"');
        } else if c == '\\' {
            out.push('\\');
            out.push('\\');
        } else if u == 0x08 {
            out.push('\\');
            out.push('b');
        } else if u == 0x09 {
            out.push('\\');
            out.push('t');
        } else if u == 0x0A {
            out.push('\\');
            out.push('n');
        } else if u == 0x0C {
            out.push('\\');
            out.push('f');
        } else if u == 0x0D {
            out.push('\\');
            out.push('r');
        } else if u < 0x20 {
            out.push('\\');
            out.push('u');
            out.push('0');
            out.push('0');
            out.push(hex_lower_exec(u / 16));
            out.push(hex_lower_exec(u % 16));
        } else {
            out.push(c);
        }
        assert(out@ =~= before + escape_char(c));
        i = i + 1;
    }
    out.push('"');
    assert(s@.take(cs@.len() as int) =~= s@);
    assert(out@ =~= start + quoted(s@));
}

fn push_str(s: &str, out: &mut Vec<char>)
    ensures
        final(out)@ == old(out)@ + s@,
{
    let cs = crate::text::chars_of(s);
    let ghost start = out@;
    let mut i: usize = 0;
    while i < cs.len()
        invariant
            cs@ == s@,
            i <= cs@.len(),
            out@ == start + s@.take(i as int),
        decreases cs@.len() - i,
    {
        out.push(cs[i]);
        i = i + 1;
        assert(out@ =~= start + s@.take(i as int));
    }
    assert(s@.take(cs@.len() as int) =~= s@);
}

#[verifier::rlimit(40)]
fn push_json(j: &Json, out: &mut Vec<char>, Ghost(fuel): Ghost<nat>)
    requires
        depth(j.deep()) <= fuel,
    ensures
        final(out)@ == old(out)@ + json_text(j.deep()),
    decreases fuel,
{
    match j {
        Json::Null => {
            push_str("null", out);
            proof { reveal_strlit("null"); }
            assert(out@ =~= old(out)@ + json_text(j.deep()));
        },
        Json::Bool(b) => {
            if *b {
                push_str("true", out);
                proof { reveal_strlit("true"); }
            } else {
                push_str("false", out);
                proof { reveal_strlit("false"); }
            }
            assert(out@ =~= old(out)@ + json_text(j.deep()));
        },
        Json::PosInt(n) => {
            let t = crate::text::u64_to_string(*n);
            push_str(t.as_str(), out);
        },
        Json::NegInt(n) => {
            let t = crate::text::i64_to_string(*n);
            push_str(t.as_str(), out);
        },
        Json::Float(t) => {
            push_str(t.as_str(), out);
        },
        Json::Str(s) => {
            push_quoted(s.as_str(), out);
        },
        Json::Array(items) => {
            let ghost start = out@;
            let ghost dv = j.deep()->Array_0;
            let ghost texts = array_texts(dv);
            assert(j.deep() == JsonV::Array(dv));
            assert(json_text(j.deep()) == seq!['['] + join(texts, seq![',']) + seq![']']);
            out.push('[');
            let mut i: usize = 0;
            while i < items.len()
                invariant
                    i <= items@.len(),
                    depth(j.deep()) <= fuel,
                    j.deep() == JsonV::Array(dv),
                    dv.len() == items@.len(),
                    texts.len() == items@.len(),
                    forall|k: int| 0 <= k < dv.len() ==> #[trigger] dv[k] == items@[k].deep(),
                    forall|k: int| 0 <= k < dv.len() ==> #[trigger] texts[k] == json_text(dv[k]),
                    out@ == start + seq!['['] + join(texts.take(i as int), seq![',']),
                decreases items@.len() - i,
            {
                assert(texts.take(i + 1).drop_last() =~= texts.take(i as int));
                if i > 0 {
                    out.push(',');
                }
                proof { lemma_depth_items(dv, i as int); }
                push_json(&items[i], out, Ghost((fuel - 1) as nat));
                assert(texts[i as int] == json_text(items@[i as int].deep()));
                i = i + 1;
                assert(out@ =~= start + seq!['['] + join(texts.take(i as int), seq![',']));
            }
            out.push(']');
            assert(texts.take(items@.len() as int) =~= texts);
            assert(out@ =~= start + json_text(j.deep()));
        },
        Json::Object(es) => {
            let ghost start = out@;
            let ghost dv = j.deep()->Object_0;
            let ghost texts = member_texts(dv);
            assert(j.deep() == JsonV::Object(dv));
            assert(json_text(j.deep()) == seq!['{'] + join(texts, seq![',']) + seq!['}']);
            out.push('{');
            let mut i: usize = 0;
            while i < es.len()
                invariant
                    i <= es@.len(),
                    depth(j.deep()) <= fuel,
                    j.deep() == JsonV::Object(dv),
                    dv.len() == es@.len(),
                    texts.len() == es@.len(),
                    forall|k: int| 0 <= k < dv.len() ==> #[trigger] dv[k] == (es@[k].0@, es@[k].1.deep()),
                    forall|k: int| 0 <= k < dv.len() ==> #[trigger] texts[k] == quoted(dv[k].0) + seq![':'] + json_text(dv[k].1),
                    out@ == start + seq!['{'] + join(texts.take(i as int), seq![',']),
                decreases es@.len() - i,
            {
                assert(texts.take(i + 1).drop_last() =~= texts.take(i as int));
                if i > 0 {
                    out.push(',');
                }
                let ghost before = out@;
                push_quoted(es[i].0.as_str(), out);
                out.push(':');
                proof { lemma_depth_members(dv, i as int); }
                push_json(&es[i].1, out, Ghost((fuel - 1) as nat));
                assert(dv[i as int] == (es@[i as int].0@, es@[i as int].1.deep()));
                assert(out@ =~= before + texts[i as int]);
                i = i + 1;
                assert(out@ =~= start + seq!['{'] + join(texts.take(i as int), seq![',']));
            }
            out.push('}');
            assert(texts.take(es@.len() as int) =~= texts);
            assert(out@ =~= start + json_text(j.deep()));
        },
    }
}

impl Json {
    /// The compact JSON text of this document.
    pub fn to_json_string(&self) -> (r: String)
        ensures
            r@ == json_text(self.deep()),
    {
        let mut out: Vec<char> = Vec::new();
        push_json(self, &mut out, Ghost(depth(self.deep())));
        assert(out@ =~= json_text(self.deep()));
        string_of(&out)
    }
}

/// The view of members whose values are all strings.
pub open spec fn text_members(members: Seq<(&str, &str)>) -> Seq<(Seq<char>, JsonV)> {
    members.map_values(|m: (&str, &str)| (m.0@, JsonV::Str(m.1@)))
}

/// The object whose members are the given names and string values, in order.
pub fn text_object(members: &[(&str, &str)]) -> (r: Json)
    ensures
        r.deep() == JsonV::Object(text_members(members@)),
{
    let mut v: Vec<(String, Json)> = Vec::new();
    let mut i: usize = 0;
    while i < members.len()
        invariant
            i <= members@.len(),
            v@.len() == i,
            forall|j: int|
                0 <= j < i ==> (#[trigger] v@[j]).0@ == members@[j].0@ && v@[j].1.deep()
                    == JsonV::Str(members@[j].1@),
        decreases members@.len() - i,
    {
        let (k, t) = members[i];
        v.push((owned(k), Json::Str(owned(t))));
        i = i + 1;
    }
    let r = Json::Object(v);
    assert(r.deep() == JsonV::Object(text_members(members@))) by {
        if let JsonV::Object(es) = r.deep() {
            assert(es =~= text_members(members@));
        }
    }
    r
}

/// The body `{"query": q}` of a GraphQL request.
pub fn query_document(q: &str) -> (r: Json)
    ensures
        r.deep() == JsonV::Object(seq![("query"@, JsonV::Str(q@))]),
{
    let members = [("query", q)];
    let r = text_object(&members);
    assert(text_members(members@) =~= seq![("query"@, JsonV::Str(q@))]);
    r
}

/// The view of an object's members.
pub open spec fn members_view(members: Seq<(String, Json)>) -> Seq<(Seq<char>, JsonV)> {
    members.map_values(|m: (String, Json)| (m.0@, m.1.deep()))
}

/// The object with the given members, in order.
pub fn object_of(members: Vec<(String, Json)>) -> (r: Json)
    ensures
        r.deep() == JsonV::Object(members_view(members@)),
{
    let ghost m = members@;
    let r = Json::Object(members);
    assert(r.deep() == JsonV::Object(members_view(m))) by {
        if let JsonV::Object(es) = r.deep() {
            assert(es =~= members_view(m));
        }
    }
    r
}

fn copy_with(j: &Json, Ghost(fuel): Ghost<nat>) -> (r: Json)
    requires
        depth(j.deep()) <= fuel,
    ensures
        r.deep() == j.deep(),
    decreases fuel,
{
    match j {
        Json::Null => Json::Null,
        Json::Bool(b) => Json::Bool(*b),
        Json::PosInt(n) => Json::PosInt(*n),
        Json::NegInt(n) => Json::NegInt(*n),
        Json::Float(t) => Json::Float(owned(t.as_str())),
        Json::Str(t) => Json::Str(owned(t.as_str())),
        Json::Array(items) => {
            let ghost dv = j.deep()->Array_0;
            assert(j.deep() == JsonV::Array(dv));
            let mut out: Vec<Json> = Vec::new();
            let mut i: usize = 0;
            while i < items.len()
                invariant
                    i <= items@.len(),
                    depth(j.deep()) <= fuel,
                    j.deep() == JsonV::Array(dv),
                    dv.len() == items@.len(),
                    forall|k: int| 0 <= k < dv.len() ==> #[trigger] dv[k] == items@[k].deep(),
                    out@.len() == i,
                    forall|k: int| 0 <= k < i ==> (#[trigger] out@[k]).deep() == dv[k],
                decreases items@.len() - i,
            {
                proof { lemma_depth_items(dv, i as int); }
                let c = copy_with(&items[i], Ghost((fuel - 1) as nat));
                out.push(c);
                i = i + 1;
            }
            let r = Json::Array(out);
            assert(r.deep() == j.deep()) by {
                assert(r.deep()->Array_0 =~= dv);
            }
            r
        },
        Json::Object(es) => {
            let ghost dv = j.deep()->Object_0;
            assert(j.deep() == JsonV::Object(dv));
            let mut out: Vec<(String, Json)> = Vec::new();
            let mut i: usize = 0;
            while i < es.len()
                invariant
                    i <= es@.len(),
                    depth(j.deep()) <= fuel,
                    j.deep() == JsonV::Object(dv),
                    dv.len() == es@.len(),
                    forall|k: int| 0 <= k < dv.len() ==> #[trigger] dv[k] == (es@[k].0@, es@[k].1.deep()),
                    out@.len() == i,
                    forall|k: int| 0 <= k < i ==> (#[trigger] out@[k]).0@ == dv[k].0 && out@[k].1.deep() == dv[k].1,
                decreases es@.len() - i,
            {
                proof { lemma_depth_members(dv, i as int); }
                let c = copy_with(&es[i].1, Ghost((fuel - 1) as nat));
                out.push((owned(es[i].0.as_str()), c));
                i = i + 1;
            }
            let r = Json::Object(out);
            assert(r.deep() == j.deep()) by {
                assert(r.deep()->Object_0 =~= dv);
            }
            r
        },
    }
}

impl Json {
    /// A copy of this document.
    pub fn duplicate(&self) -> (r: Json)
        ensures
            r.deep() == self.deep(),
    {
        copy_with(self, Ghost(depth(self.deep())))
    }
}

/// The array of the given strings, in order.
pub fn text_array(items: &[&str]) -> (r: Json)
    ensures
        r.deep() == JsonV::Array(items@.map_values(|t: &str| JsonV::Str(t@))),
{
    let mut v: Vec<Json> = Vec::new();
    let mut i: usize = 0;
    while i < items.len()
        invariant
            i <= items@.len(),
            v@.len() == i,
            forall|j: int| 0 <= j < i ==> (#[trigger] v@[j]).deep() == JsonV::Str(items@[j]@),
        decreases items@.len() - i,
    {
        v.push(Json::Str(owned(items[i])));
        i = i + 1;
    }
    let r = Json::Array(v);
    assert(r.deep() == JsonV::Array(items@.map_values(|t: &str| JsonV::Str(t@)))) by {
        assert(r.deep()->Array_0 =~= items@.map_values(|t: &str| JsonV::Str(t@)));
    }
    r
}

#[verifier::external_type_specification]
#[verifier::external_body]
pub struct ExValue(serde_json::Value);

/// What `serde_json::from_slice::<serde_json::Value>` reads from bytes, in the
/// library's form (numbers as serde_json keeps them, members in the map's
/// order), or the text of its error. It depends on the bytes alone.
pub uninterp spec fn spec_json_parse(bytes: Seq<u8>) -> Result<JsonV, Seq<char>>;

/// The library's form of a `serde_json::Value`, variant for variant: a number
/// that fits `u64` or `i64` is kept as such, any other by its text.
#[verifier::external_body]
fn json_of_value(v: serde_json::Value) -> (j: Json) {
    match v {
        serde_json::Value::Null => Json::Null,
        serde_json::Value::Bool(b) => Json::Bool(b),
        serde_json::Value::Number(n) => match (n.as_u64(), n.as_i64()) {
            (Some(u), _) => Json::PosInt(u),
            (None, Some(i)) => Json::NegInt(i),
            (None, None) => Json::Float(n.to_string()),
        },
        serde_json::Value::String(s) => Json::Str(s),
        serde_json::Value::Array(items) => Json::Array(items.into_iter().map(json_of_value).collect()),
        serde_json::Value::Object(m) => Json::Object(m.into_iter().map(|(k, x)| (k, json_of_value(x))).collect()),
    }
}

/// The `serde_json::Value` of a library JSON document, variant for variant: a
/// number held by its text is read back as a serde_json number (a text that
/// is no number gives `null`), and members go into serde_json's map.
#[verifier::external_body]
pub(crate) fn value_of_json(j: &Json) -> (v: serde_json::Value) {
    match j {
        Json::Null => serde_json::Value::Null,
        Json::Bool(b) => serde_json::Value::Bool(*b),
        Json::PosInt(n) => serde_json::Value::from(*n),
        Json::NegInt(n) => serde_json::Value::from(*n),
        Json::Float(t) => t.parse::<serde_json::Number>().map_or(serde_json::Value::Null, serde_json::Value::Number),
        Json::Str(t) => serde_json::Value::String(t.clone()),
        Json::Array(items) => serde_json::Value::Array(items.iter().map(value_of_json).collect()),
        Json::Object(m) => serde_json::Value::Object(m.iter().map(|(k, x)| (k.clone(), value_of_json(x))).collect()),
    }
}

/// `serde_json::from_slice::<serde_json::Value>`: the JSON document in `bytes`,
/// or the text of the parser's error, as the name [`spec_json_parse`] gives them.
#[verifier::external_body]
pub fn parse_json(bytes: &[u8]) -> (r: Result<Json, String>)
    ensures
        match spec_json_parse(bytes@) {
            Ok(v) => r matches Ok(j) && j.deep() == v,
            Err(m) => r matches Err(x) && x@ == m,
        },
{
    match serde_json::from_slice::<serde_json::Value>(bytes) {
        Ok(v) => Ok(json_of_value(v)),
        Err(e) => Err(e.to_string()),
    }
}

} // verus!
