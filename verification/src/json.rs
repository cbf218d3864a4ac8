//! A JSON value held as plain data, with the accessors that the assistant's logic reads it by.
use crate::text::{decimal, digit_char, owned, push_str, str_eq};
use crate::trusted::{json_quote, json_string_literal};
use vstd::prelude::*;

verus! {

/// A JSON value. Numbers keep the text that a JSON writer gives them.
pub enum Json {
    Null,
    Bool(bool),
    Number(String),
    Str(String),
    Array(Vec<Json>),
    Object(Vec<(String, Json)>),
}

/// The mathematical model of a JSON value.
pub enum JsonV {
    Null,
    Bool(bool),
    Number(Seq<char>),
    Str(Seq<char>),
    Array(Seq<JsonV>),
    Object(Seq<(Seq<char>, JsonV)>),
}

impl Json {
    /// The model of a value.
    pub open spec fn view_of(self) -> JsonV
        decreases self,
    {
        match self {
            Json::Null => JsonV::Null,
            Json::Bool(b) => JsonV::Bool(b),
            Json::Number(n) => JsonV::Number(n@),
            Json::Str(s) => JsonV::Str(s@),
            Json::Array(v) => JsonV::Array(
                Seq::new(v.len() as nat, |i: int| if 0 <= i < v.len() { v@[i].view_of() } else { JsonV::Null }),
            ),
            Json::Object(m) => JsonV::Object(
                Seq::new(
                    m.len() as nat,
                    |i: int| if 0 <= i < m.len() { (m@[i].0@, m@[i].1.view_of()) } else { (Seq::empty(), JsonV::Null) },
                ),
            ),
        }
    }
}

impl View for Json {
    type V = JsonV;

    open spec fn view(&self) -> JsonV {
        self.view_of()
    }
}

/// The models of a sequence of values.
pub open spec fn views_of(v: Seq<Json>) -> Seq<JsonV> {
    Seq::new(v.len(), |i: int| v[i]@)
}

/// The models of a sequence of object members.
pub open spec fn members_of(m: Seq<(String, Json)>) -> Seq<(Seq<char>, JsonV)> {
    Seq::new(m.len(), |i: int| (m[i].0@, m[i].1@))
}

/// The model of an array is the models of its items.
pub proof fn lemma_array_view(v: Vec<Json>)
    ensures
        Json::Array(v)@ == JsonV::Array(views_of(v@)),
{
    let a = Json::Array(v).view_of()->Array_0;
    assert(a.len() == v.len());
    assert forall|i: int| 0 <= i < v.len() implies a[i] == v@[i]@ by {}
    assert(a =~= views_of(v@));
}

/// The model of an object is the models of its members.
pub proof fn lemma_object_view(m: Vec<(String, Json)>)
    ensures
        Json::Object(m)@ == JsonV::Object(members_of(m@)),
{
    let a = Json::Object(m).view_of()->Object_0;
    assert(a.len() == m.len());
    assert forall|i: int| 0 <= i < m.len() implies a[i] == (m@[i].0@, m@[i].1@) by {}
    assert(a =~= members_of(m@));
}

/// The value of the first member named `key`, from index `i` on.
pub open spec fn member_from(m: Seq<(Seq<char>, JsonV)>, key: Seq<char>, i: int) -> Option<JsonV>
    decreases m.len() - i,
{
    if i < 0 || i >= m.len() {
        None
    } else if m[i].0 == key {
        Some(m[i].1)
    } else {
        member_from(m, key, i + 1)
    }
}

/// The member `key` of an object; `None` for a missing member or a value that is no object.
pub open spec fn lookup(v: JsonV, key: Seq<char>) -> Option<JsonV> {
    match v {
        JsonV::Object(m) => member_from(m, key, 0),
        _ => None,
    }
}

/// `value[key]`: the member, or `null`.
pub open spec fn at(v: JsonV, key: Seq<char>) -> JsonV {
    match lookup(v, key) {
        Some(x) => x,
        None => JsonV::Null,
    }
}

/// `value[i]`: the item of an array, or `null`.
pub open spec fn item(v: JsonV, i: int) -> JsonV {
    match v {
        JsonV::Array(a) => if 0 <= i < a.len() { a[i] } else { JsonV::Null },
        _ => JsonV::Null,
    }
}

/// `value.as_str()`.
pub open spec fn str_of(v: JsonV) -> Option<Seq<char>> {
    match v {
        JsonV::Str(s) => Some(s),
        _ => None,
    }
}

/// `value.as_str().unwrap_or(default)`.
pub open spec fn str_or(v: JsonV, default: Seq<char>) -> Seq<char> {
    match v {
        JsonV::Str(s) => s,
        _ => default,
    }
}

/// `value.as_array()`.
pub open spec fn array_of(v: JsonV) -> Option<Seq<JsonV>> {
    match v {
        JsonV::Array(a) => Some(a),
        _ => None,
    }
}

/// The digits of a decimal text, read as a number.
pub open spec fn digits_value(s: Seq<char>) -> nat
    decreases s.len(),
{
    if s.len() == 0 {
        0
    } else {
        digits_value(s.drop_last()) * 10 + ((s.last() as nat) - ('0' as nat)) as nat
    }
}

/// A non-empty text of decimal digits.
pub open spec fn all_digits(s: Seq<char>) -> bool {
    s.len() > 0 && forall|i: int| 0 <= i < s.len() ==> '0' <= #[trigger] s[i] && s[i] <= '9'
}

/// `value.as_u64()`: a number written as plain decimal digits that fits in 64 bits.
pub open spec fn u64_of(v: JsonV) -> Option<u64> {
    match v {
        JsonV::Number(t) => if all_digits(t) && digits_value(t) <= u64::MAX {
            Some(digits_value(t) as u64)
        } else {
            None
        },
        _ => None,
    }
}

/// The optional model of an optional reference to a value.
pub open spec fn opt_json(o: Option<&Json>) -> Option<JsonV> {
    match o {
        Some(j) => Some(j@),
        None => None,
    }
}

impl Json {
    /// An object with the given members, in that order.
    pub fn object(entries: Vec<(String, Json)>) -> (r: Json)
        ensures
            r@ == JsonV::Object(members_of(entries@)),
    {
        proof {
            lemma_object_view(entries);
        }
        Json::Object(entries)
    }

    /// An array with the given items, in that order.
    pub fn array(items: Vec<Json>) -> (r: Json)
        ensures
            r@ == JsonV::Array(views_of(items@)),
    {
        proof {
            lemma_array_view(items);
        }
        Json::Array(items)
    }

    /// `Json::Str` of a copy of the text.
    pub fn text(s: &str) -> (r: Json)
        ensures
            r@ == JsonV::Str(s@),
    {
        Json::Str(owned(s))
    }

    /// The member `key` of an object.
    pub fn get(&self, key: &str) -> (r: Option<&Json>)
        ensures
            opt_json(r) == lookup(self@, key@),
    {
        match self {
            Json::Object(m) => {
                proof {
                    lemma_object_view(*m);
                }
                let mut i: usize = 0;
                while i < m.len()
                    invariant
                        self@ == JsonV::Object(members_of(m@)),
                        i <= m@.len(),
                        member_from(members_of(m@), key@, 0) == member_from(members_of(m@), key@, i as int),
                    decreases m@.len() - i,
                {
                    if str_eq(m[i].0.as_str(), key) {
                        return Some(&m[i].1);
                    }
                    i = i + 1;
                }
                None
            },
            _ => None,
        }
    }

    /// The item `i` of an array.
    pub fn get_item(&self, i: usize) -> (r: Option<&Json>)
        ensures
            match r {
                Some(x) => item(self@, i as int) == x@ && self@ is Array && i < array_of(self@)->0.len(),
                None => item(self@, i as int) == JsonV::Null && !(self@ is Array && i < array_of(self@)->0.len()),
            },
    {
        match self {
            Json::Array(v) => {
                proof {
                    lemma_array_view(*v);
                }
                if i < v.len() {
                    Some(&v[i])
                } else {
                    None
                }
            },
            _ => None,
        }
    }

    /// `as_str`.
    pub fn as_str(&self) -> (r: Option<&String>)
        ensures
            match r {
                Some(s) => str_of(self@) == Some(s@),
                None => str_of(self@) is None,
            },
    {
        match self {
            Json::Str(s) => Some(s),
            _ => None,
        }
    }

    /// `as_array`.
    pub fn as_array(&self) -> (r: Option<&Vec<Json>>)
        ensures
            match r {
                Some(v) => array_of(self@) == Some(views_of(v@)),
                None => array_of(self@) is None,
            },
    {
        match self {
            Json::Array(v) => {
                proof {
                    lemma_array_view(*v);
                }
                Some(v)
            },
            _ => None,
        }
    }

    /// `is_object`.
    pub fn is_object(&self) -> (r: bool)
        ensures
            r == (self@ is Object),
    {
        match self {
            Json::Object(_) => true,
            _ => false,
        }
    }

    /// `as_u64`.
    pub fn as_u64(&self) -> (r: Option<u64>)
        ensures
            r == u64_of(self@),
    {
        match self {
            Json::Number(t) => {
                let mut value: u64 = 0;
                let mut any = false;
                for c in it: t.as_str().chars()
                    invariant
                        self@ == JsonV::Number(t@),
                        it.seq() == t@,
                        any == (it.index() > 0),
                        forall|j: int| 0 <= j < it.index() ==> '0' <= #[trigger] t@[j] && t@[j] <= '9',
                        value as nat == digits_value(t@.take(it.index() as int)),
                {
                    assert(t@.take(it.index() + 1).drop_last() =~= t@.take(it.index() as int));
                    assert(t@[it.index() as int] == c);
                    if c < '0' || c > '9' {
                        return None;
                    }
                    let d: u64 = ((c as u32) - ('0' as u32)) as u64;
                    if value > (u64::MAX - d) / 10 {
                        assert(value * 10 + d > u64::MAX) by (nonlinear_arith)
                            requires value > (u64::MAX - d) / 10, d <= 9;
                        proof {
                            lemma_digits_grow(t@, it.index() as int + 1);
                        }
                        return None;
                    }
                    assert(value * 10 + d <= u64::MAX) by (nonlinear_arith)
                        requires value <= (u64::MAX - d) / 10, d <= 9;
                    value = value * 10 + d;
                    any = true;
                }
                assert(t@.take(t@.len() as int) =~= t@);
                if any {
                    Some(value)
                } else {
                    None
                }
            },
            _ => None,
        }
    }

    /// A copy of the value, member for member.
    pub fn deep_clone(&self) -> (r: Json)
        ensures
            r@ == self@,
        decreases self,
    {
        match self {
            Json::Null => Json::Null,
            Json::Bool(b) => Json::Bool(*b),
            Json::Number(n) => Json::Number(owned(n.as_str())),
            Json::Str(s) => Json::Str(owned(s.as_str())),
            Json::Array(v) => {
                let mut out: Vec<Json> = Vec::new();
                let mut i: usize = 0;
                while i < v.len()
                    invariant
                        *self == Json::Array(*v),
                        i <= v@.len(),
                        out@.len() == i,
                        forall|j: int| 0 <= j < i ==> (#[trigger] out@[j])@ == v@[j]@,
                    decreases v@.len() - i,
                {
                    proof {
                        assert(decreases_to!(*self => (*self)->Array_0));
                        assert(decreases_to!(*v => v@));
                        assert(decreases_to!(v@ => v@[i as int]));
                    }
                    let c = v[i].deep_clone();
                    out.push(c);
                    i = i + 1;
                }
                proof {
                    lemma_array_view(*v);
                    lemma_array_view(out);
                    assert(views_of(out@) =~= views_of(v@));
                }
                Json::Array(out)
            },
            Json::Object(m) => {
                let mut out: Vec<(String, Json)> = Vec::new();
                let mut i: usize = 0;
                while i < m.len()
                    invariant
                        *self == Json::Object(*m),
                        i <= m@.len(),
                        out@.len() == i,
                        forall|j: int| 0 <= j < i ==> (#[trigger] out@[j]).0@ == m@[j].0@ && out@[j].1@ == m@[j].1@,
                    decreases m@.len() - i,
                {
                    proof {
                        assert(decreases_to!(*self => (*self)->Object_0));
                        assert(decreases_to!(*m => m@));
                        assert(decreases_to!(m@ => m@[i as int]));
                        assert(decreases_to!(m@[i as int] => m@[i as int].1));
                    }
                    let c = m[i].1.deep_clone();
                    out.push((owned(m[i].0.as_str()), c));
                    i = i + 1;
                }
                proof {
                    lemma_object_view(*m);
                    lemma_object_view(out);
                    assert(members_of(out@) =~= members_of(m@));
                }
                Json::Object(out)
            },
        }
    }
}

/// A longer digit text never has a smaller value.
pub proof fn lemma_digits_grow(s: Seq<char>, n: int)
    requires
        0 <= n <= s.len(),
        forall|i: int| 0 <= i < n ==> '0' <= #[trigger] s[i] && s[i] <= '9',
    ensures
        forall|k: int| n <= k <= s.len() && (forall|i: int| 0 <= i < k ==> '0' <= #[trigger] s[i] && s[i] <= '9')
            ==> digits_value(s.take(k)) >= digits_value(s.take(n)),
    decreases s.len() - n,
{
    assert forall|k: int| n <= k <= s.len() && (forall|i: int| 0 <= i < k ==> '0' <= #[trigger] s[i] && s[i] <= '9')
        implies digits_value(s.take(k)) >= digits_value(s.take(n)) by {
        lemma_digits_prefix(s, n, k);
    }
}

proof fn lemma_digits_prefix(s: Seq<char>, n: int, k: int)
    requires
        0 <= n <= k <= s.len(),
        forall|i: int| 0 <= i < k ==> '0' <= #[trigger] s[i] && s[i] <= '9',
    ensures
        digits_value(s.take(k)) >= digits_value(s.take(n)),
    decreases k - n,
{
    if k > n {
        lemma_digits_prefix(s, n, k - 1);
        assert(s.take(k).drop_last() =~= s.take(k - 1));
        let a = digits_value(s.take(k - 1));
        assert(a * 10 >= a) by (nonlinear_arith);
    }
}

/// The compact JSON text of a value: `null`, `true`, `false`, the number's text, a string
/// literal, `[items]` and `{"key":value}` separated by commas, members in their order.
pub open spec fn json_text_of(v: JsonV) -> Seq<char>
    decreases v, 0int,
{
    match v {
        JsonV::Null => "null"@,
        JsonV::Bool(b) => if b { "true"@ } else { "false"@ },
        JsonV::Number(t) => t,
        JsonV::Str(s) => json_string_literal(s),
        JsonV::Array(a) => "["@ + items_text(a, a.len() as int) + "]"@,
        JsonV::Object(m) => "{"@ + members_text(m, m.len() as int) + "}"@,
    }
}

/// The texts of the first `n` items, separated by commas.
pub open spec fn items_text(a: Seq<JsonV>, n: int) -> Seq<char>
    decreases a, n,
{
    if n <= 0 || n > a.len() {
        Seq::empty()
    } else if n == 1 {
        json_text_of(a[0])
    } else {
        items_text(a, n - 1) + ","@ + json_text_of(a[n - 1])
    }
}

/// The texts of the first `n` members, `"key":value`, separated by commas.
pub open spec fn members_text(m: Seq<(Seq<char>, JsonV)>, n: int) -> Seq<char>
    decreases m, n,
{
    if n <= 0 || n > m.len() {
        Seq::empty()
    } else {
        let member = json_string_literal(m[n - 1].0) + ":"@ + json_text_of(m[n - 1].1);
        if n == 1 {
            member
        } else {
            members_text(m, n - 1) + ","@ + member
        }
    }
}

/// The compact JSON text of a value.
pub fn json_text(j: &Json) -> (r: String)
    ensures
        r@ == json_text_of(j@),
    decreases j,
{
    match j {
        Json::Null => owned("null"),
        Json::Bool(b) => if *b { owned("true") } else { owned("false") },
        Json::Number(t) => owned(t.as_str()),
        Json::Str(s) => json_quote(s.as_str()),
        Json::Array(v) => {
            proof {
                lemma_array_view(*v);
            }
            let mut r = owned("[");
            let mut i: usize = 0;
            while i < v.len()
                invariant
                    *j == Json::Array(*v),
                    i <= v@.len(),
                    r@ == "["@ + items_text(views_of(v@), i as int),
                decreases v@.len() - i,
            {
                proof {
                    assert(decreases_to!(*j => (*j)->Array_0));
                    assert(decreases_to!(*v => v@));
                    assert(decreases_to!(v@ => v@[i as int]));
                }
                let t = json_text(&v[i]);
                if i > 0 {
                    push_str(&mut r, ",");
                }
                push_str(&mut r, t.as_str());
                i = i + 1;
            }
            push_str(&mut r, "]");
            r
        },
        Json::Object(m) => {
            proof {
                lemma_object_view(*m);
            }
            let mut r = owned("{");
            let mut i: usize = 0;
            while i < m.len()
                invariant
                    *j == Json::Object(*m),
                    i <= m@.len(),
                    r@ == "{"@ + members_text(members_of(m@), i as int),
                decreases m@.len() - i,
            {
                proof {
                    assert(decreases_to!(*j => (*j)->Object_0));
                    assert(decreases_to!(*m => m@));
                    assert(decreases_to!(m@ => m@[i as int]));
                    assert(decreases_to!(m@[i as int] => m@[i as int].1));
                }
                let k = json_quote(m[i].0.as_str());
                let t = json_text(&m[i].1);
                if i > 0 {
                    push_str(&mut r, ",");
                }
                push_str(&mut r, k.as_str());
                push_str(&mut r, ":");
                push_str(&mut r, t.as_str());
                i = i + 1;
            }
            push_str(&mut r, "}");
            r
        },
    }
}

/// A number written in decimal is read back as the same number.
pub proof fn lemma_decimal_read_back(n: nat)
    ensures
        all_digits(decimal(n)),
        digits_value(decimal(n)) == n,
    decreases n,
{
    let k = n % 10;
    assert(digit_char(k) as nat == 48 + k && '0' as nat == 48) by {
        assert(k < 10);
        if k == 0 {} else if k == 1 {} else if k == 2 {} else if k == 3 {} else if k == 4 {}
        else if k == 5 {} else if k == 6 {} else if k == 7 {} else if k == 8 {} else {}
    }
    if n < 10 {
        let e = decimal(n);
        assert(e.drop_last() =~= Seq::<char>::empty());
        assert(n % 10 == n);
        assert(digits_value(e) == digits_value(e.drop_last()) * 10 + ((e.last() as nat) - ('0' as nat)) as nat);
    }
    if n >= 10 {
        lemma_decimal_read_back(n / 10);
        assert((n / 10) * 10 + n % 10 == n) by (nonlinear_arith);
        let d = decimal(n / 10);
        let e = d.push(digit_char(n % 10));
        assert(e.drop_last() =~= d);
        assert forall|i: int| 0 <= i < e.len() implies '0' <= #[trigger] e[i] && e[i] <= '9' by {
            if i < d.len() {
                assert(e[i] == d[i]);
            }
        }
        assert(decimal(n) == e);
        assert(e.last() == digit_char(k));
        assert(digits_value(e) == digits_value(d) * 10 + ((e.last() as nat) - ('0' as nat)) as nat);
        assert(digits_value(d) == n / 10);
        assert(((e.last() as nat) - ('0' as nat)) as nat == k);
    }
}

} // verus!
