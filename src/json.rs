//! A plain model of JSON values, as the service sends and receives them.
use vstd::prelude::*;

verus! {

/// A JSON value. Numbers are kept as the text that wrote them, so that no
/// precision is lost in carrying them through.
#[derive(Debug)]
pub enum Json {
    Null,
    Bool(bool),
    Number(String),
    Str(String),
    Array(Vec<Json>),
    Object(Vec<(String, Json)>),
}

/// The mathematical model of a JSON value.
pub enum JsonView {
    Null,
    Bool(bool),
    Number(Seq<char>),
    Str(Seq<char>),
    Array(Seq<JsonView>),
    Object(Seq<(Seq<char>, JsonView)>),
}

impl View for Json {
    type V = JsonView;

    open spec fn view(&self) -> JsonView {
        json_view(*self)
    }
}

/// The model of a JSON value.
pub open spec fn json_view(v: Json) -> JsonView
    decreases v, 0int,
{
    match v {
        Json::Null => JsonView::Null,
        Json::Bool(b) => JsonView::Bool(b),
        Json::Number(t) => JsonView::Number(t@),
        Json::Str(s) => JsonView::Str(s@),
        Json::Array(items) => JsonView::Array(items_view(items, items.len() as int)),
        Json::Object(fields) => JsonView::Object(fields_view(fields, fields.len() as int)),
    }
}

/// The models of the first `n` items of an array.
pub open spec fn items_view(items: Vec<Json>, n: int) -> Seq<JsonView>
    decreases items, n,
{
    if n <= 0 || n > items.len() {
        Seq::empty()
    } else {
        items_view(items, n - 1).push(json_view(items[n - 1]))
    }
}

/// The models of the first `n` fields of an object.
pub open spec fn fields_view(fields: Vec<(String, Json)>, n: int) -> Seq<(Seq<char>, JsonView)>
    decreases fields, n,
{
    if n <= 0 || n > fields.len() {
        Seq::empty()
    } else {
        fields_view(fields, n - 1).push((fields[n - 1].0@, json_view(fields[n - 1].1)))
    }
}

/// The model of an array holds the model of each item, in order.
pub proof fn lemma_items_view(items: Vec<Json>, n: int)
    requires
        0 <= n <= items.len(),
    ensures
        items_view(items, n).len() == n,
        forall|j: int| 0 <= j < n ==> #[trigger] items_view(items, n)[j] == json_view(items[j]),
    decreases n,
{
    if n > 0 {
        lemma_items_view(items, n - 1);
    }
}

/// The model of an object holds each field's name and model, in order.
pub proof fn lemma_fields_view(fields: Vec<(String, Json)>, n: int)
    requires
        0 <= n <= fields.len(),
    ensures
        fields_view(fields, n).len() == n,
        forall|j: int|
            0 <= j < n ==> #[trigger] fields_view(fields, n)[j] == (
                fields[j].0@,
                json_view(fields[j].1),
            ),
    decreases n,
{
    if n > 0 {
        lemma_fields_view(fields, n - 1);
    }
}

/// A decimal digit.
pub open spec fn is_digit(c: char) -> bool {
    '0' <= c && c <= '9'
}

/// A nonempty run of decimal digits.
pub open spec fn all_digits(t: Seq<char>) -> bool {
    t.len() > 0 && forall|i: int| 0 <= i < t.len() ==> is_digit(#[trigger] t[i])
}

/// The value of a run of decimal digits.
pub open spec fn digits_value(t: Seq<char>) -> int
    decreases t.len(),
{
    if t.len() == 0 {
        0
    } else {
        10 * digits_value(t.drop_last()) + (t.last() as int - '0' as int)
    }
}

/// The integer that a number's text writes, where it writes one: digits,
/// after an optional minus sign.
pub open spec fn integer_of(t: Seq<char>) -> Option<int> {
    if all_digits(t) {
        Some(digits_value(t))
    } else if t.len() > 0 && t[0] == '-' && all_digits(t.drop_first()) {
        Some(-digits_value(t.drop_first()))
    } else {
        None
    }
}

/// The integer that a number's text writes, where it fits in an `i64`.
pub open spec fn i64_of(t: Seq<char>) -> Option<i64> {
    match integer_of(t) {
        Some(n) => if i64::MIN <= n <= i64::MAX {
            Some(n as i64)
        } else {
            None
        },
        None => None,
    }
}

proof fn lemma_digits_value_grows(t: Seq<char>, n: int)
    requires
        0 <= n <= t.len(),
        forall|i: int| 0 <= i < t.len() ==> is_digit(#[trigger] t[i]),
    ensures
        0 <= digits_value(t.subrange(0, n)) <= digits_value(t),
    decreases t.len(),
{
    if t.len() > 0 {
        let d = t.drop_last();
        assert forall|i: int| 0 <= i < d.len() implies is_digit(#[trigger] d[i]) by {
            assert(d[i] == t[i]);
        }
        if n == t.len() {
            assert(t.subrange(0, n) =~= t);
            lemma_digits_value_grows(d, d.len() as int);
            assert(d.subrange(0, d.len() as int) =~= d);
        } else {
            lemma_digits_value_grows(d, n);
            assert(d.subrange(0, n) =~= t.subrange(0, n));
        }
        assert(is_digit(t.last()));
    } else {
        assert(t.subrange(0, n) =~= t);
    }
}

/// Reads the integer that `t` writes, where it fits in an `i64`.
pub fn parse_i64(t: &str) -> (r: Option<i64>)
    ensures
        r == i64_of(t@),
{
    let len = t.unicode_len();
    let negative = len > 0 && t.get_char(0) == '-';
    let start: usize = if negative { 1 } else { 0 };
    let ghost digits = t@.subrange(start as int, len as int);
    if start >= len {
        proof {
            if negative {
                assert(t@.drop_first().len() == 0);
            }
        }
        return None;
    }
    let mut acc: u64 = 0;
    let mut i: usize = start;
    while i < len
        invariant
            start <= i <= len,
            len == t@.len(),
            negative == (t@.len() > 0 && t@[0] == '-'),
            start == (if negative { 1usize } else { 0usize }),
            start < len,
            digits == t@.subrange(start as int, len as int),
            forall|j: int| start <= j < i ==> is_digit(#[trigger] t@[j]),
            acc == digits_value(t@.subrange(start as int, i as int)),
            acc <= 9223372036854775808u64,
        decreases len - i,
    {
        let c = t.get_char(i);
        let ghost prefix = t@.subrange(start as int, i as int + 1);
        assert(prefix.drop_last() =~= t@.subrange(start as int, i as int));
        if c < '0' || c > '9' {
            proof {
                assert(!is_digit(digits[i - start]));
                assert(!is_digit(t@[i as int]));
                assert(!all_digits(t@));
                if negative {
                    assert(t@.drop_first() =~= digits);
                    assert(!all_digits(t@));
                }
            }
            return None;
        }
        let d = (c as u32 - '0' as u32) as u64;
        if acc > (9223372036854775808u64 - d) / 10 {
            proof {
                assert(negative ==> t@.drop_first() =~= digits);
                assert(!negative ==> digits =~= t@);
                assert(negative ==> !is_digit(t@[0]));
                if forall|j: int| 0 <= j < digits.len() ==> is_digit(#[trigger] digits[j]) {
                    assert(digits.subrange(0, i - start + 1) =~= prefix);
                    lemma_digits_value_grows(digits, i - start + 1);
                }
            }
            return None;
        }
        acc = acc * 10 + d;
        i = i + 1;
    }
    proof {
        assert(t@.subrange(start as int, i as int) =~= digits);
        assert(negative ==> t@.drop_first() =~= digits);
        assert(!negative ==> digits =~= t@);
        if !negative {
            assert(all_digits(t@));
        } else {
            assert(all_digits(t@.drop_first()));
            assert(!all_digits(t@));
        }
    }
    if negative {
        if acc == 9223372036854775808u64 {
            Some(i64::MIN)
        } else {
            Some(-(acc as i64))
        }
    } else if acc > 9223372036854775807u64 {
        None
    } else {
        Some(acc as i64)
    }
}

/// The position of the first field named `key`, looking from `start` on.
pub open spec fn find_from(fields: Seq<(Seq<char>, JsonView)>, key: Seq<char>, start: int) -> Option<int>
    decreases fields.len() - start,
{
    if start < 0 || start >= fields.len() {
        None
    } else if fields[start].0 == key {
        Some(start)
    } else {
        find_from(fields, key, start + 1)
    }
}

/// The value of the first field named `key` of an object; `None` for a
/// value that is no object or has no such field.
pub open spec fn member_of(v: JsonView, key: Seq<char>) -> Option<JsonView> {
    match v {
        JsonView::Object(fields) => match find_from(fields, key, 0) {
            Some(i) => Some(fields[i].1),
            None => None,
        },
        _ => None,
    }
}

/// The texts of an array whose items are all strings.
pub open spec fn strings_of(v: JsonView) -> Option<Seq<Seq<char>>> {
    match v {
        JsonView::Array(items) => if forall|i: int| 0 <= i < items.len() ==> #[trigger] items[i] is Str {
            Some(items.map_values(|x: JsonView| x->Str_0))
        } else {
            None
        },
        _ => None,
    }
}

/// The items of an array.
pub open spec fn items_of(v: JsonView) -> Option<Seq<JsonView>> {
    match v {
        JsonView::Array(items) => Some(items),
        _ => None,
    }
}

/// The text of the field `key` where it holds a string.
pub open spec fn str_member_of(v: JsonView, key: Seq<char>) -> Option<Seq<char>> {
    match member_of(v, key) {
        Some(JsonView::Str(s)) => Some(s),
        _ => None,
    }
}

impl Json {
    /// A copy of the value, equal to it in the model.
    pub fn duplicate(&self) -> (r: Json)
        ensures
            r@ == self@,
        decreases self,
    {
        match self {
            Json::Null => Json::Null,
            Json::Bool(b) => Json::Bool(*b),
            Json::Number(t) => Json::Number(t.clone()),
            Json::Str(s) => Json::Str(s.clone()),
            Json::Array(items) => {
                let mut out: Vec<Json> = Vec::new();
                let mut i: usize = 0;
                while i < items.len()
                    invariant
                        i <= items.len(),
                        *self == Json::Array(*items),
                        out.len() == i,
                        forall|j: int| 0 <= j < i ==> (#[trigger] out[j])@ == items[j]@,
                    decreases items.len() - i,
                {
                    proof {
                        assert(decreases_to!(*self => self->Array_0));
                        assert(decreases_to!(items => items[i as int]));
                    }
                    let item = items[i].duplicate();
                    out.push(item);
                    i = i + 1;
                }
                let r = Json::Array(out);
                proof {
                    lemma_items_view(out, out.len() as int);
                    lemma_items_view(*items, items.len() as int);
                    assert(items_view(out, out.len() as int) =~= items_view(*items, items.len() as int));
                }
                r
            },
            Json::Object(fields) => {
                let mut out: Vec<(String, Json)> = Vec::new();
                let mut i: usize = 0;
                while i < fields.len()
                    invariant
                        i <= fields.len(),
                        *self == Json::Object(*fields),
                        out.len() == i,
                        forall|j: int|
                            0 <= j < i ==> (#[trigger] out[j]).0@ == fields[j].0@ && out[j].1@
                                == fields[j].1@,
                    decreases fields.len() - i,
                {
                    proof {
                        assert(decreases_to!(*self => self->Object_0));
                        assert(decreases_to!(fields => fields[i as int]));
                        assert(decreases_to!(fields[i as int] => fields[i as int].1));
                    }
                    let value = fields[i].1.duplicate();
                    out.push((fields[i].0.clone(), value));
                    i = i + 1;
                }
                let r = Json::Object(out);
                proof {
                    lemma_fields_view(out, out.len() as int);
                    lemma_fields_view(*fields, fields.len() as int);
                    assert(fields_view(out, out.len() as int) =~= fields_view(*fields, fields.len() as int));
                }
                r
            },
        }
    }

    /// The text of a string value.
    pub fn as_text(&self) -> (r: Option<String>)
        ensures
            r matches Some(t) ==> self@ == JsonView::Str(t@),
            r is None ==> self@ !is Str,
    {
        match self {
            Json::Str(s) => Some(s.clone()),
            _ => None,
        }
    }

    /// A copy of the items of an array.
    pub fn items(&self) -> (r: Option<Vec<Json>>)
        ensures
            r matches Some(v) ==> items_of(self@) == Some(items_view(v, v.len() as int)),
            r is None ==> items_of(self@) is None,
    {
        match self {
            Json::Array(_) => match self.duplicate() {
                Json::Array(v) => Some(v),
                _ => None,
            },
            _ => None,
        }
    }

    /// The texts of an array of strings.
    pub fn strings(&self) -> (r: Option<Vec<String>>)
        ensures
            r matches Some(v) ==> strings_of(self@) == Some(v@.map_values(|t: String| t@)),
            r is None ==> strings_of(self@) is None,
    {
        match self {
            Json::Array(items) => {
                proof {
                    lemma_items_view(*items, items.len() as int);
                }
                let ghost iv = items_view(*items, items.len() as int);
                let mut out: Vec<String> = Vec::new();
                let mut i: usize = 0;
                while i < items.len()
                    invariant
                        i <= items.len(),
                        self@ == JsonView::Array(iv),
                        iv.len() == items.len(),
                        forall|j: int| 0 <= j < items.len() ==> #[trigger] iv[j] == items[j]@,
                        out.len() == i,
                        forall|j: int| 0 <= j < i ==> iv[j] == JsonView::Str((#[trigger] out[j])@),
                    decreases items.len() - i,
                {
                    match &items[i] {
                        Json::Str(t) => out.push(t.clone()),
                        _ => {
                            assert(iv[i as int] !is Str);
                            return None;
                        },
                    }
                    i = i + 1;
                }
                assert(forall|j: int| 0 <= j < iv.len() ==> #[trigger] iv[j] is Str) by {
                    assert forall|j: int| 0 <= j < iv.len() implies #[trigger] iv[j] is Str by {
                        assert(iv[j] == JsonView::Str(out[j]@));
                    }
                }
                assert(out@.map_values(|t: String| t@) =~= iv.map_values(|x: JsonView| x->Str_0));
                Some(out)
            },
            _ => None,
        }
    }

    /// The text of the first field named `key`, where it holds a string.
    pub fn text_member(&self, key: &str) -> (r: Option<String>)
        ensures
            r matches Some(t) ==> str_member_of(self@, key@) == Some(t@),
            r is None ==> str_member_of(self@, key@) is None,
    {
        match self.member(key) {
            Some(v) => v.as_text(),
            None => None,
        }
    }

    /// The value of the first field named `key`, where `self` is an object
    /// that has one.
    pub fn member(&self, key: &str) -> (r: Option<&Json>)
        ensures
            r matches Some(x) ==> member_of(self@, key@) == Some(x@),
            r is None ==> member_of(self@, key@) is None,
    {
        match self {
            Json::Object(fields) => {
                let k = String::from_str(key);
                let ghost fv = fields_view(*fields, fields.len() as int);
                proof {
                    lemma_fields_view(*fields, fields.len() as int);
                }
                let mut i: usize = 0;
                while i < fields.len()
                    invariant
                        i <= fields.len(),
                        fv.len() == fields.len(),
                        self@ == JsonView::Object(fv),
                        forall|j: int| 0 <= j < fields.len() ==> (#[trigger] fv[j]) == (fields[j].0@, fields[j].1@),
                        find_from(fv, key@, 0) == find_from(fv, key@, i as int),
                        k@ == key@,
                    decreases fields.len() - i,
                {
                    if fields[i].0 == k {
                        return Some(&fields[i].1);
                    }
                    i = i + 1;
                }
                None
            },
            _ => None,
        }
    }
}

} // verus!
