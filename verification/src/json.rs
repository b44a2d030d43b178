//! JSON values, and how they are read.

use vstd::prelude::*;

use crate::text;

verus! {

/// A JSON value. A number is kept as its text; an object keeps its members in order.
#[derive(Debug, PartialEq, Eq)]
pub enum Json {
    Null,
    Bool(bool),
    Number(String),
    Text(String),
    Array(Vec<Json>),
    Object(Vec<(String, Json)>),
}

/// The mathematical content of a [`Json`].
#[verifier::ext_equal]
pub enum JsonView {
    Null,
    Bool(bool),
    Number(Seq<char>),
    Text(Seq<char>),
    Array(Seq<JsonView>),
    Object(Seq<(Seq<char>, JsonView)>),
}

impl DeepView for Json {
    type V = JsonView;

    open spec fn deep_view(&self) -> JsonView
        decreases self,
    {
        match self {
            Json::Null => JsonView::Null,
            Json::Bool(b) => JsonView::Bool(*b),
            Json::Number(t) => JsonView::Number(t@),
            Json::Text(t) => JsonView::Text(t@),
            Json::Array(v) => JsonView::Array(
                Seq::new(
                    v@.len(),
                    |i: int|
                        if 0 <= i < v@.len() {
                            v@[i].deep_view()
                        } else {
                            JsonView::Null
                        },
                ),
            ),
            Json::Object(v) => JsonView::Object(
                Seq::<(Seq<char>, JsonView)>::new(
                    v@.len(),
                    |i: int|
                        (
                            v@[i].0@,
                            if 0 <= i < v@.len() {
                                v@[i].1.deep_view()
                            } else {
                                JsonView::Null
                            },
                        ),
                ),
            ),
        }
    }
}

/// The members of an object, each as its name and content.
pub open spec fn members(fields: Seq<(String, Json)>) -> Seq<(Seq<char>, JsonView)> {
    fields.map_values(|f: (String, Json)| (f.0@, f.1.deep_view()))
}

/// The first member with that name.
pub open spec fn find(fields: Seq<(Seq<char>, JsonView)>, name: Seq<char>) -> Option<JsonView>
    decreases fields.len(),
{
    if fields.len() == 0 {
        None
    } else if fields[0].0 == name {
        Some(fields[0].1)
    } else {
        find(fields.drop_first(), name)
    }
}

impl JsonView {
    /// The member of an object with that name; nothing for any other value.
    pub open spec fn get(self, name: Seq<char>) -> Option<JsonView> {
        match self {
            JsonView::Object(fields) => find(fields, name),
            _ => None,
        }
    }

    pub open spec fn as_str(self) -> Option<Seq<char>> {
        match self {
            JsonView::Text(t) => Some(t),
            _ => None,
        }
    }

    pub open spec fn as_bool(self) -> Option<bool> {
        match self {
            JsonView::Bool(b) => Some(b),
            _ => None,
        }
    }

    /// The value of an integer in the range of `i64`.
    pub open spec fn as_i64(self) -> Option<i64> {
        match self {
            JsonView::Number(t) => if exists|n: i64| t == #[trigger] text::integer(n as int) {
                Some(choose|n: i64| t == #[trigger] text::integer(n as int))
            } else {
                None
            },
            _ => None,
        }
    }

    /// The value of an integer in the range of `u64`.
    pub open spec fn as_u64(self) -> Option<u64> {
        match self {
            JsonView::Number(t) => if exists|n: u64| t == #[trigger] text::integer(n as int) {
                Some(choose|n: u64| t == #[trigger] text::integer(n as int))
            } else {
                None
            },
            _ => None,
        }
    }

    /// The text of a string member, or `default` where there is none.
    pub open spec fn str_or(self, name: Seq<char>, default: Seq<char>) -> Seq<char> {
        match self.get(name) {
            Some(JsonView::Text(t)) => t,
            _ => default,
        }
    }

    /// Whether a member is `true`.
    pub open spec fn is_true(self, name: Seq<char>) -> bool {
        self.get(name) == Some(JsonView::Bool(true))
    }

    /// The value of an integer member, or 0 where there is none.
    pub open spec fn i64_or_zero(self, name: Seq<char>) -> i64 {
        match self.get(name) {
            Some(v) => match v.as_i64() {
                Some(n) => n,
                None => 0,
            },
            None => 0,
        }
    }
}

/// How a value is read: a string is its text, a flag its value, and a member of an object is the
/// first of its name. Anything else is not there, and the default stands in for it.
pub proof fn lemma_readings(
    fields: Seq<(Seq<char>, JsonView)>,
    name: Seq<char>,
    t: Seq<char>,
    b: bool,
    default: Seq<char>,
    k: int,
)
    ensures
        JsonView::Text(t).as_str() == Some(t),
        JsonView::Bool(b).as_bool() == Some(b),
        JsonView::Null.as_str() is None,
        JsonView::Null.as_bool() is None,
        JsonView::Null.as_i64() is None,
        JsonView::Null.as_u64() is None,
        JsonView::Null.get(name) is None,
        JsonView::Text(t).get(name) is None,
        0 <= k < fields.len() && fields[k].0 == name && (forall|j: int|
            0 <= j < k ==> (#[trigger] fields[j]).0 != name) ==> JsonView::Object(fields).get(name)
            == Some(fields[k].1),
        (forall|j: int| 0 <= j < fields.len() ==> (#[trigger] fields[j]).0 != name)
            ==> JsonView::Object(fields).get(name) is None,
        ({
            let value = JsonView::Object(fields);
            &&& value.get(name) == Some(JsonView::Text(t)) ==> value.str_or(name, default) == t
            &&& value.get(name) is None ==> value.str_or(name, default) == default
            &&& value.get(name) == Some(JsonView::Null) ==> value.str_or(name, default) == default
            &&& value.is_true(name) <==> value.get(name) == Some(JsonView::Bool(true))
            &&& value.get(name) is None ==> value.i64_or_zero(name) == 0
        }),
    decreases fields.len(),
{
    if fields.len() > 0 && fields[0].0 != name {
        let rest = fields.drop_first();
        lemma_readings(rest, name, t, b, default, k - 1);
        if forall|j: int| 0 <= j < fields.len() ==> (#[trigger] fields[j]).0 != name {
            assert forall|j: int| 0 <= j < rest.len() implies (#[trigger] rest[j]).0 != name by {
                assert(rest[j] == fields[j + 1]);
            }
        }
        if 0 <= k < fields.len() && fields[k].0 == name && (forall|j: int|
            0 <= j < k ==> (#[trigger] fields[j]).0 != name) {
            assert(rest[k - 1] == fields[k]);
            assert forall|j: int| 0 <= j < k - 1 implies (#[trigger] rest[j]).0 != name by {
                assert(rest[j] == fields[j + 1]);
            }
        }
    }
}

/// An integer is read back from its own notation.
pub proof fn lemma_integer_reads_back(n: int)
    ensures
        i64::MIN <= n <= i64::MAX ==> JsonView::Number(text::integer(n)).as_i64() == Some(n as i64),
        0 <= n <= u64::MAX ==> JsonView::Number(text::integer(n)).as_u64() == Some(n as u64),
{
    let t: Seq<char> = text::integer(n);
    if i64::MIN <= n <= i64::MAX {
        assert(t == text::integer((n as i64) as int));
        let m: i64 = choose|m: i64| t == #[trigger] text::integer(m as int);
        text::lemma_integer_injective(n, m as int);
    }
    if 0 <= n <= u64::MAX {
        assert(t == text::integer((n as u64) as int));
        let m: u64 = choose|m: u64| t == #[trigger] text::integer(m as int);
        text::lemma_integer_injective(n, m as int);
    }
}

pub(crate) proof fn lemma_object_view(fields: Vec<(String, Json)>)
    ensures
        Json::Object(fields).deep_view() == JsonView::Object(members(fields@)),
{
    assert(Json::Object(fields).deep_view()->Object_0 =~= members(fields@));
}

pub(crate) proof fn lemma_array_view(items: Vec<Json>)
    ensures
        Json::Array(items).deep_view() == JsonView::Array(items.deep_view()),
{
    assert(Json::Array(items).deep_view()->Array_0 =~= items.deep_view());
}

proof fn lemma_find_from(fields: Seq<(Seq<char>, JsonView)>, name: Seq<char>, k: int)
    requires
        0 <= k < fields.len(),
        forall|j: int| 0 <= j < k ==> (#[trigger] fields[j]).0 != name,
        fields[k].0 == name,
    ensures
        find(fields, name) == Some(fields[k].1),
    decreases k,
{
    if k > 0 {
        assert(fields[0].0 != name);
        assert forall|j: int| 0 <= j < k - 1 implies (#[trigger] fields.drop_first()[j]).0
            != name by {
            assert(fields.drop_first()[j] == fields[j + 1]);
        }
        lemma_find_from(fields.drop_first(), name, k - 1);
    }
}

proof fn lemma_find_none(fields: Seq<(Seq<char>, JsonView)>, name: Seq<char>)
    requires
        forall|j: int| 0 <= j < fields.len() ==> (#[trigger] fields[j]).0 != name,
    ensures
        find(fields, name) is None,
    decreases fields.len(),
{
    if fields.len() > 0 {
        assert(fields[0].0 != name);
        assert forall|j: int| 0 <= j < fields.drop_first().len() implies (
        #[trigger] fields.drop_first()[j]).0 != name by {
            assert(fields.drop_first()[j] == fields[j + 1]);
        }
        lemma_find_none(fields.drop_first(), name);
    }
}

/// The position of the first member with that name.
fn position(fields: &Vec<(String, Json)>, name: &str) -> (r: Option<usize>)
    ensures
        match r {
            Some(k) => k < fields@.len() && find(members(fields@), name@) == Some(
                fields@[k as int].1.deep_view(),
            ),
            None => find(members(fields@), name@) is None,
        },
{
    let mut i: usize = 0;
    while i < fields.len()
        invariant
            i <= fields@.len(),
            forall|j: int| 0 <= j < i ==> (#[trigger] members(fields@)[j]).0 != name@,
        decreases fields@.len() - i,
    {
        assert(members(fields@)[i as int].0 == fields@[i as int].0@);
        if text::same_text(fields[i].0.as_str(), name) {
            proof {
                lemma_find_from(members(fields@), name@, i as int);
            }
            return Some(i);
        }
        i = i + 1;
    }
    proof {
        lemma_find_none(members(fields@), name@);
    }
    None
}

impl Json {
    /// A string value.
    pub fn text(s: &str) -> (r: Json)
        ensures
            r.deep_view() == JsonView::Text(s@),
    {
        Json::Text(s.to_owned())
    }

    /// A non-negative integer.
    pub fn number(n: u128) -> (r: Json)
        ensures
            r.deep_view() == JsonView::Number(text::decimal(n as nat)),
    {
        Json::Number(text::decimal_text(n))
    }

    /// An array.
    pub fn array(items: Vec<Json>) -> (r: Json)
        ensures
            r.deep_view() == JsonView::Array(items.deep_view()),
    {
        proof {
            lemma_array_view(items);
        }
        Json::Array(items)
    }

    /// An object.
    pub fn object(fields: Vec<(String, Json)>) -> (r: Json)
        ensures
            r.deep_view() == JsonView::Object(members(fields@)),
    {
        proof {
            lemma_object_view(fields);
        }
        Json::Object(fields)
    }

    /// The member of an object with that name.
    pub fn get(&self, name: &str) -> (r: Option<&Json>)
        ensures
            match r {
                Some(v) => self.deep_view().get(name@) == Some(v.deep_view()),
                None => self.deep_view().get(name@) is None,
            },
    {
        match self {
            Json::Object(fields) => {
                proof {
                    lemma_object_view(*fields);
                }
                match position(fields, name) {
                    Some(k) => Some(&fields[k].1),
                    None => None,
                }
            },
            _ => None,
        }
    }

    /// The member of an object with that name, by value.
    pub fn into_member(self, name: &str) -> (r: Option<Json>)
        ensures
            match r {
                Some(v) => self.deep_view().get(name@) == Some(v.deep_view()),
                None => self.deep_view().get(name@) is None,
            },
    {
        match self {
            Json::Object(fields) => {
                proof {
                    lemma_object_view(fields);
                }
                let mut fields: Vec<(String, Json)> = fields;
                match position(&fields, name) {
                    Some(k) => {
                        let member: (String, Json) = fields.remove(k);
                        Some(member.1)
                    },
                    None => None,
                }
            },
            _ => None,
        }
    }

    /// The items of an array.
    pub fn into_array(self) -> (r: Option<Vec<Json>>)
        ensures
            match r {
                Some(items) => self.deep_view() == JsonView::Array(items.deep_view()),
                None => !(self.deep_view() is Array),
            },
    {
        match self {
            Json::Array(items) => {
                proof {
                    lemma_array_view(items);
                }
                Some(items)
            },
            _ => None,
        }
    }

    /// The text of a string.
    pub fn as_str(&self) -> (r: Option<&str>)
        ensures
            match r {
                Some(t) => self.deep_view().as_str() == Some(t@),
                None => self.deep_view().as_str() is None,
            },
    {
        match self {
            Json::Text(t) => Some(t.as_str()),
            _ => None,
        }
    }

    /// The value of a boolean.
    pub fn as_bool(&self) -> (r: Option<bool>)
        ensures
            r == self.deep_view().as_bool(),
    {
        match self {
            Json::Bool(b) => Some(*b),
            _ => None,
        }
    }

    /// The value of an integer in the range of `i64`.
    pub fn as_i64(&self) -> (r: Option<i64>)
        ensures
            r == self.deep_view().as_i64(),
    {
        match self {
            Json::Number(t) => {
                let r: Option<i64> = text::parse_i64(t.as_str());
                proof {
                    if let Some(n) = r {
                        lemma_integer_reads_back(n as int);
                    }
                }
                r
            },
            _ => None,
        }
    }

    /// The value of an integer in the range of `u64`.
    pub fn as_u64(&self) -> (r: Option<u64>)
        ensures
            r == self.deep_view().as_u64(),
    {
        match self {
            Json::Number(t) => {
                let r: Option<u64> = text::parse_u64(t.as_str());
                proof {
                    if let Some(n) = r {
                        lemma_integer_reads_back(n as int);
                    }
                }
                r
            },
            _ => None,
        }
    }

    /// Whether the value is `null`.
    pub fn is_null(&self) -> (r: bool)
        ensures
            r == (self.deep_view() is Null),
    {
        matches!(self, Json::Null)
    }

    /// The text of a string member, or `default` where there is none.
    pub fn str_or(&self, name: &str, default: &str) -> (r: String)
        ensures
            r@ == self.deep_view().str_or(name@, default@),
    {
        match self.get(name) {
            Some(v) => match v.as_str() {
                Some(t) => t.to_owned(),
                None => default.to_owned(),
            },
            None => default.to_owned(),
        }
    }

    /// Whether a member is `true`.
    pub fn is_true(&self, name: &str) -> (r: bool)
        ensures
            r == self.deep_view().is_true(name@),
    {
        match self.get(name) {
            Some(v) => match v.as_bool() {
                Some(b) => b,
                None => false,
            },
            None => false,
        }
    }

    /// The value of an integer member, or 0 where there is none.
    pub fn i64_or_zero(&self, name: &str) -> (r: i64)
        ensures
            r == self.deep_view().i64_or_zero(name@),
    {
        match self.get(name) {
            Some(v) => match v.as_i64() {
                Some(n) => n,
                None => 0,
            },
            None => 0,
        }
    }
}

/// Appends a member to the fields of an object under construction.
pub fn push_field(fields: &mut Vec<(String, Json)>, name: &str, value: Json)
    ensures
        members(final(fields)@) == members(old(fields)@).push((name@, value.deep_view())),
{
    fields.push((name.to_owned(), value));
    assert(members(fields@) =~= members(old(fields)@).push((name@, value.deep_view())));
}

/// An object under construction, without members.
pub fn no_fields() -> (r: Vec<(String, Json)>)
    ensures
        members(r@) == Seq::<(Seq<char>, JsonView)>::empty(),
{
    let r: Vec<(String, Json)> = Vec::new();
    assert(members(r@) =~= Seq::<(Seq<char>, JsonView)>::empty());
    r
}

/// Appends an item to an array under construction.
pub fn push_item(items: &mut Vec<Json>, item: Json)
    ensures
        final(items).deep_view() == old(items).deep_view().push(item.deep_view()),
{
    items.push(item);
    assert(items.deep_view() =~= old(items).deep_view().push(item.deep_view()));
}

/// An array under construction, without items.
pub fn no_items() -> (r: Vec<Json>)
    ensures
        r.deep_view() == Seq::<JsonView>::empty(),
{
    let r: Vec<Json> = Vec::new();
    assert(r.deep_view() =~= Seq::<JsonView>::empty());
    r
}

/// A lower-case hexadecimal digit.
pub open spec fn hex_digit(d: int) -> char {
    if d < 10 {
        text::digit(d)
    } else {
        ('a' as int + (d - 10)) as char
    }
}

/// One character as it stands inside a JSON string: quote, backslash and the control characters
/// are escaped, every other character stands for itself.
pub open spec fn quoted_char(c: char) -> Seq<char> {
    let n: int = c as int;
    if c == '"' {
        seq!['\\', '"']
    } else if c == '\\' {
        seq!['\\', '\\']
    } else if n == 0x8 {
        seq!['\\', 'b']
    } else if n == 0x9 {
        seq!['\\', 't']
    } else if n == 0xA {
        seq!['\\', 'n']
    } else if n == 0xC {
        seq!['\\', 'f']
    } else if n == 0xD {
        seq!['\\', 'r']
    } else if n < 0x20 {
        seq!['\\', 'u', '0', '0', hex_digit(n / 16), hex_digit(n % 16)]
    } else {
        seq![c]
    }
}

/// The characters of `s` as they stand inside a JSON string.
pub open spec fn quoted_chars(s: Seq<char>) -> Seq<char>
    decreases s.len(),
{
    if s.len() == 0 {
        seq![]
    } else {
        quoted_chars(s.drop_last()) + quoted_char(s.last())
    }
}

/// `s` as a JSON string.
pub open spec fn quoted(s: Seq<char>) -> Seq<char> {
    seq!['"'] + quoted_chars(s) + seq!['"']
}

/// A text keeps to one line when it is quoted: no control character is left in it.
pub proof fn lemma_quoted_printable(s: Seq<char>)
    ensures
        forall|i: int| 0 <= i < quoted(s).len() ==> #[trigger] quoted(s)[i] as int >= 0x20,
{
    let inner = quoted_chars(s);
    lemma_quoted_chars_printable(s);
    assert forall|i: int| 0 <= i < quoted(s).len() implies #[trigger] quoted(s)[i] as int
        >= 0x20 by {
        if 0 < i <= inner.len() {
            assert(quoted(s)[i] == inner[i - 1]);
        }
    }
}

proof fn lemma_quoted_char_printable(c: char)
    ensures
        forall|i: int|
            0 <= i < quoted_char(c).len() ==> #[trigger] quoted_char(c)[i] as int >= 0x20,
{
    let n = c as int;
    if n < 0x20 {
        assert(0 <= n / 16 <= 1 && 0 <= n % 16 < 16);
    }
}

proof fn lemma_quoted_chars_printable(s: Seq<char>)
    ensures
        forall|i: int|
            0 <= i < quoted_chars(s).len() ==> #[trigger] quoted_chars(s)[i] as int >= 0x20,
    decreases s.len(),
{
    if s.len() > 0 {
        lemma_quoted_chars_printable(s.drop_last());
        let before = quoted_chars(s.drop_last());
        let last = quoted_char(s.last());
        lemma_quoted_char_printable(s.last());
        assert forall|i: int| 0 <= i < quoted_chars(s).len() implies #[trigger] quoted_chars(
            s,
        )[i] as int >= 0x20 by {
            if i < before.len() {
                assert(quoted_chars(s)[i] == before[i]);
            } else {
                assert(quoted_chars(s)[i] == last[i - before.len()]);
            }
        }
    }
}

/// Calls `serde_json::to_string` on a string, which writes it between quotes, escapes the quote,
/// the backslash and the control characters below the space, and never fails.
#[verifier::external_body]
pub(crate) fn quote(s: &str) -> (r: String)
    ensures
        r@ == quoted(s@),
{
    serde_json::to_string(s).unwrap_or_default()
}

/// A JSON value of `serde_json`.
#[verifier::external_type_specification]
#[verifier::external_body]
pub struct ExValue(serde_json::Value);

/// Makes a `serde_json::Value` of a value, variant for variant. A number that `serde_json` cannot
/// read becomes `null`, and of two members with one name the later stays. Nothing is promised of
/// the result.
#[verifier::external_body]
fn to_value(json: &Json) -> serde_json::Value {
    match json {
        Json::Null => serde_json::Value::Null,
        Json::Bool(b) => serde_json::Value::Bool(*b),
        Json::Number(t) => serde_json::from_str(t).unwrap_or_default(),
        Json::Text(t) => serde_json::Value::String(t.clone()),
        Json::Array(items) => items.iter().map(to_value).collect(),
        Json::Object(fields) => fields.iter().map(|f| (f.0.clone(), to_value(&f.1))).collect(),
    }
}

/// Makes a value of a `serde_json::Value`, variant for variant. Nothing is promised of the
/// result.
#[verifier::external_body]
fn from_value(value: serde_json::Value) -> Json {
    match value {
        serde_json::Value::Null => Json::Null,
        serde_json::Value::Bool(b) => Json::Bool(b),
        serde_json::Value::Number(n) => Json::Number(n.to_string()),
        serde_json::Value::String(s) => Json::Text(s),
        serde_json::Value::Array(a) => Json::Array(a.into_iter().map(from_value).collect()),
        serde_json::Value::Object(o) => Json::Object(
            o.into_iter().map(|(name, v)| (name, from_value(v))).collect(),
        ),
    }
}

/// What `serde_json::from_str` reads from a text; nothing where it is no JSON.
pub uninterp spec fn read_json(text: Seq<char>) -> Option<JsonView>;

/// What `serde_json::to_string_pretty` writes for a value.
pub uninterp spec fn pretty_text(value: JsonView) -> Seq<char>;

/// A value that is read back from its own text: its arrays and objects nest at most `room` deep,
/// no object has two members of one name, and its numbers are integers or are read back
/// themselves.
pub open spec fn readable_within(value: JsonView, room: nat) -> bool
    decreases room,
{
    match value {
        JsonView::Number(t) => {
            ||| value.as_i64() is Some
            ||| value.as_u64() is Some
            ||| read_json(t) == Some(value)
        },
        JsonView::Array(items) => room > 0 && forall|i: int|
            0 <= i < items.len() ==> readable_within(#[trigger] items[i], (room - 1) as nat),
        JsonView::Object(fields) => {
            &&& room > 0
            &&& forall|i: int, j: int|
                0 <= i < j < fields.len() ==> (#[trigger] fields[i]).0 != (#[trigger] fields[j]).0
            &&& forall|i: int|
                0 <= i < fields.len() ==> readable_within(
                    (#[trigger] fields[i]).1,
                    (room - 1) as nat,
                )
        },
        _ => true,
    }
}

/// A value that is read back from its own text: `serde_json` reads arrays and objects that nest
/// up to 127 deep.
pub open spec fn readable(value: JsonView) -> bool {
    readable_within(value, 127)
}

/// Two values are the same but for the order of the members of objects.
pub open spec fn alike(a: JsonView, b: JsonView) -> bool
    decreases a,
{
    match (a, b) {
        (JsonView::Array(x), JsonView::Array(y)) => x.len() == y.len() && forall|i: int|
            0 <= i < x.len() ==> alike(#[trigger] x[i], y[i]),
        (JsonView::Object(x), JsonView::Object(y)) => x.len() == y.len() && forall|i: int|
            0 <= i < x.len() ==> exists|j: int|
                0 <= j < y.len() && (#[trigger] y[j]).0 == (#[trigger] x[i]).0 && alike(
                    x[i].1,
                    y[j].1,
                ),
        _ => a == b,
    }
}

/// A text is read as a value, the order of members aside.
pub open spec fn reads_as(text: Seq<char>, value: JsonView) -> bool {
    match read_json(text) {
        Some(found) => alike(value, found),
        None => false,
    }
}

/// Calls `serde_json::to_string_pretty`; the result is named [`pretty_text`]. It never fails on
/// such a value, and `serde_json::from_str` reads it back as the same value, except where the
/// value nests too deep, names a member twice or holds a number that does not survive its own
/// text.
#[verifier::external_body]
pub(crate) fn pretty(value: &Json) -> (r: String)
    ensures
        r@ == pretty_text(value.deep_view()),
        readable(value.deep_view()) ==> reads_as(r@, value.deep_view()),
{
    serde_json::to_string_pretty(&to_value(value)).unwrap_or_default()
}

/// Calls `serde_json::from_str`; the result is named [`read_json`].
#[verifier::external_body]
pub(crate) fn parse(text: &str) -> (r: Option<Json>)
    ensures
        r.deep_view() == read_json(text@),
{
    serde_json::from_str(text).ok().map(from_value)
}

} // verus!
