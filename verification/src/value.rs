//! A TOML document tree held as plain values, with the lookups that the
//! configuration reader performs on it.
use vstd::prelude::*;

verus! {

/// The mathematical model of a TOML value.
///
/// A float is held by the bit pattern of its IEEE-754 binary64 encoding, and a
/// date-time by its TOML text.
pub enum TomlData {
    Str(Seq<char>),
    Int(i64),
    Float(u64),
    Bool(bool),
    Datetime(Seq<char>),
    Array(Seq<TomlData>),
    Table(Seq<(Seq<char>, TomlData)>),
}

/// A TOML value as the configuration reader sees it.
///
/// A table keeps its entries in the order in which the TOML parser lists them.
#[derive(Debug)]
pub enum TomlValue {
    String(String),
    Integer(i64),
    Float(u64),
    Boolean(bool),
    Datetime(String),
    Array(Vec<TomlValue>),
    Table(Vec<(String, TomlValue)>),
}

/// The model of a value.
pub open spec fn value_data(v: TomlValue) -> TomlData
    decreases v,
{
    match v {
        TomlValue::String(s) => TomlData::Str(s@),
        TomlValue::Integer(i) => TomlData::Int(i),
        TomlValue::Float(b) => TomlData::Float(b),
        TomlValue::Boolean(b) => TomlData::Bool(b),
        TomlValue::Datetime(s) => TomlData::Datetime(s@),
        TomlValue::Array(items) => TomlData::Array(items_data(items@)),
        TomlValue::Table(entries) => TomlData::Table(entries_data(entries@)),
    }
}

/// The models of a sequence of values, in order.
pub open spec fn items_data(items: Seq<TomlValue>) -> Seq<TomlData>
    decreases items,
{
    if items.len() == 0 {
        Seq::empty()
    } else {
        items_data(items.drop_last()).push(value_data(items.last()))
    }
}

/// The models of a sequence of table entries, in order.
pub open spec fn entries_data(entries: Seq<(String, TomlValue)>) -> Seq<(Seq<char>, TomlData)>
    decreases entries,
{
    if entries.len() == 0 {
        Seq::empty()
    } else {
        entries_data(entries.drop_last()).push(
            (entries.last().0@, value_data(entries.last().1)),
        )
    }
}

impl View for TomlValue {
    type V = TomlData;

    open spec fn view(&self) -> TomlData {
        value_data(*self)
    }
}

/// The value of the first entry whose key is `key`.
pub open spec fn lookup(entries: Seq<(Seq<char>, TomlData)>, key: Seq<char>) -> Option<TomlData>
    decreases entries.len(),
{
    if entries.len() == 0 {
        None
    } else if entries[0].0 == key {
        Some(entries[0].1)
    } else {
        lookup(entries.drop_first(), key)
    }
}

/// A lookup finds the value of the first entry with the key, and nothing only
/// where no entry has the key.
pub proof fn law_lookup_first(entries: Seq<(Seq<char>, TomlData)>, key: Seq<char>)
    ensures
        lookup(entries, key) matches Some(v) ==> exists|i: int|
            0 <= i < entries.len() && #[trigger] entries[i] == (key, v) && forall|j: int|
                0 <= j < i ==> #[trigger] entries[j].0 != key,
        lookup(entries, key) is None ==> forall|i: int|
            0 <= i < entries.len() ==> #[trigger] entries[i].0 != key,
    decreases entries.len(),
{
    if entries.len() > 0 {
        let rest = entries.drop_first();
        law_lookup_first(rest, key);
        if entries[0].0 == key {
            assert(entries[0] == (key, entries[0].1));
        } else {
            match lookup(rest, key) {
                Some(v) => {
                    let i = choose|i: int|
                        0 <= i < rest.len() && #[trigger] rest[i] == (key, v) && forall|j: int|
                            0 <= j < i ==> #[trigger] rest[j].0 != key;
                    assert(entries[i + 1] == rest[i]);
                    assert forall|j: int| 0 <= j < i + 1 implies #[trigger] entries[j].0 != key by {
                        if j > 0 {
                            assert(entries[j] == rest[j - 1]);
                        }
                    }
                },
                None => {
                    assert forall|i: int| 0 <= i < entries.len() implies #[trigger] entries[i].0
                        != key by {
                        if i > 0 {
                            assert(entries[i] == rest[i - 1]);
                        }
                    }
                },
            }
        }
    }
}

impl TomlData {
    /// What `value.get(key)` gives: the entry of a table, nothing for any other value.
    pub open spec fn get(self, key: Seq<char>) -> Option<TomlData> {
        match self {
            TomlData::Table(entries) => lookup(entries, key),
            _ => None,
        }
    }

    pub open spec fn as_str(self) -> Option<Seq<char>> {
        match self {
            TomlData::Str(s) => Some(s),
            _ => None,
        }
    }

    pub open spec fn as_integer(self) -> Option<i64> {
        match self {
            TomlData::Int(i) => Some(i),
            _ => None,
        }
    }

    pub open spec fn as_float_bits(self) -> Option<u64> {
        match self {
            TomlData::Float(b) => Some(b),
            _ => None,
        }
    }

    pub open spec fn as_bool(self) -> Option<bool> {
        match self {
            TomlData::Bool(b) => Some(b),
            _ => None,
        }
    }

    pub open spec fn as_array(self) -> Option<Seq<TomlData>> {
        match self {
            TomlData::Array(items) => Some(items),
            _ => None,
        }
    }

    pub open spec fn as_table(self) -> Option<Seq<(Seq<char>, TomlData)>> {
        match self {
            TomlData::Table(entries) => Some(entries),
            _ => None,
        }
    }
}

/// The string under `key`, if there is one and it is a string.
pub open spec fn str_at(v: TomlData, key: Seq<char>) -> Option<Seq<char>> {
    match v.get(key) {
        Some(x) => x.as_str(),
        None => None,
    }
}

/// The integer under `key`, if there is one and it is an integer.
pub open spec fn int_at(v: TomlData, key: Seq<char>) -> Option<i64> {
    match v.get(key) {
        Some(x) => x.as_integer(),
        None => None,
    }
}

/// The float (as its bit pattern) under `key`, if there is one and it is a float.
pub open spec fn float_at(v: TomlData, key: Seq<char>) -> Option<u64> {
    match v.get(key) {
        Some(x) => x.as_float_bits(),
        None => None,
    }
}

/// The boolean under `key`, if there is one and it is a boolean.
pub open spec fn bool_at(v: TomlData, key: Seq<char>) -> Option<bool> {
    match v.get(key) {
        Some(x) => x.as_bool(),
        None => None,
    }
}

/// The array under `key`, if there is one and it is an array.
pub open spec fn array_at(v: TomlData, key: Seq<char>) -> Option<Seq<TomlData>> {
    match v.get(key) {
        Some(x) => x.as_array(),
        None => None,
    }
}

/// The model of an optional string.
pub open spec fn opt_chars(o: Option<String>) -> Option<Seq<char>> {
    match o {
        Some(s) => Some(s@),
        None => None,
    }
}

/// The model of an optional borrowed value.
pub open spec fn opt_data(o: Option<&TomlValue>) -> Option<TomlData> {
    match o {
        Some(v) => Some(v@),
        None => None,
    }
}

proof fn lemma_lookup_skip(entries: Seq<(Seq<char>, TomlData)>, key: Seq<char>, i: int)
    requires
        0 <= i < entries.len(),
        entries[i].0 != key,
    ensures
        lookup(entries.skip(i), key) == lookup(entries.skip(i + 1), key),
{
    assert(entries.skip(i).drop_first() =~= entries.skip(i + 1));
}

/// The model of a sequence of values has one model per value, in order.
pub proof fn lemma_items_data(items: Seq<TomlValue>)
    ensures
        items_data(items).len() == items.len(),
        forall|i: int| 0 <= i < items.len() ==> #[trigger] items_data(items)[i] == items[i]@,
    decreases items.len(),
{
    if items.len() > 0 {
        lemma_items_data(items.drop_last());
    }
}

/// The model of a sequence of entries has one model per entry, in order.
pub proof fn lemma_entries_data(entries: Seq<(String, TomlValue)>)
    ensures
        entries_data(entries).len() == entries.len(),
        forall|i: int|
            0 <= i < entries.len() ==> #[trigger] entries_data(entries)[i] == (
                entries[i].0@,
                entries[i].1@,
            ),
    decreases entries.len(),
{
    if entries.len() > 0 {
        lemma_entries_data(entries.drop_last());
    }
}

proof fn lemma_item_smaller(v: TomlValue, i: int)
    requires
        v is Array,
        0 <= i < v->Array_0@.len(),
    ensures
        decreases_to!(v => v->Array_0@[i]),
{
    let items = v->Array_0;
    assert(decreases_to!(v => items));
    assert(decreases_to!(items => items@));
    assert(decreases_to!(items@ => items@[i]));
}

proof fn lemma_entry_smaller(v: TomlValue, i: int)
    requires
        v is Table,
        0 <= i < v->Table_0@.len(),
    ensures
        decreases_to!(v => v->Table_0@[i].1),
{
    let entries = v->Table_0;
    assert(decreases_to!(v => entries));
    assert(decreases_to!(entries => entries@));
    assert(decreases_to!(entries@ => entries@[i]));
    assert(decreases_to!(entries@[i] => entries@[i].1));
}

impl TomlValue {
    /// Looks `key` up in a table; any other value has no entries.
    pub fn get(&self, key: &str) -> (r: Option<&TomlValue>)
        ensures
            opt_data(r) == self@.get(key@),
    {
        match self {
            TomlValue::Table(entries) => {
                proof {
                    lemma_entries_data(entries@);
                }
                let ghost model = entries_data(entries@);
                let wanted = String::from_str(key);
                let mut i: usize = 0;
                proof {
                    assert(model.skip(0) =~= model);
                }
                while i < entries.len()
                    invariant
                        0 <= i <= entries@.len(),
                        model == entries_data(entries@),
                        self@ == TomlData::Table(model),
                        model.len() == entries@.len(),
                        forall|j: int|
                            0 <= j < entries@.len() ==> #[trigger] model[j] == (
                                entries@[j].0@,
                                entries@[j].1@,
                            ),
                        wanted@ == key@,
                        lookup(model, key@) == lookup(model.skip(i as int), key@),
                    decreases entries@.len() - i,
                {
                    if entries[i].0 == wanted {
                        proof {
                            assert(model.skip(i as int)[0] == model[i as int]);
                        }
                        return Some(&entries[i].1);
                    }
                    proof {
                        lemma_lookup_skip(model, key@, i as int);
                    }
                    i = i + 1;
                }
                proof {
                    assert(model.skip(i as int).len() == 0);
                }
                None
            },
            _ => None,
        }
    }

    pub fn as_str(&self) -> (r: Option<&String>)
        ensures
            match r {
                Some(s) => self@.as_str() == Some(s@),
                None => self@.as_str() is None,
            },
    {
        match self {
            TomlValue::String(s) => Some(s),
            _ => None,
        }
    }

    pub fn as_integer(&self) -> (r: Option<i64>)
        ensures
            r == self@.as_integer(),
    {
        match self {
            TomlValue::Integer(i) => Some(*i),
            _ => None,
        }
    }

    pub fn as_float_bits(&self) -> (r: Option<u64>)
        ensures
            r == self@.as_float_bits(),
    {
        match self {
            TomlValue::Float(b) => Some(*b),
            _ => None,
        }
    }

    pub fn as_bool(&self) -> (r: Option<bool>)
        ensures
            r == self@.as_bool(),
    {
        match self {
            TomlValue::Boolean(b) => Some(*b),
            _ => None,
        }
    }

    pub fn as_array(&self) -> (r: Option<&Vec<TomlValue>>)
        ensures
            match r {
                Some(items) => self@.as_array() == Some(items_data(items@)),
                None => self@.as_array() is None,
            },
    {
        match self {
            TomlValue::Array(items) => {
                Some(items)
            },
            _ => None,
        }
    }

    pub fn as_table(&self) -> (r: Option<&Vec<(String, TomlValue)>>)
        ensures
            match r {
                Some(entries) => self@.as_table() == Some(entries_data(entries@)),
                None => self@.as_table() is None,
            },
    {
        match self {
            TomlValue::Table(entries) => {
                Some(entries)
            },
            _ => None,
        }
    }

    /// A copy of the value, deep through arrays and tables.
    pub fn duplicate(&self) -> (r: TomlValue)
        ensures
            r@ == self@,
        decreases self,
    {
        match self {
            TomlValue::String(s) => TomlValue::String(s.clone()),
            TomlValue::Integer(i) => TomlValue::Integer(*i),
            TomlValue::Float(b) => TomlValue::Float(*b),
            TomlValue::Boolean(b) => TomlValue::Boolean(*b),
            TomlValue::Datetime(s) => TomlValue::Datetime(s.clone()),
            TomlValue::Array(items) => {
                let mut out: Vec<TomlValue> = Vec::new();
                let mut i: usize = 0;
                while i < items.len()
                    invariant
                        0 <= i <= items@.len(),
                        out@.len() == i,
                        *self == TomlValue::Array(*items),
                        forall|j: int| 0 <= j < i ==> #[trigger] out@[j]@ == items@[j]@,
                    decreases items@.len() - i,
                {
                    proof {
                        lemma_item_smaller(*self, i as int);
                    }
                    let item = items[i].duplicate();
                    out.push(item);
                    i = i + 1;
                }
                let r = TomlValue::Array(out);
                proof {
                    lemma_items_data(out@);
                    lemma_items_data(items@);
                    assert(items_data(out@) =~= items_data(items@));
                }
                r
            },
            TomlValue::Table(entries) => {
                let mut out: Vec<(String, TomlValue)> = Vec::new();
                let mut i: usize = 0;
                while i < entries.len()
                    invariant
                        0 <= i <= entries@.len(),
                        out@.len() == i,
                        *self == TomlValue::Table(*entries),
                        forall|j: int|
                            0 <= j < i ==> #[trigger] out@[j].0@ == entries@[j].0@ && out@[j].1@
                                == entries@[j].1@,
                    decreases entries@.len() - i,
                {
                    let key = entries[i].0.clone();
                    proof {
                        lemma_entry_smaller(*self, i as int);
                    }
                    let value = entries[i].1.duplicate();
                    out.push((key, value));
                    i = i + 1;
                }
                let r = TomlValue::Table(out);
                proof {
                    lemma_entries_data(out@);
                    lemma_entries_data(entries@);
                    assert(entries_data(out@) =~= entries_data(entries@));
                }
                r
            },
        }
    }

    /// The string under `key`, copied.
    pub fn str_at(&self, key: &str) -> (r: Option<String>)
        ensures
            opt_chars(r) == str_at(self@, key@),
    {
        match self.get(key) {
            Some(v) => match v.as_str() {
                Some(s) => Some(s.clone()),
                None => None,
            },
            None => None,
        }
    }

    /// The integer under `key`.
    pub fn int_at(&self, key: &str) -> (r: Option<i64>)
        ensures
            r == int_at(self@, key@),
    {
        match self.get(key) {
            Some(v) => v.as_integer(),
            None => None,
        }
    }

    /// The float under `key`, as its bit pattern.
    pub fn float_at(&self, key: &str) -> (r: Option<u64>)
        ensures
            r == float_at(self@, key@),
    {
        match self.get(key) {
            Some(v) => v.as_float_bits(),
            None => None,
        }
    }

    /// The boolean under `key`.
    pub fn bool_at(&self, key: &str) -> (r: Option<bool>)
        ensures
            r == bool_at(self@, key@),
    {
        match self.get(key) {
            Some(v) => v.as_bool(),
            None => None,
        }
    }

    /// The array under `key`.
    pub fn array_at(&self, key: &str) -> (r: Option<&Vec<TomlValue>>)
        ensures
            match r {
                Some(items) => array_at(self@, key@) == Some(items_data(items@)),
                None => array_at(self@, key@) is None,
            },
    {
        match self.get(key) {
            Some(v) => v.as_array(),
            None => None,
        }
    }
}

/// Declares the TOML crate's value type, which the parser hands back.
#[verifier::external_type_specification]
#[verifier::external_body]
pub struct ExTomlCrateValue(toml::Value);

/// The document that the `toml` crate reads from a text, or nothing where the
/// text is not a TOML document.
pub uninterp spec fn toml_document(text: Seq<char>) -> Option<TomlData>;

/// The `toml` crate's report (the `Display` of its `de::Error`) of why a text is
/// not a TOML document.
pub uninterp spec fn toml_error_text(text: Seq<char>) -> Seq<char>;

/// Reads a TOML document with `str::parse::<toml::Value>` (the `toml` crate's
/// `FromStr` for `Value`, which parses a whole document); where that fails, the
/// crate's error is rendered with `to_string`.
///
/// Trusted: the result is the named document of the text (`toml_document`), and
/// a failure carries the named report (`toml_error_text`), so that the same text
/// always gives the same answer; what the tree or the report is, for a given
/// text, is left to the `toml` crate and not stated here.
#[verifier::external_body]
pub(crate) fn parse_toml_text(text: &str) -> (r: Result<TomlValue, String>)
    ensures
        match r {
            Ok(v) => toml_document(text@) == Some(v@),
            Err(m) => toml_document(text@) is None && m@ == toml_error_text(text@),
        },
{
    match text.parse::<toml::Value>() {
        Ok(v) => Ok(from_toml_crate(v)),
        Err(e) => Err(e.to_string()),
    }
}

/// Turns the `toml` crate's value into a `TomlValue`, variant for variant, keeping
/// the order in which the crate lists a table's entries. Used by `parse_toml_text`
/// alone, whose contract covers it.
#[verifier::external_body]
fn from_toml_crate(v: toml::Value) -> TomlValue {
    match v {
        toml::Value::String(s) => TomlValue::String(s),
        toml::Value::Integer(i) => TomlValue::Integer(i),
        toml::Value::Float(f) => TomlValue::Float(f.to_bits()),
        toml::Value::Boolean(b) => TomlValue::Boolean(b),
        toml::Value::Datetime(d) => TomlValue::Datetime(d.to_string()),
        toml::Value::Array(a) => TomlValue::Array(a.into_iter().map(from_toml_crate).collect()),
        toml::Value::Table(t) => TomlValue::Table(
            t.into_iter().map(|(k, x)| (k, from_toml_crate(x))).collect(),
        ),
    }
}

} // verus!
