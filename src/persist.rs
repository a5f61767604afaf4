//! Persisted state as TOML documents: the tables of the `toml` crate, read and
//! written field by field.
//!
//! Reading ignores keys it does not know. A missing field, or one that holds a
//! value of the wrong kind, makes the whole document unusable; callers then
//! fall back to a fresh default state.
use vstd::prelude::*;
use crate::config::{flag_map, names_unique};
use crate::syssound::text_map;

verus! {

/// A TOML table: keys with their values.
pub type TomlTable = toml::map::Map<String, toml::Value>;

#[verifier::external_type_specification]
#[verifier::external_body]
#[verifier::reject_recursive_types(K)]
#[verifier::reject_recursive_types(V)]
pub struct ExTomlMap<K, V>(toml::map::Map<K, V>);

#[verifier::external_type_specification]
#[verifier::external_body]
pub struct ExTomlValue(toml::Value);

#[verifier::external_type_specification]
#[verifier::external_body]
pub struct ExTomlSerError(toml::ser::Error);

#[verifier::external_type_specification]
#[verifier::external_body]
pub struct ExTomlDeError(toml::de::Error);

/// The keys of a table.
pub uninterp spec fn toml_keys(t: TomlTable) -> Set<Seq<char>>;

/// The keys of a table that hold integers, with their values.
pub uninterp spec fn toml_ints(t: TomlTable) -> Map<Seq<char>, int>;

/// The keys of a table that hold booleans, with their values.
pub uninterp spec fn toml_bools(t: TomlTable) -> Map<Seq<char>, bool>;

/// The keys of a table that hold strings, with their values.
pub uninterp spec fn toml_strs(t: TomlTable) -> Map<Seq<char>, Seq<char>>;

/// The keys of a table that hold tables, with their values.
pub uninterp spec fn toml_tables(t: TomlTable) -> Map<Seq<char>, TomlTable>;

/// Every key that holds a value of one of the kinds above is a key of the table.
pub open spec fn toml_model_ok(t: TomlTable) -> bool {
    &&& toml_ints(t).dom().subset_of(toml_keys(t))
    &&& toml_bools(t).dom().subset_of(toml_keys(t))
    &&& toml_strs(t).dom().subset_of(toml_keys(t))
    &&& toml_tables(t).dom().subset_of(toml_keys(t))
}

/// A value to store in a table.
pub enum TomlValue {
    Integer(i64),
    Boolean(bool),
    Text(String),
    Table(TomlTable),
}

/// A value found in a table; `Other` stands for the kinds this crate never
/// writes (floats, dates, arrays).
pub enum TomlItem<'a> {
    Integer(i64),
    Boolean(bool),
    Text(&'a String),
    Table(&'a TomlTable),
    Other,
}

/// Why a state could not be written or read.
#[derive(Clone, Copy, Debug, PartialEq, Eq, Structural)]
pub enum PersistError {
    /// The TOML serializer refused the document.
    Serialize,
    /// The text is not a TOML document.
    Deserialize,
    /// A field is missing or holds a value of the wrong kind.
    BadField,
    /// A number does not fit in a TOML integer.
    ValueOutOfRange,
}

/// Whether `r` is what looking up `k` in `t` finds.
pub open spec fn item_agrees(t: TomlTable, k: Seq<char>, r: Option<TomlItem>) -> bool {
    &&& (r is None <==> !toml_keys(t).contains(k))
    &&& (r matches Some(TomlItem::Integer(_)) <==> toml_ints(t).contains_key(k))
    &&& (r matches Some(TomlItem::Boolean(_)) <==> toml_bools(t).contains_key(k))
    &&& (r matches Some(TomlItem::Text(_)) <==> toml_strs(t).contains_key(k))
    &&& (r matches Some(TomlItem::Table(_)) <==> toml_tables(t).contains_key(k))
    &&& (r matches Some(TomlItem::Integer(i)) ==> toml_ints(t)[k] == i)
    &&& (r matches Some(TomlItem::Boolean(b)) ==> toml_bools(t)[k] == b)
    &&& (r matches Some(TomlItem::Text(s)) ==> toml_strs(t)[k] == s@)
    &&& (r matches Some(TomlItem::Table(x)) ==> toml_tables(t)[k] == *x && toml_model_ok(*x))
}

/// Relies on `toml::map::Map::new`: an empty table.
#[verifier::external_body]
pub(crate) fn table_new() -> (r: TomlTable)
    ensures
        toml_keys(r) == Set::<Seq<char>>::empty(),
        toml_ints(r).dom() == Set::<Seq<char>>::empty(),
        toml_bools(r).dom() == Set::<Seq<char>>::empty(),
        toml_strs(r).dom() == Set::<Seq<char>>::empty(),
        toml_tables(r).dom() == Set::<Seq<char>>::empty(),
{
    toml::map::Map::new()
}

/// Relies on `toml::map::Map::insert`: the key now holds the value, replacing
/// whatever it held; the other keys are untouched.
#[verifier::external_body]
pub(crate) fn table_insert(t: &mut TomlTable, key: String, value: TomlValue)
    ensures
        toml_keys(*final(t)) == toml_keys(*old(t)).insert(key@),
        toml_ints(*final(t)) == match value {
            TomlValue::Integer(i) => toml_ints(*old(t)).insert(key@, i as int),
            _ => toml_ints(*old(t)).remove(key@),
        },
        toml_bools(*final(t)) == match value {
            TomlValue::Boolean(b) => toml_bools(*old(t)).insert(key@, b),
            _ => toml_bools(*old(t)).remove(key@),
        },
        toml_strs(*final(t)) == match value {
            TomlValue::Text(s) => toml_strs(*old(t)).insert(key@, s@),
            _ => toml_strs(*old(t)).remove(key@),
        },
        toml_tables(*final(t)) == match value {
            TomlValue::Table(x) => toml_tables(*old(t)).insert(key@, x),
            _ => toml_tables(*old(t)).remove(key@),
        },
{
    let v = match value {
        TomlValue::Integer(i) => toml::Value::Integer(i),
        TomlValue::Boolean(b) => toml::Value::Boolean(b),
        TomlValue::Text(s) => toml::Value::String(s),
        TomlValue::Table(x) => toml::Value::Table(x),
    };
    t.insert(key, v);
}

/// Relies on `toml::map::Map::get`: the value the key holds, if any.
#[verifier::external_body]
pub(crate) fn table_get<'a>(t: &'a TomlTable, key: &str) -> (r: Option<TomlItem<'a>>)
    ensures
        item_agrees(*t, key@, r),
{
    match t.get(key) {
        None => None,
        Some(toml::Value::Integer(i)) => Some(TomlItem::Integer(*i)),
        Some(toml::Value::Boolean(b)) => Some(TomlItem::Boolean(*b)),
        Some(toml::Value::String(s)) => Some(TomlItem::Text(s)),
        Some(toml::Value::Table(x)) => Some(TomlItem::Table(x)),
        Some(_) => Some(TomlItem::Other),
    }
}

/// Relies on `toml::map::Map::keys`: each key of the table once.
#[verifier::external_body]
pub(crate) fn table_keys(t: &TomlTable) -> (r: Vec<String>)
    ensures
        forall|i: int, j: int| 0 <= i < j < r@.len() ==> r@[i]@ != r@[j]@,
        forall|k: Seq<char>|
            toml_keys(*t).contains(k) <==> exists|i: int| 0 <= i < r@.len() && r@[i]@ == k,
{
    t.keys().cloned().collect()
}

/// What `toml::to_string` makes of a table: its text, or `None` where it fails.
pub uninterp spec fn toml_text_of(t: TomlTable) -> Option<Seq<char>>;

/// What `toml::from_str` makes of a text: the table, or `None` where it fails.
pub uninterp spec fn toml_table_of(s: Seq<char>) -> Option<TomlTable>;

/// Relies on `toml::to_string` on a table; the outcome depends on the table alone.
#[verifier::external_body]
pub(crate) fn table_to_text(t: &TomlTable) -> (r: Result<String, toml::ser::Error>)
    ensures
        match toml_text_of(*t) {
            Some(s) => r matches Ok(x) && x@ == s,
            None => r is Err,
        },
{
    toml::to_string(t)
}

/// Relies on `toml::from_str` parsing a document into a table; the outcome
/// depends on the text alone.
#[verifier::external_body]
pub(crate) fn text_to_table(s: &str) -> (r: Result<TomlTable, toml::de::Error>)
    ensures
        match toml_table_of(s@) {
            Some(t) => r matches Ok(x) && x == t,
            None => r is Err,
        },
        r matches Ok(t) ==> toml_model_ok(t),
{
    toml::from_str(s)
}

/// Renders a table as TOML text.
pub fn render(t: &TomlTable) -> (r: Result<String, PersistError>)
    ensures
        match toml_text_of(*t) {
            Some(s) => r matches Ok(x) && x@ == s,
            None => r == Err::<String, PersistError>(PersistError::Serialize),
        },
{
    match table_to_text(t) {
        Ok(s) => Ok(s),
        Err(_) => Err(PersistError::Serialize),
    }
}

/// Parses TOML text into a table.
pub fn parse(s: &str) -> (r: Result<TomlTable, PersistError>)
    ensures
        match toml_table_of(s@) {
            Some(t) => r == Ok::<TomlTable, PersistError>(t) && toml_model_ok(t),
            None => r == Err::<TomlTable, PersistError>(PersistError::Deserialize),
        },
{
    match text_to_table(s) {
        Ok(t) => Ok(t),
        Err(_) => Err(PersistError::Deserialize),
    }
}

pub open spec fn bool_at(t: TomlTable, k: Seq<char>) -> Option<bool> {
    if toml_bools(t).contains_key(k) {
        Some(toml_bools(t)[k])
    } else {
        None
    }
}

pub open spec fn u64_at(t: TomlTable, k: Seq<char>) -> Option<u64> {
    if toml_ints(t).contains_key(k) && 0 <= toml_ints(t)[k] <= u64::MAX {
        Some(toml_ints(t)[k] as u64)
    } else {
        None
    }
}

pub open spec fn u32_at(t: TomlTable, k: Seq<char>) -> Option<u32> {
    if toml_ints(t).contains_key(k) && 0 <= toml_ints(t)[k] <= u32::MAX {
        Some(toml_ints(t)[k] as u32)
    } else {
        None
    }
}

pub open spec fn u8_at(t: TomlTable, k: Seq<char>) -> Option<u8> {
    if toml_ints(t).contains_key(k) && 0 <= toml_ints(t)[k] <= u8::MAX {
        Some(toml_ints(t)[k] as u8)
    } else {
        None
    }
}

pub open spec fn str_at(t: TomlTable, k: Seq<char>) -> Option<Seq<char>> {
    if toml_strs(t).contains_key(k) {
        Some(toml_strs(t)[k])
    } else {
        None
    }
}

/// A nested table whose every key holds a boolean.
pub open spec fn flags_at(t: TomlTable, k: Seq<char>) -> Option<Map<Seq<char>, bool>> {
    if toml_tables(t).contains_key(k) && toml_model_ok(toml_tables(t)[k]) && toml_keys(
        toml_tables(t)[k],
    ) == toml_bools(toml_tables(t)[k]).dom() {
        Some(toml_bools(toml_tables(t)[k]))
    } else {
        None
    }
}

/// A nested table whose every key holds a string.
pub open spec fn texts_at(t: TomlTable, k: Seq<char>) -> Option<Map<Seq<char>, Seq<char>>> {
    if toml_tables(t).contains_key(k) && toml_model_ok(toml_tables(t)[k]) && toml_keys(
        toml_tables(t)[k],
    ) == toml_strs(toml_tables(t)[k]).dom() {
        Some(toml_strs(toml_tables(t)[k]))
    } else {
        None
    }
}

/// Storing under `k` leaves every other key as it was.
pub open spec fn same_except(a: TomlTable, b: TomlTable, k: Seq<char>) -> bool {
    &&& toml_keys(b) == toml_keys(a).insert(k)
    &&& forall|j: Seq<char>| j != k ==> #[trigger] bool_at(b, j) == bool_at(a, j)
    &&& forall|j: Seq<char>| j != k ==> #[trigger] u64_at(b, j) == u64_at(a, j)
    &&& forall|j: Seq<char>| j != k ==> #[trigger] u32_at(b, j) == u32_at(a, j)
    &&& forall|j: Seq<char>| j != k ==> #[trigger] u8_at(b, j) == u8_at(a, j)
    &&& forall|j: Seq<char>| j != k ==> #[trigger] str_at(b, j) == str_at(a, j)
    &&& forall|j: Seq<char>| j != k ==> #[trigger] flags_at(b, j) == flags_at(a, j)
    &&& forall|j: Seq<char>| j != k ==> #[trigger] texts_at(b, j) == texts_at(a, j)
}

pub fn put_bool(t: &mut TomlTable, key: &str, b: bool)
    requires
        toml_model_ok(*old(t)),
    ensures
        toml_model_ok(*final(t)),
        same_except(*old(t), *final(t), key@),
        bool_at(*final(t), key@) == Some(b),
{
    table_insert(t, String::from_str(key), TomlValue::Boolean(b));
}

pub fn put_u64(t: &mut TomlTable, key: &str, v: u64) -> (r: Result<(), PersistError>)
    requires
        toml_model_ok(*old(t)),
    ensures
        r is Ok <==> v <= i64::MAX,
        r is Err ==> r == Err::<(), PersistError>(PersistError::ValueOutOfRange),
        toml_model_ok(*final(t)),
        r is Ok ==> same_except(*old(t), *final(t), key@) && u64_at(*final(t), key@) == Some(v),
{
    if v > i64::MAX as u64 {
        return Err(PersistError::ValueOutOfRange);
    }
    table_insert(t, String::from_str(key), TomlValue::Integer(v as i64));
    Ok(())
}

pub fn put_u32(t: &mut TomlTable, key: &str, v: u32)
    requires
        toml_model_ok(*old(t)),
    ensures
        toml_model_ok(*final(t)),
        same_except(*old(t), *final(t), key@),
        u32_at(*final(t), key@) == Some(v),
        u64_at(*final(t), key@) == Some(v as u64),
{
    table_insert(t, String::from_str(key), TomlValue::Integer(v as i64));
}

pub fn put_u8(t: &mut TomlTable, key: &str, v: u8)
    requires
        toml_model_ok(*old(t)),
    ensures
        toml_model_ok(*final(t)),
        same_except(*old(t), *final(t), key@),
        u8_at(*final(t), key@) == Some(v),
{
    table_insert(t, String::from_str(key), TomlValue::Integer(v as i64));
}

pub fn put_str(t: &mut TomlTable, key: &str, s: &String)
    requires
        toml_model_ok(*old(t)),
    ensures
        toml_model_ok(*final(t)),
        same_except(*old(t), *final(t), key@),
        str_at(*final(t), key@) == Some(s@),
{
    table_insert(t, String::from_str(key), TomlValue::Text(s.clone()));
}

/// Stores an association list of switches as a nested table.
pub fn put_flags(t: &mut TomlTable, key: &str, v: &Vec<(String, bool)>)
    requires
        toml_model_ok(*old(t)),
    ensures
        toml_model_ok(*final(t)),
        same_except(*old(t), *final(t), key@),
        flags_at(*final(t), key@) == Some(flag_map(v@)),
{
    let mut sub = table_new();
    let mut i: usize = 0;
    while i < v.len()
        invariant
            i <= v@.len(),
            toml_model_ok(sub),
            toml_keys(sub) == toml_bools(sub).dom(),
            toml_bools(sub) == flag_map(v@.take(i as int)),
        decreases v@.len() - i,
    {
        table_insert(&mut sub, v[i].0.clone(), TomlValue::Boolean(v[i].1));
        proof {
            assert(v@.take(i + 1).drop_last() =~= v@.take(i as int));
            assert(toml_keys(sub) =~= toml_bools(sub).dom());
        }
        i += 1;
    }
    proof {
        assert(v@.take(v@.len() as int) =~= v@);
    }
    table_insert(t, String::from_str(key), TomlValue::Table(sub));
}

/// Stores an association list of texts as a nested table.
pub fn put_texts(t: &mut TomlTable, key: &str, v: &Vec<(String, String)>)
    requires
        toml_model_ok(*old(t)),
    ensures
        toml_model_ok(*final(t)),
        same_except(*old(t), *final(t), key@),
        texts_at(*final(t), key@) == Some(text_map(v@)),
{
    let mut sub = table_new();
    let mut i: usize = 0;
    while i < v.len()
        invariant
            i <= v@.len(),
            toml_model_ok(sub),
            toml_keys(sub) == toml_strs(sub).dom(),
            toml_strs(sub) == text_map(v@.take(i as int)),
        decreases v@.len() - i,
    {
        table_insert(&mut sub, v[i].0.clone(), TomlValue::Text(v[i].1.clone()));
        proof {
            assert(v@.take(i + 1).drop_last() =~= v@.take(i as int));
            assert(toml_keys(sub) =~= toml_strs(sub).dom());
        }
        i += 1;
    }
    proof {
        assert(v@.take(v@.len() as int) =~= v@);
    }
    table_insert(t, String::from_str(key), TomlValue::Table(sub));
}

pub fn get_bool(t: &TomlTable, key: &str) -> (r: Result<bool, PersistError>)
    ensures
        match bool_at(*t, key@) {
            Some(b) => r == Ok::<bool, PersistError>(b),
            None => r == Err::<bool, PersistError>(PersistError::BadField),
        },
{
    match table_get(t, key) {
        Some(TomlItem::Boolean(b)) => Ok(b),
        _ => Err(PersistError::BadField),
    }
}

pub fn get_u64(t: &TomlTable, key: &str) -> (r: Result<u64, PersistError>)
    ensures
        match u64_at(*t, key@) {
            Some(v) => r == Ok::<u64, PersistError>(v),
            None => r == Err::<u64, PersistError>(PersistError::BadField),
        },
{
    match table_get(t, key) {
        Some(TomlItem::Integer(i)) => {
            if i >= 0 {
                Ok(i as u64)
            } else {
                Err(PersistError::BadField)
            }
        },
        _ => Err(PersistError::BadField),
    }
}

pub fn get_u32(t: &TomlTable, key: &str) -> (r: Result<u32, PersistError>)
    ensures
        match u32_at(*t, key@) {
            Some(v) => r == Ok::<u32, PersistError>(v),
            None => r == Err::<u32, PersistError>(PersistError::BadField),
        },
{
    match table_get(t, key) {
        Some(TomlItem::Integer(i)) => {
            if 0 <= i && i <= u32::MAX as i64 {
                Ok(i as u32)
            } else {
                Err(PersistError::BadField)
            }
        },
        _ => Err(PersistError::BadField),
    }
}

pub fn get_u8(t: &TomlTable, key: &str) -> (r: Result<u8, PersistError>)
    ensures
        match u8_at(*t, key@) {
            Some(v) => r == Ok::<u8, PersistError>(v),
            None => r == Err::<u8, PersistError>(PersistError::BadField),
        },
{
    match table_get(t, key) {
        Some(TomlItem::Integer(i)) => {
            if 0 <= i && i <= u8::MAX as i64 {
                Ok(i as u8)
            } else {
                Err(PersistError::BadField)
            }
        },
        _ => Err(PersistError::BadField),
    }
}

pub fn get_str(t: &TomlTable, key: &str) -> (r: Result<String, PersistError>)
    ensures
        match str_at(*t, key@) {
            Some(s) => r matches Ok(x) && x@ == s,
            None => r == Err::<String, PersistError>(PersistError::BadField),
        },
{
    match table_get(t, key) {
        Some(TomlItem::Text(s)) => Ok(s.clone()),
        _ => Err(PersistError::BadField),
    }
}

/// Reads a nested table of switches as an association list.
pub fn get_flags(t: &TomlTable, key: &str) -> (r: Result<Vec<(String, bool)>, PersistError>)
    ensures
        match flags_at(*t, key@) {
            Some(m) => r matches Ok(v) && names_unique(v@) && flag_map(v@) == m,
            None => r is Err && r->Err_0 == PersistError::BadField,
        },
{
    let sub = match table_get(t, key) {
        Some(TomlItem::Table(x)) => x,
        _ => return Err(PersistError::BadField),
    };
    let keys = table_keys(sub);
    let mut v: Vec<(String, bool)> = Vec::new();
    let mut i: usize = 0;
    while i < keys.len()
        invariant
            toml_model_ok(*sub),
            toml_tables(*t).contains_key(key@),
            toml_tables(*t)[key@] == *sub,
            i <= keys@.len(),
            v@.len() == i,
            forall|a: int, b: int| 0 <= a < b < keys@.len() ==> keys@[a]@ != keys@[b]@,
            forall|k: Seq<char>|
                toml_keys(*sub).contains(k) <==> exists|a: int| 0 <= a < keys@.len() && keys@[a]@ == k,
            forall|a: int| 0 <= a < i ==> (#[trigger] v@[a]).0@ == keys@[a]@,
            forall|a: int| 0 <= a < i ==> toml_bools(*sub).contains_key(#[trigger] keys@[a]@),
            flag_map(v@) == toml_bools(*sub).restrict(
                Set::new(|k: Seq<char>| exists|a: int| 0 <= a < i && keys@[a]@ == k),
            ),
        decreases keys@.len() - i,
    {
        let k = &keys[i];
        match table_get(sub, k.as_str()) {
            Some(TomlItem::Boolean(b)) => {
                let ghost before = v@;
                v.push((k.clone(), b));
                proof {
                    assert(v@.drop_last() =~= before);
                    assert(flag_map(v@) =~= toml_bools(*sub).restrict(
                        Set::new(|j: Seq<char>| exists|a: int| 0 <= a < i + 1 && keys@[a]@ == j),
                    ));
                }
            },
            _ => {
                proof {
                    assert(toml_keys(*sub).contains(keys@[i as int]@));
                    assert(!toml_bools(*sub).dom().contains(keys@[i as int]@));
                }
                return Err(PersistError::BadField);
            },
        }
        i += 1;
    }
    proof {
        assert(toml_keys(*sub) =~= toml_bools(*sub).dom());
        assert(flag_map(v@) =~= toml_bools(*sub));
    }
    Ok(v)
}

/// Reads a nested table of texts as an association list.
pub fn get_texts(t: &TomlTable, key: &str) -> (r: Result<Vec<(String, String)>, PersistError>)
    ensures
        match texts_at(*t, key@) {
            Some(m) => r matches Ok(v) && names_unique(v@) && text_map(v@) == m,
            None => r is Err && r->Err_0 == PersistError::BadField,
        },
{
    let sub = match table_get(t, key) {
        Some(TomlItem::Table(x)) => x,
        _ => return Err(PersistError::BadField),
    };
    let keys = table_keys(sub);
    let mut v: Vec<(String, String)> = Vec::new();
    let mut i: usize = 0;
    while i < keys.len()
        invariant
            toml_model_ok(*sub),
            toml_tables(*t).contains_key(key@),
            toml_tables(*t)[key@] == *sub,
            i <= keys@.len(),
            v@.len() == i,
            forall|a: int, b: int| 0 <= a < b < keys@.len() ==> keys@[a]@ != keys@[b]@,
            forall|k: Seq<char>|
                toml_keys(*sub).contains(k) <==> exists|a: int| 0 <= a < keys@.len() && keys@[a]@ == k,
            forall|a: int| 0 <= a < i ==> (#[trigger] v@[a]).0@ == keys@[a]@,
            forall|a: int| 0 <= a < i ==> toml_strs(*sub).contains_key(#[trigger] keys@[a]@),
            text_map(v@) == toml_strs(*sub).restrict(
                Set::new(|k: Seq<char>| exists|a: int| 0 <= a < i && keys@[a]@ == k),
            ),
        decreases keys@.len() - i,
    {
        let k = &keys[i];
        match table_get(sub, k.as_str()) {
            Some(TomlItem::Text(s)) => {
                let ghost before = v@;
                v.push((k.clone(), s.clone()));
                proof {
                    assert(v@.drop_last() =~= before);
                    assert(text_map(v@) =~= toml_strs(*sub).restrict(
                        Set::new(|j: Seq<char>| exists|a: int| 0 <= a < i + 1 && keys@[a]@ == j),
                    ));
                }
            },
            _ => {
                proof {
                    assert(toml_keys(*sub).contains(keys@[i as int]@));
                    assert(!toml_strs(*sub).dom().contains(keys@[i as int]@));
                }
                return Err(PersistError::BadField);
            },
        }
        i += 1;
    }
    proof {
        assert(toml_keys(*sub) =~= toml_strs(*sub).dom());
        assert(text_map(v@) =~= toml_strs(*sub));
    }
    Ok(v)
}

} // verus!
