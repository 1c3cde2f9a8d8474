use vstd::prelude::*;

verus! {

/// A JSON number as written on the wire: `mantissa * 10^(-scale)`, negated
/// when `negative` holds. Integers have scale 0.
#[derive(Clone, Copy, Debug, PartialEq, Eq, Structural)]
pub struct Number {
    pub negative: bool,
    pub mantissa: u64,
    pub scale: u32,
}

impl Number {
    /// The number zero.
    pub fn zero() -> (r: Number)
        ensures
            r == spec_zero(),
    {
        Number { negative: false, mantissa: 0, scale: 0 }
    }

    /// A non-negative integer.
    pub fn from_u64(v: u64) -> (r: Number)
        ensures
            r == spec_from_u64(v),
    {
        Number { negative: false, mantissa: v, scale: 0 }
    }
}

pub open spec fn spec_zero() -> Number {
    Number { negative: false, mantissa: 0, scale: 0 }
}

pub open spec fn spec_from_u64(v: u64) -> Number {
    Number { negative: false, mantissa: v, scale: 0 }
}

/// A non-negative integer number, read as its value.
pub open spec fn unsigned_value(n: Number) -> Option<u64> {
    if !n.negative && n.scale == 0 {
        Some(n.mantissa)
    } else {
        None
    }
}

/// A JSON value. Object members keep their order on the wire.
#[derive(Debug, PartialEq)]
pub enum Json {
    Null,
    Bool(bool),
    Num(Number),
    Str(String),
    Arr(Vec<Json>),
    Obj(Vec<(String, Json)>),
}

/// Why a value could not be decoded.
#[derive(Clone, Copy, Debug, PartialEq, Eq)]
pub enum DecodeError {
    /// A required key is absent.
    MissingField(&'static str),
    /// The value at the named key (or of the named record) has the wrong
    /// JSON kind.
    TypeMismatch(&'static str),
}

/// The value of the last member whose key `classify` maps to `i`: when a key
/// repeats, the later member wins.
pub open spec fn last_with(
    entries: Seq<(String, Json)>,
    classify: spec_fn(Seq<char>) -> Option<int>,
    i: int,
) -> Option<Json>
    decreases entries.len(),
{
    if entries.len() == 0 {
        None
    } else if classify(entries.last().0@) == Some(i) {
        Some(entries.last().1)
    } else {
        last_with(entries.drop_last(), classify, i)
    }
}

/// Appending a member changes only the class of its key.
pub proof fn lemma_last_with_push(
    s: Seq<(String, Json)>,
    p: (String, Json),
    classify: spec_fn(Seq<char>) -> Option<int>,
)
    ensures
        forall|i: int|
            #[trigger] last_with(s.push(p), classify, i) == if classify(p.0@) == Some(i) {
                Some(p.1)
            } else {
                last_with(s, classify, i)
            },
{
    assert(s.push(p).drop_last() =~= s);
}

/// The keys of an object's members, in order.
pub open spec fn member_keys(e: Seq<(String, Json)>) -> Seq<Seq<char>> {
    e.map_values(|p: (String, Json)| p.0@)
}

pub proof fn lemma_member_keys_push(e: Seq<(String, Json)>, p: (String, Json))
    ensures
        member_keys(e.push(p)) == member_keys(e).push(p.0@),
        member_keys(Seq::<(String, Json)>::empty()) == Seq::<Seq<char>>::empty(),
{
    assert(member_keys(e.push(p)) =~= member_keys(e).push(p.0@));
    assert(member_keys(Seq::<(String, Json)>::empty()) =~= Seq::<Seq<char>>::empty());
}

/// Whether a key equals a name.
pub fn key_is(key: &String, name: &str) -> (r: bool)
    ensures
        r == (key@ == name@),
{
    let other = name.to_string();
    *key == other
}

/// A key for an object member.
pub fn key(name: &str) -> (r: String)
    ensures
        r@ == name@,
{
    name.to_string()
}

/// Removes the value at `i` of a slot table, leaving the slot empty.
pub fn take_slot(slots: &mut Vec<Option<Json>>, i: usize) -> (r: Option<Json>)
    requires
        i < old(slots)@.len(),
    ensures
        r == old(slots)@[i as int],
        final(slots)@ == old(slots)@.update(i as int, None),
{
    let r = slots.remove(i);
    slots.insert(i, None);
    proof {
        assert(final(slots)@ =~= old(slots)@.update(i as int, None));
    }
    r
}

/// A slot table of `n` empty slots.
pub fn empty_slots(n: usize) -> (r: Vec<Option<Json>>)
    ensures
        r@.len() == n,
        forall|i: int| 0 <= i < n ==> r@[i] is None,
{
    let mut r: Vec<Option<Json>> = Vec::new();
    let mut j: usize = 0;
    while j < n
        invariant
            j <= n,
            r@.len() == j,
            forall|i: int| 0 <= i < j ==> r@[i] is None,
        decreases n - j,
    {
        r.push(None);
        j = j + 1;
    }
    r
}

// ---- field kinds: for each, what a slot holds when it decodes, and the error otherwise ----

/// A required string.
pub open spec fn str_error(slot: Option<Json>, name: &'static str) -> Option<DecodeError> {
    match slot {
        None => Some(DecodeError::MissingField(name)),
        Some(Json::Str(_)) => None,
        Some(_) => Some(DecodeError::TypeMismatch(name)),
    }
}

pub open spec fn str_value(slot: Option<Json>) -> String {
    match slot {
        Some(Json::Str(s)) => s,
        _ => arbitrary(),
    }
}

pub fn decode_str(slot: Option<Json>, name: &'static str) -> (r: Result<String, DecodeError>)
    ensures
        r == match str_error(slot, name) {
            Some(e) => Err(e),
            None => Ok(str_value(slot)),
        },
{
    match slot {
        None => Err(DecodeError::MissingField(name)),
        Some(Json::Str(s)) => Ok(s),
        Some(_) => Err(DecodeError::TypeMismatch(name)),
    }
}

/// A required boolean.
pub open spec fn bool_error(slot: Option<Json>, name: &'static str) -> Option<DecodeError> {
    match slot {
        None => Some(DecodeError::MissingField(name)),
        Some(Json::Bool(_)) => None,
        Some(_) => Some(DecodeError::TypeMismatch(name)),
    }
}

pub open spec fn bool_value(slot: Option<Json>) -> bool {
    match slot {
        Some(Json::Bool(b)) => b,
        _ => false,
    }
}

pub fn decode_bool(slot: Option<Json>, name: &'static str) -> (r: Result<bool, DecodeError>)
    ensures
        r == match bool_error(slot, name) {
            Some(e) => Err(e),
            None => Ok(bool_value(slot)),
        },
{
    match slot {
        None => Err(DecodeError::MissingField(name)),
        Some(Json::Bool(b)) => Ok(b),
        Some(_) => Err(DecodeError::TypeMismatch(name)),
    }
}

/// Whether a value is a non-negative integer no larger than `max`.
pub open spec fn is_uint_upto(j: Json, max: u64) -> bool {
    match j {
        Json::Num(n) => unsigned_value(n) is Some && n.mantissa <= max,
        _ => false,
    }
}

pub open spec fn uint_of(j: Json) -> u64 {
    match j {
        Json::Num(n) => n.mantissa,
        _ => 0,
    }
}

fn read_uint_upto(j: Json, max: u64) -> (r: Option<u64>)
    ensures
        r == if is_uint_upto(j, max) {
            Some(uint_of(j))
        } else {
            None
        },
{
    match j {
        Json::Num(n) => {
            if !n.negative && n.scale == 0 && n.mantissa <= max {
                Some(n.mantissa)
            } else {
                None
            }
        },
        _ => None,
    }
}

/// A required unsigned integer of at most `max`.
pub open spec fn uint_error(slot: Option<Json>, name: &'static str, max: u64) -> Option<DecodeError> {
    match slot {
        None => Some(DecodeError::MissingField(name)),
        Some(j) => if is_uint_upto(j, max) {
            None
        } else {
            Some(DecodeError::TypeMismatch(name))
        },
    }
}

pub open spec fn uint_value(slot: Option<Json>) -> u64 {
    match slot {
        Some(j) => uint_of(j),
        None => 0,
    }
}

pub fn decode_u64(slot: Option<Json>, name: &'static str) -> (r: Result<u64, DecodeError>)
    ensures
        r == match uint_error(slot, name, u64::MAX) {
            Some(e) => Err(e),
            None => Ok(uint_value(slot)),
        },
{
    match slot {
        None => Err(DecodeError::MissingField(name)),
        Some(j) => match read_uint_upto(j, u64::MAX) {
            Some(v) => Ok(v),
            None => Err(DecodeError::TypeMismatch(name)),
        },
    }
}

pub fn decode_u32(slot: Option<Json>, name: &'static str) -> (r: Result<u32, DecodeError>)
    ensures
        r == match uint_error(slot, name, u32::MAX as u64) {
            Some(e) => Err(e),
            None => Ok(uint_value(slot) as u32),
        },
{
    match slot {
        None => Err(DecodeError::MissingField(name)),
        Some(j) => match read_uint_upto(j, u32::MAX as u64) {
            Some(v) => Ok(v as u32),
            None => Err(DecodeError::TypeMismatch(name)),
        },
    }
}

/// A required unsigned integer where an explicit `null` stands for zero.
pub open spec fn u32_or_null_error(slot: Option<Json>, name: &'static str) -> Option<DecodeError> {
    match slot {
        Some(Json::Null) => None,
        _ => uint_error(slot, name, u32::MAX as u64),
    }
}

pub open spec fn u32_or_null_value(slot: Option<Json>) -> u32 {
    match slot {
        Some(Json::Null) => 0u32,
        _ => uint_value(slot) as u32,
    }
}

pub fn decode_u32_or_null(slot: Option<Json>, name: &'static str) -> (r: Result<u32, DecodeError>)
    ensures
        r == match u32_or_null_error(slot, name) {
            Some(e) => Err(e),
            None => Ok(u32_or_null_value(slot)),
        },
{
    match slot {
        Some(Json::Null) => Ok(0),
        _ => decode_u32(slot, name),
    }
}

/// A required number of any form.
pub open spec fn num_error(slot: Option<Json>, name: &'static str) -> Option<DecodeError> {
    match slot {
        None => Some(DecodeError::MissingField(name)),
        Some(Json::Num(_)) => None,
        Some(_) => Some(DecodeError::TypeMismatch(name)),
    }
}

pub open spec fn num_value(slot: Option<Json>) -> Number {
    match slot {
        Some(Json::Num(n)) => n,
        _ => spec_zero(),
    }
}

pub fn decode_num(slot: Option<Json>, name: &'static str) -> (r: Result<Number, DecodeError>)
    ensures
        r == match num_error(slot, name) {
            Some(e) => Err(e),
            None => Ok(num_value(slot)),
        },
{
    match slot {
        None => Err(DecodeError::MissingField(name)),
        Some(Json::Num(n)) => Ok(n),
        Some(_) => Err(DecodeError::TypeMismatch(name)),
    }
}

/// A required number where an explicit `null` stands for zero.
pub open spec fn num_or_null_error(slot: Option<Json>, name: &'static str) -> Option<DecodeError> {
    match slot {
        Some(Json::Null) => None,
        _ => num_error(slot, name),
    }
}

pub fn decode_num_or_null(slot: Option<Json>, name: &'static str) -> (r: Result<Number, DecodeError>)
    ensures
        r == match num_or_null_error(slot, name) {
            Some(e) => Err(e),
            None => Ok(num_value(slot)),
        },
{
    match slot {
        Some(Json::Null) => Ok(Number::zero()),
        _ => decode_num(slot, name),
    }
}

/// A required nested object, carried as it is.
pub open spec fn obj_error(slot: Option<Json>, name: &'static str) -> Option<DecodeError> {
    match slot {
        None => Some(DecodeError::MissingField(name)),
        Some(Json::Obj(_)) => None,
        Some(_) => Some(DecodeError::TypeMismatch(name)),
    }
}

pub open spec fn json_value(slot: Option<Json>) -> Json {
    match slot {
        Some(j) => j,
        None => Json::Null,
    }
}

pub fn decode_obj(slot: Option<Json>, name: &'static str) -> (r: Result<Json, DecodeError>)
    ensures
        r == match obj_error(slot, name) {
            Some(e) => Err(e),
            None => Ok(json_value(slot)),
        },
{
    match slot {
        None => Err(DecodeError::MissingField(name)),
        Some(Json::Obj(m)) => Ok(Json::Obj(m)),
        Some(_) => Err(DecodeError::TypeMismatch(name)),
    }
}

/// An optional member: absent and `null` both read as nothing.
pub open spec fn is_empty_slot(slot: Option<Json>) -> bool {
    slot is None || slot == Some(Json::Null)
}

/// An optional string.
pub open spec fn opt_str_error(slot: Option<Json>, name: &'static str) -> Option<DecodeError> {
    if is_empty_slot(slot) {
        None
    } else {
        str_error(slot, name)
    }
}

pub open spec fn opt_str_value(slot: Option<Json>) -> Option<String> {
    if is_empty_slot(slot) {
        None
    } else {
        Some(str_value(slot))
    }
}

pub fn decode_opt_str(slot: Option<Json>, name: &'static str) -> (r: Result<Option<String>, DecodeError>)
    ensures
        r == match opt_str_error(slot, name) {
            Some(e) => Err(e),
            None => Ok(opt_str_value(slot)),
        },
{
    match slot {
        None => Ok(None),
        Some(Json::Null) => Ok(None),
        Some(Json::Str(s)) => Ok(Some(s)),
        Some(_) => Err(DecodeError::TypeMismatch(name)),
    }
}

/// An optional boolean.
pub open spec fn opt_bool_error(slot: Option<Json>, name: &'static str) -> Option<DecodeError> {
    if is_empty_slot(slot) {
        None
    } else {
        bool_error(slot, name)
    }
}

pub open spec fn opt_bool_value(slot: Option<Json>) -> Option<bool> {
    if is_empty_slot(slot) {
        None
    } else {
        Some(bool_value(slot))
    }
}

pub fn decode_opt_bool(slot: Option<Json>, name: &'static str) -> (r: Result<Option<bool>, DecodeError>)
    ensures
        r == match opt_bool_error(slot, name) {
            Some(e) => Err(e),
            None => Ok(opt_bool_value(slot)),
        },
{
    match slot {
        None => Ok(None),
        Some(Json::Null) => Ok(None),
        Some(Json::Bool(b)) => Ok(Some(b)),
        Some(_) => Err(DecodeError::TypeMismatch(name)),
    }
}

/// An optional unsigned integer of at most `max`.
pub open spec fn opt_uint_error(slot: Option<Json>, name: &'static str, max: u64) -> Option<DecodeError> {
    if is_empty_slot(slot) {
        None
    } else {
        uint_error(slot, name, max)
    }
}

pub open spec fn opt_u32_value(slot: Option<Json>) -> Option<u32> {
    if is_empty_slot(slot) {
        None
    } else {
        Some(uint_value(slot) as u32)
    }
}

pub fn decode_opt_u32(slot: Option<Json>, name: &'static str) -> (r: Result<Option<u32>, DecodeError>)
    ensures
        r == match opt_uint_error(slot, name, u32::MAX as u64) {
            Some(e) => Err(e),
            None => Ok(opt_u32_value(slot)),
        },
{
    match slot {
        None => Ok(None),
        Some(Json::Null) => Ok(None),
        Some(j) => match read_uint_upto(j, u32::MAX as u64) {
            Some(v) => Ok(Some(v as u32)),
            None => Err(DecodeError::TypeMismatch(name)),
        },
    }
}

pub open spec fn opt_u8_value(slot: Option<Json>) -> Option<u8> {
    if is_empty_slot(slot) {
        None
    } else {
        Some(uint_value(slot) as u8)
    }
}

pub fn decode_opt_u8(slot: Option<Json>, name: &'static str) -> (r: Result<Option<u8>, DecodeError>)
    ensures
        r == match opt_uint_error(slot, name, u8::MAX as u64) {
            Some(e) => Err(e),
            None => Ok(opt_u8_value(slot)),
        },
{
    match slot {
        None => Ok(None),
        Some(Json::Null) => Ok(None),
        Some(j) => match read_uint_upto(j, u8::MAX as u64) {
            Some(v) => Ok(Some(v as u8)),
            None => Err(DecodeError::TypeMismatch(name)),
        },
    }
}

/// An optional value of any kind, carried as it is.
pub open spec fn opt_json_value(slot: Option<Json>) -> Option<Json> {
    if is_empty_slot(slot) {
        None
    } else {
        slot
    }
}

pub fn decode_opt_json(slot: Option<Json>) -> (r: Option<Json>)
    ensures
        r == opt_json_value(slot),
{
    match slot {
        None => None,
        Some(Json::Null) => None,
        Some(j) => Some(j),
    }
}

/// The first member, in order, whose key `classify` knows and whose value
/// `check` rejects, and what it is rejected with.
pub open spec fn first_bad(
    entries: Seq<(String, Json)>,
    classify: spec_fn(Seq<char>) -> Option<int>,
    check: spec_fn(int, Json) -> Option<DecodeError>,
) -> Option<DecodeError>
    decreases entries.len(),
{
    if entries.len() == 0 {
        None
    } else {
        match first_bad(entries.drop_last(), classify, check) {
            Some(e) => Some(e),
            None => match classify(entries.last().0@) {
                Some(i) => check(i, entries.last().1),
                None => None,
            },
        }
    }
}

/// Appending a member adds its own rejection after those of the others.
pub proof fn lemma_first_bad_push(
    s: Seq<(String, Json)>,
    p: (String, Json),
    classify: spec_fn(Seq<char>) -> Option<int>,
    check: spec_fn(int, Json) -> Option<DecodeError>,
)
    ensures
        first_bad(s.push(p), classify, check) == match first_bad(s, classify, check) {
            Some(e) => Some(e),
            None => match classify(p.0@) {
                Some(i) => check(i, p.1),
                None => None,
            },
        },
{
    assert(s.push(p).drop_last() =~= s);
}

// ---- checks of one present value, by reference ----

pub fn check_str(v: &Json, name: &'static str) -> (r: Option<DecodeError>)
    ensures
        r == str_error(Some(*v), name),
{
    match v {
        Json::Str(_) => None,
        _ => Some(DecodeError::TypeMismatch(name)),
    }
}

pub fn check_bool(v: &Json, name: &'static str) -> (r: Option<DecodeError>)
    ensures
        r == bool_error(Some(*v), name),
{
    match v {
        Json::Bool(_) => None,
        _ => Some(DecodeError::TypeMismatch(name)),
    }
}

pub fn check_uint(v: &Json, name: &'static str, max: u64) -> (r: Option<DecodeError>)
    ensures
        r == uint_error(Some(*v), name, max),
{
    match v {
        Json::Num(n) => {
            if !n.negative && n.scale == 0 && n.mantissa <= max {
                None
            } else {
                Some(DecodeError::TypeMismatch(name))
            }
        },
        _ => Some(DecodeError::TypeMismatch(name)),
    }
}

pub fn check_u32_or_null(v: &Json, name: &'static str) -> (r: Option<DecodeError>)
    ensures
        r == u32_or_null_error(Some(*v), name),
{
    match v {
        Json::Null => None,
        _ => check_uint(v, name, u32::MAX as u64),
    }
}

pub fn check_num(v: &Json, name: &'static str) -> (r: Option<DecodeError>)
    ensures
        r == num_error(Some(*v), name),
{
    match v {
        Json::Num(_) => None,
        _ => Some(DecodeError::TypeMismatch(name)),
    }
}

pub fn check_num_or_null(v: &Json, name: &'static str) -> (r: Option<DecodeError>)
    ensures
        r == num_or_null_error(Some(*v), name),
{
    match v {
        Json::Null => None,
        Json::Num(_) => None,
        _ => Some(DecodeError::TypeMismatch(name)),
    }
}

pub fn check_obj(v: &Json, name: &'static str) -> (r: Option<DecodeError>)
    ensures
        r == obj_error(Some(*v), name),
{
    match v {
        Json::Obj(_) => None,
        _ => Some(DecodeError::TypeMismatch(name)),
    }
}

pub fn check_opt_str(v: &Json, name: &'static str) -> (r: Option<DecodeError>)
    ensures
        r == opt_str_error(Some(*v), name),
{
    match v {
        Json::Null => None,
        _ => check_str(v, name),
    }
}

pub fn check_opt_bool(v: &Json, name: &'static str) -> (r: Option<DecodeError>)
    ensures
        r == opt_bool_error(Some(*v), name),
{
    match v {
        Json::Null => None,
        _ => check_bool(v, name),
    }
}

pub fn check_opt_uint(v: &Json, name: &'static str, max: u64) -> (r: Option<DecodeError>)
    ensures
        r == opt_uint_error(Some(*v), name, max),
{
    match v {
        Json::Null => None,
        _ => check_uint(v, name, max),
    }
}

} // verus!
