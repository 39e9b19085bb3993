use vstd::arithmetic::div_mod::lemma_fundamental_div_mod_converse;
use vstd::prelude::*;

use crate::entity::Entity;
use crate::errors::Error;

verus! {

pub const MICROS_PER_SEC: i64 = 1_000_000;

pub const NANOS_PER_MICRO: i32 = 1_000;

pub const NANOS_PER_SEC: i32 = 1_000_000_000;

/// A 128-bit unique identifier.
#[derive(Clone, Copy, Debug, PartialEq, Eq, Structural, Hash)]
pub struct Uuid {
    pub bits: u128,
}

impl Uuid {
    /// The identifier whose bits are all zero.
    pub fn nil() -> (r: Uuid)
        ensures
            r.bits == 0,
    {
        Uuid { bits: 0 }
    }

    pub fn from_u128(bits: u128) -> (r: Uuid)
        ensures
            r.bits == bits,
    {
        Uuid { bits }
    }

    pub fn is_nil(&self) -> (r: bool)
        ensures
            r == (self.bits == 0),
    {
        self.bits == 0
    }
}

/// A 64-bit float, held by its IEEE-754 bit pattern, which orders and compares
/// every value (NaN included) totally.
#[derive(Clone, Copy, Debug, PartialEq, Eq, Structural, Hash)]
pub struct Double {
    pub bits: u64,
}

impl Double {
    pub fn from_bits(bits: u64) -> (r: Double)
        ensures
            r.bits == bits,
    {
        Double { bits }
    }

    pub fn to_bits(&self) -> (r: u64)
        ensures
            r == self.bits,
    {
        self.bits
    }
}

/// A wall-clock timestamp: whole seconds since the epoch and nanoseconds
/// within that second.
#[derive(Clone, Copy, Debug, PartialEq, Eq, Structural, Hash)]
pub struct Timespec {
    pub sec: i64,
    pub nsec: i32,
}

impl Timespec {
    /// The nanosecond part lies within one second.
    pub open spec fn wf(&self) -> bool {
        0 <= self.nsec < NANOS_PER_SEC
    }

    /// Microseconds since the epoch, the part below a microsecond cut off.
    pub open spec fn micros(&self) -> int {
        (self.sec as int) * (MICROS_PER_SEC as int) + (self.nsec as int) / (NANOS_PER_MICRO as int)
    }

    /// Well formed, and its microsecond count fits an `i64`.
    pub open spec fn representable(&self) -> bool {
        &&& self.wf()
        &&& i64::MIN <= self.micros() <= i64::MAX
    }

    /// The same instant with the part below a microsecond cut off.
    pub open spec fn truncated(&self) -> Timespec {
        Timespec { sec: self.sec, nsec: (((self.nsec as int) / (NANOS_PER_MICRO as int)) * (NANOS_PER_MICRO as int)) as i32 }
    }

    pub fn new(sec: i64, nsec: i32) -> (r: Timespec)
        requires
            0 <= nsec < NANOS_PER_SEC,
        ensures
            r.sec == sec,
            r.nsec == nsec,
            r.wf(),
    {
        Timespec { sec, nsec }
    }
}

/// The timestamp `micros` microseconds after the epoch (before it, when negative).
pub open spec fn timespec_of_micros(micros: int) -> Timespec {
    Timespec {
        sec: (micros / (MICROS_PER_SEC as int)) as i64,
        nsec: ((micros % (MICROS_PER_SEC as int)) * NANOS_PER_MICRO) as i32,
    }
}

/// A keyword with a namespace, such as `:person/name`.
#[derive(Debug)]
pub struct NamespacedKeyword {
    pub namespace: String,
    pub name: String,
}

impl NamespacedKeyword {
    pub fn new(namespace: &str, name: &str) -> (r: NamespacedKeyword)
        ensures
            r.namespace@ == namespace@,
            r.name@ == name@,
    {
        NamespacedKeyword { namespace: namespace.to_owned(), name: name.to_owned() }
    }

    pub fn duplicate(&self) -> (r: NamespacedKeyword)
        ensures
            r.namespace@ == self.namespace@,
            r.name@ == self.name@,
    {
        NamespacedKeyword { namespace: self.namespace.clone(), name: self.name.clone() }
    }
}

/// The engine's closed union of stored values.
#[derive(Debug)]
pub enum TaggedValue {
    Ref(i64),
    Boolean(bool),
    Long(i64),
    Double(Double),
    /// Microseconds since the epoch.
    Instant(i64),
    String(String),
    Keyword(NamespacedKeyword),
    Uuid(Uuid),
}

/// What a tagged value holds, with text as sequences of characters.
pub enum TaggedModel {
    Ref(i64),
    Boolean(bool),
    Long(i64),
    Double(Double),
    Instant(i64),
    String(Seq<char>),
    Keyword(Seq<char>, Seq<char>),
    Uuid(Uuid),
}

impl View for TaggedValue {
    type V = TaggedModel;

    open spec fn view(&self) -> TaggedModel {
        match self {
            TaggedValue::Ref(id) => TaggedModel::Ref(*id),
            TaggedValue::Boolean(b) => TaggedModel::Boolean(*b),
            TaggedValue::Long(n) => TaggedModel::Long(*n),
            TaggedValue::Double(d) => TaggedModel::Double(*d),
            TaggedValue::Instant(us) => TaggedModel::Instant(*us),
            TaggedValue::String(s) => TaggedModel::String(s@),
            TaggedValue::Keyword(k) => TaggedModel::Keyword(k.namespace@, k.name@),
            TaggedValue::Uuid(u) => TaggedModel::Uuid(*u),
        }
    }
}

// What each extraction yields from a tagged value; a value of another kind
// yields the default (absent, empty text or the nil identifier).
// Open question: a caller cannot tell a value of the wrong kind from an absent
// one, so the optional forms are the ones to use unless the kind is known.

pub open spec fn entity_of(m: TaggedModel) -> Option<Entity> {
    match m {
        TaggedModel::Ref(id) => Some(Entity { id }),
        _ => None,
    }
}

pub open spec fn long_of(m: TaggedModel) -> Option<i64> {
    match m {
        TaggedModel::Long(n) => Some(n),
        _ => None,
    }
}

pub open spec fn boolean_of(m: TaggedModel) -> Option<bool> {
    match m {
        TaggedModel::Boolean(b) => Some(b),
        _ => None,
    }
}

pub open spec fn double_of(m: TaggedModel) -> Option<Double> {
    match m {
        TaggedModel::Double(d) => Some(d),
        _ => None,
    }
}

pub open spec fn text_of(m: TaggedModel) -> Seq<char> {
    match m {
        TaggedModel::String(s) => s,
        _ => Seq::empty(),
    }
}

pub open spec fn uuid_of(m: TaggedModel) -> Uuid {
    match m {
        TaggedModel::Uuid(u) => u,
        _ => Uuid { bits: 0 },
    }
}

pub open spec fn instant_of(m: TaggedModel) -> Option<Timespec> {
    match m {
        TaggedModel::Instant(us) => Some(timespec_of_micros(us as int)),
        _ => None,
    }
}

/// Conversion of a native value into a tagged value.
pub trait ToTypedValue {
    /// The values that the conversion accepts.
    spec fn representable(&self) -> bool;

    /// The tagged value that the conversion yields.
    spec fn tagged(&self) -> TaggedModel;

    fn to_typed_value(&self) -> (r: TaggedValue)
        requires
            self.representable(),
        ensures
            r@ == self.tagged(),
    ;
}

impl ToTypedValue for String {
    open spec fn representable(&self) -> bool {
        true
    }

    open spec fn tagged(&self) -> TaggedModel {
        TaggedModel::String(self@)
    }

    fn to_typed_value(&self) -> (r: TaggedValue) {
        TaggedValue::String(self.clone())
    }
}

impl<'a> ToTypedValue for &'a str {
    open spec fn representable(&self) -> bool {
        true
    }

    open spec fn tagged(&self) -> TaggedModel {
        TaggedModel::String((*self)@)
    }

    fn to_typed_value(&self) -> (r: TaggedValue) {
        TaggedValue::String((*self).to_owned())
    }
}

impl ToTypedValue for Entity {
    open spec fn representable(&self) -> bool {
        true
    }

    open spec fn tagged(&self) -> TaggedModel {
        TaggedModel::Ref(self.id)
    }

    fn to_typed_value(&self) -> (r: TaggedValue) {
        TaggedValue::Ref(self.id)
    }
}

impl ToTypedValue for NamespacedKeyword {
    open spec fn representable(&self) -> bool {
        true
    }

    open spec fn tagged(&self) -> TaggedModel {
        TaggedModel::Keyword(self.namespace@, self.name@)
    }

    fn to_typed_value(&self) -> (r: TaggedValue) {
        TaggedValue::Keyword(self.duplicate())
    }
}

impl ToTypedValue for bool {
    open spec fn representable(&self) -> bool {
        true
    }

    open spec fn tagged(&self) -> TaggedModel {
        TaggedModel::Boolean(*self)
    }

    fn to_typed_value(&self) -> (r: TaggedValue) {
        TaggedValue::Boolean(*self)
    }
}

impl ToTypedValue for i64 {
    open spec fn representable(&self) -> bool {
        true
    }

    open spec fn tagged(&self) -> TaggedModel {
        TaggedModel::Long(*self)
    }

    fn to_typed_value(&self) -> (r: TaggedValue) {
        TaggedValue::Long(*self)
    }
}

impl ToTypedValue for Double {
    open spec fn representable(&self) -> bool {
        true
    }

    open spec fn tagged(&self) -> TaggedModel {
        TaggedModel::Double(*self)
    }

    fn to_typed_value(&self) -> (r: TaggedValue) {
        TaggedValue::Double(*self)
    }
}

impl ToTypedValue for Timespec {
    open spec fn representable(&self) -> bool {
        Timespec::representable(self)
    }

    open spec fn tagged(&self) -> TaggedModel {
        TaggedModel::Instant(self.micros() as i64)
    }

    fn to_typed_value(&self) -> (r: TaggedValue) {
        let part: i64 = (self.nsec / NANOS_PER_MICRO) as i64;
        if self.sec >= 0 {
            TaggedValue::Instant(self.sec * MICROS_PER_SEC + part)
        } else {
            // One second moved into the fractional part, so that the product
            // cannot go below the smallest count when the sum does not.
            TaggedValue::Instant((self.sec + 1) * MICROS_PER_SEC + (part - MICROS_PER_SEC))
        }
    }
}

impl ToTypedValue for Uuid {
    open spec fn representable(&self) -> bool {
        true
    }

    open spec fn tagged(&self) -> TaggedModel {
        TaggedModel::Uuid(*self)
    }

    fn to_typed_value(&self) -> (r: TaggedValue) {
        TaggedValue::Uuid(*self)
    }
}

/// Splits a microsecond count into whole seconds (rounded down) and the
/// nanoseconds left over.
pub fn timespec_from_micros(micros: i64) -> (r: Timespec)
    ensures
        r == timespec_of_micros(micros as int),
        r.wf(),
{
    let (sec, rest): (i64, i64) = if micros >= 0 {
        let u: u64 = micros as u64;
        ((u / 1_000_000) as i64, (u % 1_000_000) as i64)
    } else {
        // Counted from -1 down, so that the magnitude fits.
        let u: u64 = (-(micros + 1)) as u64;
        (-((u / 1_000_000) as i64) - 1, 999_999 - (u % 1_000_000) as i64)
    };
    proof {
        lemma_fundamental_div_mod_converse(micros as int, 1_000_000, sec as int, rest as int);
    }
    Timespec { sec, nsec: (rest as i32) * NANOS_PER_MICRO }
}

/// Extraction of a native value from a tagged value.
pub trait ToInner<T>: Sized {
    /// `r` is what the extraction yields from `self`.
    spec fn yields(self, r: T) -> bool;

    fn to_inner(self) -> (r: T)
        ensures
            self.yields(r),
    ;
}

impl ToInner<Option<Entity>> for TaggedValue {
    open spec fn yields(self, r: Option<Entity>) -> bool {
        r == entity_of(self@)
    }

    fn to_inner(self) -> (r: Option<Entity>) {
        match self {
            TaggedValue::Ref(id) => Some(Entity::new(id)),
            _ => None,
        }
    }
}

impl ToInner<Option<i64>> for TaggedValue {
    open spec fn yields(self, r: Option<i64>) -> bool {
        r == long_of(self@)
    }

    fn to_inner(self) -> (r: Option<i64>) {
        match self {
            TaggedValue::Long(n) => Some(n),
            _ => None,
        }
    }
}

impl ToInner<Option<bool>> for TaggedValue {
    open spec fn yields(self, r: Option<bool>) -> bool {
        r == boolean_of(self@)
    }

    fn to_inner(self) -> (r: Option<bool>) {
        match self {
            TaggedValue::Boolean(b) => Some(b),
            _ => None,
        }
    }
}

impl ToInner<Option<Double>> for TaggedValue {
    open spec fn yields(self, r: Option<Double>) -> bool {
        r == double_of(self@)
    }

    fn to_inner(self) -> (r: Option<Double>) {
        match self {
            TaggedValue::Double(d) => Some(d),
            _ => None,
        }
    }
}

impl ToInner<String> for TaggedValue {
    open spec fn yields(self, r: String) -> bool {
        r@ == text_of(self@)
    }

    fn to_inner(self) -> (r: String) {
        match self {
            TaggedValue::String(s) => s,
            _ => String::new(),
        }
    }
}

impl ToInner<Uuid> for TaggedValue {
    open spec fn yields(self, r: Uuid) -> bool {
        r == uuid_of(self@)
    }

    fn to_inner(self) -> (r: Uuid) {
        match self {
            TaggedValue::Uuid(u) => u,
            _ => Uuid::nil(),
        }
    }
}

impl<'a> ToInner<Uuid> for &'a TaggedValue {
    open spec fn yields(self, r: Uuid) -> bool {
        r == uuid_of(self@)
    }

    fn to_inner(self) -> (r: Uuid) {
        match self {
            TaggedValue::Uuid(u) => *u,
            _ => Uuid::nil(),
        }
    }
}

impl ToInner<Option<Timespec>> for TaggedValue {
    open spec fn yields(self, r: Option<Timespec>) -> bool {
        r == instant_of(self@)
    }

    fn to_inner(self) -> (r: Option<Timespec>) {
        match self {
            TaggedValue::Instant(us) => Some(timespec_from_micros(us)),
            _ => None,
        }
    }
}

impl<'a> ToInner<Option<Timespec>> for Option<&'a TaggedValue> {
    open spec fn yields(self, r: Option<Timespec>) -> bool {
        r == match self {
            Some(v) => instant_of(v@),
            None => None,
        }
    }

    fn to_inner(self) -> (r: Option<Timespec>) {
        match self {
            Some(TaggedValue::Instant(us)) => Some(timespec_from_micros(*us)),
            _ => None,
        }
    }
}

impl TaggedValue {
    /// The text held, or an `UnexpectedResultType` error when the value is of
    /// another kind; unlike `to_inner`, a wrong kind is not mistaken for empty text.
    pub fn expect_string(self) -> (r: Result<String, Error>)
        ensures
            self@ is String ==> (r matches Ok(s) && s@ == text_of(self@)),
            !(self@ is String) ==> r matches Err(Error::UnexpectedResultType(_)),
    {
        match self {
            TaggedValue::String(s) => Ok(s),
            _ => Err(Error::UnexpectedResultType("expected a string value".to_owned())),
        }
    }

    /// The identifier held, or an `UnexpectedResultType` error when the value
    /// is of another kind; unlike `to_inner`, a wrong kind is not mistaken for
    /// the nil identifier.
    pub fn expect_uuid(&self) -> (r: Result<Uuid, Error>)
        ensures
            self@ is Uuid ==> r == Ok::<Uuid, Error>(uuid_of(self@)),
            !(self@ is Uuid) ==> r matches Err(Error::UnexpectedResultType(_)),
    {
        match self {
            TaggedValue::Uuid(u) => Ok(*u),
            _ => Err(Error::UnexpectedResultType("expected a unique identifier".to_owned())),
        }
    }
}

/// Every scalar kind comes back unchanged from its tagged value: text, boolean,
/// 64-bit integer, 64-bit float, unique identifier and entity reference.
pub proof fn lemma_scalar_round_trip(s: String, b: bool, n: i64, d: Double, u: Uuid, e: Entity)
    ensures
        text_of(s.tagged()) == s@,
        boolean_of(b.tagged()) == Some(b),
        long_of(n.tagged()) == Some(n),
        double_of(d.tagged()) == Some(d),
        uuid_of(u.tagged()) == u,
        entity_of(e.tagged()) == Some(e),
{
}

/// A timestamp comes back from its tagged value cut off to the microsecond: it
/// is unchanged exactly when it has no part below a microsecond.
pub proof fn lemma_instant_round_trip(t: Timespec)
    requires
        t.representable(),
    ensures
        instant_of(t.tagged()) == Some(t.truncated()),
        t.truncated().wf(),
        (instant_of(t.tagged()) == Some(t)) <==> (t.nsec % NANOS_PER_MICRO == 0),
{
    let q = (t.nsec as int) / 1000;
    assert(0 <= q < 1_000_000);
    lemma_fundamental_div_mod_converse(t.micros(), 1_000_000, t.sec as int, q);
    assert((t.nsec as int) == q * 1000 + (t.nsec as int) % 1000);
}

/// An extraction from a tagged value of another kind yields the default: no
/// entity, integer, boolean, float or timestamp, empty text, the nil identifier.
pub proof fn lemma_mismatch_default(m: TaggedModel)
    ensures
        !(m is Ref) ==> entity_of(m) is None,
        !(m is Long) ==> long_of(m) is None,
        !(m is Boolean) ==> boolean_of(m) is None,
        !(m is Double) ==> double_of(m) is None,
        !(m is Instant) ==> instant_of(m) is None,
        !(m is String) ==> text_of(m).len() == 0,
        !(m is Uuid) ==> uuid_of(m).bits == 0,
{
}

} // verus!
