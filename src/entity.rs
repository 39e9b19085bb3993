use vstd::prelude::*;

verus! {

/// The ten decimal digits, indexed by their value.
pub open spec fn digit_chars() -> Seq<char> {
    seq!['0', '1', '2', '3', '4', '5', '6', '7', '8', '9']
}

/// The decimal digits of a natural number, most significant first.
pub open spec fn digits_of(n: nat) -> Seq<char>
    decreases n,
{
    if n < 10 {
        seq![digit_chars()[n as int]]
    } else {
        digits_of(n / 10).push(digit_chars()[(n % 10) as int])
    }
}

/// The decimal text of an integer, with a leading `-` when it is negative.
pub open spec fn decimal_text(n: int) -> Seq<char> {
    if n < 0 {
        seq!['-'] + digits_of((-n) as nat)
    } else {
        digits_of(n as nat)
    }
}

/// Relies on `i64`'s `Display` (through `ToString::to_string`): the decimal
/// digits of the value, preceded by `-` when it is negative.
#[verifier::external_body]
fn decimal_string(n: i64) -> (r: String)
    ensures
        r@ == decimal_text(n as int),
{
    n.to_string()
}

/// An identity in the engine's entity space: a thin wrapper around a reference id.
/// Equality and ordering follow the id.
#[derive(Clone, Copy, Debug, PartialEq, Eq, Structural, PartialOrd, Ord, Hash)]
pub struct Entity {
    pub id: i64,
}

impl Entity {
    pub fn new(id: i64) -> (r: Entity)
        ensures
            r.id == id,
    {
        Entity { id }
    }

    /// The id as decimal text.
    pub fn to_string(&self) -> (r: String)
        ensures
            r@ == decimal_text(self.id as int),
    {
        decimal_string(self.id)
    }

    /// Gives up the wrapper and returns the raw reference id.
    pub fn into_id(self) -> (r: i64)
        ensures
            r == self.id,
    {
        self.id
    }
}

impl From<Entity> for i64 {
    fn from(e: Entity) -> (r: i64) {
        e.id
    }
}

impl vstd::std_specs::convert::FromSpecImpl<Entity> for i64 {
    open spec fn obeys_from_spec() -> bool {
        true
    }

    open spec fn from_spec(e: Entity) -> i64 {
        e.id
    }
}

} // verus!
