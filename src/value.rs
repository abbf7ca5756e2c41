use vstd::prelude::*;

verus! {

/// The earliest second that a timestamp may hold: January 1, 262144 BCE.
pub const MIN_TIMESPEC_SECS: i64 = -8334601315200;

/// The latest second that a timestamp may hold: the last of December 31,
/// 262142 CE.
pub const MAX_TIMESPEC_SECS: i64 = 8210266876799;

/// Whether `secs` and `nanos` name a representable point in time: the
/// seconds lie in the supported range, and the nanoseconds stay below one
/// second, or below two in the last second of a minute (a leap second).
pub open spec fn timespec_valid(secs: i64, nanos: u32) -> bool {
    &&& MIN_TIMESPEC_SECS <= secs <= MAX_TIMESPEC_SECS
    &&& (nanos < 1_000_000_000 || (nanos < 2_000_000_000 && (secs as int) % 60 == 59))
}

/// A point in time without a time zone: seconds since the Unix epoch and
/// the nanoseconds within that second.
#[derive(Clone, Copy, Debug, PartialEq, Eq)]
pub struct Timespec {
    secs: i64,
    nanos: u32,
}

impl Timespec {
    #[verifier::type_invariant]
    spec fn inv(&self) -> bool {
        timespec_valid(self.secs, self.nanos)
    }

    /// Seconds since the epoch.
    pub closed spec fn spec_secs(&self) -> i64 {
        self.secs
    }

    /// Nanoseconds within the second.
    pub closed spec fn spec_nanos(&self) -> u32 {
        self.nanos
    }

    /// The point `secs` seconds and `nanos` nanoseconds after the epoch, if
    /// it is representable.
    pub fn new(secs: i64, nanos: u32) -> (r: Option<Timespec>)
        ensures
            r is Some <==> timespec_valid(secs, nanos),
            r is Some ==> r->0.spec_secs() == secs && r->0.spec_nanos() == nanos,
    {
        if secs < MIN_TIMESPEC_SECS || secs > MAX_TIMESPEC_SECS {
            return None;
        }
        // Shifted to be non-negative, where `%` is the Euclidean remainder;
        // the shift is a whole number of minutes.
        let shifted: i64 = secs - MIN_TIMESPEC_SECS;
        let last_of_minute = shifted % 60 == 59;
        assert(MIN_TIMESPEC_SECS as int % 60 == 0);
        assert((secs as int) % 60 == (shifted as int) % 60) by {
            assert(secs as int == shifted as int + MIN_TIMESPEC_SECS as int);
            assert(MIN_TIMESPEC_SECS as int == -138910021920 * 60);
            vstd::arithmetic::div_mod::lemma_mod_multiples_vanish(-138910021920, shifted as int, 60);
        }
        if nanos < 1_000_000_000 || (nanos < 2_000_000_000 && last_of_minute) {
            Some(Timespec { secs, nanos })
        } else {
            None
        }
    }

    /// Seconds since the epoch.
    pub fn secs(&self) -> (r: i64)
        ensures
            r == self.spec_secs(),
    {
        self.secs
    }

    /// Nanoseconds within the second.
    pub fn nanos(&self) -> (r: u32)
        ensures
            r == self.spec_nanos(),
    {
        self.nanos
    }
}

/// A value bound to a placeholder, handed to the execution layer.
#[derive(Clone, Debug, PartialEq)]
pub enum SqlValue {
    Null,
    Bool(bool),
    I8(i8),
    I16(i16),
    I32(i32),
    I64(i64),
    Text(String),
    Timespec(Timespec),
}

impl SqlValue {
    /// A copy of the value that is known to equal it.
    pub fn duplicate(&self) -> (r: SqlValue)
        ensures
            r == *self,
    {
        match self {
            SqlValue::Null => SqlValue::Null,
            SqlValue::Bool(b) => SqlValue::Bool(*b),
            SqlValue::I8(v) => SqlValue::I8(*v),
            SqlValue::I16(v) => SqlValue::I16(*v),
            SqlValue::I32(v) => SqlValue::I32(*v),
            SqlValue::I64(v) => SqlValue::I64(*v),
            SqlValue::Text(s) => SqlValue::Text(s.clone()),
            SqlValue::Timespec(t) => SqlValue::Timespec(*t),
        }
    }
}

/// A Rust type that stands for one SQL value type; a field of type `T`
/// only accepts operands of type `T`.
pub trait SqlType: Sized {
    /// The bound value that `self` becomes.
    spec fn as_value(&self) -> SqlValue;

    fn to_value(self) -> (r: SqlValue)
        ensures
            r == self.as_value(),
    ;
}

impl SqlType for bool {
    open spec fn as_value(&self) -> SqlValue {
        SqlValue::Bool(*self)
    }

    fn to_value(self) -> (r: SqlValue) {
        SqlValue::Bool(self)
    }
}

impl SqlType for i8 {
    open spec fn as_value(&self) -> SqlValue {
        SqlValue::I8(*self)
    }

    fn to_value(self) -> (r: SqlValue) {
        SqlValue::I8(self)
    }
}

impl SqlType for i16 {
    open spec fn as_value(&self) -> SqlValue {
        SqlValue::I16(*self)
    }

    fn to_value(self) -> (r: SqlValue) {
        SqlValue::I16(self)
    }
}

impl SqlType for i32 {
    open spec fn as_value(&self) -> SqlValue {
        SqlValue::I32(*self)
    }

    fn to_value(self) -> (r: SqlValue) {
        SqlValue::I32(self)
    }
}

impl SqlType for i64 {
    open spec fn as_value(&self) -> SqlValue {
        SqlValue::I64(*self)
    }

    fn to_value(self) -> (r: SqlValue) {
        SqlValue::I64(self)
    }
}

impl SqlType for String {
    open spec fn as_value(&self) -> SqlValue {
        SqlValue::Text(*self)
    }

    fn to_value(self) -> (r: SqlValue) {
        SqlValue::Text(self)
    }
}

impl SqlType for Timespec {
    open spec fn as_value(&self) -> SqlValue {
        SqlValue::Timespec(*self)
    }

    fn to_value(self) -> (r: SqlValue) {
        SqlValue::Timespec(self)
    }
}

/// A nullable type: `None` is SQL `NULL`.
impl<T: SqlType> SqlType for Option<T> {
    open spec fn as_value(&self) -> SqlValue {
        match self {
            Some(v) => v.as_value(),
            None => SqlValue::Null,
        }
    }

    fn to_value(self) -> (r: SqlValue) {
        match self {
            Some(v) => v.to_value(),
            None => SqlValue::Null,
        }
    }
}

} // verus!
