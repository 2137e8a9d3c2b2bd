//! Scalars that can fill a default-initialized tensor, and a pair of
//! length-quantity component types showing heterogeneous-operand arithmetic.
//!
//! The arithmetic engine itself is generic over `core::ops`; unit conversion
//! between compatible quantities is the business of the component types, as
//! the `Meters` + `Centimeters` pair below demonstrates.

use vstd::prelude::*;

verus! {

/// A component type with a known default value, used to fill a
/// default-constructed tensor.
pub trait ScalarDefault: Sized {
    /// The default value itself.
    spec fn default_spec() -> Self;

    fn scalar_default() -> (r: Self)
        ensures
            r == Self::default_spec(),
    ;
}

impl ScalarDefault for i32 {
    open spec fn default_spec() -> i32 {
        0i32
    }

    fn scalar_default() -> i32 {
        0
    }
}

impl ScalarDefault for i64 {
    open spec fn default_spec() -> i64 {
        0i64
    }

    fn scalar_default() -> i64 {
        0
    }
}

impl ScalarDefault for u64 {
    open spec fn default_spec() -> u64 {
        0u64
    }

    fn scalar_default() -> u64 {
        0
    }
}

impl ScalarDefault for usize {
    open spec fn default_spec() -> usize {
        0usize
    }

    fn scalar_default() -> usize {
        0
    }
}

/// A length expressed in whole meters.
#[derive(Debug, Clone, Copy, PartialEq, Eq, Structural)]
pub struct Meters(pub i64);

/// A length expressed in whole centimeters.
#[derive(Debug, Clone, Copy, PartialEq, Eq, Structural)]
pub struct Centimeters(pub i64);

impl ScalarDefault for Meters {
    open spec fn default_spec() -> Meters {
        Meters(0)
    }

    fn scalar_default() -> Meters {
        Meters(0)
    }
}

impl ScalarDefault for Centimeters {
    open spec fn default_spec() -> Centimeters {
        Centimeters(0)
    }

    fn scalar_default() -> Centimeters {
        Centimeters(0)
    }
}

impl core::ops::Add<Centimeters> for Meters {
    type Output = Centimeters;

    /// Adding centimeters to meters converts the meters and yields
    /// centimeters: the engine above never sees the conversion.
    fn add(self, rhs: Centimeters) -> Centimeters {
        Centimeters(self.0 * 100 + rhs.0)
    }
}

impl vstd::std_specs::ops::AddSpecImpl<Centimeters> for Meters {
    open spec fn obeys_add_spec() -> bool {
        true
    }

    open spec fn add_req(self, rhs: Centimeters) -> bool {
        &&& i64::MIN <= self.0 * 100 <= i64::MAX
        &&& i64::MIN <= self.0 * 100 + rhs.0 <= i64::MAX
    }

    open spec fn add_spec(self, rhs: Centimeters) -> Centimeters {
        Centimeters((self.0 * 100 + rhs.0) as i64)
    }
}

impl core::ops::Add<Meters> for Centimeters {
    type Output = Centimeters;

    fn add(self, rhs: Meters) -> Centimeters {
        Centimeters(self.0 + rhs.0 * 100)
    }
}

impl vstd::std_specs::ops::AddSpecImpl<Meters> for Centimeters {
    open spec fn obeys_add_spec() -> bool {
        true
    }

    open spec fn add_req(self, rhs: Meters) -> bool {
        &&& i64::MIN <= rhs.0 * 100 <= i64::MAX
        &&& i64::MIN <= self.0 + rhs.0 * 100 <= i64::MAX
    }

    open spec fn add_spec(self, rhs: Meters) -> Centimeters {
        Centimeters((self.0 + rhs.0 * 100) as i64)
    }
}

} // verus!
