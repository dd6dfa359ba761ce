//! The SS58 address format that a chain specification asks for.
//!
//! A chain specification may carry an `ss58Format` property. When it does,
//! the node makes the format with that prefix the process-wide default
//! before it works with the chain.
use vstd::prelude::*;
use sp_core::crypto::Ss58AddressFormat;

verus! {

#[verifier::external_type_specification]
#[verifier::external_body]
pub struct ExSs58AddressFormat(sp_core::crypto::Ss58AddressFormat);

/// The address format that `Ss58AddressFormat::custom` makes for a prefix.
pub uninterp spec fn ss58_custom(prefix: u16) -> Ss58AddressFormat;

/// Calls `Ss58AddressFormat::custom` (re-exported by `sp_core::crypto` from
/// `ss58_registry`), which builds the format that carries `prefix`; the
/// contract names that format and says no more of it.
#[verifier::external_body]
fn custom_address_format(prefix: u16) -> (res: Ss58AddressFormat)
    ensures
        res == ss58_custom(prefix),
{
    Ss58AddressFormat::custom(prefix)
}

/// The process-wide default SS58 address format, as seen through this
/// handle: the default read when the handle was made, then each format handed
/// to `sp_core`'s setter through the handle. Other code of the process that
/// sets the default without the handle is not seen by it.
pub struct Ss58DefaultHandle {
    format: Ss58AddressFormat,
}

impl Ss58DefaultHandle {
    /// The default format as seen through this handle.
    pub closed spec fn format(&self) -> Ss58AddressFormat {
        self.format
    }

    /// A handle on the process-wide default as it is now.
    pub fn read() -> (res: Ss58DefaultHandle) {
        read_default_ss58_version()
    }
}

/// Calls `sp_core::crypto::default_ss58_version`, which loads the process-wide
/// default from an atomic. What it holds depends on the process, so the
/// contract states nothing of the format read.
#[verifier::external_body]
fn read_default_ss58_version() -> (res: Ss58DefaultHandle) {
    Ss58DefaultHandle { format: sp_core::crypto::default_ss58_version() }
}

/// Calls `sp_core::crypto::set_default_ss58_version`, which stores the prefix
/// of `format` in the process-wide default, and records in the handle that
/// `format` is what was handed to it. The contract says that the handle now
/// holds `format`; it says nothing of the default that other code may set.
#[verifier::external_body]
fn install_default_ss58_version(default: &mut Ss58DefaultHandle, format: Ss58AddressFormat)
    ensures
        final(default).format() == format,
{
    sp_core::crypto::set_default_ss58_version(format);
    default.format = format;
}

/// What the `ss58Format` property of a chain specification holds.
#[derive(Debug, Clone, Copy, PartialEq, Eq, Structural)]
pub enum Ss58FormatProperty {
    /// The chain specification has no `ss58Format` property.
    Missing,
    /// The property is a JSON number that fits in an unsigned 64-bit integer.
    Unsigned(u64),
    /// The property is there but is not an unsigned 64-bit number.
    NotUnsigned,
}

/// Why an `ss58Format` property cannot be used.
#[derive(Debug, Clone, Copy, PartialEq, Eq, Structural)]
pub enum Ss58PropertyProblem {
    /// The property is not an unsigned number.
    NotUnsignedNumber,
    /// The property is an unsigned number above `u16::MAX`.
    OutOfU16Range,
}

/// The problem with a property, if it has one.
pub open spec fn property_problem(p: Ss58FormatProperty) -> Option<Ss58PropertyProblem> {
    match p {
        Ss58FormatProperty::Missing => None,
        Ss58FormatProperty::Unsigned(n) => if n <= u16::MAX {
            None
        } else {
            Some(Ss58PropertyProblem::OutOfU16Range)
        },
        Ss58FormatProperty::NotUnsigned => Some(Ss58PropertyProblem::NotUnsignedNumber),
    }
}

/// The address format that a usable property asks for: none when the
/// property is missing, else the custom format with the property as prefix.
pub open spec fn requested_format(p: Ss58FormatProperty) -> Option<Ss58AddressFormat> {
    match p {
        Ss58FormatProperty::Unsigned(n) => if n <= u16::MAX {
            Some(ss58_custom(n as u16))
        } else {
            None
        },
        _ => None,
    }
}

/// The process-wide default address format after a usable property is
/// applied to the default `current`: the requested format, or `current` when
/// the property asks for none.
pub open spec fn next_default_format(p: Ss58FormatProperty, current: Ss58AddressFormat) -> Ss58AddressFormat {
    match requested_format(p) {
        Some(format) => format,
        None => current,
    }
}

/// The message the node stops with when the property has this problem.
pub open spec fn problem_message(problem: Ss58PropertyProblem) -> Seq<char> {
    match problem {
        Ss58PropertyProblem::NotUnsignedNumber => "ss58Format must always be an unsigned number; qed"@,
        Ss58PropertyProblem::OutOfU16Range => "ss58Format must always be within u16 range; qed: TryFromIntError(())"@,
    }
}

impl Ss58PropertyProblem {
    /// The message the node stops with when the property has this problem.
    pub fn message(&self) -> (res: String)
        ensures
            res@ == problem_message(*self),
            *self == Ss58PropertyProblem::NotUnsignedNumber ==> res@
                == "ss58Format must always be an unsigned number; qed"@,
            *self == Ss58PropertyProblem::OutOfU16Range ==> res@
                == "ss58Format must always be within u16 range; qed: TryFromIntError(())"@,
    {
        match self {
            Ss58PropertyProblem::NotUnsignedNumber => String::from_str(
                "ss58Format must always be an unsigned number; qed",
            ),
            Ss58PropertyProblem::OutOfU16Range => String::from_str(
                "ss58Format must always be within u16 range; qed: TryFromIntError(())",
            ),
        }
    }
}

/// Checks an `ss58Format` property: a missing property, or an unsigned
/// number within `u16` range, is usable.
pub fn ss58_property_problem(property: Ss58FormatProperty) -> (res: Option<Ss58PropertyProblem>)
    ensures
        res == property_problem(property),
        res is None <==> (property is Missing || (property matches Ss58FormatProperty::Unsigned(n)
            && n <= u16::MAX)),
        res == Some(Ss58PropertyProblem::OutOfU16Range) <==> (property matches Ss58FormatProperty::Unsigned(n)
            && n > u16::MAX),
        res == Some(Ss58PropertyProblem::NotUnsignedNumber) <==> property is NotUnsigned,
{
    match property {
        Ss58FormatProperty::Missing => None,
        Ss58FormatProperty::Unsigned(n) => if n <= 0xffff {
            None
        } else {
            Some(Ss58PropertyProblem::OutOfU16Range)
        },
        Ss58FormatProperty::NotUnsigned => Some(Ss58PropertyProblem::NotUnsignedNumber),
    }
}

/// The address format a usable `ss58Format` property asks for.
pub fn ss58_address_format(property: Ss58FormatProperty) -> (res: Option<Ss58AddressFormat>)
    requires
        property_problem(property) is None,
    ensures
        res == requested_format(property),
        property is Missing ==> res is None,
        property matches Ss58FormatProperty::Unsigned(n) ==> res == Some(ss58_custom(n as u16)),
{
    match property {
        Ss58FormatProperty::Unsigned(n) => Some(custom_address_format(n as u16)),
        _ => None,
    }
}

/// The default address format that applying a usable property to the
/// default `current` leaves: the format the property asks for, or `current`
/// when the chain specification has no `ss58Format` property.
pub fn next_default_ss58_version(property: Ss58FormatProperty, current: Ss58AddressFormat) -> (next:
    Ss58AddressFormat)
    requires
        property_problem(property) is None,
    ensures
        next == next_default_format(property, current),
        property is Missing ==> next == current,
        property matches Ss58FormatProperty::Unsigned(n) ==> next == ss58_custom(n as u16),
{
    match ss58_address_format(property) {
        Some(format) => format,
        None => current,
    }
}

/// Makes the address format that the chain specification asks for the
/// process-wide default: the format is handed to `sp_core`'s setter through
/// `default`. A chain specification without `ss58Format` hands nothing over
/// and leaves the default as it is.
pub fn set_default_ss58_version(property: Ss58FormatProperty, default: &mut Ss58DefaultHandle)
    requires
        property_problem(property) is None,
    ensures
        final(default).format() == next_default_format(property, old(default).format()),
        property is Missing ==> final(default).format() == old(default).format(),
        property matches Ss58FormatProperty::Unsigned(n) ==> final(default).format() == ss58_custom(
            n as u16,
        ),
{
    if let Some(format) = ss58_address_format(property) {
        install_default_ss58_version(default, format);
    }
}

/// Applying a chain specification's address format is idempotent: applying
/// it a second time leaves the default it left the first time.
pub proof fn lemma_apply_twice_same_default(property: Ss58FormatProperty, current: Ss58AddressFormat)
    requires
        property_problem(property) is None,
    ensures
        next_default_format(property, next_default_format(property, current))
            == next_default_format(property, current),
{
}

/// The default left by a usable property depends on that property alone
/// when it asks for a format: a property with prefix `k` leaves the format
/// with prefix `k`, whatever the default was; a missing property leaves the
/// default unchanged.
pub proof fn lemma_default_follows_property(
    property: Ss58FormatProperty,
    current_a: Ss58AddressFormat,
    current_b: Ss58AddressFormat,
)
    requires
        property_problem(property) is None,
    ensures
        property matches Ss58FormatProperty::Unsigned(k) ==> {
            &&& next_default_format(property, current_a) == ss58_custom(k as u16)
            &&& next_default_format(property, current_a) == next_default_format(property, current_b)
        },
        property is Missing ==> next_default_format(property, current_a) == current_a,
{
}

/// Every unsigned prefix that fits in `u16` is usable and makes the custom
/// format with that prefix the default, whatever the default was; every
/// larger one is refused as out of range, and a value that is not an
/// unsigned number is refused as such.
pub proof fn lemma_usable_prefixes(n: u64, current: Ss58AddressFormat)
    ensures
        n <= u16::MAX ==> property_problem(Ss58FormatProperty::Unsigned(n)) is None,
        n <= u16::MAX ==> next_default_format(Ss58FormatProperty::Unsigned(n), current) == ss58_custom(
            n as u16,
        ),
        n > u16::MAX ==> property_problem(Ss58FormatProperty::Unsigned(n)) == Some(
            Ss58PropertyProblem::OutOfU16Range,
        ),
        property_problem(Ss58FormatProperty::Missing) is None,
        next_default_format(Ss58FormatProperty::Missing, current) == current,
        property_problem(Ss58FormatProperty::NotUnsigned) == Some(
            Ss58PropertyProblem::NotUnsignedNumber,
        ),
{
}

} // verus!
