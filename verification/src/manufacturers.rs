//! Manufacturers of the known models.
use vstd::prelude::*;
use vstd::string::StringExecFns;

verus! {

#[derive(Clone, Copy, Debug, PartialEq, Eq)]
pub enum Manufacturers {
    Audiocloud,
    Distopik,
    Netio,
    Elysia,
}

/// The name of a manufacturer as used in model ids.
pub open spec fn manufacturer_name(m: Manufacturers) -> Seq<char> {
    match m {
        Manufacturers::Audiocloud => "audiocloud"@,
        Manufacturers::Distopik => "distopik"@,
        Manufacturers::Netio => "netio"@,
        Manufacturers::Elysia => "elysia"@,
    }
}

impl Manufacturers {
    /// The name of the manufacturer as used in model ids.
    pub fn to_string(&self) -> (s: String)
        ensures
            s@ == manufacturer_name(*self),
    {
        match self {
            Manufacturers::Audiocloud => String::from_str("audiocloud"),
            Manufacturers::Distopik => String::from_str("distopik"),
            Manufacturers::Netio => String::from_str("netio"),
            Manufacturers::Elysia => String::from_str("elysia"),
        }
    }
}

} // verus!
