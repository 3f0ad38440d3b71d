use vstd::prelude::*;

verus! {

/// The field shapes that a derive-time code generator recognizes, used for
/// its diagnostics. Adding support for a field shape there means adding its
/// tag here.
#[derive(Clone, Copy, PartialEq, Eq, Structural)]
pub enum TypeEnum {
    String,
    VecU8,
    Boolean,
    U16,
    U64,
    U128,
    Number,
    SignedInteger,
    UnsignedInteger,
    OptionU16,
    OptionString,
    IpAddr,
    Ipv4Addr,
    Ipv6Addr,
    Host,
    Protocol,
    Serde,
    Version,
    VersionReq,
    Url,
    CollectionLength,
}

impl TypeEnum {
    /// The Rust type (or types) that the tag stands for, as written in a
    /// diagnostic.
    pub open spec fn type_text(self) -> Seq<char> {
        match self {
            TypeEnum::String => "String"@,
            TypeEnum::VecU8 => "Vec<u8>"@,
            TypeEnum::Boolean => "bool"@,
            TypeEnum::U16 => "u16"@,
            TypeEnum::U64 => "u64"@,
            TypeEnum::U128 => "u128"@,
            TypeEnum::Number => "f32 | f64"@,
            TypeEnum::SignedInteger => "isize | i8 | i16 | i32 | i64 | i128"@,
            TypeEnum::UnsignedInteger => "usize | u8 | u16 | u32 | u64 | u128"@,
            TypeEnum::OptionU16 => "Option<u16>"@,
            TypeEnum::OptionString => "Option<String>"@,
            TypeEnum::IpAddr => "std::net::IpAddr"@,
            TypeEnum::Ipv4Addr => "std::net::Ipv4Addr"@,
            TypeEnum::Ipv6Addr => "std::net::Ipv6Addr"@,
            TypeEnum::Host => "crate::validators::models::Host"@,
            TypeEnum::Protocol => "crate::validators::models::Protocol"@,
            TypeEnum::Serde => "T: crate::serde::se::Serialize + crate::serde::de::Deserialize"@,
            TypeEnum::Version => "crate::semver::Version"@,
            TypeEnum::VersionReq => "crate::semver::VersionReq"@,
            TypeEnum::Url => "url::Url"@,
            TypeEnum::CollectionLength => "T: crate::validators::traits::CollectionLength"@,
        }
    }

    pub fn as_str(&self) -> (r: &'static str)
        ensures
            r@ == self.type_text(),
    {
        match self {
            TypeEnum::String => "String",
            TypeEnum::VecU8 => "Vec<u8>",
            TypeEnum::Boolean => "bool",
            TypeEnum::U16 => "u16",
            TypeEnum::U64 => "u64",
            TypeEnum::U128 => "u128",
            TypeEnum::Number => "f32 | f64",
            TypeEnum::SignedInteger => "isize | i8 | i16 | i32 | i64 | i128",
            TypeEnum::UnsignedInteger => "usize | u8 | u16 | u32 | u64 | u128",
            TypeEnum::OptionU16 => "Option<u16>",
            TypeEnum::OptionString => "Option<String>",
            TypeEnum::IpAddr => "std::net::IpAddr",
            TypeEnum::Ipv4Addr => "std::net::Ipv4Addr",
            TypeEnum::Ipv6Addr => "std::net::Ipv6Addr",
            TypeEnum::Host => "crate::validators::models::Host",
            TypeEnum::Protocol => "crate::validators::models::Protocol",
            TypeEnum::Serde => "T: crate::serde::se::Serialize + crate::serde::de::Deserialize",
            TypeEnum::Version => "crate::semver::Version",
            TypeEnum::VersionReq => "crate::semver::VersionReq",
            TypeEnum::Url => "url::Url",
            TypeEnum::CollectionLength => "T: crate::validators::traits::CollectionLength",
        }
    }
}

} // verus!
