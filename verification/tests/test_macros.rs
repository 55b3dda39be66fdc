use std::{fmt, num, str};

use serde_plain::{Error, PlainDeserializer, PlainSerializer};

#[derive(Eq, PartialEq, Debug)]
pub enum Test {
    FooBarBaz,
    BlahBlah,
}

// The variant names under a snake_case rename policy, in declaration order.
const TEST_VARIANTS: [&str; 2] = ["foo_bar_baz", "blah_blah"];

#[derive(Eq, PartialEq, Debug)]
pub enum Test2 {
    FooBarBaz,
    BlahBlah,
}

// Test2 has no rename policy: the names are the declared ones.
const TEST2_VARIANTS: [&str; 2] = ["FooBarBaz", "BlahBlah"];

#[derive(Debug, PartialEq, Eq)]
pub struct Test2Error;

impl From<Error> for Test2Error {
    fn from(_: Error) -> Test2Error {
        Test2Error
    }
}

#[derive(Eq, PartialEq, Debug)]
pub enum Test3 {
    FooBarBaz,
    BlahBlah,
}

const TEST3_VARIANTS: [&str; 2] = ["FooBarBaz", "BlahBlah"];

#[derive(Debug, PartialEq, Eq)]
pub struct Test3Error(String);

pub struct TestStruct(u32);

impl str::FromStr for TestStruct {
    type Err = num::ParseIntError;
    fn from_str(value: &str) -> Result<TestStruct, Self::Err> {
        Ok(TestStruct(value.parse()?))
    }
}

impl fmt::Display for TestStruct {
    fn fmt(&self, f: &mut fmt::Formatter) -> fmt::Result {
        f.write_str(&self.0.to_string())
    }
}

// Forwarding `FromStr` to the plain deserializer, with the crate's own error
// type.
impl str::FromStr for Test {
    type Err = Error;
    fn from_str(s: &str) -> Result<Test, Error> {
        match PlainDeserializer::new(s).deserialize_enum(&TEST_VARIANTS)? {
            0 => Ok(Test::FooBarBaz),
            _ => Ok(Test::BlahBlah),
        }
    }
}

// Forwarding `Display` to the plain serializer; a failure would panic, which
// cannot happen for a unit variant.
impl fmt::Display for Test {
    fn fmt(&self, f: &mut fmt::Formatter) -> fmt::Result {
        let variant = match self {
            Test::FooBarBaz => TEST_VARIANTS[0],
            Test::BlahBlah => TEST_VARIANTS[1],
        };
        f.write_str(&PlainSerializer.serialize_unit_variant("Test", 0, variant).unwrap())
    }
}

// Forwarding with a custom error type: `From<Error>` does the conversion.
impl str::FromStr for Test2 {
    type Err = Test2Error;
    fn from_str(s: &str) -> Result<Test2, Test2Error> {
        match PlainDeserializer::new(s).deserialize_enum(&TEST2_VARIANTS).map_err(Test2Error::from)? {
            0 => Ok(Test2::FooBarBaz),
            _ => Ok(Test2::BlahBlah),
        }
    }
}

// Forwarding with a custom conversion closure.
impl str::FromStr for Test3 {
    type Err = Test3Error;
    fn from_str(s: &str) -> Result<Test3, Test3Error> {
        let converted = PlainDeserializer::new(s)
            .deserialize_enum(&TEST3_VARIANTS)
            .map_err(|err| Test3Error(err.description().to_string()));
        match converted? {
            0 => Ok(Test3::FooBarBaz),
            _ => Ok(Test3::BlahBlah),
        }
    }
}

#[test]
fn test_macros_test_forward_basics() {
    assert_eq!(Test::FooBarBaz.to_string(), "foo_bar_baz");
    assert_eq!("foo_bar_baz".parse::<Test>().unwrap(), Test::FooBarBaz);
}

#[test]
fn test_forward_custom_error() {
    assert_eq!("whatever".parse::<Test2>(), Err(Test2Error));
}

#[test]
fn test_forward_custom_error_conversion() {
    assert_eq!(
        "whatever".parse::<Test3>(),
        Err(Test3Error(
            "unknown variant `whatever`, expected `FooBarBaz` or `BlahBlah`".to_string()
        ))
    );
}

#[test]
fn test_derive_deserialize() {
    let test: TestStruct = PlainDeserializer::new("42").deserialize_str().parse().unwrap();
    assert_eq!(TestStruct(42).0, test.0);
}

#[test]
fn test_derive_serialize() {
    let test = PlainSerializer.serialize_str(&TestStruct(42).to_string()).unwrap();
    assert_eq!("42", test.as_str());
}
