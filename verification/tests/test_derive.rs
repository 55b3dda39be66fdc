use std::fmt;
use std::str::FromStr;

use serde_plain::{Error, PlainDeserializer, PlainSerializer};

#[derive(Eq, PartialEq, Debug)]
pub enum Test {
    FooBarBaz,
    BlahBlah,
}

// The variant names under a snake_case rename policy, in declaration order.
const TEST_VARIANTS: [&str; 2] = ["foo_bar_baz", "blah_blah"];

impl FromStr for Test {
    type Err = Error;
    fn from_str(s: &str) -> Result<Test, Error> {
        match PlainDeserializer::new(s).deserialize_enum(&TEST_VARIANTS)? {
            0 => Ok(Test::FooBarBaz),
            _ => Ok(Test::BlahBlah),
        }
    }
}

impl fmt::Display for Test {
    fn fmt(&self, f: &mut fmt::Formatter) -> fmt::Result {
        let variant = match self {
            Test::FooBarBaz => TEST_VARIANTS[0],
            Test::BlahBlah => TEST_VARIANTS[1],
        };
        f.write_str(&PlainSerializer.serialize_unit_variant("Test", 0, variant).unwrap())
    }
}

#[test]
fn test_derive_test_forward_basics() {
    assert_eq!(Test::FooBarBaz.to_string(), "foo_bar_baz");
    assert_eq!("foo_bar_baz".parse::<Test>().unwrap(), Test::FooBarBaz);
}
