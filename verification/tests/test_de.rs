use std::str::FromStr;

use serde_plain::{Error, PlainDeserializer};

#[derive(PartialEq, Eq, Debug)]
pub enum Test {
    FooBarBaz,
    BlahBlah,
}

// The variant names under a snake_case rename policy, in declaration order.
const TEST_VARIANTS: [&str; 2] = ["foo_bar_baz", "blah_blah"];

impl FromStr for Test {
    type Err = Error;
    fn from_str(value: &str) -> Result<Test, Error> {
        match PlainDeserializer::new(value).deserialize_enum(&TEST_VARIANTS)? {
            0 => Ok(Test::FooBarBaz),
            _ => Ok(Test::BlahBlah),
        }
    }
}

#[derive(PartialEq, Eq, Debug)]
pub struct NewInt(pub i32);

#[test]
fn test_de_test_basics() {
    assert_eq!(PlainDeserializer::new("aha").deserialize_str(), "aha");
    assert_eq!(PlainDeserializer::new("42").deserialize_i32().unwrap(), 42);
    assert_eq!(PlainDeserializer::new("true").deserialize_bool().unwrap(), true);
    assert_eq!(PlainDeserializer::new("false").deserialize_bool().unwrap(), false);
    assert_eq!(PlainDeserializer::new("").deserialize_unit().unwrap(), ());
    assert_eq!(
        PlainDeserializer::new("").deserialize_option().map(|d| d.deserialize_unit().unwrap()),
        None
    );
    assert_eq!(
        PlainDeserializer::new("42").deserialize_option().map(|d| d.deserialize_string()),
        Some("42".into())
    );
    assert_eq!(
        PlainDeserializer::new("42").deserialize_option().map(|d| d.deserialize_str()),
        Some("42")
    );
    assert_eq!("blah_blah".parse::<Test>().unwrap(), Test::BlahBlah);
    assert_eq!(
        NewInt(
            PlainDeserializer::new("42")
                .deserialize_newtype_struct("NewInt")
                .deserialize_i32()
                .unwrap()
        ),
        NewInt(42)
    );
}

#[test]
fn test_from_str() {
    assert_eq!("foo_bar_baz".parse::<Test>().unwrap(), Test::FooBarBaz);
}
