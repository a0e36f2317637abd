use std::collections::HashMap;
use std::fmt;

use serde::de::MapAccess;
use serde::de::Visitor;
use serde_value::Value;

#[derive(Debug, PartialEq)]
struct ItemValue {
    value: Value,
}

struct ItemValueVisitor;

impl<'de> Visitor<'de> for ItemValueVisitor {
    type Value = ItemValue;

    fn expecting(&self, f: &mut fmt::Formatter) -> fmt::Result {
        f.write_str("struct ItemValue")
    }

    fn visit_map<A: MapAccess<'de>>(self, mut map: A) -> Result<ItemValue, A::Error> {
        let mut value: Option<Value> = None;
        while let Some(key) = map.next_key::<String>()? {
            match key.as_str() {
                "$value" => value = Some(map.next_value()?),
                _ => {
                    let _ignored: serde::de::IgnoredAny = map.next_value()?;
                },
            }
        }
        let value = value.ok_or_else(|| serde::de::Error::missing_field("$value"))?;
        Ok(ItemValue { value })
    }
}

impl<'de> serde::Deserialize<'de> for ItemValue {
    fn deserialize<D: serde::Deserializer<'de>>(deserializer: D) -> Result<ItemValue, D::Error> {
        deserializer.deserialize_struct("ItemValue", &["$value"], ItemValueVisitor)
    }
}

#[derive(Debug, PartialEq)]
struct Root {
    extra: HashMap<String, ItemValue>,
}

struct RootVisitor;

impl<'de> Visitor<'de> for RootVisitor {
    type Value = Root;

    fn expecting(&self, f: &mut fmt::Formatter) -> fmt::Result {
        f.write_str("struct Root")
    }

    fn visit_map<A: MapAccess<'de>>(self, mut map: A) -> Result<Root, A::Error> {
        let mut extra: HashMap<String, ItemValue> = HashMap::new();
        while let Some(key) = map.next_key::<String>()? {
            let value: ItemValue = map.next_value()?;
            extra.insert(key, value);
        }
        Ok(Root { extra })
    }
}

impl<'de> serde::Deserialize<'de> for Root {
    fn deserialize<D: serde::Deserializer<'de>>(deserializer: D) -> Result<Root, D::Error> {
        deserializer.deserialize_map(RootVisitor)
    }
}

#[test]
fn xml_root_values() {
    let expected = {
        let mut expected = Root { extra: HashMap::new() };
        expected.extra.insert(
            "Foo".to_string(),
            ItemValue { value: Value::String("42".to_string()) },
        );
        expected
    };

    let output: Root =
        serde_any::from_str("<Root><Foo>42</Foo></Root>", serde_any::Format::Xml).unwrap();
    assert_eq!(output, expected);
}
