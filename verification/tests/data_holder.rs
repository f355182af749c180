use constella::transform::{DataHolder, Transformer};

#[derive(Debug, Default, PartialEq)]
struct Id(pub u64);

impl Transformer for Id {
    type DataType = u64;

    fn transform(&self) -> Self::DataType {
        self.0
    }

    fn revert(value: &Self::DataType) -> Self {
        Self(*value)
    }
}

#[test]
fn persistent_embed() {
    let value = Id::default();

    let wrapper = DataHolder::from(value);

    assert_eq!(wrapper, 0);

    let value_reverted = wrapper.into_value();

    assert_eq!(value_reverted, Id(0));
}
