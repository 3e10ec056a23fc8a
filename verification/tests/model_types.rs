use cfr_proto::{
    i128_to_string, usize_to_string, ModelAction, ModelSide, ModelType, ModelTypeError, Ratio,
    N_MODEL_TYPES,
};

#[test]
fn dense_index_round_trips() {
    for i in 0..N_MODEL_TYPES {
        let mt = ModelType::try_from(i).unwrap();
        assert_eq!(mt.index(), i);
    }
    assert_eq!(ModelType::try_from(4), Err(ModelTypeError::IndexOutOfBounds));
    assert_eq!(ModelType::try_from(100), Err(ModelTypeError::IndexOutOfBounds));
}

#[test]
fn all_lists_the_four_variants_in_order() {
    let all = ModelType::all();
    assert_eq!(all.len(), 4);
    assert_eq!(all[0], ModelType { side: ModelSide::Long, action: ModelAction::Opening });
    assert_eq!(all[1], ModelType { side: ModelSide::Long, action: ModelAction::Closing });
    assert_eq!(all[2], ModelType { side: ModelSide::Short, action: ModelAction::Opening });
    assert_eq!(all[3], ModelType { side: ModelSide::Short, action: ModelAction::Closing });
}

#[test]
fn labels_are_action_then_side() {
    assert_eq!(ModelType::try_from(0).unwrap().label(), "opening_long");
    assert_eq!(ModelType::try_from(1).unwrap().label(), "closing_long");
    assert_eq!(ModelType::try_from(2).unwrap().label(), "opening_short");
    assert_eq!(ModelType::try_from(3).unwrap().label(), "closing_short");
}

#[test]
fn closing_variant_keeps_the_side() {
    let mt = ModelType { side: ModelSide::Short, action: ModelAction::Opening };
    assert_eq!(mt.closing(), ModelType { side: ModelSide::Short, action: ModelAction::Closing });
}

#[test]
fn decimal_renderings_are_exact() {
    assert_eq!(usize_to_string(0), "0");
    assert_eq!(usize_to_string(9), "9");
    assert_eq!(usize_to_string(210), "210");
    assert_eq!(i128_to_string(0), "0");
    assert_eq!(i128_to_string(-57), "-57");
    assert_eq!(i128_to_string(1140), "1140");
    assert_eq!(i128_to_string(i128::MIN), "-170141183460469231731687303715884105728");
    assert_eq!(Ratio { num: 1140, den: 2 }.to_text(), "1140/2");
}
