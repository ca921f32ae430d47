use rs_collector::number::ParseIntError;
use rs_collector::utils::uuid_to_decimal;

#[test]
fn uuid_to_decimal_okay() {
    let uuid = "d6a51a3a-b378-11e4-924b-23b6ec126a13";

    let decimal = uuid_to_decimal(uuid).unwrap();

    assert_eq!(decimal, 39268551649811)
}

#[test]
fn uuid_to_decimal_takes_the_node_part() {
    assert_eq!(uuid_to_decimal("5a62afb9-7f4a-11e6-a433-cb070bd9b4be"), Ok(223231124026558));
    assert_eq!(uuid_to_decimal("49329803-8175-11e6-ac89-377dc5eb0077"), Ok(61013330952311));
    assert_eq!(uuid_to_decimal("00000000-0000-0000-0000-FFFFFFFFFFFF"), Ok(0xffff_ffff_ffff));
}

#[test]
fn uuid_to_decimal_rejects_what_is_no_number() {
    assert_eq!(uuid_to_decimal("d6a51a3a-b378-11e4-924b-"), Err(ParseIntError::Empty));
    assert_eq!(uuid_to_decimal("d6a51a3a-b378-11e4-924b-23b6ec126g13"), Err(ParseIntError::InvalidDigit));
    assert_eq!(
        uuid_to_decimal("d6a51a3a-b378-11e4-924b-ffffffffffffffffff"),
        Err(ParseIntError::PosOverflow)
    );
    assert_eq!(uuid_to_decimal("d6a51a3a-b378-11e4-924b--1f"), Ok(-31));
}
