use op_charge_controller::battery::{
    comma_field_text, parse_battery_capacity, parse_charge_type, parse_field_u32, FieldError,
    CELL_VOLTAGE_1_FIELD, CELL_VOLTAGE_2_FIELD, CURRENT_FIELD,
};

fn text(field: Option<Vec<char>>) -> Option<String> {
    field.map(|chars| chars.into_iter().collect())
}

fn check_parses_charge_type_field() {
    assert_eq!(parse_charge_type("0,1,2,3,4,5,6,7,8,15,10,11,5000\n"), Ok(15));
    assert_eq!(parse_charge_type(" 0,1,2,3,4,5,6,7,8, 14 ,10,11\n"), Ok(14));
}

#[test]
fn parses_charge_type_field() {
    check_parses_charge_type_field();
}

#[test]
fn battery_parses_charge_type_field() {
    check_parses_charge_type_field();
}

fn check_rejects_missing_charge_type_field() {
    assert_eq!(parse_charge_type("0,1,2"), Err(FieldError::Missing));
}

#[test]
fn rejects_missing_charge_type_field() {
    check_rejects_missing_charge_type_field();
}

#[test]
fn battery_rejects_missing_charge_type_field() {
    check_rejects_missing_charge_type_field();
}

#[test]
fn battery_rejects_missing_bcc_params_fields() {
    let content = "0,1,2";
    assert_eq!(comma_field_text(content, CELL_VOLTAGE_1_FIELD), None);
    assert_eq!(comma_field_text(content, CURRENT_FIELD), None);
    assert_eq!(comma_field_text(content, CELL_VOLTAGE_2_FIELD), None);
}

#[test]
fn bcc_params_fields_are_cut_at_commas_and_trimmed() {
    let content = "0,1,2,3,4,5,4400,7,-5000,9,10,4390\n";
    assert_eq!(text(comma_field_text(content, CELL_VOLTAGE_1_FIELD)), Some("4400".to_string()));
    assert_eq!(text(comma_field_text(content, CURRENT_FIELD)), Some("-5000".to_string()));
    assert_eq!(text(comma_field_text(content, CELL_VOLTAGE_2_FIELD)), Some("4390".to_string()));
    assert_eq!(text(comma_field_text(content, 12)), None);
    assert_eq!(text(comma_field_text(" a , b ,", 2)), Some(String::new()));
    assert_eq!(text(comma_field_text("", 0)), Some(String::new()));
    assert_eq!(text(comma_field_text("", 1)), None);
    assert_eq!(text(comma_field_text("x,\u{3000}y\u{2003},z", 1)), Some("y".to_string()));
}

#[test]
fn parses_battery_capacity() {
    for (content, expected) in [("65\n", 65), (" 2 ", 2)] {
        assert_eq!(parse_battery_capacity(content), Ok(expected));
    }
}

#[test]
fn battery_capacity_rejects_what_is_not_a_u8() {
    assert_eq!(parse_battery_capacity("256"), Err(FieldError::Invalid));
    assert_eq!(parse_battery_capacity(""), Err(FieldError::Invalid));
    assert_eq!(parse_battery_capacity("-1"), Err(FieldError::Invalid));
    assert_eq!(parse_battery_capacity("6 5"), Err(FieldError::Invalid));
    assert_eq!(parse_battery_capacity("+"), Err(FieldError::Invalid));
    assert_eq!(parse_battery_capacity("+100"), Ok(100));
    assert_eq!(parse_battery_capacity("255"), Ok(255));
    assert_eq!(parse_battery_capacity("007"), Ok(7));
}

#[test]
fn charge_type_rejects_what_is_not_a_u32() {
    assert_eq!(parse_charge_type("0,1,2,3,4,5,6,7,8,x15,10"), Err(FieldError::Invalid));
    assert_eq!(parse_charge_type("0,1,2,3,4,5,6,7,8,,10"), Err(FieldError::Invalid));
    assert_eq!(parse_field_u32("4294967295", 0), Ok(u32::MAX));
    assert_eq!(parse_field_u32("4294967296", 0), Err(FieldError::Invalid));
    assert_eq!(parse_field_u32("99999999999999999999", 0), Err(FieldError::Invalid));
    assert_eq!(parse_field_u32("1,2", 1), Ok(2));
}

#[test]
fn integer_parses_agree_with_str_parse() {
    for s in ["0", "+7", "12", " 3 ", "-3", "", "+", "++1", "1_0", "4294967295", "4294967296", "٣"] {
        assert_eq!(parse_field_u32(s, 0).ok(), s.trim().parse::<u32>().ok(), "{s:?}");
        assert_eq!(parse_battery_capacity(s).ok(), s.trim().parse::<u8>().ok(), "{s:?}");
    }
}
