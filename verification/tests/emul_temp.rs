use op_charge_controller::emul_temp::{
    emul_temp_payload, fake_batt_temp_payloads, is_thermal_zone_name, RESET_TARGET,
};

#[test]
fn fake_batt_temp_payloads_cover_every_index() {
    let payloads: Vec<String> = fake_batt_temp_payloads();
    assert_eq!(payloads, ["0 36000", "1 36000", "2 36000"]);
}

#[test]
fn emul_temp_payload_is_the_target_and_a_newline() {
    assert_eq!(emul_temp_payload(RESET_TARGET), "0\n");
    assert_eq!(emul_temp_payload(43000), "43000\n");
    assert_eq!(emul_temp_payload(12345), "12345\n");
    assert_eq!(emul_temp_payload(-5), "-5\n");
    assert_eq!(emul_temp_payload(i32::MIN), format!("{}\n", i32::MIN));
    assert_eq!(emul_temp_payload(i32::MAX), format!("{}\n", i32::MAX));
}

#[test]
fn only_thermal_zone_entries_are_thermal_zones() {
    assert!(is_thermal_zone_name("thermal_zone0"));
    assert!(is_thermal_zone_name("thermal_zone9"));
    assert!(is_thermal_zone_name("thermal_zone"));
    assert!(!is_thermal_zone_name("cooling_device0"));
    assert!(!is_thermal_zone_name("thermal_zon"));
    assert!(!is_thermal_zone_name("sensor"));
    assert!(!is_thermal_zone_name(""));
}
