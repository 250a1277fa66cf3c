use op_charge_controller::mask::{masks_dir, NoParentDirectory};

fn check_masks_dir_is_next_to_executable() {
    let masks_dir = masks_dir("/system/bin/op_charge_controller");

    assert!(matches!(
        masks_dir,
        Ok(path) if path == "/system/bin/masks"
    ));
}

#[test]
fn masks_dir_is_next_to_executable() {
    check_masks_dir_is_next_to_executable();
}

#[test]
fn mask_masks_dir_is_next_to_executable() {
    check_masks_dir_is_next_to_executable();
}

fn check_masks_dir_rejects_executable_without_parent() {
    assert!(masks_dir("/").is_err());
}

#[test]
fn masks_dir_rejects_executable_without_parent() {
    check_masks_dir_rejects_executable_without_parent();
}

#[test]
fn mask_masks_dir_rejects_executable_without_parent() {
    check_masks_dir_rejects_executable_without_parent();
}

#[test]
fn masks_dir_of_a_relative_executable() {
    assert_eq!(masks_dir("op_charge_controller"), Ok("masks".to_string()));
    assert_eq!(masks_dir("bin/op"), Ok("bin/masks".to_string()));
    assert_eq!(masks_dir(""), Err(NoParentDirectory));
}

#[test]
fn masks_dir_joins_with_one_separator() {
    assert_eq!(masks_dir("/op_charge_controller"), Ok("/masks".to_string()));
    assert_eq!(masks_dir("/system//bin/op"), Ok("/system//bin/masks".to_string()));
    assert_eq!(masks_dir("/system/bin/"), Ok("/system/masks".to_string()));
}
