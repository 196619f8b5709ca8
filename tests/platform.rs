use secure_wipe::platform::{
    get_device_type, is_windows_device_path, list_logical_drives, list_physical_drives,
    physical_drive_path, DeviceType, PlatformError,
};

#[test]
fn device_types_by_path_shape() {
    assert_eq!(get_device_type(r"\\.\PhysicalDrive0"), DeviceType::PhysicalDrive);
    assert_eq!(get_device_type(r"\\.\PhysicalDrive12"), DeviceType::PhysicalDrive);
    assert_eq!(get_device_type(r"\\.\C:"), DeviceType::LogicalDrive);
    assert_eq!(get_device_type(r"\\.\CD:"), DeviceType::File);
    assert_eq!(get_device_type(r"\\.\C"), DeviceType::File);
    assert_eq!(get_device_type("/dev/sda"), DeviceType::File);
    assert_eq!(get_device_type(""), DeviceType::File);
}

#[test]
fn device_path_detection() {
    assert!(is_windows_device_path(r"\\.\PhysicalDrive3"));
    assert!(is_windows_device_path(r"\\.\D:"));
    assert!(!is_windows_device_path("C:\\data\\file.img"));
    assert!(!is_windows_device_path("/tmp/file.img"));
}

#[test]
fn physical_drive_paths() {
    assert_eq!(physical_drive_path(0), r"\\.\PhysicalDrive0");
    assert_eq!(physical_drive_path(9), r"\\.\PhysicalDrive9");
    assert_eq!(physical_drive_path(31), r"\\.\PhysicalDrive31");
}

#[test]
fn physical_drives_from_probe_mask() {
    let drives = list_physical_drives(0b11 | (1 << 12) | (1 << 31));
    assert_eq!(
        drives,
        vec![
            r"\\.\PhysicalDrive0".to_string(),
            r"\\.\PhysicalDrive1".to_string(),
            r"\\.\PhysicalDrive12".to_string(),
            r"\\.\PhysicalDrive31".to_string(),
        ]
    );
    assert!(list_physical_drives(0).is_empty());
}

#[test]
fn logical_drives_from_letter_mask() {
    assert_eq!(
        list_logical_drives(0b101),
        Ok(vec![r"\\.\A:".to_string(), r"\\.\C:".to_string()])
    );
    assert_eq!(list_logical_drives(1 << 25), Ok(vec![r"\\.\Z:".to_string()]));
    assert_eq!(list_logical_drives(0), Err(PlatformError::NoLogicalDrives));
}
