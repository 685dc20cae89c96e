use saab_audio::discovery::{attached_devices, lists_device};
use saab_audio::setup::{connection_offer, detected_ip, endpoint_host, preferred_device_index};

#[test]
fn adb_device_list_parsing() {
    let out = "List of devices attached\nemulator-5554\tdevice\nR58M12345\tunauthorized\n0123ABCD device product:x\n\n";
    assert_eq!(attached_devices(out), vec!["emulator-5554".to_string(), "0123ABCD".to_string()]);
    assert_eq!(attached_devices("List of devices attached\n\n"), Vec::<String>::new());
    assert_eq!(attached_devices(""), Vec::<String>::new());
    // A device on the title line is not counted; CRLF line endings are accepted.
    assert_eq!(attached_devices("abc device\r\nxyz device\r\n"), vec!["xyz".to_string()]);
    // Unicode whitespace separates words too.
    assert_eq!(attached_devices("t\n\u{3000}dev1\u{a0}device\n"), vec!["dev1".to_string()]);
    assert_eq!(attached_devices("t\nsolo\n"), Vec::<String>::new());
}

#[test]
fn adb_any_device_line() {
    assert!(!lists_device("List of devices attached\n\n"));
    assert!(lists_device("List of devices attached\nemulator-5554\tdevice\n"));
    assert!(!lists_device("List of devices attached\nR58M\tunauthorized\n"));
    assert!(!lists_device("only device title"));
    assert!(lists_device("x\nno permissions; see device.html"));
}

#[test]
fn endpoint_hosts() {
    assert_eq!(endpoint_host("192.168.1.5"), "192.168.1.5");
    assert_eq!(endpoint_host(" 10.0.0.2 :48480"), "10.0.0.2");
    assert_eq!(endpoint_host(":9"), "");
    assert_eq!(endpoint_host("   "), "");
}

#[test]
fn wizard_defaults() {
    let devices = vec!["MacBook Mic".to_string(), "BlackHole 16ch".to_string(), "USB".to_string()];
    assert_eq!(preferred_device_index(&devices, "USB"), 1);
    let devices = vec!["MacBook Mic".to_string(), "USB".to_string()];
    assert_eq!(preferred_device_index(&devices, "USB"), 1);
    assert_eq!(preferred_device_index(&devices, "Other"), 0);
    assert_eq!(preferred_device_index(&Vec::new(), "Other"), 0);

    assert_eq!(detected_ip(" 192.168.0.7\n"), Some("192.168.0.7".to_string()));
    assert_eq!(detected_ip("\n"), None);
    assert_eq!(detected_ip("error"), None);

    assert_eq!(
        connection_offer(true, Some("10.1.1.1".to_string()), "192.168.1.2"),
        ("wifi".to_string(), "10.1.1.1".to_string())
    );
    assert_eq!(
        connection_offer(true, None, "192.168.1.2"),
        ("wifi".to_string(), "192.168.1.2".to_string())
    );
    assert_eq!(
        connection_offer(true, None, "127.0.0.1"),
        ("wifi".to_string(), "192.168.15.5".to_string())
    );
    assert_eq!(connection_offer(true, None, ""), ("wifi".to_string(), "192.168.15.5".to_string()));
    assert_eq!(
        connection_offer(false, Some("10.1.1.1".to_string()), "192.168.1.2"),
        ("usb".to_string(), "127.0.0.1".to_string())
    );
}

#[test]
fn a_listed_device_is_seen_by_start() {
    for out in [
        "List of devices attached\nR58M123ABC\tdevice\n\n",
        "List of devices attached\r\nemulator-5554 device\r\n",
        "List of devices attached\nX unauthorized\nY\tdevice product:z\n",
    ] {
        assert!(!attached_devices(out).is_empty());
        assert!(lists_device(out));
    }
    let none = "List of devices attached\n\n";
    assert!(attached_devices(none).is_empty());
    assert!(!lists_device(none));
}
