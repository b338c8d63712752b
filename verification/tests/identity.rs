use smartctl_exporter::trim_block_devices;
use smartctl_exporter::BlockDevice;

fn device(name: &str, model: Option<&str>, serial: Option<&str>) -> BlockDevice {
    BlockDevice {
        name: name.into(),
        maj_min: "8:0".into(),
        rm: false,
        size: "3.6T".into(),
        ro: false,
        block_device_type: "disk".into(),
        model: model.map(String::from),
        serial: serial.map(String::from),
        wwn: None,
        children: None,
    }
}

#[test]
fn signature_joins_model_and_serial() {
    assert_eq!(
        device("sda", Some("WDC WD40EFRX-68N32N0"), Some("WD-WCC7K0123456")).signature(),
        "WDC WD40EFRX-68N32N0_WD-WCC7K0123456"
    );
    assert_eq!(device("sda", Some(""), Some("")).signature(), "_");
    assert_eq!(device("sda", Some("a_b"), Some("c")).signature(), "a_b_c");
}

#[test]
fn signature_is_the_model_when_there_is_no_serial() {
    assert_eq!(device("sda", Some("Samsung SSD 860"), None).signature(), "Samsung SSD 860");
}

#[test]
fn signature_is_the_name_when_there_is_no_model() {
    assert_eq!(device("sda", None, None).signature(), "sda");
    assert_eq!(device("nvme0n1", None, Some("S4EVNF0M123456A")).signature(), "nvme0n1");
}

#[test]
fn signature_is_stable() {
    let disk = device("sdb", Some("Model"), Some("Serial"));
    assert_eq!(disk.signature(), disk.signature());
    assert_eq!(disk.signature(), device("sdz", Some("Model"), Some("Serial")).signature());
}

#[test]
fn signature_keeps_characters_outside_ascii() {
    assert_eq!(device("sda", Some("Plattë"), Some("№7")).signature(), "Plattë_№7");
}

#[test]
fn only_a_disk_is_a_disk() {
    let mut disk = device("sda", None, None);
    assert!(disk.is_disk());
    for other in ["rom", "part", "loop", "Disk", "disk ", "", "disks"] {
        disk.block_device_type = other.into();
        assert!(!disk.is_disk(), "{}", other);
    }
}

#[test]
fn vendor_strings_are_trimmed() {
    let mut padded = device("sda", Some("  WDC WD40EFRX  "), Some("\tWD-WCC7K0123456 \n"));
    padded.wwn = Some(" 0x50014ee2b5d4c0f1 ".into());
    let mut devices = vec![padded, device("sdb", Some("   "), None), device("sdc", None, Some("x"))];
    trim_block_devices(&mut devices);
    assert_eq!(devices.len(), 3);
    assert_eq!(devices[0].model.as_deref(), Some("WDC WD40EFRX"));
    assert_eq!(devices[0].serial.as_deref(), Some("WD-WCC7K0123456"));
    assert_eq!(devices[0].wwn.as_deref(), Some("0x50014ee2b5d4c0f1"));
    assert_eq!(devices[0].signature(), "WDC WD40EFRX_WD-WCC7K0123456");
    assert_eq!(devices[1].model.as_deref(), Some(""));
    assert_eq!(devices[1].serial, None);
    assert_eq!(devices[1].wwn, None);
    assert_eq!(devices[2].model, None);
    assert_eq!(devices[2].serial.as_deref(), Some("x"));
}

#[test]
fn trimming_leaves_the_rest_as_reported() {
    let mut child = device(" sda1 ", Some(" inner "), Some(" inner "));
    child.block_device_type = "part".into();
    let mut parent = device(" sda ", Some(" M "), Some(" S "));
    parent.maj_min = " 8:0 ".into();
    parent.size = " 1T ".into();
    parent.rm = true;
    parent.ro = true;
    parent.block_device_type = " disk ".into();
    parent.children = Some(vec![child]);
    parent.normalize();
    assert_eq!(parent.name, " sda ");
    assert_eq!(parent.maj_min, " 8:0 ");
    assert_eq!(parent.size, " 1T ");
    assert!(parent.rm);
    assert!(parent.ro);
    assert_eq!(parent.block_device_type, " disk ");
    assert_eq!(parent.model.as_deref(), Some("M"));
    assert_eq!(parent.serial.as_deref(), Some("S"));
    let children = parent.children.expect("children are kept");
    assert_eq!(children.len(), 1);
    assert_eq!(children[0].name, " sda1 ");
    assert_eq!(children[0].model.as_deref(), Some(" inner "));
    assert_eq!(children[0].serial.as_deref(), Some(" inner "));
}

#[test]
fn trimming_keeps_inner_whitespace_and_is_idempotent() {
    let mut disk = device("sda", Some("\u{a0} Samsung  SSD\u{3000}"), Some("a b"));
    disk.normalize();
    assert_eq!(disk.model.as_deref(), Some("Samsung  SSD"));
    assert_eq!(disk.serial.as_deref(), Some("a b"));
    disk.normalize();
    assert_eq!(disk.model.as_deref(), Some("Samsung  SSD"));
    assert_eq!(disk.serial.as_deref(), Some("a b"));
}

#[test]
fn trimmed_text_removes_the_margins_only() {
    assert_eq!(smartctl_exporter::text::trimmed_text(" a "), "a");
    assert_eq!(smartctl_exporter::text::trimmed_text("a"), "a");
    assert_eq!(smartctl_exporter::text::trimmed_text(""), "");
    assert_eq!(smartctl_exporter::text::trimmed_text(" \t\r\n"), "");
    assert_eq!(smartctl_exporter::text::trimmed_text("  a  b  "), "a  b");
}

#[test]
fn every_whitespace_character_is_trimmed() {
    let mut margins: Vec<char> = vec![
        '\u{20}', '\u{85}', '\u{a0}', '\u{1680}', '\u{2028}', '\u{2029}', '\u{202f}', '\u{205f}', '\u{3000}',
    ];
    margins.extend('\u{9}'..='\u{d}');
    margins.extend('\u{2000}'..='\u{200a}');
    assert_eq!(margins.len(), 25);
    for margin in margins {
        let padded = format!("{}WDC{}", margin, margin);
        assert_eq!(smartctl_exporter::text::trimmed_text(&padded), "WDC", "{:?}", margin);
    }
}

#[test]
fn other_characters_are_kept() {
    for kept in ['\u{8}', '\u{e}', '\u{1f}', '\u{180e}', '\u{200b}', '\u{2060}', '\u{feff}', '_', '0'] {
        let padded = format!("{}WDC{}", kept, kept);
        assert_eq!(smartctl_exporter::text::trimmed_text(&padded), padded, "{:?}", kept);
    }
}
