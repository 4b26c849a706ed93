use pcics::header::class_code::ClassCode;

#[test]
fn meaning() {
    let data = [0x00, 0x00, 0x05];
    let result: ClassCode = data.try_into().unwrap();
    let result = result.meaning();
    assert_eq!(("Memory controller", Some("RAM memory"), None), result);
}

#[test]
fn class_code_bytes_are_interface_sub_base() {
    let code = ClassCode::from([0x30, 0x03, 0x0c]);
    assert_eq!(
        ClassCode {
            interface: 0x30,
            sub: 0x03,
            base: 0x0c
        },
        code
    );
    assert_eq!(
        ("Serial bus controller", Some("USB controller"), Some("XHCI")),
        code.meaning()
    );
}

#[test]
fn class_code_default_is_all_zero() {
    let code = ClassCode::default();
    assert_eq!((0, 0, 0), (code.interface, code.sub, code.base));
    assert_eq!(
        (
            "Unclassified device",
            Some("Non-VGA unclassified device"),
            None
        ),
        code.meaning()
    );
}

#[test]
fn meaning_of_each_depth() {
    let name = |base, sub, interface| {
        let code = ClassCode {
            interface,
            sub,
            base,
        };
        let (class, subclass, interface) = code.meaning();
        (
            class.to_string(),
            subclass.map(|s| s.to_string()),
            interface.map(|s| s.to_string()),
        )
    };
    let own = |class: &str, subclass: Option<&str>, interface: Option<&str>| {
        (
            class.to_string(),
            subclass.map(|s| s.to_string()),
            interface.map(|s| s.to_string()),
        )
    };
    // The class alone.
    assert_eq!(own("Non-Essential Instrumentation", None, None), name(0x13, 0x00, 0x00));
    assert_eq!(own("Coprocessor", None, None), name(0x40, 0x12, 0x34));
    assert_eq!(own("Unassigned class", None, None), name(0xff, 0xff, 0xff));
    assert_eq!(own("Processor", None, None), name(0x0b, 0x03, 0x00));
    // Class and sub-class; the interface is not looked at.
    assert_eq!(
        own("Network controller", Some("Ethernet controller"), None),
        name(0x02, 0x00, 0x00)
    );
    assert_eq!(
        own("Network controller", Some("Ethernet controller"), None),
        name(0x02, 0x00, 0x77)
    );
    assert_eq!(
        own("Bridge", Some("Host bridge"), None),
        name(0x06, 0x00, 0x00)
    );
    // All three.
    assert_eq!(
        own("Bridge", Some("PCI bridge"), Some("Normal decode")),
        name(0x06, 0x04, 0x00)
    );
    assert_eq!(
        own("Bridge", Some("PCI bridge"), Some("Subtractive decode")),
        name(0x06, 0x04, 0x01)
    );
    assert_eq!(own("Bridge", Some("PCI bridge"), None), name(0x06, 0x04, 0x02));
    assert_eq!(
        own(
            "Mass storage controller",
            Some("SATA controller"),
            Some("AHCI 1.0")
        ),
        name(0x01, 0x06, 0x01)
    );
    assert_eq!(
        own(
            "Communication controller",
            Some("Parallel controller"),
            Some("IEEE1284 Target")
        ),
        name(0x07, 0x01, 0xfe)
    );
    assert_eq!(
        own(
            "Generic system peripheral",
            Some("Timing Card"),
            Some("TAP Timing Card")
        ),
        name(0x08, 0x99, 0x01)
    );
}

#[test]
fn meaning_of_unassigned_base_is_reserved() {
    for base in 0x14..=0xfeu8 {
        if base == 0x40 {
            continue;
        }
        for (sub, interface) in [(0x00, 0x00), (0x01, 0x05), (0xff, 0xff)] {
            let code = ClassCode {
                interface,
                sub,
                base,
            };
            assert_eq!(("Reserved", None, None), code.meaning());
        }
    }
}

#[test]
fn meaning_names_an_interface_only_within_a_named_subclass() {
    for base in 0..=0xffu8 {
        for sub in 0..=0xffu8 {
            for interface in 0..=0xffu8 {
                let code = ClassCode {
                    interface,
                    sub,
                    base,
                };
                let (class, subclass, interface) = code.meaning();
                assert!(!class.is_empty());
                assert!(interface.is_none() || subclass.is_some());
            }
        }
    }
}
