use addr_resolver::config::{join_lines, render_config, render_lines, Addresses};
use addr_resolver::slots::Slot;

fn addresses() -> Addresses {
    Addresses {
        update: 0x1000,
        create: 0x1100,
        shutdown: 0x1200,
        notify: 0x2000,
        wait: 0x5000,
        get_instance: 0x7000,
    }
}

#[test]
fn configuration_has_the_fixed_lines_in_order() {
    let text = render_config(42, "1.2.3", &addresses());
    let expected = "!42\n\
                    version str 1.2.3\n\
                    update addr 0x1000\n\
                    updateType str QRect\n\
                    create addr 0x1100\n\
                    shutdown addr 0x1200\n\
                    notify addr 0x2000\n\
                    wait addr 0x5000\n\
                    getInstance addr 0x7000\n";
    assert_eq!(text, expected);
}

#[test]
fn configuration_has_a_marker_and_eight_entries() {
    let lines = render_lines(42, "1.2.3", &addresses());
    assert_eq!(lines[0], "!42");
    let entries: Vec<&String> = lines.iter().skip(1).collect();
    assert_eq!(entries.len(), 8);
    assert_eq!(
        entries,
        vec![
            "version str 1.2.3",
            "update addr 0x1000",
            "updateType str QRect",
            "create addr 0x1100",
            "shutdown addr 0x1200",
            "notify addr 0x2000",
            "wait addr 0x5000",
            "getInstance addr 0x7000",
        ]
    );
}

#[test]
fn configuration_writes_addresses_in_lower_case_hexadecimal() {
    let all = Addresses {
        update: 0xABCDEF,
        create: 0,
        shutdown: u64::MAX,
        notify: 10,
        wait: 0x10,
        get_instance: 0xdead_beef,
    };
    let lines = render_lines(0, "", &all);
    assert_eq!(lines[0], "!0");
    assert_eq!(lines[1], "version str ");
    assert_eq!(lines[2], "update addr 0xabcdef");
    assert_eq!(lines[4], "create addr 0x0");
    assert_eq!(lines[5], "shutdown addr 0xffffffffffffffff");
    assert_eq!(lines[6], "notify addr 0xa");
    assert_eq!(lines[7], "wait addr 0x10");
    assert_eq!(lines[8], "getInstance addr 0xdeadbeef");
}

#[test]
fn configuration_agrees_with_the_standard_formatting() {
    let all = addresses();
    let mut expected = String::new();
    expected.push_str(&format!("!{}\n", 20221026u64));
    expected.push_str(&format!("version str {}\n", "3.0.4.1305"));
    expected.push_str(&format!("update addr {:#01x}\n", all.update));
    expected.push_str("updateType str QRect\n");
    expected.push_str(&format!("create addr {:#01x}\n", all.create));
    expected.push_str(&format!("shutdown addr {:#01x}\n", all.shutdown));
    expected.push_str(&format!("notify addr {:#01x}\n", all.notify));
    expected.push_str(&format!("wait addr {:#01x}\n", all.wait));
    expected.push_str(&format!("getInstance addr {:#01x}\n", all.get_instance));
    assert_eq!(render_config(20221026, "3.0.4.1305", &all), expected);
}

#[test]
fn joined_lines_end_with_a_line_feed_each() {
    assert_eq!(join_lines(&Vec::new()), "");
    assert_eq!(join_lines(&vec!["a".to_string()]), "a\n");
    assert_eq!(join_lines(&vec!["a".to_string(), String::new(), "b c".to_string()]), "a\n\nb c\n");
}

#[test]
fn addresses_are_read_by_slot() {
    let all = addresses();
    assert_eq!(all.get(Slot::Update), 0x1000);
    assert_eq!(all.get(Slot::Create), 0x1100);
    assert_eq!(all.get(Slot::Shutdown), 0x1200);
    assert_eq!(all.get(Slot::Notify), 0x2000);
    assert_eq!(all.get(Slot::Wait), 0x5000);
    assert_eq!(all.get(Slot::GetInstance), 0x7000);
}
