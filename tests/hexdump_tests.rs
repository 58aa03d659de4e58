use ion_tpu::hexdump::hexdump;

/// The dump as the formatting macros lay it out.
fn reference_dump(data: &[u8], mut start_addr: usize) -> String {
    let mut s = String::new();
    s += &format!("{:-^1$}\n", " hexdump ", 70);
    for offset in (0..data.len()).step_by(16) {
        s += &format!("{:08x} ", start_addr);
        start_addr += 0x10;
        for i in 0..16 {
            if offset + i < data.len() {
                s += &format!("{:02x} ", data[offset + i]);
            } else {
                s += &format!("{:02} ", "");
            }
        }
        s += &format!("{:>6}", ' ');
        for i in 0..16 {
            if offset + i < data.len() {
                let c = data[offset + i];
                if c >= 0x20 && c <= 0x7e {
                    s += &format!("{}", c as char);
                } else {
                    s += ".";
                }
            } else {
                s += &format!("{:02} ", "");
            }
        }
        s += "\n";
    }
    s += &format!("{:-^1$}\n", " hexdump end ", 70);
    s
}

#[test]
fn hexdump_matches_layout() {
    let data: Vec<u8> = (0u8..40).map(|i| i.wrapping_mul(7).wrapping_add(30)).collect();
    let text = hexdump(&data, 0x8000_0ff0);
    assert_eq!(String::from_utf8(text).unwrap(), reference_dump(&data, 0x8000_0ff0));
}

#[test]
fn hexdump_short_line() {
    let text = String::from_utf8(hexdump(b"AB\x01", 0x1000)).unwrap();
    let lines: Vec<&str> = text.lines().collect();
    assert_eq!(lines.len(), 3);
    assert_eq!(lines[0].len(), 70);
    assert!(lines[0].starts_with("------------------------------ hexdump -"));
    assert!(lines[1].starts_with("00001000 41 42 01    "));
    assert!(lines[1].contains("AB."));
    assert_eq!(text, reference_dump(b"AB\x01", 0x1000));
}

#[test]
fn hexdump_empty() {
    let text = String::from_utf8(hexdump(&[], 0)).unwrap();
    assert_eq!(text, reference_dump(&[], 0));
    assert_eq!(text.lines().count(), 2);
}

#[test]
fn hexdump_wide_address() {
    let data = [0xFFu8; 17];
    let text = hexdump(&data, 0x1_2345_6789_0);
    assert_eq!(String::from_utf8(text).unwrap(), reference_dump(&data, 0x1_2345_6789_0));
}
