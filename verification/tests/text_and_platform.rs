use rustkvm::pem::{parse_pem_certs, split_lines, PEM_BEGIN, PEM_END};
use rustkvm::text::{
    lines, parse_signed_exec, parse_unsigned_exec, to_lower, to_upper, trim_chars, trim_end_chars,
    trim_text,
};
use rustkvm::tuning::{hot_irqs, is_hot_irq, is_rk3588};

fn chars(s: &str) -> Vec<char> {
    s.chars().collect()
}

#[test]
fn trimming_follows_str_trim() {
    assert_eq!(trim_text("  a b \n"), "a b");
    assert_eq!(trim_chars(&chars("\u{3000}x\t")), chars("x"));
    assert_eq!(trim_end_chars(&chars("  x  ")), chars("  x"));
    assert_eq!(trim_text("   "), "");
}

#[test]
fn integers_parse_like_from_str() {
    assert_eq!(parse_unsigned_exec(&chars("+42"), 255), Some(42));
    assert_eq!(parse_unsigned_exec(&chars("256"), 255), None);
    assert_eq!(parse_unsigned_exec(&chars(""), 255), None);
    assert_eq!(parse_unsigned_exec(&chars("1a"), 255), None);
    assert_eq!(parse_signed_exec(&chars("-128"), -128, 127), Some(-128));
    assert_eq!(parse_signed_exec(&chars("-129"), -128, 127), None);
    assert_eq!(parse_signed_exec(&chars("127"), -128, 127), Some(127));
}

#[test]
fn lines_split_like_str_lines() {
    let l = lines(&chars("a\r\nb\n\nc"));
    assert_eq!(l, vec![chars("a"), chars("b"), chars(""), chars("c")]);
    assert!(lines(&chars("")).is_empty());
    assert_eq!(lines(&chars("x\n")), vec![chars("x")]);
}

#[test]
fn case_conversion_uses_unicode_rules() {
    assert_eq!(to_upper("abc-ß"), "ABC-SS");
    assert_eq!(to_lower("ÄBC"), "äbc");
}

#[test]
fn rk3588_is_recognised_from_compatible_list() {
    assert!(is_rk3588("friendlyarm,nanopi\0rockchip,rk3588\0"));
    assert!(is_rk3588("rockchip,rk3588"));
    assert!(!is_rk3588("rockchip,rk3588s\0"));
    assert!(!is_rk3588("xrockchip,rk3588\0"));
    assert!(!is_rk3588(""));
}

#[test]
fn hot_irq_drivers() {
    assert!(is_hot_irq("  GICv3 rkvenc-core"));
    assert!(is_hot_irq(" GICv3 fc000000.usb dwc3  "));
    assert!(is_hot_irq("rkjpeg"));
    assert!(!is_hot_irq(" GICv3 dwc3-something"));
    assert!(!is_hot_irq(" eth0"));
}

#[test]
fn hot_irqs_are_read_from_proc_interrupts() {
    let text = "           CPU0       CPU1\n 45:   10  0  GICv3 rkvenc-core\n 46:  0 0 GICv3 eth0\nIPI0: 1 2 Rescheduling interrupts\n 99:  3  4  GICv3 fc000000.usb dwc3\n";
    assert_eq!(hot_irqs(text), vec![45, 99]);
    assert!(hot_irqs("").is_empty());
}

#[test]
fn byte_lines_keep_empty_pieces() {
    assert_eq!(split_lines(b"a\nb\n"), vec![b"a".to_vec(), b"b".to_vec(), vec![]]);
    assert_eq!(split_lines(b""), vec![Vec::<u8>::new()]);
}

#[test]
fn pem_certificates_are_decoded() {
    let pem = format!(
        "junk\n{}\n  AAEC\nAwQ=  \n{}\nmore\n{}\n!!!!\n{}\n",
        PEM_BEGIN, PEM_END, PEM_BEGIN, PEM_END
    );
    let certs = parse_pem_certs(pem.as_bytes());
    assert_eq!(certs, vec![vec![0u8, 1, 2, 3, 4]]);
}

#[test]
fn pem_end_without_begin_and_bad_utf8_lines() {
    let mut data = format!("{}\n{}\nAAEC\n", PEM_END, PEM_BEGIN).into_bytes();
    data.extend_from_slice(&[0xff, 0xfe, b'\n']);
    data.extend_from_slice(format!("{}\n", PEM_END).as_bytes());
    assert_eq!(parse_pem_certs(&data), vec![vec![0u8, 1, 2]]);
    assert!(parse_pem_certs(b"").is_empty());
}
