use amsi::{scan_outcome, AmsiResult, WinError};

#[test]
fn clean_verdict() {
    let r = AmsiResult::new(0);
    assert!(r.is_clean());
    assert!(!r.is_not_detected());
    assert!(!r.is_malware());
    assert!(!r.is_blocked_by_admin());
    assert_eq!(r.get_code(), 0);
}

#[test]
fn not_detected_verdict() {
    let r = AmsiResult::new(1);
    assert!(r.is_not_detected());
    assert!(!r.is_clean());
    assert!(!r.is_malware());
    assert_eq!(r.get_code(), 1);
}

#[test]
fn codes_between_named_ranges() {
    for code in [2u32, 0x3FFF, 0x5000, 32767] {
        let r = AmsiResult::new(code);
        assert!(!r.is_clean());
        assert!(!r.is_not_detected());
        assert!(!r.is_malware());
        assert!(!r.is_blocked_by_admin());
        assert_eq!(r.get_code(), code);
    }
}

#[test]
fn blocked_by_admin_bounds() {
    assert!(AmsiResult::new(0x4000).is_blocked_by_admin());
    assert!(AmsiResult::new(0x4ABC).is_blocked_by_admin());
    assert!(AmsiResult::new(0x4FFF).is_blocked_by_admin());
    assert!(!AmsiResult::new(0x3FFF).is_blocked_by_admin());
    assert!(!AmsiResult::new(0x5000).is_blocked_by_admin());
    assert!(!AmsiResult::new(0x4000).is_malware());
}

#[test]
fn malware_threshold() {
    assert!(!AmsiResult::new(32767).is_malware());
    assert!(AmsiResult::new(32768).is_malware());
    assert!(AmsiResult::new(u32::MAX).is_malware());
    assert_eq!(AmsiResult::new(u32::MAX).get_code(), u32::MAX);
}

#[test]
fn predicates_pin_the_code() {
    for code in [0u32, 1, 2, 0x3FFF, 0x4000, 0x4FFF, 0x5000, 32767, 32768, 40000, u32::MAX] {
        let r = AmsiResult::new(code);
        if r.is_clean() {
            assert_eq!(r.get_code(), 0);
        }
        if r.is_not_detected() {
            assert_eq!(r.get_code(), 1);
        }
        if r.is_malware() {
            assert!(r.get_code() >= 32768);
        }
        if r.is_blocked_by_admin() {
            assert!(r.get_code() >= 0x4000 && r.get_code() <= 0x4FFF);
        }
    }
}

#[test]
fn successful_scan_of_detected_content() {
    let v = scan_outcome(0, 32768).unwrap();
    assert!(v.is_malware());
    assert_eq!(v.get_code(), 32768);
}

#[test]
fn successful_scan_of_harmless_content() {
    let v = scan_outcome(0, 1).unwrap();
    assert!(v.is_not_detected() || v.is_clean());
    assert!(!v.is_malware());
}

#[test]
fn failed_scan_reports_low_word() {
    assert_eq!(scan_outcome(0x8007_0057, 32768), Err(WinError::from_code(0x57)));
    assert_eq!(scan_outcome(0x8000_4005, 0), Err(WinError::from_code(0x4005)));
}
