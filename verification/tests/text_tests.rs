use rhodibot::conformity::append_percentage;
use rhodibot::format_timestamp;
use rhodibot::generate_badge;
use rhodibot::generate_conformity_doc;
use rhodibot::json_escape;
use rhodibot::text::append_decimal;
use rhodibot::text::append_padded;
use rhodibot::text::from_chars;
use rhodibot::text::prefix_before;
use rhodibot::text::to_chars;
use rhodibot::ComplianceLevel;
use rhodibot::ComplianceReport;
use rhodibot::WarningLevel;

#[test]
fn test_json_escape() {
    assert_eq!(json_escape("hello"), "hello");
    assert_eq!(json_escape("he\"llo"), "he\\\"llo");
    assert_eq!(json_escape("he\\llo"), "he\\\\llo");
    assert_eq!(json_escape("he\nllo"), "he\\nllo");
}

#[test]
fn json_escape_of_control_characters() {
    assert_eq!(json_escape("a\rb\tc"), "a\\rb\\tc");
    assert_eq!(json_escape("\u{0}"), "\\u0000");
    assert_eq!(json_escape("\u{1f}"), "\\u001f");
    assert_eq!(json_escape("\u{7f}"), "\\u007f");
    assert_eq!(json_escape("\u{9f}"), "\\u009f");
    assert_eq!(json_escape("\u{a0}"), "\u{a0}");
    assert_eq!(json_escape(" ~"), " ~");
    assert_eq!(json_escape("\u{e9}\u{1f916}"), "\u{e9}\u{1f916}");
    assert_eq!(json_escape(""), "");
}

#[test]
fn json_escape_knows_every_control_character() {
    for code in 0..0x11_0000u32 {
        if let Some(c) = char::from_u32(code) {
            let escaped = json_escape(&c.to_string());
            let expected = match c {
                '"' => String::from("\\\""),
                '\\' => String::from("\\\\"),
                '\n' => String::from("\\n"),
                '\r' => String::from("\\r"),
                '\t' => String::from("\\t"),
                c if c.is_control() => format!("\\u{:04x}", c as u32),
                c => c.to_string(),
            };
            assert_eq!(escaped, expected);
        }
    }
}

#[test]
fn test_generate_badge() {
    let badge = generate_badge(ComplianceLevel::Bronze);
    assert!(badge.contains("RSR-Bronze"));
    assert!(badge.contains("cd7f32"));
}

#[test]
fn badge_text_in_full() {
    assert_eq!(
        generate_badge(ComplianceLevel::Platinum),
        "[![Rhodium Standard Platinum](https://img.shields.io/badge/RSR-Platinum-e5e4e2)](https://github.com/hyperpolymath/rhodium-standard-repositories)"
    );
    assert_eq!(ComplianceLevel::Platinum.badge_color(), "e5e4e2");
    assert_eq!(ComplianceLevel::Bronze.display_name(), "Bronze");
    assert_eq!(ComplianceLevel::Silver.display_name(), "Silver");
    assert_eq!(ComplianceLevel::Gold.display_name(), "Gold");
    assert_eq!(ComplianceLevel::Platinum.display_name(), "Platinum");
}

#[test]
fn timestamps_by_the_calendar() {
    assert_eq!(format_timestamp(Some(0)), "1970-01-01T00:00:00Z");
    assert_eq!(format_timestamp(Some(86399)), "1970-01-01T23:59:59Z");
    assert_eq!(format_timestamp(Some(99705600)), "1973-02-28T00:00:00Z");
    assert_eq!(format_timestamp(Some(951782400)), "2000-02-29T00:00:00Z");
    assert_eq!(format_timestamp(Some(951868799)), "2000-02-29T23:59:59Z");
    assert_eq!(format_timestamp(Some(1705322445)), "2024-01-15T12:40:45Z");
    assert_eq!(format_timestamp(Some(4102444800)), "2100-01-01T00:00:00Z");
    assert_eq!(format_timestamp(Some(253402300800)), "10000-01-01T00:00:00Z");
    assert_eq!(format_timestamp(Some(12622780799)), "2369-12-31T23:59:59Z");
    assert_eq!(format_timestamp(Some(12622780800)), "2370-01-01T00:00:00Z");
    assert_eq!(format_timestamp(Some(u64::MAX)), "584554051223-11-09T07:00:15Z");
    assert_eq!(format_timestamp(None), "unknown");
}

#[test]
fn numerals() {
    let mut out = String::from("n=");
    append_decimal(&mut out, 0);
    out.push(',');
    append_decimal(&mut out, 7);
    out.push(',');
    append_decimal(&mut out, 1234567890);
    out.push(',');
    append_decimal(&mut out, u64::MAX);
    assert_eq!(out, "n=0,7,1234567890,18446744073709551615");

    let mut out = String::new();
    append_padded(&mut out, 5, 10, 4);
    out.push(' ');
    append_padded(&mut out, 12345, 10, 4);
    out.push(' ');
    append_padded(&mut out, 0, 10, 2);
    out.push(' ');
    append_padded(&mut out, 255, 16, 4);
    out.push(' ');
    append_padded(&mut out, 0xabcdef, 16, 0);
    out.push(' ');
    append_padded(&mut out, 5, 2, 8);
    assert_eq!(out, "0005 12345 00 00ff abcdef 00000101");

    let mut out = String::new();
    append_percentage(&mut out, 0);
    out.push(' ');
    append_percentage(&mut out, 62);
    out.push(' ');
    append_percentage(&mut out, 1000);
    assert_eq!(out, "0.0 6.2 100.0");
}

#[test]
fn characters_there_and_back() {
    let chars = to_chars("a\u{e9}\u{1f916}z");
    assert_eq!(chars, vec!['a', '\u{e9}', '\u{1f916}', 'z']);
    assert_eq!(from_chars(&chars, 0, 4), "a\u{e9}\u{1f916}z");
    assert_eq!(from_chars(&chars, 1, 3), "\u{e9}\u{1f916}");
    assert_eq!(from_chars(&chars, 2, 2), "");
    assert_eq!(prefix_before("2024-01-15T12:40:45Z", 'T'), "2024-01-15");
    assert_eq!(prefix_before("unknown", 'T'), "unknown");
    assert_eq!(prefix_before("T", 'T'), "");
    assert_eq!(prefix_before("", 'T'), "");
}

#[test]
fn conformity_statement_of_a_compliant_report() {
    let mut report = ComplianceReport::new(String::from("/work/my-project"), Some(1705322445));
    report.add_check("Documentation", "README.md", true, ComplianceLevel::Bronze);
    report.add_check("Extra", "fuzzing", true, ComplianceLevel::Silver);
    report.add_check("Documentation", "LICENSE.txt", true, ComplianceLevel::Bronze);
    let expected = "# RSR Conformity Statement\n\n\
**Project**: my-project\n\
**RSR Level**: Silver\n\
**Standard**: [Rhodium Standard Repository](https://github.com/hyperpolymath/rhodium-standard-repositories)\n\
**Last Verified**: 2024-01-15\n\n\
## Silver Requirements Met\n\n\
| Requirement | Status |\n\
|-------------|--------|\n\
| fuzzing | Yes |\n\
\n## Verification\n\n\
Run self-verification:\n\
```bash\n\
rhodibot check .\n\
```\n\n\
Expected output: `3/3 checks passed (100.0%)`\n";
    assert_eq!(generate_conformity_doc(&report), expected);
}

#[test]
fn conformity_statement_of_a_failing_report() {
    let mut report = ComplianceReport::new(String::from("/"), None);
    report.add_check("Documentation", "README.md", true, ComplianceLevel::Bronze);
    report.add_check("Documentation", "LICENSE.txt", false, ComplianceLevel::Bronze);
    report.add_check("Documentation", "SECURITY.md", false, ComplianceLevel::Bronze);
    let expected = "# RSR Conformity Statement\n\n\
**Project**: Unknown\n\
**RSR Level**: Not Met\n\
**Standard**: [Rhodium Standard Repository](https://github.com/hyperpolymath/rhodium-standard-repositories)\n\
**Last Verified**: unknown\n\n\
\n## Verification\n\n\
Run self-verification:\n\
```bash\n\
rhodibot check .\n\
```\n\n\
Expected output: `1/3 checks passed (33.3%)`\n";
    assert_eq!(generate_conformity_doc(&report), expected);
}

#[test]
fn conformity_statement_lists_failed_rows_of_the_tier() {
    let mut report = ComplianceReport::new(String::from("repo/"), Some(0));
    report.add_check("A", "one", true, ComplianceLevel::Bronze);
    report.add_check("B", "two", false, ComplianceLevel::Silver);
    report.add_warning(WarningLevel::Info, "note", None);
    let doc = generate_conformity_doc(&report);
    assert!(doc.contains("**Project**: repo\n"));
    assert!(doc.contains("**RSR Level**: Bronze\n"));
    assert!(doc.contains("**Last Verified**: 1970-01-01\n"));
    assert!(doc.contains("## Bronze Requirements Met\n\n| Requirement | Status |\n|-------------|--------|\n| one | Yes |\n\n## Verification"));
    assert!(doc.contains("`1/2 checks passed (50.0%)`"));
}

#[test]
fn conformity_statement_of_a_compliant_base_tier_report() {
    let mut report = ComplianceReport::new(String::from("/work/my-project"), Some(1705322445));
    report.add_check("Documentation", "README.md", true, ComplianceLevel::Bronze);
    report.add_check("Documentation", "LICENSE.txt", true, ComplianceLevel::Bronze);
    let expected = "# RSR Conformity Statement\n\n\
**Project**: my-project\n\
**RSR Level**: Bronze\n\
**Standard**: [Rhodium Standard Repository](https://github.com/hyperpolymath/rhodium-standard-repositories)\n\
**Last Verified**: 2024-01-15\n\n\
## Bronze Requirements Met\n\n\
| Requirement | Status |\n\
|-------------|--------|\n\
| README.md | Yes |\n\
| LICENSE.txt | Yes |\n\
\n## Verification\n\n\
Run self-verification:\n\
```bash\n\
rhodibot check .\n\
```\n\n\
Expected output: `2/2 checks passed (100.0%)`\n";
    assert_eq!(generate_conformity_doc(&report), expected);
}
