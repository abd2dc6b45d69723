use mobus_operandi::markdown::Markdown;
use mobus_operandi::mob::{duration_text, indicator_text_shadow_class};
use mobus_operandi::components::RedirectPage;
use mobus_operandi::text::{decimal_string, replaced_char, text_eq};

#[test]
fn decimals() {
    assert_eq!(decimal_string(0), "0");
    assert_eq!(decimal_string(7), "7");
    assert_eq!(decimal_string(-1234), "-1234");
    assert_eq!(decimal_string(i64::MAX), "9223372036854775807");
    assert_eq!(decimal_string(i64::MIN), "-9223372036854775808");
}

#[test]
fn durations() {
    assert_eq!(duration_text(1, 90), "01:30");
    assert_eq!(duration_text(0, 5), "00:05");
    assert_eq!(duration_text(3, 180), "03:00");
    assert_eq!(duration_text(12, 725), "12:05");
    assert_eq!(duration_text(100, 6001), "100:01");
    assert_eq!(duration_text(-1, -65), "-1:-5");
    assert_eq!(duration_text(0, -5), "00:-5");
}

#[test]
fn duration_matches_format() {
    for minutes in [0i64, 1, 59, 60, 61, 179, 180, 1439, 65535] {
        let hours = minutes / 60;
        let expected = format!("{:02}:{:02}", hours, minutes - hours * 60);
        assert_eq!(duration_text(hours, minutes), expected);
    }
}

#[test]
fn text_shadow_class() {
    assert_eq!(
        indicator_text_shadow_class(),
        "[text-shadow:_-1px_-1px_3px_black,_-1px_1px_3px_black,_1px_-1px_3px_black,_1px_1px_3px_black]"
    );
}

#[test]
fn replacing_characters() {
    assert_eq!(replaced_char("a b  c", ' ', '_'), "a_b__c");
    assert_eq!(replaced_char("", ' ', '_'), "");
}

#[test]
fn comparing_texts() {
    assert!(text_eq("abc", "abc"));
    assert!(!text_eq("abc", "abd"));
    assert!(!text_eq("abc", "ab"));
    assert!(text_eq("", ""));
}

#[test]
fn escaping() {
    let page = RedirectPage::new((), "<a href=\"x\">Tom & Jerry's</a>".to_string());
    assert_eq!(
        page.content_html(),
        "<p>Redirecting to<code>&lt;a href=&quot;x&quot;&gt;Tom &amp; Jerry's&lt;/a&gt;</code>...</p>"
    );
}

#[test]
fn markdown_to_html() {
    assert_eq!(Markdown::from("*a*".to_string()).to_html(), "<p><em>a</em></p>\n");
    assert_eq!(Markdown::from("x".to_string()).as_str(), "x");
}
